//! Answering a query from the index.

use vstd::prelude::*;
use crate::errors::{CacherchError, ErrorView};
use vstd::utf8::encode_utf8;
use crate::index_store::{
    best_matches, open_index, open_parser, open_searcher, query_detail, query_fields,
    storage_detail, stored, stored_json, top_docs, well_formed, Opened, TopDocsOutcome,
};
use crate::json::{json_of, parse, parse_detail, JsonValue};
use crate::cache::{
    cache_key, entry_for, get_cached_results, lookup, set_cached_results, spec_cache_key,
    CacheEntry, CacheEntryView, StoreReply, StoreReplyView,
};
use crate::types::{results_view, SearchResult, SearchResultView};

verus! {

/// How many results a search command asks for.
pub const SEARCH_LIMIT: usize = 5;

/// The weight of the title: a match in a document's title scores this many
/// times what the index would give it unweighted, so that a document named
/// after a term outranks one that merely mentions it.
pub const TITLE_BOOST: u8 = 2;

/// The largest number of results that can be asked of the index at once.
pub const MAX_LIMIT: usize = 0x10_0000;

/// How many nested parts a query may open at most.
pub const MAX_NESTING: usize = 8;

/// Whether a byte is a space, a tab, a line feed or a carriage return.
pub open spec fn is_blank(byte: u8) -> bool {
    byte == 0x20 || byte == 0x09 || byte == 0x0a || byte == 0x0d
}

/// Whether a nested part of a query can open at a position of its text,
/// given as bytes: there is a `(` there, or the letters `NOT` begin there
/// and a blank follows them.
pub open spec fn opens_nesting(bytes: Seq<u8>, at: int) -> bool {
    &&& 0 <= at < bytes.len()
    &&& bytes[at] == 0x28 || (at + 3 < bytes.len() && bytes[at] == 0x4e && bytes[at + 1] == 0x4f
        && bytes[at + 2] == 0x54 && is_blank(bytes[at + 3]))
}

/// The number of positions before `upto` at which a nested part can open.
pub open spec fn nesting_marks(bytes: Seq<u8>, upto: int) -> nat
    decreases upto,
{
    if upto <= 0 {
        0
    } else {
        nesting_marks(bytes, upto - 1) + if opens_nesting(bytes, upto - 1) {
            1nat
        } else {
            0nat
        }
    }
}

/// A bound on how deep a query nests: the number of positions of its text
/// at which a nested part can open.
pub open spec fn nesting(text: Seq<char>) -> nat {
    nesting_marks(encode_utf8(text), encode_utf8(text).len() as int)
}

/// Whether `text` opens no more nested parts than a query may.
pub fn within_nesting(text: &str) -> (r: bool)
    ensures
        r == (nesting(text@) <= MAX_NESTING),
{
    let bytes = text.as_bytes();
    let n = bytes.len();
    let mut count: usize = 0;
    let mut i: usize = 0;
    while i < n
        invariant
            i <= n,
            n == bytes@.len(),
            count <= i,
            count == nesting_marks(bytes@, i as int),
        decreases n - i,
    {
        let opens = bytes[i] == 0x28 || (n - i > 3 && bytes[i] == 0x4e && bytes[i + 1] == 0x4f
            && bytes[i + 2] == 0x54 && (bytes[i + 3] == 0x20 || bytes[i + 3] == 0x09 || bytes[i
            + 3] == 0x0a || bytes[i + 3] == 0x0d));
        if opens {
            count += 1;
        }
        i += 1;
    }
    count <= MAX_NESTING
}

/// The result that a stored document and its score stand for: the first
/// value of its `title` and of its `path`, each empty where the document
/// holds none.
pub open spec fn result_of(stored: JsonValue, score_bits: u32) -> SearchResultView {
    SearchResultView {
        title: stored.spec_first_text("title"@),
        path: stored.spec_first_text("path"@),
        score_bits,
    }
}

pub fn result_from_stored(stored: &JsonValue, score_bits: u32) -> (r: SearchResult)
    ensures
        r@ == result_of(*stored, score_bits),
{
    SearchResult::new(stored.first_text("title"), stored.first_text("path"), score_bits)
}

/// Reads a stored document, given as the text of a JSON object that maps
/// each field's name to the list of its values, and makes the result that
/// it stands for under `score_bits`. A text that is not JSON is a storage
/// failure.
pub fn stored_result(stored: &str, score_bits: u32) -> (r: Result<SearchResult, CacherchError>)
    ensures
        match json_of(stored@) {
            Some(value) => r matches Ok(result) && result@ == result_of(value, score_bits),
            None => r matches Err(e) && e@ is IndexStorage,
        },
{
    match parse(stored) {
        Ok(value) => Ok(result_from_stored(&value, score_bits)),
        Err(error) => Err(CacherchError::IndexStorage(parse_detail(&error))),
    }
}

/// The failure that a storage error of the index stands for.
pub(crate) fn storage_failure(error: &tantivy::TantivyError) -> (r: CacherchError)
    ensures
        r@ is IndexStorage,
{
    CacherchError::IndexStorage(storage_detail(error))
}

/// What the opening of an index comes to: the index, `IndexNotFound`
/// where there is none to open, and `IndexStorage` where it is there and
/// could not be opened.
pub(crate) fn index_of(opened: Opened) -> (r: Result<tantivy::Index, CacherchError>)
    ensures
        match opened {
            Opened::Index(index) => r == Ok::<tantivy::Index, CacherchError>(index),
            Opened::Missing => r matches Err(e) && e@ is IndexNotFound,
            Opened::Failed(_) => r matches Err(e) && e@ is IndexStorage,
        },
{
    match opened {
        Opened::Index(index) => Ok(index),
        Opened::Missing => Err(CacherchError::IndexNotFound),
        Opened::Failed(error) => Err(storage_failure(&error)),
    }
}

/// The committed documents of an index as they were when it was opened,
/// with the grammar by which they are queried.
pub struct IndexSnapshot {
    searcher: tantivy::Searcher,
    parser: tantivy::query::QueryParser,
}

impl IndexSnapshot {
    /// The documents that the snapshot holds: for the address of each, its
    /// stored fields as the text of a JSON object that maps each field's
    /// name to the list of its values.
    pub closed spec fn documents(&self) -> Map<(u32, u32), Seq<char>> {
        stored(self.searcher)
    }

    /// Whether the document at `address` stands for `result`, whatever the
    /// score: the snapshot holds a document there, and the result's title
    /// and path are the first values of its `title` and `path`.
    pub open spec fn shows(&self, address: (u32, u32), result: SearchResultView) -> bool {
        &&& self.documents().dom().contains(address)
        &&& json_of(self.documents()[address]) matches Some(value)
        &&& result == result_of(value, result.score_bits)
    }

    /// Whether `result` stands for one of the snapshot's documents.
    pub open spec fn holds(&self, result: SearchResultView) -> bool {
        exists|address: (u32, u32)| #[trigger] self.shows(address, result)
    }

    /// Opens the index in `directory` for queries over `title` and `body`,
    /// the title weighted by [`TITLE_BOOST`].
    ///
    /// Fails with `IndexNotFound` when the directory, or an index in it,
    /// does not exist, and with `IndexStorage` when the index cannot be
    /// read or lacks one of the two fields.
    pub fn open(directory: &str) -> (r: Result<IndexSnapshot, CacherchError>)
        ensures
            match r {
                Ok(snapshot) => snapshot.query_fields() == seq![
                    ("title"@, TITLE_BOOST),
                    ("body"@, 1u8),
                ],
                Err(e) => e@ is IndexNotFound || e@ is IndexStorage,
            },
    {
        let index = match index_of(open_index(directory)) {
            Ok(index) => index,
            Err(error) => {
                return Err(error);
            },
        };
        proof {
            reveal_strlit("title");
            reveal_strlit("body");
        }
        assert("title"@ != "body"@) by {
            assert("title"@[0] != "body"@[0]);
        }
        let searcher = match open_searcher(&index) {
            Ok(searcher) => searcher,
            Err(error) => {
                return Err(storage_failure(&error));
            },
        };
        match open_parser(&index, "title", TITLE_BOOST, "body") {
            Ok(parser) => Ok(IndexSnapshot { searcher, parser }),
            Err(error) => Err(storage_failure(&error)),
        }
    }

    /// Loads the documents behind the first `limit` hits and turns each
    /// into a result, in the order of the hits. Each hit must be at the
    /// address of a document of the snapshot. No hits, or a limit of zero,
    /// give an empty list and never a failure.
    pub fn load_results(&self, hits: &Vec<Hit>, limit: usize) -> (r: Result<
        Vec<SearchResult>,
        CacherchError,
    >)
        requires
            forall|i: int|
                0 <= i < hits.len() ==> self.documents().dom().contains(
                    (#[trigger] hits[i].segment, hits[i].doc),
                ),
        ensures
            match r {
                Ok(results) => self.renders(leading(hits@, limit), results_view(results@)),
                Err(e) => e@ is IndexStorage,
            },
            hits.len() == 0 || limit == 0 ==> r is Ok,
    {
        let count = if hits.len() <= limit {
            hits.len()
        } else {
            limit
        };
        let mut results: Vec<SearchResult> = Vec::new();
        let mut i: usize = 0;
        while i < count
            invariant
                i <= count <= hits.len(),
                count <= limit,
                results.len() == i,
                forall|k: int|
                    0 <= k < hits.len() ==> self.documents().dom().contains(
                        (#[trigger] hits[k].segment, hits[k].doc),
                    ),
                forall|k: int|
                    0 <= k < i ==> (#[trigger] results[k])@.score_bits == hits[k].score_bits
                        && self.shows((hits[k].segment, hits[k].doc), results[k]@),
            decreases count - i,
        {
            let hit = &hits[i];
            assert(self.documents().dom().contains((hits[i as int].segment, hits[i as int].doc)));
            let text = match stored_json(&self.searcher, hit.segment, hit.doc) {
                Ok(text) => text,
                Err(error) => {
                    return Err(storage_failure(&error));
                },
            };
            match stored_result(text.as_str(), hit.score_bits) {
                Ok(result) => {
                    results.push(result);
                },
                Err(error) => {
                    return Err(error);
                },
            }
            i += 1;
        }
        assert(leading(hits@, limit).len() == count);
        Ok(results)
    }

    /// Answers `text` with its `limit` best matches, best first.
    ///
    /// The text is read as a query over the `title` and `body` of the
    /// documents. What matches, and how well, is the index's to say; a query
    /// that matches nothing yields an empty list. Every result stands for
    /// a document of the snapshot. A limit of zero yields an empty list,
    /// but the text is still read, so that a malformed query is reported.
    ///
    /// Fails with `QueryParse` when `text` opens more than [`MAX_NESTING`]
    /// nested parts or is not a query to the grammar, and with
    /// `IndexStorage` when the index cannot be read.
    pub fn query(&self, text: &str, limit: usize) -> (r: Result<Vec<SearchResult>, CacherchError>)
        requires
            limit <= MAX_LIMIT,
        ensures
            match r {
                Ok(results) => {
                    &&& self.accepts(text@)
                    &&& self.answers(text@, limit, results_view(results@))
                    &&& results.len() <= limit
                    &&& forall|i: int|
                        0 <= i < results.len() ==> self.holds((#[trigger] results[i])@)
                },
                Err(e) => if self.accepts(text@) {
                    e@ is IndexStorage
                } else {
                    e@ is QueryParse
                },
            },
    {
        if !within_nesting(text) {
            return Err(CacherchError::QueryParse("the query nests too deep".to_owned()));
        }
        let asked: usize = if limit == 0 {
            1
        } else {
            limit
        };
        match top_docs(&self.searcher, &self.parser, text, asked) {
            TopDocsOutcome::Found(hits) => {
                let r = self.load_results(&hits, limit);
                proof {
                    if r is Ok {
                        let results = r->Ok_0;
                        assert(limit > 0 ==> leading(hits@, limit) == hits@);
                        assert forall|i: int| 0 <= i < results.len() implies self.holds(
                            (#[trigger] results[i])@,
                        ) by {
                            assert(results_view(results@)[i] == results[i]@);
                            assert(self.shows((hits[i].segment, hits[i].doc), results[i]@));
                        }
                    }
                }
                r
            },
            TopDocsOutcome::Malformed(error) => Err(
                CacherchError::QueryParse(query_detail(&error)),
            ),
            TopDocsOutcome::Failed(error) => Err(storage_failure(&error)),
        }
    }
}

/// Answers `text` from the index in `directory` with its `limit` best
/// matches, best first: opens a snapshot of the index and queries it.
///
/// Fails with `IndexNotFound` when `directory` holds no index, with
/// `QueryParse` when `text` is not a query, and with `IndexStorage` when the
/// index cannot be read.
pub fn query_index(directory: &str, text: &str, limit: usize) -> (r: Result<
    Vec<SearchResult>,
    CacherchError,
>)
    requires
        limit <= MAX_LIMIT,
    ensures
        match r {
            Ok(results) => results.len() <= limit && exists|snapshot: IndexSnapshot|
                snapshot.accepts(text@) && #[trigger] snapshot.answers(
                    text@,
                    limit,
                    results_view(results@),
                ),
            Err(e) => e@ is IndexNotFound || e@ is IndexStorage || (e@ is QueryParse
                && exists|snapshot: IndexSnapshot| !#[trigger] snapshot.accepts(text@)),
        },
{
    match IndexSnapshot::open(directory) {
        Ok(snapshot) => snapshot.query(text, limit),
        Err(error) => Err(error),
    }
}

/// One match as the index reports it: the bit pattern of its score and the
/// address of the document, which is the ordinal of its segment and its
/// number within the segment.
pub struct Hit {
    pub score_bits: u32,
    pub segment: u32,
    pub doc: u32,
}

/// The first `limit` of `hits`, and all of them where there are fewer.
pub open spec fn leading(hits: Seq<Hit>, limit: usize) -> Seq<Hit> {
    if hits.len() <= limit {
        hits
    } else {
        hits.take(limit as int)
    }
}

impl IndexSnapshot {
    /// The fields in which the snapshot looks for a term of a query that
    /// names no field, each with the weight by which the scores of its
    /// matches are multiplied.
    pub closed spec fn query_fields(&self) -> Seq<(Seq<char>, u8)> {
        query_fields(self.parser)
    }

    /// Whether the snapshot's grammar reads `text` as a query.
    pub closed spec fn parses(&self, text: Seq<char>) -> bool {
        well_formed(self.parser, text)
    }

    /// Whether the snapshot takes `text` for a query: it opens no more
    /// than [`MAX_NESTING`] nested parts, and the grammar reads it as a
    /// query.
    pub open spec fn accepts(&self, text: Seq<char>) -> bool {
        nesting(text) <= MAX_NESTING && self.parses(text)
    }

    /// The matches of `text` among the snapshot's documents: the `limit`
    /// best of them, or all where there are fewer, best first.
    pub closed spec fn ranking(&self, text: Seq<char>, limit: usize) -> Seq<Hit> {
        best_matches(self.searcher, self.parser, text, limit)
    }

    /// Whether `results` are what `hits` stand for: one result for each
    /// hit, in order, with the hit's score and with the title and the path
    /// of the document at the hit's address.
    pub open spec fn renders(&self, hits: Seq<Hit>, results: Seq<SearchResultView>) -> bool {
        &&& results.len() == hits.len()
        &&& forall|i: int|
            0 <= i < results.len() ==> (#[trigger] results[i]).score_bits == hits[i].score_bits
                && self.shows((hits[i].segment, hits[i].doc), results[i])
    }

    /// Whether `results` are the snapshot's answer to `text` under `limit`:
    /// what its ranking of the text stands for, and nothing under a limit
    /// of zero.
    pub open spec fn answers(
        &self,
        text: Seq<char>,
        limit: usize,
        results: Seq<SearchResultView>,
    ) -> bool {
        if limit == 0 {
            results.len() == 0
        } else {
            self.renders(self.ranking(text, limit), results)
        }
    }
}

/// Where a search stands.
#[derive(Debug, PartialEq, Eq)]
pub enum SearchPhase {
    /// The cache is being emptied.
    Flushing,
    /// The cache is being asked for the key.
    Reading,
    /// The cache had nothing to serve; the index is being asked.
    Querying,
    /// The index has answered; the answer is being written to the cache.
    Writing(Vec<SearchResult>),
    /// Ended: the answer came from the cache.
    Hit(Vec<SearchResult>),
    /// Ended: the answer came from the index.
    Fresh(Vec<SearchResult>),
    /// Ended: the index could not answer.
    Failed(CacherchError),
}

/// Mathematical model of a [`SearchPhase`].
pub ghost enum PhaseView {
    Flushing,
    Reading,
    Querying,
    Writing(Seq<SearchResultView>),
    Hit(Seq<SearchResultView>),
    Fresh(Seq<SearchResultView>),
    Failed(ErrorView),
}

impl View for SearchPhase {
    type V = PhaseView;

    open spec fn view(&self) -> PhaseView {
        match self {
            SearchPhase::Flushing => PhaseView::Flushing,
            SearchPhase::Reading => PhaseView::Reading,
            SearchPhase::Querying => PhaseView::Querying,
            SearchPhase::Writing(results) => PhaseView::Writing(results_view(results@)),
            SearchPhase::Hit(results) => PhaseView::Hit(results_view(results@)),
            SearchPhase::Fresh(results) => PhaseView::Fresh(results_view(results@)),
            SearchPhase::Failed(error) => PhaseView::Failed(error@),
        }
    }
}

/// What the caller has to do for a search to go on.
#[derive(Debug, PartialEq, Eq, Structural, Clone, Copy)]
pub enum SearchRequest {
    /// Empty the cache, then report `CacheFlushed`.
    FlushCache,
    /// Ask the cache for the search's key, then report `CacheRead`.
    ReadCache,
    /// Ask the index, then report `IndexAnswered`.
    QueryIndex,
    /// Write the search's entry to the cache, then report `CacheWritten`.
    WriteCache,
    /// Nothing: the search has ended.
    Finish,
}

/// What the caller reports back.
#[derive(Debug)]
pub enum SearchEvent {
    /// The cache was emptied, or could not be: the search goes on alike.
    CacheFlushed,
    /// What the cache said, and the second at which it said so.
    CacheRead(StoreReply, u64),
    /// What the index answered.
    IndexAnswered(Result<Vec<SearchResult>, CacherchError>),
    /// Whether the cache took the entry.
    CacheWritten(bool),
}

/// Mathematical model of a [`SearchEvent`].
pub ghost enum EventView {
    CacheFlushed,
    CacheRead(StoreReplyView, nat),
    IndexAnswered(Result<Seq<SearchResultView>, ErrorView>),
    CacheWritten(bool),
}

impl View for SearchEvent {
    type V = EventView;

    open spec fn view(&self) -> EventView {
        match self {
            SearchEvent::CacheFlushed => EventView::CacheFlushed,
            SearchEvent::CacheRead(reply, now) => EventView::CacheRead(reply@, *now as nat),
            SearchEvent::IndexAnswered(answer) => EventView::IndexAnswered(
                match answer {
                    Ok(results) => Ok(results_view(results@)),
                    Err(error) => Err(error@),
                },
            ),
            SearchEvent::CacheWritten(taken) => EventView::CacheWritten(*taken),
        }
    }
}

/// One search, from the command to its answer.
#[derive(Debug)]
pub struct SearchFlow {
    query: String,
    key: String,
    ttl: usize,
    phase: SearchPhase,
}

/// Mathematical model of a [`SearchFlow`].
pub ghost struct SearchFlowView {
    pub query: Seq<char>,
    pub key: Seq<char>,
    pub ttl: usize,
    pub phase: PhaseView,
}

impl View for SearchFlow {
    type V = SearchFlowView;

    closed spec fn view(&self) -> SearchFlowView {
        SearchFlowView { query: self.query@, key: self.key@, ttl: self.ttl, phase: self.phase@ }
    }
}

/// The state in which a search starts: emptying the cache if that was asked
/// for, reading it otherwise.
pub open spec fn start(query: Seq<char>, ttl: usize, flush_cache: bool) -> SearchFlowView {
    SearchFlowView {
        query,
        key: spec_cache_key(query),
        ttl,
        phase: if flush_cache {
            PhaseView::Flushing
        } else {
            PhaseView::Reading
        },
    }
}

/// The phase that follows `phase` on `event`, for a search with this key.
///
/// An emptied cache is read next. A read that yields a live entry for the
/// key ends the search with that entry's value; any other read sends the
/// search to the index. An answer of the index is written to the cache, a
/// failure of the index ends the search. Whether the write succeeded or
/// not, the search ends with the index's answer. An event that the phase
/// is not waiting for changes nothing.
pub open spec fn next_phase(phase: PhaseView, key: Seq<char>, event: EventView) -> PhaseView {
    match (phase, event) {
        (PhaseView::Flushing, EventView::CacheFlushed) => PhaseView::Reading,
        (PhaseView::Reading, EventView::CacheRead(reply, now)) => match lookup(reply, key, now) {
            Some(value) => PhaseView::Hit(value),
            None => PhaseView::Querying,
        },
        (PhaseView::Querying, EventView::IndexAnswered(Ok(results))) => PhaseView::Writing(results),
        (PhaseView::Querying, EventView::IndexAnswered(Err(error))) => PhaseView::Failed(error),
        (PhaseView::Writing(results), EventView::CacheWritten(_)) => PhaseView::Fresh(results),
        _ => phase,
    }
}

/// The search after `event`.
pub open spec fn step(flow: SearchFlowView, event: EventView) -> SearchFlowView {
    SearchFlowView { phase: next_phase(flow.phase, flow.key, event), ..flow }
}

impl PhaseView {
    /// What the caller has to do in this phase.
    pub open spec fn request(self) -> SearchRequest {
        match self {
            PhaseView::Flushing => SearchRequest::FlushCache,
            PhaseView::Reading => SearchRequest::ReadCache,
            PhaseView::Querying => SearchRequest::QueryIndex,
            PhaseView::Writing(_) => SearchRequest::WriteCache,
            _ => SearchRequest::Finish,
        }
    }

    /// How often the index was asked on the way to this phase.
    pub open spec fn index_runs(self) -> nat {
        match self {
            PhaseView::Writing(_) | PhaseView::Fresh(_) | PhaseView::Failed(_) => 1,
            _ => 0,
        }
    }

    /// Whether the search has ended.
    pub open spec fn is_final(self) -> bool {
        self is Hit || self is Fresh || self is Failed
    }
}

/// Starts a search for `query_str`, whose answer is to stay in the cache
/// for `ttl` seconds.
pub fn search_query(query_str: &str, ttl: usize, flush_cache: bool) -> (flow: SearchFlow)
    ensures
        flow@ == start(query_str@, ttl, flush_cache),
{
    SearchFlow {
        query: query_str.to_owned(),
        key: cache_key(query_str),
        ttl,
        phase: if flush_cache {
            SearchPhase::Flushing
        } else {
            SearchPhase::Reading
        },
    }
}

impl SearchFlow {
    /// The query as it was typed.
    pub fn query(&self) -> (r: &String)
        ensures
            r@ == self@.query,
    {
        &self.query
    }

    /// The key of the search in the cache.
    pub fn key(&self) -> (r: &String)
        ensures
            r@ == self@.key,
    {
        &self.key
    }

    /// The seconds for which the answer is to stay in the cache.
    pub fn ttl(&self) -> (r: usize)
        ensures
            r == self@.ttl,
    {
        self.ttl
    }

    /// Where the search stands.
    pub fn phase(&self) -> (r: &SearchPhase)
        ensures
            r@ == self@.phase,
    {
        &self.phase
    }

    /// What the caller has to do next.
    pub fn request(&self) -> (r: SearchRequest)
        ensures
            r == self@.phase.request(),
    {
        match &self.phase {
            SearchPhase::Flushing => SearchRequest::FlushCache,
            SearchPhase::Reading => SearchRequest::ReadCache,
            SearchPhase::Querying => SearchRequest::QueryIndex,
            SearchPhase::Writing(_) => SearchRequest::WriteCache,
            _ => SearchRequest::Finish,
        }
    }

    /// How often the index was asked so far.
    pub fn index_runs(&self) -> (r: usize)
        ensures
            r == self@.phase.index_runs(),
    {
        match &self.phase {
            SearchPhase::Writing(_) | SearchPhase::Fresh(_) | SearchPhase::Failed(_) => 1,
            _ => 0,
        }
    }

    /// The entry to write to the cache at second `now`, while the search
    /// waits for that write; nothing in any other phase.
    pub fn entry_to_write(&self, now: u64) -> (r: Option<CacheEntry>)
        ensures
            match r {
                Some(entry) => self@.phase matches PhaseView::Writing(results) && entry@
                    == entry_for(self@.key, results, self@.ttl as nat, now as nat),
                None => !(self@.phase is Writing),
            },
    {
        match &self.phase {
            SearchPhase::Writing(results) => Some(
                set_cached_results(self.key.as_str(), results, self.ttl, now),
            ),
            _ => None,
        }
    }

    /// The search after `event`.
    pub fn advance(self, event: SearchEvent) -> (r: SearchFlow)
        ensures
            r@ == step(self@, event@),
    {
        let SearchFlow { query, key, ttl, phase } = self;
        let next = match (phase, event) {
            (SearchPhase::Flushing, SearchEvent::CacheFlushed) => SearchPhase::Reading,
            (SearchPhase::Reading, SearchEvent::CacheRead(reply, now)) => {
                match get_cached_results(reply, key.as_str(), now) {
                    Some(value) => SearchPhase::Hit(value),
                    None => SearchPhase::Querying,
                }
            },
            (SearchPhase::Querying, SearchEvent::IndexAnswered(Ok(results))) => {
                SearchPhase::Writing(results)
            },
            (SearchPhase::Querying, SearchEvent::IndexAnswered(Err(error))) => {
                SearchPhase::Failed(error)
            },
            (SearchPhase::Writing(results), SearchEvent::CacheWritten(_)) => {
                SearchPhase::Fresh(results)
            },
            (phase, _) => phase,
        };
        SearchFlow { query, key, ttl, phase: next }
    }

    /// Asks the index in `directory` for the search's query, if the search
    /// waits for that, and takes the answer in: what a snapshot of the
    /// index answers under [`SEARCH_LIMIT`], or why there is no answer. In
    /// any other phase nothing happens.
    pub fn run_query(self, directory: &str) -> (r: SearchFlow)
        ensures
            r@.query == self@.query,
            r@.key == self@.key,
            r@.ttl == self@.ttl,
            !(self@.phase is Querying) ==> r@ == self@,
            self@.phase is Querying ==> match r@.phase {
                PhaseView::Writing(results) => results.len() <= SEARCH_LIMIT
                    && exists|snapshot: IndexSnapshot|
                    snapshot.accepts(self@.query) && #[trigger] snapshot.answers(
                        self@.query,
                        SEARCH_LIMIT,
                        results,
                    ),
                PhaseView::Failed(e) => e is IndexNotFound || e is IndexStorage || (e is QueryParse
                    && exists|snapshot: IndexSnapshot| !#[trigger] snapshot.accepts(self@.query)),
                _ => false,
            },
    {
        match &self.phase {
            SearchPhase::Querying => {
                let answer = query_index(directory, self.query.as_str(), SEARCH_LIMIT);
                self.advance(SearchEvent::IndexAnswered(answer))
            },
            _ => self,
        }
    }

    /// The answer, once the search has ended well.
    pub fn results(&self) -> (r: Option<&Vec<SearchResult>>)
        ensures
            match r {
                Some(results) => self@.phase == PhaseView::Hit(results_view(results@))
                    || self@.phase == PhaseView::Fresh(results_view(results@)),
                None => !(self@.phase is Hit || self@.phase is Fresh),
            },
    {
        match &self.phase {
            SearchPhase::Hit(results) => Some(results),
            SearchPhase::Fresh(results) => Some(results),
            _ => None,
        }
    }

    /// The failure, once the search has ended badly.
    pub fn failure(&self) -> (r: Option<&CacherchError>)
        ensures
            match r {
                Some(error) => self@.phase == PhaseView::Failed(error@),
                None => !(self@.phase is Failed),
            },
    {
        match &self.phase {
            SearchPhase::Failed(error) => Some(error),
            _ => None,
        }
    }
}

/// A read that finds a live entry for the search's key ends the search with
/// the entry's value, and the index is never asked.
pub proof fn law_hit_skips_index(flow: SearchFlowView, entry: CacheEntryView, now: nat)
    requires
        flow.phase is Reading,
        entry.key == flow.key,
        now < entry.expires_at,
    ensures
        step(flow, EventView::CacheRead(StoreReplyView::Found(entry), now)).phase
            == PhaseView::Hit(entry.value),
        step(flow, EventView::CacheRead(StoreReplyView::Found(entry), now)).phase.index_runs()
            == 0,
{
}

/// A search that is repeated before the first one's entry expires is served
/// the first one's answer from the cache, without asking the index, provided
/// the store hands back the entry that the first search wrote.
pub proof fn law_repeated_search_is_served(
    query: Seq<char>,
    ttl: usize,
    answer: Seq<SearchResultView>,
    written_at: nat,
    read_at: nat,
)
    requires
        written_at <= read_at < written_at + ttl,
    ensures
        ({
            let first = step(start(query, ttl, false), EventView::CacheRead(StoreReplyView::Missing, written_at));
            let asked = step(first, EventView::IndexAnswered(Ok(answer)));
            let entry = entry_for(asked.key, answer, asked.ttl as nat, written_at);
            let second = step(
                start(query, ttl, false),
                EventView::CacheRead(StoreReplyView::Found(entry), read_at),
            );
            &&& asked.phase == PhaseView::Writing(answer)
            &&& second.phase == PhaseView::Hit(answer)
            &&& second.phase.index_runs() == 0
        }),
{
}

/// A cache that fails, holds nothing, holds an expired entry or holds an
/// entry for another key sends the search to the index: none of these is an
/// error.
pub proof fn law_miss_asks_index(flow: SearchFlowView, reply: StoreReplyView, now: nat)
    requires
        flow.phase is Reading,
        match reply {
            StoreReplyView::Found(entry) => entry.key != flow.key || now >= entry.expires_at,
            _ => true,
        },
    ensures
        step(flow, EventView::CacheRead(reply, now)).phase is Querying,
{
}

/// Whether the cache takes the entry or not, the search ends with the
/// answer of the index.
pub proof fn law_write_is_best_effort(flow: SearchFlowView, taken: bool)
    requires
        flow.phase is Writing,
    ensures
        step(flow, EventView::CacheWritten(taken)).phase == PhaseView::Fresh(flow.phase->Writing_0),
{
}

/// A search that has ended stays as it is, whatever is reported to it.
pub proof fn law_end_is_final(flow: SearchFlowView, event: EventView)
    requires
        flow.phase.is_final(),
    ensures
        step(flow, event) == flow,
{
}

/// The index is asked at most once in a search, and the count never falls.
pub proof fn law_index_asked_once(flow: SearchFlowView, event: EventView)
    ensures
        flow.phase.index_runs() <= step(flow, event).phase.index_runs() <= 1,
{
}

} // verus!
