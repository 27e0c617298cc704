//! Building the index: walking a directory tree, turning its files into
//! documents, and writing the documents to the index.
//!
//! The walk is a state machine. It never touches the file system: it says
//! which directory to list or which file to read, the caller does so and
//! reports what came of it.

use vstd::prelude::*;
use vstd::multiset::Multiset;
use crate::errors::{CacherchError, ErrorView};
use crate::helpers::{
    base_name, classify, extension, extract_pdf_text, file_kind, file_name_of, kind_key,
    last_index_of, FileKind, FileKindView,
};
use crate::index_store::{
    clear_documents, clears, commit, create_index, open_or_create_index, open_writer, published,
    queued, queue_document, schema_of, text_fields, text_schema, Writer,
};
use crate::searcher::storage_failure;

verus! {

/// One indexed file. Its title and its body are searched, its title and its
/// path can be retrieved. The path is never empty.
#[derive(Debug, PartialEq, Eq)]
pub struct Document {
    title: String,
    body: String,
    path: String,
}

/// Mathematical model of a [`Document`].
pub ghost struct DocumentView {
    pub title: Seq<char>,
    pub body: Seq<char>,
    pub path: Seq<char>,
}

impl View for Document {
    type V = DocumentView;

    closed spec fn view(&self) -> DocumentView {
        DocumentView { title: self.title@, body: self.body@, path: self.path@ }
    }
}

/// The document that stands for the file at `path` with the text `body`:
/// its title is the file's name.
pub open spec fn document_for(path: Seq<char>, body: Seq<char>) -> DocumentView {
    DocumentView { title: base_name(path), body, path }
}

impl Document {
    #[verifier::type_invariant]
    spec fn has_path(self) -> bool {
        self.path@.len() > 0
    }

    /// A document with the given fields, unless the path is empty.
    pub fn new(title: String, body: String, path: String) -> (r: Option<Document>)
        ensures
            match r {
                Some(d) => path@.len() > 0 && d@ == (DocumentView {
                    title: title@,
                    body: body@,
                    path: path@,
                }),
                None => path@.len() == 0,
            },
    {
        if path.as_str().unicode_len() == 0 {
            None
        } else {
            Some(Document { title, body, path })
        }
    }

    /// The document for the file at `path`, unless the path is empty.
    pub fn for_file(path: String, body: String) -> (r: Option<Document>)
        ensures
            match r {
                Some(d) => path@.len() > 0 && d@ == document_for(path@, body@),
                None => path@.len() == 0,
            },
    {
        let title = file_name_of(path.as_str());
        Document::new(title, body, path)
    }

    pub fn title(&self) -> (r: &String)
        ensures
            r@ == self@.title,
    {
        &self.title
    }

    pub fn body(&self) -> (r: &String)
        ensures
            r@ == self@.body,
    {
        &self.body
    }

    pub fn path(&self) -> (r: &String)
        ensures
            r@ == self@.path,
            r@.len() > 0,
    {
        proof {
            use_type_invariant(self);
        }
        &self.path
    }
}

/// The last occurrence lies within the text, if there is one.
pub proof fn lemma_last_index_bounds(s: Seq<char>, c: char)
    ensures
        -1 <= last_index_of(s, c) < s.len(),
        last_index_of(s, c) >= 0 ==> s[last_index_of(s, c)] == c,
    decreases s.len(),
{
    if s.len() > 0 && s.last() != c {
        lemma_last_index_bounds(s.drop_last(), c);
    }
}

/// A file that is classified as text or as PDF has a path that is not empty.
pub proof fn lemma_supported_has_path(path: Seq<char>)
    requires
        !(file_kind(path) is Unsupported),
    ensures
        path.len() > 0,
{
    reveal_strlit("txt");
    reveal_strlit("pdf");
    let name = base_name(path);
    assert(kind_key(path).len() == 3);
    assert(extension(name) is Some);
    lemma_last_index_bounds(name, '.');
    lemma_last_index_bounds(path, '/');
}

/// One entry of a directory listing.
#[derive(Debug, PartialEq, Eq)]
pub struct DirEntry {
    pub path: String,
    pub is_dir: bool,
    pub is_file: bool,
}

/// Mathematical model of a [`DirEntry`].
pub ghost struct DirEntryView {
    pub path: Seq<char>,
    pub is_dir: bool,
    pub is_file: bool,
}

impl View for DirEntry {
    type V = DirEntryView;

    open spec fn view(&self) -> DirEntryView {
        DirEntryView { path: self.path@, is_dir: self.is_dir, is_file: self.is_file }
    }
}

impl DirEntryView {
    /// Whether the entry is a file to be indexed: a regular file that is not
    /// listed as a directory as well.
    pub open spec fn is_plain_file(self) -> bool {
        !self.is_dir && self.is_file
    }

    /// Whether the walk passes the entry over: it is neither a directory nor
    /// a regular file.
    pub open spec fn is_skipped(self) -> bool {
        !self.is_dir && !self.is_file
    }
}

/// The models of the entries of a listing, in order.
pub open spec fn entries_view(entries: Seq<DirEntry>) -> Seq<DirEntryView> {
    entries.map_values(|e: DirEntry| e@)
}

/// The models of a list of documents, in order.
pub open spec fn documents_view(documents: Seq<Document>) -> Seq<DocumentView> {
    documents.map_values(|d: Document| d@)
}

/// What the caller has to do for a walk to go on. Each request but the last
/// two is about the walk's current entry.
#[derive(Debug, PartialEq, Eq, Structural, Clone, Copy)]
pub enum WalkRequest {
    /// Empty the result cache, then report `CacheFlushed`.
    FlushCache,
    /// List the directory, then report `Listed`.
    ListDir,
    /// Read the file as text, then report `Content`.
    ReadText,
    /// Extract the text of the PDF file, then report `Content`.
    ExtractPdf,
    /// Nothing: the walk has ended.
    Finish,
}

/// What the caller reports back.
#[derive(Debug)]
pub enum WalkEvent {
    /// The cache was emptied, or could not be: the walk goes on alike.
    CacheFlushed,
    /// The entries of the directory, or why it could not be listed.
    Listed(Result<Vec<DirEntry>, String>),
    /// The text of the file, or why there is none.
    Content(Result<String, String>),
}

/// Mathematical model of a [`WalkEvent`].
pub ghost enum WalkEventView {
    CacheFlushed,
    Listed(Result<Seq<DirEntryView>, Seq<char>>),
    Content(Result<Seq<char>, Seq<char>>),
}

impl View for WalkEvent {
    type V = WalkEventView;

    open spec fn view(&self) -> WalkEventView {
        match self {
            WalkEvent::CacheFlushed => WalkEventView::CacheFlushed,
            WalkEvent::Listed(listing) => WalkEventView::Listed(
                match listing {
                    Ok(entries) => Ok(entries_view(entries@)),
                    Err(detail) => Err(detail@),
                },
            ),
            WalkEvent::Content(content) => WalkEventView::Content(
                match content {
                    Ok(text) => Ok(text@),
                    Err(detail) => Err(detail@),
                },
            ),
        }
    }
}

/// A walk over a directory tree.
///
/// The walk keeps every entry that was listed, in the order of listing, the
/// root first, and a cursor on the entry that it is about. Entries before
/// the cursor are done with.
#[derive(Debug)]
pub struct Walk {
    flush_pending: bool,
    flush_before_build: bool,
    entries: Vec<DirEntry>,
    cursor: usize,
    documents: Vec<Document>,
    failure: Option<CacherchError>,
}

/// Mathematical model of a [`Walk`].
pub ghost struct WalkView {
    pub flush_pending: bool,
    pub flush_before_build: bool,
    pub entries: Seq<DirEntryView>,
    pub cursor: nat,
    pub documents: Seq<DocumentView>,
    pub failure: Option<ErrorView>,
}

impl View for Walk {
    type V = WalkView;

    closed spec fn view(&self) -> WalkView {
        WalkView {
            flush_pending: self.flush_pending,
            flush_before_build: self.flush_before_build,
            entries: entries_view(self.entries@),
            cursor: self.cursor as nat,
            documents: documents_view(self.documents@),
            failure: match self.failure {
                Some(e) => Some(e@),
                None => None,
            },
        }
    }
}

/// The first position from `from` on whose entry the walk does not pass
/// over, and the end of the entries where there is none.
pub open spec fn next_stop(entries: Seq<DirEntryView>, from: nat) -> nat
    decreases entries.len() - from,
{
    if from >= entries.len() {
        from
    } else if !entries[from as int].is_skipped() {
        from
    } else {
        next_stop(entries, from + 1)
    }
}

impl WalkView {
    /// The entry that the walk is about, if it has not run out of entries.
    pub open spec fn current(self) -> Option<DirEntryView> {
        if self.cursor < self.entries.len() {
            Some(self.entries[self.cursor as int])
        } else {
            None
        }
    }

    /// What the caller has to do next: nothing after a failure or at the
    /// end of the entries; else empty the cache if that is still due; else
    /// list the current entry if it is a directory, and read it in the way
    /// of its kind if it is a file.
    pub open spec fn request(self) -> WalkRequest {
        if self.failure is Some {
            WalkRequest::Finish
        } else if self.flush_pending {
            WalkRequest::FlushCache
        } else {
            match self.current() {
                Some(entry) => if entry.is_dir {
                    WalkRequest::ListDir
                } else if entry.is_file {
                    match file_kind(entry.path) {
                        FileKindView::Text => WalkRequest::ReadText,
                        FileKindView::Pdf => WalkRequest::ExtractPdf,
                        FileKindView::Unsupported(_) => WalkRequest::Finish,
                    }
                } else {
                    WalkRequest::Finish
                },
                None => WalkRequest::Finish,
            }
        }
    }

    /// The walk moved on to its next stop. Entries that are neither
    /// directory nor file are passed over; a file of an unsupported kind
    /// stops the walk for good with `UnsupportedExtension`.
    pub open spec fn settle(self) -> WalkView {
        if self.failure is Some {
            self
        } else {
            let stop = next_stop(self.entries, self.cursor);
            let moved = WalkView { cursor: stop, ..self };
            if stop < self.entries.len() && self.entries[stop as int].is_plain_file() {
                match file_kind(self.entries[stop as int].path) {
                    FileKindView::Unsupported(ext) => WalkView {
                        failure: Some(ErrorView::UnsupportedExtension(ext)),
                        ..moved
                    },
                    _ => moved,
                }
            } else {
                moved
            }
        }
    }

    /// The walk with its failure recorded.
    pub open spec fn failed(self, error: ErrorView) -> WalkView {
        WalkView { failure: Some(error), ..self }
    }

    /// The walk after `event`.
    ///
    /// The entries of a listed directory are put behind the entries that
    /// are already there, and the walk moves on. The text of a file makes a
    /// document, and the walk moves on. A directory that cannot be listed
    /// and a text file that cannot be read stop the walk with `Io`, a PDF
    /// file without text stops it with `PdfExtraction` of the file's path.
    /// An event that the walk is not waiting for changes nothing.
    pub open spec fn step(self, event: WalkEventView) -> WalkView {
        match (self.request(), event) {
            (WalkRequest::FlushCache, WalkEventView::CacheFlushed) => WalkView {
                flush_pending: false,
                ..self
            },
            (WalkRequest::ListDir, WalkEventView::Listed(Ok(found))) => WalkView {
                entries: self.entries + found,
                cursor: self.cursor + 1,
                ..self
            }.settle(),
            (WalkRequest::ListDir, WalkEventView::Listed(Err(detail))) => self.failed(
                ErrorView::Io(detail),
            ),
            (WalkRequest::ReadText, WalkEventView::Content(Ok(text))) => self.with_document(text),
            (WalkRequest::ExtractPdf, WalkEventView::Content(Ok(text))) => self.with_document(text),
            (WalkRequest::ReadText, WalkEventView::Content(Err(detail))) => self.failed(
                ErrorView::Io(detail),
            ),
            (WalkRequest::ExtractPdf, WalkEventView::Content(Err(_))) => self.failed(
                ErrorView::PdfExtraction(self.entries[self.cursor as int].path),
            ),
            _ => self,
        }
    }

    /// The walk with a document for its current entry, moved on.
    pub open spec fn with_document(self, text: Seq<char>) -> WalkView {
        WalkView {
            documents: self.documents.push(
                document_for(self.entries[self.cursor as int].path, text),
            ),
            cursor: self.cursor + 1,
            ..self
        }.settle()
    }

    /// Whether the walk has ended.
    pub open spec fn is_over(self) -> bool {
        self.request() == WalkRequest::Finish
    }
}

/// The walk at its start: the root is the only entry, and it is taken for a
/// directory.
pub open spec fn walk_start(root: Seq<char>, flush_cache: bool) -> WalkView {
    WalkView {
        flush_pending: flush_cache,
        flush_before_build: flush_cache,
        entries: seq![DirEntryView { path: root, is_dir: true, is_file: false }],
        cursor: 0,
        documents: Seq::empty(),
        failure: None,
    }
}

/// Starts the walk over the tree under `path`. With `flush_cache` the
/// result cache is emptied first and the index is later written afresh.
pub fn index_dir(path: &str, flush_cache: bool) -> (walk: Walk)
    ensures
        walk@ == walk_start(path@, flush_cache),
        walk@.wf(),
{
    proof {
        law_start_is_wf(path@, flush_cache);
    }
    let mut entries: Vec<DirEntry> = Vec::new();
    entries.push(DirEntry { path: path.to_owned(), is_dir: true, is_file: false });
    let walk = Walk {
        flush_pending: flush_cache,
        flush_before_build: flush_cache,
        entries,
        cursor: 0,
        documents: Vec::new(),
        failure: None,
    };
    assert(walk@.entries =~= walk_start(path@, flush_cache).entries);
    assert(walk@.documents =~= walk_start(path@, flush_cache).documents);
    walk
}

impl Walk {
    /// What the caller has to do next.
    pub fn request(&self) -> (r: WalkRequest)
        ensures
            r == self@.request(),
    {
        if self.failure.is_some() {
            WalkRequest::Finish
        } else if self.flush_pending {
            WalkRequest::FlushCache
        } else if self.cursor < self.entries.len() {
            let entry = &self.entries[self.cursor];
            if entry.is_dir {
                WalkRequest::ListDir
            } else if entry.is_file {
                match classify(entry.path.as_str()) {
                    FileKind::Text => WalkRequest::ReadText,
                    FileKind::Pdf => WalkRequest::ExtractPdf,
                    FileKind::Unsupported(_) => WalkRequest::Finish,
                }
            } else {
                WalkRequest::Finish
            }
        } else {
            WalkRequest::Finish
        }
    }

    /// The path of the entry that the request is about.
    pub fn current_path(&self) -> (r: Option<&String>)
        ensures
            match r {
                Some(path) => self@.current() matches Some(entry) && path@ == entry.path,
                None => self@.current() is None,
            },
    {
        if self.cursor < self.entries.len() {
            Some(&self.entries[self.cursor].path)
        } else {
            None
        }
    }

    /// Whether the index is to be written afresh.
    pub fn flush_before_build(&self) -> (r: bool)
        ensures
            r == self@.flush_before_build,
    {
        self.flush_before_build
    }

    /// How many documents the walk has made so far.
    pub fn document_count(&self) -> (r: usize)
        ensures
            r == self@.documents.len(),
    {
        self.documents.len()
    }

    /// Moves the walk on to its next stop.
    fn settle(&mut self)
        ensures
            final(self)@ == old(self)@.settle(),
    {
        if self.failure.is_some() {
            return ;
        }
        let ghost entries = self@.entries;
        while self.cursor < self.entries.len() && !self.entries[self.cursor].is_dir
            && !self.entries[self.cursor].is_file
            invariant
                self@.entries == entries,
                self.failure is None,
                self.flush_pending == old(self).flush_pending,
                self.flush_before_build == old(self).flush_before_build,
                self@.documents == old(self)@.documents,
                next_stop(entries, old(self)@.cursor) == next_stop(entries, self@.cursor),
            decreases self.entries.len() - self.cursor,
        {
            self.cursor += 1;
        }
        if self.cursor < self.entries.len() {
            let entry = &self.entries[self.cursor];
            if !entry.is_dir && entry.is_file {
                match classify(entry.path.as_str()) {
                    FileKind::Unsupported(ext) => {
                        self.failure = Some(CacherchError::UnsupportedExtension(ext));
                    },
                    _ => {},
                }
            }
        }
    }
}

impl Walk {
    /// Makes the document of the current entry from its text and moves on.
    fn take_document(&mut self, text: String)
        requires
            old(self)@.request() == WalkRequest::ReadText || old(self)@.request()
                == WalkRequest::ExtractPdf,
        ensures
            final(self)@ == old(self)@.with_document(text@),
    {
        assert(self.cursor < self.entries.len()) by {
            assert(self@.current() is Some);
        }
        let path = self.entries[self.cursor].path.clone();
        proof {
            lemma_supported_has_path(path@);
        }
        match Document::for_file(path, text) {
            Some(document) => {
                self.documents.push(document);
            },
            None => {},
        }
        self.cursor += 1;
        assert(self@.documents =~= old(self)@.documents.push(
            document_for(old(self)@.entries[old(self)@.cursor as int].path, text@),
        ));
        self.settle();
    }

    /// The walk after `event`.
    pub fn advance(self, event: WalkEvent) -> (r: Walk)
        ensures
            r@ == self@.step(event@),
            self@.wf() ==> r@.wf(),
    {
        proof {
            if self@.wf() {
                law_step_keeps_wf(self@, event@);
            }
        }
        let request = self.request();
        let mut walk = self;
        match (request, event) {
            (WalkRequest::FlushCache, WalkEvent::CacheFlushed) => {
                walk.flush_pending = false;
            },
            (WalkRequest::ListDir, WalkEvent::Listed(Ok(found))) => {
                assert(walk.cursor < walk.entries.len()) by {
                    assert(walk@.current() is Some);
                }
                let mut found = found;
                let ghost listed = entries_view(found@);
                walk.entries.append(&mut found);
                walk.cursor += 1;
                assert(walk@.entries =~= self@.entries + listed);
                walk.settle();
            },
            (WalkRequest::ListDir, WalkEvent::Listed(Err(detail))) => {
                walk.failure = Some(CacherchError::Io(detail));
            },
            (WalkRequest::ReadText, WalkEvent::Content(Ok(text))) => {
                walk.take_document(text);
            },
            (WalkRequest::ReadText, WalkEvent::Content(Err(detail))) => {
                walk.failure = Some(CacherchError::Io(detail));
            },
            (WalkRequest::ExtractPdf, WalkEvent::Content(extracted)) => {
                assert(walk@.current() is Some);
                let path = walk.entries[walk.cursor].path.clone();
                match extract_pdf_text(path.as_str(), extracted) {
                    Ok(text) => {
                        walk.take_document(text);
                    },
                    Err(error) => {
                        walk.failure = Some(error);
                    },
                }
            },
            _ => {},
        }
        walk
    }
}

/// Where the index lives unless the caller says otherwise.
pub const INDEX_DIR: &'static str = "./index";

/// The memory that the index writer may use, in bytes.
pub const WRITER_BUDGET: usize = 50_000_000;

/// What a build has done.
#[derive(Debug, PartialEq, Eq, Structural, Clone, Copy)]
pub struct IndexStats {
    /// The number of documents that were written.
    pub indexed: usize,
}

/// The fields under which a document is written to the index: its title,
/// its body and its path, by name.
pub open spec fn fields_of(document: DocumentView) -> Seq<(Seq<char>, Seq<char>)> {
    seq![("title"@, document.title), ("body"@, document.body), ("path"@, document.path)]
}

/// The fields of each of a list of documents, in order.
pub open spec fn fields_of_all(documents: Seq<DocumentView>) -> Seq<Seq<(Seq<char>, Seq<char>)>> {
    documents.map_values(|d: DocumentView| fields_of(d))
}

/// The fields of the engine's index, each with its name, whether it is
/// searched and whether it is kept: `title` is searched and kept, `body`
/// is searched and not kept, `path` is kept and not searched.
pub open spec fn engine_fields() -> Seq<(Seq<char>, bool, bool)> {
    text_fields("title"@, "body"@, "path"@)
}

/// What an index holds after a commit: the documents that were queued, and
/// with them, unless the commit drops those, the documents that it held
/// before.
pub open spec fn committed(
    earlier: Multiset<Seq<(Seq<char>, Seq<char>)>>,
    clears: bool,
    queued: Seq<Seq<(Seq<char>, Seq<char>)>>,
) -> Multiset<Seq<(Seq<char>, Seq<char>)>> {
    if clears {
        queued.to_multiset()
    } else {
        earlier.add(queued.to_multiset())
    }
}

/// The write side of an index: documents are queued in it and become
/// visible to searches, all of them at once, when it is committed.
pub struct IndexBatch {
    index: tantivy::Index,
    writer: Writer,
}

impl IndexBatch {
    /// The fields of the index that the batch writes to.
    pub closed spec fn fields(&self) -> Seq<(Seq<char>, bool, bool)> {
        schema_of(self.index)
    }

    /// The documents that are queued for the commit, in the order of
    /// queueing, each as the list of its fields.
    pub closed spec fn queued(&self) -> Seq<Seq<(Seq<char>, Seq<char>)>> {
        queued(self.writer)
    }

    /// Whether the commit drops the documents that the index held before.
    pub closed spec fn clears(&self) -> bool {
        clears(self.writer)
    }

    /// The documents that the index holds as of its last commit, each as
    /// the list of its fields.
    pub closed spec fn published(&self) -> Multiset<Seq<(Seq<char>, Seq<char>)>> {
        published(self.writer)
    }

    /// Whether the index holds, as of its last commit, what a commit of
    /// `queued` leaves: those documents alone if the commit `clears`, and
    /// else those and the documents that the index held before.
    pub open spec fn holds(&self, clears: bool, queued: Seq<Seq<(Seq<char>, Seq<char>)>>) -> bool {
        exists|earlier: Multiset<Seq<(Seq<char>, Seq<char>)>>|
            self.published() == #[trigger] committed(earlier, clears, queued)
    }

    /// Opens the index in `directory` for writing.
    ///
    /// The index is opened where the directory holds one and created where
    /// it holds none, with the fields of [`engine_fields`]. With
    /// `flush_before_build` the documents that the index holds are marked
    /// to be dropped by the commit. An index with other fields, or one that
    /// cannot be opened, is refused without `flush_before_build`; with it,
    /// such an index is discarded at once and an empty one put in its
    /// place.
    pub fn open(directory: &str, flush_before_build: bool) -> (r: Result<
        IndexBatch,
        CacherchError,
    >)
        ensures
            match r {
                Ok(batch) => {
                    &&& batch.fields() == engine_fields()
                    &&& batch.queued().len() == 0
                    &&& batch.clears() == flush_before_build
                },
                Err(e) => e@ is IndexStorage,
            },
    {
        proof {
            reveal_strlit("title");
            reveal_strlit("body");
            reveal_strlit("path");
        }
        assert("title"@ != "body"@) by {
            assert("title"@[0] != "body"@[0]);
        }
        assert("title"@ != "path"@) by {
            assert("title"@[0] != "path"@[0]);
        }
        assert("body"@ != "path"@) by {
            assert("body"@[0] != "path"@[0]);
        }
        let index = match open_or_create_index(directory, text_schema("title", "body", "path")) {
            Ok(index) => index,
            Err(error) => {
                if !flush_before_build {
                    return Err(storage_failure(&error));
                }
                match create_index(directory, text_schema("title", "body", "path")) {
                    Ok(index) => index,
                    Err(error) => {
                        return Err(storage_failure(&error));
                    },
                }
            },
        };
        let mut writer = match open_writer(&index, WRITER_BUDGET) {
            Ok(writer) => writer,
            Err(error) => {
                return Err(storage_failure(&error));
            },
        };
        if flush_before_build {
            match clear_documents(&mut writer) {
                Ok(()) => {},
                Err(error) => {
                    return Err(storage_failure(&error));
                },
            }
        }
        Ok(IndexBatch { index, writer })
    }

    /// Queues `document` behind the documents that are queued already. On
    /// failure nothing is queued.
    pub fn add(&mut self, document: &Document) -> (r: Result<(), CacherchError>)
        ensures
            final(self).fields() == old(self).fields(),
            final(self).clears() == old(self).clears(),
            final(self).published() == old(self).published(),
            match r {
                Ok(()) => final(self).queued() == old(self).queued().push(fields_of(document@)),
                Err(e) => e@ is IndexStorage && final(self).queued() == old(self).queued(),
            },
    {
        match queue_document(
            &mut self.writer,
            ("title", document.title().as_str()),
            ("body", document.body().as_str()),
            ("path", document.path().as_str()),
        ) {
            Ok(()) => Ok(()),
            Err(error) => Err(storage_failure(&error)),
        }
    }

    /// Queues `documents` in order, up to the first that fails. An empty
    /// list always succeeds. After a failure the documents before the one
    /// that failed are queued, and no other.
    pub fn add_all(&mut self, documents: &Vec<Document>) -> (r: Result<(), CacherchError>)
        ensures
            final(self).fields() == old(self).fields(),
            final(self).clears() == old(self).clears(),
            final(self).published() == old(self).published(),
            documents.len() == 0 ==> r is Ok,
            match r {
                Ok(()) => final(self).queued() == old(self).queued() + fields_of_all(
                    documents_view(documents@),
                ),
                Err(e) => e@ is IndexStorage && exists|failed: int|
                    0 <= failed < documents.len() && final(self).queued() == old(self).queued()
                        + #[trigger] fields_of_all(documents_view(documents@.take(failed))),
            },
    {
        let mut i: usize = 0;
        assert(fields_of_all(documents_view(documents@.take(0))) =~= Seq::empty());
        while i < documents.len()
            invariant
                i <= documents.len(),
                self.fields() == old(self).fields(),
                self.clears() == old(self).clears(),
                self.published() == old(self).published(),
                self.queued() == old(self).queued() + fields_of_all(
                    documents_view(documents@.take(i as int)),
                ),
            decreases documents.len() - i,
        {
            match self.add(&documents[i]) {
                Ok(()) => {},
                Err(error) => {
                    return Err(error);
                },
            }
            assert(fields_of_all(documents_view(documents@.take(i + 1))) =~= fields_of_all(
                documents_view(documents@.take(i as int)),
            ).push(fields_of(documents[i as int]@)));
            i += 1;
        }
        assert(documents@.take(i as int) =~= documents@);
        Ok(())
    }

    /// Publishes what is queued, all of it or none of it, and drops what
    /// was marked to be dropped. After a commit that succeeded the index
    /// holds what was queued, and with it, unless that was dropped, what it
    /// held before; the batch is empty again and can be filled anew.
    pub fn commit(&mut self) -> (r: Result<(), CacherchError>)
        ensures
            final(self).fields() == old(self).fields(),
            r matches Err(e) ==> e@ is IndexStorage,
            r is Ok ==> {
                &&& final(self).queued().len() == 0
                &&& !final(self).clears()
                &&& final(self).published() == committed(
                    old(self).published(),
                    old(self).clears(),
                    old(self).queued(),
                )
                &&& final(self).holds(old(self).clears(), old(self).queued())
            },
    {
        match commit(&mut self.writer) {
            Ok(()) => Ok(()),
            Err(error) => Err(storage_failure(&error)),
        }
    }
}

/// Opens the index in `directory` for writing and queues `documents` in
/// order: the batch that a build commits.
pub fn fill_batch(directory: &str, documents: &Vec<Document>, flush_before_build: bool) -> (r:
    Result<IndexBatch, CacherchError>)
    ensures
        match r {
            Ok(batch) => {
                &&& batch.fields() == engine_fields()
                &&& batch.queued() == fields_of_all(documents_view(documents@))
                &&& batch.clears() == flush_before_build
            },
            Err(e) => e@ is IndexStorage,
        },
{
    let mut batch = match IndexBatch::open(directory, flush_before_build) {
        Ok(batch) => batch,
        Err(error) => {
            return Err(error);
        },
    };
    match batch.add_all(documents) {
        Ok(()) => {
            assert(batch.queued() =~= fields_of_all(documents_view(documents@)));
            Ok(batch)
        },
        Err(error) => Err(error),
    }
}

/// Writes `documents` to the index in `directory` and commits them as one:
/// fills a batch as [`fill_batch`] does, and commits it. On success the
/// index has the engine's fields and holds the documents, alone if
/// `flush_before_build`, and else with what it held before.
///
/// Nothing becomes visible to a search before the commit.
pub fn write_index(directory: &str, documents: &Vec<Document>, flush_before_build: bool) -> (r:
    Result<IndexStats, CacherchError>)
    ensures
        match r {
            Ok(stats) => stats.indexed == documents.len() && exists|batch: IndexBatch|
                batch.fields() == engine_fields() && #[trigger] batch.holds(
                    flush_before_build,
                    fields_of_all(documents_view(documents@)),
                ),
            Err(e) => e@ is IndexStorage,
        },
{
    let mut batch = match fill_batch(directory, documents, flush_before_build) {
        Ok(batch) => batch,
        Err(error) => {
            return Err(error);
        },
    };
    match batch.commit() {
        Ok(()) => Ok(IndexStats { indexed: documents.len() }),
        Err(error) => Err(error),
    }
}

impl Walk {
    /// The failure that has ended the walk, if one has.
    pub fn failure(&self) -> (r: Option<&CacherchError>)
        ensures
            match r {
                Some(error) => self@.failure == Some(error@),
                None => self@.failure is None,
            },
    {
        match &self.failure {
            Some(error) => Some(error),
            None => None,
        }
    }

    /// Fills the batch that the build commits from what the walk has found.
    ///
    /// Nothing is done while the walk is still under way. A walk that has
    /// failed yields its failure, and no batch is opened. A walk that has
    /// ended well has its documents queued, in the order in which it made
    /// them, in a batch that drops the earlier documents if the walk was
    /// started with a flush.
    pub fn fill(self, directory: &str) -> (r: Option<Result<IndexBatch, CacherchError>>)
        ensures
            !self@.is_over() <==> r is None,
            self@.is_over() ==> match self@.failure {
                Some(failure) => r matches Some(Err(e)) && e@ == failure,
                None => match r {
                    Some(Ok(batch)) => {
                        &&& batch.fields() == engine_fields()
                        &&& batch.queued() == fields_of_all(self@.documents)
                        &&& batch.clears() == self@.flush_before_build
                    },
                    Some(Err(e)) => e@ is IndexStorage,
                    None => false,
                },
            },
    {
        match self.request() {
            WalkRequest::Finish => {},
            _ => {
                return None;
            },
        }
        let Walk { flush_before_build, documents, failure, .. } = self;
        match failure {
            Some(error) => Some(Err(error)),
            None => Some(fill_batch(directory, &documents, flush_before_build)),
        }
    }

    /// Builds the index in `directory` from what the walk has found.
    ///
    /// Nothing is done while the walk is still under way. A walk that has
    /// failed yields its failure, and the index is not touched. A walk that
    /// has ended well has its documents committed, one for each file that
    /// was listed: on success the index holds them, alone if the walk was
    /// started with a flush, and else with what it held before.
    pub fn build(self, directory: &str) -> (r: Option<Result<IndexStats, CacherchError>>)
        ensures
            !self@.is_over() <==> r is None,
            self@.is_over() ==> match self@.failure {
                Some(failure) => r matches Some(Err(e)) && e@ == failure,
                None => match r {
                    Some(Ok(stats)) => {
                        &&& stats.indexed == self@.documents.len()
                        &&& self@.wf() ==> stats.indexed == file_paths(self@.entries).len()
                        &&& exists|batch: IndexBatch|
                            batch.fields() == engine_fields() && #[trigger] batch.holds(
                                self@.flush_before_build,
                                fields_of_all(self@.documents),
                            )
                    },
                    Some(Err(e)) => e@ is IndexStorage,
                    None => false,
                },
            },
    {
        proof {
            if self@.wf() && self@.is_over() && self@.failure is None {
                law_walk_is_exhaustive(self@);
            }
        }
        let count = self.documents.len();
        match self.fill(directory) {
            Some(Ok(mut batch)) => {
                match batch.commit() {
                    Ok(()) => Some(Ok(IndexStats { indexed: count })),
                    Err(error) => Some(Err(error)),
                }
            },
            Some(Err(error)) => Some(Err(error)),
            None => None,
        }
    }
}

/// The paths of the files among `entries`, in order.
pub open spec fn file_paths(entries: Seq<DirEntryView>) -> Seq<Seq<char>>
    decreases entries.len(),
{
    if entries.len() == 0 {
        Seq::empty()
    } else {
        let before = file_paths(entries.drop_last());
        if entries.last().is_plain_file() {
            before.push(entries.last().path)
        } else {
            before
        }
    }
}

impl WalkView {
    /// Whether the documents are those of the files among the entries that
    /// are done with: one for each, in order, under the file's path and
    /// titled with the file's name.
    pub open spec fn documents_match(self) -> bool {
        let done = file_paths(self.entries.take(self.cursor as int));
        &&& self.cursor <= self.entries.len()
        &&& self.documents.len() == done.len()
        &&& forall|i: int|
            0 <= i < self.documents.len() ==> (#[trigger] self.documents[i]).path == done[i]
                && self.documents[i].title == base_name(done[i])
    }

    /// What holds of every walk that was started and advanced: its
    /// documents match the entries that are done with, and unless it has
    /// failed, its current entry is a directory or a file of a supported
    /// kind.
    pub open spec fn wf(self) -> bool {
        &&& self.documents_match()
        &&& self.failure is None && self.cursor < self.entries.len() ==> {
            let entry = self.entries[self.cursor as int];
            &&& !entry.is_skipped()
            &&& entry.is_plain_file() ==> !(file_kind(entry.path) is Unsupported)
        }
    }
}

/// The files among the first `at + 1` entries are those among the first
/// `at`, and the entry at `at` if it is a file.
proof fn lemma_file_paths_next(entries: Seq<DirEntryView>, at: int)
    requires
        0 <= at < entries.len(),
    ensures
        file_paths(entries.take(at + 1)) == if entries[at].is_plain_file() {
            file_paths(entries.take(at)).push(entries[at].path)
        } else {
            file_paths(entries.take(at))
        },
{
    assert(entries.take(at + 1).drop_last() =~= entries.take(at));
    assert(entries.take(at + 1).last() == entries[at]);
}

/// Between a position and its next stop lie only entries that are passed
/// over, so the files that are done with stay the same.
proof fn lemma_next_stop(entries: Seq<DirEntryView>, from: nat)
    requires
        from <= entries.len(),
    ensures
        from <= next_stop(entries, from) <= entries.len(),
        next_stop(entries, from) < entries.len() ==> !entries[next_stop(
            entries,
            from,
        ) as int].is_skipped(),
        file_paths(entries.take(next_stop(entries, from) as int)) == file_paths(
            entries.take(from as int),
        ),
    decreases entries.len() - from,
{
    if from < entries.len() && entries[from as int].is_skipped() {
        lemma_next_stop(entries, from + 1);
        lemma_file_paths_next(entries, from as int);
    }
}

/// A walk whose documents match is as it should be once it has moved on.
proof fn lemma_settle_is_wf(walk: WalkView)
    requires
        walk.documents_match(),
    ensures
        walk.settle().wf(),
        walk.failure is Some ==> walk.settle() == walk,
{
    if walk.failure is None {
        lemma_next_stop(walk.entries, walk.cursor);
    }
}

/// A walk is as it should be when it starts.
pub proof fn law_start_is_wf(root: Seq<char>, flush_cache: bool)
    ensures
        walk_start(root, flush_cache).wf(),
{
    let walk = walk_start(root, flush_cache);
    assert(walk.entries.take(0) =~= Seq::<DirEntryView>::empty());
}

/// A walk stays as it should be, whatever is reported to it.
pub proof fn law_step_keeps_wf(walk: WalkView, event: WalkEventView)
    requires
        walk.wf(),
    ensures
        walk.step(event).wf(),
{
    let at = walk.cursor as int;
    match (walk.request(), event) {
        (WalkRequest::ListDir, WalkEventView::Listed(Ok(found))) => {
            let grown = WalkView { entries: walk.entries + found, cursor: walk.cursor + 1, ..walk };
            lemma_file_paths_next(grown.entries, at);
            assert(grown.entries.take(at) =~= walk.entries.take(at));
            assert(grown.entries[at] == walk.entries[at]);
            lemma_settle_is_wf(grown);
        },
        (WalkRequest::ReadText, WalkEventView::Content(Ok(text))) => {
            lemma_document_keeps_match(walk, text);
        },
        (WalkRequest::ExtractPdf, WalkEventView::Content(Ok(text))) => {
            lemma_document_keeps_match(walk, text);
        },
        _ => {},
    }
}

/// Taking the text of the current file keeps the walk as it should be.
proof fn lemma_document_keeps_match(walk: WalkView, text: Seq<char>)
    requires
        walk.wf(),
        walk.request() == WalkRequest::ReadText || walk.request() == WalkRequest::ExtractPdf,
    ensures
        walk.with_document(text).wf(),
{
    let at = walk.cursor as int;
    let path = walk.entries[at].path;
    let taken = WalkView {
        documents: walk.documents.push(document_for(path, text)),
        cursor: walk.cursor + 1,
        ..walk
    };
    lemma_file_paths_next(walk.entries, at);
    lemma_settle_is_wf(taken);
}

/// A walk that has ended without a failure has passed every entry that was
/// listed, and holds one document for each file among them, in the order of
/// listing, under the file's path and titled with the file's name.
pub proof fn law_walk_is_exhaustive(walk: WalkView)
    requires
        walk.wf(),
        !walk.flush_pending,
        walk.is_over(),
        walk.failure is None,
    ensures
        walk.cursor == walk.entries.len(),
        walk.documents.len() == file_paths(walk.entries).len(),
        forall|i: int|
            0 <= i < walk.documents.len() ==> (#[trigger] walk.documents[i]).path == file_paths(
                walk.entries,
            )[i] && walk.documents[i].title == base_name(walk.documents[i].path),
{
    assert(walk.entries.take(walk.entries.len() as int) =~= walk.entries);
}

/// A walk that has failed stays as it is, whatever is reported to it.
pub proof fn law_failure_is_final(walk: WalkView, event: WalkEventView)
    requires
        walk.failure is Some,
    ensures
        walk.step(event) == walk,
{
}

/// A file of an unsupported kind ends the walk as soon as the walk reaches
/// it, with the file's extension in lower case as the failure.
pub proof fn law_unsupported_stops_walk(walk: WalkView)
    requires
        walk.failure is None,
        walk.cursor < walk.entries.len(),
        walk.entries[walk.cursor as int].is_plain_file(),
        file_kind(walk.entries[walk.cursor as int].path) is Unsupported,
    ensures
        walk.settle().failure == Some(
            ErrorView::UnsupportedExtension(kind_key(walk.entries[walk.cursor as int].path)),
        ),
        walk.settle().documents == walk.documents,
        walk.settle().is_over(),
{
}

/// After a commit that drops what was there, the index holds exactly the
/// documents that were queued: each of them, as often as it was queued,
/// and no other.
pub proof fn law_flushed_commit_is_exact(
    batch: IndexBatch,
    queued: Seq<Seq<(Seq<char>, Seq<char>)>>,
)
    requires
        batch.holds(true, queued),
    ensures
        batch.published() == queued.to_multiset(),
        batch.published().len() == queued.len(),
{
    vstd::seq_lib::to_multiset_len(queued);
}

/// Building twice with a flush from the same documents leaves the same
/// documents in the index, and as many, whatever it held before.
pub proof fn law_rebuild_with_flush_is_idempotent(
    first: IndexBatch,
    second: IndexBatch,
    queued: Seq<Seq<(Seq<char>, Seq<char>)>>,
)
    requires
        first.holds(true, queued),
        second.holds(true, queued),
    ensures
        first.published() == second.published(),
        second.published().len() == queued.len(),
{
    law_flushed_commit_is_exact(first, queued);
    law_flushed_commit_is_exact(second, queued);
}

/// Without a flush a commit keeps what the index held and adds what was
/// queued: each queued document is in the index afterwards.
pub proof fn law_commit_keeps_queued(
    batch: IndexBatch,
    clears: bool,
    queued: Seq<Seq<(Seq<char>, Seq<char>)>>,
    at: int,
)
    requires
        batch.holds(clears, queued),
        0 <= at < queued.len(),
    ensures
        batch.published().contains(queued[at]),
{
    vstd::seq_lib::to_multiset_contains(queued, queued[at]);
}

} // verus!
