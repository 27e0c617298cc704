//! The result cache: how a key is derived, what an entry holds, and when an
//! entry that the store hands back may be served.
//!
//! The store itself is a service outside this crate. The caller reads and
//! writes it; this module decides what to write and what a read is worth.

use vstd::prelude::*;
use vstd::string::StringExecFns;
use crate::json::same_text;
use crate::types::{duplicate_results, results_view, SearchResult, SearchResultView};

verus! {

/// The key under which the answer to a query is kept: the text `query:`
/// followed by the query exactly as it was typed.
pub open spec fn spec_cache_key(query: Seq<char>) -> Seq<char> {
    "query:"@ + query
}

pub fn cache_key(query: &str) -> (key: String)
    ensures
        key@ == spec_cache_key(query@),
{
    String::from_str("query:").concat(query)
}

/// A cached answer. `expires_at` is in seconds on the clock that the caller
/// reads `now` from; the entry counts as absent from that second on.
#[derive(Debug, PartialEq, Eq)]
pub struct CacheEntry {
    pub key: String,
    pub value: Vec<SearchResult>,
    pub expires_at: u128,
}

/// Mathematical model of a [`CacheEntry`].
pub ghost struct CacheEntryView {
    pub key: Seq<char>,
    pub value: Seq<SearchResultView>,
    pub expires_at: nat,
}

impl View for CacheEntry {
    type V = CacheEntryView;

    open spec fn view(&self) -> CacheEntryView {
        CacheEntryView {
            key: self.key@,
            value: results_view(self.value@),
            expires_at: self.expires_at as nat,
        }
    }
}

/// What the store said when it was asked for a key.
#[derive(Debug, PartialEq, Eq)]
pub enum StoreReply {
    /// It holds this entry.
    Found(CacheEntry),
    /// It holds nothing under the key.
    Missing,
    /// It could not be reached, or what it holds could not be read.
    Failed(String),
}

/// Mathematical model of a [`StoreReply`].
pub ghost enum StoreReplyView {
    Found(CacheEntryView),
    Missing,
    Failed(Seq<char>),
}

impl View for StoreReply {
    type V = StoreReplyView;

    open spec fn view(&self) -> StoreReplyView {
        match self {
            StoreReply::Found(entry) => StoreReplyView::Found(entry@),
            StoreReply::Missing => StoreReplyView::Missing,
            StoreReply::Failed(detail) => StoreReplyView::Failed(detail@),
        }
    }
}

/// The entry that a write at second `now` stores for `ttl` seconds.
pub open spec fn entry_for(
    key: Seq<char>,
    value: Seq<SearchResultView>,
    ttl: nat,
    now: nat,
) -> CacheEntryView {
    CacheEntryView { key, value, expires_at: now + ttl }
}

/// What a read at second `now` is worth: the entry's value if the store
/// holds an entry for this very key that has not expired, and nothing on a
/// miss, on an expired entry, on an entry for another key, or on a failure
/// of the store.
pub open spec fn lookup(reply: StoreReplyView, key: Seq<char>, now: nat) -> Option<
    Seq<SearchResultView>,
> {
    match reply {
        StoreReplyView::Found(entry) => if entry.key == key && now < entry.expires_at {
            Some(entry.value)
        } else {
            None
        },
        _ => None,
    }
}

/// Decides a cache read. A failure of the store is a miss, never an error.
pub fn get_cached_results(reply: StoreReply, key: &str, now: u64) -> (r: Option<Vec<SearchResult>>)
    ensures
        match r {
            Some(value) => lookup(reply@, key@, now as nat) == Some(results_view(value@)),
            None => lookup(reply@, key@, now as nat) is None,
        },
{
    match reply {
        StoreReply::Found(entry) => {
            if same_text(entry.key.as_str(), key) && (now as u128) < entry.expires_at {
                Some(entry.value)
            } else {
                None
            }
        },
        _ => None,
    }
}

/// Makes the entry that a cache write stores: `results` under `key`, to
/// expire `ttl` seconds after `now`.
pub fn set_cached_results(key: &str, results: &Vec<SearchResult>, ttl: usize, now: u64) -> (entry:
    CacheEntry)
    ensures
        entry@ == entry_for(key@, results_view(results@), ttl as nat, now as nat),
{
    CacheEntry {
        key: String::from_str(key),
        value: duplicate_results(results),
        expires_at: now as u128 + ttl as u128,
    }
}

/// A read that follows a write of `value` under the same key, before `ttl`
/// seconds have passed, yields `value` unchanged, provided the store hands
/// back the entry that was written.
pub proof fn law_write_then_read(
    key: Seq<char>,
    value: Seq<SearchResultView>,
    ttl: nat,
    now: nat,
    later: nat,
)
    requires
        now <= later < now + ttl,
    ensures
        lookup(StoreReplyView::Found(entry_for(key, value, ttl, now)), key, later) == Some(value),
{
}

/// From the second of its expiry on, an entry yields nothing, although the
/// store still holds it.
pub proof fn law_expired_is_absent(entry: CacheEntryView, key: Seq<char>, now: nat)
    requires
        now >= entry.expires_at,
    ensures
        lookup(StoreReplyView::Found(entry), key, now) is None,
{
}

/// An entry written with `ttl` seconds to live yields nothing once `ttl`
/// seconds have passed.
pub proof fn law_read_after_ttl(
    key: Seq<char>,
    value: Seq<SearchResultView>,
    ttl: nat,
    now: nat,
    later: nat,
)
    requires
        later >= now + ttl,
    ensures
        lookup(StoreReplyView::Found(entry_for(key, value, ttl, now)), key, later) is None,
{
}

/// Two queries share a key only if they are the same text, character for
/// character.
pub proof fn law_key_is_exact(a: Seq<char>, b: Seq<char>)
    ensures
        spec_cache_key(a) == spec_cache_key(b) <==> a == b,
{
    let prefix = "query:"@;
    if spec_cache_key(a) == spec_cache_key(b) {
        assert(a =~= spec_cache_key(a).subrange(prefix.len() as int, (prefix + a).len() as int));
        assert(b =~= spec_cache_key(b).subrange(prefix.len() as int, (prefix + b).len() as int));
    }
}

} // verus!
