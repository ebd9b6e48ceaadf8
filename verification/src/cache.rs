//! A bounded least-recently-used cache of parse results, keyed by the
//! exact source text.
//!
//! The store itself comes from an outside crate; its contents are named
//! `cache_entries`, a map from key text to the stored result's value,
//! and every method the library calls is wrapped with a contract over
//! that name.  The cache's own invariant says that each entry is the
//! genuine parse of its key, which makes a hit indistinguishable from a
//! fresh parse.

use vstd::prelude::*;

verus! {

use crate::engine::cst_of;
use crate::result::ParseResult;
use crate::result::PDiagModel;
use crate::result::collect_pdiags;
use crate::cst::CstModel;
use vstd::string::StringExecFns;

/// The outside crate's bounded least-recently-used map, carried opaquely.
#[verifier::external_type_specification]
#[verifier::external_body]
#[verifier::reject_recursive_types(K)]
#[verifier::reject_recursive_types(V)]
#[verifier::reject_recursive_types(S)]
pub struct ExLruCache<K, V, S>(lru::LruCache<K, V, S>);

/// What a result cache holds: for each stored key, the stored result's
/// tree, source, diagnostics and statistics values.
pub uninterp spec fn cache_entries(c: &lru::LruCache<String, ParseResult, std::collections::hash_map::RandomState>) -> Map<
    Seq<char>,
    (CstModel, Seq<char>, Seq<PDiagModel>, Option<crate::result::ParseStats>),
>;

/// The bound a result cache was built with.
pub uninterp spec fn cache_bound(c: &lru::LruCache<String, ParseResult, std::collections::hash_map::RandomState>) -> nat;

/// A cache with nothing in it.
pub open spec fn empty_entries() -> Map<
    Seq<char>,
    (CstModel, Seq<char>, Seq<PDiagModel>, Option<crate::result::ParseStats>),
> {
    Map::empty()
}

/// The stored values of one result.
pub open spec fn entry_of(v: &ParseResult) -> (
    CstModel,
    Seq<char>,
    Seq<PDiagModel>,
    Option<crate::result::ParseStats>,
) {
    (v.spec_cst(), v.spec_source(), v.spec_diags(), v.spec_stats())
}

/// Relies on `LruCache::new` and `NonZeroUsize::new`: builds an empty
/// bounded cache with the given positive capacity.
#[verifier::external_body]
fn lru_new(capacity: usize) -> (r: lru::LruCache<String, ParseResult, std::collections::hash_map::RandomState>)
    requires
        capacity >= 1,
    ensures
        cache_entries(&r) == empty_entries(),
        cache_bound(&r) == capacity,
{
    lru::LruCache::with_hasher(
        core::num::NonZeroUsize::new(capacity).unwrap(),
        std::collections::hash_map::RandomState::new(),
    )
}

/// Relies on `LruCache::get`: a lookup returns the entry stored under
/// the key, marks it most recently used, and removes nothing.
#[verifier::external_body]
fn lru_get<'a>(c: &'a mut lru::LruCache<String, ParseResult, std::collections::hash_map::RandomState>, key: &str) -> (r: Option<
    &'a ParseResult,
>)
    ensures
        cache_entries(final(c)) == cache_entries(old(c)),
        cache_bound(final(c)) == cache_bound(old(c)),
        match r {
            Some(v) => cache_entries(old(c)).contains_key(key@) && entry_of(v) == cache_entries(
                old(c),
            )[key@],
            None => !cache_entries(old(c)).contains_key(key@),
        },
{
    c.get(key)
}

/// Whether a cache's contents respect its construction bound.
pub open spec fn within_bound(
    m: Map<Seq<char>, (CstModel, Seq<char>, Seq<PDiagModel>, Option<crate::result::ParseStats>)>,
    bound: nat,
) -> bool {
    m.dom().finite() && m.dom().len() <= bound
}

/// Relies on `LruCache::put`: the key now maps to the value; any other
/// surviving key keeps the entry it had, though the least recently used
/// entry may have left a full cache — the store never holds more than
/// its bound.
#[verifier::external_body]
fn lru_put(c: &mut lru::LruCache<String, ParseResult, std::collections::hash_map::RandomState>, key: String, value: ParseResult)
    ensures
        cache_bound(final(c)) == cache_bound(old(c)),
        cache_entries(final(c)).contains_key(key@),
        cache_entries(final(c))[key@] == entry_of(&value),
        forall|k2: Seq<char>|
            k2 != key@ && #[trigger] cache_entries(final(c)).contains_key(k2) ==> cache_entries(
                old(c),
            ).contains_key(k2) && cache_entries(final(c))[k2] == cache_entries(old(c))[k2],
        within_bound(cache_entries(final(c)), cache_bound(old(c))),
{
    c.put(key, value);
}

/// Relies on `LruCache::clear`: every entry leaves.
#[verifier::external_body]
fn lru_clear(c: &mut lru::LruCache<String, ParseResult, std::collections::hash_map::RandomState>)
    ensures
        cache_entries(final(c)) == empty_entries(),
        cache_bound(final(c)) == cache_bound(old(c)),
{
    c.clear();
}

/// A bounded cache of parse results keyed by source text.
pub struct ParseCache {
    cache: lru::LruCache<String, ParseResult, std::collections::hash_map::RandomState>,
}

/// Whether a stored entry is the genuine parse of its key: its tree is
/// the engine's tree for the key text, its source is the key, and its
/// diagnostics are the collector's walk of that tree.
pub open spec fn entry_valid(
    e: (CstModel, Seq<char>, Seq<PDiagModel>, Option<crate::result::ParseStats>),
    key: Seq<char>,
) -> bool {
    &&& e.0 == cst_of(key)
    &&& e.1 == key
    &&& e.2 == collect_pdiags(cst_of(key))
}

impl ParseCache {
    /// What the cache holds.
    pub closed spec fn entries(&self) -> Map<
        Seq<char>,
        (CstModel, Seq<char>, Seq<PDiagModel>, Option<crate::result::ParseStats>),
    > {
        cache_entries(&self.cache)
    }

    /// The bound the cache was built with.
    pub closed spec fn bound(&self) -> nat {
        cache_bound(&self.cache)
    }

    /// Whether every entry is the genuine parse of its key.
    pub closed spec fn wf(&self) -> bool {
        forall|k: Seq<char>|
            #[trigger] self.entries().contains_key(k) ==> entry_valid(self.entries()[k], k)
    }

    /// Builds a cache with the given capacity; a zero capacity falls
    /// back to one hundred entries.
    pub fn new(capacity: usize) -> (r: ParseCache)
        ensures
            r.entries() == empty_entries(),
            r.bound() == (if capacity >= 1 {
                capacity as nat
            } else {
                100nat
            }),
            r.wf(),
            within_bound(r.entries(), r.bound()),
    {
        let cap: usize = if capacity >= 1 {
            capacity
        } else {
            100
        };
        let r = ParseCache { cache: lru_new(cap) };
        proof {
            assert(r.entries().dom() =~= Set::<Seq<char>>::empty());
        }
        r
    }

    /// Looks a result up by its source text; a hit hands back a copy of
    /// the stored result.
    pub fn get(&mut self, key: &str) -> (r: Option<ParseResult>)
        ensures
            final(self).entries() == old(self).entries(),
            final(self).bound() == old(self).bound(),
            old(self).wf() ==> final(self).wf(),
            match r {
                Some(v) => old(self).entries().contains_key(key@) && entry_of(&v) == old(
                    self,
                ).entries()[key@],
                None => !old(self).entries().contains_key(key@),
            },
    {
        let r = match lru_get(&mut self.cache, key) {
            Some(v) => Some(v.duplicate()),
            None => None,
        };
        proof {
            if old(self).wf() {
                assert forall|k: Seq<char>| #[trigger] self.entries().contains_key(k) implies entry_valid(
                    self.entries()[k],
                    k,
                ) by {
                    assert(old(self).entries().contains_key(k));
                }
            }
        }
        r
    }

    /// Stores a result under its source text.  The value must be the
    /// genuine parse of the key; `NixParser::parse` is the intended
    /// caller.
    pub fn insert(&mut self, key: String, value: ParseResult)
        requires
            entry_valid(entry_of(&value), key@),
        ensures
            final(self).bound() == old(self).bound(),
            final(self).entries().contains_key(key@),
            final(self).entries()[key@] == entry_of(&value),
            old(self).wf() ==> final(self).wf(),
            within_bound(final(self).entries(), final(self).bound()),
    {
        let ghost vm = entry_of(&value);
        lru_put(&mut self.cache, key, value);
        proof {
            if old(self).wf() {
                assert forall|k: Seq<char>| #[trigger] self.entries().contains_key(k) implies entry_valid(
                    self.entries()[k],
                    k,
                ) by {
                    if k == key@ {
                        assert(self.entries()[k] == vm);
                    } else {
                        assert(old(self).entries().contains_key(k));
                    }
                }
            }
        }
    }

    /// Drops every entry.
    pub fn clear(&mut self)
        ensures
            final(self).entries() == empty_entries(),
            final(self).bound() == old(self).bound(),
            final(self).wf(),
            within_bound(final(self).entries(), final(self).bound()),
    {
        lru_clear(&mut self.cache);
        proof {
            assert(self.entries().dom() =~= Set::<Seq<char>>::empty());
        }
    }
}

/// A well-formed cache's entries are each the genuine parse of their key.
pub proof fn lemma_wf_entry(c: &ParseCache, k: Seq<char>)
    requires
        c.wf(),
        c.entries().contains_key(k),
    ensures
        entry_valid(c.entries()[k], k),
{
}

impl Default for ParseCache {
    /// A cache bounded at one hundred entries.
    fn default() -> (r: ParseCache)
        ensures
            r.wf(),
            r.bound() == 100nat,
    {
        ParseCache::new(100)
    }
}

/// A cached low-level result: serialized tree bytes and rendered
/// diagnostics, as an earlier layer stored them.
#[derive(Debug, Clone)]
pub struct CachedResult {
    /// The serialized bytes of the engine's tree.
    pub tree_bytes: Vec<u8>,
    /// The rendered diagnostics.
    pub diagnostics: Vec<String>,
}

} // verus!
