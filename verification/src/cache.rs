//! Cache for resources referred to by workflow definitions.
//!
//! The first time a resource is accessed it is loaded through the
//! loader; resources are then cached by their canonical URI, together
//! with their runtime type identity, so reusing the same URI neither
//! re-fetches nor re-validates. A failed load leaves no entry behind,
//! and a cached value is never reinterpreted as another document kind.
//!
//! Cached values are shared through reference-counted handles, so a
//! cache and the values obtained from it belong to one thread.

use std::rc::Rc;

use vstd::prelude::*;

use crate::definition::functions::FunctionsDocument;
use crate::definition::WorkflowDefinition;
use crate::error::Error;
use crate::loader::{DefinitionLoader, DocumentHandle, DocumentKind, FetchBytes};
use crate::strings::str_eq;
use crate::uri::TryIntoUri;

verus! {

/// One stored document: the URI's normalized form as the key, the
/// stored type identity, and the shared value.
#[derive(Debug)]
pub struct CacheEntry {
    /// The normalized URI this document was loaded from.
    pub uri: String,
    /// The stored document's type identity.
    pub kind: DocumentKind,
    /// The shared document value.
    pub doc: DocumentHandle,
}

/// The first entry stored under `key`, scanning from the front.
pub open spec fn lookup(entries: Seq<CacheEntry>, key: Seq<char>) -> Option<CacheEntry>
    decreases entries.len(),
{
    if entries.len() == 0 {
        None
    } else if entries[0].uri@ == key {
        Some(entries[0])
    } else {
        lookup(entries.skip(1), key)
    }
}

/// When nothing is stored under `key`, no entry carries that key.
pub proof fn lemma_lookup_none_absent(entries: Seq<CacheEntry>, key: Seq<char>)
    requires
        lookup(entries, key) is None,
    ensures
        forall|i: int| 0 <= i < entries.len() ==> (#[trigger] entries[i]).uri@ != key,
    decreases entries.len(),
{
    if entries.len() > 0 {
        lemma_lookup_none_absent(entries.skip(1), key);
        assert forall|i: int| 0 <= i < entries.len() implies (#[trigger] entries[i]).uri@
            != key by {
            if i > 0 {
                assert(entries.skip(1)[i - 1] == entries[i]);
            }
        }
    }
}

/// A found entry is one of the stored entries, stored under the key.
pub proof fn lemma_lookup_found(entries: Seq<CacheEntry>, key: Seq<char>)
    requires
        lookup(entries, key) is Some,
    ensures
        exists|i: int|
            0 <= i < entries.len() && #[trigger] entries[i] == lookup(entries, key)->Some_0
                && entries[i].uri@ == key,
    decreases entries.len(),
{
    if entries.len() > 0 {
        if entries[0].uri@ == key {
            assert(entries[0] == lookup(entries, key)->Some_0);
        } else {
            lemma_lookup_found(entries.skip(1), key);
            let j = choose|j: int|
                0 <= j < entries.skip(1).len() && #[trigger] entries.skip(1)[j] == lookup(
                    entries.skip(1),
                    key,
                )->Some_0 && entries.skip(1)[j].uri@ == key;
            assert(entries[j + 1] == entries.skip(1)[j]);
        }
    }
}

/// Appending an entry leaves earlier keys bound as before and binds the
/// new entry's key when it was absent.
pub proof fn lemma_lookup_append(entries: Seq<CacheEntry>, e: CacheEntry, key: Seq<char>)
    ensures
        lookup(entries + seq![e], key) == (match lookup(entries, key) {
            Some(x) => Some(x),
            None => if e.uri@ == key {
                Some(e)
            } else {
                None
            },
        }),
    decreases entries.len(),
{
    if entries.len() == 0 {
        assert((entries + seq![e])[0] == e);
        assert((entries + seq![e]).skip(1) =~= Seq::<CacheEntry>::empty());
        assert(lookup(Seq::<CacheEntry>::empty(), key) is None);
        assert(lookup(entries, key) is None);
    } else {
        assert((entries + seq![e])[0] == entries[0]);
        assert((entries + seq![e]).skip(1) =~= entries.skip(1) + seq![e]);
        lemma_lookup_append(entries.skip(1), e, key);
    }
}

/// Type-mismatch safety: a successful cache access always yields a
/// handle of the requested kind, whether it came from the loader or
/// from the store; a cached value is never reinterpreted as another
/// document kind.
pub proof fn lemma_access_kind(
    pre: DefinitionCache,
    post: DefinitionCache,
    target: Option<(Seq<char>, Seq<char>, Seq<char>)>,
    kind: DocumentKind,
    r: Result<DocumentHandle, Error>,
)
    requires
        pre.wf(),
        DefinitionCache::access_post(pre, post, target, kind, r),
    ensures
        r matches Ok(h) ==> h.kind_of() == kind,
{
    if r is Ok {
        let (s, p, raw) = target->Some_0;
        match lookup(pre.entries@, raw) {
            Some(entry) => {
                lemma_lookup_found(pre.entries@, raw);
                let i = choose|i: int|
                    0 <= i < pre.entries@.len() && #[trigger] pre.entries@[i] == lookup(
                        pre.entries@,
                        raw,
                    )->Some_0 && pre.entries@[i].uri@ == raw;
                assert(pre.entries@[i].doc.kind_of() == pre.entries@[i].kind);
            },
            None => {},
        }
    }
}

/// At-most-once-load: after a successful access for a URI, a second
/// access to the same URI with the same kind returns a handle to the
/// same underlying value, leaves the cache unchanged, and does not
/// invoke the loader again.
pub proof fn lemma_at_most_once_load(
    c0: DefinitionCache,
    c1: DefinitionCache,
    c2: DefinitionCache,
    target: (Seq<char>, Seq<char>, Seq<char>),
    kind: DocumentKind,
    r1: Result<DocumentHandle, Error>,
    r2: Result<DocumentHandle, Error>,
)
    requires
        c0.wf(),
        DefinitionCache::access_post(c0, c1, Some(target), kind, r1),
        DefinitionCache::access_post(c1, c2, Some(target), kind, r2),
        r1 is Ok,
    ensures
        r2 is Ok,
        r2->Ok_0 == r1->Ok_0,
        c2 == c1,
        c2.loads == c1.loads,
{
    let raw = target.2;
    match lookup(c0.entries@, raw) {
        Some(entry) => {
        },
        None => {
            assert(c1.entries@ =~= c0.entries@ + seq![c1.entries@.last()]);
            lemma_lookup_append(c0.entries@, c1.entries@.last(), raw);
        },
    }
}

/// A stored binding survives any access: whatever one access does, a
/// key bound before it is bound to the same entry after it.
pub proof fn lemma_cached_stays_cached(
    pre: DefinitionCache,
    post: DefinitionCache,
    target: Option<(Seq<char>, Seq<char>, Seq<char>)>,
    kind: DocumentKind,
    r: Result<DocumentHandle, Error>,
    key: Seq<char>,
)
    requires
        DefinitionCache::access_post(pre, post, target, kind, r),
        lookup(pre.entries@, key) is Some,
    ensures
        lookup(post.entries@, key) == lookup(pre.entries@, key),
{
    match target {
        None => {},
        Some((scheme, path, raw)) => match lookup(pre.entries@, raw) {
            Some(_) => {},
            None => {
                if r is Ok {
                    assert(post.entries@ =~= pre.entries@ + seq![post.entries@.last()]);
                    lemma_lookup_append(pre.entries@, post.entries@.last(), key);
                }
            },
        },
    }
}

/// A successful access leaves the URI bound: afterwards the canonical
/// URI is stored, under the requested kind, with the returned value.
pub proof fn lemma_success_caches(
    pre: DefinitionCache,
    post: DefinitionCache,
    target: (Seq<char>, Seq<char>, Seq<char>),
    kind: DocumentKind,
    r: Result<DocumentHandle, Error>,
)
    requires
        DefinitionCache::access_post(pre, post, Some(target), kind, r),
        r is Ok,
    ensures
        lookup(post.entries@, target.2) matches Some(entry) && entry.kind == kind && entry.doc
            == r->Ok_0,
{
    let raw = target.2;
    match lookup(pre.entries@, raw) {
        Some(entry) => {},
        None => {
            assert(post.entries@ =~= pre.entries@ + seq![post.entries@.last()]);
            lemma_lookup_append(pre.entries@, post.entries@.last(), raw);
        },
    }
}

/// A key bound at one point of a run of accesses is bound to the same
/// entry at every later point of the run.
pub proof fn lemma_cached_through_run(
    caches: Seq<DefinitionCache>,
    targets: Seq<Option<(Seq<char>, Seq<char>, Seq<char>)>>,
    kinds: Seq<DocumentKind>,
    results: Seq<Result<DocumentHandle, Error>>,
    key: Seq<char>,
    from: int,
    to: int,
)
    requires
        caches.len() == results.len() + 1,
        targets.len() == results.len(),
        kinds.len() == results.len(),
        forall|k: int|
            0 <= k < results.len() ==> #[trigger] DefinitionCache::access_post(
                caches[k],
                caches[k + 1],
                targets[k],
                kinds[k],
                results[k],
            ),
        0 <= from <= to <= results.len(),
        lookup(caches[from].entries@, key) is Some,
    ensures
        lookup(caches[to].entries@, key) == lookup(caches[from].entries@, key),
    decreases to - from,
{
    if from < to {
        lemma_cached_stays_cached(
            caches[from],
            caches[from + 1],
            targets[from],
            kinds[from],
            results[from],
            key,
        );
        lemma_cached_through_run(caches, targets, kinds, results, key, from + 1, to);
    }
}

/// At-most-once-load, over any run of accesses: once an access for a
/// canonical URI has succeeded, every later access of the run that
/// denotes the same URI — whatever kind it requests — changes nothing:
/// the stored documents stay as they are and the loader invocation
/// count does not move, so the loader is never invoked again for that
/// URI.
pub proof fn lemma_at_most_once_load_run(
    caches: Seq<DefinitionCache>,
    targets: Seq<Option<(Seq<char>, Seq<char>, Seq<char>)>>,
    kinds: Seq<DocumentKind>,
    results: Seq<Result<DocumentHandle, Error>>,
    i: int,
    j: int,
)
    requires
        caches.len() == results.len() + 1,
        targets.len() == results.len(),
        kinds.len() == results.len(),
        forall|k: int|
            0 <= k < results.len() ==> #[trigger] DefinitionCache::access_post(
                caches[k],
                caches[k + 1],
                targets[k],
                kinds[k],
                results[k],
            ),
        0 <= i < j < results.len(),
        targets[i] is Some,
        results[i] is Ok,
        targets[j] == targets[i],
    ensures
        caches[j + 1] == caches[j],
        caches[j + 1].loads == caches[j].loads,
{
    let raw = targets[i]->Some_0.2;
    lemma_success_caches(
        caches[i],
        caches[i + 1],
        targets[i]->Some_0,
        kinds[i],
        results[i],
    );
    lemma_cached_through_run(caches, targets, kinds, results, raw, i + 1, j);
    assert(DefinitionCache::access_post(
        caches[j],
        caches[j + 1],
        targets[j],
        kinds[j],
        results[j],
    ));
    assert(lookup(caches[j].entries@, raw) is Some);
}

/// Type-mismatch safety: after a URI has been loaded with one kind, an
/// access to the same URI with a different kind fails with a
/// type-mismatch error naming both the requested and the stored
/// identity, changes nothing, and never yields a value of the wrong
/// kind.
pub proof fn lemma_type_mismatch(
    c0: DefinitionCache,
    c1: DefinitionCache,
    c2: DefinitionCache,
    target: (Seq<char>, Seq<char>, Seq<char>),
    kind_a: DocumentKind,
    kind_b: DocumentKind,
    r1: Result<DocumentHandle, Error>,
    r2: Result<DocumentHandle, Error>,
)
    requires
        c0.wf(),
        DefinitionCache::access_post(c0, c1, Some(target), kind_a, r1),
        DefinitionCache::access_post(c1, c2, Some(target), kind_b, r2),
        r1 is Ok,
        kind_a != kind_b,
    ensures
        r2 matches Err(e) && (e matches Error::InvalidCachedObjectType {
            expected_type,
            actual_type,
        } && expected_type@ == kind_b.spec_kind_name() && actual_type@
            == kind_a.spec_kind_name()),
        c2 == c1,
{
    let raw = target.2;
    match lookup(c0.entries@, raw) {
        Some(entry) => {
        },
        None => {
            assert(c1.entries@ =~= c0.entries@ + seq![c1.entries@.last()]);
            lemma_lookup_append(c0.entries@, c1.entries@.last(), raw);
        },
    }
}

/// No negative caching: a failed load for an absent URI counts one
/// loader invocation but leaves the stored documents exactly as they
/// were, so the URI is still absent and the next access for it performs
/// the full load again.
pub proof fn lemma_no_negative_caching(
    c0: DefinitionCache,
    c1: DefinitionCache,
    target: (Seq<char>, Seq<char>, Seq<char>),
    kind: DocumentKind,
    r1: Result<DocumentHandle, Error>,
)
    requires
        c0.wf(),
        lookup(c0.entries@, target.2) is None,
        DefinitionCache::access_post(c0, c1, Some(target), kind, r1),
        r1 is Err,
    ensures
        c1.entries@ == c0.entries@,
        lookup(c1.entries@, target.2) is None,
        c1.loads == c0.loads + 1,
{
}

/// Definition cache: typed access to documents referenced by URI, with
/// a single fetch, decode and validate pass per URI.
#[derive(Debug)]
pub struct DefinitionCache {
    /// The loader used on the first access to each URI.
    pub loader: DefinitionLoader,
    /// The stored documents, in insertion order, with unique keys.
    pub entries: Vec<CacheEntry>,
    /// How many times the loader has been invoked.
    pub loads: u64,
}

impl DefinitionCache {
    /// Well-formedness: every stored document's value matches its
    /// stored type identity, and every key is stored at most once.
    pub open spec fn wf(self) -> bool {
        &&& forall|i: int|
            0 <= i < self.entries@.len() ==> (#[trigger] self.entries@[i]).doc.kind_of()
                == self.entries@[i].kind
        &&& forall|i: int, j: int|
            0 <= i < j < self.entries@.len() ==> (#[trigger] self.entries@[i]).uri@ != (
            #[trigger] self.entries@[j]).uri@
    }

    /// What one `get_or_insert` access guarantees, relating the cache
    /// before (`pre`) and after (`post`) the call, the canonical URI
    /// the input denotes (`target`), the requested kind and the result.
    ///
    /// * An input that denotes no URI fails with an invalid-URL error
    ///   and changes nothing.
    /// * A hit with the stored kind returns the stored value unchanged,
    ///   without invoking the loader.
    /// * A hit with another kind fails with a type-mismatch error
    ///   naming both identities, and changes nothing.
    /// * A miss invokes the loader exactly once; on success the value
    ///   is appended under the key, on failure no entry is left behind.
    pub open spec fn access_post(
        pre: DefinitionCache,
        post: DefinitionCache,
        target: Option<(Seq<char>, Seq<char>, Seq<char>)>,
        kind: DocumentKind,
        r: Result<DocumentHandle, Error>,
    ) -> bool {
        match target {
            None => post == pre && (r matches Err(e) && e matches Error::InvalidUrl { .. }),
            Some((scheme, path, raw)) => match lookup(pre.entries@, raw) {
                Some(entry) => {
                    &&& post == pre
                    &&& if entry.kind == kind {
                        r matches Ok(h) && h == entry.doc
                    } else {
                        r matches Err(e) && (e matches Error::InvalidCachedObjectType {
                            expected_type,
                            actual_type,
                        } && expected_type@ == kind.spec_kind_name() && actual_type@
                            == entry.kind.spec_kind_name())
                    }
                },
                None => {
                    &&& post.loader == pre.loader
                    &&& post.loads == pre.loads + 1
                    &&& match r {
                        Ok(h) => {
                            &&& h.kind_of() == kind
                            &&& (pre.loader.validation_supported ==> h.valid())
                            &&& post.entries@.len() == pre.entries@.len() + 1
                            &&& post.entries@.take(pre.entries@.len() as int) == pre.entries@
                            &&& post.entries@.last().uri@ == raw
                            &&& post.entries@.last().kind == kind
                            &&& post.entries@.last().doc == h
                        },
                        Err(_) => post.entries@ == pre.entries@,
                    }
                },
            },
        }
    }

    /// Creates a new empty cache with a default loader.
    pub fn new() -> (r: DefinitionCache)
        ensures
            r.wf(),
            r.entries@.len() == 0,
            r.loads == 0,
            r.loader.yaml_supported,
            r.loader.validation_supported,
    {
        DefinitionCache { loader: DefinitionLoader::new(), entries: Vec::new(), loads: 0 }
    }

    /// How many times the loader has been invoked so far.
    pub fn load_count(&self) -> (n: u64)
        ensures
            n == self.loads,
    {
        self.loads
    }

    /// Finds the index of the entry stored under `key`, if any.
    fn find_index(&self, key: &str) -> (r: Option<usize>)
        ensures
            match r {
                Some(i) => i < self.entries@.len() && lookup(self.entries@, key@) == Some(
                    self.entries@[i as int],
                ),
                None => lookup(self.entries@, key@) is None,
            },
    {
        let n = self.entries.len();
        let mut i: usize = 0;
        proof {
            assert(self.entries@.skip(0) =~= self.entries@);
        }
        while i < n
            invariant
                0 <= i <= n,
                n == self.entries@.len(),
                lookup(self.entries@, key@) == lookup(self.entries@.skip(i as int), key@),
            decreases n - i,
        {
            proof {
                assert(self.entries@.skip(i as int)[0] == self.entries@[i as int]);
                assert(self.entries@.skip(i as int).skip(1) =~= self.entries@.skip(i as int + 1));
            }
            if str_eq(self.entries[i].uri.as_str(), key) {
                return Some(i);
            }
            i += 1;
        }
        proof {
            assert(self.entries@.skip(n as int) =~= Seq::<CacheEntry>::empty());
            assert(lookup(Seq::<CacheEntry>::empty(), key@) is None);
        }
        None
    }

    /// Fetches a definition document from the cache, loading it on the
    /// first access.
    ///
    /// The URI-like input is first converted to its canonical URI. A
    /// cached document under that URI is returned directly when its
    /// stored identity matches the requested kind, and rejected with a
    /// type-mismatch error otherwise. On a miss the loader runs once;
    /// its result is stored only on success, so a failed load is
    /// retried in full by the next call.
    pub fn get_or_insert<U: TryIntoUri, F: FetchBytes>(
        &mut self,
        fetcher: &mut F,
        uri: U,
        kind: DocumentKind,
    ) -> (r: Result<DocumentHandle, Error>)
        requires
            old(self).wf(),
            old(self).loads < u64::MAX,
        ensures
            final(self).wf(),
            Self::access_post(*old(self), *final(self), uri.spec_uri(), kind, r),
    {
        let u = match uri.try_into_uri() {
            Ok(u) => u,
            Err(e) => {
                return Err(e);
            },
        };
        match self.find_index(u.raw.as_str()) {
            Some(i) => {
                let entry_kind = self.entries[i].kind;
                if entry_kind == kind {
                    Ok(self.entries[i].doc.duplicate())
                } else {
                    Err(
                        Error::InvalidCachedObjectType {
                            expected_type: kind.kind_name(),
                            actual_type: entry_kind.kind_name(),
                        },
                    )
                }
            },
            None => {
                self.loads = self.loads + 1;
                match self.loader.load(fetcher, &u, kind) {
                    Ok(h) => {
                        let ghost pre_entries = self.entries@;
                        let stored = h.duplicate();
                        self.entries.push(CacheEntry { uri: u.raw, kind, doc: stored });
                        proof {
                            lemma_lookup_none_absent(pre_entries, self.entries@.last().uri@);
                            assert(self.entries@.take(pre_entries.len() as int) =~= pre_entries);
                            assert forall|a: int, b: int|
                                0 <= a < b < self.entries@.len() implies (
                            #[trigger] self.entries@[a]).uri@ != (
                            #[trigger] self.entries@[b]).uri@ by {
                                if b < self.entries@.len() - 1 {
                                    assert(pre_entries[a] == self.entries@[a]);
                                    assert(pre_entries[b] == self.entries@[b]);
                                } else {
                                    assert(pre_entries[a] == self.entries@[a]);
                                }
                            }
                        }
                        Ok(h)
                    },
                    Err(e) => Err(e),
                }
            },
        }
    }

    /// Fetches a workflow definition document from the cache, loading
    /// it on the first access, as by
    /// [`get_or_insert`](Self::get_or_insert) with the workflow kind.
    pub fn get_or_insert_workflow<U: TryIntoUri, F: FetchBytes>(
        &mut self,
        fetcher: &mut F,
        uri: U,
    ) -> (r: Result<Rc<WorkflowDefinition>, Error>)
        requires
            old(self).wf(),
            old(self).loads < u64::MAX,
        ensures
            final(self).wf(),
            Self::access_post(
                *old(self),
                *final(self),
                uri.spec_uri(),
                DocumentKind::Workflow,
                match r {
                    Ok(doc) => Ok(DocumentHandle::Workflow(doc)),
                    Err(e) => Err(e),
                },
            ),
    {
        let ghost target = uri.spec_uri();
        let result = self.get_or_insert(fetcher, uri, DocumentKind::Workflow);
        proof {
            lemma_access_kind(*old(self), *self, target, DocumentKind::Workflow, result);
        }
        match result {
            Ok(h) => match h {
                DocumentHandle::Workflow(doc) => Ok(doc),
                DocumentHandle::Functions(_) => vstd::pervasive::unreached(),
            },
            Err(e) => Err(e),
        }
    }

    /// Fetches a functions resource document from the cache, loading it
    /// on the first access, as by
    /// [`get_or_insert`](Self::get_or_insert) with the functions kind.
    pub fn get_or_insert_functions<U: TryIntoUri, F: FetchBytes>(
        &mut self,
        fetcher: &mut F,
        uri: U,
    ) -> (r: Result<Rc<FunctionsDocument>, Error>)
        requires
            old(self).wf(),
            old(self).loads < u64::MAX,
        ensures
            final(self).wf(),
            Self::access_post(
                *old(self),
                *final(self),
                uri.spec_uri(),
                DocumentKind::Functions,
                match r {
                    Ok(doc) => Ok(DocumentHandle::Functions(doc)),
                    Err(e) => Err(e),
                },
            ),
    {
        let ghost target = uri.spec_uri();
        let result = self.get_or_insert(fetcher, uri, DocumentKind::Functions);
        proof {
            lemma_access_kind(*old(self), *self, target, DocumentKind::Functions, result);
        }
        match result {
            Ok(h) => match h {
                DocumentHandle::Functions(doc) => Ok(doc),
                DocumentHandle::Workflow(_) => vstd::pervasive::unreached(),
            },
            Err(e) => Err(e),
        }
    }
}

} // verus!
