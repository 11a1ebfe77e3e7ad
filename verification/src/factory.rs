//! The factory of blob caches.
//!
//! The factory keeps the caches that it made, under the fingerprint of their
//! configuration and the identifier of their blob, and hands a cache out
//! again when it is asked for the same blob under the same configuration. So
//! the devices of one process share the cache of a blob.

use crate::blob_info::BlobInfo;
use crate::cache::{BlobCache, BlobCacheBuilder};
use crate::chunk::share;
use crate::error::StorageError;
use std::sync::Arc;
use vstd::prelude::*;
use vstd::string::*;

verus! {

/// A cache that the factory keeps, with the fingerprint of its configuration.
pub struct FactoryEntry<B> {
    /// The fingerprint of the configuration that the cache was made under.
    pub key: String,
    /// The cache.
    pub cache: Arc<B>,
}

/// The first cache of `entries` that was made under the fingerprint `key` for
/// the blob `blob_id`.
pub open spec fn kept<B: BlobCache>(
    entries: Seq<FactoryEntry<B>>,
    key: Seq<char>,
    blob_id: Seq<char>,
) -> Option<Arc<B>>
    decreases entries.len(),
{
    if entries.len() == 0 {
        None
    } else if entries[0].key@ == key && entries[0].cache.view().blob_id@ == blob_id {
        Some(entries[0].cache)
    } else {
        kept(entries.drop_first(), key, blob_id)
    }
}

/// Whether `entries` hold a cache under the fingerprint `key` for each blob
/// of `blob_infos`.
pub open spec fn keeps_all<B: BlobCache>(
    entries: Seq<FactoryEntry<B>>,
    key: Seq<char>,
    blob_infos: Seq<Arc<BlobInfo>>,
) -> bool {
    forall|i: int|
        0 <= i < blob_infos.len() ==> kept(entries, key, (#[trigger] blob_infos[i])@.blob_id)
            is Some
}

/// The caches of `entries` that are in use, in their order. `used` has a
/// flag for each cache; a cache without flag is taken to be in use.
pub open spec fn retained<B: BlobCache>(entries: Seq<FactoryEntry<B>>, used: Seq<bool>) -> Seq<
    FactoryEntry<B>,
>
    decreases entries.len(),
{
    if entries.len() == 0 {
        Seq::empty()
    } else {
        let before = retained(entries.drop_last(), used);
        let last = entries.len() - 1;
        if last >= used.len() || used[last] {
            before.push(entries.last())
        } else {
            before
        }
    }
}

/// `Arc::strong_count` of std: the number of handles to the value at this
/// moment.
#[verifier::external_body]
fn handles<T>(a: &Arc<T>) -> usize {
    Arc::strong_count(a)
}

/// The factory of the caches that the builder `M` makes. Its view is the
/// list of the caches that it keeps, in the order in which they were made.
pub struct BlobFactory<M: BlobCacheBuilder> {
    builder: M,
    entries: Vec<FactoryEntry<M::Cache>>,
}

impl<M: BlobCacheBuilder> View for BlobFactory<M> {
    type V = Seq<FactoryEntry<M::Cache>>;

    closed spec fn view(&self) -> Seq<FactoryEntry<M::Cache>> {
        self.entries@
    }
}

impl<M: BlobCacheBuilder> BlobFactory<M> {
    /// The builder of the factory, which never changes.
    pub closed spec fn spec_builder(&self) -> M {
        self.builder
    }

    /// The fingerprint under which the factory keeps the caches of `config`.
    pub open spec fn key_of(&self, config: &M::Config) -> Seq<char> {
        self.spec_builder().spec_fingerprint(config)@
    }

    /// A factory that keeps no cache yet.
    pub fn new(builder: M) -> (r: Self)
        ensures
            r@.len() == 0,
            r.spec_builder() == builder,
    {
        BlobFactory { builder, entries: Vec::new() }
    }

    /// The number of caches that the factory keeps.
    pub fn len(&self) -> (r: usize)
        ensures
            r == self@.len(),
    {
        self.entries.len()
    }

    /// The cache that the factory keeps under the fingerprint `key` for the
    /// blob `blob_id`.
    pub fn find(&self, key: &str, blob_id: &str) -> (r: Option<Arc<M::Cache>>)
        ensures
            r == kept(self@, key@, blob_id@),
    {
        let wanted_key = key.to_owned();
        let wanted_id = blob_id.to_owned();
        let mut n: usize = 0;
        assert(self@.skip(0) == self@);
        while n < self.entries.len()
            invariant
                n <= self@.len(),
                wanted_key@ == key@,
                wanted_id@ == blob_id@,
                kept(self@, key@, blob_id@) == kept(self@.skip(n as int), key@, blob_id@),
            decreases self@.len() - n,
        {
            proof {
                let rest = self@.skip(n as int);
                assert(rest[0] == self@[n as int]);
                assert(rest.drop_first() == self@.skip(n + 1));
            }
            let entry = &self.entries[n];
            if entry.key == wanted_key && entry.cache.blob_id().to_owned() == wanted_id {
                return Some(share(&entry.cache));
            }
            n += 1;
        }
        None
    }

    /// The cache for the blob `blob_info` under the configuration `config`
    /// with the fingerprint `key`: the cache that the factory keeps for them,
    /// or a new one, which the factory keeps from now on. A failure of the
    /// builder is reported, and leaves the factory as it is.
    pub fn cache_for(
        &mut self,
        key: String,
        config: &Arc<M::Config>,
        blob_info: &Arc<BlobInfo>,
    ) -> (r: Result<Arc<M::Cache>, StorageError>)
        ensures
            kept(old(self)@, key@, blob_info@.blob_id) matches Some(cache) ==> r == Ok::<
                Arc<M::Cache>,
                StorageError,
            >(cache) && final(self)@ == old(self)@,
            kept(old(self)@, key@, blob_info@.blob_id) is None ==> match r {
                Ok(cache) => cache.view().blob_id@ == blob_info@.blob_id && final(self)@ == old(
                    self,
                )@.push(FactoryEntry { key, cache }),
                Err(_) => final(self)@ == old(self)@,
            },
            r matches Ok(cache) ==> kept(final(self)@, key@, blob_info@.blob_id) == Some(cache),
            final(self).spec_builder() == old(self).spec_builder(),
    {
        match self.find(key.as_str(), blob_info.blob_id()) {
            Some(cache) => Ok(cache),
            None => match self.builder.build(config, blob_info) {
                Ok(cache) => {
                    let kept_cache = share(&cache);
                    self.entries.push(FactoryEntry { key, cache: kept_cache });
                    proof {
                        lemma_kept_after_push(
                            old(self)@,
                            FactoryEntry { key, cache },
                            key@,
                            blob_info@.blob_id,
                        );
                    }
                    Ok(cache)
                },
                Err(e) => Err(e),
            },
        }
    }

    /// The cache for the blob `blob_info` under the configuration `config`:
    /// the cache that the factory keeps under the fingerprint of `config` for
    /// the blob, or a new one, which the factory keeps from now on. A failure
    /// of the builder is reported, and leaves the factory as it is.
    pub fn new_blob_cache(&mut self, config: &Arc<M::Config>, blob_info: &Arc<BlobInfo>) -> (r:
        Result<Arc<M::Cache>, StorageError>)
        ensures
            kept(old(self)@, old(self).key_of(&**config), blob_info@.blob_id) matches Some(cache)
                ==> r == Ok::<Arc<M::Cache>, StorageError>(cache) && final(self)@ == old(self)@,
            kept(old(self)@, old(self).key_of(&**config), blob_info@.blob_id) is None ==> match r {
                Ok(cache) => {
                    &&& cache.view().blob_id@ == blob_info@.blob_id
                    &&& final(self)@.len() == old(self)@.len() + 1
                    &&& final(self)@.drop_last() == old(self)@
                    &&& final(self)@.last().key@ == old(self).key_of(&**config)
                    &&& final(self)@.last().cache == cache
                },
                Err(_) => final(self)@ == old(self)@,
            },
            r matches Ok(cache) ==> cache.view().blob_id@ == blob_info@.blob_id && kept(
                final(self)@,
                old(self).key_of(&**config),
                blob_info@.blob_id,
            ) == Some(cache),
            final(self).spec_builder() == old(self).spec_builder(),
    {
        let key = self.builder.fingerprint(&**config);
        proof {
            lemma_kept_serves(self@, key@, blob_info@.blob_id);
        }
        let r = self.cache_for(key, config, blob_info);
        proof {
            if kept(old(self)@, key@, blob_info@.blob_id) is None && r is Ok {
                assert(self@.drop_last() == old(self)@);
            }
        }
        r
    }

    /// Let go of the caches of which `used` says that they are not in use.
    /// `used` has a flag for each cache that the factory keeps, in their
    /// order; a cache without flag is taken to be in use.
    pub fn release_where(&mut self, used: &[bool])
        ensures
            final(self)@ == retained(old(self)@, used@),
            final(self).spec_builder() == old(self).spec_builder(),
    {
        // Turn the caches round, so that they can be taken in their order.
        let mut turned: Vec<FactoryEntry<M::Cache>> = Vec::with_capacity(self.entries.len());
        let ghost all = self.entries@;
        while self.entries.len() > 0
            invariant
                self.spec_builder() == old(self).spec_builder(),
                all == old(self)@,
                turned@.len() + self.entries@.len() == all.len(),
                self.entries@ == all.take(self.entries@.len() as int),
                forall|k: int| 0 <= k < turned@.len() ==> turned@[k] == all[all.len() - 1 - k],
            decreases self.entries@.len(),
        {
            let ghost before = self.entries@;
            match self.entries.pop() {
                Some(entry) => {
                    assert(entry == before[before.len() - 1]);
                    assert(self.entries@ == all.take(self.entries@.len() as int));
                    turned.push(entry);
                },
                None => {},
            }
        }
        let mut n: usize = 0;
        assert(all.take(0) =~= Seq::<FactoryEntry<M::Cache>>::empty());
        while turned.len() > 0
            invariant
                self.spec_builder() == old(self).spec_builder(),
                all == old(self)@,
                n + turned@.len() == all.len(),
                all.len() <= usize::MAX,
                forall|k: int| 0 <= k < turned@.len() ==> turned@[k] == all[all.len() - 1 - k],
                self.entries@ == retained(all.take(n as int), used@),
            decreases turned@.len(),
        {
            let ghost rest = turned@;
            match turned.pop() {
                Some(entry) => {
                    proof {
                        assert(entry == rest[rest.len() - 1]);
                        assert(entry == all[n as int]);
                        let head = all.take(n + 1);
                        assert(head.drop_last() == all.take(n as int));
                        assert(head.last() == all[n as int]);
                    }
                    if n >= used.len() || used[n] {
                        self.entries.push(entry);
                    }
                    n += 1;
                },
                None => {},
            }
        }
        assert(all.take(all.len() as int) == all);
    }

    /// Let go of the caches that nobody but the factory holds: see
    /// [`BlobFactory::release_where`], with a flag for each cache that says
    /// whether there are other handles to the cache at this moment.
    pub fn release_unused(&mut self)
        ensures
            exists|used: Seq<bool>|
                used.len() == old(self)@.len() && final(self)@ == #[trigger] retained(
                    old(self)@,
                    used,
                ),
            final(self).spec_builder() == old(self).spec_builder(),
    {
        let mut used: Vec<bool> = Vec::with_capacity(self.entries.len());
        let mut n: usize = 0;
        while n < self.entries.len()
            invariant
                n <= self.entries@.len(),
                used@.len() == n,
                self.entries@ == old(self).entries@,
                self.spec_builder() == old(self).spec_builder(),
            decreases self.entries@.len() - n,
        {
            used.push(handles(&self.entries[n].cache) > 1);
            n += 1;
        }
        self.release_where(used.as_slice());
    }
}

/// A cache that the factory keeps for a blob serves that blob.
pub proof fn lemma_kept_serves<B: BlobCache>(
    entries: Seq<FactoryEntry<B>>,
    key: Seq<char>,
    blob_id: Seq<char>,
)
    ensures
        kept(entries, key, blob_id) matches Some(cache) ==> cache.view().blob_id@ == blob_id,
    decreases entries.len(),
{
    if entries.len() > 0 {
        lemma_kept_serves(entries.drop_first(), key, blob_id);
    }
}

/// A factory that kept no cache for a blob keeps the one that is added for
/// it, and what it kept for other blobs is kept as before.
pub proof fn lemma_kept_after_push<B: BlobCache>(
    entries: Seq<FactoryEntry<B>>,
    entry: FactoryEntry<B>,
    key: Seq<char>,
    blob_id: Seq<char>,
)
    ensures
        kept(entries, key, blob_id) is Some ==> kept(entries.push(entry), key, blob_id) == kept(
            entries,
            key,
            blob_id,
        ),
        kept(entries, key, blob_id) is None ==> kept(entries.push(entry), key, blob_id)
            == if entry.key@ == key && entry.cache.view().blob_id@ == blob_id {
            Some(entry.cache)
        } else {
            None
        },
    decreases entries.len(),
{
    let longer = entries.push(entry);
    if entries.len() == 0 {
        assert(longer[0] == entry);
        assert(longer.drop_first().len() == 0);
        assert(kept(longer.drop_first(), key, blob_id) is None);
        assert(kept(entries, key, blob_id) is None);
    } else {
        assert(longer[0] == entries[0]);
        assert(longer.drop_first() == entries.drop_first().push(entry));
        lemma_kept_after_push(entries.drop_first(), entry, key, blob_id);
    }
}

} // verus!
