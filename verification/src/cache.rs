//! The cache of provider answers: two bounded stores whose entries expire,
//! one for search results and one for metadata. The stores are `moka` caches;
//! this module says what the aggregator may rely on when it reads and writes
//! them.

use std::sync::Arc;
use std::time::Duration;
use vstd::prelude::*;
use crate::types::info_views;
use crate::text::{lowercase, to_lowercase};
use crate::types::{MediaInfo, MediaInfoView, MediaMetadata, MediaMetadataView};

verus! {

#[verifier::external_type_specification]
#[verifier::external_body]
#[verifier::reject_recursive_types(K)]
#[verifier::reject_recursive_types(V)]
#[verifier::reject_recursive_types(S)]
pub struct ExCache<K, V, S>(moka::sync::Cache<K, V, S>);

/// The store of search results, keyed by provider, lower-cased query and
/// year.
pub type SearchStore = moka::sync::Cache<(String, String, Option<i32>), Arc<Vec<MediaInfo>>>;

/// The store of metadata, keyed by provider and identifier.
pub type MetadataStore = moka::sync::Cache<(String, String), Arc<MediaMetadata>>;

/// A key of the search store.
pub type SearchKey = (Seq<char>, Seq<char>, Option<i32>);

/// A key of the metadata store.
pub type MetadataKey = (Seq<char>, Seq<char>);

/// What was written to a search store since it was made or last cleared: for
/// each key the value written last. An entry may have expired or been
/// evicted since, so a read may miss what is listed here; it never returns
/// anything else.
pub uninterp spec fn search_entries(store: SearchStore) -> Map<SearchKey, Seq<MediaInfoView>>;

/// What was written to a metadata store since it was made or last cleared:
/// for each key the value written last. An entry may have expired or been
/// evicted since, so a read may miss what is listed here; it never returns
/// anything else.
pub uninterp spec fn metadata_entries(store: MetadataStore) -> Map<MetadataKey, MediaMetadataView>;

/// The limits with which a search store was built: the greatest number of
/// entries that it keeps, and the time that an entry lives, in seconds. A
/// store keeps its limits for as long as it exists.
pub uninterp spec fn search_limits(store: SearchStore) -> (u64, u64);

/// The limits with which a metadata store was built: the greatest number of
/// entries that it keeps, and the time that an entry lives, in seconds. A
/// store keeps its limits for as long as it exists.
pub uninterp spec fn metadata_limits(store: MetadataStore) -> (u64, u64);

/// The search entries of a store to which nothing was written.
pub open spec fn no_searches() -> Map<SearchKey, Seq<MediaInfoView>> {
    Map::empty()
}

/// The metadata entries of a store to which nothing was written.
pub open spec fn no_metadata() -> Map<MetadataKey, MediaMetadataView> {
    Map::empty()
}

/// The longest time to live that a store accepts, in seconds: a thousand
/// years of 365 days.
pub const MAX_TTL: u64 = 31_536_000_000;

/// Builds a search store with `CacheBuilder::max_capacity`, `time_to_live`
/// and `build`. The builder refuses a time to live of more than a thousand
/// years. The new store holds nothing, and its limits are those given.
#[verifier::external_body]
fn new_search_store(max_entries: u64, ttl: u64) -> (r: SearchStore)
    requires
        ttl <= MAX_TTL,
    ensures
        search_entries(r) == no_searches(),
        search_limits(r) == (max_entries, ttl),
{
    moka::sync::Cache::builder().max_capacity(max_entries).time_to_live(
        Duration::from_secs(ttl),
    ).build()
}

/// Builds a metadata store with `CacheBuilder::max_capacity`, `time_to_live`
/// and `build`. The builder refuses a time to live of more than a thousand
/// years. The new store holds nothing, and its limits are those given.
#[verifier::external_body]
fn new_metadata_store(max_entries: u64, ttl: u64) -> (r: MetadataStore)
    requires
        ttl <= MAX_TTL,
    ensures
        metadata_entries(r) == no_metadata(),
        metadata_limits(r) == (max_entries, ttl),
{
    moka::sync::Cache::builder().max_capacity(max_entries).time_to_live(
        Duration::from_secs(ttl),
    ).build()
}

/// Calls `Cache::get` and copies what it finds. A hit is the value written
/// last under the key; a key that was not written since the store was last
/// cleared misses. Whether a written key hits depends on the time and on the
/// store's evictions.
#[verifier::external_body]
fn read_search(store: &SearchStore, provider: &str, query: &str, year: Option<i32>) -> (r: Option<
    Vec<MediaInfo>,
>)
    ensures
        r matches Some(found) ==> search_entries(*store).contains_key((provider@, query@, year))
            && info_views(found@) == search_entries(*store)[(provider@, query@, year)],
{
    store.get(&(provider.to_string(), query.to_string(), year)).map(|shared| (*shared).clone())
}

/// Calls `Cache::insert`: the value replaces what was written under the key
/// before, and no other key changes; nor do the store's limits.
#[verifier::external_body]
fn write_search(
    store: &mut SearchStore,
    provider: &str,
    query: &str,
    year: Option<i32>,
    results: Vec<MediaInfo>,
)
    ensures
        search_entries(*final(store)) == search_entries(*old(store)).insert(
            (provider@, query@, year),
            info_views(results@),
        ),
        search_limits(*final(store)) == search_limits(*old(store)),
{
    store.insert((provider.to_string(), query.to_string(), year), Arc::new(results));
}

/// Calls `Cache::get` and copies what it finds. A hit is the value written
/// last under the key; a key that was not written since the store was last
/// cleared misses. Whether a written key hits depends on the time and on the
/// store's evictions.
#[verifier::external_body]
fn read_metadata(store: &MetadataStore, provider: &str, id: &str) -> (r: Option<MediaMetadata>)
    ensures
        r matches Some(found) ==> metadata_entries(*store).contains_key((provider@, id@))
            && found@ == metadata_entries(*store)[(provider@, id@)],
{
    store.get(&(provider.to_string(), id.to_string())).map(|shared| (*shared).clone())
}

/// Calls `Cache::insert`: the value replaces what was written under the key
/// before, and no other key changes; nor do the store's limits.
#[verifier::external_body]
fn write_metadata(store: &mut MetadataStore, provider: &str, id: &str, metadata: MediaMetadata)
    ensures
        metadata_entries(*final(store)) == metadata_entries(*old(store)).insert(
            (provider@, id@),
            metadata@,
        ),
        metadata_limits(*final(store)) == metadata_limits(*old(store)),
{
    store.insert((provider.to_string(), id.to_string()), Arc::new(metadata));
}

/// Calls `Cache::invalidate_all`, after which no read returns what was
/// written before. The store keeps its limits.
#[verifier::external_body]
fn clear_search(store: &mut SearchStore)
    ensures
        search_entries(*final(store)) == no_searches(),
        search_limits(*final(store)) == search_limits(*old(store)),
{
    store.invalidate_all();
}

/// Calls `Cache::invalidate_all`, after which no read returns what was
/// written before. The store keeps its limits.
#[verifier::external_body]
fn clear_metadata(store: &mut MetadataStore)
    ensures
        metadata_entries(*final(store)) == no_metadata(),
        metadata_limits(*final(store)) == metadata_limits(*old(store)),
{
    store.invalidate_all();
}

/// Calls `Cache::entry_count`, which is an estimate: removals may be pending.
#[verifier::external_body]
fn count_search(store: &SearchStore) -> (r: u64) {
    store.entry_count()
}

/// Calls `Cache::entry_count`, which is an estimate: removals may be pending.
#[verifier::external_body]
fn count_metadata(store: &MetadataStore) -> (r: u64) {
    store.entry_count()
}

/// Cache configuration. Times to live are in seconds.
#[derive(Clone, Copy, Debug, PartialEq, Eq, Structural)]
pub struct CacheConfig {
    /// Maximum number of search result entries
    pub search_max_entries: u64,
    /// TTL for search results, in seconds
    pub search_ttl: u64,
    /// Maximum number of metadata entries
    pub metadata_max_entries: u64,
    /// TTL for metadata, in seconds
    pub metadata_ttl: u64,
}

impl CacheConfig {
    /// The configuration that applies where none is given: a thousand search
    /// entries that live an hour, five hundred metadata entries that live a
    /// day.
    pub open spec fn standard() -> CacheConfig {
        CacheConfig {
            search_max_entries: 1000,
            search_ttl: 3600,
            metadata_max_entries: 500,
            metadata_ttl: 86400,
        }
    }

    /// Whether the stores accept both times to live.
    pub open spec fn acceptable(self) -> bool {
        self.search_ttl <= MAX_TTL && self.metadata_ttl <= MAX_TTL
    }

    /// Whether the stores accept both times to live.
    pub fn is_acceptable(&self) -> (r: bool)
        ensures
            r == self.acceptable(),
    {
        self.search_ttl <= MAX_TTL && self.metadata_ttl <= MAX_TTL
    }
}

impl Default for CacheConfig {
    fn default() -> (r: CacheConfig)
        ensures
            r == CacheConfig::standard(),
    {
        CacheConfig {
            search_max_entries: 1000,
            search_ttl: 3600,
            metadata_max_entries: 500,
            metadata_ttl: 86400,
        }
    }
}

/// Cache statistics. The counts are estimates.
#[derive(Clone, Copy, Debug, PartialEq, Eq, Structural)]
pub struct CacheStats {
    pub search_entries: u64,
    pub metadata_entries: u64,
}

/// Scraper cache for API responses.
pub struct ScraperCache {
    search_cache: SearchStore,
    metadata_cache: MetadataStore,
}

/// The key under which the results of a search are kept: the query in lower
/// case.
pub open spec fn search_key(provider: Seq<char>, query: Seq<char>, year: Option<i32>) -> SearchKey {
    (provider, lowercase(query), year)
}

impl ScraperCache {
    /// What was written to the search store since it was made or last
    /// cleared.
    pub closed spec fn searches(&self) -> Map<SearchKey, Seq<MediaInfoView>> {
        search_entries(self.search_cache)
    }

    /// What was written to the metadata store since it was made or last
    /// cleared.
    pub closed spec fn metadata(&self) -> Map<MetadataKey, MediaMetadataView> {
        metadata_entries(self.metadata_cache)
    }

    /// The limits with which the two stores were built.
    pub closed spec fn limits(&self) -> CacheConfig {
        CacheConfig {
            search_max_entries: search_limits(self.search_cache).0,
            search_ttl: search_limits(self.search_cache).1,
            metadata_max_entries: metadata_limits(self.metadata_cache).0,
            metadata_ttl: metadata_limits(self.metadata_cache).1,
        }
    }

    /// Create a new cache with default settings.
    pub fn new() -> (r: ScraperCache)
        ensures
            r.searches() == no_searches(),
            r.metadata() == no_metadata(),
            r.limits() == CacheConfig::standard(),
    {
        Self::with_config(CacheConfig::default())
    }

    /// Create a new cache with custom configuration: two empty stores,
    /// each built with the greatest number of entries and the time to live
    /// that the configuration gives it.
    pub fn with_config(config: CacheConfig) -> (r: ScraperCache)
        requires
            config.acceptable(),
        ensures
            r.searches() == no_searches(),
            r.metadata() == no_metadata(),
            r.limits() == config,
    {
        ScraperCache {
            search_cache: new_search_store(config.search_max_entries, config.search_ttl),
            metadata_cache: new_metadata_store(config.metadata_max_entries, config.metadata_ttl),
        }
    }

    /// Get cached search results. A hit is a copy of what was set last under
    /// the key; a key that was not set since the last clearing misses.
    pub fn get_search(&self, provider: &str, query: &str, year: Option<i32>) -> (r: Option<
        Vec<MediaInfo>,
    >)
        ensures
            r matches Some(found) ==> self.searches().contains_key(
                search_key(provider@, query@, year),
            ) && info_views(found@) == self.searches()[search_key(provider@, query@, year)],
            !self.searches().contains_key(search_key(provider@, query@, year)) ==> r is None,
    {
        let lower = to_lowercase(query);
        read_search(&self.search_cache, provider, lower.as_str(), year)
    }

    /// Cache search results.
    pub fn set_search(
        &mut self,
        provider: &str,
        query: &str,
        year: Option<i32>,
        results: Vec<MediaInfo>,
    )
        ensures
            final(self).searches() == old(self).searches().insert(
                search_key(provider@, query@, year),
                info_views(results@),
            ),
            final(self).metadata() == old(self).metadata(),
            final(self).limits() == old(self).limits(),
    {
        let lower = to_lowercase(query);
        write_search(&mut self.search_cache, provider, lower.as_str(), year, results);
    }

    /// Get cached metadata. A hit is a copy of what was set last under the
    /// key; a key that was not set since the last clearing misses.
    pub fn get_metadata(&self, provider: &str, id: &str) -> (r: Option<MediaMetadata>)
        ensures
            r matches Some(found) ==> self.metadata().contains_key((provider@, id@)) && found@
                == self.metadata()[(provider@, id@)],
            !self.metadata().contains_key((provider@, id@)) ==> r is None,
    {
        read_metadata(&self.metadata_cache, provider, id)
    }

    /// Cache metadata.
    pub fn set_metadata(&mut self, provider: &str, id: &str, metadata: MediaMetadata)
        ensures
            final(self).metadata() == old(self).metadata().insert((provider@, id@), metadata@),
            final(self).searches() == old(self).searches(),
            final(self).limits() == old(self).limits(),
    {
        write_metadata(&mut self.metadata_cache, provider, id, metadata);
    }

    /// Clear all caches.
    pub fn clear(&mut self)
        ensures
            final(self).searches() == no_searches(),
            final(self).metadata() == no_metadata(),
            final(self).limits() == old(self).limits(),
    {
        clear_search(&mut self.search_cache);
        clear_metadata(&mut self.metadata_cache);
    }

    /// Get cache statistics.
    pub fn stats(&self) -> CacheStats {
        CacheStats {
            search_entries: count_search(&self.search_cache),
            metadata_entries: count_metadata(&self.metadata_cache),
        }
    }
}

/// After a value is set under a key, a read of that key that hits returns
/// that value: the entries then hold it under the key.
pub proof fn lemma_set_then_get<K, V>(before: Map<K, V>, key: K, value: V)
    ensures
        before.insert(key, value).contains_key(key),
        before.insert(key, value)[key] == value,
{
}

/// After clearing, no key is listed, so every read misses.
pub proof fn lemma_cleared_holds_nothing<K, V>(key: K)
    ensures
        !Map::<K, V>::empty().contains_key(key),
{
}

} // verus!
