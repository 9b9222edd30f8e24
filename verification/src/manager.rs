//! The aggregator. It owns the list of registered providers, the cache and
//! the configuration, and decides what is asked of which provider and what
//! becomes of the answers. Sending a request is not its business: each
//! operation is a sequence of steps, in which the aggregator names the
//! provider to ask next and is handed that provider's answer.

use vstd::prelude::*;
use crate::cache::{
    no_metadata, no_searches, search_key, MetadataKey, ScraperCache, SearchKey,
};
use crate::error::{
    found_view, no_results_text, provider_missing_text, ScraperError, ScraperErrorView,
};
use crate::matcher::{
    match_views, ranked, scored_all, Confidence, Matcher, ScoredMatch, ScoredMatchView,
};
use crate::order::{
    lemma_rank_order_is_permutation, lemma_rank_order_sorted_stable, order_by_priority,
    positions, rank_order,
};
use crate::parser::{MediaHint, ParsedMedia, ParsedMediaView};
use crate::provider::{
    AniListProvider, BangumiProvider, MetadataProvider, SearchOptions, SearchOptionsView,
    TmdbProvider,
};
use crate::text::same_str;
use crate::types::{
    info_views, MediaInfo, MediaInfoView, MediaMetadata, MediaMetadataView, MediaType,
};

verus! {

/// Scraper manager configuration.
#[derive(Debug)]
pub struct ScraperConfig {
    /// Minimum confidence level to auto-accept a match
    pub min_confidence: Confidence,
    /// Maximum number of results to return from search
    pub max_results: usize,
    /// Whether to use caching
    pub use_cache: bool,
    /// Default language for searches
    pub language: Option<String>,
}

/// What a `ScraperConfig` holds, as mathematical values.
pub struct ScraperConfigView {
    pub min_confidence: Confidence,
    pub max_results: usize,
    pub use_cache: bool,
    pub language: Option<Seq<char>>,
}

impl ScraperConfigView {
    /// The configuration that applies where none is given.
    pub open spec fn standard() -> ScraperConfigView {
        ScraperConfigView {
            min_confidence: Confidence::Medium,
            max_results: 20,
            use_cache: true,
            language: None,
        }
    }
}

impl View for ScraperConfig {
    type V = ScraperConfigView;

    open spec fn view(&self) -> ScraperConfigView {
        ScraperConfigView {
            min_confidence: self.min_confidence,
            max_results: self.max_results,
            use_cache: self.use_cache,
            language: self.language.deep_view(),
        }
    }
}

impl Default for ScraperConfig {
    fn default() -> (r: ScraperConfig)
        ensures
            r@ == ScraperConfigView::standard(),
    {
        ScraperConfig {
            min_confidence: Confidence::Medium,
            max_results: 20,
            use_cache: true,
            language: None,
        }
    }
}

impl Clone for ScraperConfig {
    fn clone(&self) -> (r: ScraperConfig)
        ensures
            r@ == self@,
    {
        ScraperConfig {
            min_confidence: self.min_confidence,
            max_results: self.max_results,
            use_cache: self.use_cache,
            language: self.language.clone(),
        }
    }
}

/// Result of a scrape operation.
#[derive(Debug)]
pub struct ScrapeResult {
    /// The matched media info
    pub info: MediaInfo,
    /// Full metadata (if fetched)
    pub metadata: Option<MediaMetadata>,
    /// Match confidence
    pub confidence: Confidence,
    /// Match score
    pub score: i32,
    /// Parsed filename info
    pub parsed: ParsedMedia,
}

/// What a `ScrapeResult` holds, as mathematical values.
pub struct ScrapeResultView {
    pub info: MediaInfoView,
    pub metadata: Option<MediaMetadataView>,
    pub confidence: Confidence,
    pub score: i32,
    pub parsed: ParsedMediaView,
}

impl View for ScrapeResult {
    type V = ScrapeResultView;

    open spec fn view(&self) -> ScrapeResultView {
        ScrapeResultView {
            info: self.info@,
            metadata: match self.metadata {
                Some(m) => Some(m@),
                None => None,
            },
            confidence: self.confidence,
            score: self.score,
            parsed: self.parsed@,
        }
    }
}

/// The kind of media that a hint names, if it names one.
pub open spec fn kind_of_hint(hint: MediaHint) -> Option<MediaType> {
    match hint {
        MediaHint::Movie => Some(MediaType::Movie),
        MediaHint::TvShow => Some(MediaType::Tv),
        MediaHint::Anime => Some(MediaType::Anime),
        MediaHint::Unknown => None,
    }
}

/// The hint that stands for a kind of media; no kind gives `Unknown`.
pub open spec fn hint_of_kind(media_type: Option<MediaType>) -> MediaHint {
    match media_type {
        Some(MediaType::Movie) => MediaHint::Movie,
        Some(MediaType::Tv) => MediaHint::TvShow,
        Some(MediaType::Anime) => MediaHint::Anime,
        Some(MediaType::Unknown) => MediaHint::Unknown,
        None => MediaHint::Unknown,
    }
}

/// The kind of media that a hint names, if it names one.
pub fn media_type_of(hint: MediaHint) -> (r: Option<MediaType>)
    ensures
        r == kind_of_hint(hint),
{
    match hint {
        MediaHint::Movie => Some(MediaType::Movie),
        MediaHint::TvShow => Some(MediaType::Tv),
        MediaHint::Anime => Some(MediaType::Anime),
        MediaHint::Unknown => None,
    }
}

/// The hint that stands for a kind of media.
pub fn hint_for(media_type: Option<MediaType>) -> (r: MediaHint)
    ensures
        r == hint_of_kind(media_type),
{
    match media_type {
        Some(MediaType::Movie) => MediaHint::Movie,
        Some(MediaType::Tv) => MediaHint::TvShow,
        Some(MediaType::Anime) => MediaHint::Anime,
        Some(MediaType::Unknown) => MediaHint::Unknown,
        None => MediaHint::Unknown,
    }
}

/// What the aggregator keeps of a registered provider.
#[derive(Debug)]
pub struct ProviderEntry {
    /// Provider identifier (e.g., "tmdb", "anilist")
    pub id: String,
    /// Human-readable provider name
    pub name: String,
    /// Media types this provider supports
    pub supported_types: Vec<MediaType>,
    /// Whether this provider requires an API key
    pub requires_api_key: bool,
    /// Priority for media of unknown kind
    pub priority_unknown: i32,
    /// Priority for movies
    pub priority_movie: i32,
    /// Priority for TV shows
    pub priority_tv: i32,
    /// Priority for anime
    pub priority_anime: i32,
}

impl ProviderEntry {
    /// The provider's priority for a kind of media.
    pub open spec fn priority(&self, media_type: MediaType) -> i32 {
        match media_type {
            MediaType::Unknown => self.priority_unknown,
            MediaType::Movie => self.priority_movie,
            MediaType::Tv => self.priority_tv,
            MediaType::Anime => self.priority_anime,
        }
    }

    /// Provider priority for a given media type (higher = preferred).
    pub fn priority_for(&self, media_type: MediaType) -> (r: i32)
        ensures
            r == self.priority(media_type),
    {
        match media_type {
            MediaType::Unknown => self.priority_unknown,
            MediaType::Movie => self.priority_movie,
            MediaType::Tv => self.priority_tv,
            MediaType::Anime => self.priority_anime,
        }
    }

    /// What the aggregator keeps of `provider`.
    pub fn describe<P: MetadataProvider>(provider: &P) -> (r: ProviderEntry)
        ensures
            r.id@ == provider.identifier(),
            r.name@ == provider.title(),
            r.supported_types@ == provider.kinds(),
            r.requires_api_key == provider.needs_api_key(),
            forall|t: MediaType| r.priority(t) == provider.priority(t),
    {
        ProviderEntry {
            id: provider.id().to_owned(),
            name: provider.name().to_owned(),
            supported_types: provider.supported_types(),
            requires_api_key: provider.requires_api_key(),
            priority_unknown: provider.priority_for(MediaType::Unknown),
            priority_movie: provider.priority_for(MediaType::Movie),
            priority_tv: provider.priority_for(MediaType::Tv),
            priority_anime: provider.priority_for(MediaType::Anime),
        }
    }
}

/// The identifiers of the registered providers, in the order of registration.
pub open spec fn provider_ids(providers: Seq<ProviderEntry>) -> Seq<Seq<char>> {
    providers.map_values(|p: ProviderEntry| p.id@)
}

/// The priorities of the registered providers for a kind of media.
pub open spec fn priorities(providers: Seq<ProviderEntry>, media_type: MediaType) -> Seq<int> {
    providers.map_values(|p: ProviderEntry| p.priority(media_type) as int)
}

/// The position of the first provider with the identifier `id`.
pub open spec fn provider_index(ids: Seq<Seq<char>>, id: Seq<char>) -> Option<int>
    decreases ids.len(),
{
    if ids.len() == 0 {
        None
    } else {
        match provider_index(ids.drop_last(), id) {
            Some(i) => Some(i),
            None => if ids.last() == id {
                Some(ids.len() - 1)
            } else {
                None
            },
        }
    }
}

/// The providers in the order in which they are asked: highest priority
/// first, providers of equal priority in the order of registration.
pub open spec fn asking_order(providers: Seq<ProviderEntry>, media_type: MediaType) -> Seq<int> {
    rank_order(priorities(providers, media_type))
}

/// The lists one after the other, as one list.
pub open spec fn concat_all(parts: Seq<Seq<MediaInfoView>>) -> Seq<MediaInfoView>
    decreases parts.len(),
{
    if parts.len() == 0 {
        Seq::empty()
    } else {
        concat_all(parts.drop_last()) + parts.last()
    }
}

/// How a search ends: with an error where nothing was gathered, else with
/// what was gathered, cut off after `max_results` candidates.
pub open spec fn search_outcome(found: Seq<MediaInfoView>, max_results: int, query: Seq<char>)
    -> Result<Seq<MediaInfoView>, ScraperErrorView> {
    if found.len() == 0 {
        Err(ScraperErrorView::NotFound(no_results_text(query)))
    } else if found.len() > max_results {
        Ok(found.take(max_results))
    } else {
        Ok(found)
    }
}

/// What a provider's answer to a search adds to the candidates: its results,
/// or nothing where it failed.
pub open spec fn contribution(answer: Result<Vec<MediaInfo>, ScraperError>) -> Seq<MediaInfoView> {
    match answer {
        Ok(v) => info_views(v@),
        Err(_) => Seq::empty(),
    }
}

/// The options that a search hands to each provider.
pub open spec fn options_for(config: ScraperConfigView, year: Option<i32>, hint: MediaHint)
    -> SearchOptionsView {
    SearchOptionsView {
        year,
        limit: Some(config.max_results),
        language: config.language,
        media_type: kind_of_hint(hint),
    }
}

/// The kind of media by which the providers are ordered for a hint.
pub open spec fn ordering_kind(hint: MediaHint) -> MediaType {
    match kind_of_hint(hint) {
        Some(t) => t,
        None => MediaType::Unknown,
    }
}

/// A copy of a list of candidates.
pub fn clone_infos(v: &Vec<MediaInfo>) -> (r: Vec<MediaInfo>)
    ensures
        info_views(r@) == info_views(v@),
{
    let mut r: Vec<MediaInfo> = Vec::new();
    let mut i: usize = 0;
    while i < v.len()
        invariant
            i <= v.len(),
            r.len() == i,
            forall|j: int| 0 <= j < i ==> r[j]@ == v[j]@,
        decreases v.len() - i,
    {
        r.push(v[i].clone());
        i = i + 1;
    }
    assert(info_views(r@) =~= info_views(v@));
    r
}

/// A search in progress: what is searched for, the order in which the
/// providers are consulted, how far the search has come and what it has
/// gathered.
pub struct SearchRun {
    query: String,
    year: Option<i32>,
    options: SearchOptions,
    order: Vec<usize>,
    position: usize,
    waiting: bool,
    gathered: Vec<MediaInfo>,
    contributions: Ghost<Seq<Seq<MediaInfoView>>>,
}

/// What the aggregator asks for next in a search.
#[derive(Clone, Copy, Debug, PartialEq, Eq, Structural)]
pub enum SearchStep {
    /// Search the provider at this place of the list of providers, and hand
    /// in its answer
    Ask { provider: usize },
    /// Every provider was consulted: the search can be finished
    Done,
}

impl SearchRun {
    /// The query.
    pub closed spec fn query_text(&self) -> Seq<char> {
        self.query@
    }

    /// The year that was asked for.
    pub closed spec fn year_asked(&self) -> Option<i32> {
        self.year
    }

    /// The options that are handed to each provider.
    pub closed spec fn options_view(&self) -> SearchOptionsView {
        self.options@
    }

    /// The places of the providers in the list, in the order in which they
    /// are consulted.
    pub closed spec fn order(&self) -> Seq<int> {
        positions(self.order@)
    }

    /// How many providers were consulted so far.
    pub closed spec fn consulted(&self) -> int {
        self.position as int
    }

    /// Whether a provider was named whose answer is still to come.
    pub closed spec fn is_waiting(&self) -> bool {
        self.waiting
    }

    /// What each provider consulted so far has contributed, in the order of
    /// consultation.
    pub closed spec fn contributions(&self) -> Seq<Seq<MediaInfoView>> {
        self.contributions@
    }

    /// The run is consistent: it has a contribution for each provider
    /// consulted, it has gathered exactly those, and it waits only for a
    /// provider that exists.
    pub closed spec fn well_formed(&self, providers: int) -> bool {
        &&& self.position <= self.order.len()
        &&& self.order.len() == providers
        &&& forall|k: int| 0 <= k < self.order.len() ==> (#[trigger] self.order[k]) < providers
        &&& self.contributions@.len() == self.position
        &&& info_views(self.gathered@) == concat_all(self.contributions@)
        &&& (self.waiting ==> self.position < self.order.len())
    }

    /// The query.
    pub fn query(&self) -> (r: &str)
        ensures
            r@ == self.query_text(),
    {
        self.query.as_str()
    }

    /// The year that was asked for.
    pub fn year(&self) -> (r: Option<i32>)
        ensures
            r == self.year_asked(),
    {
        self.year
    }

    /// The options to hand to each provider.
    pub fn options(&self) -> (r: &SearchOptions)
        ensures
            r@ == self.options_view(),
    {
        &self.options
    }
}

/// Main scraper manager.
pub struct ScraperManager {
    providers: Vec<ProviderEntry>,
    cache: ScraperCache,
    config: ScraperConfig,
}

impl ScraperManager {
    /// The registered providers, in the order of registration.
    pub closed spec fn entries(&self) -> Seq<ProviderEntry> {
        self.providers@
    }

    /// The configuration.
    pub closed spec fn settings(&self) -> ScraperConfigView {
        self.config@
    }

    /// What the cache lists as search results.
    pub closed spec fn cached_searches(&self) -> Map<SearchKey, Seq<MediaInfoView>> {
        self.cache.searches()
    }

    /// What the cache lists as metadata.
    pub closed spec fn cached_metadata(&self) -> Map<MetadataKey, MediaMetadataView> {
        self.cache.metadata()
    }

    /// Create a new scraper manager.
    pub fn new() -> (r: ScraperManager)
        ensures
            r.entries().len() == 0,
            r.settings() == ScraperConfigView::standard(),
            r.cached_searches() == no_searches(),
            r.cached_metadata() == no_metadata(),
    {
        ScraperManager {
            providers: Vec::new(),
            cache: ScraperCache::new(),
            config: ScraperConfig::default(),
        }
    }

    /// Create with custom configuration.
    pub fn with_config(config: ScraperConfig) -> (r: ScraperManager)
        ensures
            r.entries().len() == 0,
            r.settings() == config@,
            r.cached_searches() == no_searches(),
            r.cached_metadata() == no_metadata(),
    {
        ScraperManager { providers: Vec::new(), cache: ScraperCache::new(), config }
    }

    /// Add a provider, behind those already registered.
    pub fn add_provider<P: MetadataProvider>(&mut self, provider: P)
        ensures
            final(self).entries().len() == old(self).entries().len() + 1,
            final(self).entries().drop_last() == old(self).entries(),
            final(self).entries().last().id@ == provider.identifier(),
            final(self).entries().last().name@ == provider.title(),
            final(self).entries().last().supported_types@ == provider.kinds(),
            final(self).entries().last().requires_api_key == provider.needs_api_key(),
            forall|t: MediaType| final(self).entries().last().priority(t) == provider.priority(t),
            final(self).settings() == old(self).settings(),
            final(self).cached_searches() == old(self).cached_searches(),
            final(self).cached_metadata() == old(self).cached_metadata(),
    {
        let entry = ProviderEntry::describe(&provider);
        self.providers.push(entry);
        assert(self.providers@.drop_last() == old(self).providers@);
    }

    /// Get all providers.
    pub fn providers(&self) -> (r: &Vec<ProviderEntry>)
        ensures
            r@ == self.entries(),
    {
        &self.providers
    }

    /// Clear the cache.
    pub fn clear_cache(&mut self)
        ensures
            final(self).cached_searches() == no_searches(),
            final(self).cached_metadata() == no_metadata(),
            final(self).entries() == old(self).entries(),
            final(self).settings() == old(self).settings(),
    {
        self.cache.clear();
    }

    /// The place of the first provider registered under `id`.
    pub fn find_provider(&self, id: &str) -> (r: Option<usize>)
        ensures
            match r {
                Some(i) => provider_index(provider_ids(self.entries()), id@) == Some(i as int) && i
                    < self.entries().len(),
                None => provider_index(provider_ids(self.entries()), id@) is None,
            },
    {
        let ghost ids = provider_ids(self.providers@);
        let mut i: usize = 0;
        while i < self.providers.len()
            invariant
                i <= self.providers.len(),
                ids == provider_ids(self.providers@),
                provider_index(ids.take(i as int), id@) is None,
            decreases self.providers.len() - i,
        {
            proof {
                assert(ids.take(i + 1).drop_last() == ids.take(i as int));
                assert(ids.take(i + 1).last() == self.providers[i as int].id@);
            }
            if same_str(self.providers[i].id.as_str(), id) {
                proof {
                    lemma_provider_index_stays(ids, id@, i + 1);
                }
                return Some(i);
            }
            i = i + 1;
        }
        assert(ids.take(self.providers.len() as int) == ids);
        None
    }

    /// Begins a search across all providers: fixes the order in which they
    /// are consulted and the options that each is handed.
    pub fn search_all(&self, query: &str, year: Option<i32>, hint: MediaHint) -> (run: SearchRun)
        ensures
            run.well_formed(self.entries().len() as int),
            run.query_text() == query@,
            run.year_asked() == year,
            run.options_view() == options_for(self.settings(), year, hint),
            run.order() == asking_order(self.entries(), ordering_kind(hint)),
            run.consulted() == 0,
            !run.is_waiting(),
            run.contributions().len() == 0,
    {
        let media_type = media_type_of(hint);
        let kind = match media_type {
            Some(t) => t,
            None => MediaType::Unknown,
        };
        let mut values: Vec<i32> = Vec::new();
        let mut i: usize = 0;
        while i < self.providers.len()
            invariant
                i <= self.providers.len(),
                values.len() == i,
                forall|j: int| 0 <= j < i ==> values[j] == self.providers[j].priority(kind),
            decreases self.providers.len() - i,
        {
            values.push(self.providers[i].priority_for(kind));
            i = i + 1;
        }
        assert(values@.map_values(|v: i32| v as int) =~= priorities(self.providers@, kind));
        let order = order_by_priority(&values);
        let mut options = SearchOptions::new().with_year(year).with_limit(
            self.config.max_results,
        );
        options = match media_type {
            Some(t) => options.with_type(t),
            None => options,
        };
        options = match &self.config.language {
            Some(language) => options.with_language(language.as_str()),
            None => options,
        };
        let gathered: Vec<MediaInfo> = Vec::new();
        assert(info_views(gathered@) =~= concat_all(Seq::empty()));
        SearchRun {
            query: query.to_owned(),
            year,
            options,
            order,
            position: 0,
            waiting: false,
            gathered,
            contributions: Ghost(Seq::empty()),
        }
    }
}

/// A provider that is the first with its identifier among the first `upto`
/// providers is the first with it among all.
pub proof fn lemma_provider_index_stays(ids: Seq<Seq<char>>, id: Seq<char>, upto: int)
    requires
        0 <= upto <= ids.len(),
        provider_index(ids.take(upto), id) is Some,
    ensures
        provider_index(ids, id) == provider_index(ids.take(upto), id),
    decreases ids.len() - upto,
{
    if upto < ids.len() {
        assert(ids.take(upto + 1).drop_last() == ids.take(upto));
        lemma_provider_index_stays(ids, id, upto + 1);
    } else {
        assert(ids.take(upto) == ids);
    }
}

/// The order in which providers are asked names each provider once, never
/// asks a provider before one of higher priority, and asks providers of
/// equal priority in the order of their registration.
pub proof fn lemma_asking_order(providers: Seq<ProviderEntry>, media_type: MediaType)
    ensures
        asking_order(providers, media_type).len() == providers.len(),
        asking_order(providers, media_type).no_duplicates(),
        forall|k: int|
            0 <= k < providers.len() ==> 0 <= #[trigger] asking_order(providers, media_type)[k]
                < providers.len(),
        forall|p: int, q: int|
            0 <= p < q < providers.len() ==> {
                let a = #[trigger] asking_order(providers, media_type)[p];
                let b = #[trigger] asking_order(providers, media_type)[q];
                &&& providers[a].priority(media_type) >= providers[b].priority(media_type)
                &&& (providers[a].priority(media_type) == providers[b].priority(media_type) ==> a
                    < b)
            },
{
    let scores = priorities(providers, media_type);
    lemma_rank_order_is_permutation(scores);
    lemma_rank_order_sorted_stable(scores);
    assert forall|p: int, q: int| 0 <= p < q < providers.len() implies {
        let a = #[trigger] asking_order(providers, media_type)[p];
        let b = #[trigger] asking_order(providers, media_type)[q];
        &&& providers[a].priority(media_type) >= providers[b].priority(media_type)
        &&& (providers[a].priority(media_type) == providers[b].priority(media_type) ==> a < b)
    } by {
        let a = rank_order(scores)[p];
        let b = rank_order(scores)[q];
        assert(scores[a] == providers[a].priority(media_type));
        assert(scores[b] == providers[b].priority(media_type));
    }
}

/// Adding one more list: the lists so far, then the new one.
pub proof fn lemma_concat_all_push(parts: Seq<Seq<MediaInfoView>>, more: Seq<MediaInfoView>)
    ensures
        concat_all(parts.push(more)) == concat_all(parts) + more,
{
    assert(parts.push(more).drop_last() == parts);
}

/// The key under which the search results of the provider consulted at
/// place `k` of the order are cached.
pub open spec fn run_key(
    providers: Seq<ProviderEntry>,
    order: Seq<int>,
    query: Seq<char>,
    year: Option<i32>,
    k: int,
) -> SearchKey {
    search_key(providers[order[k]].id@, query, year)
}

/// The contribution at place `k` is what the cache lists for the provider
/// consulted at that place.
pub open spec fn from_cache(
    cached: Map<SearchKey, Seq<MediaInfoView>>,
    providers: Seq<ProviderEntry>,
    order: Seq<int>,
    query: Seq<char>,
    year: Option<i32>,
    contributions: Seq<Seq<MediaInfoView>>,
    k: int,
) -> bool {
    let key = run_key(providers, order, query, year, k);
    cached.contains_key(key) && contributions[k] == cached[key]
}

impl ScraperManager {
    /// Takes the search as far as it goes without a provider's answer: each
    /// provider whose results the cache holds contributes those, and the
    /// first provider for which the cache has nothing is named to be asked.
    /// Without caching, the next provider is named at once.
    pub fn advance_search(&self, run: &mut SearchRun) -> (step: SearchStep)
        requires
            old(run).well_formed(self.entries().len() as int),
            !old(run).is_waiting(),
        ensures
            final(run).well_formed(self.entries().len() as int),
            final(run).query_text() == old(run).query_text(),
            final(run).year_asked() == old(run).year_asked(),
            final(run).options_view() == old(run).options_view(),
            final(run).order() == old(run).order(),
            old(run).consulted() <= final(run).consulted() <= final(run).order().len(),
            final(run).contributions().len() == final(run).consulted(),
            final(run).contributions().take(old(run).consulted()) == old(run).contributions(),
            old(run).consulted() < final(run).consulted() ==> self.settings().use_cache,
            forall|k: int|
                old(run).consulted() <= k < final(run).consulted() ==> #[trigger] from_cache(
                    self.cached_searches(),
                    self.entries(),
                    old(run).order(),
                    old(run).query_text(),
                    old(run).year_asked(),
                    final(run).contributions(),
                    k,
                ),
            match step {
                SearchStep::Ask { provider } => {
                    &&& final(run).is_waiting()
                    &&& final(run).consulted() < final(run).order().len()
                    &&& provider == final(run).order()[final(run).consulted()]
                    &&& provider < self.entries().len()
                },
                SearchStep::Done => !final(run).is_waiting() && final(run).consulted()
                    == final(run).order().len(),
            },
    {
        let ghost start = run.position;
        let ghost before = run.contributions@;
        let ghost order = positions(run.order@);
        let ghost query = run.query@;
        let ghost year = run.year;
        assert(run.contributions@.take(start as int) == before);
        while run.position < run.order.len()
            invariant
                run.well_formed(self.entries().len() as int),
                order == positions(old(run).order@),
                query == old(run).query@,
                year == old(run).year,
                !run.waiting,
                run.query@ == old(run).query@,
                run.year == old(run).year,
                run.options@ == old(run).options@,
                run.order@ == old(run).order@,
                start == old(run).position,
                before == old(run).contributions@,
                start <= run.position <= run.order.len(),
                run.contributions@.take(start as int) == before,
                start < run.position ==> self.settings().use_cache,
                forall|k: int|
                    start <= k < run.position ==> #[trigger] from_cache(
                        self.cached_searches(),
                        self.entries(),
                        order,
                        query,
                        year,
                        run.contributions@,
                        k,
                    ),
            decreases run.order.len() - run.position,
        {
            let provider = run.order[run.position];
            assert(positions(run.order@)[run.position as int] == provider);
            let cached = if self.config.use_cache {
                self.cache.get_search(
                    self.providers[provider].id.as_str(),
                    run.query.as_str(),
                    run.year,
                )
            } else {
                None
            };
            match cached {
                Some(found) => {
                    let mut found = found;
                    let ghost part = info_views(found@);
                    let ghost gathered_before = info_views(run.gathered@);
                    let ghost contributions_before = run.contributions@;
                    proof {
                        lemma_concat_all_push(run.contributions@, part);
                    }
                    let ghost at = run.position as int;
                    run.gathered.append(&mut found);
                    run.contributions = Ghost(contributions_before.push(part));
                    run.position = run.position + 1;
                    assert(info_views(run.gathered@) =~= gathered_before + part);
                    assert(run.contributions@.take(start as int) =~= before);
                    assert forall|k: int| start <= k < run.position implies #[trigger] from_cache(
                        self.cached_searches(),
                        self.entries(),
                        order,
                        query,
                        year,
                        run.contributions@,
                        k,
                    ) by {
                        if k < at {
                            assert(from_cache(
                                self.cached_searches(),
                                self.entries(),
                                order,
                                query,
                                year,
                                contributions_before,
                                k,
                            ));
                            assert(run.contributions@[k] == contributions_before[k]);
                        } else {
                            assert(run.contributions@[k] == part);
                            assert(order[k] == provider);
                        }
                    }
                },
                None => {
                    run.waiting = true;
                    return SearchStep::Ask { provider };
                },
            }
        }
        SearchStep::Done
    }

    /// Takes in the answer of the provider that was named last. Its results
    /// are cached, where caching is on, and added to what was gathered; a
    /// failure contributes nothing and is otherwise ignored.
    pub fn accept_search(&mut self, run: &mut SearchRun, answer: Result<Vec<MediaInfo>, ScraperError>)
        requires
            old(run).well_formed(old(self).entries().len() as int),
            old(run).is_waiting(),
        ensures
            final(run).well_formed(final(self).entries().len() as int),
            !final(run).is_waiting(),
            final(run).query_text() == old(run).query_text(),
            final(run).year_asked() == old(run).year_asked(),
            final(run).options_view() == old(run).options_view(),
            final(run).order() == old(run).order(),
            final(run).consulted() == old(run).consulted() + 1,
            final(run).contributions() == old(run).contributions().push(contribution(answer)),
            final(self).entries() == old(self).entries(),
            final(self).settings() == old(self).settings(),
            final(self).cached_metadata() == old(self).cached_metadata(),
            final(self).cached_searches() == (if old(self).settings().use_cache && answer is Ok {
                old(self).cached_searches().insert(
                    run_key(
                        old(self).entries(),
                        old(run).order(),
                        old(run).query_text(),
                        old(run).year_asked(),
                        old(run).consulted(),
                    ),
                    contribution(answer),
                )
            } else {
                old(self).cached_searches()
            }),
    {
        let provider = run.order[run.position];
        assert(positions(run.order@)[run.position as int] == provider);
        let ghost part = contribution(answer);
        let ghost gathered_before = info_views(run.gathered@);
        let ghost contributions_before = run.contributions@;
        proof {
            lemma_concat_all_push(run.contributions@, part);
        }
        match answer {
            Ok(results) => {
                let mut results = results;
                if self.config.use_cache {
                    let copy = clone_infos(&results);
                    self.cache.set_search(
                        self.providers[provider].id.as_str(),
                        run.query.as_str(),
                        run.year,
                        copy,
                    );
                }
                run.gathered.append(&mut results);
                assert(info_views(run.gathered@) =~= gathered_before + part);
            },
            Err(_) => {
                assert(info_views(run.gathered@) =~= gathered_before + part);
            },
        }
        run.contributions = Ghost(contributions_before.push(part));
        run.position = run.position + 1;
        run.waiting = false;
    }

    /// Ends a search in which every provider was consulted: an error where
    /// nothing was gathered, else what was gathered, cut off after
    /// `max_results` candidates.
    pub fn finish_search(&self, run: SearchRun) -> (r: Result<Vec<MediaInfo>, ScraperError>)
        requires
            run.well_formed(self.entries().len() as int),
            run.consulted() == run.order().len(),
        ensures
            found_view(r) == search_outcome(
                concat_all(run.contributions()),
                self.settings().max_results as int,
                run.query_text(),
            ),
    {
        let mut all_results = run.gathered;
        if all_results.len() == 0 {
            return Err(ScraperError::no_results(run.query.as_str()));
        }
        let ghost before = info_views(all_results@);
        all_results.truncate(self.config.max_results);
        assert(info_views(all_results@) =~= (if before.len() > self.config.max_results {
            before.take(self.config.max_results as int)
        } else {
            before
        }));
        Ok(all_results)
    }
}

/// Where no provider contributed a candidate, the search ends with the error
/// that nothing was found.
pub proof fn lemma_nothing_found(
    parts: Seq<Seq<MediaInfoView>>,
    max_results: int,
    query: Seq<char>,
)
    requires
        forall|k: int| 0 <= k < parts.len() ==> (#[trigger] parts[k]).len() == 0,
    ensures
        concat_all(parts).len() == 0,
        search_outcome(concat_all(parts), max_results, query) == Err::<
            Seq<MediaInfoView>,
            ScraperErrorView,
        >(ScraperErrorView::NotFound(no_results_text(query))),
    decreases parts.len(),
{
    if parts.len() > 0 {
        assert forall|k: int| 0 <= k < parts.drop_last().len() implies (
        #[trigger] parts.drop_last()[k]).len() == 0 by {
            assert(parts.drop_last()[k] == parts[k]);
        }
        lemma_nothing_found(parts.drop_last(), max_results, query);
    }
}

/// What was gathered is at least as long as any one contribution.
pub proof fn lemma_concat_all_len(parts: Seq<Seq<MediaInfoView>>, which: int)
    requires
        0 <= which < parts.len(),
    ensures
        concat_all(parts).len() >= parts[which].len(),
    decreases parts.len(),
{
    if which < parts.len() - 1 {
        lemma_concat_all_len(parts.drop_last(), which);
    }
}

/// Where one provider contributed `n` candidates, `n` at least 1, the search
/// ends with candidates: `n` of them or more, or `max_results` of them where
/// that is less; and with at least one where `max_results` is not 0.
pub proof fn lemma_something_found(
    parts: Seq<Seq<MediaInfoView>>,
    max_results: int,
    query: Seq<char>,
    which: int,
)
    requires
        0 <= which < parts.len(),
        parts[which].len() >= 1,
        max_results >= 0,
    ensures
        search_outcome(concat_all(parts), max_results, query) matches Ok(found) && found.len() >= (
        if parts[which].len() <= max_results {
            parts[which].len() as int
        } else {
            max_results
        }) && found.len() <= max_results && (max_results >= 1 ==> found.len() >= 1),
{
    lemma_concat_all_len(parts, which);
}

/// What the aggregator does about a request for metadata.
#[derive(Debug)]
pub enum MetadataStep {
    /// Fetch the metadata from the provider at this place of the list of
    /// providers, and hand in its answer
    Ask { provider: usize },
    /// The request is settled
    Done(Result<MediaMetadata, ScraperError>),
}

/// What the aggregator does about a lookup by external identifier.
#[derive(Debug)]
pub enum LookupStep {
    /// Ask the provider at this place of the list of providers, and hand in
    /// its answer
    Ask { provider: usize },
    /// The lookup is settled
    Done(Option<MediaInfo>),
}

/// The result of a request for metadata as mathematical values.
pub open spec fn metadata_view(r: Result<MediaMetadata, ScraperError>) -> Result<
    MediaMetadataView,
    ScraperErrorView,
> {
    match r {
        Ok(m) => Ok(m@),
        Err(e) => Err(e@),
    }
}

/// The candidate chosen from what a search found: the first of the ranking.
/// A failed search fails the choice with the same error; a search that found
/// no candidate fails it with the error that nothing was found for the
/// parsed title.
pub open spec fn chosen(
    found: Result<Seq<MediaInfoView>, ScraperErrorView>,
    parsed: ParsedMediaView,
) -> Result<ScoredMatchView, ScraperErrorView> {
    match found {
        Ok(infos) => if infos.len() == 0 {
            Err(ScraperErrorView::NotFound(no_results_text(parsed.title)))
        } else {
            Ok(ranked(scored_all(infos, parsed))[0])
        },
        Err(e) => Err(e),
    }
}

/// The parsed record that stands for a plain query.
pub open spec fn query_as_parsed(query: Seq<char>, year: Option<i32>, hint: MediaHint)
    -> ParsedMediaView {
    ParsedMediaView { title: query, original_title: query, year, hint, ..ParsedMediaView::empty() }
}

impl ScraperManager {
    /// Search for media across all providers: begins the search for a query.
    pub fn search(&self, query: &str, year: Option<i32>, media_type: Option<MediaType>) -> (run:
        SearchRun)
        ensures
            run.well_formed(self.entries().len() as int),
            run.query_text() == query@,
            run.year_asked() == year,
            run.options_view() == options_for(self.settings(), year, hint_of_kind(media_type)),
            run.order() == asking_order(self.entries(), ordering_kind(hint_of_kind(media_type))),
            run.consulted() == 0,
            !run.is_waiting(),
            run.contributions().len() == 0,
    {
        self.search_all(query, year, hint_for(media_type))
    }

    /// Search and rank results: ranks what a search for a plain query found.
    pub fn search_ranked(
        results: Vec<MediaInfo>,
        query: &str,
        year: Option<i32>,
        media_type: Option<MediaType>,
    ) -> (r: Vec<ScoredMatch>)
        ensures
            match_views(r@) == ranked(
                scored_all(
                    info_views(results@),
                    query_as_parsed(query@, year, hint_of_kind(media_type)),
                ),
            ),
    {
        let mut parsed = ParsedMedia::default();
        parsed.title = query.to_owned();
        parsed.original_title = query.to_owned();
        parsed.year = year;
        parsed.hint = hint_for(media_type);
        Matcher::rank(results, &parsed)
    }

    /// Scrape metadata for a file path: parses the path and begins the
    /// search for what was parsed.
    pub fn scrape(&self, path: &std::path::PathBuf) -> (r: (ParsedMedia, SearchRun))
        ensures
            r.0@ == crate::parser::parsed(r.0@.original_title),
            r.1.well_formed(self.entries().len() as int),
            r.1.query_text() == r.0@.title,
            r.1.year_asked() == r.0@.year,
            r.1.options_view() == options_for(self.settings(), r.0@.year, r.0@.hint),
            r.1.order() == asking_order(self.entries(), ordering_kind(r.0@.hint)),
            r.1.consulted() == 0,
            !r.1.is_waiting(),
            r.1.contributions().len() == 0,
    {
        let parsed = crate::parser::Parser::parse(path);
        let run = self.scrape_parsed(&parsed);
        (parsed, run)
    }

    /// Scrape metadata using pre-parsed info: begins the search for the
    /// parsed title, year and hint.
    pub fn scrape_parsed(&self, parsed: &ParsedMedia) -> (run: SearchRun)
        ensures
            run.well_formed(self.entries().len() as int),
            run.query_text() == parsed@.title,
            run.year_asked() == parsed@.year,
            run.options_view() == options_for(self.settings(), parsed@.year, parsed@.hint),
            run.order() == asking_order(self.entries(), ordering_kind(parsed@.hint)),
            run.consulted() == 0,
            !run.is_waiting(),
            run.contributions().len() == 0,
    {
        self.search_all(parsed.title.as_str(), parsed.year, parsed.hint)
    }

    /// Chooses the best match from what the search of a scrape found.
    pub fn choose_match(found: Result<Vec<MediaInfo>, ScraperError>, parsed: &ParsedMedia) -> (r:
        Result<ScoredMatch, ScraperError>)
        ensures
            match r {
                Ok(m) => chosen(found_view(found), parsed@) == Ok::<
                    ScoredMatchView,
                    ScraperErrorView,
                >(m@),
                Err(e) => chosen(found_view(found), parsed@) == Err::<
                    ScoredMatchView,
                    ScraperErrorView,
                >(e@),
            },
    {
        match found {
            Ok(results) => {
                let mut ranked_list = Matcher::rank(results, parsed);
                if ranked_list.len() == 0 {
                    return Err(ScraperError::no_results(parsed.title.as_str()));
                }
                Ok(ranked_list.swap_remove(0))
            },
            Err(e) => Err(e),
        }
    }

    /// Whether metadata is fetched for a match: its confidence must be the
    /// configured minimum or stronger.
    pub fn wants_metadata(&self, best: &ScoredMatch) -> (r: bool)
        ensures
            r == (best.confidence.level() >= self.settings().min_confidence.level()),
    {
        best.confidence.at_least(self.config.min_confidence)
    }

    /// Puts the result of a scrape together. Metadata that was not asked for,
    /// or whose fetching failed, is left out; the scrape does not fail on it.
    pub fn finish_scrape(
        best: ScoredMatch,
        metadata: Option<Result<MediaMetadata, ScraperError>>,
        parsed: &ParsedMedia,
    ) -> (r: ScrapeResult)
        ensures
            r@.info == best@.info,
            r@.confidence == best@.confidence,
            r@.score == best@.score,
            r@.parsed == parsed@,
            r@.metadata == (match metadata {
                Some(Ok(m)) => Some(m@),
                _ => None,
            }),
    {
        let kept = match metadata {
            Some(Ok(m)) => Some(m),
            _ => None,
        };
        ScrapeResult {
            info: best.info,
            metadata: kept,
            confidence: best.confidence,
            score: best.score,
            parsed: parsed.clone(),
        }
    }

    /// Get full metadata for a media item: what the cache holds for it,
    /// where caching is on and the cache has it; else the provider to fetch
    /// it from; an error where no provider is registered under the
    /// candidate's provider identifier.
    pub fn get_metadata(&self, info: &MediaInfo) -> (step: MetadataStep)
        ensures
            match step {
                MetadataStep::Done(Ok(m)) => {
                    &&& self.settings().use_cache
                    &&& self.cached_metadata().contains_key((info@.provider, info@.id))
                    &&& m@ == self.cached_metadata()[(info@.provider, info@.id)]
                },
                MetadataStep::Done(Err(e)) => {
                    &&& provider_index(provider_ids(self.entries()), info@.provider) is None
                    &&& e@ == ScraperErrorView::Config(provider_missing_text(info@.provider))
                },
                MetadataStep::Ask { provider } => {
                    &&& provider_index(provider_ids(self.entries()), info@.provider) == Some(
                        provider as int,
                    )
                    &&& provider < self.entries().len()
                },
            },
    {
        if self.config.use_cache {
            match self.cache.get_metadata(info.provider.as_str(), info.id.as_str()) {
                Some(cached) => {
                    return MetadataStep::Done(Ok(cached));
                },
                None => {},
            }
        }
        match self.find_provider(info.provider.as_str()) {
            Some(provider) => MetadataStep::Ask { provider },
            None => MetadataStep::Done(
                Err(ScraperError::provider_missing(info.provider.as_str())),
            ),
        }
    }

    /// Takes in a provider's answer to a request for metadata, and hands it
    /// on. Metadata that was fetched is cached, where caching is on.
    pub fn accept_metadata(
        &mut self,
        info: &MediaInfo,
        answer: Result<MediaMetadata, ScraperError>,
    ) -> (r: Result<MediaMetadata, ScraperError>)
        ensures
            metadata_view(r) == metadata_view(answer),
            final(self).entries() == old(self).entries(),
            final(self).settings() == old(self).settings(),
            final(self).cached_searches() == old(self).cached_searches(),
            final(self).cached_metadata() == (match answer {
                Ok(m) => if old(self).settings().use_cache {
                    old(self).cached_metadata().insert((info@.provider, info@.id), m@)
                } else {
                    old(self).cached_metadata()
                },
                Err(_) => old(self).cached_metadata(),
            }),
    {
        match answer {
            Ok(metadata) => {
                if self.config.use_cache {
                    self.cache.set_metadata(
                        info.provider.as_str(),
                        info.id.as_str(),
                        metadata.clone(),
                    );
                }
                Ok(metadata)
            },
            Err(e) => Err(e),
        }
    }

    /// Get episode details: the provider to ask, which is the one registered
    /// under `provider`, or an error where there is none. Episodes are not
    /// cached.
    pub fn get_episode(&self, provider: &str) -> (r: Result<usize, ScraperError>)
        ensures
            match r {
                Ok(i) => provider_index(provider_ids(self.entries()), provider@) == Some(i as int)
                    && i < self.entries().len(),
                Err(e) => provider_index(provider_ids(self.entries()), provider@) is None && e@
                    == ScraperErrorView::Config(provider_missing_text(provider@)),
            },
    {
        match self.find_provider(provider) {
            Some(i) => Ok(i),
            None => Err(ScraperError::provider_missing(provider)),
        }
    }

    /// Find by external ID. The providers are asked in the order of
    /// registration. `asked` says how many were asked so far and `last` is
    /// the answer of the one asked last. A candidate in that answer settles
    /// the lookup; else the next provider is named; when none is left, the
    /// lookup is settled with nothing.
    pub fn find_by_external_id(
        &self,
        asked: usize,
        last: Option<Result<Option<MediaInfo>, ScraperError>>,
    ) -> (step: LookupStep)
        ensures
            match step {
                LookupStep::Done(Some(info)) => last matches Some(Ok(Some(given))) && info@
                    == given@,
                LookupStep::Done(None) => !(last matches Some(Ok(Some(_)))) && asked
                    >= self.entries().len(),
                LookupStep::Ask { provider } => !(last matches Some(Ok(Some(_)))) && provider
                    == asked && asked < self.entries().len(),
            },
    {
        match last {
            Some(Ok(Some(info))) => {
                return LookupStep::Done(Some(info));
            },
            _ => {},
        }
        if asked < self.providers.len() {
            LookupStep::Ask { provider: asked }
        } else {
            LookupStep::Done(None)
        }
    }
}

/// Metadata that was fetched with caching on is listed by the cache under
/// the candidate's provider and identifier, so that the next request for it
/// that hits the cache is settled from there, with the same metadata and
/// without asking a provider.
pub proof fn lemma_fetched_metadata_is_cached(
    before: Map<MetadataKey, MediaMetadataView>,
    key: MetadataKey,
    fetched: MediaMetadataView,
)
    ensures
        before.insert(key, fetched).contains_key(key),
        before.insert(key, fetched)[key] == fetched,
{
}

/// Create a default scraper manager with all providers: The Movie Database
/// where an API key is given, then AniList, then Bangumi.
pub fn create_default_manager(tmdb_api_key: Option<&str>) -> (r: ScraperManager)
    ensures
        r.entries().len() == (if tmdb_api_key is Some {
            3int
        } else {
            2int
        }),
        provider_ids(r.entries()) == (if tmdb_api_key is Some {
            seq!["tmdb"@, "anilist"@, "bangumi"@]
        } else {
            seq!["anilist"@, "bangumi"@]
        }),
        r.settings() == ScraperConfigView::standard(),
        r.cached_searches() == no_searches(),
        r.cached_metadata() == no_metadata(),
{
    let mut manager = ScraperManager::new();
    match tmdb_api_key {
        Some(key) => {
            manager.add_provider(TmdbProvider::new(key));
        },
        None => {},
    }
    let ghost first = manager.entries();
    manager.add_provider(AniListProvider::new());
    let ghost second = manager.entries();
    manager.add_provider(BangumiProvider::new());
    proof {
        let all = manager.entries();
        assert(all.drop_last() == second);
        assert(second.drop_last() == first);
        assert(all[all.len() - 1] == all.last());
        assert(all[all.len() - 2] == second.last());
        if tmdb_api_key is Some {
            assert(all[0] == first.last());
            assert(provider_ids(all) =~= seq!["tmdb"@, "anilist"@, "bangumi"@]);
        } else {
            assert(provider_ids(all) =~= seq!["anilist"@, "bangumi"@]);
        }
    }
    manager
}

} // verus!
