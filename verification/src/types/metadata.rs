//! The full description of a media item, its episodes and its people.

use vstd::prelude::*;
use super::media::{clone_strings, MediaType};

verus! {

/// Image URLs for a media item.
#[derive(Debug)]
pub struct ImageSet {
    /// Primary poster
    pub poster: Option<String>,
    /// Backdrop/fanart
    pub backdrop: Option<String>,
    /// Logo
    pub logo: Option<String>,
    /// Thumbnail
    pub thumb: Option<String>,
    /// Banner
    pub banner: Option<String>,
}

/// What an `ImageSet` holds, as mathematical values.
pub struct ImageSetView {
    pub poster: Option<Seq<char>>,
    pub backdrop: Option<Seq<char>>,
    pub logo: Option<Seq<char>>,
    pub thumb: Option<Seq<char>>,
    pub banner: Option<Seq<char>>,
}

impl ImageSetView {
    /// No image at all.
    pub open spec fn empty() -> ImageSetView {
        ImageSetView { poster: None, backdrop: None, logo: None, thumb: None, banner: None }
    }
}

impl View for ImageSet {
    type V = ImageSetView;

    open spec fn view(&self) -> ImageSetView {
        ImageSetView {
            poster: self.poster.deep_view(),
            backdrop: self.backdrop.deep_view(),
            logo: self.logo.deep_view(),
            thumb: self.thumb.deep_view(),
            banner: self.banner.deep_view(),
        }
    }
}

impl Default for ImageSet {
    fn default() -> (r: ImageSet)
        ensures
            r@ == ImageSetView::empty(),
    {
        ImageSet { poster: None, backdrop: None, logo: None, thumb: None, banner: None }
    }
}

impl Clone for ImageSet {
    fn clone(&self) -> (r: ImageSet)
        ensures
            r@ == self@,
    {
        ImageSet {
            poster: self.poster.clone(),
            backdrop: self.backdrop.clone(),
            logo: self.logo.clone(),
            thumb: self.thumb.clone(),
            banner: self.banner.clone(),
        }
    }
}

/// External IDs for cross-referencing.
#[derive(Debug)]
pub struct ExternalIds {
    pub imdb: Option<String>,
    pub tmdb: Option<String>,
    pub tvdb: Option<String>,
    pub anilist: Option<String>,
    pub anidb: Option<String>,
    pub mal: Option<String>,
    pub bangumi: Option<String>,
}

/// What an `ExternalIds` holds, as mathematical values.
pub struct ExternalIdsView {
    pub imdb: Option<Seq<char>>,
    pub tmdb: Option<Seq<char>>,
    pub tvdb: Option<Seq<char>>,
    pub anilist: Option<Seq<char>>,
    pub anidb: Option<Seq<char>>,
    pub mal: Option<Seq<char>>,
    pub bangumi: Option<Seq<char>>,
}

/// `theirs` where it is set, else `ours`.
pub open spec fn preferring(ours: Option<Seq<char>>, theirs: Option<Seq<char>>) -> Option<
    Seq<char>,
> {
    if theirs is Some {
        theirs
    } else {
        ours
    }
}

impl ExternalIdsView {
    /// No identifier at all.
    pub open spec fn empty() -> ExternalIdsView {
        ExternalIdsView {
            imdb: None,
            tmdb: None,
            tvdb: None,
            anilist: None,
            anidb: None,
            mal: None,
            bangumi: None,
        }
    }

    /// Whether at least one identifier is set.
    pub open spec fn has_any(self) -> bool {
        ||| self.imdb is Some
        ||| self.tmdb is Some
        ||| self.tvdb is Some
        ||| self.anilist is Some
        ||| self.anidb is Some
        ||| self.mal is Some
        ||| self.bangumi is Some
    }

    /// Field by field, the identifier of `other` where it has one, else ours.
    pub open spec fn merged(self, other: ExternalIdsView) -> ExternalIdsView {
        ExternalIdsView {
            imdb: preferring(self.imdb, other.imdb),
            tmdb: preferring(self.tmdb, other.tmdb),
            tvdb: preferring(self.tvdb, other.tvdb),
            anilist: preferring(self.anilist, other.anilist),
            anidb: preferring(self.anidb, other.anidb),
            mal: preferring(self.mal, other.mal),
            bangumi: preferring(self.bangumi, other.bangumi),
        }
    }
}

impl View for ExternalIds {
    type V = ExternalIdsView;

    open spec fn view(&self) -> ExternalIdsView {
        ExternalIdsView {
            imdb: self.imdb.deep_view(),
            tmdb: self.tmdb.deep_view(),
            tvdb: self.tvdb.deep_view(),
            anilist: self.anilist.deep_view(),
            anidb: self.anidb.deep_view(),
            mal: self.mal.deep_view(),
            bangumi: self.bangumi.deep_view(),
        }
    }
}

impl Default for ExternalIds {
    fn default() -> (r: ExternalIds)
        ensures
            r@ == ExternalIdsView::empty(),
    {
        ExternalIds {
            imdb: None,
            tmdb: None,
            tvdb: None,
            anilist: None,
            anidb: None,
            mal: None,
            bangumi: None,
        }
    }
}

impl Clone for ExternalIds {
    fn clone(&self) -> (r: ExternalIds)
        ensures
            r@ == self@,
    {
        ExternalIds {
            imdb: self.imdb.clone(),
            tmdb: self.tmdb.clone(),
            tvdb: self.tvdb.clone(),
            anilist: self.anilist.clone(),
            anidb: self.anidb.clone(),
            mal: self.mal.clone(),
            bangumi: self.bangumi.clone(),
        }
    }
}

impl ExternalIds {
    /// Check if any ID is set.
    pub fn has_any(&self) -> (r: bool)
        ensures
            r == self@.has_any(),
    {
        self.imdb.is_some() || self.tmdb.is_some() || self.tvdb.is_some()
            || self.anilist.is_some() || self.anidb.is_some() || self.mal.is_some()
            || self.bangumi.is_some()
    }

    /// Merge with another ExternalIds, preferring non-None values from other.
    pub fn merge(&mut self, other: &ExternalIds)
        ensures
            final(self)@ == old(self)@.merged(other@),
    {
        if other.imdb.is_some() {
            self.imdb = other.imdb.clone();
        }
        if other.tmdb.is_some() {
            self.tmdb = other.tmdb.clone();
        }
        if other.tvdb.is_some() {
            self.tvdb = other.tvdb.clone();
        }
        if other.anilist.is_some() {
            self.anilist = other.anilist.clone();
        }
        if other.anidb.is_some() {
            self.anidb = other.anidb.clone();
        }
        if other.mal.is_some() {
            self.mal = other.mal.clone();
        }
        if other.bangumi.is_some() {
            self.bangumi = other.bangumi.clone();
        }
    }
}

/// Season information.
#[derive(Debug)]
pub struct SeasonInfo {
    /// Season number (0 for specials)
    pub number: i32,
    /// Season name
    pub name: Option<String>,
    /// Overview
    pub overview: Option<String>,
    /// Air date
    pub air_date: Option<String>,
    /// Episode count
    pub episode_count: Option<i32>,
    /// Poster URL
    pub poster_url: Option<String>,
}

/// What a `SeasonInfo` holds, as mathematical values.
pub struct SeasonInfoView {
    pub number: i32,
    pub name: Option<Seq<char>>,
    pub overview: Option<Seq<char>>,
    pub air_date: Option<Seq<char>>,
    pub episode_count: Option<i32>,
    pub poster_url: Option<Seq<char>>,
}

impl View for SeasonInfo {
    type V = SeasonInfoView;

    open spec fn view(&self) -> SeasonInfoView {
        SeasonInfoView {
            number: self.number,
            name: self.name.deep_view(),
            overview: self.overview.deep_view(),
            air_date: self.air_date.deep_view(),
            episode_count: self.episode_count,
            poster_url: self.poster_url.deep_view(),
        }
    }
}

impl Clone for SeasonInfo {
    fn clone(&self) -> (r: SeasonInfo)
        ensures
            r@ == self@,
    {
        SeasonInfo {
            number: self.number,
            name: self.name.clone(),
            overview: self.overview.clone(),
            air_date: self.air_date.clone(),
            episode_count: self.episode_count,
            poster_url: self.poster_url.clone(),
        }
    }
}

/// Episode information. `rating` is kept in thousandths.
#[derive(Debug)]
pub struct EpisodeInfo {
    /// Episode ID
    pub id: String,
    /// Episode title
    pub title: String,
    /// Season number
    pub season: i32,
    /// Episode number
    pub episode: i32,
    /// Absolute episode number (for anime)
    pub absolute_number: Option<i32>,
    /// Air date
    pub air_date: Option<String>,
    /// Overview
    pub overview: Option<String>,
    /// Runtime in minutes
    pub runtime: Option<i32>,
    /// Rating, in thousandths
    pub rating: Option<i64>,
    /// Still/thumbnail image
    pub still_url: Option<String>,
    /// Provider name
    pub provider: String,
}

/// What an `EpisodeInfo` holds, as mathematical values.
pub struct EpisodeInfoView {
    pub id: Seq<char>,
    pub title: Seq<char>,
    pub season: i32,
    pub episode: i32,
    pub absolute_number: Option<i32>,
    pub air_date: Option<Seq<char>>,
    pub overview: Option<Seq<char>>,
    pub runtime: Option<i32>,
    pub rating: Option<i64>,
    pub still_url: Option<Seq<char>>,
    pub provider: Seq<char>,
}

impl View for EpisodeInfo {
    type V = EpisodeInfoView;

    open spec fn view(&self) -> EpisodeInfoView {
        EpisodeInfoView {
            id: self.id@,
            title: self.title@,
            season: self.season,
            episode: self.episode,
            absolute_number: self.absolute_number,
            air_date: self.air_date.deep_view(),
            overview: self.overview.deep_view(),
            runtime: self.runtime,
            rating: self.rating,
            still_url: self.still_url.deep_view(),
            provider: self.provider@,
        }
    }
}

impl Clone for EpisodeInfo {
    fn clone(&self) -> (r: EpisodeInfo)
        ensures
            r@ == self@,
    {
        EpisodeInfo {
            id: self.id.clone(),
            title: self.title.clone(),
            season: self.season,
            episode: self.episode,
            absolute_number: self.absolute_number,
            air_date: self.air_date.clone(),
            overview: self.overview.clone(),
            runtime: self.runtime,
            rating: self.rating,
            still_url: self.still_url.clone(),
            provider: self.provider.clone(),
        }
    }
}

/// Person information (cast/crew).
#[derive(Debug)]
pub struct PersonInfo {
    /// Person ID
    pub id: String,
    /// Name
    pub name: String,
    /// Role/character name (for cast) or job (for crew)
    pub role: Option<String>,
    /// Profile image URL
    pub image_url: Option<String>,
    /// Order/importance
    pub order: Option<i32>,
}

/// What a `PersonInfo` holds, as mathematical values.
pub struct PersonInfoView {
    pub id: Seq<char>,
    pub name: Seq<char>,
    pub role: Option<Seq<char>>,
    pub image_url: Option<Seq<char>>,
    pub order: Option<i32>,
}

impl View for PersonInfo {
    type V = PersonInfoView;

    open spec fn view(&self) -> PersonInfoView {
        PersonInfoView {
            id: self.id@,
            name: self.name@,
            role: self.role.deep_view(),
            image_url: self.image_url.deep_view(),
            order: self.order,
        }
    }
}

impl Clone for PersonInfo {
    fn clone(&self) -> (r: PersonInfo)
        ensures
            r@ == self@,
    {
        PersonInfo {
            id: self.id.clone(),
            name: self.name.clone(),
            role: self.role.clone(),
            image_url: self.image_url.clone(),
            order: self.order,
        }
    }
}

/// The views of a list of seasons, in order.
pub open spec fn season_views(v: Seq<SeasonInfo>) -> Seq<SeasonInfoView> {
    v.map_values(|s: SeasonInfo| s@)
}

/// The views of a list of people, in order.
pub open spec fn person_views(v: Seq<PersonInfo>) -> Seq<PersonInfoView> {
    v.map_values(|p: PersonInfo| p@)
}

/// A copy of a list of seasons.
pub fn clone_seasons(v: &Vec<SeasonInfo>) -> (r: Vec<SeasonInfo>)
    ensures
        season_views(r@) == season_views(v@),
{
    let mut r: Vec<SeasonInfo> = Vec::new();
    let mut i: usize = 0;
    while i < v.len()
        invariant
            i <= v.len(),
            r.len() == i,
            forall|j: int| 0 <= j < i ==> r[j]@ == v[j]@,
        decreases v.len() - i,
    {
        r.push(v[i].clone());
        i = i + 1;
    }
    assert(season_views(r@) =~= season_views(v@));
    r
}

/// A copy of a list of people.
pub fn clone_people(v: &Vec<PersonInfo>) -> (r: Vec<PersonInfo>)
    ensures
        person_views(r@) == person_views(v@),
{
    let mut r: Vec<PersonInfo> = Vec::new();
    let mut i: usize = 0;
    while i < v.len()
        invariant
            i <= v.len(),
            r.len() == i,
            forall|j: int| 0 <= j < i ==> r[j]@ == v[j]@,
        decreases v.len() - i,
    {
        r.push(v[i].clone());
        i = i + 1;
    }
    assert(person_views(r@) =~= person_views(v@));
    r
}

/// Complete metadata for a media item. `rating` is kept in thousandths.
#[derive(Debug)]
pub struct MediaMetadata {
    /// Provider-specific ID
    pub id: String,
    /// Primary title
    pub title: String,
    /// Original/native title
    pub original_title: Option<String>,
    /// Sort title
    pub sort_title: Option<String>,
    /// Media type
    pub media_type: MediaType,
    /// Tagline
    pub tagline: Option<String>,
    /// Full description/plot
    pub overview: Option<String>,
    /// Release/air date (YYYY-MM-DD)
    pub release_date: Option<String>,
    /// End date for series (YYYY-MM-DD)
    pub end_date: Option<String>,
    /// Runtime in minutes
    pub runtime: Option<i32>,
    /// Rating (0-10 scale), in thousandths
    pub rating: Option<i64>,
    /// Vote count
    pub vote_count: Option<i32>,
    /// Genres
    pub genres: Vec<String>,
    /// Tags/keywords
    pub tags: Vec<String>,
    /// Studios/production companies
    pub studios: Vec<String>,
    /// Original language code (e.g., "en", "ja")
    pub language: Option<String>,
    /// Content rating (e.g., "PG-13", "TV-MA")
    pub content_rating: Option<String>,
    /// Status (e.g., "Released", "Ended", "Continuing")
    pub status: Option<String>,
    /// Images
    pub images: ImageSet,
    /// External IDs
    pub external_ids: ExternalIds,
    /// Provider name
    pub provider: String,
    /// Number of seasons
    pub season_count: Option<i32>,
    /// Number of episodes
    pub episode_count: Option<i32>,
    /// Season information
    pub seasons: Vec<SeasonInfo>,
    /// Cast members
    pub cast: Vec<PersonInfo>,
    /// Crew members
    pub crew: Vec<PersonInfo>,
}

/// What a `MediaMetadata` holds, as mathematical values.
pub struct MediaMetadataView {
    pub id: Seq<char>,
    pub title: Seq<char>,
    pub original_title: Option<Seq<char>>,
    pub sort_title: Option<Seq<char>>,
    pub media_type: MediaType,
    pub tagline: Option<Seq<char>>,
    pub overview: Option<Seq<char>>,
    pub release_date: Option<Seq<char>>,
    pub end_date: Option<Seq<char>>,
    pub runtime: Option<i32>,
    pub rating: Option<i64>,
    pub vote_count: Option<i32>,
    pub genres: Seq<Seq<char>>,
    pub tags: Seq<Seq<char>>,
    pub studios: Seq<Seq<char>>,
    pub language: Option<Seq<char>>,
    pub content_rating: Option<Seq<char>>,
    pub status: Option<Seq<char>>,
    pub images: ImageSetView,
    pub external_ids: ExternalIdsView,
    pub provider: Seq<char>,
    pub season_count: Option<i32>,
    pub episode_count: Option<i32>,
    pub seasons: Seq<SeasonInfoView>,
    pub cast: Seq<PersonInfoView>,
    pub crew: Seq<PersonInfoView>,
}

impl MediaMetadataView {
    /// The metadata in which every text is empty, every option unset and
    /// every list empty.
    pub open spec fn empty() -> MediaMetadataView {
        MediaMetadataView {
            id: Seq::empty(),
            title: Seq::empty(),
            original_title: None,
            sort_title: None,
            media_type: MediaType::Unknown,
            tagline: None,
            overview: None,
            release_date: None,
            end_date: None,
            runtime: None,
            rating: None,
            vote_count: None,
            genres: Seq::empty(),
            tags: Seq::empty(),
            studios: Seq::empty(),
            language: None,
            content_rating: None,
            status: None,
            images: ImageSetView::empty(),
            external_ids: ExternalIdsView::empty(),
            provider: Seq::empty(),
            season_count: None,
            episode_count: None,
            seasons: Seq::empty(),
            cast: Seq::empty(),
            crew: Seq::empty(),
        }
    }
}

impl View for MediaMetadata {
    type V = MediaMetadataView;

    open spec fn view(&self) -> MediaMetadataView {
        MediaMetadataView {
            id: self.id@,
            title: self.title@,
            original_title: self.original_title.deep_view(),
            sort_title: self.sort_title.deep_view(),
            media_type: self.media_type,
            tagline: self.tagline.deep_view(),
            overview: self.overview.deep_view(),
            release_date: self.release_date.deep_view(),
            end_date: self.end_date.deep_view(),
            runtime: self.runtime,
            rating: self.rating,
            vote_count: self.vote_count,
            genres: self.genres.deep_view(),
            tags: self.tags.deep_view(),
            studios: self.studios.deep_view(),
            language: self.language.deep_view(),
            content_rating: self.content_rating.deep_view(),
            status: self.status.deep_view(),
            images: self.images@,
            external_ids: self.external_ids@,
            provider: self.provider@,
            season_count: self.season_count,
            episode_count: self.episode_count,
            seasons: season_views(self.seasons@),
            cast: person_views(self.cast@),
            crew: person_views(self.crew@),
        }
    }
}

impl Default for MediaMetadata {
    fn default() -> (r: MediaMetadata)
        ensures
            r@ == MediaMetadataView::empty(),
    {
        let r = MediaMetadata {
            id: String::new(),
            title: String::new(),
            original_title: None,
            sort_title: None,
            media_type: MediaType::Unknown,
            tagline: None,
            overview: None,
            release_date: None,
            end_date: None,
            runtime: None,
            rating: None,
            vote_count: None,
            genres: Vec::new(),
            tags: Vec::new(),
            studios: Vec::new(),
            language: None,
            content_rating: None,
            status: None,
            images: ImageSet::default(),
            external_ids: ExternalIds::default(),
            provider: String::new(),
            season_count: None,
            episode_count: None,
            seasons: Vec::new(),
            cast: Vec::new(),
            crew: Vec::new(),
        };
        assert(r.genres.deep_view() =~= Seq::<Seq<char>>::empty());
        assert(r.tags.deep_view() =~= Seq::<Seq<char>>::empty());
        assert(r.studios.deep_view() =~= Seq::<Seq<char>>::empty());
        assert(season_views(r.seasons@) =~= Seq::<SeasonInfoView>::empty());
        assert(person_views(r.cast@) =~= Seq::<PersonInfoView>::empty());
        assert(person_views(r.crew@) =~= Seq::<PersonInfoView>::empty());
        r
    }
}

impl Clone for MediaMetadata {
    fn clone(&self) -> (r: MediaMetadata)
        ensures
            r@ == self@,
    {
        MediaMetadata {
            id: self.id.clone(),
            title: self.title.clone(),
            original_title: self.original_title.clone(),
            sort_title: self.sort_title.clone(),
            media_type: self.media_type,
            tagline: self.tagline.clone(),
            overview: self.overview.clone(),
            release_date: self.release_date.clone(),
            end_date: self.end_date.clone(),
            runtime: self.runtime,
            rating: self.rating,
            vote_count: self.vote_count,
            genres: clone_strings(&self.genres),
            tags: clone_strings(&self.tags),
            studios: clone_strings(&self.studios),
            language: self.language.clone(),
            content_rating: self.content_rating.clone(),
            status: self.status.clone(),
            images: self.images.clone(),
            external_ids: self.external_ids.clone(),
            provider: self.provider.clone(),
            season_count: self.season_count,
            episode_count: self.episode_count,
            seasons: clone_seasons(&self.seasons),
            cast: clone_people(&self.cast),
            crew: clone_people(&self.crew),
        }
    }
}

} // verus!
