//! The requests that go to The Movie Database and the reading of its
//! answers.

use vstd::prelude::*;
use super::api_types::{
    CastMember, Company, Credits, CrewMember, EpisodeDetails, ExternalIds as TmdbIds,
    FindResponse, Genre, MovieDetails, MovieResult, Season, TvDetails, TvResult,
};
use crate::error::{concat, no_results_text, ScraperError, ScraperErrorView};
use crate::types::info_views;
use crate::provider::common::{
    date_year, decimal_of, decimal_string, param_views, push_param, year_of_date,
    Request, };
use crate::provider::traits::{MetadataProvider, SearchOptions};
use crate::text::{same_str, 
    append_chars, chars_of, decimal, decimal_text, matches_at, occurs_at, string_of,
};
use crate::types::{
    person_views, season_views, EpisodeInfo, EpisodeInfoView, ExternalIds, ExternalIdsView,
    ImageSet, ImageSetView, MediaInfo, MediaInfoView, MediaMetadata, MediaMetadataView,
    MediaType, PersonInfo, PersonInfoView, SeasonInfo, SeasonInfoView,
};

verus! {

/// Where the API lives.
pub const TMDB_BASE_URL: &'static str = "https://api.themoviedb.org/3";

/// Where the images live.
pub const TMDB_IMAGE_BASE: &'static str = "https://image.tmdb.org/t/p";

/// The address of an image of a size, where the image has a path.
pub open spec fn image_link(path: Option<Seq<char>>, size: Seq<char>) -> Option<Seq<char>> {
    match path {
        Some(p) => Some(TMDB_IMAGE_BASE@ + "/"@ + size + p),
        None => None,
    }
}

/// The text without every `prefix` that it begins with, one after the other.
pub open spec fn without_leading(s: Seq<char>, prefix: Seq<char>) -> Seq<char>
    decreases s.len(),
{
    if prefix.len() > 0 && occurs_at(s, prefix, 0) {
        without_leading(s.skip(prefix.len() as int), prefix)
    } else {
        s
    }
}

/// The title by which an item is sorted: without leading articles, and with
/// the year in parentheses behind it where the year is known.
pub open spec fn sort_title(title: Seq<char>, year: Option<i32>) -> Seq<char> {
    let bare = without_leading(
        without_leading(without_leading(title, "The "@), "A "@),
        "An "@,
    );
    match year {
        Some(y) => bare + " ("@ + decimal_text(y as int) + ")"@,
        None => bare,
    }
}

/// The candidate that stands for a movie among search results.
pub open spec fn movie_info(movie: MovieResult) -> MediaInfoView {
    MediaInfoView {
        id: decimal_text(movie.id as int),
        title: movie.title@,
        original_title: Some(movie.original_title@),
        alt_titles: Seq::empty(),
        media_type: MediaType::Movie,
        year: date_year(movie.release_date.deep_view()),
        poster_url: image_link(movie.poster_path.deep_view(), "w500"@),
        overview: movie.overview.deep_view(),
        rating: movie.vote_average,
        provider: "tmdb"@,
        popularity: movie.popularity,
    }
}

/// The candidate that stands for a TV show among search results.
pub open spec fn tv_info(tv: TvResult) -> MediaInfoView {
    MediaInfoView {
        id: decimal_text(tv.id as int),
        title: tv.name@,
        original_title: Some(tv.original_name@),
        alt_titles: Seq::empty(),
        media_type: MediaType::Tv,
        year: date_year(tv.first_air_date.deep_view()),
        poster_url: image_link(tv.poster_path.deep_view(), "w500"@),
        overview: tv.overview.deep_view(),
        rating: tv.vote_average,
        provider: "tmdb"@,
        popularity: tv.popularity,
    }
}

/// The person that stands for a member of the cast.
pub open spec fn cast_person(c: CastMember) -> PersonInfoView {
    PersonInfoView {
        id: decimal_text(c.id as int),
        name: c.name@,
        role: c.character.deep_view(),
        image_url: image_link(c.profile_path.deep_view(), "w185"@),
        order: c.order,
    }
}

/// The person that stands for a member of the crew.
pub open spec fn crew_person(c: CrewMember) -> PersonInfoView {
    PersonInfoView {
        id: decimal_text(c.id as int),
        name: c.name@,
        role: c.job.deep_view(),
        image_url: image_link(c.profile_path.deep_view(), "w185"@),
        order: None,
    }
}

/// The jobs of a movie's crew that are kept.
pub open spec fn movie_job(job: Option<Seq<char>>) -> bool {
    job == Some("Director"@) || job == Some("Writer"@) || job == Some("Screenplay"@)
}

/// The jobs of a TV show's crew that are kept.
pub open spec fn tv_job(job: Option<Seq<char>>) -> bool {
    job == Some("Director"@) || job == Some("Writer"@) || job == Some("Creator"@) || job == Some(
        "Executive Producer"@,
    )
}

/// The first twenty members of the cast, as people.
pub open spec fn cast_of(credits: Option<Credits>) -> Seq<PersonInfoView> {
    match credits {
        Some(c) => {
            let kept = if c.cast.len() > 20 {
                c.cast@.take(20)
            } else {
                c.cast@
            };
            kept.map_values(|m: CastMember| cast_person(m))
        },
        None => Seq::empty(),
    }
}

/// The members of the crew whose job is kept, as people.
pub open spec fn crew_of(credits: Option<Credits>, tv: bool) -> Seq<PersonInfoView> {
    match credits {
        Some(c) => c.crew@.filter(
            |m: CrewMember|
                if tv {
                    tv_job(m.job.deep_view())
                } else {
                    movie_job(m.job.deep_view())
                },
        ).map_values(|m: CrewMember| crew_person(m)),
        None => Seq::empty(),
    }
}

/// The external identifiers of an item of The Movie Database.
pub open spec fn ids_of(id: i64, external: Option<TmdbIds>) -> ExternalIdsView {
    ExternalIdsView {
        imdb: match external {
            Some(e) => e.imdb_id.deep_view(),
            None => None,
        },
        tmdb: Some(decimal_text(id as int)),
        tvdb: match external {
            Some(e) => decimal_of(e.tvdb_id),
            None => None,
        },
        ..ExternalIdsView::empty()
    }
}

/// The season that stands for a season of The Movie Database.
pub open spec fn season_info(s: Season) -> SeasonInfoView {
    SeasonInfoView {
        number: s.season_number,
        name: s.name.deep_view(),
        overview: s.overview.deep_view(),
        air_date: s.air_date.deep_view(),
        episode_count: s.episode_count,
        poster_url: image_link(s.poster_path.deep_view(), "w500"@),
    }
}

/// The metadata that stands for the details of a movie.
pub open spec fn movie_metadata(movie: MovieDetails) -> MediaMetadataView {
    MediaMetadataView {
        id: decimal_text(movie.id as int),
        title: movie.title@,
        original_title: Some(movie.original_title@),
        sort_title: Some(sort_title(movie.title@, date_year(movie.release_date.deep_view()))),
        media_type: MediaType::Movie,
        tagline: movie.tagline.deep_view(),
        overview: movie.overview.deep_view(),
        release_date: movie.release_date.deep_view(),
        end_date: None,
        runtime: movie.runtime,
        rating: movie.vote_average,
        vote_count: movie.vote_count,
        genres: movie.genres@.map_values(|g: Genre| g.name@),
        tags: Seq::empty(),
        studios: movie.production_companies@.map_values(|c: Company| c.name@),
        language: Some(movie.original_language@),
        content_rating: None,
        status: movie.status.deep_view(),
        images: ImageSetView {
            poster: image_link(movie.poster_path.deep_view(), "w500"@),
            backdrop: image_link(movie.backdrop_path.deep_view(), "original"@),
            ..ImageSetView::empty()
        },
        external_ids: ids_of(movie.id, movie.external_ids),
        provider: "tmdb"@,
        season_count: None,
        episode_count: None,
        seasons: Seq::empty(),
        cast: cast_of(movie.credits),
        crew: crew_of(movie.credits, false),
    }
}

/// The metadata that stands for the details of a TV show.
pub open spec fn tv_metadata(tv: TvDetails) -> MediaMetadataView {
    MediaMetadataView {
        id: decimal_text(tv.id as int),
        title: tv.name@,
        original_title: Some(tv.original_name@),
        sort_title: Some(sort_title(tv.name@, date_year(tv.first_air_date.deep_view()))),
        media_type: MediaType::Tv,
        tagline: tv.tagline.deep_view(),
        overview: tv.overview.deep_view(),
        release_date: tv.first_air_date.deep_view(),
        end_date: tv.last_air_date.deep_view(),
        runtime: if tv.episode_run_time.len() > 0 {
            Some(tv.episode_run_time[0])
        } else {
            None
        },
        rating: tv.vote_average,
        vote_count: tv.vote_count,
        genres: tv.genres@.map_values(|g: Genre| g.name@),
        tags: Seq::empty(),
        studios: tv.production_companies@.map_values(|c: Company| c.name@),
        language: Some(tv.original_language@),
        content_rating: None,
        status: tv.status.deep_view(),
        images: ImageSetView {
            poster: image_link(tv.poster_path.deep_view(), "w500"@),
            backdrop: image_link(tv.backdrop_path.deep_view(), "original"@),
            ..ImageSetView::empty()
        },
        external_ids: ids_of(tv.id, tv.external_ids),
        provider: "tmdb"@,
        season_count: Some(tv.number_of_seasons),
        episode_count: Some(tv.number_of_episodes),
        seasons: tv.seasons@.map_values(|s: Season| season_info(s)),
        cast: cast_of(tv.credits),
        crew: crew_of(tv.credits, true),
    }
}

/// The episode that stands for the details of an episode.
pub open spec fn episode_info(ep: EpisodeDetails) -> EpisodeInfoView {
    EpisodeInfoView {
        id: decimal_text(ep.id as int),
        title: ep.name@,
        season: ep.season_number,
        episode: ep.episode_number,
        absolute_number: None,
        air_date: ep.air_date.deep_view(),
        overview: ep.overview.deep_view(),
        runtime: ep.runtime,
        rating: ep.vote_average,
        still_url: image_link(ep.still_path.deep_view(), "w300"@),
        provider: "tmdb"@,
    }
}

/// Removes every `prefix` that the text begins with.
fn strip_leading(s: Vec<char>, prefix: &[char]) -> (r: Vec<char>)
    ensures
        r@ == without_leading(s@, prefix@),
{
    if prefix.len() == 0 {
        return s;
    }
    let mut start: usize = 0;
    assert(s@.skip(0) == s@);
    while matches_at(s.as_slice(), prefix, start)
        invariant
            prefix.len() > 0,
            start <= s.len(),
            without_leading(s@, prefix@) == without_leading(s@.skip(start as int), prefix@),
        decreases s.len() - start,
    {
        proof {
            let rest = s@.skip(start as int);
            assert(rest.subrange(0, prefix.len() as int) == s@.subrange(
                start as int,
                start + prefix.len(),
            ));
            assert(rest.skip(prefix.len() as int) == s@.skip(start + prefix.len()));
        }
        start = start + prefix.len();
    }
    proof {
        let rest = s@.skip(start as int);
        if start + prefix.len() <= s.len() {
            assert(rest.subrange(0, prefix.len() as int) == s@.subrange(
                start as int,
                start + prefix.len(),
            ));
        }
    }
    let mut out: Vec<char> = Vec::new();
    let mut i: usize = start;
    while i < s.len()
        invariant
            start <= i <= s.len(),
            out@ == s@.subrange(start as int, i as int),
        decreases s.len() - i,
    {
        out.push(s[i]);
        assert(s@.subrange(start as int, i + 1) == s@.subrange(start as int, i as int).push(
            s@[i as int],
        ));
        i = i + 1;
    }
    assert(s@.subrange(start as int, s.len() as int) == s@.skip(start as int));
    out
}

/// The names of a list of genres.
fn genre_names(genres: &Vec<Genre>) -> (r: Vec<String>)
    ensures
        r.deep_view() == genres@.map_values(|g: Genre| g.name@),
{
    let mut out: Vec<String> = Vec::new();
    let mut i: usize = 0;
    while i < genres.len()
        invariant
            i <= genres.len(),
            out.len() == i,
            forall|j: int| 0 <= j < i ==> out[j]@ == genres[j].name@,
        decreases genres.len() - i,
    {
        out.push(genres[i].name.clone());
        i = i + 1;
    }
    assert(out.deep_view() =~= genres@.map_values(|g: Genre| g.name@));
    out
}

/// The names of a list of companies.
fn company_names(companies: &Vec<Company>) -> (r: Vec<String>)
    ensures
        r.deep_view() == companies@.map_values(|c: Company| c.name@),
{
    let mut out: Vec<String> = Vec::new();
    let mut i: usize = 0;
    while i < companies.len()
        invariant
            i <= companies.len(),
            out.len() == i,
            forall|j: int| 0 <= j < i ==> out[j]@ == companies[j].name@,
        decreases companies.len() - i,
    {
        out.push(companies[i].name.clone());
        i = i + 1;
    }
    assert(out.deep_view() =~= companies@.map_values(|c: Company| c.name@));
    out
}

/// Whether a job is one of those that are kept.
fn is_key_job(job: &Option<String>, tv: bool) -> (r: bool)
    ensures
        r == (if tv {
            tv_job(job.deep_view())
        } else {
            movie_job(job.deep_view())
        }),
{
    match job {
        Some(j) => {
            if same_str(j.as_str(), "Director") || same_str(j.as_str(), "Writer") {
                true
            } else if tv {
                same_str(j.as_str(), "Creator") || same_str(j.as_str(), "Executive Producer")
            } else {
                same_str(j.as_str(), "Screenplay")
            }
        },
        None => false,
    }
}

/// The Movie Database as a provider. It holds the API key that every
/// request carries.
pub struct TmdbProvider {
    api_key: String,
}

impl TmdbProvider {
    /// The API key.
    pub closed spec fn key(&self) -> Seq<char> {
        self.api_key@
    }

    /// A provider that sends `api_key` with every request.
    pub fn new(api_key: &str) -> (r: TmdbProvider)
        ensures
            r.key() == api_key@,
    {
        TmdbProvider { api_key: api_key.to_owned() }
    }

    /// The address of an image of a size, where the image has a path.
    pub fn image_url(path: &Option<String>, size: &str) -> (r: Option<String>)
        ensures
            r.deep_view() == image_link(path.deep_view(), size@),
    {
        match path {
            Some(p) => {
                let base = concat(TMDB_IMAGE_BASE, "/");
                let sized = concat(base.as_str(), size);
                Some(concat(sized.as_str(), p.as_str()))
            },
            None => None,
        }
    }

    /// The title by which an item is sorted.
    pub fn generate_sort_title(title: &str, year: Option<i32>) -> (r: String)
        ensures
            r@ == sort_title(title@, year),
    {
        let the = chars_of("The ");
        let a = chars_of("A ");
        let an = chars_of("An ");
        let chars = chars_of(title);
        let no_the = strip_leading(chars, the.as_slice());
        let no_a = strip_leading(no_the, a.as_slice());
        let mut bare = strip_leading(no_a, an.as_slice());
        match year {
            Some(y) => {
                let open = chars_of(" (");
                let digits = decimal(y as i64);
                let close = chars_of(")");
                append_chars(&mut bare, open.as_slice());
                append_chars(&mut bare, digits.as_slice());
                append_chars(&mut bare, close.as_slice());
                string_of(bare.as_slice())
            },
            None => string_of(bare.as_slice()),
        }
    }

    /// The candidate that stands for a movie among search results.
    pub fn movie_result_to_info(movie: &MovieResult) -> (r: MediaInfo)
        ensures
            r@ == movie_info(*movie),
    {
        let id = decimal_string(movie.id);
        MediaInfo::new(id.as_str(), movie.title.as_str(), "tmdb").with_type(
            MediaType::Movie,
        ).with_year(year_of_date(&movie.release_date)).with_original_title(
            Some(movie.original_title.clone()),
        ).with_poster(Self::image_url(&movie.poster_path, "w500")).with_overview(
            movie.overview.clone(),
        ).with_rating(movie.vote_average).with_popularity(movie.popularity)
    }

    /// The candidate that stands for a TV show among search results.
    pub fn tv_result_to_info(tv: &TvResult) -> (r: MediaInfo)
        ensures
            r@ == tv_info(*tv),
    {
        let id = decimal_string(tv.id);
        MediaInfo::new(id.as_str(), tv.name.as_str(), "tmdb").with_type(MediaType::Tv).with_year(
            year_of_date(&tv.first_air_date),
        ).with_original_title(Some(tv.original_name.clone())).with_poster(
            Self::image_url(&tv.poster_path, "w500"),
        ).with_overview(tv.overview.clone()).with_rating(tv.vote_average).with_popularity(
            tv.popularity,
        )
    }

    /// The first twenty members of the cast, as people.
    pub fn cast_people(credits: &Option<Credits>) -> (r: Vec<PersonInfo>)
        ensures
            person_views(r@) == cast_of(*credits),
    {
        let mut out: Vec<PersonInfo> = Vec::new();
        match credits {
            Some(c) => {
                let count: usize = if c.cast.len() > 20 {
                    20
                } else {
                    c.cast.len()
                };
                let mut i: usize = 0;
                while i < count
                    invariant
                        i <= count <= c.cast.len(),
                        out.len() == i,
                        forall|j: int| 0 <= j < i ==> out[j]@ == cast_person(c.cast[j]),
                    decreases count - i,
                {
                    let m = &c.cast[i];
                    out.push(
                        PersonInfo {
                            id: decimal_string(m.id),
                            name: m.name.clone(),
                            role: m.character.clone(),
                            image_url: Self::image_url(&m.profile_path, "w185"),
                            order: m.order,
                        },
                    );
                    i = i + 1;
                }
                assert(person_views(out@) =~= cast_of(*credits));
            },
            None => {
                assert(person_views(out@) =~= cast_of(*credits));
            },
        }
        out
    }

    /// The members of the crew whose job is kept, as people.
    pub fn crew_people(credits: &Option<Credits>, tv: bool) -> (r: Vec<PersonInfo>)
        ensures
            person_views(r@) == crew_of(*credits, tv),
    {
        let mut out: Vec<PersonInfo> = Vec::new();
        match credits {
            Some(c) => {
                let ghost keep = |m: CrewMember|
                    if tv {
                        tv_job(m.job.deep_view())
                    } else {
                        movie_job(m.job.deep_view())
                    };
                let mut i: usize = 0;
                assert(person_views(out@) =~= c.crew@.take(0).filter(keep).map_values(
                    |m: CrewMember| crew_person(m),
                )) by {
                    reveal(Seq::filter);
                }
                while i < c.crew.len()
                    invariant
                        i <= c.crew.len(),
                        keep == (|m: CrewMember|
                            if tv {
                                tv_job(m.job.deep_view())
                            } else {
                                movie_job(m.job.deep_view())
                            }),
                        person_views(out@) == c.crew@.take(i as int).filter(keep).map_values(
                            |m: CrewMember| crew_person(m),
                        ),
                    decreases c.crew.len() - i,
                {
                    let m = &c.crew[i];
                    proof {
                        reveal(Seq::filter);
                        assert(c.crew@.take(i + 1).drop_last() == c.crew@.take(i as int));
                        assert(c.crew@.take(i + 1).last() == *m);
                    }
                    if is_key_job(&m.job, tv) {
                        let ghost before = person_views(out@);
                        out.push(
                            PersonInfo {
                                id: decimal_string(m.id),
                                name: m.name.clone(),
                                role: m.job.clone(),
                                image_url: Self::image_url(&m.profile_path, "w185"),
                                order: None,
                            },
                        );
                        assert(person_views(out@) =~= before.push(crew_person(*m)));
                        assert(person_views(out@) =~= c.crew@.take(i + 1).filter(
                            keep,
                        ).map_values(|m: CrewMember| crew_person(m)));
                    }
                    i = i + 1;
                }
                assert(c.crew@.take(c.crew.len() as int) == c.crew@);
            },
            None => {
                assert(person_views(out@) =~= crew_of(*credits, tv));
            },
        }
        out
    }

    /// The external identifiers of an item.
    pub fn external_ids(id: i64, external: &Option<TmdbIds>) -> (r: ExternalIds)
        ensures
            r@ == ids_of(id, *external),
    {
        let mut ids = ExternalIds::default();
        ids.tmdb = Some(decimal_string(id));
        match external {
            Some(e) => {
                ids.imdb = e.imdb_id.clone();
                ids.tvdb = match e.tvdb_id {
                    Some(v) => Some(decimal_string(v)),
                    None => None,
                };
            },
            None => {},
        }
        ids
    }

    /// The metadata that stands for the details of a movie.
    pub fn movie_details_to_metadata(movie: &MovieDetails) -> (r: MediaMetadata)
        ensures
            r@ == movie_metadata(*movie),
    {
        let year = year_of_date(&movie.release_date);
        let mut images = ImageSet::default();
        images.poster = Self::image_url(&movie.poster_path, "w500");
        images.backdrop = Self::image_url(&movie.backdrop_path, "original");
        let mut metadata = MediaMetadata::default();
        metadata.id = decimal_string(movie.id);
        metadata.title = movie.title.clone();
        metadata.original_title = Some(movie.original_title.clone());
        metadata.sort_title = Some(Self::generate_sort_title(movie.title.as_str(), year));
        metadata.media_type = MediaType::Movie;
        metadata.tagline = movie.tagline.clone();
        metadata.overview = movie.overview.clone();
        metadata.release_date = movie.release_date.clone();
        metadata.runtime = movie.runtime;
        metadata.rating = movie.vote_average;
        metadata.vote_count = movie.vote_count;
        metadata.genres = genre_names(&movie.genres);
        metadata.studios = company_names(&movie.production_companies);
        metadata.language = Some(movie.original_language.clone());
        metadata.status = movie.status.clone();
        metadata.images = images;
        metadata.external_ids = Self::external_ids(movie.id, &movie.external_ids);
        metadata.provider = "tmdb".to_owned();
        metadata.cast = Self::cast_people(&movie.credits);
        metadata.crew = Self::crew_people(&movie.credits, false);
        metadata
    }

    /// The metadata that stands for the details of a TV show.
    pub fn tv_details_to_metadata(tv: &TvDetails) -> (r: MediaMetadata)
        ensures
            r@ == tv_metadata(*tv),
    {
        let year = year_of_date(&tv.first_air_date);
        let mut images = ImageSet::default();
        images.poster = Self::image_url(&tv.poster_path, "w500");
        images.backdrop = Self::image_url(&tv.backdrop_path, "original");
        let mut seasons: Vec<SeasonInfo> = Vec::new();
        let mut i: usize = 0;
        while i < tv.seasons.len()
            invariant
                i <= tv.seasons.len(),
                seasons.len() == i,
                forall|j: int| 0 <= j < i ==> seasons[j]@ == season_info(tv.seasons[j]),
            decreases tv.seasons.len() - i,
        {
            let s = &tv.seasons[i];
            seasons.push(
                SeasonInfo {
                    number: s.season_number,
                    name: s.name.clone(),
                    overview: s.overview.clone(),
                    air_date: s.air_date.clone(),
                    episode_count: s.episode_count,
                    poster_url: Self::image_url(&s.poster_path, "w500"),
                },
            );
            i = i + 1;
        }
        assert(season_views(seasons@) =~= tv.seasons@.map_values(|s: Season| season_info(s)));
        let mut metadata = MediaMetadata::default();
        metadata.id = decimal_string(tv.id);
        metadata.title = tv.name.clone();
        metadata.original_title = Some(tv.original_name.clone());
        metadata.sort_title = Some(Self::generate_sort_title(tv.name.as_str(), year));
        metadata.media_type = MediaType::Tv;
        metadata.tagline = tv.tagline.clone();
        metadata.overview = tv.overview.clone();
        metadata.release_date = tv.first_air_date.clone();
        metadata.end_date = tv.last_air_date.clone();
        metadata.runtime = if tv.episode_run_time.len() > 0 {
            Some(tv.episode_run_time[0])
        } else {
            None
        };
        metadata.rating = tv.vote_average;
        metadata.vote_count = tv.vote_count;
        metadata.genres = genre_names(&tv.genres);
        metadata.studios = company_names(&tv.production_companies);
        metadata.language = Some(tv.original_language.clone());
        metadata.status = tv.status.clone();
        metadata.images = images;
        metadata.external_ids = Self::external_ids(tv.id, &tv.external_ids);
        metadata.provider = "tmdb".to_owned();
        metadata.season_count = Some(tv.number_of_seasons);
        metadata.episode_count = Some(tv.number_of_episodes);
        metadata.seasons = seasons;
        metadata.cast = Self::cast_people(&tv.credits);
        metadata.crew = Self::crew_people(&tv.credits, true);
        metadata
    }

    /// The episode that stands for the details of an episode.
    pub fn episode_details_to_info(ep: &EpisodeDetails) -> (r: EpisodeInfo)
        ensures
            r@ == episode_info(*ep),
    {
        EpisodeInfo {
            id: decimal_string(ep.id),
            title: ep.name.clone(),
            season: ep.season_number,
            episode: ep.episode_number,
            absolute_number: None,
            air_date: ep.air_date.clone(),
            overview: ep.overview.clone(),
            runtime: ep.runtime,
            rating: ep.vote_average,
            still_url: Self::image_url(&ep.still_path, "w300"),
            provider: "tmdb".to_owned(),
        }
    }
}

/// Which of the two searches a search runs.
#[derive(Clone, Copy, Debug, PartialEq, Eq, Structural)]
pub enum SearchScope {
    /// Movies only; a failure fails the search
    Movies,
    /// TV shows only; a failure fails the search
    Tv,
    /// Movies, then TV shows; a failure of either is passed over
    Both,
}

/// The searches that are run for a kind of media: movies for a movie, TV
/// shows for a TV show or an anime, both where no kind or an unknown kind is
/// asked for.
pub open spec fn scope_of(media_type: Option<MediaType>) -> SearchScope {
    match media_type {
        Some(MediaType::Movie) => SearchScope::Movies,
        Some(MediaType::Tv) => SearchScope::Tv,
        Some(MediaType::Anime) => SearchScope::Tv,
        _ => SearchScope::Both,
    }
}

/// The parameters that every request carries in front of its own: the API
/// key.
pub open spec fn with_key(key: Seq<char>, extra: Seq<(Seq<char>, Seq<char>)>) -> Seq<
    (Seq<char>, Seq<char>),
> {
    seq![("api_key"@, key)] + extra
}

/// The parameters of a search: the query, then the year under the name that
/// the endpoint gives it, then the language.
pub open spec fn search_params(
    query: Seq<char>,
    year_name: Seq<char>,
    year: Option<i32>,
    language: Option<Seq<char>>,
) -> Seq<(Seq<char>, Seq<char>)> {
    let base = seq![("query"@, query)];
    let dated = match year {
        Some(y) => base.push((year_name, decimal_text(y as int))),
        None => base,
    };
    match language {
        Some(l) => dated.push(("language"@, l)),
        None => dated,
    }
}

/// What a search is worth that ran one of the two searches: the error of a
/// failure; the error that nothing was found, where the answer is empty;
/// else the answer, cut off after `limit` candidates where there is a limit.
pub open spec fn bounded(found: Seq<MediaInfoView>, limit: Option<usize>, query: Seq<char>)
    -> Result<Seq<MediaInfoView>, ScraperErrorView> {
    if found.len() == 0 {
        Err(ScraperErrorView::NotFound(no_results_text(query)))
    } else {
        match limit {
            Some(n) => if found.len() > n {
                Ok(found.take(n as int))
            } else {
                Ok(found)
            },
            None => Ok(found),
        }
    }
}

/// The candidates of an answer, or none where it is a failure.
pub open spec fn found_or_nothing(answer: Result<Vec<MediaInfo>, ScraperError>) -> Seq<
    MediaInfoView,
> {
    match answer {
        Ok(v) => info_views(v@),
        Err(_) => Seq::empty(),
    }
}

/// The request for the metadata of an item of a kind, and the request to
/// fall back on where the first fails: a movie is asked for as a movie, a TV
/// show or an anime as a TV show, an item of unknown kind as a movie first
/// and as a TV show after that.
pub open spec fn metadata_kinds(media_type: MediaType) -> (MediaType, Option<MediaType>) {
    match media_type {
        MediaType::Movie => (MediaType::Movie, None),
        MediaType::Tv => (MediaType::Tv, None),
        MediaType::Anime => (MediaType::Tv, None),
        MediaType::Unknown => (MediaType::Movie, Some(MediaType::Tv)),
    }
}

/// The name under which The Movie Database knows a source of external
/// identifiers.
pub open spec fn source_name(source: Seq<char>) -> Option<Seq<char>> {
    if source == "imdb"@ {
        Some("imdb_id"@)
    } else if source == "tvdb"@ {
        Some("tvdb_id"@)
    } else {
        None
    }
}

/// What a lookup by external identifier found: the first movie, else the
/// first TV show, else nothing.
pub open spec fn first_found(response: FindResponse) -> Option<MediaInfoView> {
    if response.movie_results.len() > 0 {
        Some(movie_info(response.movie_results[0]))
    } else if response.tv_results.len() > 0 {
        Some(tv_info(response.tv_results[0]))
    } else {
        None
    }
}

/// Cuts a list of candidates that is not empty off after `limit`.
fn bound(found: Vec<MediaInfo>, limit: Option<usize>, query: &str) -> (r: Result<
    Vec<MediaInfo>,
    ScraperError,
>)
    ensures
        crate::error::found_view(r) == bounded(info_views(found@), limit, query@),
{
    let mut results = found;
    if results.len() == 0 {
        return Err(ScraperError::no_results(query));
    }
    match limit {
        Some(n) => {
            let ghost before = info_views(results@);
            results.truncate(n);
            assert(info_views(results@) =~= (if before.len() > n {
                before.take(n as int)
            } else {
                before
            }));
        },
        None => {},
    }
    Ok(results)
}

impl TmdbProvider {
    /// The request to an endpoint: the API key, then the parameters given.
    pub fn request(&self, endpoint: &str, extra_params: Vec<(String, String)>) -> (r: Request)
        ensures
            r@.endpoint == endpoint@,
            r@.params == with_key(self.key(), param_views(extra_params@)),
    {
        let mut params: Vec<(String, String)> = Vec::new();
        push_param(&mut params, "api_key", self.api_key.as_str());
        let mut extra = extra_params;
        let ghost head = param_views(params@);
        let ghost tail = param_views(extra@);
        params.append(&mut extra);
        assert(param_views(params@) =~= head + tail);
        Request { endpoint: endpoint.to_owned(), params }
    }

    /// The parameters of a search.
    fn params_of_search(query: &str, year_name: &str, options: &SearchOptions) -> (r: Vec<
        (String, String),
    >)
        ensures
            param_views(r@) == search_params(
                query@,
                year_name@,
                options@.year,
                options@.language,
            ),
    {
        let mut params: Vec<(String, String)> = Vec::new();
        push_param(&mut params, "query", query);
        match options.year {
            Some(y) => {
                let digits = decimal_string(y as i64);
                push_param(&mut params, year_name, digits.as_str());
            },
            None => {},
        }
        match &options.language {
            Some(l) => {
                push_param(&mut params, "language", l.as_str());
            },
            None => {},
        }
        params
    }

    /// The request that searches movies.
    pub fn search_movies(&self, query: &str, options: &SearchOptions) -> (r: Request)
        ensures
            r@.endpoint == "/search/movie"@,
            r@.params == with_key(
                self.key(),
                search_params(query@, "year"@, options@.year, options@.language),
            ),
    {
        self.request("/search/movie", Self::params_of_search(query, "year", options))
    }

    /// The request that searches TV shows.
    pub fn search_tv(&self, query: &str, options: &SearchOptions) -> (r: Request)
        ensures
            r@.endpoint == "/search/tv"@,
            r@.params == with_key(
                self.key(),
                search_params(query@, "first_air_date_year"@, options@.year, options@.language),
            ),
    {
        self.request("/search/tv", Self::params_of_search(query, "first_air_date_year", options))
    }

    /// The candidates of a page of movies, in order.
    pub fn movie_results(results: &Vec<MovieResult>) -> (r: Vec<MediaInfo>)
        ensures
            info_views(r@) == results@.map_values(|m: MovieResult| movie_info(m)),
    {
        let mut out: Vec<MediaInfo> = Vec::new();
        let mut i: usize = 0;
        while i < results.len()
            invariant
                i <= results.len(),
                out.len() == i,
                forall|j: int| 0 <= j < i ==> out[j]@ == movie_info(results[j]),
            decreases results.len() - i,
        {
            out.push(Self::movie_result_to_info(&results[i]));
            i = i + 1;
        }
        assert(info_views(out@) =~= results@.map_values(|m: MovieResult| movie_info(m)));
        out
    }

    /// The candidates of a page of TV shows, in order.
    pub fn tv_results(results: &Vec<TvResult>) -> (r: Vec<MediaInfo>)
        ensures
            info_views(r@) == results@.map_values(|t: TvResult| tv_info(t)),
    {
        let mut out: Vec<MediaInfo> = Vec::new();
        let mut i: usize = 0;
        while i < results.len()
            invariant
                i <= results.len(),
                out.len() == i,
                forall|j: int| 0 <= j < i ==> out[j]@ == tv_info(results[j]),
            decreases results.len() - i,
        {
            out.push(Self::tv_result_to_info(&results[i]));
            i = i + 1;
        }
        assert(info_views(out@) =~= results@.map_values(|t: TvResult| tv_info(t)));
        out
    }

    /// Which searches a search with these options runs.
    pub fn search_scope(options: &SearchOptions) -> (r: SearchScope)
        ensures
            r == scope_of(options@.media_type),
    {
        match options.media_type {
            Some(MediaType::Movie) => SearchScope::Movies,
            Some(MediaType::Tv) => SearchScope::Tv,
            Some(MediaType::Anime) => SearchScope::Tv,
            _ => SearchScope::Both,
        }
    }

    /// The result of a search that ran one of the two searches, from that
    /// search's answer.
    pub fn search(query: &str, options: &SearchOptions, answer: Result<Vec<MediaInfo>, ScraperError>)
        -> (r: Result<Vec<MediaInfo>, ScraperError>)
        ensures
            crate::error::found_view(r) == (match answer {
                Ok(found) => bounded(info_views(found@), options@.limit, query@),
                Err(e) => Err(e@),
            }),
    {
        match answer {
            Ok(found) => bound(found, options.limit, query),
            Err(e) => Err(e),
        }
    }

    /// The result of a search that ran both searches, from their answers:
    /// the movies that were found, then the TV shows.
    pub fn search_both(
        query: &str,
        options: &SearchOptions,
        movies: Result<Vec<MediaInfo>, ScraperError>,
        tv: Result<Vec<MediaInfo>, ScraperError>,
    ) -> (r: Result<Vec<MediaInfo>, ScraperError>)
        ensures
            crate::error::found_view(r) == bounded(
                found_or_nothing(movies) + found_or_nothing(tv),
                options@.limit,
                query@,
            ),
    {
        let mut results: Vec<MediaInfo> = Vec::new();
        assert(info_views(results@) =~= Seq::<MediaInfoView>::empty());
        match movies {
            Ok(found) => {
                let mut found = found;
                let ghost part = info_views(found@);
                results.append(&mut found);
                assert(info_views(results@) =~= part);
            },
            Err(_) => {},
        }
        let ghost head = info_views(results@);
        match tv {
            Ok(found) => {
                let mut found = found;
                let ghost part = info_views(found@);
                results.append(&mut found);
                assert(info_views(results@) =~= head + part);
            },
            Err(_) => {
                assert(info_views(results@) =~= head + Seq::<MediaInfoView>::empty());
            },
        }
        bound(results, options.limit, query)
    }

    /// As which kind the metadata of an item is asked for, and as which kind
    /// after that where the first request fails.
    pub fn metadata_plan(media_type: MediaType) -> (r: (MediaType, Option<MediaType>))
        ensures
            r == metadata_kinds(media_type),
    {
        match media_type {
            MediaType::Movie => (MediaType::Movie, None),
            MediaType::Tv => (MediaType::Tv, None),
            MediaType::Anime => (MediaType::Tv, None),
            MediaType::Unknown => (MediaType::Movie, Some(MediaType::Tv)),
        }
    }

    /// The request for the details of a movie.
    pub fn get_movie_metadata(&self, id: &str) -> (r: Request)
        ensures
            r@.endpoint == "/movie/"@ + id@,
            r@.params == with_key(
                self.key(),
                seq![("append_to_response"@, "external_ids,credits"@)],
            ),
    {
        let endpoint = concat("/movie/", id);
        let mut extra: Vec<(String, String)> = Vec::new();
        push_param(&mut extra, "append_to_response", "external_ids,credits");
        assert(param_views(extra@) =~= seq![("append_to_response"@, "external_ids,credits"@)]);
        self.request(endpoint.as_str(), extra)
    }

    /// The request for the details of a TV show.
    pub fn get_tv_metadata(&self, id: &str) -> (r: Request)
        ensures
            r@.endpoint == "/tv/"@ + id@,
            r@.params == with_key(
                self.key(),
                seq![("append_to_response"@, "external_ids,credits"@)],
            ),
    {
        let endpoint = concat("/tv/", id);
        let mut extra: Vec<(String, String)> = Vec::new();
        push_param(&mut extra, "append_to_response", "external_ids,credits");
        assert(param_views(extra@) =~= seq![("append_to_response"@, "external_ids,credits"@)]);
        self.request(endpoint.as_str(), extra)
    }

    /// The request for the details of an episode.
    pub fn get_episode(&self, series_id: &str, season: i32, episode: i32) -> (r: Request)
        ensures
            r@.endpoint == "/tv/"@ + series_id@ + "/season/"@ + decimal_text(season as int)
                + "/episode/"@ + decimal_text(episode as int),
            r@.params == with_key(self.key(), Seq::empty()),
    {
        let a = concat("/tv/", series_id);
        let b = concat(a.as_str(), "/season/");
        let c = concat(b.as_str(), decimal_string(season as i64).as_str());
        let d = concat(c.as_str(), "/episode/");
        let endpoint = concat(d.as_str(), decimal_string(episode as i64).as_str());
        let extra: Vec<(String, String)> = Vec::new();
        assert(param_views(extra@) =~= Seq::empty());
        self.request(endpoint.as_str(), extra)
    }

    /// The request that looks an item up by an external identifier, where
    /// the source of the identifier is one that is known: `imdb` or `tvdb`.
    pub fn find_by_external_id(&self, external_id: &str, source: &str) -> (r: Option<Request>)
        ensures
            match r {
                Some(request) => source_name(source@) matches Some(name) && request@.endpoint
                    == "/find/"@ + external_id@ && request@.params == with_key(
                    self.key(),
                    seq![("external_source"@, name)],
                ),
                None => source_name(source@) is None,
            },
    {
        let name = if same_str(source, "imdb") {
            "imdb_id"
        } else if same_str(source, "tvdb") {
            "tvdb_id"
        } else {
            return None;
        };
        let endpoint = concat("/find/", external_id);
        let mut extra: Vec<(String, String)> = Vec::new();
        push_param(&mut extra, "external_source", name);
        assert(param_views(extra@) =~= seq![("external_source"@, name@)]);
        Some(self.request(endpoint.as_str(), extra))
    }

    /// What a lookup by external identifier found: the first movie, else the
    /// first TV show.
    pub fn found_by_external_id(response: &FindResponse) -> (r: Option<MediaInfo>)
        ensures
            match r {
                Some(info) => first_found(*response) == Some(info@),
                None => first_found(*response) is None,
            },
    {
        if response.movie_results.len() > 0 {
            Some(Self::movie_result_to_info(&response.movie_results[0]))
        } else if response.tv_results.len() > 0 {
            Some(Self::tv_result_to_info(&response.tv_results[0]))
        } else {
            None
        }
    }
}

/// The priority of The Movie Database for a kind of media.
pub open spec fn tmdb_priority(media_type: MediaType) -> i32 {
    match media_type {
        MediaType::Movie => 100,
        MediaType::Tv => 90,
        MediaType::Anime => 30,
        MediaType::Unknown => 50,
    }
}

impl MetadataProvider for TmdbProvider {
    open spec fn identifier(&self) -> Seq<char> {
        "tmdb"@
    }

    open spec fn kinds(&self) -> Seq<MediaType> {
        seq![MediaType::Movie, MediaType::Tv]
    }

    open spec fn priority(&self, media_type: MediaType) -> i32 {
        tmdb_priority(media_type)
    }

    open spec fn title(&self) -> Seq<char> {
        "The Movie Database"@
    }

    open spec fn needs_api_key(&self) -> bool {
        true
    }

    fn id(&self) -> (r: &'static str) {
        "tmdb"
    }

    fn name(&self) -> (r: &'static str) {
        "The Movie Database"
    }

    fn supported_types(&self) -> (r: Vec<MediaType>) {
        let mut kinds: Vec<MediaType> = Vec::new();
        kinds.push(MediaType::Movie);
        kinds.push(MediaType::Tv);
        assert(kinds@ =~= seq![MediaType::Movie, MediaType::Tv]);
        kinds
    }

    fn requires_api_key(&self) -> (r: bool) {
        true
    }

    fn priority_for(&self, media_type: MediaType) -> (r: i32) {
        match media_type {
            MediaType::Movie => 100,
            MediaType::Tv => 90,
            MediaType::Anime => 30,
            MediaType::Unknown => 50,
        }
    }
}

} // verus!
