//! NFO documents for Kodi, Jellyfin and Emby: what goes into the document of
//! a movie, a TV show or an episode. Writing the document out as XML is done
//! by whoever uses these records.

use vstd::prelude::*;
use crate::text::same_str;
use crate::error::concat;
use crate::provider::common::{date_year, year_of_date};
use crate::types::{
    clone_strings, person_views, EpisodeInfo, ExternalIdsView, MediaMetadata,
    MediaType, PersonInfo, PersonInfoView,
};

verus! {

/// The first line of every document.
pub const XML_HEADER: &'static str = "<?xml version=\"1.0\" encoding=\"UTF-8\" standalone=\"yes\"?>";

/// An identifier of an item at a source.
#[derive(Debug)]
pub struct UniqueId {
    pub id_type: String,
    pub default: bool,
    pub value: String,
}

/// An actor of a movie or a show.
#[derive(Debug)]
pub struct ActorNfo {
    pub name: String,
    pub role: Option<String>,
    pub thumb: Option<String>,
    pub order: Option<i32>,
}

/// An image and what it shows.
#[derive(Debug)]
pub struct ThumbNfo {
    pub aspect: String,
    pub value: String,
}

/// The fan art of a movie or a show.
#[derive(Debug)]
pub struct FanartNfo {
    pub thumb: Vec<ThumbNfo>,
}

/// The document of a movie. `rating` is kept in thousandths.
#[derive(Debug)]
pub struct MovieNfo {
    pub title: String,
    pub originaltitle: Option<String>,
    pub sorttitle: Option<String>,
    pub tagline: Option<String>,
    pub plot: Option<String>,
    pub runtime: Option<i32>,
    pub year: Option<i32>,
    pub premiered: Option<String>,
    pub rating: Option<i64>,
    pub votes: Option<i32>,
    pub uniqueids: Vec<UniqueId>,
    pub genre: Vec<String>,
    pub tag: Vec<String>,
    pub studio: Vec<String>,
    pub actor: Vec<ActorNfo>,
    pub director: Vec<String>,
    pub credits: Vec<String>,
    pub thumb: Option<ThumbNfo>,
    pub fanart: Option<FanartNfo>,
}

/// The document of a TV show. `rating` is kept in thousandths.
#[derive(Debug)]
pub struct TvShowNfo {
    pub title: String,
    pub originaltitle: Option<String>,
    pub sorttitle: Option<String>,
    pub plot: Option<String>,
    pub premiered: Option<String>,
    pub enddate: Option<String>,
    pub rating: Option<i64>,
    pub votes: Option<i32>,
    pub status: Option<String>,
    pub uniqueids: Vec<UniqueId>,
    pub genre: Vec<String>,
    pub tag: Vec<String>,
    pub studio: Vec<String>,
    pub actor: Vec<ActorNfo>,
    pub thumb: Option<ThumbNfo>,
    pub fanart: Option<FanartNfo>,
}

/// The document of an episode. `rating` is kept in thousandths.
#[derive(Debug)]
pub struct EpisodeNfo {
    pub title: String,
    pub season: i32,
    pub episode: i32,
    pub plot: Option<String>,
    pub aired: Option<String>,
    pub runtime: Option<i32>,
    pub rating: Option<i64>,
    pub thumb: Option<String>,
}

/// An identifier as mathematical values: the source, whether it is the
/// default one, and the identifier.
pub type UniqueIdView = (Seq<char>, bool, Seq<char>);

/// An actor as mathematical values: name, role, image and order.
pub type ActorView = (Seq<char>, Option<Seq<char>>, Option<Seq<char>>, Option<i32>);

/// The identifiers of a list, as mathematical values.
pub open spec fn id_views(ids: Seq<UniqueId>) -> Seq<UniqueIdView> {
    ids.map_values(|u: UniqueId| (u.id_type@, u.default, u.value@))
}

/// The actors of a list, as mathematical values.
pub open spec fn actor_views(actors: Seq<ActorNfo>) -> Seq<ActorView> {
    actors.map_values(|a: ActorNfo| (a.name@, a.role.deep_view(), a.thumb.deep_view(), a.order))
}

/// One identifier, where the source has one.
pub open spec fn id_entry(source: Seq<char>, default: bool, id: Option<Seq<char>>) -> Seq<
    UniqueIdView,
> {
    match id {
        Some(v) => seq![(source, default, v)],
        None => Seq::empty(),
    }
}

/// The identifiers of a movie: that of IMDb, which is the default one, then
/// that of The Movie Database.
pub open spec fn movie_ids(ids: ExternalIdsView) -> Seq<UniqueIdView> {
    id_entry("imdb"@, true, ids.imdb) + id_entry("tmdb"@, false, ids.tmdb)
}

/// The identifiers of a TV show: those of a movie, then that of TheTVDB,
/// then that of AniList.
pub open spec fn show_ids(ids: ExternalIdsView) -> Seq<UniqueIdView> {
    movie_ids(ids) + id_entry("tvdb"@, false, ids.tvdb) + id_entry("anilist"@, false, ids.anilist)
}

/// The actor that stands for a member of the cast.
pub open spec fn actor_of(p: PersonInfoView) -> ActorView {
    (p.name, p.role, p.image_url, p.order)
}

/// Whether a member of the crew is a director.
pub open spec fn is_director(p: PersonInfoView) -> bool {
    p.role == Some("Director"@)
}

/// Whether a member of the crew is a writer.
pub open spec fn is_writer(p: PersonInfoView) -> bool {
    p.role == Some("Writer"@) || p.role == Some("Screenplay"@)
}

/// The names of the members of the crew that `keep` accepts.
pub open spec fn names_of(crew: Seq<PersonInfoView>, keep: spec_fn(PersonInfoView) -> bool) -> Seq<
    Seq<char>,
> {
    crew.filter(keep).map_values(|p: PersonInfoView| p.name)
}

/// Which document is written for a kind of media.
#[derive(Clone, Copy, Debug, PartialEq, Eq, Structural)]
pub enum NfoKind {
    Movie,
    TvShow,
}

/// The document that is written for a kind of media: that of a TV show for
/// a TV show or an anime, that of a movie for anything else.
pub open spec fn document_kind(media_type: MediaType) -> NfoKind {
    match media_type {
        MediaType::Tv | MediaType::Anime => NfoKind::TvShow,
        MediaType::Movie | MediaType::Unknown => NfoKind::Movie,
    }
}

/// Which document is written for a kind of media.
pub fn nfo_kind(media_type: MediaType) -> (r: NfoKind)
    ensures
        r == document_kind(media_type),
{
    match media_type {
        MediaType::Tv | MediaType::Anime => NfoKind::TvShow,
        MediaType::Movie | MediaType::Unknown => NfoKind::Movie,
    }
}

/// A document: the header, a line break, and the XML.
pub fn document(xml: &str) -> (r: String)
    ensures
        r@ == XML_HEADER@ + "\n"@ + xml@,
{
    let head = concat(XML_HEADER, "\n");
    concat(head.as_str(), xml)
}

/// Adds an identifier, where the source has one.
fn push_id(ids: &mut Vec<UniqueId>, source: &str, default: bool, id: &Option<String>)
    ensures
        id_views(final(ids)@) == id_views(old(ids)@) + id_entry(source@, default, id.deep_view()),
{
    let ghost before = id_views(ids@);
    match id {
        Some(v) => {
            ids.push(UniqueId { id_type: source.to_owned(), default, value: v.clone() });
            assert(id_views(ids@) =~= before + seq![(source@, default, v@)]);
        },
        None => {
            assert(before + Seq::<UniqueIdView>::empty() =~= before);
        },
    }
}

/// The actors that stand for the cast.
fn actors_of(cast: &Vec<PersonInfo>) -> (r: Vec<ActorNfo>)
    ensures
        actor_views(r@) == person_views(cast@).map_values(|p: PersonInfoView| actor_of(p)),
{
    let mut out: Vec<ActorNfo> = Vec::new();
    let mut i: usize = 0;
    while i < cast.len()
        invariant
            i <= cast.len(),
            out.len() == i,
            forall|j: int|
                0 <= j < i ==> (out[j].name@, out[j].role.deep_view(), out[j].thumb.deep_view(),
                out[j].order) == actor_of(cast[j]@),
        decreases cast.len() - i,
    {
        let p = &cast[i];
        out.push(
            ActorNfo {
                name: p.name.clone(),
                role: p.role.clone(),
                thumb: p.image_url.clone(),
                order: p.order,
            },
        );
        i = i + 1;
    }
    assert(actor_views(out@) =~= person_views(cast@).map_values(
        |p: PersonInfoView| actor_of(p),
    ));
    out
}

/// The names of the directors, or of the writers, among the crew.
fn crew_names(crew: &Vec<PersonInfo>, writers: bool) -> (r: Vec<String>)
    ensures
        r.deep_view() == names_of(
            person_views(crew@),
            if writers {
                |p: PersonInfoView| is_writer(p)
            } else {
                |p: PersonInfoView| is_director(p)
            },
        ),
{
    let ghost keep: spec_fn(PersonInfoView) -> bool = if writers {
        |p: PersonInfoView| is_writer(p)
    } else {
        |p: PersonInfoView| is_director(p)
    };
    let ghost people = person_views(crew@);
    let mut out: Vec<String> = Vec::new();
    let mut i: usize = 0;
    assert(out.deep_view() =~= names_of(people.take(0), keep)) by {
        reveal(Seq::filter);
    }
    while i < crew.len()
        invariant
            i <= crew.len(),
            people == person_views(crew@),
            keep == (if writers {
                |p: PersonInfoView| is_writer(p)
            } else {
                |p: PersonInfoView| is_director(p)
            }),
            out.deep_view() == names_of(people.take(i as int), keep),
        decreases crew.len() - i,
    {
        let p = &crew[i];
        proof {
            reveal(Seq::filter);
            assert(people.take(i + 1).drop_last() == people.take(i as int));
            assert(people.take(i + 1).last() == p@);
        }
        let kept = match &p.role {
            Some(role) => if writers {
                same_str(role.as_str(), "Writer") || same_str(role.as_str(), "Screenplay")
            } else {
                same_str(role.as_str(), "Director")
            },
            None => false,
        };
        if kept {
            let ghost before = out.deep_view();
            out.push(p.name.clone());
            assert(out.deep_view() =~= before.push(p.name@));
            assert(out.deep_view() =~= names_of(people.take(i + 1), keep));
        }
        i = i + 1;
    }
    assert(people.take(crew.len() as int) == people);
    out
}

/// The poster as a thumb.
fn poster_thumb(poster: &Option<String>) -> (r: Option<ThumbNfo>)
    ensures
        thumb_view(r) == poster_as_thumb(poster.deep_view()),
{
    match poster {
        Some(url) => Some(ThumbNfo { aspect: "poster".to_owned(), value: url.clone() }),
        None => None,
    }
}

/// The backdrop as fan art.
fn backdrop_fanart(backdrop: &Option<String>) -> (r: Option<FanartNfo>)
    ensures
        fanart_view(r) == backdrop_as_fanart(backdrop.deep_view()),
{
    match backdrop {
        Some(url) => {
            let mut thumb: Vec<ThumbNfo> = Vec::new();
            thumb.push(ThumbNfo { aspect: "fanart".to_owned(), value: url.clone() });
            assert(thumb@.map_values(|t: ThumbNfo| (t.aspect@, t.value@)) =~= seq![
                ("fanart"@, url@),
            ]);
            Some(FanartNfo { thumb })
        },
        None => None,
    }
}

/// The thumb of a document as mathematical values: what it shows, and its
/// address.
pub open spec fn thumb_view(thumb: Option<ThumbNfo>) -> Option<(Seq<char>, Seq<char>)> {
    match thumb {
        Some(t) => Some((t.aspect@, t.value@)),
        None => None,
    }
}

/// The fan art of a document as mathematical values: for each image what it
/// shows, and its address.
pub open spec fn fanart_view(fanart: Option<FanartNfo>) -> Option<Seq<(Seq<char>, Seq<char>)>> {
    match fanart {
        Some(f) => Some(f.thumb@.map_values(|t: ThumbNfo| (t.aspect@, t.value@))),
        None => None,
    }
}

/// The thumb that shows a poster, where there is a poster.
pub open spec fn poster_as_thumb(poster: Option<Seq<char>>) -> Option<(Seq<char>, Seq<char>)> {
    match poster {
        Some(url) => Some(("poster"@, url)),
        None => None,
    }
}

/// The fan art that shows a backdrop, where there is a backdrop.
pub open spec fn backdrop_as_fanart(backdrop: Option<Seq<char>>) -> Option<
    Seq<(Seq<char>, Seq<char>)>,
> {
    match backdrop {
        Some(url) => Some(seq![("fanart"@, url)]),
        None => None,
    }
}

impl MovieNfo {
    /// The document of a movie, from its metadata.
    pub fn from(m: &MediaMetadata) -> (r: MovieNfo)
        ensures
            r.title@ == m@.title,
            r.originaltitle.deep_view() == m@.original_title,
            r.sorttitle.deep_view() == m@.sort_title,
            r.tagline.deep_view() == m@.tagline,
            r.plot.deep_view() == m@.overview,
            r.runtime == m@.runtime,
            r.year == date_year(m@.release_date),
            r.premiered.deep_view() == m@.release_date,
            r.rating == m@.rating,
            r.votes == m@.vote_count,
            id_views(r.uniqueids@) == movie_ids(m@.external_ids),
            r.genre.deep_view() == m@.genres,
            r.tag.deep_view() == m@.tags,
            r.studio.deep_view() == m@.studios,
            actor_views(r.actor@) == m@.cast.map_values(|p: PersonInfoView| actor_of(p)),
            r.director.deep_view() == names_of(m@.crew, |p: PersonInfoView| is_director(p)),
            r.credits.deep_view() == names_of(m@.crew, |p: PersonInfoView| is_writer(p)),
            thumb_view(r.thumb) == poster_as_thumb(m@.images.poster),
            fanart_view(r.fanart) == backdrop_as_fanart(m@.images.backdrop),
    {
        let mut uniqueids: Vec<UniqueId> = Vec::new();
        assert(id_views(uniqueids@) =~= Seq::<UniqueIdView>::empty());
        push_id(&mut uniqueids, "imdb", true, &m.external_ids.imdb);
        push_id(&mut uniqueids, "tmdb", false, &m.external_ids.tmdb);
        assert(id_views(uniqueids@) =~= movie_ids(m@.external_ids));
        MovieNfo {
            title: m.title.clone(),
            originaltitle: m.original_title.clone(),
            sorttitle: m.sort_title.clone(),
            tagline: m.tagline.clone(),
            plot: m.overview.clone(),
            runtime: m.runtime,
            year: year_of_date(&m.release_date),
            premiered: m.release_date.clone(),
            rating: m.rating,
            votes: m.vote_count,
            uniqueids,
            genre: clone_strings(&m.genres),
            tag: clone_strings(&m.tags),
            studio: clone_strings(&m.studios),
            actor: actors_of(&m.cast),
            director: crew_names(&m.crew, false),
            credits: crew_names(&m.crew, true),
            thumb: poster_thumb(&m.images.poster),
            fanart: backdrop_fanart(&m.images.backdrop),
        }
    }
}

impl TvShowNfo {
    /// The document of a TV show, from its metadata.
    pub fn from(m: &MediaMetadata) -> (r: TvShowNfo)
        ensures
            r.title@ == m@.title,
            r.originaltitle.deep_view() == m@.original_title,
            r.sorttitle.deep_view() == m@.sort_title,
            r.plot.deep_view() == m@.overview,
            r.premiered.deep_view() == m@.release_date,
            r.enddate.deep_view() == m@.end_date,
            r.rating == m@.rating,
            r.votes == m@.vote_count,
            r.status.deep_view() == m@.status,
            id_views(r.uniqueids@) == show_ids(m@.external_ids),
            r.genre.deep_view() == m@.genres,
            r.tag.deep_view() == m@.tags,
            r.studio.deep_view() == m@.studios,
            actor_views(r.actor@) == m@.cast.map_values(|p: PersonInfoView| actor_of(p)),
            thumb_view(r.thumb) == poster_as_thumb(m@.images.poster),
            fanart_view(r.fanart) == backdrop_as_fanart(m@.images.backdrop),
    {
        let mut uniqueids: Vec<UniqueId> = Vec::new();
        assert(id_views(uniqueids@) =~= Seq::<UniqueIdView>::empty());
        push_id(&mut uniqueids, "imdb", true, &m.external_ids.imdb);
        push_id(&mut uniqueids, "tmdb", false, &m.external_ids.tmdb);
        push_id(&mut uniqueids, "tvdb", false, &m.external_ids.tvdb);
        push_id(&mut uniqueids, "anilist", false, &m.external_ids.anilist);
        assert(id_views(uniqueids@) =~= show_ids(m@.external_ids));
        TvShowNfo {
            title: m.title.clone(),
            originaltitle: m.original_title.clone(),
            sorttitle: m.sort_title.clone(),
            plot: m.overview.clone(),
            premiered: m.release_date.clone(),
            enddate: m.end_date.clone(),
            rating: m.rating,
            votes: m.vote_count,
            status: m.status.clone(),
            uniqueids,
            genre: clone_strings(&m.genres),
            tag: clone_strings(&m.tags),
            studio: clone_strings(&m.studios),
            actor: actors_of(&m.cast),
            thumb: poster_thumb(&m.images.poster),
            fanart: backdrop_fanart(&m.images.backdrop),
        }
    }
}

impl EpisodeNfo {
    /// The document of an episode.
    pub fn from(e: &EpisodeInfo) -> (r: EpisodeNfo)
        ensures
            r.title@ == e@.title,
            r.season == e@.season,
            r.episode == e@.episode,
            r.plot.deep_view() == e@.overview,
            r.aired.deep_view() == e@.air_date,
            r.runtime == e@.runtime,
            r.rating == e@.rating,
            r.thumb.deep_view() == e@.still_url,
    {
        EpisodeNfo {
            title: e.title.clone(),
            season: e.season,
            episode: e.episode,
            plot: e.overview.clone(),
            aired: e.air_date.clone(),
            runtime: e.runtime,
            rating: e.rating,
            thumb: e.still_url.clone(),
        }
    }
}

} // verus!
