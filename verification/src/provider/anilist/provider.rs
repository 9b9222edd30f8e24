//! The requests that go to AniList and the reading of its answers.

use vstd::prelude::*;
use super::api_types::{
    date_text, CharacterEdge, CharacterImage, Characters, CoverImage, FuzzyDate, GraphQLResponse, Media, Staff, StaffEdge, Studio, Studios, Tag, VoiceActor,
};
use crate::error::{concat, ScraperError, ScraperErrorView};
use crate::types::info_views;
use crate::pattern::{regex_replace_all, replace_all};
use crate::provider::common::{decimal_string};
use crate::provider::traits::{MetadataProvider, SearchOptions};
use crate::text::{same_str, chars_of, decimal_text, parse_i32, parsed_i32};
use crate::types::{
    clone_strings, person_views, EpisodeInfo, ExternalIds, ExternalIdsView, ImageSet,
    ImageSetView, MediaInfo, MediaInfoView, MediaMetadata, MediaMetadataView, MediaType,
    PersonInfo, PersonInfoView,
};

verus! {

/// Where the API lives.
pub const ANILIST_API_URL: &'static str = "https://graphql.anilist.co";

/// What matches an HTML tag.
pub const HTML_TAG: &'static str = r"<[^>]+>";

/// The query that searches anime.
pub const SEARCH_QUERY: &'static str = r#"
            query ($search: String, $year: Int, $perPage: Int) {
                Page(page: 1, perPage: $perPage) {
                    media(search: $search, seasonYear: $year, type: ANIME, sort: SEARCH_MATCH) {
                        id
                        title { romaji english native }
                        format
                        status
                        description
                        seasonYear
                        episodes
                        duration
                        coverImage { large extraLarge }
                        bannerImage
                        averageScore
                        popularity
                        genres
                        synonyms
                        idMal
                    }
                }
            }
        "#;

/// The query that fetches one anime with its characters and staff.
pub const MEDIA_QUERY: &'static str = r#"
            query ($id: Int) {
                Media(id: $id, type: ANIME) {
                    id
                    title { romaji english native }
                    format
                    status
                    description
                    season
                    seasonYear
                    episodes
                    duration
                    coverImage { large extraLarge }
                    bannerImage
                    averageScore
                    popularity
                    genres
                    tags { name rank }
                    studios { nodes { name isAnimationStudio } }
                    startDate { year month day }
                    endDate { year month day }
                    idMal
                    synonyms
                    characters(sort: ROLE, perPage: 25) {
                        edges {
                            node { id name { full } image { large } }
                            role
                            voiceActors(language: JAPANESE) {
                                id name { full } image { large } language
                            }
                        }
                    }
                    staff(perPage: 10) {
                        edges {
                            node { id name { full } image { large } }
                            role
                        }
                    }
                }
            }
        "#;

/// The query that finds an anime by its MyAnimeList identifier.
pub const MAL_QUERY: &'static str = r#"
            query ($malId: Int) {
                Media(idMal: $malId, type: ANIME) {
                    id
                    title { romaji english native }
                    seasonYear
                    coverImage { large extraLarge }
                    description
                    averageScore
                    popularity
                    synonyms
                    idMal
                }
            }
        "#;

/// The first of two options that is set.
pub open spec fn or_else(first: Option<Seq<char>>, second: Option<Seq<char>>) -> Option<Seq<char>> {
    if first is Some {
        first
    } else {
        second
    }
}

/// The text of an option, or the empty text.
pub open spec fn or_empty(t: Option<Seq<char>>) -> Seq<char> {
    match t {
        Some(s) => s,
        None => Seq::empty(),
    }
}

/// The title under which an anime is listed: the English one, else the
/// romanised one, else none.
pub open spec fn main_title(media: Media) -> Seq<char> {
    or_empty(or_else(media.title.english.deep_view(), media.title.romaji.deep_view()))
}

/// The poster of an anime: the extra large cover, else the large one.
pub open spec fn poster_of(cover: Option<CoverImage>) -> Option<Seq<char>> {
    match cover {
        Some(c) => or_else(c.extra_large.deep_view(), c.large.deep_view()),
        None => None,
    }
}

/// A score out of a hundred as a rating out of ten, in thousandths.
pub open spec fn rating_of(score: Option<i32>) -> Option<i64> {
    match score {
        Some(s) => Some((s * 100) as i64),
        None => None,
    }
}

/// A count as a popularity, in thousandths.
pub open spec fn popularity_of(count: Option<i32>) -> Option<i64> {
    match count {
        Some(p) => Some((p * 1000) as i64),
        None => None,
    }
}

/// The strings of a list that may be missing.
pub open spec fn listed(v: Option<Vec<String>>) -> Seq<Seq<char>> {
    match v {
        Some(list) => list.deep_view(),
        None => Seq::empty(),
    }
}

/// The alternative titles of an anime: the romanised title, then the
/// synonyms.
pub open spec fn alt_titles_of(media: Media) -> Seq<Seq<char>> {
    let head = match media.title.romaji {
        Some(r) => seq![r@],
        None => Seq::empty(),
    };
    head + listed(media.synonyms)
}

/// The candidate that stands for an anime.
pub open spec fn media_info(media: Media) -> MediaInfoView {
    MediaInfoView {
        id: decimal_text(media.id as int),
        title: main_title(media),
        original_title: media.title.native.deep_view(),
        alt_titles: alt_titles_of(media),
        media_type: MediaType::Anime,
        year: media.season_year,
        poster_url: poster_of(media.cover_image),
        overview: media.description.deep_view(),
        rating: rating_of(media.average_score),
        provider: "anilist"@,
        popularity: popularity_of(media.popularity),
    }
}

/// The description without its HTML tags.
pub open spec fn plain_description(description: Option<Seq<char>>) -> Option<Seq<char>> {
    match description {
        Some(d) => Some(regex_replace_all(HTML_TAG@, d, Seq::empty())),
        None => None,
    }
}

/// The text of a date that may be missing.
pub open spec fn date_of(date: Option<FuzzyDate>) -> Option<Seq<char>> {
    match date {
        Some(d) => date_text(d),
        None => None,
    }
}

/// A tag is kept where its rank is 60 or more.
pub open spec fn ranked_high(t: Tag) -> bool {
    match t.rank {
        Some(r) => r >= 60,
        None => false,
    }
}

/// The names of the tags that are kept.
pub open spec fn tags_of(tags: Option<Vec<Tag>>) -> Seq<Seq<char>> {
    match tags {
        Some(list) => list@.filter(|t: Tag| ranked_high(t)).map_values(|t: Tag| t.name@),
        None => Seq::empty(),
    }
}

/// The names of the studios that animate.
pub open spec fn studios_of(studios: Option<Studios>) -> Seq<Seq<char>> {
    match studios {
        Some(s) => s.nodes@.filter(|n: Studio| n.is_animation_studio).map_values(
            |n: Studio| n.name@,
        ),
        None => Seq::empty(),
    }
}

/// The first of the voice actors whose language is Japanese.
pub open spec fn japanese_voice(actors: Seq<VoiceActor>) -> Option<VoiceActor>
    decreases actors.len(),
{
    if actors.len() == 0 {
        None
    } else if actors.first().language.deep_view() == Some("Japanese"@) {
        Some(actors.first())
    } else {
        japanese_voice(actors.drop_first())
    }
}

/// The large image of a character or a person.
pub open spec fn large_image(image: Option<CharacterImage>) -> Option<Seq<char>> {
    match image {
        Some(i) => i.large.deep_view(),
        None => None,
    }
}

/// A character is kept where its role is main or supporting.
pub open spec fn leading_role(e: CharacterEdge) -> bool {
    e.role.deep_view() == Some("MAIN"@) || e.role.deep_view() == Some("SUPPORTING"@)
}

/// The person that stands for a character: the Japanese voice actor where
/// there is one, else the character, in the role of the character.
pub open spec fn character_person(e: CharacterEdge) -> PersonInfoView {
    let character = or_empty(e.node.name.full.deep_view());
    let voice = match e.voice_actors {
        Some(actors) => japanese_voice(actors@),
        None => None,
    };
    PersonInfoView {
        id: decimal_text(e.node.id as int),
        name: match voice {
            Some(v) => or_empty(v.name.full.deep_view()),
            None => character,
        },
        role: Some(character),
        image_url: large_image(e.node.image),
        order: None,
    }
}

/// The first `n` of a list, or all of it where it is shorter.
pub open spec fn first_n<A>(s: Seq<A>, n: int) -> Seq<A> {
    if s.len() > n {
        s.take(n)
    } else {
        s
    }
}

/// The first twenty characters in a leading role, as people.
pub open spec fn cast_of(characters: Option<Characters>) -> Seq<PersonInfoView> {
    match characters {
        Some(c) => first_n(c.edges@.filter(|e: CharacterEdge| leading_role(e)), 20).map_values(
            |e: CharacterEdge| character_person(e),
        ),
        None => Seq::empty(),
    }
}

/// A member of the staff is kept where the role is one of four.
pub open spec fn key_role(e: StaffEdge) -> bool {
    let role = e.role.deep_view();
    role == Some("Director"@) || role == Some("Original Creator"@) || role == Some(
        "Series Composition"@,
    ) || role == Some("Music"@)
}

/// The person that stands for a member of the staff.
pub open spec fn staff_person(e: StaffEdge) -> PersonInfoView {
    PersonInfoView {
        id: decimal_text(e.node.id as int),
        name: or_empty(e.node.name.full.deep_view()),
        role: e.role.deep_view(),
        image_url: large_image(e.node.image),
        order: None,
    }
}

/// The members of the staff in a key role, as people.
pub open spec fn crew_of(staff: Option<Staff>) -> Seq<PersonInfoView> {
    match staff {
        Some(s) => s.edges@.filter(|e: StaffEdge| key_role(e)).map_values(
            |e: StaffEdge| staff_person(e),
        ),
        None => Seq::empty(),
    }
}

/// The metadata that stands for an anime.
pub open spec fn media_metadata(media: Media) -> MediaMetadataView {
    MediaMetadataView {
        id: decimal_text(media.id as int),
        title: main_title(media),
        original_title: media.title.native.deep_view(),
        sort_title: Some(main_title(media)),
        media_type: MediaType::Anime,
        tagline: None,
        overview: plain_description(media.description.deep_view()),
        release_date: date_of(media.start_date),
        end_date: date_of(media.end_date),
        runtime: media.duration,
        rating: rating_of(media.average_score),
        vote_count: media.popularity,
        genres: listed(media.genres),
        tags: tags_of(media.tags),
        studios: studios_of(media.studios),
        language: Some("ja"@),
        content_rating: None,
        status: media.status.deep_view(),
        images: ImageSetView {
            poster: poster_of(media.cover_image),
            backdrop: media.banner_image.deep_view(),
            ..ImageSetView::empty()
        },
        external_ids: ExternalIdsView {
            anilist: Some(decimal_text(media.id as int)),
            mal: match media.id_mal {
                Some(m) => Some(decimal_text(m as int)),
                None => None,
            },
            ..ExternalIdsView::empty()
        },
        provider: "anilist"@,
        season_count: None,
        episode_count: media.episodes,
        seasons: Seq::empty(),
        cast: cast_of(media.characters),
        crew: crew_of(media.staff),
    }
}

/// The first of two options that is set.
fn first_set(first: &Option<String>, second: &Option<String>) -> (r: Option<String>)
    ensures
        r.deep_view() == or_else(first.deep_view(), second.deep_view()),
{
    match first {
        Some(s) => Some(s.clone()),
        None => second.clone(),
    }
}

/// The text of an option, or the empty text.
fn text_or_empty(t: &Option<String>) -> (r: String)
    ensures
        r@ == or_empty(t.deep_view()),
{
    match t {
        Some(s) => s.clone(),
        None => String::new(),
    }
}

/// The large image of a character or a person.
fn image_of(image: &Option<CharacterImage>) -> (r: Option<String>)
    ensures
        r.deep_view() == large_image(*image),
{
    match image {
        Some(i) => i.large.clone(),
        None => None,
    }
}

/// The first of the voice actors whose language is Japanese.
fn find_japanese(actors: &Vec<VoiceActor>) -> (r: Option<usize>)
    ensures
        match r {
            Some(i) => i < actors.len() && japanese_voice(actors@) == Some(actors[i as int]),
            None => japanese_voice(actors@) is None,
        },
{
    let mut i: usize = 0;
    assert(actors@.skip(0) == actors@);
    while i < actors.len()
        invariant
            i <= actors.len(),
            japanese_voice(actors@) == japanese_voice(actors@.skip(i as int)),
        decreases actors.len() - i,
    {
        proof {
            assert(actors@.skip(i as int).first() == actors[i as int]);
            assert(actors@.skip(i as int).drop_first() == actors@.skip(i + 1));
        }
        let japanese = match &actors[i].language {
            Some(l) => same_str(l.as_str(), "Japanese"),
            None => false,
        };
        if japanese {
            return Some(i);
        }
        i = i + 1;
    }
    None
}

/// The provider for AniList.
pub struct AniListProvider;

impl AniListProvider {
    /// The provider.
    pub fn new() -> AniListProvider {
        AniListProvider
    }

    /// The poster of an anime.
    fn poster(cover: &Option<CoverImage>) -> (r: Option<String>)
        ensures
            r.deep_view() == poster_of(*cover),
    {
        match cover {
            Some(c) => first_set(&c.extra_large, &c.large),
            None => None,
        }
    }

    /// A score out of a hundred as a rating out of ten, in thousandths.
    fn rating(score: Option<i32>) -> (r: Option<i64>)
        ensures
            r == rating_of(score),
    {
        match score {
            Some(s) => Some(s as i64 * 100),
            None => None,
        }
    }

    /// The candidate that stands for an anime.
    pub fn media_to_info(media: &Media) -> (r: MediaInfo)
        ensures
            r@ == media_info(*media),
    {
        let english_or_romaji = first_set(&media.title.english, &media.title.romaji);
        let title = text_or_empty(&english_or_romaji);
        let id = decimal_string(media.id as i64);
        let mut info = MediaInfo::new(id.as_str(), title.as_str(), "anilist").with_type(
            MediaType::Anime,
        ).with_year(media.season_year).with_original_title(media.title.native.clone()).with_overview(
            media.description.clone(),
        ).with_rating(Self::rating(media.average_score)).with_popularity(
            match media.popularity {
                Some(p) => Some(p as i64 * 1000),
                None => None,
            },
        ).with_poster(Self::poster(&media.cover_image));
        match &media.title.romaji {
            Some(romaji) => {
                info = info.with_alt_title(romaji.as_str());
            },
            None => {},
        }
        let ghost head = info@.alt_titles;
        match &media.synonyms {
            Some(synonyms) => {
                let mut i: usize = 0;
                while i < synonyms.len()
                    invariant
                        i <= synonyms.len(),
                        info@ == (MediaInfoView {
                            alt_titles: head + synonyms.deep_view().take(i as int),
                            ..media_info(*media)
                        }),
                    decreases synonyms.len() - i,
                {
                    info = info.with_alt_title(synonyms[i].as_str());
                    assert((head + synonyms.deep_view().take(i as int)).push(synonyms[i as int]@)
                        =~= head + synonyms.deep_view().take(i + 1));
                    i = i + 1;
                }
                assert(synonyms.deep_view().take(synonyms.len() as int) == synonyms.deep_view());
            },
            None => {
                assert(head + Seq::<Seq<char>>::empty() =~= head);
            },
        }
        info
    }

    /// The names of the tags whose rank is 60 or more.
    fn tag_names(tags: &Option<Vec<Tag>>) -> (r: Vec<String>)
        ensures
            r.deep_view() == tags_of(*tags),
    {
        let mut out: Vec<String> = Vec::new();
        match tags {
            Some(list) => {
                let ghost keep = |t: Tag| ranked_high(t);
                let mut i: usize = 0;
                assert(out.deep_view() =~= list@.take(0).filter(keep).map_values(
                    |t: Tag| t.name@,
                )) by {
                    reveal(Seq::filter);
                }
                while i < list.len()
                    invariant
                        i <= list.len(),
                        keep == (|t: Tag| ranked_high(t)),
                        out.deep_view() == list@.take(i as int).filter(keep).map_values(
                            |t: Tag| t.name@,
                        ),
                    decreases list.len() - i,
                {
                    let t = &list[i];
                    proof {
                        reveal(Seq::filter);
                        assert(list@.take(i + 1).drop_last() == list@.take(i as int));
                        assert(list@.take(i + 1).last() == *t);
                    }
                    let high = match t.rank {
                        Some(r) => r >= 60,
                        None => false,
                    };
                    if high {
                        let ghost before = out.deep_view();
                        out.push(t.name.clone());
                        assert(out.deep_view() =~= before.push(t.name@));
                        assert(out.deep_view() =~= list@.take(i + 1).filter(keep).map_values(
                            |t: Tag| t.name@,
                        ));
                    }
                    i = i + 1;
                }
                assert(list@.take(list.len() as int) == list@);
            },
            None => {
                assert(out.deep_view() =~= tags_of(*tags));
            },
        }
        out
    }

    /// The names of the studios that animate.
    fn studio_names(studios: &Option<Studios>) -> (r: Vec<String>)
        ensures
            r.deep_view() == studios_of(*studios),
    {
        let mut out: Vec<String> = Vec::new();
        match studios {
            Some(s) => {
                let ghost keep = |n: Studio| n.is_animation_studio;
                let mut i: usize = 0;
                assert(out.deep_view() =~= s.nodes@.take(0).filter(keep).map_values(
                    |n: Studio| n.name@,
                )) by {
                    reveal(Seq::filter);
                }
                while i < s.nodes.len()
                    invariant
                        i <= s.nodes.len(),
                        keep == (|n: Studio| n.is_animation_studio),
                        out.deep_view() == s.nodes@.take(i as int).filter(keep).map_values(
                            |n: Studio| n.name@,
                        ),
                    decreases s.nodes.len() - i,
                {
                    let n = &s.nodes[i];
                    proof {
                        reveal(Seq::filter);
                        assert(s.nodes@.take(i + 1).drop_last() == s.nodes@.take(i as int));
                        assert(s.nodes@.take(i + 1).last() == *n);
                    }
                    if n.is_animation_studio {
                        let ghost before = out.deep_view();
                        out.push(n.name.clone());
                        assert(out.deep_view() =~= before.push(n.name@));
                        assert(out.deep_view() =~= s.nodes@.take(i + 1).filter(keep).map_values(
                            |n: Studio| n.name@,
                        ));
                    }
                    i = i + 1;
                }
                assert(s.nodes@.take(s.nodes.len() as int) == s.nodes@);
            },
            None => {
                assert(out.deep_view() =~= studios_of(*studios));
            },
        }
        out
    }

    /// The person that stands for a character.
    fn character_to_person(e: &CharacterEdge) -> (r: PersonInfo)
        ensures
            r@ == character_person(*e),
    {
        let character_name = text_or_empty(&e.node.name.full);
        let voice_name: Option<String> = match &e.voice_actors {
            Some(actors) => match find_japanese(actors) {
                Some(i) => Some(text_or_empty(&actors[i].name.full)),
                None => None,
            },
            None => None,
        };
        PersonInfo {
            id: decimal_string(e.node.id as i64),
            name: match voice_name {
                Some(v) => v,
                None => character_name.clone(),
            },
            role: Some(character_name),
            image_url: image_of(&e.node.image),
            order: None,
        }
    }

    /// The first twenty characters in a leading role, as people.
    fn cast_people(characters: &Option<Characters>) -> (r: Vec<PersonInfo>)
        ensures
            person_views(r@) == cast_of(*characters),
    {
        let mut out: Vec<PersonInfo> = Vec::new();
        match characters {
            Some(c) => {
                let ghost keep = |e: CharacterEdge| leading_role(e);
                let mut i: usize = 0;
                assert(person_views(out@) =~= first_n(
                    c.edges@.take(0).filter(keep),
                    20,
                ).map_values(|e: CharacterEdge| character_person(e))) by {
                    reveal(Seq::filter);
                }
                while i < c.edges.len()
                    invariant
                        i <= c.edges.len(),
                        keep == (|e: CharacterEdge| leading_role(e)),
                        out.len() <= 20,
                        out.len() == first_n(c.edges@.take(i as int).filter(keep), 20).len(),
                        person_views(out@) == first_n(
                            c.edges@.take(i as int).filter(keep),
                            20,
                        ).map_values(|e: CharacterEdge| character_person(e)),
                    decreases c.edges.len() - i,
                {
                    let e = &c.edges[i];
                    let ghost kept_before = c.edges@.take(i as int).filter(keep);
                    proof {
                        reveal(Seq::filter);
                        assert(c.edges@.take(i + 1).drop_last() == c.edges@.take(i as int));
                        assert(c.edges@.take(i + 1).last() == *e);
                    }
                    let leading = match &e.role {
                        Some(role) => same_str(role.as_str(), "MAIN") || same_str(
                            role.as_str(),
                            "SUPPORTING",
                        ),
                        None => false,
                    };
                    if leading {
                        let ghost kept_after = kept_before.push(*e);
                        assert(c.edges@.take(i + 1).filter(keep) == kept_after);
                        if out.len() < 20 {
                            let ghost before = person_views(out@);
                            out.push(Self::character_to_person(e));
                            assert(person_views(out@) =~= before.push(character_person(*e)));
                            assert(first_n(kept_after, 20) =~= first_n(kept_before, 20).push(*e));
                            assert(person_views(out@) =~= first_n(kept_after, 20).map_values(
                                |e: CharacterEdge| character_person(e),
                            ));
                        } else {
                            assert(first_n(kept_after, 20) =~= first_n(kept_before, 20));
                        }
                    }
                    i = i + 1;
                }
                assert(c.edges@.take(c.edges.len() as int) == c.edges@);
            },
            None => {
                assert(person_views(out@) =~= cast_of(*characters));
            },
        }
        out
    }

    /// The members of the staff in a key role, as people.
    fn crew_people(staff: &Option<Staff>) -> (r: Vec<PersonInfo>)
        ensures
            person_views(r@) == crew_of(*staff),
    {
        let mut out: Vec<PersonInfo> = Vec::new();
        match staff {
            Some(s) => {
                let ghost keep = |e: StaffEdge| key_role(e);
                let mut i: usize = 0;
                assert(person_views(out@) =~= s.edges@.take(0).filter(keep).map_values(
                    |e: StaffEdge| staff_person(e),
                )) by {
                    reveal(Seq::filter);
                }
                while i < s.edges.len()
                    invariant
                        i <= s.edges.len(),
                        keep == (|e: StaffEdge| key_role(e)),
                        person_views(out@) == s.edges@.take(i as int).filter(keep).map_values(
                            |e: StaffEdge| staff_person(e),
                        ),
                    decreases s.edges.len() - i,
                {
                    let e = &s.edges[i];
                    proof {
                        reveal(Seq::filter);
                        assert(s.edges@.take(i + 1).drop_last() == s.edges@.take(i as int));
                        assert(s.edges@.take(i + 1).last() == *e);
                    }
                    let key = match &e.role {
                        Some(role) => same_str(role.as_str(), "Director") || same_str(
                            role.as_str(),
                            "Original Creator",
                        ) || same_str(role.as_str(), "Series Composition") || same_str(
                            role.as_str(),
                            "Music",
                        ),
                        None => false,
                    };
                    if key {
                        let ghost before = person_views(out@);
                        out.push(
                            PersonInfo {
                                id: decimal_string(e.node.id as i64),
                                name: text_or_empty(&e.node.name.full),
                                role: e.role.clone(),
                                image_url: image_of(&e.node.image),
                                order: None,
                            },
                        );
                        assert(person_views(out@) =~= before.push(staff_person(*e)));
                        assert(person_views(out@) =~= s.edges@.take(i + 1).filter(
                            keep,
                        ).map_values(|e: StaffEdge| staff_person(e)));
                    }
                    i = i + 1;
                }
                assert(s.edges@.take(s.edges.len() as int) == s.edges@);
            },
            None => {
                assert(person_views(out@) =~= crew_of(*staff));
            },
        }
        out
    }

    /// The metadata that stands for an anime.
    pub fn media_to_metadata(media: &Media) -> (r: MediaMetadata)
        ensures
            r@ == media_metadata(*media),
    {
        let english_or_romaji = first_set(&media.title.english, &media.title.romaji);
        let title = text_or_empty(&english_or_romaji);
        let mut images = ImageSet::default();
        images.poster = Self::poster(&media.cover_image);
        images.backdrop = media.banner_image.clone();
        let mut external_ids = ExternalIds::default();
        external_ids.anilist = Some(decimal_string(media.id as i64));
        external_ids.mal = match media.id_mal {
            Some(m) => Some(decimal_string(m as i64)),
            None => None,
        };
        proof {
            reveal_strlit("");
            assert(""@ =~= Seq::<char>::empty());
        }
        let mut metadata = MediaMetadata::default();
        metadata.id = decimal_string(media.id as i64);
        metadata.title = title.clone();
        metadata.original_title = media.title.native.clone();
        metadata.sort_title = Some(title);
        metadata.media_type = MediaType::Anime;
        metadata.overview = match &media.description {
            Some(d) => Some(replace_all(HTML_TAG, d.as_str(), "")),
            None => None,
        };
        metadata.release_date = match &media.start_date {
            Some(d) => d.to_string(),
            None => None,
        };
        metadata.end_date = match &media.end_date {
            Some(d) => d.to_string(),
            None => None,
        };
        metadata.runtime = media.duration;
        metadata.rating = Self::rating(media.average_score);
        metadata.vote_count = media.popularity;
        metadata.genres = match &media.genres {
            Some(g) => clone_strings(g),
            None => Vec::new(),
        };
        assert(metadata.genres.deep_view() =~= listed(media.genres));
        metadata.tags = Self::tag_names(&media.tags);
        metadata.studios = Self::studio_names(&media.studios);
        metadata.language = Some("ja".to_owned());
        metadata.status = media.status.clone();
        metadata.images = images;
        metadata.external_ids = external_ids;
        metadata.provider = "anilist".to_owned();
        metadata.episode_count = media.episodes;
        metadata.cast = Self::cast_people(&media.characters);
        metadata.crew = Self::crew_people(&media.staff);
        metadata
    }
}

/// The variables of the query that searches anime.
#[derive(Debug)]
pub struct SearchVariables {
    pub search: String,
    pub year: Option<i32>,
    pub per_page: usize,
}

/// What an answer is worth: the error that carries the message of the first
/// error that the answer reports; else its data; else the error that there
/// is no data.
pub open spec fn answer_outcome<T>(response: GraphQLResponse<T>) -> Result<T, ScraperErrorView> {
    match response.errors {
        Some(errors) if errors.len() > 0 => Err(
            ScraperErrorView::Api { status: 400, message: errors[0].message@ },
        ),
        _ => match response.data {
            Some(d) => Ok(d),
            None => Err(ScraperErrorView::Parse("No data in response"@)),
        },
    }
}

/// The number that an identifier writes, or the error that says that it
/// writes none; `what` names the kind of identifier.
pub open spec fn identifier_outcome(id: Seq<char>, what: Seq<char>) -> Result<
    i32,
    ScraperErrorView,
> {
    match parsed_i32(id) {
        Some(n) => Ok(n),
        None => Err(ScraperErrorView::Parse(what + id)),
    }
}

/// Reads an identifier as a number.
fn read_identifier(id: &str, what: &str) -> (r: Result<i32, ScraperError>)
    ensures
        match r {
            Ok(n) => identifier_outcome(id@, what@) == Ok::<i32, ScraperErrorView>(n),
            Err(e) => identifier_outcome(id@, what@) == Err::<i32, ScraperErrorView>(e@),
        },
{
    let chars = chars_of(id);
    match parse_i32(chars.as_slice()) {
        Some(n) => Ok(n),
        None => Err(ScraperError::Parse(concat(what, id))),
    }
}

impl AniListProvider {
    /// Reads the envelope of an answer.
    pub fn query<T>(response: GraphQLResponse<T>) -> (r: Result<T, ScraperError>)
        ensures
            match r {
                Ok(d) => answer_outcome(response) == Ok::<T, ScraperErrorView>(d),
                Err(e) => answer_outcome(response) == Err::<T, ScraperErrorView>(e@),
            },
    {
        match &response.errors {
            Some(errors) => {
                if errors.len() > 0 {
                    return Err(
                        ScraperError::Api { status: 400, message: errors[0].message.clone() },
                    );
                }
            },
            None => {},
        }
        match response.data {
            Some(d) => Ok(d),
            None => Err(ScraperError::Parse("No data in response".to_owned())),
        }
    }

    /// The variables of a search: the query, the year, and as the page size
    /// the limit, or 20 where there is none.
    pub fn search_variables(query: &str, options: &SearchOptions) -> (r: SearchVariables)
        ensures
            r.search@ == query@,
            r.year == options@.year,
            r.per_page == (match options@.limit {
                Some(n) => n,
                None => 20,
            }),
    {
        SearchVariables {
            search: query.to_owned(),
            year: options.year,
            per_page: match options.limit {
                Some(n) => n,
                None => 20,
            },
        }
    }

    /// The result of a search, from the anime that were found: the error
    /// that nothing was found where there are none, else a candidate for
    /// each.
    pub fn search(query: &str, media: &Vec<Media>) -> (r: Result<Vec<MediaInfo>, ScraperError>)
        ensures
            match r {
                Ok(found) => media.len() > 0 && info_views(found@) == media@.map_values(
                    |m: Media| media_info(m),
                ),
                Err(e) => media.len() == 0 && e@ == ScraperErrorView::NotFound(
                    "No anime found for: "@ + query@,
                ),
            },
    {
        if media.len() == 0 {
            return Err(ScraperError::NotFound(concat("No anime found for: ", query)));
        }
        let mut out: Vec<MediaInfo> = Vec::new();
        let mut i: usize = 0;
        while i < media.len()
            invariant
                i <= media.len(),
                out.len() == i,
                forall|j: int| 0 <= j < i ==> out[j]@ == media_info(media[j]),
            decreases media.len() - i,
        {
            out.push(Self::media_to_info(&media[i]));
            i = i + 1;
        }
        assert(info_views(out@) =~= media@.map_values(|m: Media| media_info(m)));
        Ok(out)
    }

    /// The identifier to fetch metadata for, as the number that the query
    /// takes.
    pub fn get_metadata(id: &str) -> (r: Result<i32, ScraperError>)
        ensures
            match r {
                Ok(n) => identifier_outcome(id@, "Invalid AniList ID: "@) == Ok::<
                    i32,
                    ScraperErrorView,
                >(n),
                Err(e) => identifier_outcome(id@, "Invalid AniList ID: "@) == Err::<
                    i32,
                    ScraperErrorView,
                >(e@),
            },
    {
        read_identifier(id, "Invalid AniList ID: ")
    }

    /// AniList has no details of single episodes: the error that says so.
    pub fn get_episode() -> (r: Result<EpisodeInfo, ScraperError>)
        ensures
            r matches Err(e) && e@ == ScraperErrorView::NotFound(
                "AniList does not provide individual episode details"@,
            ),
    {
        Err(
            ScraperError::NotFound(
                "AniList does not provide individual episode details".to_owned(),
            ),
        )
    }

    /// The MyAnimeList identifier to look up, as the number that the query
    /// takes. Identifiers of any other source are not looked up.
    pub fn find_by_external_id(external_id: &str, source: &str) -> (r: Result<
        Option<i32>,
        ScraperError,
    >)
        ensures
            match r {
                Ok(None) => source@ != "mal"@,
                Ok(Some(n)) => source@ == "mal"@ && identifier_outcome(
                    external_id@,
                    "Invalid MAL ID: "@,
                ) == Ok::<i32, ScraperErrorView>(n),
                Err(e) => source@ == "mal"@ && identifier_outcome(
                    external_id@,
                    "Invalid MAL ID: "@,
                ) == Err::<i32, ScraperErrorView>(e@),
            },
    {
        if !same_str(source, "mal") {
            return Ok(None);
        }
        match read_identifier(external_id, "Invalid MAL ID: ") {
            Ok(n) => Ok(Some(n)),
            Err(e) => Err(e),
        }
    }
}

/// The priority of AniList for a kind of media.
pub open spec fn anilist_priority(media_type: MediaType) -> i32 {
    match media_type {
        MediaType::Anime => 100,
        MediaType::Tv => 20,
        _ => 0,
    }
}

impl MetadataProvider for AniListProvider {
    open spec fn identifier(&self) -> Seq<char> {
        "anilist"@
    }

    open spec fn kinds(&self) -> Seq<MediaType> {
        seq![MediaType::Anime]
    }

    open spec fn priority(&self, media_type: MediaType) -> i32 {
        anilist_priority(media_type)
    }

    open spec fn title(&self) -> Seq<char> {
        "AniList"@
    }

    open spec fn needs_api_key(&self) -> bool {
        false
    }

    fn id(&self) -> (r: &'static str) {
        "anilist"
    }

    fn name(&self) -> (r: &'static str) {
        "AniList"
    }

    fn supported_types(&self) -> (r: Vec<MediaType>) {
        let mut kinds: Vec<MediaType> = Vec::new();
        kinds.push(MediaType::Anime);
        assert(kinds@ =~= seq![MediaType::Anime]);
        kinds
    }

    fn requires_api_key(&self) -> (r: bool) {
        false
    }

    fn priority_for(&self, media_type: MediaType) -> (r: i32) {
        match media_type {
            MediaType::Anime => 100,
            MediaType::Tv => 20,
            _ => 0,
        }
    }
}

} // verus!
