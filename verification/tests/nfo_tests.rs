use ayiah::error::ScraperError;
use ayiah::nfo::{document, nfo_kind, EpisodeNfo, MovieNfo, NfoKind, TvShowNfo, XML_HEADER};
use ayiah::types::{EpisodeInfo, ExternalIds, ImageSet, MediaMetadata, MediaType, PersonInfo};

fn s(t: &str) -> Option<String> {
    Some(t.to_string())
}

fn person(name: &str, role: Option<&str>) -> PersonInfo {
    PersonInfo {
        id: "1".to_string(),
        name: name.to_string(),
        role: role.map(|r| r.to_string()),
        image_url: s("img.jpg"),
        order: Some(2),
    }
}

fn metadata() -> MediaMetadata {
    MediaMetadata {
        id: "603".to_string(),
        title: "The Matrix".to_string(),
        original_title: s("The Matrix"),
        sort_title: s("Matrix (1999)"),
        media_type: MediaType::Movie,
        tagline: s("Free your mind."),
        overview: s("A hacker."),
        release_date: s("1999-03-31"),
        end_date: s("1999-04-01"),
        runtime: Some(136),
        rating: Some(8200),
        vote_count: Some(25000),
        genres: vec!["Action".to_string()],
        tags: vec!["cyberpunk".to_string()],
        studios: vec!["Warner Bros.".to_string()],
        status: s("Released"),
        images: ImageSet { poster: s("p.jpg"), backdrop: s("b.jpg"), ..Default::default() },
        external_ids: ExternalIds {
            imdb: s("tt0133093"),
            tmdb: s("603"),
            tvdb: s("42"),
            anilist: s("7"),
            mal: s("8"),
            ..Default::default()
        },
        cast: vec![person("Keanu Reeves", Some("Neo"))],
        crew: vec![
            person("Lana", Some("Director")),
            person("Writer One", Some("Writer")),
            person("Editor", Some("Editor")),
            person("Lilly", Some("Director")),
            person("Writer Two", Some("Screenplay")),
            person("Nobody", None),
        ],
        ..Default::default()
    }
}

#[test]
fn movie_document() {
    let n = MovieNfo::from(&metadata());
    assert_eq!(n.title, "The Matrix");
    assert_eq!(n.originaltitle, s("The Matrix"));
    assert_eq!(n.sorttitle, s("Matrix (1999)"));
    assert_eq!(n.tagline, s("Free your mind."));
    assert_eq!(n.plot, s("A hacker."));
    assert_eq!(n.runtime, Some(136));
    assert_eq!(n.year, Some(1999));
    assert_eq!(n.premiered, s("1999-03-31"));
    assert_eq!(n.rating, Some(8200));
    assert_eq!(n.votes, Some(25000));
    let ids: Vec<(&str, bool, &str)> =
        n.uniqueids.iter().map(|u| (u.id_type.as_str(), u.default, u.value.as_str())).collect();
    assert_eq!(ids, vec![("imdb", true, "tt0133093"), ("tmdb", false, "603")]);
    assert_eq!(n.genre, vec!["Action"]);
    assert_eq!(n.tag, vec!["cyberpunk"]);
    assert_eq!(n.studio, vec!["Warner Bros."]);
    assert_eq!(n.actor.len(), 1);
    assert_eq!(n.actor[0].name, "Keanu Reeves");
    assert_eq!(n.actor[0].role, s("Neo"));
    assert_eq!(n.actor[0].thumb, s("img.jpg"));
    assert_eq!(n.actor[0].order, Some(2));
    assert_eq!(n.director, vec!["Lana", "Lilly"]);
    assert_eq!(n.credits, vec!["Writer One", "Writer Two"]);
    let thumb = n.thumb.unwrap();
    assert_eq!((thumb.aspect.as_str(), thumb.value.as_str()), ("poster", "p.jpg"));
    let fanart = n.fanart.unwrap();
    assert_eq!(fanart.thumb.len(), 1);
    assert_eq!((fanart.thumb[0].aspect.as_str(), fanart.thumb[0].value.as_str()), ("fanart", "b.jpg"));
    let bare = MovieNfo::from(&MediaMetadata::default());
    assert!(bare.uniqueids.is_empty() && bare.director.is_empty() && bare.actor.is_empty());
    assert!(bare.thumb.is_none() && bare.fanart.is_none());
    assert_eq!(bare.year, None);
}

#[test]
fn tv_show_document() {
    let n = TvShowNfo::from(&metadata());
    assert_eq!(n.title, "The Matrix");
    assert_eq!(n.premiered, s("1999-03-31"));
    assert_eq!(n.enddate, s("1999-04-01"));
    assert_eq!(n.status, s("Released"));
    assert_eq!(n.rating, Some(8200));
    let ids: Vec<(&str, bool, &str)> =
        n.uniqueids.iter().map(|u| (u.id_type.as_str(), u.default, u.value.as_str())).collect();
    assert_eq!(
        ids,
        vec![
            ("imdb", true, "tt0133093"),
            ("tmdb", false, "603"),
            ("tvdb", false, "42"),
            ("anilist", false, "7")
        ]
    );
    assert_eq!(n.actor.len(), 1);
    assert_eq!(n.thumb.unwrap().aspect, "poster");
    let mut only_tvdb = MediaMetadata::default();
    only_tvdb.external_ids.tvdb = s("9");
    let n = TvShowNfo::from(&only_tvdb);
    assert_eq!(n.uniqueids.len(), 1);
    assert_eq!(n.uniqueids[0].id_type, "tvdb");
    assert!(!n.uniqueids[0].default);
}

#[test]
fn episode_document() {
    let e = EpisodeInfo {
        id: "1".to_string(),
        title: "Pilot".to_string(),
        season: 1,
        episode: 2,
        absolute_number: Some(2),
        air_date: s("2008-01-20"),
        overview: s("It begins."),
        runtime: Some(58),
        rating: Some(8100),
        still_url: s("still.jpg"),
        provider: "tmdb".to_string(),
    };
    let n = EpisodeNfo::from(&e);
    assert_eq!(n.title, "Pilot");
    assert_eq!((n.season, n.episode), (1, 2));
    assert_eq!(n.plot, s("It begins."));
    assert_eq!(n.aired, s("2008-01-20"));
    assert_eq!(n.runtime, Some(58));
    assert_eq!(n.rating, Some(8100));
    assert_eq!(n.thumb, s("still.jpg"));
}

#[test]
fn documents_by_kind() {
    assert_eq!(nfo_kind(MediaType::Movie), NfoKind::Movie);
    assert_eq!(nfo_kind(MediaType::Unknown), NfoKind::Movie);
    assert_eq!(nfo_kind(MediaType::Tv), NfoKind::TvShow);
    assert_eq!(nfo_kind(MediaType::Anime), NfoKind::TvShow);
    assert_eq!(
        document("<movie/>"),
        "<?xml version=\"1.0\" encoding=\"UTF-8\" standalone=\"yes\"?>\n<movie/>"
    );
    assert!(document("").starts_with(XML_HEADER));
}

#[test]
fn errors_of_the_aggregator() {
    match ScraperError::no_results("The Matrix") {
        ScraperError::NotFound(m) => assert_eq!(m, "No results found for: The Matrix"),
        other => panic!("{:?}", other),
    }
    match ScraperError::provider_missing("imdb") {
        ScraperError::Config(m) => assert_eq!(m, "Provider not found: imdb"),
        other => panic!("{:?}", other),
    }
    assert_eq!(ayiah::error::concat("a", "b"), "ab");
}
