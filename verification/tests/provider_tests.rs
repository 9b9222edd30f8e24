use ayiah::error::ScraperError;
use ayiah::provider::anilist::api_types as anilist;
use ayiah::provider::anilist::provider::SearchVariables;
use ayiah::provider::bangumi::api_types as bangumi;
use ayiah::provider::common::{decode_error, handle_response, url, year_of_date};
use ayiah::provider::tmdb::api_types as tmdb;
use ayiah::provider::tmdb::provider::SearchScope;
use ayiah::provider::traits::{default_priority_for, supports, ProviderCapabilities};
use ayiah::provider::{
    AniListProvider, BangumiProvider, MetadataProvider, SearchOptions, TmdbProvider,
};
use ayiah::types::{MediaInfo, MediaType};

fn s(t: &str) -> Option<String> {
    Some(t.to_string())
}

fn pairs(params: &[(String, String)]) -> Vec<(&str, &str)> {
    params.iter().map(|(k, v)| (k.as_str(), v.as_str())).collect()
}

#[test]
fn search_options_are_built_step_by_step() {
    let o = SearchOptions::new();
    assert_eq!((o.year, o.limit, o.language.clone(), o.media_type), (None, None, None, None));
    let o = o.with_year(Some(1999)).with_limit(5).with_language("ja").with_type(MediaType::Anime);
    assert_eq!(o.year, Some(1999));
    assert_eq!(o.limit, Some(5));
    assert_eq!(o.language, s("ja"));
    assert_eq!(o.media_type, Some(MediaType::Anime));
    let o = o.with_year(None);
    assert_eq!(o.year, None);
    assert_eq!(o.limit, Some(5));
    let d = SearchOptions::default();
    assert_eq!((d.year, d.limit, d.language, d.media_type), (None, None, None, None));
}

#[test]
fn capabilities_by_default() {
    let c = ProviderCapabilities::default();
    assert!(c.search && c.metadata && c.images);
    assert!(!c.episodes && !c.external_ids);
}

#[test]
fn priority_of_a_provider_that_states_none() {
    let kinds = [MediaType::Movie, MediaType::Tv];
    assert!(supports(&kinds, MediaType::Tv));
    assert!(!supports(&kinds, MediaType::Anime));
    assert_eq!(default_priority_for(&kinds, MediaType::Movie), 50);
    assert_eq!(default_priority_for(&kinds, MediaType::Anime), 0);
    assert_eq!(default_priority_for(&[], MediaType::Unknown), 0);
}

#[test]
fn the_three_providers() {
    let t = TmdbProvider::new("k");
    assert_eq!((t.id(), t.name(), t.requires_api_key()), ("tmdb", "The Movie Database", true));
    assert_eq!(t.supported_types(), vec![MediaType::Movie, MediaType::Tv]);
    let a = AniListProvider::new();
    assert_eq!((a.id(), a.name(), a.requires_api_key()), ("anilist", "AniList", false));
    assert_eq!(a.supported_types(), vec![MediaType::Anime]);
    let b = BangumiProvider::new();
    assert_eq!((b.id(), b.name(), b.requires_api_key()), ("bangumi", "Bangumi", false));
    let table = [
        (MediaType::Movie, 100, 0, 0),
        (MediaType::Tv, 90, 20, 0),
        (MediaType::Anime, 30, 100, 80),
        (MediaType::Unknown, 50, 0, 0),
    ];
    for (kind, pt, pa, pb) in table {
        assert_eq!(t.priority_for(kind), pt);
        assert_eq!(a.priority_for(kind), pa);
        assert_eq!(b.priority_for(kind), pb);
    }
}

#[test]
fn responses_by_status() {
    assert_eq!(handle_response(200, None, "{}".to_string()).unwrap(), "{}");
    assert_eq!(handle_response(299, Some(3), "x".to_string()).unwrap(), "x");
    match handle_response(429, Some(30), "slow down".to_string()) {
        Err(ScraperError::RateLimit(seconds)) => assert_eq!(seconds, 30),
        other => panic!("{:?}", other),
    }
    assert!(matches!(
        handle_response(503, Some(30), "busy".to_string()),
        Err(ScraperError::Api { status: 503, .. })
    ));
    for status in [199u16, 300, 404, 429, 500] {
        match handle_response(status, None, "gone".to_string()) {
            Err(ScraperError::Api { status: st, message }) => {
                assert_eq!(st, status);
                assert_eq!(message, "gone");
            }
            other => panic!("{:?}", other),
        }
    }
    match decode_error("missing field `id`") {
        ScraperError::Parse(m) => assert_eq!(m, "JSON parse error: missing field `id`"),
        other => panic!("{:?}", other),
    }
    assert_eq!(url("https://api.bgm.tv", "/v0/subjects/1"), "https://api.bgm.tv/v0/subjects/1");
}

#[test]
fn years_of_dates() {
    assert_eq!(year_of_date(&s("2023-09-29")), Some(2023));
    assert_eq!(year_of_date(&s("1999")), Some(1999));
    assert_eq!(year_of_date(&s("-2023")), None);
    assert_eq!(year_of_date(&s("2023/09/29")), None);
    assert_eq!(year_of_date(&s("")), None);
    assert_eq!(year_of_date(&s("+12-01")), Some(12));
    assert_eq!(year_of_date(&None), None);
}

#[test]
fn tmdb_requests() {
    let p = TmdbProvider::new("SECRET");
    let options = SearchOptions::new().with_year(Some(1999)).with_language("en-US");
    let r = p.search_movies("The Matrix", &options);
    assert_eq!(r.endpoint, "/search/movie");
    assert_eq!(
        pairs(&r.params),
        vec![("api_key", "SECRET"), ("query", "The Matrix"), ("year", "1999"), ("language", "en-US")]
    );
    let r = p.search_tv("Breaking Bad", &options);
    assert_eq!(r.endpoint, "/search/tv");
    assert_eq!(
        pairs(&r.params),
        vec![
            ("api_key", "SECRET"),
            ("query", "Breaking Bad"),
            ("first_air_date_year", "1999"),
            ("language", "en-US")
        ]
    );
    let r = p.search_movies("x", &SearchOptions::new());
    assert_eq!(pairs(&r.params), vec![("api_key", "SECRET"), ("query", "x")]);
    let r = p.get_movie_metadata("603");
    assert_eq!(r.endpoint, "/movie/603");
    assert_eq!(
        pairs(&r.params),
        vec![("api_key", "SECRET"), ("append_to_response", "external_ids,credits")]
    );
    assert_eq!(p.get_tv_metadata("1396").endpoint, "/tv/1396");
    let r = p.get_episode("1396", 1, 5);
    assert_eq!(r.endpoint, "/tv/1396/season/1/episode/5");
    assert_eq!(pairs(&r.params), vec![("api_key", "SECRET")]);
    let r = p.find_by_external_id("tt0133093", "imdb").unwrap();
    assert_eq!(r.endpoint, "/find/tt0133093");
    assert_eq!(pairs(&r.params), vec![("api_key", "SECRET"), ("external_source", "imdb_id")]);
    let r = p.find_by_external_id("81189", "tvdb").unwrap();
    assert_eq!(pairs(&r.params)[1], ("external_source", "tvdb_id"));
    assert!(p.find_by_external_id("1", "mal").is_none());
    let r = p.request("/x", vec![("a".to_string(), "b".to_string())]);
    assert_eq!(pairs(&r.params), vec![("api_key", "SECRET"), ("a", "b")]);
}

fn movie_result(id: i64, title: &str) -> tmdb::MovieResult {
    tmdb::MovieResult {
        id,
        title: title.to_string(),
        original_title: format!("{} (original)", title),
        release_date: s("1999-03-31"),
        poster_path: s("/p.jpg"),
        backdrop_path: None,
        overview: s("A hacker."),
        vote_average: Some(8200),
        vote_count: Some(1),
        popularity: Some(85_300),
        original_language: s("en"),
        genre_ids: None,
    }
}

fn tv_result(id: i64, name: &str) -> tmdb::TvResult {
    tmdb::TvResult {
        id,
        name: name.to_string(),
        original_name: name.to_string(),
        first_air_date: None,
        poster_path: None,
        backdrop_path: None,
        overview: None,
        vote_average: None,
        vote_count: None,
        popularity: None,
        original_language: None,
        genre_ids: None,
    }
}

#[test]
fn tmdb_candidates() {
    let info = TmdbProvider::movie_result_to_info(&movie_result(603, "The Matrix"));
    assert_eq!(info.id, "603");
    assert_eq!(info.title, "The Matrix");
    assert_eq!(info.original_title, s("The Matrix (original)"));
    assert!(info.alt_titles.is_empty());
    assert_eq!(info.media_type, MediaType::Movie);
    assert_eq!(info.year, Some(1999));
    assert_eq!(info.poster_url, s("https://image.tmdb.org/t/p/w500/p.jpg"));
    assert_eq!(info.overview, s("A hacker."));
    assert_eq!(info.rating, Some(8200));
    assert_eq!(info.popularity, Some(85_300));
    assert_eq!(info.provider, "tmdb");
    let info = TmdbProvider::tv_result_to_info(&tv_result(-7, "Show"));
    assert_eq!(info.id, "-7");
    assert_eq!(info.media_type, MediaType::Tv);
    assert_eq!(info.year, None);
    assert_eq!(info.poster_url, None);
    let list = TmdbProvider::movie_results(&vec![movie_result(1, "A"), movie_result(2, "B")]);
    assert_eq!(list.iter().map(|i| i.id.as_str()).collect::<Vec<_>>(), vec!["1", "2"]);
    assert_eq!(TmdbProvider::tv_results(&vec![tv_result(3, "C")])[0].title, "C");
    assert_eq!(
        TmdbProvider::image_url(&s("/x.png"), "original"),
        s("https://image.tmdb.org/t/p/original/x.png")
    );
    assert_eq!(TmdbProvider::image_url(&None, "w185"), None);
}

#[test]
fn tmdb_sort_titles() {
    assert_eq!(TmdbProvider::generate_sort_title("The Matrix", Some(1999)), "Matrix (1999)");
    assert_eq!(TmdbProvider::generate_sort_title("The The Matrix", None), "Matrix");
    assert_eq!(TmdbProvider::generate_sort_title("A Beautiful Mind", None), "Beautiful Mind");
    assert_eq!(TmdbProvider::generate_sort_title("An Education", Some(2009)), "Education (2009)");
    assert_eq!(TmdbProvider::generate_sort_title("The A An X", None), "X");
    assert_eq!(TmdbProvider::generate_sort_title("A The X", None), "The X");
    assert_eq!(TmdbProvider::generate_sort_title("Theory", None), "Theory");
    assert_eq!(TmdbProvider::generate_sort_title("the matrix", None), "the matrix");
    assert_eq!(TmdbProvider::generate_sort_title("", Some(-1)), " (-1)");
}

fn crew(id: i64, name: &str, job: Option<&str>) -> tmdb::CrewMember {
    tmdb::CrewMember {
        id,
        name: name.to_string(),
        job: job.map(|j| j.to_string()),
        department: None,
        profile_path: None,
    }
}

fn credits(cast: usize) -> tmdb::Credits {
    tmdb::Credits {
        cast: (0..cast)
            .map(|i| tmdb::CastMember {
                id: i as i64,
                name: format!("Actor {}", i),
                character: s("Role"),
                profile_path: if i == 0 { s("/a.jpg") } else { None },
                order: Some(i as i32),
            })
            .collect(),
        crew: vec![
            crew(1, "D", Some("Director")),
            crew(2, "E", Some("Editor")),
            crew(3, "S", Some("Screenplay")),
            crew(4, "C", Some("Creator")),
            crew(5, "N", None),
            crew(6, "W", Some("Writer")),
            crew(7, "P", Some("Executive Producer")),
        ],
    }
}

#[test]
fn tmdb_movie_metadata() {
    let movie = tmdb::MovieDetails {
        id: 603,
        title: "The Matrix".to_string(),
        original_title: "The Matrix".to_string(),
        tagline: s("Free your mind."),
        overview: s("A hacker."),
        release_date: s("1999-03-31"),
        runtime: Some(136),
        poster_path: s("/p.jpg"),
        backdrop_path: s("/b.jpg"),
        vote_average: Some(8200),
        vote_count: Some(25000),
        popularity: Some(85_300),
        status: s("Released"),
        original_language: "en".to_string(),
        genres: vec![
            tmdb::Genre { id: 28, name: "Action".to_string() },
            tmdb::Genre { id: 878, name: "Science Fiction".to_string() },
        ],
        production_companies: vec![tmdb::Company {
            id: 1,
            name: "Warner Bros.".to_string(),
            logo_path: None,
        }],
        production_countries: vec![],
        external_ids: Some(tmdb::ExternalIds {
            imdb_id: s("tt0133093"),
            tvdb_id: Some(42),
            facebook_id: None,
            instagram_id: None,
            twitter_id: None,
        }),
        credits: Some(credits(25)),
    };
    let m = TmdbProvider::movie_details_to_metadata(&movie);
    assert_eq!(m.id, "603");
    assert_eq!(m.title, "The Matrix");
    assert_eq!(m.sort_title, s("Matrix (1999)"));
    assert_eq!(m.media_type, MediaType::Movie);
    assert_eq!(m.tagline, s("Free your mind."));
    assert_eq!(m.release_date, s("1999-03-31"));
    assert_eq!(m.end_date, None);
    assert_eq!(m.runtime, Some(136));
    assert_eq!(m.rating, Some(8200));
    assert_eq!(m.vote_count, Some(25000));
    assert_eq!(m.genres, vec!["Action", "Science Fiction"]);
    assert!(m.tags.is_empty());
    assert_eq!(m.studios, vec!["Warner Bros."]);
    assert_eq!(m.language, s("en"));
    assert_eq!(m.status, s("Released"));
    assert_eq!(m.images.poster, s("https://image.tmdb.org/t/p/w500/p.jpg"));
    assert_eq!(m.images.backdrop, s("https://image.tmdb.org/t/p/original/b.jpg"));
    assert_eq!(m.images.logo, None);
    assert_eq!(m.external_ids.imdb, s("tt0133093"));
    assert_eq!(m.external_ids.tmdb, s("603"));
    assert_eq!(m.external_ids.tvdb, s("42"));
    assert_eq!(m.external_ids.anilist, None);
    assert_eq!(m.provider, "tmdb");
    assert_eq!(m.season_count, None);
    assert!(m.seasons.is_empty());
    assert_eq!(m.cast.len(), 20);
    assert_eq!(m.cast[0].id, "0");
    assert_eq!(m.cast[0].image_url, s("https://image.tmdb.org/t/p/w185/a.jpg"));
    assert_eq!(m.cast[19].name, "Actor 19");
    assert_eq!(m.cast[19].order, Some(19));
    let jobs: Vec<&str> = m.crew.iter().map(|c| c.name.as_str()).collect();
    assert_eq!(jobs, vec!["D", "S", "W"]);
    assert_eq!(m.crew[1].role, s("Screenplay"));
    assert_eq!(m.crew[1].order, None);
}

#[test]
fn tmdb_tv_metadata() {
    let tv = tmdb::TvDetails {
        id: 1396,
        name: "A Show".to_string(),
        original_name: "A Show".to_string(),
        tagline: None,
        overview: None,
        first_air_date: None,
        last_air_date: s("2013-09-29"),
        poster_path: None,
        backdrop_path: None,
        vote_average: None,
        vote_count: None,
        popularity: None,
        status: s("Ended"),
        original_language: "en".to_string(),
        genres: vec![],
        production_companies: vec![],
        number_of_seasons: 5,
        number_of_episodes: 62,
        episode_run_time: vec![45, 47],
        seasons: vec![tmdb::Season {
            id: 1,
            season_number: 0,
            name: s("Specials"),
            overview: None,
            air_date: None,
            episode_count: Some(3),
            poster_path: s("/s.jpg"),
        }],
        external_ids: None,
        credits: Some(credits(2)),
    };
    let m = TmdbProvider::tv_details_to_metadata(&tv);
    assert_eq!(m.sort_title, s("Show"));
    assert_eq!(m.media_type, MediaType::Tv);
    assert_eq!(m.end_date, s("2013-09-29"));
    assert_eq!(m.runtime, Some(45));
    assert_eq!(m.season_count, Some(5));
    assert_eq!(m.episode_count, Some(62));
    assert_eq!(m.seasons.len(), 1);
    assert_eq!(m.seasons[0].number, 0);
    assert_eq!(m.seasons[0].name, s("Specials"));
    assert_eq!(m.seasons[0].episode_count, Some(3));
    assert_eq!(m.seasons[0].poster_url, s("https://image.tmdb.org/t/p/w500/s.jpg"));
    assert_eq!(m.external_ids.imdb, None);
    assert_eq!(m.external_ids.tmdb, s("1396"));
    assert_eq!(m.cast.len(), 2);
    let jobs: Vec<&str> = m.crew.iter().map(|c| c.name.as_str()).collect();
    assert_eq!(jobs, vec!["D", "C", "W", "P"]);
    let mut none = tv;
    none.credits = None;
    none.episode_run_time = vec![];
    let m = TmdbProvider::tv_details_to_metadata(&none);
    assert!(m.cast.is_empty() && m.crew.is_empty());
    assert_eq!(m.runtime, None);
}

#[test]
fn tmdb_episode() {
    let ep = tmdb::EpisodeDetails {
        id: 62085,
        name: "Pilot".to_string(),
        season_number: 1,
        episode_number: 1,
        air_date: s("2008-01-20"),
        overview: None,
        still_path: s("/still.jpg"),
        runtime: Some(58),
        vote_average: Some(8100),
    };
    let e = TmdbProvider::episode_details_to_info(&ep);
    assert_eq!(e.id, "62085");
    assert_eq!(e.title, "Pilot");
    assert_eq!((e.season, e.episode, e.absolute_number), (1, 1, None));
    assert_eq!(e.still_url, s("https://image.tmdb.org/t/p/w300/still.jpg"));
    assert_eq!(e.rating, Some(8100));
    assert_eq!(e.provider, "tmdb");
}

fn found(provider: &str, n: usize) -> Vec<MediaInfo> {
    (0..n).map(|i| MediaInfo::new(&i.to_string(), "t", provider)).collect()
}

#[test]
fn tmdb_search_decisions() {
    let scope = |t: Option<MediaType>| {
        let o = match t {
            Some(t) => SearchOptions::new().with_type(t),
            None => SearchOptions::new(),
        };
        TmdbProvider::search_scope(&o)
    };
    assert_eq!(scope(Some(MediaType::Movie)), SearchScope::Movies);
    assert_eq!(scope(Some(MediaType::Tv)), SearchScope::Tv);
    assert_eq!(scope(Some(MediaType::Anime)), SearchScope::Tv);
    assert_eq!(scope(Some(MediaType::Unknown)), SearchScope::Both);
    assert_eq!(scope(None), SearchScope::Both);

    let limited = SearchOptions::new().with_limit(2);
    assert_eq!(TmdbProvider::search("q", &limited, Ok(found("tmdb", 3))).unwrap().len(), 2);
    assert_eq!(TmdbProvider::search("q", &limited, Ok(found("tmdb", 1))).unwrap().len(), 1);
    let unlimited = SearchOptions::new();
    assert_eq!(TmdbProvider::search("q", &unlimited, Ok(found("tmdb", 3))).unwrap().len(), 3);
    match TmdbProvider::search("q", &unlimited, Ok(vec![])) {
        Err(ScraperError::NotFound(m)) => assert_eq!(m, "No results found for: q"),
        other => panic!("{:?}", other),
    }
    match TmdbProvider::search("q", &unlimited, Err(ScraperError::Network("x".to_string()))) {
        Err(ScraperError::Network(_)) => {}
        other => panic!("{:?}", other),
    }
    let err = || Err(ScraperError::Network("x".to_string()));
    let both = TmdbProvider::search_both("q", &limited, Ok(found("m", 1)), Ok(found("t", 3)));
    let providers: Vec<String> = both.unwrap().into_iter().map(|i| i.provider).collect();
    assert_eq!(providers, vec!["m", "t"]);
    assert_eq!(TmdbProvider::search_both("q", &unlimited, err(), Ok(found("t", 3))).unwrap().len(), 3);
    assert_eq!(TmdbProvider::search_both("q", &unlimited, Ok(found("m", 1)), err()).unwrap().len(), 1);
    assert!(matches!(
        TmdbProvider::search_both("q", &unlimited, err(), err()),
        Err(ScraperError::NotFound(_))
    ));
    assert_eq!(TmdbProvider::metadata_plan(MediaType::Movie), (MediaType::Movie, None));
    assert_eq!(TmdbProvider::metadata_plan(MediaType::Tv), (MediaType::Tv, None));
    assert_eq!(TmdbProvider::metadata_plan(MediaType::Anime), (MediaType::Tv, None));
    assert_eq!(
        TmdbProvider::metadata_plan(MediaType::Unknown),
        (MediaType::Movie, Some(MediaType::Tv))
    );
    let response = tmdb::FindResponse {
        movie_results: vec![movie_result(1, "M")],
        tv_results: vec![tv_result(2, "T")],
    };
    assert_eq!(TmdbProvider::found_by_external_id(&response).unwrap().title, "M");
    let response = tmdb::FindResponse { movie_results: vec![], tv_results: vec![tv_result(2, "T")] };
    assert_eq!(TmdbProvider::found_by_external_id(&response).unwrap().title, "T");
    let response = tmdb::FindResponse { movie_results: vec![], tv_results: vec![] };
    assert!(TmdbProvider::found_by_external_id(&response).is_none());
}

fn name(full: Option<&str>) -> anilist::CharacterName {
    anilist::CharacterName { full: full.map(|f| f.to_string()) }
}

fn media(id: i32) -> anilist::Media {
    anilist::Media {
        id,
        title: anilist::Title { romaji: s("Sousou no Frieren"), english: s("Frieren"), native: s("葬送のフリーレン") },
        format: s("TV"),
        status: s("FINISHED"),
        description: s("An <b>elf</b> mage.<br><br>After the <i>journey</i>."),
        season: s("FALL"),
        season_year: Some(2023),
        episodes: Some(28),
        duration: Some(24),
        cover_image: Some(anilist::CoverImage { large: s("l.jpg"), extra_large: s("xl.jpg") }),
        banner_image: s("banner.jpg"),
        average_score: Some(91),
        popularity: Some(350_000),
        genres: Some(vec!["Adventure".to_string(), "Drama".to_string()]),
        tags: Some(vec![
            anilist::Tag { name: "Elf".to_string(), rank: Some(95) },
            anilist::Tag { name: "Rare".to_string(), rank: Some(59) },
            anilist::Tag { name: "Unranked".to_string(), rank: None },
            anilist::Tag { name: "Travel".to_string(), rank: Some(60) },
        ]),
        studios: Some(anilist::Studios {
            nodes: vec![
                anilist::Studio { name: "MADHOUSE".to_string(), is_animation_studio: true },
                anilist::Studio { name: "Toho".to_string(), is_animation_studio: false },
            ],
        }),
        start_date: Some(anilist::FuzzyDate { year: Some(2023), month: Some(9), day: Some(29) }),
        end_date: Some(anilist::FuzzyDate { year: Some(2024), month: Some(3), day: None }),
        id_mal: Some(52991),
        synonyms: Some(vec!["Frieren at the Funeral".to_string(), "葬送的芙莉莲".to_string()]),
        characters: Some(anilist::Characters {
            edges: vec![
                anilist::CharacterEdge {
                    node: anilist::Character {
                        id: 1,
                        name: name(Some("Frieren")),
                        image: Some(anilist::CharacterImage { large: s("f.jpg") }),
                    },
                    role: s("MAIN"),
                    voice_actors: Some(vec![
                        anilist::VoiceActor { id: 9, name: name(Some("English VA")), image: None, language: s("English") },
                        anilist::VoiceActor { id: 8, name: name(Some("Atsumi Tanezaki")), image: None, language: s("Japanese") },
                        anilist::VoiceActor { id: 7, name: name(Some("Second")), image: None, language: s("Japanese") },
                    ]),
                },
                anilist::CharacterEdge {
                    node: anilist::Character { id: 2, name: name(Some("Extra")), image: None },
                    role: s("BACKGROUND"),
                    voice_actors: None,
                },
                anilist::CharacterEdge {
                    node: anilist::Character { id: 3, name: name(None), image: None },
                    role: s("SUPPORTING"),
                    voice_actors: Some(vec![]),
                },
            ],
        }),
        staff: Some(anilist::Staff {
            edges: vec![
                anilist::StaffEdge {
                    node: anilist::StaffNode { id: 11, name: name(Some("Keiichirou Saitou")), image: None },
                    role: s("Director"),
                },
                anilist::StaffEdge {
                    node: anilist::StaffNode { id: 12, name: name(Some("Someone")), image: None },
                    role: s("Key Animation"),
                },
                anilist::StaffEdge {
                    node: anilist::StaffNode { id: 13, name: name(None), image: Some(anilist::CharacterImage { large: s("m.jpg") }) },
                    role: s("Music"),
                },
            ],
        }),
    }
}

#[test]
fn anilist_candidate() {
    let info = AniListProvider::media_to_info(&media(154587));
    assert_eq!(info.id, "154587");
    assert_eq!(info.title, "Frieren");
    assert_eq!(info.original_title, s("葬送のフリーレン"));
    assert_eq!(
        info.alt_titles,
        vec!["Sousou no Frieren", "Frieren at the Funeral", "葬送的芙莉莲"]
    );
    assert_eq!(info.media_type, MediaType::Anime);
    assert_eq!(info.year, Some(2023));
    assert_eq!(info.poster_url, s("xl.jpg"));
    assert_eq!(info.rating, Some(9100));
    assert_eq!(info.popularity, Some(350_000_000));
    assert_eq!(info.provider, "anilist");
    let mut bare = media(1);
    bare.title = anilist::Title { romaji: None, english: None, native: None };
    bare.cover_image = Some(anilist::CoverImage { large: s("l.jpg"), extra_large: None });
    bare.synonyms = None;
    bare.average_score = None;
    bare.popularity = None;
    let info = AniListProvider::media_to_info(&bare);
    assert_eq!(info.title, "");
    assert!(info.alt_titles.is_empty());
    assert_eq!(info.poster_url, s("l.jpg"));
    assert_eq!((info.rating, info.popularity), (None, None));
    let mut romaji = media(1);
    romaji.title.english = None;
    romaji.cover_image = None;
    let info = AniListProvider::media_to_info(&romaji);
    assert_eq!(info.title, "Sousou no Frieren");
    assert_eq!(info.poster_url, None);
}

#[test]
fn anilist_metadata() {
    let m = AniListProvider::media_to_metadata(&media(154587));
    assert_eq!(m.id, "154587");
    assert_eq!(m.title, "Frieren");
    assert_eq!(m.sort_title, s("Frieren"));
    assert_eq!(m.original_title, s("葬送のフリーレン"));
    assert_eq!(m.overview, s("An elf mage.After the journey."));
    assert_eq!(m.release_date, s("2023-09-29"));
    assert_eq!(m.end_date, s("2024-03"));
    assert_eq!(m.runtime, Some(24));
    assert_eq!(m.rating, Some(9100));
    assert_eq!(m.vote_count, Some(350_000));
    assert_eq!(m.genres, vec!["Adventure", "Drama"]);
    assert_eq!(m.tags, vec!["Elf", "Travel"]);
    assert_eq!(m.studios, vec!["MADHOUSE"]);
    assert_eq!(m.language, s("ja"));
    assert_eq!(m.status, s("FINISHED"));
    assert_eq!(m.images.poster, s("xl.jpg"));
    assert_eq!(m.images.backdrop, s("banner.jpg"));
    assert_eq!(m.external_ids.anilist, s("154587"));
    assert_eq!(m.external_ids.mal, s("52991"));
    assert_eq!(m.external_ids.tmdb, None);
    assert_eq!(m.provider, "anilist");
    assert_eq!(m.episode_count, Some(28));
    assert_eq!(m.season_count, None);
    assert_eq!(m.cast.len(), 2);
    assert_eq!(m.cast[0].id, "1");
    assert_eq!(m.cast[0].name, "Atsumi Tanezaki");
    assert_eq!(m.cast[0].role, s("Frieren"));
    assert_eq!(m.cast[0].image_url, s("f.jpg"));
    assert_eq!(m.cast[1].id, "3");
    assert_eq!(m.cast[1].name, "");
    assert_eq!(m.cast[1].role, s(""));
    assert_eq!(m.crew.len(), 2);
    assert_eq!(m.crew[0].name, "Keiichirou Saitou");
    assert_eq!(m.crew[0].role, s("Director"));
    assert_eq!(m.crew[1].name, "");
    assert_eq!(m.crew[1].image_url, s("m.jpg"));
    let mut many = media(1);
    let edge = |i: i32| anilist::CharacterEdge {
        node: anilist::Character { id: i, name: name(Some("C")), image: None },
        role: s(if i % 2 == 0 { "MAIN" } else { "BACKGROUND" }),
        voice_actors: None,
    };
    many.characters = Some(anilist::Characters { edges: (0..60).map(edge).collect() });
    many.description = None;
    many.genres = None;
    many.tags = None;
    many.studios = None;
    many.staff = None;
    many.start_date = None;
    let m = AniListProvider::media_to_metadata(&many);
    assert_eq!(m.cast.len(), 20);
    assert_eq!(m.cast[19].id, "38");
    assert_eq!(m.cast[0].name, "C");
    assert_eq!(m.overview, None);
    assert!(m.genres.is_empty() && m.tags.is_empty() && m.studios.is_empty() && m.crew.is_empty());
    assert_eq!(m.release_date, None);
}

#[test]
fn anilist_dates() {
    let date = |year, month, day| anilist::FuzzyDate { year, month, day };
    assert_eq!(date(Some(2023), Some(9), Some(5)).to_string(), s("2023-09-05"));
    assert_eq!(date(Some(2023), Some(12), None).to_string(), s("2023-12"));
    assert_eq!(date(Some(987), None, None).to_string(), s("0987"));
    assert_eq!(date(Some(2023), None, Some(5)).to_string(), None);
    assert_eq!(date(None, Some(9), Some(5)).to_string(), None);
    assert_eq!(date(None, None, None).to_string(), None);
    assert_eq!(date(Some(-5), Some(123), Some(-1)).to_string(), s("-005-123--1"));
}

#[test]
fn anilist_decisions() {
    let ok: anilist::GraphQLResponse<i32> = anilist::GraphQLResponse { data: Some(7), errors: None };
    assert_eq!(AniListProvider::query(ok).unwrap(), 7);
    let empty_errors: anilist::GraphQLResponse<i32> =
        anilist::GraphQLResponse { data: Some(7), errors: Some(vec![]) };
    assert_eq!(AniListProvider::query(empty_errors).unwrap(), 7);
    let failed: anilist::GraphQLResponse<i32> = anilist::GraphQLResponse {
        data: Some(7),
        errors: Some(vec![
            anilist::GraphQLError { message: "Not Found.".to_string() },
            anilist::GraphQLError { message: "Second".to_string() },
        ]),
    };
    match AniListProvider::query(failed) {
        Err(ScraperError::Api { status, message }) => {
            assert_eq!(status, 400);
            assert_eq!(message, "Not Found.");
        }
        other => panic!("{:?}", other),
    }
    let nothing: anilist::GraphQLResponse<i32> = anilist::GraphQLResponse { data: None, errors: None };
    match AniListProvider::query(nothing) {
        Err(ScraperError::Parse(m)) => assert_eq!(m, "No data in response"),
        other => panic!("{:?}", other),
    }
    let SearchVariables { search, year, per_page } =
        AniListProvider::search_variables("Frieren", &SearchOptions::new().with_year(Some(2023)));
    assert_eq!((search.as_str(), year, per_page), ("Frieren", Some(2023), 20));
    let v = AniListProvider::search_variables("x", &SearchOptions::new().with_limit(5));
    assert_eq!((v.year, v.per_page), (None, 5));
    match AniListProvider::search("Frieren", &vec![]) {
        Err(ScraperError::NotFound(m)) => assert_eq!(m, "No anime found for: Frieren"),
        other => panic!("{:?}", other),
    }
    let found = AniListProvider::search("Frieren", &vec![media(1), media(2)]).unwrap();
    assert_eq!(found.iter().map(|i| i.id.as_str()).collect::<Vec<_>>(), vec!["1", "2"]);
    assert_eq!(AniListProvider::get_metadata("154587").unwrap(), 154587);
    match AniListProvider::get_metadata("abc") {
        Err(ScraperError::Parse(m)) => assert_eq!(m, "Invalid AniList ID: abc"),
        other => panic!("{:?}", other),
    }
    match AniListProvider::get_episode() {
        Err(ScraperError::NotFound(m)) => {
            assert_eq!(m, "AniList does not provide individual episode details")
        }
        other => panic!("{:?}", other),
    }
    assert_eq!(AniListProvider::find_by_external_id("52991", "mal").unwrap(), Some(52991));
    assert_eq!(AniListProvider::find_by_external_id("52991", "imdb").unwrap(), None);
    assert_eq!(AniListProvider::find_by_external_id("x", "imdb").unwrap(), None);
    match AniListProvider::find_by_external_id("x", "mal") {
        Err(ScraperError::Parse(m)) => assert_eq!(m, "Invalid MAL ID: x"),
        other => panic!("{:?}", other),
    }
}

fn subject(id: i32, name: &str, name_cn: Option<&str>, date: Option<&str>) -> bangumi::Subject {
    bangumi::Subject {
        id,
        subject_type: 2,
        name: name.to_string(),
        name_cn: name_cn.map(|n| n.to_string()),
        summary: s("summary"),
        date: date.map(|d| d.to_string()),
        air_date: None,
        images: Some(bangumi::Images { large: None, common: s("c.jpg"), medium: None, small: None, grid: None }),
        eps: Some(28),
        rating: Some(bangumi::Rating { score: Some(8700), total: Some(1234) }),
        tags: Some((0..12).map(|i| bangumi::Tag { name: format!("tag{}", i), count: None }).collect()),
        infobox: Some(vec![
            bangumi::InfoBox { key: "中文名".to_string(), value: bangumi::InfoBoxValue::String("葬送的芙莉莲".to_string()) },
            bangumi::InfoBox { key: "导演".to_string(), value: bangumi::InfoBoxValue::String("斋藤圭一郎".to_string()) },
            bangumi::InfoBox {
                key: "动画制作".to_string(),
                value: bangumi::InfoBoxValue::Array(vec![
                    bangumi::InfoBoxItem { v: s("MADHOUSE") },
                    bangumi::InfoBoxItem { v: None },
                    bangumi::InfoBoxItem { v: s("Second") },
                ]),
            },
            bangumi::InfoBox { key: "監督".to_string(), value: bangumi::InfoBoxValue::Array(vec![]) },
            bangumi::InfoBox { key: "製作".to_string(), value: bangumi::InfoBoxValue::String("Toho".to_string()) },
            bangumi::InfoBox { key: "監督".to_string(), value: bangumi::InfoBoxValue::String("Last".to_string()) },
        ]),
    }
}

#[test]
fn bangumi_candidate() {
    let info = BangumiProvider::subject_to_info(&subject(400602, "葬送のフリーレン", Some("葬送的芙莉莲"), Some("2023-09-29")));
    assert_eq!(info.id, "400602");
    assert_eq!(info.title, "葬送的芙莉莲");
    assert_eq!(info.original_title, s("葬送のフリーレン"));
    assert_eq!(info.media_type, MediaType::Anime);
    assert_eq!(info.year, Some(2023));
    assert_eq!(info.poster_url, s("c.jpg"));
    assert_eq!(info.overview, s("summary"));
    assert_eq!(info.rating, Some(8700));
    assert_eq!(info.popularity, None);
    assert_eq!(info.provider, "bangumi");
    let mut no_cn = subject(1, "Name", Some(""), None);
    no_cn.air_date = s("2020-01-01");
    no_cn.images = None;
    no_cn.rating = None;
    let info = BangumiProvider::subject_to_info(&no_cn);
    assert_eq!(info.title, "Name");
    assert_eq!(info.year, Some(2020));
    assert_eq!((info.poster_url, info.rating), (None, None));
    assert_eq!(BangumiProvider::subject_to_info(&subject(1, "Name", None, None)).title, "Name");
}

#[test]
fn bangumi_metadata() {
    let m = BangumiProvider::subject_to_metadata(&subject(400602, "葬送のフリーレン", Some("葬送的芙莉莲"), Some("2023-09-29")));
    assert_eq!(m.id, "400602");
    assert_eq!(m.title, "葬送的芙莉莲");
    assert_eq!(m.sort_title, s("葬送的芙莉莲"));
    assert_eq!(m.original_title, s("葬送のフリーレン"));
    assert_eq!(m.media_type, MediaType::Anime);
    assert_eq!(m.release_date, s("2023-09-29"));
    assert_eq!(m.rating, Some(8700));
    assert_eq!(m.vote_count, Some(1234));
    assert_eq!(m.genres.len(), 10);
    assert_eq!(m.genres[9], "tag9");
    assert_eq!(m.studios, vec!["MADHOUSE", "Second", "Toho"]);
    assert_eq!(m.language, s("ja"));
    assert_eq!(m.status, s("TV"));
    assert_eq!(m.images.poster, s("c.jpg"));
    assert_eq!(m.external_ids.bangumi, s("400602"));
    assert_eq!(m.provider, "bangumi");
    assert_eq!(m.episode_count, Some(28));
    assert_eq!(m.crew.len(), 1);
    assert_eq!(m.crew[0].name, "Last");
    assert_eq!(m.crew[0].id, "");
    assert_eq!(m.crew[0].role, s("Director"));
    assert_eq!(m.crew[0].order, Some(0));
    let mut movie = subject(1, "M", None, None);
    movie.subject_type = 6;
    movie.infobox = None;
    movie.tags = None;
    let m = BangumiProvider::subject_to_metadata(&movie);
    assert_eq!(m.status, s("Movie"));
    assert!(m.crew.is_empty() && m.studios.is_empty() && m.genres.is_empty());
    movie.subject_type = 1;
    assert_eq!(BangumiProvider::subject_to_metadata(&movie).status, s("Unknown"));
}

#[test]
fn bangumi_durations() {
    assert_eq!(BangumiProvider::parse_duration(&s("24:00")), Some(24));
    assert_eq!(BangumiProvider::parse_duration(&s("24分")), Some(24));
    assert_eq!(BangumiProvider::parse_duration(&s("00:23:40")), Some(0));
    assert_eq!(BangumiProvider::parse_duration(&s("24m:00")), None);
    assert_eq!(BangumiProvider::parse_duration(&s(":30")), None);
    assert_eq!(BangumiProvider::parse_duration(&s("约24分")), None);
    assert_eq!(BangumiProvider::parse_duration(&s("")), None);
    assert_eq!(BangumiProvider::parse_duration(&s("99999999999")), None);
    assert_eq!(BangumiProvider::parse_duration(&s("+5:00")), Some(5));
    assert_eq!(BangumiProvider::parse_duration(&s("+5")), None);
    assert_eq!(BangumiProvider::parse_duration(&None), None);
}

#[test]
fn bangumi_requests() {
    assert_eq!(
        BangumiProvider::search_endpoint("葬送 Frieren!", &SearchOptions::new()),
        "/search/subject/%E8%91%AC%E9%80%81%20Frieren%21?type=2&responseGroup=small&max_results=20"
    );
    assert_eq!(
        BangumiProvider::search_endpoint("a-b_c.d~e/f", &SearchOptions::new().with_limit(5)),
        "/search/subject/a-b_c.d~e%2Ff?type=2&responseGroup=small&max_results=5"
    );
    assert_eq!(BangumiProvider::get_metadata("400602"), "/v0/subjects/400602");
    assert_eq!(
        BangumiProvider::episodes_endpoint("400602"),
        "/v0/episodes?subject_id=400602&type=0&limit=100"
    );
}

#[test]
fn bangumi_search() {
    let list = vec![
        subject(1, "A", None, Some("2023-01-01")),
        subject(2, "B", None, Some("2022-01-01")),
        subject(3, "C", None, None),
        subject(4, "D", None, Some("2023")),
    ];
    let response = bangumi::SearchResponse { list: Some(list), results: Some(4) };
    let all = BangumiProvider::search("q", &SearchOptions::new(), &response).unwrap();
    assert_eq!(all.len(), 4);
    let in_2023 = BangumiProvider::search("q", &SearchOptions::new().with_year(Some(2023)), &response).unwrap();
    assert_eq!(in_2023.iter().map(|i| i.id.as_str()).collect::<Vec<_>>(), vec!["1", "4"]);
    match BangumiProvider::search("q", &SearchOptions::new().with_year(Some(1999)), &response) {
        Err(ScraperError::NotFound(m)) => assert_eq!(m, "No results found for: q"),
        other => panic!("{:?}", other),
    }
    let none = bangumi::SearchResponse { list: None, results: None };
    assert!(matches!(
        BangumiProvider::search("q", &SearchOptions::new(), &none),
        Err(ScraperError::NotFound(_))
    ));
    let empty = bangumi::SearchResponse { list: Some(vec![]), results: Some(0) };
    assert!(BangumiProvider::search("q", &SearchOptions::new(), &empty).is_err());
}

fn episode(id: i32, sort: i64, ep: Option<i64>) -> bangumi::Episode {
    bangumi::Episode {
        id,
        episode_type: 0,
        name: s("name"),
        name_cn: s("中文"),
        sort,
        ep,
        airdate: s("2023-09-29"),
        duration: s("00:24:00"),
        desc: s("desc"),
    }
}

#[test]
fn bangumi_episodes() {
    let response = bangumi::EpisodesResponse {
        data: vec![
            episode(10, 1000, Some(1000)),
            episode(11, 2500, Some(2000)),
            episode(12, 2000, None),
            episode(13, 29_000, Some(1000)),
        ],
        total: 4,
    };
    let e = BangumiProvider::get_episode(1, &response).unwrap();
    assert_eq!(e.id, "10");
    assert_eq!(e.title, "中文");
    assert_eq!((e.season, e.episode, e.absolute_number), (1, 1, Some(1)));
    assert_eq!(e.air_date, s("2023-09-29"));
    assert_eq!(e.overview, s("desc"));
    assert_eq!(e.runtime, Some(0));
    assert_eq!((e.rating, e.still_url.clone()), (None, None));
    assert_eq!(e.provider, "bangumi");
    let e = BangumiProvider::get_episode(2, &response).unwrap();
    assert_eq!(e.id, "11");
    assert_eq!((e.episode, e.absolute_number), (2, Some(2)));
    let e = BangumiProvider::get_episode(29, &response).unwrap();
    assert_eq!(e.id, "13");
    assert_eq!((e.episode, e.absolute_number), (1, Some(29)));
    match BangumiProvider::get_episode(-3, &response) {
        Err(ScraperError::NotFound(m)) => assert_eq!(m, "Episode -3 not found"),
        other => panic!("{:?}", other),
    }
    let mut unnamed = episode(20, 5000, None);
    unnamed.name_cn = s("");
    let e = BangumiProvider::get_episode(5, &bangumi::EpisodesResponse { data: vec![unnamed], total: 1 }).unwrap();
    assert_eq!(e.title, "name");
    assert_eq!(e.episode, 5);
    let mut nameless = episode(21, -1500, None);
    nameless.name_cn = None;
    nameless.name = None;
    nameless.duration = None;
    let e = BangumiProvider::get_episode(-1, &bangumi::EpisodesResponse { data: vec![nameless], total: 1 }).unwrap();
    assert_eq!(e.title, "Episode -1");
    assert_eq!(e.runtime, None);
    let huge = episode(22, i64::MAX, Some(i64::MIN));
    let e = BangumiProvider::get_episode(i32::MAX, &bangumi::EpisodesResponse { data: vec![huge], total: 1 }).unwrap();
    assert_eq!((e.episode, e.absolute_number), (i32::MIN, Some(i32::MAX)));
}
