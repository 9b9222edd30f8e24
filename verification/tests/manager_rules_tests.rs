use ayiah::error::ScraperError;
use ayiah::manager::{
    create_default_manager, hint_for, media_type_of, LookupStep, MetadataStep,
    ScraperConfig, ScraperManager, SearchStep,
};
use ayiah::matcher::Confidence;
use ayiah::order::{order_by_priority, rank_indices};
use ayiah::parser::{MediaHint, ParsedMedia};
use ayiah::provider::{AniListProvider, BangumiProvider, TmdbProvider};
use ayiah::types::{MediaInfo, MediaMetadata, MediaType};
use std::path::PathBuf;

fn candidates(provider: &str, titles: &[&str]) -> Vec<MediaInfo> {
    titles
        .iter()
        .enumerate()
        .map(|(i, t)| MediaInfo::new(&i.to_string(), t, provider).with_type(MediaType::Anime))
        .collect()
}

fn tmdb_and_anilist(config: ScraperConfig) -> ScraperManager {
    let mut manager = ScraperManager::with_config(config);
    manager.add_provider(TmdbProvider::new("key"));
    manager.add_provider(AniListProvider::new());
    manager
}

fn not_found() -> ScraperError {
    ScraperError::NotFound("nothing".to_string())
}

#[test]
fn providers_are_asked_by_priority() {
    assert_eq!(order_by_priority(&vec![100, 0, 0]), vec![0, 1, 2]);
    assert_eq!(order_by_priority(&vec![30, 100, 80]), vec![1, 2, 0]);
    assert_eq!(order_by_priority(&vec![50, 0, 0, 50, 70]), vec![4, 0, 3, 1, 2]);
    assert_eq!(order_by_priority(&vec![]), Vec::<usize>::new());
    assert_eq!(order_by_priority(&vec![-1, i32::MAX, i32::MIN]), vec![1, 0, 2]);
    assert_eq!(rank_indices(&vec![i128::MIN, i128::MAX, 0, 0]), vec![1, 2, 3, 0]);
}

#[test]
fn anilist_is_consulted_first_for_anime() {
    let mut manager = tmdb_and_anilist(ScraperConfig { max_results: 3, ..Default::default() });
    let mut run = manager.search_all("Frieren", None, MediaHint::Anime);
    assert_eq!(run.query(), "Frieren");
    assert_eq!(run.year(), None);
    assert_eq!(run.options().media_type, Some(MediaType::Anime));
    assert_eq!(run.options().limit, Some(3));
    assert_eq!(manager.advance_search(&mut run), SearchStep::Ask { provider: 1 });
    manager.accept_search(&mut run, Ok(candidates("anilist", &["A1", "A2"])));
    assert_eq!(manager.advance_search(&mut run), SearchStep::Ask { provider: 0 });
    manager.accept_search(&mut run, Ok(candidates("tmdb", &["T1", "T2"])));
    assert_eq!(manager.advance_search(&mut run), SearchStep::Done);
    let found = manager.finish_search(run).unwrap();
    let titles: Vec<&str> = found.iter().map(|c| c.title.as_str()).collect();
    assert_eq!(titles, vec!["A1", "A2", "T1"]);
}

#[test]
fn tmdb_is_consulted_first_for_movies_and_unknown() {
    let manager = tmdb_and_anilist(ScraperConfig::default());
    let mut run = manager.search_all("x", Some(1999), MediaHint::Movie);
    assert_eq!(run.options().year, Some(1999));
    assert_eq!(run.options().limit, Some(20));
    assert_eq!(manager.advance_search(&mut run), SearchStep::Ask { provider: 0 });
    let mut run = manager.search_all("x", None, MediaHint::Unknown);
    assert_eq!(run.options().media_type, None);
    assert_eq!(manager.advance_search(&mut run), SearchStep::Ask { provider: 0 });
    let mut run = manager.search("x", None, Some(MediaType::Tv));
    assert_eq!(run.options().media_type, Some(MediaType::Tv));
    assert_eq!(manager.advance_search(&mut run), SearchStep::Ask { provider: 0 });
    let mut run = manager.search("x", None, Some(MediaType::Unknown));
    assert_eq!(run.options().media_type, None);
    assert_eq!(manager.advance_search(&mut run), SearchStep::Ask { provider: 0 });
}

#[test]
fn language_of_the_configuration_goes_into_the_options() {
    let manager = tmdb_and_anilist(ScraperConfig {
        language: Some("zh-CN".to_string()),
        ..Default::default()
    });
    let run = manager.search_all("x", None, MediaHint::Unknown);
    assert_eq!(run.options().language, Some("zh-CN".to_string()));
}

#[test]
fn search_fails_where_every_provider_fails_or_finds_nothing() {
    let mut manager = tmdb_and_anilist(ScraperConfig::default());
    let mut run = manager.search_all("Nothing", None, MediaHint::Movie);
    assert_eq!(manager.advance_search(&mut run), SearchStep::Ask { provider: 0 });
    manager.accept_search(&mut run, Err(not_found()));
    assert_eq!(manager.advance_search(&mut run), SearchStep::Ask { provider: 1 });
    manager.accept_search(&mut run, Err(ScraperError::Network("down".to_string())));
    assert_eq!(manager.advance_search(&mut run), SearchStep::Done);
    match manager.finish_search(run) {
        Err(ScraperError::NotFound(m)) => assert_eq!(m, "No results found for: Nothing"),
        other => panic!("{:?}", other),
    }
    let empty = ScraperManager::new();
    let mut run = empty.search_all("q", None, MediaHint::Unknown);
    assert_eq!(empty.advance_search(&mut run), SearchStep::Done);
    assert!(matches!(empty.finish_search(run), Err(ScraperError::NotFound(_))));
}

#[test]
fn one_answer_is_enough() {
    let mut manager = tmdb_and_anilist(ScraperConfig { max_results: 20, ..Default::default() });
    let mut run = manager.search_all("q", None, MediaHint::Movie);
    manager.advance_search(&mut run);
    manager.accept_search(&mut run, Err(not_found()));
    manager.advance_search(&mut run);
    manager.accept_search(&mut run, Ok(candidates("anilist", &["A1", "A2", "A3"])));
    assert_eq!(manager.advance_search(&mut run), SearchStep::Done);
    assert_eq!(manager.finish_search(run).unwrap().len(), 3);
}

#[test]
fn results_are_cut_off_after_max_results() {
    let mut manager = tmdb_and_anilist(ScraperConfig { max_results: 1, ..Default::default() });
    let mut run = manager.search_all("q", None, MediaHint::Movie);
    manager.advance_search(&mut run);
    manager.accept_search(&mut run, Ok(candidates("tmdb", &["T1", "T2"])));
    manager.advance_search(&mut run);
    manager.accept_search(&mut run, Ok(candidates("anilist", &["A1"])));
    manager.advance_search(&mut run);
    let found = manager.finish_search(run).unwrap();
    assert_eq!(found.len(), 1);
    assert_eq!(found[0].title, "T1");
    let mut none = tmdb_and_anilist(ScraperConfig { max_results: 0, ..Default::default() });
    let mut run = none.search_all("q", None, MediaHint::Movie);
    none.advance_search(&mut run);
    none.accept_search(&mut run, Ok(candidates("tmdb", &["T1"])));
    none.advance_search(&mut run);
    none.accept_search(&mut run, Err(not_found()));
    none.advance_search(&mut run);
    assert_eq!(none.finish_search(run).unwrap().len(), 0);
}

#[test]
fn cached_answers_are_not_asked_for_again() {
    let mut manager = tmdb_and_anilist(ScraperConfig::default());
    let mut run = manager.search_all("Frieren", Some(2023), MediaHint::Anime);
    assert_eq!(manager.advance_search(&mut run), SearchStep::Ask { provider: 1 });
    manager.accept_search(&mut run, Ok(candidates("anilist", &["A1"])));
    assert_eq!(manager.advance_search(&mut run), SearchStep::Ask { provider: 0 });
    manager.accept_search(&mut run, Err(not_found()));
    assert_eq!(manager.advance_search(&mut run), SearchStep::Done);
    assert_eq!(manager.finish_search(run).unwrap().len(), 1);

    let mut again = manager.search_all("FRIEREN", Some(2023), MediaHint::Anime);
    assert_eq!(manager.advance_search(&mut again), SearchStep::Ask { provider: 0 });
    manager.accept_search(&mut again, Ok(candidates("tmdb", &["T1"])));
    assert_eq!(manager.advance_search(&mut again), SearchStep::Done);
    let found = manager.finish_search(again).unwrap();
    let titles: Vec<&str> = found.iter().map(|c| c.title.as_str()).collect();
    assert_eq!(titles, vec!["A1", "T1"]);

    let mut other_year = manager.search_all("Frieren", None, MediaHint::Anime);
    assert_eq!(manager.advance_search(&mut other_year), SearchStep::Ask { provider: 1 });

    manager.clear_cache();
    let mut cleared = manager.search_all("Frieren", Some(2023), MediaHint::Anime);
    assert_eq!(manager.advance_search(&mut cleared), SearchStep::Ask { provider: 1 });
}

#[test]
fn without_caching_every_provider_is_asked() {
    let mut manager = tmdb_and_anilist(ScraperConfig { use_cache: false, ..Default::default() });
    for _ in 0..2 {
        let mut run = manager.search_all("q", None, MediaHint::Anime);
        assert_eq!(manager.advance_search(&mut run), SearchStep::Ask { provider: 1 });
        manager.accept_search(&mut run, Ok(candidates("anilist", &["A1"])));
        assert_eq!(manager.advance_search(&mut run), SearchStep::Ask { provider: 0 });
        manager.accept_search(&mut run, Ok(candidates("tmdb", &["T1"])));
        assert_eq!(manager.advance_search(&mut run), SearchStep::Done);
        assert_eq!(manager.finish_search(run).unwrap().len(), 2);
    }
}

fn metadata(id: &str, title: &str) -> MediaMetadata {
    MediaMetadata {
        id: id.to_string(),
        title: title.to_string(),
        provider: "anilist".to_string(),
        ..Default::default()
    }
}

#[test]
fn metadata_is_fetched_once_and_then_cached() {
    let mut manager = tmdb_and_anilist(ScraperConfig::default());
    let info = MediaInfo::new("154587", "Frieren", "anilist");
    match manager.get_metadata(&info) {
        MetadataStep::Ask { provider } => assert_eq!(provider, 1),
        other => panic!("{:?}", other),
    }
    let fetched = manager.accept_metadata(&info, Ok(metadata("154587", "Sousou no Frieren")));
    assert_eq!(fetched.unwrap().title, "Sousou no Frieren");
    match manager.get_metadata(&info) {
        MetadataStep::Done(Ok(m)) => assert_eq!(m.title, "Sousou no Frieren"),
        other => panic!("{:?}", other),
    }
    let other = MediaInfo::new("1", "Other", "anilist");
    assert!(matches!(manager.get_metadata(&other), MetadataStep::Ask { provider: 1 }));
    let failed = manager.accept_metadata(&other, Err(not_found()));
    assert!(matches!(failed, Err(ScraperError::NotFound(_))));
    assert!(matches!(manager.get_metadata(&other), MetadataStep::Ask { provider: 1 }));
}

#[test]
fn metadata_is_not_cached_where_caching_is_off() {
    let mut manager = tmdb_and_anilist(ScraperConfig { use_cache: false, ..Default::default() });
    let info = MediaInfo::new("603", "The Matrix", "tmdb");
    assert!(matches!(manager.get_metadata(&info), MetadataStep::Ask { provider: 0 }));
    assert!(manager.accept_metadata(&info, Ok(metadata("603", "The Matrix"))).is_ok());
    assert!(matches!(manager.get_metadata(&info), MetadataStep::Ask { provider: 0 }));
}

#[test]
fn unknown_provider_is_a_configuration_error() {
    let manager = tmdb_and_anilist(ScraperConfig::default());
    let info = MediaInfo::new("1", "X", "imdb");
    match manager.get_metadata(&info) {
        MetadataStep::Done(Err(ScraperError::Config(m))) => {
            assert_eq!(m, "Provider not found: imdb")
        }
        other => panic!("{:?}", other),
    }
    match manager.get_episode("bangumi") {
        Err(ScraperError::Config(m)) => assert_eq!(m, "Provider not found: bangumi"),
        other => panic!("{:?}", other),
    }
    assert_eq!(manager.get_episode("anilist").unwrap(), 1);
    assert_eq!(manager.find_provider("tmdb"), Some(0));
    assert_eq!(manager.find_provider("TMDB"), None);
}

#[test]
fn first_provider_of_an_identifier_is_found() {
    let mut manager = ScraperManager::new();
    manager.add_provider(AniListProvider::new());
    manager.add_provider(BangumiProvider::new());
    manager.add_provider(AniListProvider::new());
    assert_eq!(manager.find_provider("anilist"), Some(0));
    assert_eq!(manager.find_provider("bangumi"), Some(1));
}

#[test]
fn lookup_by_external_identifier_stops_at_the_first_candidate() {
    let manager = create_default_manager(Some("key"));
    assert!(matches!(manager.find_by_external_id(0, None), LookupStep::Ask { provider: 0 }));
    assert!(matches!(
        manager.find_by_external_id(1, Some(Ok(None))),
        LookupStep::Ask { provider: 1 }
    ));
    assert!(matches!(
        manager.find_by_external_id(2, Some(Err(not_found()))),
        LookupStep::Ask { provider: 2 }
    ));
    match manager.find_by_external_id(2, Some(Ok(Some(MediaInfo::new("1", "Found", "anilist"))))) {
        LookupStep::Done(Some(info)) => assert_eq!(info.title, "Found"),
        other => panic!("{:?}", other),
    }
    assert!(matches!(manager.find_by_external_id(3, Some(Ok(None))), LookupStep::Done(None)));
    assert!(matches!(
        manager.find_by_external_id(3, Some(Err(not_found()))),
        LookupStep::Done(None)
    ));
    let empty = ScraperManager::new();
    assert!(matches!(empty.find_by_external_id(0, None), LookupStep::Done(None)));
}

fn parsed(title: &str, year: Option<i32>, hint: MediaHint) -> ParsedMedia {
    ParsedMedia {
        title: title.to_string(),
        original_title: title.to_string(),
        year,
        hint,
        ..Default::default()
    }
}

#[test]
fn scrape_chooses_the_best_candidate() {
    let manager = ScraperManager::new();
    let p = parsed("The Matrix", Some(1999), MediaHint::Movie);
    let run = manager.scrape_parsed(&p);
    assert_eq!(run.query(), "The Matrix");
    assert_eq!(run.year(), Some(1999));
    let found = vec![
        MediaInfo::new("2", "The Matrix", "tmdb").with_type(MediaType::Movie).with_year(Some(2021)),
        MediaInfo::new("1", "The Matrix", "tmdb").with_type(MediaType::Movie).with_year(Some(1999)),
    ];
    let best = ScraperManager::choose_match(Ok(found), &p).unwrap();
    assert_eq!(best.info.id, "1");
    assert_eq!(best.score, 95);
    assert!(manager.wants_metadata(&best));
    let result = ScraperManager::finish_scrape(best, Some(Ok(metadata("1", "The Matrix"))), &p);
    assert_eq!(result.info.id, "1");
    assert_eq!(result.score, 95);
    assert_eq!(result.confidence, Confidence::Exact);
    assert_eq!(result.metadata.unwrap().title, "The Matrix");
    assert_eq!(result.parsed.title, "The Matrix");
}

#[test]
fn scrape_goes_on_without_metadata() {
    let p = parsed("The Matrix", Some(1999), MediaHint::Movie);
    let weak = vec![MediaInfo::new("9", "Matrix Reloaded", "tmdb").with_type(MediaType::Movie)];
    let best = ScraperManager::choose_match(Ok(weak), &p).unwrap();
    let strict = ScraperManager::with_config(ScraperConfig {
        min_confidence: Confidence::Exact,
        ..Default::default()
    });
    assert!(!strict.wants_metadata(&best));
    let lenient = ScraperManager::with_config(ScraperConfig {
        min_confidence: Confidence::NoMatch,
        ..Default::default()
    });
    assert!(lenient.wants_metadata(&best));
    let result = ScraperManager::finish_scrape(best.clone(), Some(Err(not_found())), &p);
    assert!(result.metadata.is_none());
    assert_eq!(result.info.id, "9");
    let result = ScraperManager::finish_scrape(best, None, &p);
    assert!(result.metadata.is_none());
}

#[test]
fn scrape_fails_where_the_search_fails_or_finds_nothing() {
    let p = parsed("The Matrix", Some(1999), MediaHint::Movie);
    match ScraperManager::choose_match(Ok(Vec::new()), &p) {
        Err(ScraperError::NotFound(m)) => assert_eq!(m, "No results found for: The Matrix"),
        other => panic!("{:?}", other),
    }
    match ScraperManager::choose_match(Err(ScraperError::Network("down".to_string())), &p) {
        Err(ScraperError::Network(m)) => assert_eq!(m, "down"),
        other => panic!("{:?}", other),
    }
}

#[test]
fn scrape_of_a_path_parses_it_first() {
    let manager = create_default_manager(None);
    let (parsed, run) = manager.scrape(&PathBuf::from("/media/The.Matrix.1999.1080p.mkv"));
    assert_eq!(parsed.title, "The Matrix");
    assert_eq!(run.query(), "The Matrix");
    assert_eq!(run.year(), Some(1999));
    assert_eq!(run.options().media_type, Some(MediaType::Movie));
}

#[test]
fn ranking_of_search_results_for_a_plain_query() {
    let found = vec![
        MediaInfo::new("1", "Other", "tmdb").with_type(MediaType::Tv),
        MediaInfo::new("2", "Breaking Bad", "tmdb").with_type(MediaType::Tv),
    ];
    let ranked = ScraperManager::search_ranked(found, "Breaking Bad", None, Some(MediaType::Tv));
    assert_eq!(ranked[0].info.id, "2");
    assert_eq!(ranked[0].score, 40 + 10 + 20 + 9 + 5);
    assert_eq!(ranked[1].score, 0 + 10 + 20 + 9 + 5);
}

#[test]
fn hints_and_kinds() {
    assert_eq!(media_type_of(MediaHint::Movie), Some(MediaType::Movie));
    assert_eq!(media_type_of(MediaHint::TvShow), Some(MediaType::Tv));
    assert_eq!(media_type_of(MediaHint::Anime), Some(MediaType::Anime));
    assert_eq!(media_type_of(MediaHint::Unknown), None);
    assert_eq!(hint_for(Some(MediaType::Movie)), MediaHint::Movie);
    assert_eq!(hint_for(Some(MediaType::Tv)), MediaHint::TvShow);
    assert_eq!(hint_for(Some(MediaType::Anime)), MediaHint::Anime);
    assert_eq!(hint_for(Some(MediaType::Unknown)), MediaHint::Unknown);
    assert_eq!(hint_for(None), MediaHint::Unknown);
}

#[test]
fn default_manager_lists_its_providers_in_order() {
    let manager = create_default_manager(Some("key"));
    let ids: Vec<&str> = manager.providers().iter().map(|p| p.id.as_str()).collect();
    assert_eq!(ids, vec!["tmdb", "anilist", "bangumi"]);
    let tmdb = &manager.providers()[0];
    assert_eq!(tmdb.name, "The Movie Database");
    assert!(tmdb.requires_api_key);
    assert_eq!(tmdb.supported_types, vec![MediaType::Movie, MediaType::Tv]);
    assert_eq!(tmdb.priority_for(MediaType::Movie), 100);
    assert_eq!(tmdb.priority_for(MediaType::Tv), 90);
    assert_eq!(tmdb.priority_for(MediaType::Anime), 30);
    assert_eq!(tmdb.priority_for(MediaType::Unknown), 50);
    let anilist = &manager.providers()[1];
    assert!(!anilist.requires_api_key);
    assert_eq!(anilist.priority_for(MediaType::Movie), 0);
    assert_eq!(anilist.priority_for(MediaType::Tv), 20);
    assert_eq!(anilist.priority_for(MediaType::Anime), 100);
    let bangumi = &manager.providers()[2];
    assert_eq!(bangumi.name, "Bangumi");
    assert_eq!(bangumi.priority_for(MediaType::Anime), 80);
    assert_eq!(bangumi.priority_for(MediaType::Tv), 0);
    assert_eq!(bangumi.supported_types, vec![MediaType::Anime]);
}
