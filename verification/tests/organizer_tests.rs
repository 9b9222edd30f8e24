use ayiah::library::{
    accept_match, check_folder, FileScannerError, MetadataAgentError, classify_entry, detect_disc_indicator, extract_title, get_supported_extensions,
    is_inside_disc_structure, DiscType, Entry, LibraryKind, Recorded, ScanResult, Scanner,
};
use ayiah::organizer::{
    has_video_extension, default_true, organize_message, NamingTemplate, OrganizeRequest, PreviewRequest, TemplateConfig,
    build_target_path, format_template, is_video_file, plan_placement, sanitize_filename,
    OrganizeMethod, OrganizerConfig, Placement,
};
use ayiah::parser::{MediaHint, ParsedMedia};
use ayiah::types::{parse_media_type, MediaMetadata, MediaType};
use std::path::{Path, PathBuf};

#[test]
fn test_sanitize_filename() {
    assert_eq!(sanitize_filename("Movie: The Title"), "Movie_ The Title");
    assert_eq!(sanitize_filename("What?"), "What_");
    assert_eq!(sanitize_filename("A/B\\C"), "A_B_C");
    assert_eq!(sanitize_filename("  spaces  "), "spaces");
}

#[test]
fn test_format_template() {
    assert_eq!(
        format_template("{title} ({year})", "The Matrix", Some(1999), None, None),
        "The Matrix (1999)"
    );

    assert_eq!(
        format_template(
            "{title} - S{season:02}E{episode:02}",
            "Breaking Bad",
            None,
            Some(1),
            Some(5)
        ),
        "Breaking Bad - S01E05"
    );

    // No year
    assert_eq!(
        format_template("{title} ({year})", "Unknown Movie", None, None, None),
        "Unknown Movie"
    );
}

#[test]
fn test_organize_method_parse() {
    assert_eq!(
        "symlink".parse::<OrganizeMethod>().unwrap(),
        OrganizeMethod::Symlink
    );
    assert_eq!(
        "hard".parse::<OrganizeMethod>().unwrap(),
        OrganizeMethod::Hardlink
    );
    assert_eq!(
        "move".parse::<OrganizeMethod>().unwrap(),
        OrganizeMethod::Move
    );
    assert_eq!(
        "copy".parse::<OrganizeMethod>().unwrap(),
        OrganizeMethod::Copy
    );
}

#[test]
fn test_detect_disc_indicator() {
    assert_eq!(detect_disc_indicator("index.bdmv"), Some(DiscType::BluRay));
    assert_eq!(
        detect_disc_indicator("movieobject.bdmv"),
        Some(DiscType::BluRay)
    );
    assert_eq!(detect_disc_indicator("video_ts.ifo"), Some(DiscType::Dvd));
    assert!(detect_disc_indicator("random.mkv").is_none());
}

#[test]
fn test_is_inside_disc_structure() {
    let bluray_path = Path::new("Movie")
        .join("BDMV")
        .join("STREAM")
        .join("00001.m2ts");
    assert!(is_inside_disc_structure(&bluray_path));

    let dvd_path = Path::new("Movie").join("VIDEO_TS").join("VIDEO_TS.IFO");
    assert!(is_inside_disc_structure(&dvd_path));

    let regular_file = Path::new("Movie.mkv");
    assert!(!is_inside_disc_structure(&regular_file.to_path_buf()));
}

#[test]
fn organize_method_names_and_unknown_method() {
    assert_eq!("SOFT".parse::<OrganizeMethod>().unwrap(), OrganizeMethod::Symlink);
    assert_eq!("Sym".parse::<OrganizeMethod>().unwrap(), OrganizeMethod::Symlink);
    assert_eq!("hardlink".parse::<OrganizeMethod>().unwrap(), OrganizeMethod::Hardlink);
    assert_eq!("mv".parse::<OrganizeMethod>().unwrap(), OrganizeMethod::Move);
    assert_eq!("cp".parse::<OrganizeMethod>().unwrap(), OrganizeMethod::Copy);
    assert_eq!("teleport".parse::<OrganizeMethod>(), Err("Unknown method: teleport".to_string()));
    assert_eq!(OrganizeMethod::default(), OrganizeMethod::Symlink);
    assert_eq!(OrganizeMethod::Hardlink.to_string(), "hardlink");
    assert_eq!(OrganizeMethod::Symlink.to_string(), "symlink");
    assert_eq!(OrganizeMethod::Move.to_string(), "move");
    assert_eq!(OrganizeMethod::Copy.to_string(), "copy");
}

#[test]
fn sanitize_trims_dots_and_squeezes_runs() {
    assert_eq!(sanitize_filename("..hidden.."), "hidden");
    assert_eq!(sanitize_filename(" . name . "), " name ");
    assert_eq!(sanitize_filename("a    b"), "a b");
    assert_eq!(sanitize_filename("a::b"), "a_b");
    assert_eq!(sanitize_filename("a<>|\"*b"), "a_b");
    assert_eq!(sanitize_filename(""), "");
    assert_eq!(sanitize_filename("Fate/stay night: UBW"), "Fate_stay night_ UBW");
}

#[test]
fn format_template_replaces_in_order() {
    assert_eq!(format_template("{year}", "T", None, None, None), "");
    assert_eq!(format_template("x({year})y", "T", None, None, None), "xy");
    assert_eq!(
        format_template("Season {season:02} / {season}", "T", None, Some(3), None),
        "Season 03 / 3"
    );
    assert_eq!(
        format_template("{title}{title}", "{year}", Some(2001), None, None),
        "20012001"
    );
    assert_eq!(format_template("E{episode:02}", "T", None, None, Some(123)), "E123");
    assert_eq!(format_template("E{episode:02}", "T", None, None, Some(-5)), "E-5");
    assert_eq!(format_template("{season}", "T", None, None, None), "{season}");
}

fn parsed(title: &str, year: Option<i32>, hint: MediaHint) -> ParsedMedia {
    ParsedMedia {
        title: title.to_string(),
        original_title: title.to_string(),
        year,
        hint,
        ..Default::default()
    }
}

#[test]
fn target_path_of_a_movie() {
    let config = OrganizerConfig::default();
    let p = parsed("The Matrix", Some(1999), MediaHint::Movie);
    let path = build_target_path(&config, Some("mp4"), &p, None);
    assert_eq!(path, vec!["Movies", "The Matrix (1999)", "The Matrix (1999).mp4"]);
}

#[test]
fn target_path_of_an_episode_uses_metadata_and_defaults() {
    let mut config = OrganizerConfig::default();
    let mut p = parsed("frieren", None, MediaHint::Anime);
    p.season = None;
    p.episode = Some(7);
    let metadata = MediaMetadata {
        title: "Sousou no Frieren".to_string(),
        media_type: MediaType::Anime,
        release_date: Some("2023-09-29".to_string()),
        ..Default::default()
    };
    let path = build_target_path(&config, None, &p, Some(&metadata));
    assert_eq!(
        path,
        vec![
            "Anime",
            "Sousou no Frieren (2023)",
            "Season 01",
            "Sousou no Frieren - S01E07.mkv"
        ]
    );
    config.separate_by_type = false;
    let unknown = parsed("Some: Thing", None, MediaHint::Unknown);
    let path = build_target_path(&config, Some("avi"), &unknown, None);
    assert_eq!(path, vec!["Some_ Thing", "Season 01", "Some_ Thing - S01E01.avi"]);
    config.separate_by_type = true;
    let path = build_target_path(&config, Some("avi"), &unknown, None);
    assert_eq!(path[0], "Other");
    let tv = parsed("Show", Some(2020), MediaHint::TvShow);
    assert_eq!(build_target_path(&config, Some("mkv"), &tv, None)[0], "TV Shows");
}

#[test]
fn placement_of_a_file() {
    let mut config = OrganizerConfig::default();
    assert_eq!(plan_placement(&config, false), Placement::Place);
    assert_eq!(plan_placement(&config, true), Placement::Refuse);
    config.overwrite = true;
    assert_eq!(plan_placement(&config, true), Placement::Replace);
    assert_eq!(plan_placement(&config, false), Placement::Place);
}

#[test]
fn video_files_by_extension() {
    assert!(is_video_file(&PathBuf::from("a/b/movie.MKV")));
    assert!(is_video_file(&PathBuf::from("movie.mpeg")));
    assert!(!is_video_file(&PathBuf::from("movie.iso")));
    assert!(!is_video_file(&PathBuf::from("movie.srt")));
    assert!(!is_video_file(&PathBuf::from("movie")));
}

#[test]
fn organizer_config_default() {
    let config = OrganizerConfig::default();
    assert_eq!(config.source_dir, "");
    assert_eq!(config.target_dir, "");
    assert_eq!(config.method, OrganizeMethod::Symlink);
    assert!(config.separate_by_type);
    assert!(!config.dry_run);
    assert!(!config.overwrite);
    assert_eq!(config.template.movie_folder, "{title} ({year})");
    assert_eq!(config.template.movie_file, "{title} ({year})");
    assert_eq!(config.template.tv_folder, "{title} ({year})");
    assert_eq!(config.template.season_folder, "Season {season:02}");
    assert_eq!(config.template.episode_file, "{title} - S{season:02}E{episode:02}");
}

#[test]
fn disc_indicator_ignores_ascii_case_only() {
    assert_eq!(detect_disc_indicator("INDEX.BDMV"), Some(DiscType::BluRay));
    assert_eq!(detect_disc_indicator("Video_TS.IFO"), Some(DiscType::Dvd));
    assert_eq!(detect_disc_indicator("index.bdmv "), None);
    assert_eq!(detect_disc_indicator(""), None);
}

#[test]
fn disc_structure_by_any_component() {
    assert!(is_inside_disc_structure(&PathBuf::from("bdmv/x.m2ts")));
    assert!(is_inside_disc_structure(&PathBuf::from("a/video_ts")));
    assert!(!is_inside_disc_structure(&PathBuf::from("a/BDMV2/x.m2ts")));
    assert!(!is_inside_disc_structure(&PathBuf::from("")));
    assert!(Scanner::is_inside_disc_structure(&PathBuf::from("Movie/BDMV/index.bdmv")));
}

#[test]
fn titles_from_paths() {
    assert_eq!(extract_title(&PathBuf::from("/media/The Matrix (1999).mkv")), "The Matrix (1999)");
    assert_eq!(extract_title(&PathBuf::from("/media/Movie")), "Movie");
    assert_eq!(extract_title(&PathBuf::from("/")), "Unknown");
}

#[test]
fn supported_extensions_by_kind() {
    let video = get_supported_extensions(LibraryKind::Movie);
    assert_eq!(video, get_supported_extensions(LibraryKind::Tv));
    assert_eq!(video.len(), 13);
    assert!(video.contains(&"iso"));
    assert!(!video.contains(&"rmvb"));
    assert_eq!(get_supported_extensions(LibraryKind::Comic), vec!["cbz", "cbr", "cb7", "cbt", "pdf"]);
    assert_eq!(get_supported_extensions(LibraryKind::Book), vec!["epub", "mobi", "azw3", "pdf"]);
}

#[test]
fn entries_of_a_library_scan() {
    let name = |s: &str| Some(s.to_string());
    assert_eq!(classify_entry(LibraryKind::Movie, &name("index.bdmv"), &name("bdmv"), true), Entry::DiscRoot);
    assert_eq!(classify_entry(LibraryKind::Movie, &name("00001.m2ts"), &name("m2ts"), true), Entry::Skip);
    assert_eq!(classify_entry(LibraryKind::Movie, &name("a.MKV"), &name("MKV"), false), Entry::Media);
    assert_eq!(classify_entry(LibraryKind::Movie, &name("a.cbz"), &name("cbz"), false), Entry::Skip);
    assert_eq!(classify_entry(LibraryKind::Comic, &name("a.cbz"), &name("cbz"), false), Entry::Media);
    assert_eq!(classify_entry(LibraryKind::Book, &name("README"), &None, false), Entry::Skip);
    assert_eq!(classify_entry(LibraryKind::Book, &None, &name("epub"), false), Entry::Media);
}

#[test]
fn entries_of_a_plain_scan() {
    let ext = |s: &str| Some(s.to_string());
    assert_eq!(Scanner::classify("Index.BDMV", &ext("BDMV"), true), Entry::DiscRoot);
    assert_eq!(Scanner::classify("video_ts.ifo", &ext("ifo"), false), Entry::DiscRoot);
    assert_eq!(Scanner::classify("movie.rmvb", &ext("rmvb"), false), Entry::Media);
    assert_eq!(Scanner::classify("movie.mpg", &ext("mpg"), false), Entry::Skip);
    assert_eq!(Scanner::classify("00001.m2ts", &ext("m2ts"), true), Entry::Skip);
    assert_eq!(Scanner::classify("notes", &None, false), Entry::Skip);
    assert_eq!(Scanner::classify_path(&PathBuf::from("x/Movie/BDMV/index.bdmv")), Entry::DiscRoot);
    assert_eq!(Scanner::classify_path(&PathBuf::from("x/Movie/a.mkv")), Entry::Media);
}

#[test]
fn scan_result_counts() {
    let mut r = ScanResult::new();
    r.count_file();
    r.record(Recorded::Created);
    r.count_file();
    r.record(Recorded::Existing);
    r.count_file();
    r.record(Recorded::Failed);
    r.count_file();
    r.count_error();
    assert_eq!(r, ScanResult { total_files: 4, new_items: 1, existing_items: 1, errors: 2 });
    let mut full = ScanResult { total_files: usize::MAX, new_items: 0, existing_items: 0, errors: 0 };
    full.count_file();
    assert_eq!(full.total_files, usize::MAX);
    assert_eq!(ScanResult::failed(), ScanResult { total_files: 0, new_items: 0, existing_items: 0, errors: 1 });
}

#[test]
fn media_types_by_name() {
    assert_eq!(parse_media_type("movie"), Some(MediaType::Movie));
    assert_eq!(parse_media_type("TV"), Some(MediaType::Tv));
    assert_eq!(parse_media_type("TvShow"), Some(MediaType::Tv));
    assert_eq!(parse_media_type("series"), Some(MediaType::Tv));
    assert_eq!(parse_media_type("Anime"), Some(MediaType::Anime));
    assert_eq!(parse_media_type("unknown"), None);
    assert_eq!(parse_media_type(""), None);
    assert_eq!(MediaType::Tv.to_string(), "tv");
    assert_eq!(MediaType::Unknown.to_string(), "unknown");
    assert_eq!(MediaType::Movie.to_string(), "movie");
    assert_eq!(MediaType::Anime.to_string(), "anime");
    assert_eq!(MediaType::default(), MediaType::Unknown);
}

#[test]
fn folders_that_cannot_be_scanned() {
    assert!(check_folder("/media", true, true).is_ok());
    match check_folder("/media", false, false) {
        Err(FileScannerError::PathNotFound(p)) => assert_eq!(p, "/media"),
        other => panic!("{:?}", other),
    }
    match check_folder("/media", false, true) {
        Err(FileScannerError::PathNotFound(p)) => assert_eq!(p, "/media"),
        other => panic!("{:?}", other),
    }
    match check_folder("/media/a.mkv", true, false) {
        Err(FileScannerError::NotADirectory(p)) => assert_eq!(p, "/media/a.mkv"),
        other => panic!("{:?}", other),
    }
}

#[test]
fn library_kinds_and_accepted_matches() {
    assert_eq!(LibraryKind::Movie.media_type(), Some(MediaType::Movie));
    assert_eq!(LibraryKind::Tv.media_type(), Some(MediaType::Tv));
    assert_eq!(LibraryKind::Comic.media_type(), None);
    assert_eq!(LibraryKind::Book.media_type(), None);
    let p = parsed("The Matrix", Some(1999), MediaHint::Movie);
    let rank = |title: &str| {
        ayiah::matcher::Matcher::rank(
            vec![ayiah::types::MediaInfo::new("1", title, "tmdb").with_type(MediaType::Movie)],
            &p,
        )
    };
    assert_eq!(accept_match(rank("The Matrix")).unwrap().info.title, "The Matrix");
    assert!(matches!(
        accept_match(rank("Something Else")),
        Err(MetadataAgentError::NoMatchingResults)
    ));
    assert!(matches!(accept_match(Vec::new()), Err(MetadataAgentError::NoMatchingResults)));
}

fn templates() -> TemplateConfig {
    TemplateConfig {
        movie_folder: Some("{title}".to_string()),
        movie_file: None,
        tv_folder: None,
        season_folder: Some("S{season}".to_string()),
        episode_file: None,
    }
}

#[test]
fn configuration_of_a_request() {
    let request = OrganizeRequest {
        source: "/in".to_string(),
        target: "/out".to_string(),
        method: "HARD".to_string(),
        separate_by_type: false,
        dry_run: true,
        overwrite: true,
        templates: Some(templates()),
    };
    let config = OrganizerConfig::from_request(&request);
    assert_eq!(config.source_dir, "/in");
    assert_eq!(config.target_dir, "/out");
    assert_eq!(config.method, OrganizeMethod::Hardlink);
    assert!(!config.separate_by_type && config.dry_run && config.overwrite);
    assert_eq!(config.template.movie_folder, "{title}");
    assert_eq!(config.template.movie_file, "{title} ({year})");
    assert_eq!(config.template.tv_folder, "{title} ({year})");
    assert_eq!(config.template.season_folder, "S{season}");
    assert_eq!(config.template.episode_file, "{title} - S{season:02}E{episode:02}");
    let preview = PreviewRequest {
        source: "/in".to_string(),
        target: "/out".to_string(),
        method: "".to_string(),
        separate_by_type: default_true(),
        templates: None,
    };
    let request = OrganizeRequest::from_preview(preview);
    assert!(request.dry_run && !request.overwrite && request.separate_by_type);
    let config = OrganizerConfig::from_request(&request);
    assert_eq!(config.method, OrganizeMethod::Symlink);
    assert_eq!(config.template.movie_folder, "{title} ({year})");
    assert_eq!(NamingTemplate::from_custom(&None).season_folder, "Season {season:02}");
}

#[test]
fn report_of_organizing() {
    assert_eq!(organize_message(false, 12, 10, 2), "Organized 12 files (10 success, 2 failed)");
    assert_eq!(
        organize_message(true, 0, 0, 0),
        "[DRY RUN] Would organize 0 files (0 success, 0 failed)"
    );
}

#[test]
fn verdicts_on_what_was_found_of_a_path() {
    assert!(has_video_extension(&Some("MKV".to_string())));
    assert!(has_video_extension(&Some("m2ts".to_string())));
    assert!(!has_video_extension(&Some("iso".to_string())));
    assert!(!has_video_extension(&Some("".to_string())));
    assert!(!has_video_extension(&None));
    let some = |t: &str| Some(t.to_string());
    assert_eq!(Scanner::classify_found(&some("INDEX.bdmv"), &some("bdmv"), false), Entry::DiscRoot);
    assert_eq!(Scanner::classify_found(&None, &some("mkv"), false), Entry::Media);
    assert_eq!(Scanner::classify_found(&None, &some("mkv"), true), Entry::Skip);
    assert_eq!(Scanner::classify_found(&some("a.txt"), &some("txt"), false), Entry::Skip);
    assert_eq!(Scanner::classify_found(&None, &None, false), Entry::Skip);
    assert_eq!("Hard".parse::<OrganizeMethod>(), Ok(OrganizeMethod::Hardlink));
    assert_eq!("".parse::<OrganizeMethod>(), Err("Unknown method: ".to_string()));
}
