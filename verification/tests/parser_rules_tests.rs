use ayiah::parser::{MediaHint, ParsedMedia, Parser};
use std::path::PathBuf;

#[test]
fn the_matrix_is_a_movie() {
    let info = Parser::parse(&PathBuf::from("The.Matrix.1999.1080p.BluRay.x264.mkv"));
    assert_eq!(info.title, "The Matrix");
    assert_eq!(info.original_title, "The.Matrix.1999.1080p.BluRay.x264");
    assert_eq!(info.year, Some(1999));
    assert_eq!(info.season, None);
    assert_eq!(info.episode, None);
    assert_eq!(info.resolution, Some("1080P".to_string()));
    assert_eq!(info.quality, Some("BluRay".to_string()));
    assert_eq!(info.codec, Some("X264".to_string()));
    assert_eq!(info.release_group, None);
    assert_eq!(info.hint, MediaHint::Movie);
}

#[test]
fn breaking_bad_is_a_tv_show() {
    let info = Parser::parse(&PathBuf::from("Breaking.Bad.S01E01.720p.BluRay.mkv"));
    assert_eq!(info.title, "Breaking Bad");
    assert_eq!(info.season, Some(1));
    assert_eq!(info.episode, Some(1));
    assert_eq!(info.hint, MediaHint::TvShow);
}

#[test]
fn frieren_is_an_anime_with_a_release_group() {
    let info = Parser::parse(&PathBuf::from(
        "[SubsPlease] Sousou no Frieren - 01 (1080p) [ABCD1234].mkv",
    ));
    assert_eq!(info.title, "Sousou no Frieren");
    assert_eq!(info.season, Some(1));
    assert_eq!(info.episode, Some(1));
    assert_eq!(info.release_group, Some("SubsPlease".to_string()));
    assert_eq!(info.resolution, Some("1080P".to_string()));
    assert_eq!(info.hint, MediaHint::Anime);
}

#[test]
fn parsing_twice_gives_the_same_record() {
    let names = [
        "The.Matrix.1999.1080p.BluRay.x264",
        "[Erai-raws] Jujutsu Kaisen - 01v2 [1080p]",
        "",
        "葬送的芙莉莲 - 01",
    ];
    for name in names {
        let a = Parser::parse_filename(name);
        let b = Parser::parse_filename(name);
        assert_eq!(a.title, b.title);
        assert_eq!(a.original_title, b.original_title);
        assert_eq!(a.year, b.year);
        assert_eq!(a.season, b.season);
        assert_eq!(a.episode, b.episode);
        assert_eq!(a.resolution, b.resolution);
        assert_eq!(a.quality, b.quality);
        assert_eq!(a.codec, b.codec);
        assert_eq!(a.release_group, b.release_group);
        assert_eq!(a.hint, b.hint);
    }
}

#[test]
fn empty_stem_gives_the_empty_record() {
    let info = Parser::parse_filename("");
    let empty = ParsedMedia::default();
    assert_eq!(info.title, "");
    assert_eq!(info.original_title, "");
    assert_eq!(info.year, empty.year);
    assert_eq!(info.season, None);
    assert_eq!(info.episode, None);
    assert_eq!(info.resolution, None);
    assert_eq!(info.quality, None);
    assert_eq!(info.codec, None);
    assert_eq!(info.release_group, None);
    assert_eq!(info.hint, MediaHint::Unknown);
    let no_name = Parser::parse(&PathBuf::from(""));
    assert_eq!(no_name.title, "");
    assert_eq!(no_name.hint, MediaHint::Unknown);
}

#[test]
fn season_and_episode_markers_give_their_numbers() {
    let info = Parser::parse_filename("Show.S3E7.Title");
    assert_eq!((info.season, info.episode), (Some(3), Some(7)));
    assert_eq!(info.hint, MediaHint::TvShow);
    assert_eq!(info.title, "Show");
    let info = Parser::parse_filename("show s99e999");
    assert_eq!((info.season, info.episode), (Some(99), Some(999)));
    let info = Parser::parse_filename("Show S00E00");
    assert_eq!((info.season, info.episode), (Some(0), Some(0)));
    assert_eq!(info.hint, MediaHint::TvShow);
}

#[test]
fn episode_patterns_are_tried_in_order() {
    let info = Parser::parse_filename("Show 2x05 S01E02");
    assert_eq!((info.season, info.episode), (Some(1), Some(2)));
    let info = Parser::parse_filename("Show 2x05 - 12");
    assert_eq!((info.season, info.episode), (Some(2), Some(5)));
    assert_eq!(info.title, "Show");
    let info = Parser::parse_filename("Show - 12 E05");
    assert_eq!((info.season, info.episode), (Some(1), Some(12)));
    assert_eq!(info.hint, MediaHint::Anime);
    let info = Parser::parse_filename("Show E05 [07]");
    assert_eq!((info.season, info.episode), (Some(1), Some(5)));
    assert_eq!(info.hint, MediaHint::TvShow);
    assert_eq!(info.title, "Show");
    let info = Parser::parse_filename("Show [07]");
    assert_eq!((info.season, info.episode), (Some(1), Some(7)));
    assert_eq!(info.title, "Show");
    let info = Parser::parse_filename("Show Ep.12");
    assert_eq!((info.season, info.episode), (Some(1), Some(12)));
    let info = Parser::parse_filename("Just a name");
    assert_eq!((info.season, info.episode), (None, None));
    assert_eq!(info.hint, MediaHint::Unknown);
    assert_eq!(info.title, "Just a name");
}

#[test]
fn years_outside_the_range_are_rejected() {
    assert_eq!(Parser::parse_filename("Movie.1899").year, None);
    assert_eq!(Parser::parse_filename("Movie (2100)").year, None);
    assert_eq!(Parser::parse_filename("Movie 2100").year, None);
    assert_eq!(Parser::parse_filename("Movie (1800) 1999").year, Some(1999));
    assert_eq!(Parser::parse_filename("Movie 1900").year, Some(1900));
    assert_eq!(Parser::parse_filename("Movie (2099)").year, Some(2099));
    assert_eq!(Parser::parse_filename("Movie 12019").year, None);
    assert_eq!(Parser::parse_filename("Movie").year, None);
}

#[test]
fn year_in_parentheses_is_preferred() {
    let info = Parser::parse_filename("2012 (2009) 1080p");
    assert_eq!(info.year, Some(2009));
    assert_eq!(info.title, "2012");
    assert_eq!(info.hint, MediaHint::Movie);
    let info = Parser::parse_filename("Blade Runner 2049 2017");
    assert_eq!(info.year, Some(2049));
    assert_eq!(info.title, "Blade Runner");
}

#[test]
fn checksum_group_is_no_release_group() {
    let info = Parser::parse_filename("[ABCD1234] Title - 01");
    assert_eq!(info.release_group, None);
    assert_eq!(info.episode, Some(1));
    assert_eq!(info.hint, MediaHint::Anime);
    assert_eq!(info.title, "Title");
    let info = Parser::parse_filename("[abcdef01] Title");
    assert_eq!(info.release_group, None);
    let info = Parser::parse_filename("[ABCD123] Title");
    assert_eq!(info.release_group, Some("ABCD123".to_string()));
    let info = Parser::parse_filename("[ABCD12345] Title");
    assert_eq!(info.release_group, Some("ABCD12345".to_string()));
}

#[test]
fn resolution_group_is_no_release_group() {
    let info = Parser::parse_filename("[1080p] Movie 2020");
    assert_eq!(info.release_group, None);
    assert_eq!(info.resolution, Some("1080P".to_string()));
    assert_eq!(info.year, Some(2020));
    assert_eq!(info.title, "Movie");
    let info = Parser::parse_filename("[BD 720p] Movie");
    assert_eq!(info.release_group, None);
}

#[test]
fn japanese_and_chinese_names_are_anime() {
    assert_eq!(Parser::parse_filename("葬送のフリーレン").hint, MediaHint::Anime);
    assert_eq!(Parser::parse_filename("ふりーれん S01E02").hint, MediaHint::Anime);
    assert_eq!(Parser::parse_filename("フリーレン 2023").hint, MediaHint::Anime);
    assert_eq!(Parser::parse_filename("Movie \u{3040} 2020").hint, MediaHint::Anime);
    assert_eq!(Parser::parse_filename("Movie \u{9FFF} 2020").hint, MediaHint::Anime);
    assert_eq!(Parser::parse_filename("Movie \u{303F} 2020").hint, MediaHint::Movie);
    assert_eq!(Parser::parse_filename("Movie \u{3105} 2020").hint, MediaHint::Movie);
    assert_eq!(Parser::parse_filename("Movie \u{A000} 2020").hint, MediaHint::Movie);
}

#[test]
fn hints_by_rule() {
    assert_eq!(Parser::parse_filename("[Group] Show - 03").hint, MediaHint::Anime);
    assert_eq!(Parser::parse_filename("[Group] Show S02E03").hint, MediaHint::TvShow);
    assert_eq!(Parser::parse_filename("Show - 03").hint, MediaHint::Anime);
    assert_eq!(Parser::parse_filename("Movie 1999").hint, MediaHint::Movie);
    assert_eq!(Parser::parse_filename("Movie").hint, MediaHint::Unknown);
}

#[test]
fn episode_marker_inside_the_group_empties_the_title() {
    let info = Parser::parse_filename("[S01E02] Title");
    assert_eq!(info.release_group, Some("S01E02".to_string()));
    assert_eq!((info.season, info.episode), (Some(1), Some(2)));
    assert_eq!(info.title, "");
    assert_eq!(info.hint, MediaHint::TvShow);
}

#[test]
fn titles_are_cleaned() {
    assert_eq!(Parser::parse_filename("The_Big-Film 1080p x265").title, "The Big Film");
    assert_eq!(Parser::parse_filename("  A   B  ").title, "A B");
    assert_eq!(Parser::parse_filename("Name {tag} (note) [x] End").title, "Name End");
    assert_eq!(Parser::parse_filename("WEB-DL.Movie.HEVC").title, "Movie");
    let info = Parser::parse_filename("Film.2023.WEB-DL.1080p");
    assert_eq!(info.quality, Some("WEB-DL".to_string()));
    assert_eq!(info.title, "Film");
    let info = Parser::parse_filename("movie.2160p.h.265.uhd");
    assert_eq!(info.resolution, Some("2160P".to_string()));
    assert_eq!(info.codec, Some("H.265".to_string()));
}

#[test]
fn stages_agree_with_the_whole() {
    let name = "[Erai-raws] Bocchi the Rock - 01v2 [1080p]";
    let whole = Parser::parse_filename(name);
    assert_eq!(Parser::extract_release_group(name), whole.release_group);
    let (season, episode, end) = Parser::extract_episode_info(name);
    assert_eq!((season, episode), (whole.season, whole.episode));
    assert_eq!(end, Some(28));
    assert_eq!(Parser::extract_year(name), whole.year);
    assert_eq!(Parser::determine_hint(&whole, name), whole.hint);
    assert_eq!(Parser::extract_title(name, end, &whole), whole.title);
    assert_eq!(whole.title, "Bocchi the Rock");
}

#[test]
fn offsets_count_characters() {
    let name = "葬送的芙莉莲 - 01";
    let (_, episode, end) = Parser::extract_episode_info(name);
    assert_eq!(episode, Some(1));
    assert_eq!(end, Some(7));
    assert_eq!(Parser::parse_filename(name).title, "葬送的芙莉莲");
}

#[test]
fn tags_are_blanked_out_wherever_they_stand() {
    let info = Parser::parse_filename("[Erai-raws] Jujutsu Kaisen - 01v2 [1080p]");
    assert_eq!(info.quality, Some("ts".to_string()));
    assert_eq!(info.title, "Juju u Kaisen");
    let info = Parser::parse_filename("The_Big-Movie.1080p.x265");
    assert_eq!((info.season, info.episode), (Some(1), Some(108)));
    assert_eq!(info.title, "The Big Movi");
}

fn found(before: &str, matched: &str, after: &str, groups: &[Option<&str>]) -> ayiah::pattern::Captured {
    ayiah::pattern::Captured {
        before: before.to_string(),
        matched: matched.to_string(),
        after: after.to_string(),
        groups: groups.iter().map(|g| g.map(|t| t.to_string())).collect(),
    }
}

#[test]
fn numbers_of_an_episode_match() {
    let m = found("Show.", "S03E07", ".x", &[Some("03"), Some("07")]);
    assert_eq!(Parser::episode_numbers(&m, true), (Some(3), Some(7), Some(5)));
    assert_eq!(Parser::episode_numbers(&m, false), (Some(1), Some(3), Some(5)));
    let m = found("葬送 ", "- 12", "", &[Some("12")]);
    assert_eq!(Parser::episode_numbers(&m, false), (Some(1), Some(12), Some(3)));
    let arabic = found("", "S١E٢", "", &[Some("١"), Some("٢")]);
    assert_eq!(Parser::episode_numbers(&arabic, true), (None, None, Some(0)));
    let missing = found("", "x", "", &[None]);
    assert_eq!(Parser::episode_numbers(&missing, true), (None, None, Some(0)));
    assert_eq!(Parser::episode_numbers(&missing, false), (Some(1), None, Some(0)));
    let none = found("ab", "x", "", &[]);
    assert_eq!(Parser::episode_numbers(&none, false), (Some(1), None, Some(2)));
}

#[test]
fn release_group_is_kept_or_not() {
    assert_eq!(Parser::keep_release_group("SubsPlease", false, false), Some("SubsPlease".to_string()));
    assert_eq!(Parser::keep_release_group("ABCD1234", true, false), None);
    assert_eq!(Parser::keep_release_group("1080p", false, true), None);
    assert_eq!(Parser::keep_release_group("x", true, true), None);
}

#[test]
fn plausible_years() {
    assert_eq!(Parser::keep_plausible_year(Some(1900)), Some(1900));
    assert_eq!(Parser::keep_plausible_year(Some(2099)), Some(2099));
    assert_eq!(Parser::keep_plausible_year(Some(1899)), None);
    assert_eq!(Parser::keep_plausible_year(Some(2100)), None);
    assert_eq!(Parser::keep_plausible_year(Some(-1999)), None);
    assert_eq!(Parser::keep_plausible_year(None), None);
}

#[test]
fn hint_rules_in_order() {
    let some = Some(1);
    assert_eq!(Parser::hint_from(true, true, false, None, None, None), MediaHint::Anime);
    assert_eq!(Parser::hint_from(true, false, true, Some(2), Some(3), Some(1999)), MediaHint::Anime);
    assert_eq!(Parser::hint_from(true, false, false, Some(2), Some(3), Some(1999)), MediaHint::TvShow);
    assert_eq!(Parser::hint_from(false, true, false, some, Some(3), None), MediaHint::Anime);
    assert_eq!(Parser::hint_from(false, true, false, Some(2), Some(3), None), MediaHint::TvShow);
    assert_eq!(Parser::hint_from(false, false, false, some, Some(3), None), MediaHint::TvShow);
    assert_eq!(Parser::hint_from(false, true, false, some, None, Some(1999)), MediaHint::Movie);
    assert_eq!(Parser::hint_from(false, false, false, None, Some(3), Some(1999)), MediaHint::Unknown);
    assert_eq!(Parser::hint_from(false, false, false, None, None, Some(1999)), MediaHint::Movie);
    assert_eq!(Parser::hint_from(true, false, false, None, None, None), MediaHint::Unknown);
    assert!(Parser::holds_cjk("a葬b"));
    assert!(Parser::holds_cjk("ア"));
    assert!(!Parser::holds_cjk("abc é 한"));
    assert!(!Parser::holds_cjk(""));
}

fn text_of(v: Vec<char>) -> String {
    v.into_iter().collect()
}

#[test]
fn title_part_of_a_name() {
    let name = "[Group] Show - 01 [720p]";
    let group = found("", "[Group]", " Show - 01 [720p]", &[Some("Group")]);
    assert_eq!(text_of(Parser::title_part(name, Some(&group), Some(13), None)), " Show ");
    assert_eq!(text_of(Parser::title_part(name, None, Some(13), None)), "[Group] Show ");
    assert_eq!(text_of(Parser::title_part(name, Some(&group), Some(3), Some(1999))), "");
    assert_eq!(text_of(Parser::title_part(name, Some(&group), Some(24), None)), " Show - 01 [720p]");
    assert_eq!(text_of(Parser::title_part(name, None, Some(24), None)), name);
    assert_eq!(text_of(Parser::title_part(name, None, None, None)), name);
    assert_eq!(text_of(Parser::title_part("Movie (1999) 1999", None, None, Some(1999))), "Movie ");
    assert_eq!(text_of(Parser::title_part("Movie 1999 (1999)", None, None, Some(1999))), "Movie 1999 ");
    assert_eq!(text_of(Parser::title_part("12019 Movie 2019", None, None, Some(2019))), "1");
    assert_eq!(text_of(Parser::title_part("Movie", None, None, Some(2019))), "Movie");
    assert_eq!(text_of(Parser::title_part("Movie 2019", None, Some(2), Some(2019))), "Mo");
    assert_eq!(
        text_of(Parser::truncate_at_year("A (2001) 2001".chars().collect(), 2001)),
        "A "
    );
}

#[test]
fn tidying_a_title() {
    assert_eq!(Parser::tidy("  The.Big_Movie--Part - 2 "), "The Big Movie Part 2");
    assert_eq!(Parser::tidy("a\t\tb"), "a\tb");
    assert_eq!(Parser::tidy("..."), "");
    assert_eq!(Parser::tidy(""), "");
    assert_eq!(Parser::clean("The.Movie [x] (y) {z} 1080p BluRay x264"), "The Movie");
    assert_eq!(Parser::clean("[unclosed 2160P"), "[unclosed");
}

#[test]
fn record_of_a_stem_that_was_found_or_not() {
    let found = Parser::parse_stem(&Some("The.Matrix.1999".to_string()));
    assert_eq!(found.title, "The Matrix");
    assert_eq!(found.original_title, "The.Matrix.1999");
    assert_eq!(found.year, Some(1999));
    let none = Parser::parse_stem(&None);
    assert_eq!(none.title, "");
    assert_eq!(none.original_title, "");
    assert_eq!(none.hint, MediaHint::Unknown);
    assert_eq!(Parser::parse(&PathBuf::from("/a/b/Show.S02E03.mkv")).original_title, "Show.S02E03");
    assert_eq!(Parser::parse(&PathBuf::from("/")).original_title, "");
}
