//! The organizer's rules: how a media file is named and where it goes in an
//! orderly library. Moving and linking the files is done by whoever uses
//! these rules.

use std::path::PathBuf;
use vstd::prelude::*;
use crate::error::concat;
use crate::parser::{MediaHint, ParsedMedia, ParsedMediaView};
use crate::provider::common::{date_year, year_of_date};
use crate::text::{same_str, 
    chars_of, decimal, decimal_text, lowercase, padded, padded_text,
    replace_text, replaced, string_of, to_lowercase, trim, trimmed,
};
use crate::types::{MediaMetadata, MediaMetadataView, MediaType};

verus! {

/// Organization method.
#[derive(Clone, Copy, Debug, PartialEq, Eq, Structural)]
pub enum OrganizeMethod {
    /// Create symbolic links (default, safest)
    Symlink,
    /// Create hard links (same filesystem only)
    Hardlink,
    /// Move files (destructive)
    Move,
    /// Copy files
    Copy,
}

/// The method that a name stands for, in lower case.
pub open spec fn method_named(lower: Seq<char>) -> Option<OrganizeMethod> {
    if lower == "symlink"@ || lower == "sym"@ || lower == "soft"@ {
        Some(OrganizeMethod::Symlink)
    } else if lower == "hardlink"@ || lower == "hard"@ {
        Some(OrganizeMethod::Hardlink)
    } else if lower == "move"@ || lower == "mv"@ {
        Some(OrganizeMethod::Move)
    } else if lower == "copy"@ || lower == "cp"@ {
        Some(OrganizeMethod::Copy)
    } else {
        None
    }
}

impl OrganizeMethod {
    /// The name of the method.
    pub open spec fn label(self) -> Seq<char> {
        match self {
            OrganizeMethod::Symlink => "symlink"@,
            OrganizeMethod::Hardlink => "hardlink"@,
            OrganizeMethod::Move => "move"@,
            OrganizeMethod::Copy => "copy"@,
        }
    }

    /// The name of the method.
    pub fn to_string(&self) -> (r: String)
        ensures
            r@ == self.label(),
    {
        match self {
            OrganizeMethod::Symlink => "symlink".to_owned(),
            OrganizeMethod::Hardlink => "hardlink".to_owned(),
            OrganizeMethod::Move => "move".to_owned(),
            OrganizeMethod::Copy => "copy".to_owned(),
        }
    }

    /// The method that a name stands for, whatever the case of its letters;
    /// a name that stands for none is reported back.
    pub fn parse(s: &str) -> (r: Result<OrganizeMethod, String>)
        ensures
            match r {
                Ok(m) => method_named(lowercase(s@)) == Some(m),
                Err(e) => method_named(lowercase(s@)) is None && e@ == "Unknown method: "@ + s@,
            },
    {
        let lower = to_lowercase(s);
        let l = lower.as_str();
        if same_str(l, "symlink") || same_str(l, "sym") || same_str(l, "soft") {
            Ok(OrganizeMethod::Symlink)
        } else if same_str(l, "hardlink") || same_str(l, "hard") {
            Ok(OrganizeMethod::Hardlink)
        } else if same_str(l, "move") || same_str(l, "mv") {
            Ok(OrganizeMethod::Move)
        } else if same_str(l, "copy") || same_str(l, "cp") {
            Ok(OrganizeMethod::Copy)
        } else {
            Err(concat("Unknown method: ", s))
        }
    }
}

impl Default for OrganizeMethod {
    fn default() -> (r: OrganizeMethod)
        ensures
            r == OrganizeMethod::Symlink,
    {
        OrganizeMethod::Symlink
    }
}

impl std::str::FromStr for OrganizeMethod {
    type Err = String;

    fn from_str(s: &str) -> (r: Result<OrganizeMethod, String>)
        ensures
            match r {
                Ok(m) => method_named(lowercase(s@)) == Some(m),
                Err(e) => method_named(lowercase(s@)) is None && e@ == "Unknown method: "@ + s@,
            },
    {
        OrganizeMethod::parse(s)
    }
}

/// Naming template for organized files.
#[derive(Debug)]
pub struct NamingTemplate {
    /// Movie folder: {title} ({year})
    pub movie_folder: String,
    /// Movie file: {title} ({year})
    pub movie_file: String,
    /// TV show folder: {title} ({year})
    pub tv_folder: String,
    /// Season folder: Season {season:02}
    pub season_folder: String,
    /// Episode file: {title} - S{season:02}E{episode:02}
    pub episode_file: String,
}

/// What a `NamingTemplate` holds, as mathematical values.
pub struct NamingTemplateView {
    pub movie_folder: Seq<char>,
    pub movie_file: Seq<char>,
    pub tv_folder: Seq<char>,
    pub season_folder: Seq<char>,
    pub episode_file: Seq<char>,
}

impl NamingTemplateView {
    /// The templates that apply where none are given.
    pub open spec fn standard() -> NamingTemplateView {
        NamingTemplateView {
            movie_folder: "{title} ({year})"@,
            movie_file: "{title} ({year})"@,
            tv_folder: "{title} ({year})"@,
            season_folder: "Season {season:02}"@,
            episode_file: "{title} - S{season:02}E{episode:02}"@,
        }
    }
}

impl View for NamingTemplate {
    type V = NamingTemplateView;

    open spec fn view(&self) -> NamingTemplateView {
        NamingTemplateView {
            movie_folder: self.movie_folder@,
            movie_file: self.movie_file@,
            tv_folder: self.tv_folder@,
            season_folder: self.season_folder@,
            episode_file: self.episode_file@,
        }
    }
}

impl Default for NamingTemplate {
    fn default() -> (r: NamingTemplate)
        ensures
            r@ == NamingTemplateView::standard(),
    {
        NamingTemplate {
            movie_folder: "{title} ({year})".to_owned(),
            movie_file: "{title} ({year})".to_owned(),
            tv_folder: "{title} ({year})".to_owned(),
            season_folder: "Season {season:02}".to_owned(),
            episode_file: "{title} - S{season:02}E{episode:02}".to_owned(),
        }
    }
}

impl Clone for NamingTemplate {
    fn clone(&self) -> (r: NamingTemplate)
        ensures
            r@ == self@,
    {
        NamingTemplate {
            movie_folder: self.movie_folder.clone(),
            movie_file: self.movie_file.clone(),
            tv_folder: self.tv_folder.clone(),
            season_folder: self.season_folder.clone(),
            episode_file: self.episode_file.clone(),
        }
    }
}

/// Organizer configuration. The two directories are paths, as text.
#[derive(Debug)]
pub struct OrganizerConfig {
    /// Source directory to scan
    pub source_dir: String,
    /// Target directory for organized files
    pub target_dir: String,
    /// Organization method
    pub method: OrganizeMethod,
    /// Naming template
    pub template: NamingTemplate,
    /// Whether to create separate directories for Movies/TV/Anime
    pub separate_by_type: bool,
    /// Dry run mode (don't actually move/link files)
    pub dry_run: bool,
    /// Whether to overwrite existing files
    pub overwrite: bool,
}

impl Default for OrganizerConfig {
    fn default() -> (r: OrganizerConfig)
        ensures
            r.source_dir@.len() == 0,
            r.target_dir@.len() == 0,
            r.method == OrganizeMethod::Symlink,
            r.template@ == NamingTemplateView::standard(),
            r.separate_by_type,
            !r.dry_run,
            !r.overwrite,
    {
        OrganizerConfig {
            source_dir: String::new(),
            target_dir: String::new(),
            method: OrganizeMethod::Symlink,
            template: NamingTemplate::default(),
            separate_by_type: true,
            dry_run: false,
            overwrite: false,
        }
    }
}

/// Whether a character may not stand in a file name on some system.
pub open spec fn is_invalid(c: char) -> bool {
    c == '/' || c == '\\' || c == ':' || c == '*' || c == '?' || c == '"' || c == '<' || c == '>'
        || c == '|'
}

/// An underscore in place of a character that may not stand in a file name.
pub open spec fn made_valid(c: char) -> char {
    if is_invalid(c) {
        '_'
    } else {
        c
    }
}

/// The text without the `c` at its start.
pub open spec fn without_leading_char(s: Seq<char>, c: char) -> Seq<char>
    decreases s.len(),
{
    if s.len() > 0 && s.first() == c {
        without_leading_char(s.drop_first(), c)
    } else {
        s
    }
}

/// The text without the `c` at its end.
pub open spec fn without_trailing_char(s: Seq<char>, c: char) -> Seq<char>
    decreases s.len(),
{
    if s.len() > 0 && s.last() == c {
        without_trailing_char(s.drop_last(), c)
    } else {
        s
    }
}

/// The text in which, of each run of `c`, only one is left.
pub open spec fn squeezed(s: Seq<char>, c: char) -> Seq<char>
    decreases s.len(),
{
    if s.len() == 0 {
        s
    } else {
        let rest = squeezed(s.drop_last(), c);
        if s.last() == c && s.len() >= 2 && s[s.len() - 2] == c {
            rest
        } else {
            rest.push(s.last())
        }
    }
}

/// A text made fit for a file name: invalid characters replaced by
/// underscores, white space and dots removed from the ends, and runs of
/// blanks and of underscores reduced to one.
pub open spec fn sanitized(name: Seq<char>) -> Seq<char> {
    let valid = name.map_values(|c: char| made_valid(c));
    let bare = without_trailing_char(without_leading_char(trimmed(valid), '.'), '.');
    squeezed(squeezed(bare, ' '), '_')
}

/// Removes `c` from both ends of a text.
fn trim_char(s: &[char], c: char) -> (r: Vec<char>)
    ensures
        r@ == without_trailing_char(without_leading_char(s@, c), c),
{
    let mut start: usize = 0;
    assert(s@.skip(0) == s@);
    while start < s.len() && s[start] == c
        invariant
            start <= s.len(),
            without_leading_char(s@, c) == without_leading_char(s@.skip(start as int), c),
        decreases s.len() - start,
    {
        assert(s@.skip(start as int).drop_first() == s@.skip(start + 1));
        start = start + 1;
    }
    let mut end: usize = s.len();
    assert(s@.subrange(start as int, end as int) == s@.skip(start as int));
    while end > start && s[end - 1] == c
        invariant
            start <= end <= s.len(),
            without_leading_char(s@, c) == s@.skip(start as int),
            without_trailing_char(without_leading_char(s@, c), c) == without_trailing_char(
                s@.subrange(start as int, end as int),
                c,
            ),
        decreases end - start,
    {
        assert(s@.subrange(start as int, end as int).drop_last() == s@.subrange(
            start as int,
            end - 1,
        ));
        end = end - 1;
    }
    let mut out: Vec<char> = Vec::new();
    let mut i: usize = start;
    while i < end
        invariant
            start <= i <= end <= s.len(),
            out@ == s@.subrange(start as int, i as int),
        decreases end - i,
    {
        out.push(s[i]);
        assert(s@.subrange(start as int, i + 1) == s@.subrange(start as int, i as int).push(
            s@[i as int],
        ));
        i = i + 1;
    }
    out
}

/// Leaves one of each run of `c`.
fn squeeze(s: &[char], c: char) -> (r: Vec<char>)
    ensures
        r@ == squeezed(s@, c),
{
    let mut out: Vec<char> = Vec::new();
    let mut i: usize = 0;
    while i < s.len()
        invariant
            i <= s.len(),
            out@ == squeezed(s@.take(i as int), c),
        decreases s.len() - i,
    {
        proof {
            let upto = s@.take(i + 1);
            assert(upto.drop_last() == s@.take(i as int));
            assert(upto.last() == s@[i as int]);
            if i > 0 {
                assert(upto[upto.len() - 2] == s@[i - 1]);
            }
        }
        if !(s[i] == c && i > 0 && s[i - 1] == c) {
            out.push(s[i]);
        }
        i = i + 1;
    }
    assert(s@.take(s.len() as int) == s@);
    out
}

/// Sanitize a string for use as a filename.
pub fn sanitize_filename(name: &str) -> (r: String)
    ensures
        r@ == sanitized(name@),
{
    let chars = chars_of(name);
    let mut valid: Vec<char> = Vec::new();
    let mut i: usize = 0;
    while i < chars.len()
        invariant
            i <= chars.len(),
            valid@ == chars@.take(i as int).map_values(|c: char| made_valid(c)),
        decreases chars.len() - i,
    {
        let c = chars[i];
        if c == '/' || c == '\\' || c == ':' || c == '*' || c == '?' || c == '"' || c == '<' || c
            == '>' || c == '|' {
            valid.push('_');
        } else {
            valid.push(c);
        }
        assert(valid@ =~= chars@.take(i + 1).map_values(|c: char| made_valid(c)));
        i = i + 1;
    }
    assert(chars@.take(chars.len() as int) == chars@);
    let no_space = trim(valid.as_slice());
    let bare = trim_char(no_space.as_slice(), '.');
    let single_blanks = squeeze(bare.as_slice(), ' ');
    let single_underscores = squeeze(single_blanks.as_slice(), '_');
    string_of(single_underscores.as_slice())
}

/// A template with the title put in.
pub open spec fn with_title(template: Seq<char>, title: Seq<char>) -> Seq<char> {
    replaced(template, "{title}"@, title)
}

/// A template with the year put in; where there is no year, the place for
/// it is removed, with the parentheses and the blank around it.
pub open spec fn with_year(text: Seq<char>, year: Option<i32>) -> Seq<char> {
    match year {
        Some(y) => replaced(text, "{year}"@, decimal_text(y as int)),
        None => replaced(
            replaced(replaced(text, " ({year})"@, Seq::empty()), "({year})"@, Seq::empty()),
            "{year}"@,
            Seq::empty(),
        ),
    }
}

/// A template with a number put in, in two digits at least where the
/// template asks for that.
pub open spec fn with_number(
    text: Seq<char>,
    padded_place: Seq<char>,
    plain_place: Seq<char>,
    number: Option<i32>,
) -> Seq<char> {
    match number {
        Some(n) => replaced(
            replaced(text, padded_place, padded_text(n as int, 2)),
            plain_place,
            decimal_text(n as int),
        ),
        None => text,
    }
}

/// A template with title, year, season and episode put in, in that order.
pub open spec fn formatted(
    template: Seq<char>,
    title: Seq<char>,
    year: Option<i32>,
    season: Option<i32>,
    episode: Option<i32>,
) -> Seq<char> {
    with_number(
        with_number(
            with_year(with_title(template, title), year),
            "{season:02}"@,
            "{season}"@,
            season,
        ),
        "{episode:02}"@,
        "{episode}"@,
        episode,
    )
}

/// Replaces a literal by a text.
fn put(text: Vec<char>, place: &str, value: &[char]) -> (r: Vec<char>)
    ensures
        r@ == replaced(text@, place@, value@),
{
    let from = chars_of(place);
    replace_text(text.as_slice(), from.as_slice(), value)
}

/// Puts a number in, padded and plain.
fn put_number(text: Vec<char>, padded_place: &str, plain_place: &str, number: Option<i32>) -> (r:
    Vec<char>)
    ensures
        r@ == with_number(text@, padded_place@, plain_place@, number),
{
    match number {
        Some(n) => {
            let two = padded(n as i64, 2);
            let plain = decimal(n as i64);
            let first = put(text, padded_place, two.as_slice());
            put(first, plain_place, plain.as_slice())
        },
        None => text,
    }
}

/// Format a naming template.
pub fn format_template(
    template: &str,
    title: &str,
    year: Option<i32>,
    season: Option<i32>,
    episode: Option<i32>,
) -> (r: String)
    ensures
        r@ == formatted(template@, title@, year, season, episode),
{
    let title_chars = chars_of(title);
    let mut result = put(chars_of(template), "{title}", title_chars.as_slice());
    let nothing: Vec<char> = Vec::new();
    assert(nothing@ =~= Seq::<char>::empty());
    match year {
        Some(y) => {
            let digits = decimal(y as i64);
            result = put(result, "{year}", digits.as_slice());
        },
        None => {
            result = put(result, " ({year})", nothing.as_slice());
            result = put(result, "({year})", nothing.as_slice());
            result = put(result, "{year}", nothing.as_slice());
        },
    }
    result = put_number(result, "{season:02}", "{season}", season);
    result = put_number(result, "{episode:02}", "{episode}", episode);
    string_of(result.as_slice())
}

/// The kind of media that a hint stands for.
pub open spec fn kind_hinted(hint: MediaHint) -> MediaType {
    match hint {
        MediaHint::Movie => MediaType::Movie,
        MediaHint::TvShow => MediaType::Tv,
        MediaHint::Anime => MediaType::Anime,
        MediaHint::Unknown => MediaType::Unknown,
    }
}

/// The directory in which media of a kind are kept.
pub open spec fn type_directory(media_type: MediaType) -> Seq<char> {
    match media_type {
        MediaType::Movie => "Movies"@,
        MediaType::Tv => "TV Shows"@,
        MediaType::Anime => "Anime"@,
        MediaType::Unknown => "Other"@,
    }
}

/// A number, or 1 where there is none.
pub open spec fn or_one(n: Option<i32>) -> i32 {
    match n {
        Some(v) => v,
        None => 1,
    }
}

/// The title under which a file is organized: that of the metadata where
/// there is metadata, else the parsed title made fit for a file name.
pub open spec fn target_title(parsed: ParsedMediaView, metadata: Option<MediaMetadataView>) -> Seq<
    char,
> {
    match metadata {
        Some(m) => m.title,
        None => sanitized(parsed.title),
    }
}

/// The year under which a file is organized: that of the metadata's release
/// date, else the parsed year.
pub open spec fn target_year(parsed: ParsedMediaView, metadata: Option<MediaMetadataView>)
    -> Option<i32> {
    let from_metadata = match metadata {
        Some(m) => date_year(m.release_date),
        None => None,
    };
    if from_metadata is Some {
        from_metadata
    } else {
        parsed.year
    }
}

/// The kind as which a file is organized: that of the metadata, else the one
/// that the parsed hint stands for.
pub open spec fn target_kind(parsed: ParsedMediaView, metadata: Option<MediaMetadataView>)
    -> MediaType {
    match metadata {
        Some(m) => m.media_type,
        None => kind_hinted(parsed.hint),
    }
}

/// A file name: a name made fit, a dot, and the extension.
pub open spec fn file_name(name: Seq<char>, extension: Seq<char>) -> Seq<char> {
    sanitized(name) + seq!['.'] + extension
}

/// Where a file goes, as the names to descend by from the target directory:
/// the directory of the kind, where the kinds are kept apart; then for a
/// movie its folder and its file, and for anything else the folder of the
/// show, the folder of the season and the file of the episode, with 1 for a
/// season or an episode that is unknown.
pub open spec fn target_path(
    template: NamingTemplateView,
    separate_by_type: bool,
    extension: Seq<char>,
    parsed: ParsedMediaView,
    metadata: Option<MediaMetadataView>,
) -> Seq<Seq<char>> {
    let title = target_title(parsed, metadata);
    let year = target_year(parsed, metadata);
    let kind = target_kind(parsed, metadata);
    let head = if separate_by_type {
        seq![type_directory(kind)]
    } else {
        Seq::empty()
    };
    if kind == MediaType::Movie {
        head + seq![
            sanitized(formatted(template.movie_folder, title, year, None, None)),
            file_name(formatted(template.movie_file, title, year, None, None), extension),
        ]
    } else {
        let season = or_one(parsed.season);
        let episode = or_one(parsed.episode);
        head + seq![
            sanitized(formatted(template.tv_folder, title, year, None, None)),
            sanitized(formatted(template.season_folder, title, year, Some(season), None)),
            file_name(
                formatted(template.episode_file, title, year, Some(season), Some(episode)),
                extension,
            ),
        ]
    }
}

/// The view of metadata that may be missing.
pub open spec fn metadata_option(metadata: Option<&MediaMetadata>) -> Option<MediaMetadataView> {
    match metadata {
        Some(m) => Some(m@),
        None => None,
    }
}

/// A name made fit, a dot, and the extension.
fn name_with_extension(name: &str, extension: &str) -> (r: String)
    ensures
        r@ == file_name(name@, extension@),
{
    let clean = sanitize_filename(name);
    let dotted = concat(clean.as_str(), ".");
    proof {
        reveal_strlit(".");
        assert("."@ =~= seq!['.']);
    }
    concat(dotted.as_str(), extension)
}

/// The extension of the target: that of the source file, or `mkv` where it
/// has none.
pub open spec fn target_extension(extension: Option<&str>) -> Seq<char> {
    match extension {
        Some(e) => e@,
        None => "mkv"@,
    }
}

/// Build target path based on parsed info and metadata: the names to
/// descend by from the target directory. `extension` is the extension of
/// the source file, if it has one.
pub fn build_target_path(
    config: &OrganizerConfig,
    extension: Option<&str>,
    parsed: &ParsedMedia,
    metadata: Option<&MediaMetadata>,
) -> (r: Vec<String>)
    ensures
        r.deep_view() == target_path(
            config.template@,
            config.separate_by_type,
            target_extension(extension),
            parsed@,
            metadata_option(metadata),
        ),
{
    let extension = match extension {
        Some(e) => e,
        None => "mkv",
    };
    let title = match metadata {
        Some(m) => m.title.clone(),
        None => sanitize_filename(parsed.title.as_str()),
    };
    let from_metadata = match metadata {
        Some(m) => year_of_date(&m.release_date),
        None => None,
    };
    let year = if from_metadata.is_some() {
        from_metadata
    } else {
        parsed.year
    };
    let media_type = match metadata {
        Some(m) => m.media_type,
        None => match parsed.hint {
            MediaHint::Movie => MediaType::Movie,
            MediaHint::TvShow => MediaType::Tv,
            MediaHint::Anime => MediaType::Anime,
            MediaHint::Unknown => MediaType::Unknown,
        },
    };
    let mut target: Vec<String> = Vec::new();
    if config.separate_by_type {
        let type_dir = match media_type {
            MediaType::Movie => "Movies",
            MediaType::Tv => "TV Shows",
            MediaType::Anime => "Anime",
            MediaType::Unknown => "Other",
        };
        target.push(type_dir.to_owned());
    }
    let ghost head = target.deep_view();
    let t = title.as_str();
    match media_type {
        MediaType::Movie => {
            let folder = format_template(config.template.movie_folder.as_str(), t, year, None, None);
            let file = format_template(config.template.movie_file.as_str(), t, year, None, None);
            target.push(sanitize_filename(folder.as_str()));
            target.push(name_with_extension(file.as_str(), extension));
            assert(target.deep_view() =~= head + seq![
                sanitized(folder@),
                file_name(file@, extension@),
            ]);
        },
        _ => {
            let season = match parsed.season {
                Some(s) => s,
                None => 1,
            };
            let episode = match parsed.episode {
                Some(e) => e,
                None => 1,
            };
            let folder = format_template(config.template.tv_folder.as_str(), t, year, None, None);
            let season_folder = format_template(
                config.template.season_folder.as_str(),
                t,
                year,
                Some(season),
                None,
            );
            let file = format_template(
                config.template.episode_file.as_str(),
                t,
                year,
                Some(season),
                Some(episode),
            );
            target.push(sanitize_filename(folder.as_str()));
            target.push(sanitize_filename(season_folder.as_str()));
            target.push(name_with_extension(file.as_str(), extension));
            assert(target.deep_view() =~= head + seq![
                sanitized(folder@),
                sanitized(season_folder@),
                file_name(file@, extension@),
            ]);
        },
    }
    target
}

/// Whether an extension, in lower case, is one of a video file.
pub open spec fn video_extension(lower: Seq<char>) -> bool {
    ||| lower == "mkv"@
    ||| lower == "mp4"@
    ||| lower == "avi"@
    ||| lower == "mov"@
    ||| lower == "wmv"@
    ||| lower == "flv"@
    ||| lower == "webm"@
    ||| lower == "m4v"@
    ||| lower == "mpg"@
    ||| lower == "mpeg"@
    ||| lower == "ts"@
    ||| lower == "m2ts"@
}

/// Whether an extension is one of a video file, whatever its case.
pub fn is_video_extension(extension: &str) -> (r: bool)
    ensures
        r == video_extension(lowercase(extension@)),
{
    let lower = to_lowercase(extension);
    let l = lower.as_str();
    same_str(l, "mkv") || same_str(l, "mp4") || same_str(l, "avi") || same_str(l, "mov")
        || same_str(l, "wmv") || same_str(l, "flv") || same_str(l, "webm") || same_str(l, "m4v")
        || same_str(l, "mpg") || same_str(l, "mpeg") || same_str(l, "ts") || same_str(l, "m2ts")
}

/// Calls `Path::extension` and `OsStr::to_str`: the extension of the file
/// name, where the path has a file name with an extension that is Unicode.
/// What a file name is depends on the platform, so nothing is promised of
/// the result.
#[verifier::external_body]
pub(crate) fn extension_of(path: &PathBuf) -> (r: Option<String>) {
    path.extension().and_then(|e| e.to_str()).map(|e| e.to_string())
}

/// Whether a file with this extension is a video file; a file without an
/// extension is none.
pub fn has_video_extension(extension: &Option<String>) -> (r: bool)
    ensures
        r == (match extension.deep_view() {
            Some(e) => video_extension(lowercase(e)),
            None => false,
        }),
{
    match extension {
        Some(e) => is_video_extension(e.as_str()),
        None => false,
    }
}

/// Check if a file is a video file: by its extension.
pub fn is_video_file(path: &PathBuf) -> bool {
    has_video_extension(&extension_of(path))
}

/// What is done about a file that is to be put at a place: nothing where
/// something is there already and must not be overwritten; else what is
/// there is removed first.
#[derive(Clone, Copy, Debug, PartialEq, Eq, Structural)]
pub enum Placement {
    /// Something is at the target and stays there
    Refuse,
    /// The target is free
    Place,
    /// What is at the target is removed, and the file placed
    Replace,
}

/// What is done about a file, given whether its target exists.
pub open spec fn placement(target_exists: bool, overwrite: bool) -> Placement {
    if target_exists && !overwrite {
        Placement::Refuse
    } else if target_exists {
        Placement::Replace
    } else {
        Placement::Place
    }
}

/// What is done about a file, given whether its target exists.
pub fn plan_placement(config: &OrganizerConfig, target_exists: bool) -> (r: Placement)
    ensures
        r == placement(target_exists, config.overwrite),
{
    if target_exists && !config.overwrite {
        Placement::Refuse
    } else if target_exists {
        Placement::Replace
    } else {
        Placement::Place
    }
}

/// Custom naming templates: each one that is set takes the place of the
/// standard one.
#[derive(Debug)]
pub struct TemplateConfig {
    /// Movie folder template, e.g., "{title} ({year})"
    pub movie_folder: Option<String>,
    /// Movie file template
    pub movie_file: Option<String>,
    /// TV show folder template
    pub tv_folder: Option<String>,
    /// Season folder template, e.g., "Season {season:02}"
    pub season_folder: Option<String>,
    /// Episode file template, e.g., "{title} - S{season:02}E{episode:02}"
    pub episode_file: Option<String>,
}

/// Organize request.
#[derive(Debug)]
pub struct OrganizeRequest {
    /// Source directory containing media files
    pub source: String,
    /// Target directory for organized files
    pub target: String,
    /// Organization method: symlink, hardlink, move, copy
    pub method: String,
    /// Whether to separate by media type (Movies/TV/Anime)
    pub separate_by_type: bool,
    /// Dry run mode (preview without making changes)
    pub dry_run: bool,
    /// Overwrite existing files
    pub overwrite: bool,
    /// Custom naming templates (optional)
    pub templates: Option<TemplateConfig>,
}

/// Preview organize request (same as organize but always dry run).
#[derive(Debug)]
pub struct PreviewRequest {
    /// Source directory containing media files
    pub source: String,
    /// Target directory for organized files
    pub target: String,
    /// Organization method: symlink, hardlink, move, copy
    pub method: String,
    /// Whether to separate by media type
    pub separate_by_type: bool,
    /// Custom naming templates
    pub templates: Option<TemplateConfig>,
}

/// A template, or the standard one where none is set.
pub open spec fn or_standard(custom: Option<Seq<char>>, standard: Seq<char>) -> Seq<char> {
    match custom {
        Some(t) => t,
        None => standard,
    }
}

/// The templates that a request asks for: the standard ones, each replaced
/// by the custom one where one is set.
pub open spec fn templates_of(custom: Option<TemplateConfig>) -> NamingTemplateView {
    let standard = NamingTemplateView::standard();
    match custom {
        Some(t) => NamingTemplateView {
            movie_folder: or_standard(t.movie_folder.deep_view(), standard.movie_folder),
            movie_file: or_standard(t.movie_file.deep_view(), standard.movie_file),
            tv_folder: or_standard(t.tv_folder.deep_view(), standard.tv_folder),
            season_folder: or_standard(t.season_folder.deep_view(), standard.season_folder),
            episode_file: or_standard(t.episode_file.deep_view(), standard.episode_file),
        },
        None => standard,
    }
}

/// The method that a request asks for: the one that its name stands for, or
/// symbolic links where the name stands for none.
pub open spec fn method_of(name: Seq<char>) -> OrganizeMethod {
    match method_named(lowercase(name)) {
        Some(m) => m,
        None => OrganizeMethod::Symlink,
    }
}

/// The value of a flag that a request leaves out and that is on by default.
pub fn default_true() -> (r: bool)
    ensures
        r,
{
    true
}

/// How the outcome of organizing is reported.
pub open spec fn organize_report(dry_run: bool, total: usize, success: usize, failed: usize) -> Seq<
    char,
> {
    (if dry_run {
        "[DRY RUN] Would organize "@
    } else {
        "Organized "@
    }) + crate::text::natural_text(total as int) + " files ("@ + crate::text::natural_text(
        success as int,
    ) + " success, "@ + crate::text::natural_text(failed as int) + " failed)"@
}

impl NamingTemplate {
    /// The templates that a request asks for.
    pub fn from_custom(custom: &Option<TemplateConfig>) -> (r: NamingTemplate)
        ensures
            r@ == templates_of(*custom),
    {
        let mut template = NamingTemplate::default();
        match custom {
            Some(t) => {
                match &t.movie_folder {
                    Some(s) => {
                        template.movie_folder = s.clone();
                    },
                    None => {},
                }
                match &t.movie_file {
                    Some(s) => {
                        template.movie_file = s.clone();
                    },
                    None => {},
                }
                match &t.tv_folder {
                    Some(s) => {
                        template.tv_folder = s.clone();
                    },
                    None => {},
                }
                match &t.season_folder {
                    Some(s) => {
                        template.season_folder = s.clone();
                    },
                    None => {},
                }
                match &t.episode_file {
                    Some(s) => {
                        template.episode_file = s.clone();
                    },
                    None => {},
                }
            },
            None => {},
        }
        template
    }
}

impl OrganizeRequest {
    /// The request that previews what a request would do: a dry run that
    /// overwrites nothing.
    pub fn from_preview(preview: PreviewRequest) -> (r: OrganizeRequest)
        ensures
            r.source@ == preview.source@,
            r.target@ == preview.target@,
            r.method@ == preview.method@,
            r.separate_by_type == preview.separate_by_type,
            r.dry_run,
            !r.overwrite,
            r.templates == preview.templates,
    {
        OrganizeRequest {
            source: preview.source,
            target: preview.target,
            method: preview.method,
            separate_by_type: preview.separate_by_type,
            dry_run: true,
            overwrite: false,
            templates: preview.templates,
        }
    }
}

impl OrganizerConfig {
    /// The configuration that a request asks for.
    pub fn from_request(request: &OrganizeRequest) -> (r: OrganizerConfig)
        ensures
            r.source_dir@ == request.source@,
            r.target_dir@ == request.target@,
            r.method == method_of(request.method@),
            r.template@ == templates_of(request.templates),
            r.separate_by_type == request.separate_by_type,
            r.dry_run == request.dry_run,
            r.overwrite == request.overwrite,
    {
        let method = match OrganizeMethod::parse(request.method.as_str()) {
            Ok(m) => m,
            Err(_) => OrganizeMethod::Symlink,
        };
        OrganizerConfig {
            source_dir: request.source.clone(),
            target_dir: request.target.clone(),
            method,
            template: NamingTemplate::from_custom(&request.templates),
            separate_by_type: request.separate_by_type,
            dry_run: request.dry_run,
            overwrite: request.overwrite,
        }
    }
}

/// The sentence that reports the outcome of organizing.
pub fn organize_message(dry_run: bool, total: usize, success: usize, failed: usize) -> (r: String)
    ensures
        r@ == organize_report(dry_run, total, success, failed),
{
    let head = if dry_run {
        "[DRY RUN] Would organize "
    } else {
        "Organized "
    };
    let total_text = string_of(crate::text::unsigned_decimal(total as u64).as_slice());
    let success_text = string_of(crate::text::unsigned_decimal(success as u64).as_slice());
    let failed_text = string_of(crate::text::unsigned_decimal(failed as u64).as_slice());
    let a = concat(head, total_text.as_str());
    let b = concat(a.as_str(), " files (");
    let c = concat(b.as_str(), success_text.as_str());
    let d = concat(c.as_str(), " success, ");
    let e = concat(d.as_str(), failed_text.as_str());
    concat(e.as_str(), " failed)")
}

} // verus!
