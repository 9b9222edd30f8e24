//! The structured record that a filename is parsed into, and the pipeline
//! that fills it.

use std::path::PathBuf;
use vstd::prelude::*;
use super::patterns::{
    MediaHint, BRACKETS, CODEC, EPISODE_BRACKET, EPISODE_DASH, EPISODE_ONLY, HASH, QUALITY,
    RELEASE_GROUP_START, RESOLUTION, SEASON_EPISODE, SEASON_X_EPISODE, YEAR, YEAR_IN_PARENS,
};
use crate::pattern::{
    captures, is_match, regex_captures, regex_matches, regex_replace_all, replace_all, Captured,
};
use crate::text::{
    append_chars, chars_of, collapse_whitespace, collapsed, contains_text, decimal, decimal_text,
    find_text, first_occurrence, parse_i32, parsed_i32, string_of, to_uppercase, trim, trimmed,
    uppercase,
};

verus! {

/// Parsed information from a media filename.
#[derive(Debug)]
pub struct ParsedMedia {
    /// Cleaned title for searching
    pub title: String,
    /// Original title (before cleaning)
    pub original_title: String,
    /// Release year if found
    pub year: Option<i32>,
    /// Season number (1-indexed)
    pub season: Option<i32>,
    /// Episode number (1-indexed)
    pub episode: Option<i32>,
    /// Video resolution (e.g., "1080P")
    pub resolution: Option<String>,
    /// Source quality (e.g., "BluRay", "WEB-DL")
    pub quality: Option<String>,
    /// Video codec (e.g., "X265", "HEVC")
    pub codec: Option<String>,
    /// Release group name
    pub release_group: Option<String>,
    /// Hint about media type based on filename patterns
    pub hint: MediaHint,
}

/// What a `ParsedMedia` holds, as mathematical values.
pub struct ParsedMediaView {
    pub title: Seq<char>,
    pub original_title: Seq<char>,
    pub year: Option<i32>,
    pub season: Option<i32>,
    pub episode: Option<i32>,
    pub resolution: Option<Seq<char>>,
    pub quality: Option<Seq<char>>,
    pub codec: Option<Seq<char>>,
    pub release_group: Option<Seq<char>>,
    pub hint: MediaHint,
}

impl ParsedMediaView {
    /// The record of a name in which nothing was found.
    pub open spec fn empty() -> ParsedMediaView {
        ParsedMediaView {
            title: Seq::empty(),
            original_title: Seq::empty(),
            year: None,
            season: None,
            episode: None,
            resolution: None,
            quality: None,
            codec: None,
            release_group: None,
            hint: MediaHint::Unknown,
        }
    }
}

impl View for ParsedMedia {
    type V = ParsedMediaView;

    open spec fn view(&self) -> ParsedMediaView {
        ParsedMediaView {
            title: self.title@,
            original_title: self.original_title@,
            year: self.year,
            season: self.season,
            episode: self.episode,
            resolution: self.resolution.deep_view(),
            quality: self.quality.deep_view(),
            codec: self.codec.deep_view(),
            release_group: self.release_group.deep_view(),
            hint: self.hint,
        }
    }
}

impl Default for ParsedMedia {
    fn default() -> (r: ParsedMedia)
        ensures
            r@ == ParsedMediaView::empty(),
    {
        ParsedMedia {
            title: String::new(),
            original_title: String::new(),
            year: None,
            season: None,
            episode: None,
            resolution: None,
            quality: None,
            codec: None,
            release_group: None,
            hint: MediaHint::Unknown,
        }
    }
}

impl Clone for ParsedMedia {
    fn clone(&self) -> (r: ParsedMedia)
        ensures
            r@ == self@,
    {
        ParsedMedia {
            title: self.title.clone(),
            original_title: self.original_title.clone(),
            year: self.year,
            season: self.season,
            episode: self.episode,
            resolution: self.resolution.clone(),
            quality: self.quality.clone(),
            codec: self.codec.clone(),
            release_group: self.release_group.clone(),
            hint: self.hint,
        }
    }
}

/// A match as the name of a search gives it: where it starts, where it ends,
/// and the texts of its capture groups.
pub type Found = (int, int, Seq<Option<Seq<char>>>);

/// The text of capture group `k` of a match, counted from 0, where the group
/// exists and took part in the match.
pub open spec fn group_text(m: Found, k: int) -> Option<Seq<char>> {
    if 0 <= k < m.2.len() {
        m.2[k]
    } else {
        None
    }
}

/// The number that capture group `k` writes, if it writes one.
pub open spec fn group_number(m: Found, k: int) -> Option<i32> {
    match group_text(m, k) {
        Some(t) => parsed_i32(t),
        None => None,
    }
}

/// The text of the first match of `pattern` in `name`.
pub open spec fn matched_text(pattern: Seq<char>, name: Seq<char>) -> Option<Seq<char>> {
    match regex_captures(pattern, name) {
        Some(m) => Some(name.subrange(m.0, m.1)),
        None => None,
    }
}

/// A text between square brackets.
pub open spec fn bracketed(g: Seq<char>) -> Seq<char> {
    seq!['['] + g + seq![']']
}

/// The content of a leading bracket group as release group: kept unless it
/// is a checksum or holds a resolution tag.
pub open spec fn group_kept(g: Seq<char>, is_checksum: bool, has_resolution: bool) -> Option<
    Seq<char>,
> {
    if !is_checksum && !has_resolution {
        Some(g)
    } else {
        None
    }
}

/// The release group: the content of a bracket group at the very start,
/// unless that content is a checksum of eight hexadecimal digits or holds a
/// resolution tag.
pub open spec fn release_group_of(name: Seq<char>) -> Option<Seq<char>> {
    match regex_captures(RELEASE_GROUP_START@, name) {
        Some(m) => match group_text(m, 0) {
            Some(g) => group_kept(
                g,
                regex_matches(HASH@, bracketed(g)),
                regex_matches(RESOLUTION@, g),
            ),
            None => None,
        },
        None => None,
    }
}

/// The upper-case form of a text, where there is one.
pub open spec fn upper(t: Option<Seq<char>>) -> Option<Seq<char>> {
    match t {
        Some(s) => Some(uppercase(s)),
        None => None,
    }
}

/// Season, episode and the offset of the episode marker that a match gives.
/// A match of a pattern with a season takes the season from its first group
/// and the episode from its second; a match of a pattern without one gives
/// season 1 and takes the episode from its first group.
pub open spec fn numbers_found(m: Found, with_season: bool) -> (
    Option<i32>,
    Option<i32>,
    Option<int>,
) {
    if with_season {
        (group_number(m, 0), group_number(m, 1), Some(m.0))
    } else {
        (Some(1i32), group_number(m, 0), Some(m.0))
    }
}

/// Season, episode and the offset at which the episode marker starts. The
/// five episode patterns are tried in a fixed order and the first that
/// matches decides; the last three give season 1.
pub open spec fn episode_of(name: Seq<char>) -> (Option<i32>, Option<i32>, Option<int>) {
    if let Some(m) = regex_captures(SEASON_EPISODE@, name) {
        numbers_found(m, true)
    } else if let Some(m) = regex_captures(SEASON_X_EPISODE@, name) {
        numbers_found(m, true)
    } else if let Some(m) = regex_captures(EPISODE_DASH@, name) {
        numbers_found(m, false)
    } else if let Some(m) = regex_captures(EPISODE_ONLY@, name) {
        numbers_found(m, false)
    } else if let Some(m) = regex_captures(EPISODE_BRACKET@, name) {
        numbers_found(m, false)
    } else {
        (None, None, None)
    }
}

/// A year, where it is one and lies between 1900 and 2099.
pub open spec fn plausible_year(y: Option<i32>) -> Option<i32> {
    match y {
        Some(v) => if 1900 <= v <= 2099 {
            y
        } else {
            None
        },
        None => None,
    }
}

/// The year: the first year in parentheses if it is plausible, else the
/// first bare year if that is.
pub open spec fn year_of(name: Seq<char>) -> Option<i32> {
    let in_parens = match regex_captures(YEAR_IN_PARENS@, name) {
        Some(m) => plausible_year(group_number(m, 0)),
        None => None,
    };
    if in_parens is Some {
        in_parens
    } else {
        match matched_text(YEAR@, name) {
            Some(t) => plausible_year(parsed_i32(t)),
            None => None,
        }
    }
}

/// Whether `c` is Hiragana, Katakana or a CJK unified ideograph.
pub open spec fn is_cjk(c: char) -> bool {
    ||| '\u{3040}' <= c <= '\u{309F}'
    ||| '\u{30A0}' <= c <= '\u{30FF}'
    ||| '\u{4E00}' <= c <= '\u{9FFF}'
}

/// Whether the name holds a Hiragana, Katakana or CJK character.
pub open spec fn has_cjk(name: Seq<char>) -> bool {
    exists|i: int| 0 <= i < name.len() && is_cjk(#[trigger] name[i])
}

/// The hint, by the first rule that applies: a release group together with
/// an episode behind a dash is an anime; so is a name with a Hiragana,
/// Katakana or CJK character; a season and an episode are a TV show, or an
/// anime where the season is 1 and the episode stands behind a dash; a year
/// without an episode is a movie.
pub open spec fn hint_from(
    has_group: bool,
    dash: bool,
    cjk: bool,
    season: Option<i32>,
    episode: Option<i32>,
    year: Option<i32>,
) -> MediaHint {
    if has_group && dash {
        MediaHint::Anime
    } else if cjk {
        MediaHint::Anime
    } else if season is Some && episode is Some {
        if season == Some(1i32) && dash {
            MediaHint::Anime
        } else {
            MediaHint::TvShow
        }
    } else if year is Some && episode is None {
        MediaHint::Movie
    } else {
        MediaHint::Unknown
    }
}

/// The hint of a name, given what was found in it.
pub open spec fn hint_of(
    has_group: bool,
    season: Option<i32>,
    episode: Option<i32>,
    year: Option<i32>,
    name: Seq<char>,
) -> MediaHint {
    hint_from(has_group, regex_matches(EPISODE_DASH@, name), has_cjk(name), season, episode, year)
}

/// The span of the leading bracket group that is taken off the name: that
/// of the group, where a release group was captured.
pub open spec fn group_span(name: Seq<char>, has_group: bool) -> Option<(int, int)> {
    match regex_captures(RELEASE_GROUP_START@, name) {
        Some(m) => if has_group {
            Some((m.0, m.1))
        } else {
            None
        },
        None => None,
    }
}

/// The name without a span of it.
pub open spec fn without_span(name: Seq<char>, span: Option<(int, int)>) -> Seq<char> {
    match span {
        Some((start, end)) => name.subrange(0, start) + name.subrange(end, name.len() as int),
        None => name,
    }
}

/// An offset into the name as an offset into the name without a span of it:
/// less by the end of the span, and not below 0.
pub open spec fn offset_without_span(span: Option<(int, int)>, pos: int) -> int {
    match span {
        Some((start, end)) => if pos >= end {
            pos - end
        } else {
            0
        },
        None => pos,
    }
}

/// The first offset at which `needle` stands in `hay`.
pub open spec fn position_of(hay: Seq<char>, needle: Seq<char>) -> Option<int> {
    if contains_text(hay, needle) {
        Some(choose|at: int| first_occurrence(hay, needle, at))
    } else {
        None
    }
}

/// The text up to the year: up to the first `(year)` if that occurs, else up
/// to the first occurrence of the year's digits, else all of it.
pub open spec fn cut_at_year(text: Seq<char>, year: int) -> Seq<char> {
    match position_of(text, seq!['('] + decimal_text(year) + seq![')']) {
        Some(at) => text.take(at),
        None => match position_of(text, decimal_text(year)) {
            Some(at) => text.take(at),
            None => text,
        },
    }
}

/// The part of the text that holds the title: up to the episode marker where
/// one was found inside the text, else up to the year where there is one.
pub open spec fn cut_title(text: Seq<char>, end: Option<int>, year: Option<i32>) -> Seq<char> {
    match end {
        Some(pos) => if 0 <= pos < text.len() {
            text.take(pos)
        } else {
            text
        },
        None => match year {
            Some(y) => cut_at_year(text, y as int),
            None => text,
        },
    }
}

/// A blank in place of a dot, an underscore or a hyphen.
pub open spec fn separator_to_space(c: char) -> char {
    if c == '.' || c == '_' || c == '-' {
        ' '
    } else {
        c
    }
}

/// The text with separators turned into blanks, runs of white space
/// collapsed and the ends trimmed.
pub open spec fn tidied(text: Seq<char>) -> Seq<char> {
    trimmed(collapsed(text.map_values(|c: char| separator_to_space(c))))
}

/// The text with bracketed content and the resolution, quality and codec
/// tags blanked out, and then tidied.
pub open spec fn cleaned(text: Seq<char>) -> Seq<char> {
    let blank = seq![' '];
    let no_brackets = regex_replace_all(BRACKETS@, text, blank);
    let no_resolution = regex_replace_all(RESOLUTION@, no_brackets, blank);
    let no_quality = regex_replace_all(QUALITY@, no_resolution, blank);
    let no_codec = regex_replace_all(CODEC@, no_quality, blank);
    tidied(no_codec)
}

/// The part of a name that holds the title: the name without the span of
/// its release group, up to the episode marker or the year.
pub open spec fn title_part(
    name: Seq<char>,
    span: Option<(int, int)>,
    end: Option<int>,
    year: Option<i32>,
) -> Seq<char> {
    let adjusted = match end {
        Some(pos) => Some(offset_without_span(span, pos)),
        None => None,
    };
    cut_title(without_span(name, span), adjusted, year)
}

/// The title of a name, given whether a release group was captured, where the
/// episode marker starts and which year was found.
pub open spec fn title_of(
    name: Seq<char>,
    has_group: bool,
    end: Option<int>,
    year: Option<i32>,
) -> Seq<char> {
    cleaned(title_part(name, group_span(name, has_group), end, year))
}

/// What a file stem is parsed into. The empty stem gives the empty record.
pub open spec fn parsed(name: Seq<char>) -> ParsedMediaView {
    if name.len() == 0 {
        ParsedMediaView::empty()
    } else {
        let release_group = release_group_of(name);
        let (season, episode, end) = episode_of(name);
        let year = year_of(name);
        ParsedMediaView {
            title: title_of(name, release_group is Some, end, year),
            original_title: name,
            year,
            season,
            episode,
            resolution: upper(matched_text(RESOLUTION@, name)),
            quality: matched_text(QUALITY@, name),
            codec: upper(matched_text(CODEC@, name)),
            release_group,
            hint: hint_of(release_group is Some, season, episode, year, name),
        }
    }
}

/// The pieces of a match sit in its text where the match says.
proof fn lemma_pieces(c: &Captured, text: Seq<char>)
    requires
        c.whole() == text,
    ensures
        c.located().0 == c.before@.len(),
        c.located().1 == c.before@.len() + c.matched@.len(),
        c.before@.len() + c.matched@.len() + c.after@.len() == text.len(),
        text.subrange(0, c.located().0) == c.before@,
        text.subrange(c.located().0, c.located().1) == c.matched@,
        text.subrange(c.located().1, text.len() as int) == c.after@,
{
    assert(text.subrange(0, c.located().0) =~= c.before@);
    assert(text.subrange(c.located().0, c.located().1) =~= c.matched@);
    assert(text.subrange(c.located().1, text.len() as int) =~= c.after@);
}

/// There is only one first occurrence.
pub proof fn lemma_position_of(hay: Seq<char>, needle: Seq<char>, at: int)
    requires
        first_occurrence(hay, needle, at),
    ensures
        position_of(hay, needle) == Some(at),
{
    let chosen = choose|k: int| first_occurrence(hay, needle, k);
    assert(first_occurrence(hay, needle, chosen));
    if chosen < at {
        assert(false);
    }
    if at < chosen {
        assert(false);
    }
}

/// The number that capture group `k` of a match writes.
fn group_value(c: &Captured, k: usize) -> (r: Option<i32>)
    ensures
        r == group_number(c.located(), k as int),
{
    if k < c.groups.len() {
        assert(c.groups.deep_view()[k as int] == c.groups[k as int].deep_view());
        match &c.groups[k] {
            Some(t) => {
                let chars = chars_of(t.as_str());
                parse_i32(chars.as_slice())
            },
            None => None,
        }
    } else {
        None
    }
}

/// The text of the first match of `pattern` in `name`.
pub fn first_match(pattern: &str, name: &str) -> (r: Option<String>)
    ensures
        r.deep_view() == matched_text(pattern@, name@),
{
    match captures(pattern, name) {
        Some(c) => {
            proof {
                lemma_pieces(&c, name@);
            }
            Some(c.matched)
        },
        None => None,
    }
}

/// Whether `c` is Hiragana, Katakana or a CJK unified ideograph.
fn char_is_cjk(c: char) -> (r: bool)
    ensures
        r == is_cjk(c),
{
    ('\u{3040}' <= c && c <= '\u{309F}') || ('\u{30A0}' <= c && c <= '\u{30FF}') || ('\u{4E00}'
        <= c && c <= '\u{9FFF}')
}

/// `Some(n)` as a mathematical integer.
pub open spec fn offset(p: Option<usize>) -> Option<int> {
    match p {
        Some(n) => Some(n as int),
        None => None,
    }
}

/// The span of a match, where there is a match and it is asked for.
pub open spec fn span_of(c: Option<&Captured>) -> Option<(int, int)> {
    match c {
        Some(m) => Some((m.located().0, m.located().1)),
        None => None,
    }
}

#[verifier::external_type_specification]
#[verifier::external_body]
pub struct ExPathBuf(PathBuf);

/// Calls `Path::file_stem` and `OsStr::to_str`: the file name without its
/// last extension, where the path has a file name and the name is Unicode.
/// What a file name is depends on the platform, so nothing is promised of
/// the result.
#[verifier::external_body]
pub(crate) fn file_stem(path: &PathBuf) -> (r: Option<String>) {
    path.file_stem().and_then(|s| s.to_str()).map(|s| s.to_string())
}

/// The filename parser.
pub struct Parser;

impl Parser {
    /// Parse a file path to extract media information: the record of the
    /// path's file stem, which the record holds as its original title. A
    /// path without a file stem gives the empty record.
    pub fn parse(path: &PathBuf) -> (r: ParsedMedia)
        ensures
            r@ == parsed(r@.original_title),
    {
        Self::parse_stem(&file_stem(path))
    }

    /// The record of a file stem; where there is no stem, the empty record.
    pub fn parse_stem(stem: &Option<String>) -> (r: ParsedMedia)
        ensures
            r@ == (match stem.deep_view() {
                Some(s) => parsed(s),
                None => ParsedMediaView::empty(),
            }),
    {
        match stem {
            Some(s) => Self::parse_filename(s.as_str()),
            None => ParsedMedia::default(),
        }
    }

    /// Parse a filename string directly.
    pub fn parse_filename(filename: &str) -> (r: ParsedMedia)
        ensures
            r@ == parsed(filename@),
    {
        let name = chars_of(filename);
        if name.len() == 0 {
            return ParsedMedia::default();
        }
        let mut result = ParsedMedia::default();
        result.original_title = string_of(name.as_slice());
        result.release_group = Self::extract_release_group(filename);
        result.resolution = match first_match(RESOLUTION, filename) {
            Some(t) => Some(to_uppercase(t.as_str())),
            None => None,
        };
        result.quality = first_match(QUALITY, filename);
        result.codec = match first_match(CODEC, filename) {
            Some(t) => Some(to_uppercase(t.as_str())),
            None => None,
        };
        let (season, episode, title_end_pos) = Self::extract_episode_info(filename);
        result.season = season;
        result.episode = episode;
        result.year = Self::extract_year(filename);
        result.hint = Self::determine_hint(&result, filename);
        result.title = Self::extract_title(filename, title_end_pos, &result);
        result
    }

    /// The content of a leading bracket group as release group: kept unless
    /// it is a checksum or holds a resolution tag.
    pub fn keep_release_group(group: &str, is_checksum: bool, has_resolution: bool) -> (r: Option<
        String,
    >)
        ensures
            r.deep_view() == group_kept(group@, is_checksum, has_resolution),
    {
        if !is_checksum && !has_resolution {
            Some(group.to_owned())
        } else {
            None
        }
    }

    /// The content of a bracket group at the very start, unless it is a
    /// checksum or holds a resolution tag.
    pub fn extract_release_group(filename: &str) -> (r: Option<String>)
        ensures
            r.deep_view() == release_group_of(filename@),
    {
        match captures(RELEASE_GROUP_START, filename) {
            Some(c) => {
                if c.groups.len() == 0 {
                    return None;
                }
                assert(c.groups.deep_view()[0] == c.groups[0].deep_view());
                match &c.groups[0] {
                    Some(g) => {
                        let mut in_brackets: Vec<char> = Vec::new();
                        in_brackets.push('[');
                        let inner = chars_of(g.as_str());
                        append_chars(&mut in_brackets, inner.as_slice());
                        in_brackets.push(']');
                        assert(in_brackets@ =~= bracketed(g@));
                        let tagged = string_of(in_brackets.as_slice());
                        Self::keep_release_group(
                            g.as_str(),
                            is_match(HASH, tagged.as_str()),
                            is_match(RESOLUTION, g.as_str()),
                        )
                    },
                    None => None,
                }
            },
            None => None,
        }
    }

    /// Season, episode and the offset of the episode marker that a match of
    /// an episode pattern gives; `with_season` says whether the pattern has
    /// a group for the season.
    pub fn episode_numbers(found: &Captured, with_season: bool) -> (r: (
        Option<i32>,
        Option<i32>,
        Option<usize>,
    ))
        ensures
            (r.0, r.1, offset(r.2)) == numbers_found(found.located(), with_season),
    {
        let start = chars_of(found.before.as_str()).len();
        if with_season {
            (group_value(found, 0), group_value(found, 1), Some(start))
        } else {
            (Some(1), group_value(found, 0), Some(start))
        }
    }

    /// Season, episode and the offset of the episode marker, by the first of
    /// the five episode patterns that matches.
    pub fn extract_episode_info(filename: &str) -> (r: (Option<i32>, Option<i32>, Option<usize>))
        ensures
            (r.0, r.1, offset(r.2)) == episode_of(filename@),
    {
        match captures(SEASON_EPISODE, filename) {
            Some(c) => {
                return Self::episode_numbers(&c, true);
            },
            None => {},
        }
        match captures(SEASON_X_EPISODE, filename) {
            Some(c) => {
                return Self::episode_numbers(&c, true);
            },
            None => {},
        }
        match captures(EPISODE_DASH, filename) {
            Some(c) => {
                return Self::episode_numbers(&c, false);
            },
            None => {},
        }
        match captures(EPISODE_ONLY, filename) {
            Some(c) => {
                return Self::episode_numbers(&c, false);
            },
            None => {},
        }
        match captures(EPISODE_BRACKET, filename) {
            Some(c) => {
                return Self::episode_numbers(&c, false);
            },
            None => {},
        }
        (None, None, None)
    }

    /// Keeps a year that lies between 1900 and 2099.
    pub fn keep_plausible_year(y: Option<i32>) -> (r: Option<i32>)
        ensures
            r == plausible_year(y),
            r matches Some(v) ==> 1900 <= v <= 2099,
    {
        match y {
            Some(v) => if 1900 <= v && v <= 2099 {
                y
            } else {
                None
            },
            None => None,
        }
    }

    /// The year in parentheses if it is plausible, else the first bare year.
    pub fn extract_year(filename: &str) -> (r: Option<i32>)
        ensures
            r == year_of(filename@),
            r matches Some(y) ==> 1900 <= y <= 2099,
    {
        let in_parens = match captures(YEAR_IN_PARENS, filename) {
            Some(c) => Self::keep_plausible_year(group_value(&c, 0)),
            None => None,
        };
        if in_parens.is_some() {
            return in_parens;
        }
        match first_match(YEAR, filename) {
            Some(t) => {
                let chars = chars_of(t.as_str());
                Self::keep_plausible_year(parse_i32(chars.as_slice()))
            },
            None => None,
        }
    }

    /// Whether the name holds a Hiragana, Katakana or CJK character.
    pub fn holds_cjk(name: &str) -> (r: bool)
        ensures
            r == has_cjk(name@),
    {
        let chars = chars_of(name);
        let mut i: usize = 0;
        while i < chars.len()
            invariant
                i <= chars.len(),
                chars@ == name@,
                forall|j: int| 0 <= j < i ==> !is_cjk(#[trigger] chars@[j]),
            decreases chars.len() - i,
        {
            if char_is_cjk(chars[i]) {
                assert(is_cjk(name@[i as int]));
                return true;
            }
            i = i + 1;
        }
        false
    }

    /// The hint, by the first rule that applies.
    pub fn hint_from(
        has_group: bool,
        has_dash_episode: bool,
        has_cjk: bool,
        season: Option<i32>,
        episode: Option<i32>,
        year: Option<i32>,
    ) -> (r: MediaHint)
        ensures
            r == hint_from(has_group, has_dash_episode, has_cjk, season, episode, year),
    {
        if has_group && has_dash_episode {
            return MediaHint::Anime;
        }
        if has_cjk {
            return MediaHint::Anime;
        }
        if season.is_some() && episode.is_some() {
            let first_season = match season {
                Some(s) => s == 1,
                None => false,
            };
            if first_season && has_dash_episode {
                return MediaHint::Anime;
            }
            return MediaHint::TvShow;
        }
        if year.is_some() && episode.is_none() {
            return MediaHint::Movie;
        }
        MediaHint::Unknown
    }

    /// The hint that the name and what was found in it give.
    pub fn determine_hint(result: &ParsedMedia, filename: &str) -> (r: MediaHint)
        ensures
            r == hint_of(
                result.release_group is Some,
                result.season,
                result.episode,
                result.year,
                filename@,
            ),
    {
        Self::hint_from(
            result.release_group.is_some(),
            is_match(EPISODE_DASH, filename),
            Self::holds_cjk(filename),
            result.season,
            result.episode,
            result.year,
        )
    }

    /// The text up to the year: up to the first `(year)` if that occurs, else
    /// up to the first occurrence of the year's digits, else all of it.
    pub fn truncate_at_year(text: Vec<char>, year: i32) -> (r: Vec<char>)
        ensures
            r@ == cut_at_year(text@, year as int),
    {
        let mut text = text;
        let digits = decimal(year as i64);
        let mut in_parens: Vec<char> = Vec::new();
        in_parens.push('(');
        append_chars(&mut in_parens, digits.as_slice());
        in_parens.push(')');
        assert(in_parens@ =~= seq!['('] + decimal_text(year as int) + seq![')']);
        match find_text(text.as_slice(), in_parens.as_slice()) {
            Some(at) => {
                proof {
                    lemma_position_of(text@, in_parens@, at as int);
                }
                text.truncate(at);
            },
            None => {
                match find_text(text.as_slice(), digits.as_slice()) {
                    Some(at) => {
                        proof {
                            lemma_position_of(text@, digits@, at as int);
                        }
                        text.truncate(at);
                    },
                    None => {},
                }
            },
        }
        text
    }

    /// The part of a name that holds the title. `group` is the match of the
    /// leading bracket group that is taken off the name, if one is; `end` is
    /// the offset of the episode marker in the name.
    pub fn title_part(name: &str, group: Option<&Captured>, end: Option<usize>, year: Option<i32>)
        -> (r: Vec<char>)
        requires
            group matches Some(c) ==> c.whole() == name@,
        ensures
            r@ == title_part(name@, span_of(group), offset(end), year),
    {
        let mut text = chars_of(name);
        let mut group_end: Option<usize> = None;
        match group {
            Some(c) => {
                proof {
                    lemma_pieces(c, name@);
                }
                let before = chars_of(c.before.as_str());
                let matched = chars_of(c.matched.as_str());
                let after = chars_of(c.after.as_str());
                assert(before.len() + matched.len() + after.len() == text.len());
                group_end = Some(before.len() + matched.len());
                text = before;
                append_chars(&mut text, after.as_slice());
            },
            None => {},
        }
        assert(text@ == without_span(name@, span_of(group)));
        let adjusted: Option<usize> = match end {
            Some(pos) => Some(
                match group_end {
                    Some(end) => if pos >= end {
                        pos - end
                    } else {
                        0
                    },
                    None => pos,
                },
            ),
            None => None,
        };
        match adjusted {
            Some(pos) => {
                if pos < text.len() {
                    text.truncate(pos);
                }
            },
            None => {
                match year {
                    Some(y) => {
                        text = Self::truncate_at_year(text, y);
                    },
                    None => {},
                }
            },
        }
        text
    }

    /// Turns separators into blanks, collapses white space and trims.
    pub fn tidy(text: &str) -> (r: String)
        ensures
            r@ == tidied(text@),
    {
        let chars = chars_of(text);
        let mut spaced: Vec<char> = Vec::new();
        let mut i: usize = 0;
        while i < chars.len()
            invariant
                i <= chars.len(),
                spaced@ == chars@.take(i as int).map_values(|c: char| separator_to_space(c)),
            decreases chars.len() - i,
        {
            let c = chars[i];
            if c == '.' || c == '_' || c == '-' {
                spaced.push(' ');
            } else {
                spaced.push(c);
            }
            assert(spaced@ =~= chars@.take(i + 1).map_values(|c: char| separator_to_space(c)));
            i = i + 1;
        }
        assert(chars@.take(chars.len() as int) == chars@);
        let collapsed_text = collapse_whitespace(spaced.as_slice());
        let title = trim(collapsed_text.as_slice());
        string_of(title.as_slice())
    }

    /// Blanks out brackets and tags, and tidies what is left.
    pub fn clean(text: &str) -> (r: String)
        ensures
            r@ == cleaned(text@),
    {
        proof {
            reveal_strlit(" ");
            assert(" "@ =~= seq![' ']);
        }
        let no_brackets = replace_all(BRACKETS, text, " ");
        let no_resolution = replace_all(RESOLUTION, no_brackets.as_str(), " ");
        let no_quality = replace_all(QUALITY, no_resolution.as_str(), " ");
        let no_codec = replace_all(CODEC, no_quality.as_str(), " ");
        Self::tidy(no_codec.as_str())
    }

    /// The cleaned title of the name.
    pub fn extract_title(filename: &str, title_end_pos: Option<usize>, result: &ParsedMedia) -> (r:
        String)
        ensures
            r@ == title_of(
                filename@,
                result.release_group is Some,
                offset(title_end_pos),
                result.year,
            ),
    {
        let group = if result.release_group.is_some() {
            captures(RELEASE_GROUP_START, filename)
        } else {
            None
        };
        let part = match &group {
            Some(c) => Self::title_part(filename, Some(c), title_end_pos, result.year),
            None => Self::title_part(filename, None, title_end_pos, result.year),
        };
        let text = string_of(part.as_slice());
        Self::clean(text.as_str())
    }
}

/// Where the season-and-episode pattern matches in a name that is not empty
/// and its two groups write the numbers `n` and `m`, the record has season
/// `n` and episode `m`, and its hint is `TvShow` or `Anime`.
pub proof fn lemma_season_episode_wins(name: Seq<char>, n: i32, m: i32)
    requires
        name.len() > 0,
        regex_captures(SEASON_EPISODE@, name) matches Some(found) && group_number(found, 0)
            == Some(n) && group_number(found, 1) == Some(m),
    ensures
        parsed(name).season == Some(n),
        parsed(name).episode == Some(m),
        parsed(name).hint == MediaHint::TvShow || parsed(name).hint == MediaHint::Anime,
{
}

/// The year of a record lies between 1900 and 2099.
pub proof fn lemma_year_is_plausible(name: Seq<char>)
    ensures
        parsed(name).year matches Some(y) ==> 1900 <= y <= 2099,
{
}

/// A leading bracket group whose content, put back in brackets, matches the
/// checksum pattern is not recorded as the release group.
pub proof fn lemma_checksum_is_no_group(name: Seq<char>)
    requires
        regex_captures(RELEASE_GROUP_START@, name) matches Some(found) && group_text(found, 0)
            matches Some(g) && regex_matches(HASH@, bracketed(g)),
    ensures
        parsed(name).release_group is None,
{
}

/// A name that holds a Hiragana, Katakana or CJK character has the hint
/// `Anime`.
pub proof fn lemma_cjk_is_anime(name: Seq<char>)
    requires
        has_cjk(name),
    ensures
        parsed(name).hint == MediaHint::Anime,
{
}

} // verus!
