//! The plain parser: title, year, season, episode and resolution of a file
//! name, by three patterns and without any hint.

use std::path::PathBuf;
use vstd::prelude::*;
use super::filename::{
    file_stem, first_match, group_number, lemma_position_of, matched_text, position_of, Found,
};
use super::patterns::YEAR;
use crate::pattern::{captures, regex_captures, regex_replace_all, replace_all, Captured};
use crate::text::{chars_of, find_text, parse_i32, parsed_i32, string_of, trim, trimmed};

verus! {

/// `S01E01`, with two digits at most for either number.
pub const SEASON_EPISODE: &'static str = r"(?i)S(\d{1,2})E(\d{1,2})";

/// `480p` to `2160p`, `4k`.
pub const RESOLUTION: &'static str = r"(?i)(480p|720p|1080p|2160p|4k)";

/// What stands between an opening and the next closing bracket of any kind.
pub const JUNK: &'static str = r"[\(\[\{].*?[\)\]\}]";

/// What the plain parser finds in a file name.
#[derive(Debug)]
pub struct ParsedInfo {
    pub title: String,
    pub year: Option<i32>,
    pub season: Option<i32>,
    pub episode: Option<i32>,
    pub resolution: Option<String>,
}

/// What a `ParsedInfo` holds, as mathematical values.
pub struct ParsedInfoView {
    pub title: Seq<char>,
    pub year: Option<i32>,
    pub season: Option<i32>,
    pub episode: Option<i32>,
    pub resolution: Option<Seq<char>>,
}

impl View for ParsedInfo {
    type V = ParsedInfoView;

    open spec fn view(&self) -> ParsedInfoView {
        ParsedInfoView {
            title: self.title@,
            year: self.year,
            season: self.season,
            episode: self.episode,
            resolution: self.resolution.deep_view(),
        }
    }
}

/// A number, or 0 where there is none.
pub open spec fn or_zero(n: Option<i32>) -> i32 {
    match n {
        Some(v) => v,
        None => 0,
    }
}

/// The year that a matched text writes, where it is greater than 0.
pub open spec fn year_written(text: Option<Seq<char>>) -> Option<i32> {
    match text {
        Some(t) => if or_zero(parsed_i32(t)) > 0 {
            Some(or_zero(parsed_i32(t)))
        } else {
            None
        },
        None => None,
    }
}

/// Season and episode that a match writes, 0 for a number that cannot be
/// read.
pub open spec fn numbers_written(found: Option<Found>) -> (Option<i32>, Option<i32>) {
    match found {
        Some(m) => (
            if 0 < m.2.len() && m.2[0] is Some {
                Some(or_zero(group_number(m, 0)))
            } else {
                None
            },
            if 1 < m.2.len() && m.2[1] is Some {
                Some(or_zero(group_number(m, 1)))
            } else {
                None
            },
        ),
        None => (None, None),
    }
}

/// A blank in place of a dot or an underscore.
pub open spec fn dot_to_space(c: char) -> char {
    if c == '.' || c == '_' {
        ' '
    } else {
        c
    }
}

/// The part of the spaced name that holds the title: up to the first
/// occurrence of the text of the year where a year was matched; else up to
/// the offset of the season marker where one was matched inside the name.
pub open spec fn title_end(
    spaced: Seq<char>,
    year_text: Option<Seq<char>>,
    marker: Option<int>,
) -> Seq<char> {
    match year_text {
        Some(y) => match position_of(spaced, y) {
            Some(at) => spaced.take(at),
            None => spaced,
        },
        None => match marker {
            Some(at) => if 0 <= at < spaced.len() {
                spaced.take(at)
            } else {
                spaced
            },
            None => spaced,
        },
    }
}

/// The offset at which a match starts.
pub open spec fn start_found(found: Option<Found>) -> Option<int> {
    match found {
        Some(m) => Some(m.0),
        None => None,
    }
}

/// What the plain parser makes of a file stem.
pub open spec fn plainly_parsed(name: Seq<char>) -> ParsedInfoView {
    let year_text = matched_text(YEAR@, name);
    let marker = regex_captures(SEASON_EPISODE@, name);
    let spaced = name.map_values(|c: char| dot_to_space(c));
    ParsedInfoView {
        title: trimmed(
            regex_replace_all(
                JUNK@,
                title_end(spaced, year_text, start_found(marker)),
                Seq::empty(),
            ),
        ),
        year: year_written(year_text),
        season: numbers_written(marker).0,
        episode: numbers_written(marker).1,
        resolution: matched_text(RESOLUTION@, name),
    }
}

/// The number that a group writes, or 0; nothing where the group is missing.
fn group_or_zero(c: &Captured, k: usize) -> (r: Option<i32>)
    ensures
        r == (if k < c.located().2.len() && c.located().2[k as int] is Some {
            Some(or_zero(group_number(c.located(), k as int)))
        } else {
            None
        }),
{
    if k < c.groups.len() {
        assert(c.groups.deep_view()[k as int] == c.groups[k as int].deep_view());
        match &c.groups[k] {
            Some(t) => {
                let chars = chars_of(t.as_str());
                match parse_i32(chars.as_slice()) {
                    Some(n) => Some(n),
                    None => Some(0),
                }
            },
            None => None,
        }
    } else {
        None
    }
}

/// The plain parser.
pub struct Parser;

impl Parser {
    /// The year that a matched text writes, where it is greater than 0.
    pub fn year_from(text: &Option<String>) -> (r: Option<i32>)
        ensures
            r == year_written(text.deep_view()),
    {
        match text {
            Some(t) => {
                let chars = chars_of(t.as_str());
                let year = match parse_i32(chars.as_slice()) {
                    Some(y) => y,
                    None => 0,
                };
                if year > 0 {
                    Some(year)
                } else {
                    None
                }
            },
            None => None,
        }
    }

    /// The part of the spaced name that holds the title.
    pub fn title_part(spaced: Vec<char>, year_text: &Option<String>, marker: Option<usize>) -> (r:
        Vec<char>)
        ensures
            r@ == title_end(
                spaced@,
                year_text.deep_view(),
                match marker {
                    Some(at) => Some(at as int),
                    None => None,
                },
            ),
    {
        let mut title = spaced;
        match year_text {
            Some(y) => {
                let needle = chars_of(y.as_str());
                match find_text(title.as_slice(), needle.as_slice()) {
                    Some(at) => {
                        proof {
                            lemma_position_of(title@, needle@, at as int);
                        }
                        title.truncate(at);
                    },
                    None => {},
                }
            },
            None => {
                match marker {
                    Some(at) => {
                        if at < title.len() {
                            title.truncate(at);
                        }
                    },
                    None => {},
                }
            },
        }
        title
    }

    /// Parses a file stem.
    pub fn parse_stem(name: &str) -> (r: ParsedInfo)
        ensures
            r@ == plainly_parsed(name@),
    {
        let year_text = first_match(YEAR, name);
        let marker = captures(SEASON_EPISODE, name);
        let (season, episode, start) = match &marker {
            Some(c) => (
                group_or_zero(c, 0),
                group_or_zero(c, 1),
                Some(chars_of(c.before.as_str()).len()),
            ),
            None => (None, None, None),
        };
        let resolution = first_match(RESOLUTION, name);
        let chars = chars_of(name);
        let mut spaced: Vec<char> = Vec::new();
        let mut i: usize = 0;
        while i < chars.len()
            invariant
                i <= chars.len(),
                spaced@ == chars@.take(i as int).map_values(|c: char| dot_to_space(c)),
            decreases chars.len() - i,
        {
            let c = chars[i];
            if c == '.' || c == '_' {
                spaced.push(' ');
            } else {
                spaced.push(c);
            }
            assert(spaced@ =~= chars@.take(i + 1).map_values(|c: char| dot_to_space(c)));
            i = i + 1;
        }
        assert(chars@.take(chars.len() as int) == chars@);
        let cut = Self::title_part(spaced, &year_text, start);
        proof {
            reveal_strlit("");
            assert(""@ =~= Seq::<char>::empty());
        }
        let no_junk = replace_all(JUNK, string_of(cut.as_slice()).as_str(), "");
        let title = trim(chars_of(no_junk.as_str()).as_slice());
        ParsedInfo {
            title: string_of(title.as_slice()),
            year: Self::year_from(&year_text),
            season,
            episode,
            resolution,
        }
    }

    /// Parses the file stem of a path; a path without one is parsed as the
    /// empty stem.
    pub fn parse(path: &PathBuf) -> (r: ParsedInfo)
        ensures
            exists|stem: Seq<char>| r@ == #[trigger] plainly_parsed(stem),
    {
        match file_stem(path) {
            Some(stem) => Self::parse_stem(stem.as_str()),
            None => Self::parse_stem(""),
        }
    }
}

} // verus!
