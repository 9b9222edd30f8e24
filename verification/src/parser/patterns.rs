//! The pattern set of the filename parser, and the hint that a filename gives
//! about its kind of media.

use vstd::prelude::*;

verus! {

/// Hint about what type of media this might be.
#[derive(Clone, Copy, Debug, PartialEq, Eq, Structural)]
pub enum MediaHint {
    Unknown,
    Movie,
    TvShow,
    Anime,
}

impl Default for MediaHint {
    fn default() -> (r: MediaHint)
        ensures
            r == MediaHint::Unknown,
    {
        MediaHint::Unknown
    }
}

/// A bare year from 1900 to 2099, as a whole word.
pub const YEAR: &'static str = r"\b(19|20)\d{2}\b";

/// Four digits in parentheses.
pub const YEAR_IN_PARENS: &'static str = r"\((\d{4})\)";

/// `S01E01`, `s1e1`.
pub const SEASON_EPISODE: &'static str = r"(?i)[Ss](\d{1,2})[Ee](\d{1,3})";

/// `1x01`.
pub const SEASON_X_EPISODE: &'static str = r"(?i)(\d{1,2})[xX](\d{1,3})";

/// `E01`, `Ep01`, `EP.01`.
pub const EPISODE_ONLY: &'static str = r"(?i)(?:E|EP|Ep)\.?(\d{1,3})";

/// `- 01`, `- 01v2`, followed by white space, a bracket or the end.
pub const EPISODE_DASH: &'static str = r"[-–]\s*(\d{2,3})(?:v\d)?(?:\s|$|\[)";

/// `[01]`, `[01v2]`.
pub const EPISODE_BRACKET: &'static str = r"\[(\d{2,3})(?:v\d)?\]";

/// `480p` to `2160p`, `4K`, `UHD`.
pub const RESOLUTION: &'static str = r"(?i)(480p|576p|720p|1080p|2160p|4[kK]|UHD)";

/// The tag of the source.
pub const QUALITY: &'static str =
    r"(?i)(HDTV|WEB[-.]?DL|WEB[-.]?Rip|BluRay|BDRip|BRRip|DVDRip|HDCAM|CAM|TS|TC|SCR|R5|DVDScr|DVDR|Remux)";

/// The tag of the video codec.
pub const CODEC: &'static str = r"(?i)(x264|x265|H\.?264|H\.?265|HEVC|AVC|XviD|DivX|VP9|AV1)";

/// `[Group]` at the very start.
pub const RELEASE_GROUP_START: &'static str = r"^\[([^\]]+)\]";

/// Anything in square brackets, parentheses or braces.
pub const BRACKETS: &'static str = r"\[[^\]]*\]|\([^)]*\)|\{[^}]*\}";

/// A checksum of eight hexadecimal digits in square brackets.
pub const HASH: &'static str = r"\[[A-Fa-f0-9]{8}\]";

} // verus!
