//! The rules by which a library folder is scanned: which files count as
//! media, what marks a disc, and how the outcome of a scan is counted.
//! Walking the folder and recording what is found is done by whoever uses
//! these rules.

use std::path::PathBuf;
use vstd::prelude::*;
use crate::matcher::{Confidence, ScoredMatch};
use crate::organizer::extension_of;
use crate::parser::filename::file_stem;
use crate::types::MediaType;
use crate::text::{same_str, 
    ascii_lowercase, chars_of, eq_ignore_ascii_case, lowercase, same_ignoring_ascii_case,
    same_text, to_ascii_lowercase, to_lowercase,
};

verus! {

/// The kind of media that a library folder holds.
#[derive(Clone, Copy, Debug, PartialEq, Eq, Structural)]
pub enum LibraryKind {
    Movie,
    Tv,
    Comic,
    Book,
}

/// The kind of disc that a file marks.
#[derive(Clone, Copy, Debug, PartialEq, Eq, Structural)]
pub enum DiscType {
    BluRay,
    Dvd,
}

/// Scan result.
#[derive(Clone, Copy, Debug, PartialEq, Eq, Structural)]
pub struct ScanResult {
    pub total_files: usize,
    pub new_items: usize,
    pub existing_items: usize,
    pub errors: usize,
}

/// File scanner errors.
#[derive(Debug)]
pub enum FileScannerError {
    PathNotFound(String),
    NotADirectory(String),
    DatabaseError(String),
    IoError(String),
}

/// Metadata agent errors.
#[derive(Debug)]
pub enum MetadataAgentError {
    SearchFailed(String),
    NoMatchingResults,
    DetailsFailed(String),
    DatabaseError(String),
    MediaItemNotFound,
    UnsupportedMediaType(String),
}

/// The view of a file scanner error.
pub enum FileScannerErrorView {
    PathNotFound(Seq<char>),
    NotADirectory(Seq<char>),
    DatabaseError(Seq<char>),
    IoError(Seq<char>),
}

impl View for FileScannerError {
    type V = FileScannerErrorView;

    open spec fn view(&self) -> FileScannerErrorView {
        match self {
            FileScannerError::PathNotFound(p) => FileScannerErrorView::PathNotFound(p@),
            FileScannerError::NotADirectory(p) => FileScannerErrorView::NotADirectory(p@),
            FileScannerError::DatabaseError(m) => FileScannerErrorView::DatabaseError(m@),
            FileScannerError::IoError(m) => FileScannerErrorView::IoError(m@),
        }
    }
}

/// Whether a library folder can be scanned: it must exist and be a
/// directory.
pub fn check_folder(path: &str, exists: bool, is_dir: bool) -> (r: Result<(), FileScannerError>)
    ensures
        match r {
            Ok(_) => exists && is_dir,
            Err(e) => e@ == (if !exists {
                FileScannerErrorView::PathNotFound(path@)
            } else {
                FileScannerErrorView::NotADirectory(path@)
            }) && !(exists && is_dir),
        },
{
    if !exists {
        Err(FileScannerError::PathNotFound(path.to_owned()))
    } else if !is_dir {
        Err(FileScannerError::NotADirectory(path.to_owned()))
    } else {
        Ok(())
    }
}

impl LibraryKind {
    /// The kind of media by which metadata for an item of this kind is
    /// searched: a movie or a TV show as such, a comic or a book without a
    /// kind.
    pub open spec fn searched_as(self) -> Option<MediaType> {
        match self {
            LibraryKind::Movie => Some(MediaType::Movie),
            LibraryKind::Tv => Some(MediaType::Tv),
            LibraryKind::Comic | LibraryKind::Book => None,
        }
    }

    /// The kind of media by which metadata for an item of this kind is
    /// searched.
    pub fn media_type(&self) -> (r: Option<MediaType>)
        ensures
            r == self.searched_as(),
    {
        match self {
            LibraryKind::Movie => Some(MediaType::Movie),
            LibraryKind::Tv => Some(MediaType::Tv),
            LibraryKind::Comic | LibraryKind::Book => None,
        }
    }
}

/// The match whose metadata is saved for a library item: the first of the
/// ranking, where its confidence is `Low` or stronger.
pub fn accept_match(ranked: Vec<ScoredMatch>) -> (r: Result<ScoredMatch, MetadataAgentError>)
    ensures
        match r {
            Ok(m) => ranked.len() > 0 && m@ == ranked[0]@ && m.confidence.level()
                >= Confidence::Low.level(),
            Err(e) => e is NoMatchingResults && (ranked.len() == 0 || ranked[0].confidence.level()
                < Confidence::Low.level()),
        },
{
    let mut ranked = ranked;
    if ranked.len() == 0 {
        return Err(MetadataAgentError::NoMatchingResults);
    }
    let best = ranked.swap_remove(0);
    if best.confidence.at_least(Confidence::Low) {
        Ok(best)
    } else {
        Err(MetadataAgentError::NoMatchingResults)
    }
}

/// What became of a media file that a scan found.
#[derive(Clone, Copy, Debug, PartialEq, Eq, Structural)]
pub enum Recorded {
    /// The catalogue had it already
    Existing,
    /// It was added to the catalogue
    Created,
    /// The catalogue could not be read or written
    Failed,
}

/// One more than a count, or the count itself where it cannot grow.
pub open spec fn incremented(n: usize) -> usize {
    if n < usize::MAX {
        (n + 1) as usize
    } else {
        n
    }
}

/// One more than a count.
fn increment(n: usize) -> (r: usize)
    ensures
        r == incremented(n),
{
    if n < usize::MAX {
        n + 1
    } else {
        n
    }
}

impl ScanResult {
    /// The result of a scan that found nothing.
    pub fn new() -> (r: ScanResult)
        ensures
            r == (ScanResult { total_files: 0, new_items: 0, existing_items: 0, errors: 0 }),
    {
        ScanResult { total_files: 0, new_items: 0, existing_items: 0, errors: 0 }
    }

    /// The result of a scan that failed as a whole: one error and nothing
    /// else.
    pub fn failed() -> (r: ScanResult)
        ensures
            r == (ScanResult { total_files: 0, new_items: 0, existing_items: 0, errors: 1 }),
    {
        ScanResult { total_files: 0, new_items: 0, existing_items: 0, errors: 1 }
    }

    /// Counts a media file that was found.
    pub fn count_file(&mut self)
        ensures
            *final(self) == (ScanResult {
                total_files: incremented(old(self).total_files),
                ..*old(self)
            }),
    {
        self.total_files = increment(self.total_files);
    }

    /// Counts a file whose size could not be read.
    pub fn count_error(&mut self)
        ensures
            *final(self) == (ScanResult { errors: incremented(old(self).errors), ..*old(self) }),
    {
        self.errors = increment(self.errors);
    }

    /// Counts what became of a media file.
    pub fn record(&mut self, outcome: Recorded)
        ensures
            *final(self) == (match outcome {
                Recorded::Existing => ScanResult {
                    existing_items: incremented(old(self).existing_items),
                    ..*old(self)
                },
                Recorded::Created => ScanResult {
                    new_items: incremented(old(self).new_items),
                    ..*old(self)
                },
                Recorded::Failed => ScanResult {
                    errors: incremented(old(self).errors),
                    ..*old(self)
                },
            }),
    {
        match outcome {
            Recorded::Existing => {
                self.existing_items = increment(self.existing_items);
            },
            Recorded::Created => {
                self.new_items = increment(self.new_items);
            },
            Recorded::Failed => {
                self.errors = increment(self.errors);
            },
        }
    }
}

/// The extensions of the files that count as media of a kind.
pub open spec fn supported_extensions(kind: LibraryKind) -> Seq<Seq<char>> {
    match kind {
        LibraryKind::Movie | LibraryKind::Tv => seq![
            "mkv"@,
            "mp4"@,
            "avi"@,
            "mov"@,
            "wmv"@,
            "flv"@,
            "webm"@,
            "m4v"@,
            "mpg"@,
            "mpeg"@,
            "m2ts"@,
            "ts"@,
            "iso"@,
        ],
        LibraryKind::Comic => seq!["cbz"@, "cbr"@, "cb7"@, "cbt"@, "pdf"@],
        LibraryKind::Book => seq!["epub"@, "mobi"@, "azw3"@, "pdf"@],
    }
}

/// Get supported file extensions for a media type.
pub fn get_supported_extensions(kind: LibraryKind) -> (r: Vec<&'static str>)
    ensures
        r.deep_view() == supported_extensions(kind),
{
    let mut v: Vec<&'static str> = Vec::new();
    match kind {
        LibraryKind::Movie | LibraryKind::Tv => {
            v.push("mkv");
            v.push("mp4");
            v.push("avi");
            v.push("mov");
            v.push("wmv");
            v.push("flv");
            v.push("webm");
            v.push("m4v");
            v.push("mpg");
            v.push("mpeg");
            v.push("m2ts");
            v.push("ts");
            v.push("iso");
        },
        LibraryKind::Comic => {
            v.push("cbz");
            v.push("cbr");
            v.push("cb7");
            v.push("cbt");
            v.push("pdf");
        },
        LibraryKind::Book => {
            v.push("epub");
            v.push("mobi");
            v.push("azw3");
            v.push("pdf");
        },
    }
    assert(v.deep_view() =~= supported_extensions(kind));
    v
}

/// Whether a list of extensions holds one.
pub fn has_extension(list: &Vec<&'static str>, extension: &str) -> (r: bool)
    ensures
        r == list.deep_view().contains(extension@),
{
    let mut i: usize = 0;
    while i < list.len()
        invariant
            i <= list.len(),
            forall|j: int| 0 <= j < i ==> list.deep_view()[j] != extension@,
        decreases list.len() - i,
    {
        if same_str(list[i], extension) {
            assert(list.deep_view()[i as int] == extension@);
            return true;
        }
        i = i + 1;
    }
    false
}

/// The kind of disc that a file name marks, whatever the case of its ASCII
/// letters.
pub open spec fn disc_marked(file_name: Seq<char>) -> Option<DiscType> {
    let lower = ascii_lowercase(file_name);
    if lower == "index.bdmv"@ || lower == "movieobject.bdmv"@ {
        Some(DiscType::BluRay)
    } else if lower == "video_ts.ifo"@ {
        Some(DiscType::Dvd)
    } else {
        None
    }
}

/// The kind of disc that a file name marks.
pub fn detect_disc_indicator(file_name: &str) -> (r: Option<DiscType>)
    ensures
        r == disc_marked(file_name@),
{
    let chars = chars_of(file_name);
    let lower = to_ascii_lowercase(chars.as_slice());
    let index = chars_of("index.bdmv");
    let movie_object = chars_of("movieobject.bdmv");
    let video_ts = chars_of("video_ts.ifo");
    if same_text(lower.as_slice(), index.as_slice()) || same_text(
        lower.as_slice(),
        movie_object.as_slice(),
    ) {
        Some(DiscType::BluRay)
    } else if same_text(lower.as_slice(), video_ts.as_slice()) {
        Some(DiscType::Dvd)
    } else {
        None
    }
}

/// Whether a part of a path is the directory of a disc.
pub open spec fn disc_directory(part: Option<Seq<char>>) -> bool {
    match part {
        Some(p) => same_ignoring_ascii_case(p, "BDMV"@) || same_ignoring_ascii_case(
            p,
            "VIDEO_TS"@,
        ),
        None => false,
    }
}

/// Whether one of the parts of a path is the directory of a disc. A part
/// that is not Unicode is given as `None`.
pub open spec fn inside_disc(parts: Seq<Option<Seq<char>>>) -> bool {
    exists|i: int| 0 <= i < parts.len() && disc_directory(#[trigger] parts[i])
}

/// Whether one of the parts of a path is `BDMV` or `VIDEO_TS`, whatever the
/// case.
pub fn in_disc_structure(parts: &Vec<Option<String>>) -> (r: bool)
    ensures
        r == inside_disc(parts.deep_view()),
{
    let bdmv = chars_of("BDMV");
    let video_ts = chars_of("VIDEO_TS");
    let mut i: usize = 0;
    while i < parts.len()
        invariant
            i <= parts.len(),
            bdmv@ == "BDMV"@,
            video_ts@ == "VIDEO_TS"@,
            forall|j: int| 0 <= j < i ==> !disc_directory(#[trigger] parts.deep_view()[j]),
        decreases parts.len() - i,
    {
        assert(parts.deep_view()[i as int] == parts[i as int].deep_view());
        let is_disc = match &parts[i] {
            Some(p) => {
                let chars = chars_of(p.as_str());
                eq_ignore_ascii_case(chars.as_slice(), bdmv.as_slice()) || eq_ignore_ascii_case(
                    chars.as_slice(),
                    video_ts.as_slice(),
                )
            },
            None => false,
        };
        if is_disc {
            return true;
        }
        i = i + 1;
    }
    false
}

/// Calls `Path::components` and, for each component, `OsStr::to_str`: the
/// parts of the path in order, `None` for a part that is not Unicode. How a
/// path falls into parts depends on the platform, so nothing is promised of
/// the result.
#[verifier::external_body]
fn components_of(path: &PathBuf) -> (r: Vec<Option<String>>) {
    path.components().map(|c| c.as_os_str().to_str().map(|s| s.to_string())).collect()
}

/// Calls `Path::file_name` and `OsStr::to_str`: the file name, where the
/// path has one that is Unicode. Nothing is promised of the result.
#[verifier::external_body]
fn name_of(path: &PathBuf) -> (r: Option<String>) {
    path.file_name().and_then(|s| s.to_str()).map(|s| s.to_string())
}

/// Check if a path is part of a disc structure (BDMV or VIDEO_TS).
pub fn is_inside_disc_structure(path: &PathBuf) -> bool {
    let parts = components_of(path);
    in_disc_structure(&parts)
}

/// The title of a file that has no stem and no name.
pub const UNKNOWN_TITLE: &'static str = "Unknown";

/// The title of a file: the name that was found for it, or `Unknown`.
pub fn title_or_unknown(found: Option<String>) -> (r: String)
    ensures
        r@ == (match found {
            Some(s) => s@,
            None => UNKNOWN_TITLE@,
        }),
{
    match found {
        Some(s) => s,
        None => UNKNOWN_TITLE.to_owned(),
    }
}

/// Extract title from file path: the name of the file without its
/// extension, or `Unknown` where the path has none.
pub fn extract_title(path: &PathBuf) -> String {
    title_or_unknown(file_stem(path))
}

/// What a scan makes of a file.
#[derive(Clone, Copy, Debug, PartialEq, Eq, Structural)]
pub enum Entry {
    /// The file marks a disc: what counts is the directory two levels up
    DiscRoot,
    /// The file is a media file
    Media,
    /// The file is passed over
    Skip,
}

/// What the scan of a library folder makes of a file, from its name, its
/// extension and whether it lies inside a disc: a file that marks a disc
/// stands for the disc; a file inside a disc, or without one of the
/// extensions of the folder's kind, is passed over.
pub open spec fn entry_kind(
    kind: LibraryKind,
    file_name: Option<Seq<char>>,
    extension: Option<Seq<char>>,
    in_disc: bool,
) -> Entry {
    if file_name matches Some(n) && disc_marked(n) is Some {
        Entry::DiscRoot
    } else if in_disc {
        Entry::Skip
    } else {
        match extension {
            Some(e) => if supported_extensions(kind).contains(lowercase(e)) {
                Entry::Media
            } else {
                Entry::Skip
            },
            None => Entry::Skip,
        }
    }
}

/// What the scan of a library folder makes of a file.
pub fn classify_entry(
    kind: LibraryKind,
    file_name: &Option<String>,
    extension: &Option<String>,
    in_disc: bool,
) -> (r: Entry)
    ensures
        r == entry_kind(kind, file_name.deep_view(), extension.deep_view(), in_disc),
{
    match file_name {
        Some(n) => {
            if detect_disc_indicator(n.as_str()).is_some() {
                return Entry::DiscRoot;
            }
        },
        None => {},
    }
    if in_disc {
        return Entry::Skip;
    }
    match extension {
        Some(e) => {
            let lower = to_lowercase(e.as_str());
            let list = get_supported_extensions(kind);
            if has_extension(&list, lower.as_str()) {
                Entry::Media
            } else {
                Entry::Skip
            }
        },
        None => Entry::Skip,
    }
}

/// What the scan of a library folder makes of a file at a path.
pub fn classify_path(kind: LibraryKind, path: &PathBuf) -> Entry {
    let name = name_of(path);
    let extension = extension_of(path);
    let in_disc = is_inside_disc_structure(path);
    classify_entry(kind, &name, &extension, in_disc)
}

/// Whether an extension, in lower case, is one that the plain scanner takes
/// for a video file.
pub open spec fn scanner_extension(lower: Seq<char>) -> bool {
    ||| lower == "mkv"@
    ||| lower == "mp4"@
    ||| lower == "avi"@
    ||| lower == "mov"@
    ||| lower == "wmv"@
    ||| lower == "flv"@
    ||| lower == "webm"@
    ||| lower == "m4v"@
    ||| lower == "iso"@
    ||| lower == "rmvb"@
    ||| lower == "ts"@
    ||| lower == "m2ts"@
}

/// Whether a file name, in lower case, marks a disc.
pub open spec fn disc_file(lower: Seq<char>) -> bool {
    lower == "index.bdmv"@ || lower == "movieobject.bdmv"@ || lower == "video_ts.ifo"@
}

/// What the plain scanner makes of a file: a file that marks a disc stands
/// for the disc; a video file outside of a disc is itself; every other file
/// is passed over.
pub open spec fn scanned_as(
    file_name: Seq<char>,
    extension: Option<Seq<char>>,
    in_disc: bool,
) -> Entry {
    if disc_file(lowercase(file_name)) {
        Entry::DiscRoot
    } else if extension matches Some(e) && scanner_extension(lowercase(e)) && !in_disc {
        Entry::Media
    } else {
        Entry::Skip
    }
}

/// Scanner for finding media files.
pub struct Scanner;

impl Scanner {
    /// Check if a path is part of a disc structure (BDMV or VIDEO_TS).
    pub fn is_inside_disc_structure(path: &PathBuf) -> bool {
        is_inside_disc_structure(path)
    }

    /// What the scanner makes of a file, from its name (empty where it has
    /// none), its extension and whether it lies inside a disc.
    pub fn classify(file_name: &str, extension: &Option<String>, in_disc: bool) -> (r: Entry)
        ensures
            r == scanned_as(file_name@, extension.deep_view(), in_disc),
    {
        let lower = to_lowercase(file_name);
        let l = lower.as_str();
        if same_str(l, "index.bdmv") || same_str(l, "movieobject.bdmv") || same_str(
            l,
            "video_ts.ifo",
        ) {
            return Entry::DiscRoot;
        }
        match extension {
            Some(e) => {
                let lower_ext = to_lowercase(e.as_str());
                let x = lower_ext.as_str();
                let video = same_str(x, "mkv") || same_str(x, "mp4") || same_str(x, "avi")
                    || same_str(x, "mov") || same_str(x, "wmv") || same_str(x, "flv") || same_str(
                    x,
                    "webm",
                ) || same_str(x, "m4v") || same_str(x, "iso") || same_str(x, "rmvb") || same_str(
                    x,
                    "ts",
                ) || same_str(x, "m2ts");
                if video && !in_disc {
                    Entry::Media
                } else {
                    Entry::Skip
                }
            },
            None => Entry::Skip,
        }
    }

    /// What the scanner makes of a file, from what was found of its name;
    /// a file of which no name was found is taken as one with an empty name.
    pub fn classify_found(file_name: &Option<String>, extension: &Option<String>, in_disc: bool)
        -> (r: Entry)
        ensures
            r == scanned_as(
                match file_name.deep_view() {
                    Some(n) => n,
                    None => Seq::empty(),
                },
                extension.deep_view(),
                in_disc,
            ),
    {
        match file_name {
            Some(n) => Self::classify(n.as_str(), extension, in_disc),
            None => {
                proof {
                    reveal_strlit("");
                    assert(""@ =~= Seq::<char>::empty());
                }
                Self::classify("", extension, in_disc)
            },
        }
    }

    /// What the scanner makes of a file at a path.
    pub fn classify_path(path: &PathBuf) -> Entry {
        Self::classify_found(&name_of(path), &extension_of(path), is_inside_disc_structure(path))
    }
}

} // verus!
