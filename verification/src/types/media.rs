//! A search candidate and the kind of media it stands for.

use vstd::prelude::*;
use crate::text::{lowercase, same_str, to_lowercase};

verus! {

/// Media type classification.
#[derive(Clone, Copy, Debug, PartialEq, Eq, Hash, Structural)]
pub enum MediaType {
    Unknown,
    Movie,
    Tv,
    Anime,
}

impl MediaType {
    /// Two kinds are compatible when either is unknown, when they are equal,
    /// or when one is `Tv` and the other `Anime`.
    pub open spec fn compatible(self, other: MediaType) -> bool {
        ||| self == MediaType::Unknown
        ||| other == MediaType::Unknown
        ||| self == other
        ||| (self == MediaType::Anime && other == MediaType::Tv)
        ||| (self == MediaType::Tv && other == MediaType::Anime)
    }

    /// Check if this type is compatible with another.
    pub fn is_compatible_with(&self, other: MediaType) -> (r: bool)
        ensures
            r == self.compatible(other),
    {
        match (*self, other) {
            (MediaType::Unknown, _) => true,
            (_, MediaType::Unknown) => true,
            (MediaType::Anime, MediaType::Tv) => true,
            (MediaType::Tv, MediaType::Anime) => true,
            (a, b) => a == b,
        }
    }

    /// The lower-case name of the kind.
    pub open spec fn label(self) -> Seq<char> {
        match self {
            MediaType::Unknown => "unknown"@,
            MediaType::Movie => "movie"@,
            MediaType::Tv => "tv"@,
            MediaType::Anime => "anime"@,
        }
    }

    /// The lower-case name of the kind, as it is shown and sent.
    pub fn to_string(&self) -> (r: String)
        ensures
            r@ == self.label(),
    {
        match self {
            MediaType::Unknown => "unknown".to_owned(),
            MediaType::Movie => "movie".to_owned(),
            MediaType::Tv => "tv".to_owned(),
            MediaType::Anime => "anime".to_owned(),
        }
    }
}

impl Default for MediaType {
    fn default() -> (r: MediaType)
        ensures
            r == MediaType::Unknown,
    {
        MediaType::Unknown
    }
}

/// The kind of media that a name stands for, in lower case.
pub open spec fn kind_named(lower: Seq<char>) -> Option<MediaType> {
    if lower == "movie"@ {
        Some(MediaType::Movie)
    } else if lower == "tv"@ || lower == "tvshow"@ || lower == "series"@ {
        Some(MediaType::Tv)
    } else if lower == "anime"@ {
        Some(MediaType::Anime)
    } else {
        None
    }
}

/// The kind of media that a name stands for, whatever the case of its
/// letters.
pub fn parse_media_type(s: &str) -> (r: Option<MediaType>)
    ensures
        r == kind_named(lowercase(s@)),
{
    let lower = to_lowercase(s);
    let l = lower.as_str();
    if same_str(l, "movie") {
        Some(MediaType::Movie)
    } else if same_str(l, "tv") || same_str(l, "tvshow") || same_str(l, "series") {
        Some(MediaType::Tv)
    } else if same_str(l, "anime") {
        Some(MediaType::Anime)
    } else {
        None
    }
}

/// Unified search result from any provider.
///
/// `rating` (on the scale 0 to 10) and `popularity` are kept in thousandths,
/// so that a rating of 8.5 is stored as 8500.
#[derive(Debug)]
pub struct MediaInfo {
    /// Provider-specific ID
    pub id: String,
    /// Primary title
    pub title: String,
    /// Original/native title
    pub original_title: Option<String>,
    /// Alternative titles for matching
    pub alt_titles: Vec<String>,
    /// Media type
    pub media_type: MediaType,
    /// Release year
    pub year: Option<i32>,
    /// Poster image URL
    pub poster_url: Option<String>,
    /// Short description
    pub overview: Option<String>,
    /// Rating (0-10 scale), in thousandths
    pub rating: Option<i64>,
    /// Provider name (e.g., "tmdb", "anilist")
    pub provider: String,
    /// Provider-specific score for ranking, in thousandths
    pub popularity: Option<i64>,
}

/// What a `MediaInfo` holds, as mathematical values.
pub struct MediaInfoView {
    pub id: Seq<char>,
    pub title: Seq<char>,
    pub original_title: Option<Seq<char>>,
    pub alt_titles: Seq<Seq<char>>,
    pub media_type: MediaType,
    pub year: Option<i32>,
    pub poster_url: Option<Seq<char>>,
    pub overview: Option<Seq<char>>,
    pub rating: Option<i64>,
    pub provider: Seq<char>,
    pub popularity: Option<i64>,
}

impl MediaInfoView {
    /// The candidate with nothing but its three required fields.
    pub open spec fn bare(id: Seq<char>, title: Seq<char>, provider: Seq<char>) -> MediaInfoView {
        MediaInfoView {
            id,
            title,
            original_title: None,
            alt_titles: Seq::empty(),
            media_type: MediaType::Unknown,
            year: None,
            poster_url: None,
            overview: None,
            rating: None,
            provider,
            popularity: None,
        }
    }

    /// The title, then the original title if there is one, then the
    /// alternative titles in the order in which they were added. Nothing is
    /// removed, so a title may occur twice.
    pub open spec fn all_titles(self) -> Seq<Seq<char>> {
        let head = match self.original_title {
            Some(t) => seq![self.title, t],
            None => seq![self.title],
        };
        head + self.alt_titles
    }
}

impl View for MediaInfo {
    type V = MediaInfoView;

    open spec fn view(&self) -> MediaInfoView {
        MediaInfoView {
            id: self.id@,
            title: self.title@,
            original_title: self.original_title.deep_view(),
            alt_titles: self.alt_titles.deep_view(),
            media_type: self.media_type,
            year: self.year,
            poster_url: self.poster_url.deep_view(),
            overview: self.overview.deep_view(),
            rating: self.rating,
            provider: self.provider@,
            popularity: self.popularity,
        }
    }
}

/// The views of a list of candidates, in order.
pub open spec fn info_views(v: Seq<MediaInfo>) -> Seq<MediaInfoView> {
    v.map_values(|i: MediaInfo| i@)
}

/// A copy of a list of strings.
pub fn clone_strings(v: &Vec<String>) -> (r: Vec<String>)
    ensures
        r.deep_view() == v.deep_view(),
{
    let mut r: Vec<String> = Vec::new();
    let mut i: usize = 0;
    while i < v.len()
        invariant
            i <= v.len(),
            r.len() == i,
            forall|j: int| 0 <= j < i ==> r[j]@ == v[j]@,
        decreases v.len() - i,
    {
        r.push(v[i].clone());
        i = i + 1;
    }
    assert(r.deep_view() =~= v.deep_view());
    r
}

impl Clone for MediaInfo {
    fn clone(&self) -> (r: MediaInfo)
        ensures
            r@ == self@,
    {
        MediaInfo {
            id: self.id.clone(),
            title: self.title.clone(),
            original_title: self.original_title.clone(),
            alt_titles: clone_strings(&self.alt_titles),
            media_type: self.media_type,
            year: self.year,
            poster_url: self.poster_url.clone(),
            overview: self.overview.clone(),
            rating: self.rating,
            provider: self.provider.clone(),
            popularity: self.popularity,
        }
    }
}

impl MediaInfo {
    /// Create a new MediaInfo with required fields.
    pub fn new(id: &str, title: &str, provider: &str) -> (r: MediaInfo)
        ensures
            r@ == MediaInfoView::bare(id@, title@, provider@),
    {
        let r = MediaInfo {
            id: id.to_owned(),
            title: title.to_owned(),
            original_title: None,
            alt_titles: Vec::new(),
            media_type: MediaType::Unknown,
            year: None,
            poster_url: None,
            overview: None,
            rating: None,
            provider: provider.to_owned(),
            popularity: None,
        };
        assert(r.alt_titles.deep_view() =~= Seq::<Seq<char>>::empty());
        r
    }

    /// Builder pattern: set media type.
    pub fn with_type(self, media_type: MediaType) -> (r: MediaInfo)
        ensures
            r@ == (MediaInfoView { media_type, ..self@ }),
    {
        let mut r = self;
        r.media_type = media_type;
        r
    }

    /// Builder pattern: set year.
    pub fn with_year(self, year: Option<i32>) -> (r: MediaInfo)
        ensures
            r@ == (MediaInfoView { year, ..self@ }),
    {
        let mut r = self;
        r.year = year;
        r
    }

    /// Builder pattern: set original title.
    pub fn with_original_title(self, title: Option<String>) -> (r: MediaInfo)
        ensures
            r@ == (MediaInfoView { original_title: title.deep_view(), ..self@ }),
    {
        let mut r = self;
        r.original_title = title;
        r
    }

    /// Builder pattern: add alternative title, after those already there.
    pub fn with_alt_title(self, title: &str) -> (r: MediaInfo)
        ensures
            r@ == (MediaInfoView { alt_titles: self@.alt_titles.push(title@), ..self@ }),
    {
        let mut r = self;
        let ghost before = r.alt_titles.deep_view();
        r.alt_titles.push(title.to_owned());
        assert(r.alt_titles.deep_view() =~= before.push(title@));
        r
    }

    /// Builder pattern: set poster URL.
    pub fn with_poster(self, url: Option<String>) -> (r: MediaInfo)
        ensures
            r@ == (MediaInfoView { poster_url: url.deep_view(), ..self@ }),
    {
        let mut r = self;
        r.poster_url = url;
        r
    }

    /// Builder pattern: set overview.
    pub fn with_overview(self, overview: Option<String>) -> (r: MediaInfo)
        ensures
            r@ == (MediaInfoView { overview: overview.deep_view(), ..self@ }),
    {
        let mut r = self;
        r.overview = overview;
        r
    }

    /// Builder pattern: set rating, in thousandths.
    pub fn with_rating(self, rating: Option<i64>) -> (r: MediaInfo)
        ensures
            r@ == (MediaInfoView { rating, ..self@ }),
    {
        let mut r = self;
        r.rating = rating;
        r
    }

    /// Builder pattern: set popularity, in thousandths.
    pub fn with_popularity(self, popularity: Option<i64>) -> (r: MediaInfo)
        ensures
            r@ == (MediaInfoView { popularity, ..self@ }),
    {
        let mut r = self;
        r.popularity = popularity;
        r
    }

    /// Get all titles for matching (primary + original + alternatives).
    pub fn all_titles(&self) -> (r: Vec<&str>)
        ensures
            r.deep_view() == self@.all_titles(),
    {
        let mut titles: Vec<&str> = Vec::new();
        titles.push(self.title.as_str());
        match &self.original_title {
            Some(orig) => {
                titles.push(orig.as_str());
            },
            None => {},
        }
        let ghost head = titles.deep_view();
        let mut i: usize = 0;
        while i < self.alt_titles.len()
            invariant
                i <= self.alt_titles.len(),
                titles.len() == head.len() + i,
                forall|j: int| 0 <= j < head.len() ==> titles[j]@ == head[j],
                forall|j: int| 0 <= j < i ==> titles[head.len() + j]@ == self.alt_titles[j]@,
            decreases self.alt_titles.len() - i,
        {
            titles.push(self.alt_titles[i].as_str());
            i = i + 1;
        }
        assert(titles.deep_view() =~= head + self.alt_titles.deep_view());
        titles
    }
}

} // verus!
