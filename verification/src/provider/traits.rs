//! What every provider offers.

use vstd::prelude::*;
use crate::types::MediaType;

verus! {

/// Search options for providers.
#[derive(Debug)]
pub struct SearchOptions {
    /// Year filter
    pub year: Option<i32>,
    /// Limit results
    pub limit: Option<usize>,
    /// Preferred language (ISO 639-1)
    pub language: Option<String>,
    /// Media type filter
    pub media_type: Option<MediaType>,
}

/// What a `SearchOptions` holds, as mathematical values.
pub struct SearchOptionsView {
    pub year: Option<i32>,
    pub limit: Option<usize>,
    pub language: Option<Seq<char>>,
    pub media_type: Option<MediaType>,
}

impl SearchOptionsView {
    /// The options that filter nothing.
    pub open spec fn empty() -> SearchOptionsView {
        SearchOptionsView { year: None, limit: None, language: None, media_type: None }
    }
}

impl View for SearchOptions {
    type V = SearchOptionsView;

    open spec fn view(&self) -> SearchOptionsView {
        SearchOptionsView {
            year: self.year,
            limit: self.limit,
            language: self.language.deep_view(),
            media_type: self.media_type,
        }
    }
}

impl Default for SearchOptions {
    fn default() -> (r: SearchOptions)
        ensures
            r@ == SearchOptionsView::empty(),
    {
        SearchOptions { year: None, limit: None, language: None, media_type: None }
    }
}

impl Clone for SearchOptions {
    fn clone(&self) -> (r: SearchOptions)
        ensures
            r@ == self@,
    {
        SearchOptions {
            year: self.year,
            limit: self.limit,
            language: self.language.clone(),
            media_type: self.media_type,
        }
    }
}

impl SearchOptions {
    /// The options that filter nothing.
    pub fn new() -> (r: SearchOptions)
        ensures
            r@ == SearchOptionsView::empty(),
    {
        SearchOptions { year: None, limit: None, language: None, media_type: None }
    }

    /// Sets or clears the year filter.
    pub fn with_year(self, year: Option<i32>) -> (r: SearchOptions)
        ensures
            r@ == (SearchOptionsView { year, ..self@ }),
    {
        let mut r = self;
        r.year = year;
        r
    }

    /// Sets the limit.
    pub fn with_limit(self, limit: usize) -> (r: SearchOptions)
        ensures
            r@ == (SearchOptionsView { limit: Some(limit), ..self@ }),
    {
        let mut r = self;
        r.limit = Some(limit);
        r
    }

    /// Sets the preferred language.
    pub fn with_language(self, language: &str) -> (r: SearchOptions)
        ensures
            r@ == (SearchOptionsView { language: Some(language@), ..self@ }),
    {
        let mut r = self;
        r.language = Some(language.to_owned());
        r
    }

    /// Sets the media type filter.
    pub fn with_type(self, media_type: MediaType) -> (r: SearchOptions)
        ensures
            r@ == (SearchOptionsView { media_type: Some(media_type), ..self@ }),
    {
        let mut r = self;
        r.media_type = Some(media_type);
        r
    }
}

/// Provider capability flags.
#[derive(Clone, Copy, Debug, PartialEq, Eq, Structural)]
pub struct ProviderCapabilities {
    pub search: bool,
    pub metadata: bool,
    pub episodes: bool,
    pub images: bool,
    pub external_ids: bool,
}

impl Default for ProviderCapabilities {
    fn default() -> (r: ProviderCapabilities)
        ensures
            r == (ProviderCapabilities {
                search: true,
                metadata: true,
                episodes: false,
                images: true,
                external_ids: false,
            }),
    {
        ProviderCapabilities {
            search: true,
            metadata: true,
            episodes: false,
            images: true,
            external_ids: false,
        }
    }
}

/// The priority of a provider that states none of its own: 50 for a kind it
/// supports, 0 for the others.
pub open spec fn default_priority(supported: Seq<MediaType>, media_type: MediaType) -> i32 {
    if supported.contains(media_type) {
        50
    } else {
        0
    }
}

/// Whether `kinds` holds `media_type`.
pub fn supports(kinds: &[MediaType], media_type: MediaType) -> (r: bool)
    ensures
        r == kinds@.contains(media_type),
{
    let mut i: usize = 0;
    while i < kinds.len()
        invariant
            i <= kinds.len(),
            forall|j: int| 0 <= j < i ==> kinds@[j] != media_type,
        decreases kinds.len() - i,
    {
        if kinds[i] == media_type {
            return true;
        }
        i = i + 1;
    }
    false
}

/// The priority of a provider that states none of its own.
pub fn default_priority_for(kinds: &[MediaType], media_type: MediaType) -> (r: i32)
    ensures
        r == default_priority(kinds@, media_type),
{
    if supports(kinds, media_type) {
        50
    } else {
        0
    }
}

/// What the aggregator needs to know of a metadata provider before it asks
/// it anything. The requests themselves are sent by whoever drives the
/// aggregator.
pub trait MetadataProvider {
    /// The provider's identifier, as a text.
    spec fn identifier(&self) -> Seq<char>;

    /// The kinds of media that the provider supports.
    spec fn kinds(&self) -> Seq<MediaType>;

    /// The provider's priority for a kind of media.
    spec fn priority(&self, media_type: MediaType) -> i32;

    /// The provider's name, as a text.
    spec fn title(&self) -> Seq<char>;

    /// Whether the provider needs an API key.
    spec fn needs_api_key(&self) -> bool;

    /// Provider identifier (e.g., "tmdb", "anilist").
    fn id(&self) -> (r: &'static str)
        ensures
            r@ == self.identifier(),
    ;

    /// Human-readable provider name.
    fn name(&self) -> (r: &'static str)
        ensures
            r@ == self.title(),
    ;

    /// Media types this provider supports.
    fn supported_types(&self) -> (r: Vec<MediaType>)
        ensures
            r@ == self.kinds(),
    ;

    /// Whether this provider requires an API key.
    fn requires_api_key(&self) -> (r: bool)
        ensures
            r == self.needs_api_key(),
    ;

    /// Provider priority for a given media type (higher = preferred).
    fn priority_for(&self, media_type: MediaType) -> (r: i32)
        ensures
            r == self.priority(media_type),
    ;
}

} // verus!
