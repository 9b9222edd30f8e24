//! The errors that providers and the aggregator report.

use vstd::prelude::*;
use vstd::string::StringExecFns;
use crate::types::{info_views, MediaInfo, MediaInfoView};

verus! {

/// Scraper error types.
#[derive(Debug)]
pub enum ScraperError {
    /// The transport failed; the text says how
    Network(String),
    /// The provider answered with a status that is no success
    Api { status: u16, message: String },
    /// The provider asks to wait this many seconds
    RateLimit(u64),
    /// Nothing was found
    NotFound(String),
    /// An answer or an identifier could not be read
    Parse(String),
    /// The cache failed
    Cache(String),
    /// A provider that was referred to is not registered
    Config(String),
    /// The file system failed; the text says how
    Io(String),
    /// XML could not be written or read; the text says how
    Xml(String),
}

/// What a `ScraperError` holds, as mathematical values.
pub enum ScraperErrorView {
    Network(Seq<char>),
    Api { status: u16, message: Seq<char> },
    RateLimit(u64),
    NotFound(Seq<char>),
    Parse(Seq<char>),
    Cache(Seq<char>),
    Config(Seq<char>),
    Io(Seq<char>),
    Xml(Seq<char>),
}

impl View for ScraperError {
    type V = ScraperErrorView;

    open spec fn view(&self) -> ScraperErrorView {
        match self {
            ScraperError::Network(m) => ScraperErrorView::Network(m@),
            ScraperError::Api { status, message } => ScraperErrorView::Api {
                status: *status,
                message: message@,
            },
            ScraperError::RateLimit(d) => ScraperErrorView::RateLimit(*d),
            ScraperError::NotFound(m) => ScraperErrorView::NotFound(m@),
            ScraperError::Parse(m) => ScraperErrorView::Parse(m@),
            ScraperError::Cache(m) => ScraperErrorView::Cache(m@),
            ScraperError::Config(m) => ScraperErrorView::Config(m@),
            ScraperError::Io(m) => ScraperErrorView::Io(m@),
            ScraperError::Xml(m) => ScraperErrorView::Xml(m@),
        }
    }
}

/// The result of a search as mathematical values.
pub open spec fn found_view(r: Result<Vec<MediaInfo>, ScraperError>) -> Result<
    Seq<MediaInfoView>,
    ScraperErrorView,
> {
    match r {
        Ok(v) => Ok(info_views(v@)),
        Err(e) => Err(e@),
    }
}

/// Two texts one after the other.
pub fn concat(head: &str, tail: &str) -> (r: String)
    ensures
        r@ == head@ + tail@,
{
    String::from_str(head).concat(tail)
}

/// The text that reports that a search for `query` found nothing.
pub open spec fn no_results_text(query: Seq<char>) -> Seq<char> {
    "No results found for: "@ + query
}

/// The text that reports that no provider is registered under `id`.
pub open spec fn provider_missing_text(id: Seq<char>) -> Seq<char> {
    "Provider not found: "@ + id
}

impl ScraperError {
    /// The error of a search that found nothing.
    pub fn no_results(query: &str) -> (r: ScraperError)
        ensures
            r@ == ScraperErrorView::NotFound(no_results_text(query@)),
    {
        ScraperError::NotFound(concat("No results found for: ", query))
    }

    /// The error of a reference to a provider that is not registered.
    pub fn provider_missing(id: &str) -> (r: ScraperError)
        ensures
            r@ == ScraperErrorView::Config(provider_missing_text(id@)),
    {
        ScraperError::Config(concat("Provider not found: ", id))
    }
}

} // verus!
