//! Identification of media files: a filename parser, a ranker of provider
//! candidates, a cache of provider answers and the decisions of the
//! aggregator that ties them together.

pub mod cache;
pub mod error;
pub mod library;
pub mod listing;
pub mod manager;
pub mod matcher;
pub mod nfo;
pub mod order;
pub mod organizer;
pub mod parser;
pub mod pattern;
pub mod provider;
pub mod text;
pub mod types;

pub use cache::{CacheConfig, CacheStats, ScraperCache};
pub use error::ScraperError;
pub use library::Scanner;
pub use manager::{create_default_manager, ScrapeResult, ScraperConfig, ScraperManager};
pub use matcher::{Confidence, Matcher, ScoreBreakdown, ScoredMatch};
pub use organizer::{NamingTemplate, OrganizeMethod, OrganizerConfig};
pub use parser::{MediaHint, ParsedMedia, Parser};
pub use provider::{
    AniListProvider, BangumiProvider, MetadataProvider, SearchOptions, TmdbProvider,
};
pub use types::{
    EpisodeInfo, ExternalIds, ImageSet, MediaInfo, MediaMetadata, MediaType, PersonInfo,
    SeasonInfo,
};
