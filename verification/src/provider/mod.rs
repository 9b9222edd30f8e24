//! Metadata providers: what every provider offers, and for each of the three
//! known providers the requests it sends and the reading of its answers.

pub mod anilist;
pub mod bangumi;
pub mod common;
pub mod tmdb;
pub mod traits;

pub use anilist::AniListProvider;
pub use bangumi::BangumiProvider;
pub use common::{Request, RequestView};
pub use tmdb::TmdbProvider;
pub use traits::{MetadataProvider, ProviderCapabilities, SearchOptions, SearchOptionsView};
