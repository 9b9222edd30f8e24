//! AniList: anime, over GraphQL, without a key.

pub mod api_types;
pub mod provider;

pub use provider::AniListProvider;
