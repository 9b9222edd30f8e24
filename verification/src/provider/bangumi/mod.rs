//! Bangumi: anime, with Chinese titles first, without a key.

pub mod api_types;
pub mod provider;

pub use provider::BangumiProvider;
