//! The Movie Database: movies and TV shows, behind an API key.

pub mod api_types;
pub mod provider;

pub use provider::TmdbProvider;
