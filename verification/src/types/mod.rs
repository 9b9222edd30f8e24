//! The records that providers produce and the rest of the library consumes.

pub mod media;
pub mod metadata;

pub use media::{
    clone_strings, info_views, parse_media_type, MediaInfo, MediaInfoView, MediaType,
};
pub use metadata::{
    EpisodeInfo, EpisodeInfoView, ExternalIds, ExternalIdsView, ImageSet, ImageSetView,
    clone_people, clone_seasons, person_views, season_views, MediaMetadata, MediaMetadataView,
    PersonInfo, PersonInfoView, SeasonInfo, SeasonInfoView,
};
