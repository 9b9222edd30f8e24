use ayiah::types::{ExternalIds, MediaInfo, MediaMetadata, MediaType};

#[test]
fn media_test_media_info_builder() {
    let info = MediaInfo::new("123", "Test Movie", "tmdb")
        .with_type(MediaType::Movie)
        .with_year(Some(2023))
        .with_original_title(Some("Original Title".to_string()))
        .with_alt_title("Alternative Title")
        .with_rating(Some(8500))
        .with_popularity(Some(100_000));

    assert_eq!(info.id, "123");
    assert_eq!(info.title, "Test Movie");
    assert_eq!(info.provider, "tmdb");
    assert_eq!(info.media_type, MediaType::Movie);
    assert_eq!(info.year, Some(2023));
    assert_eq!(info.rating, Some(8500));
}

#[test]
fn media_test_media_info_all_titles() {
    let info = MediaInfo::new("1", "English Title", "test")
        .with_original_title(Some("日本語タイトル".to_string()))
        .with_alt_title("Alternative 1")
        .with_alt_title("Alternative 2");

    let titles = info.all_titles();

    assert_eq!(titles.len(), 4);
    assert!(titles.contains(&"English Title"));
    assert!(titles.contains(&"日本語タイトル"));
    assert!(titles.contains(&"Alternative 1"));
}

#[test]
fn media_test_media_type_compatibility() {
    assert!(MediaType::Anime.is_compatible_with(MediaType::Tv));
    assert!(MediaType::Tv.is_compatible_with(MediaType::Anime));
    assert!(MediaType::Unknown.is_compatible_with(MediaType::Movie));
    assert!(!MediaType::Movie.is_compatible_with(MediaType::Tv));
}

#[test]
fn metadata_test_media_metadata_default() {
    let metadata = MediaMetadata::default();

    assert!(metadata.id.is_empty());
    assert!(metadata.title.is_empty());
    assert_eq!(metadata.media_type, MediaType::Unknown);
    assert!(metadata.genres.is_empty());
    assert!(metadata.cast.is_empty());
}

#[test]
fn metadata_test_external_ids_merge() {
    let mut ids1 = ExternalIds {
        imdb: Some("tt1234567".to_string()),
        tmdb: Some("123".to_string()),
        ..Default::default()
    };

    let ids2 = ExternalIds {
        tmdb: Some("456".to_string()),
        tvdb: Some("789".to_string()),
        ..Default::default()
    };

    ids1.merge(&ids2);

    assert_eq!(ids1.imdb, Some("tt1234567".to_string()));
    assert_eq!(ids1.tmdb, Some("456".to_string()));
    assert_eq!(ids1.tvdb, Some("789".to_string()));
}

#[test]
fn metadata_test_external_ids_has_any() {
    let empty = ExternalIds::default();
    assert!(!empty.has_any());

    let with_imdb = ExternalIds {
        imdb: Some("tt1234567".to_string()),
        ..Default::default()
    };
    assert!(with_imdb.has_any());
}

#[test]
fn tests_test_media_info_builder() {
    let info = MediaInfo::new("123", "Test Movie", "tmdb")
        .with_type(MediaType::Movie)
        .with_year(Some(2023))
        .with_original_title(Some("Original Title".to_string()))
        .with_alt_title("Alternative Title")
        .with_rating(Some(8500))
        .with_popularity(Some(100_000));

    assert_eq!(info.id, "123");
    assert_eq!(info.title, "Test Movie");
    assert_eq!(info.provider, "tmdb");
    assert_eq!(info.media_type, MediaType::Movie);
    assert_eq!(info.year, Some(2023));
    assert_eq!(info.rating, Some(8500));
}

#[test]
fn tests_test_media_info_all_titles() {
    let info = MediaInfo::new("1", "English Title", "test")
        .with_original_title(Some("日本語タイトル".to_string()))
        .with_alt_title("Alternative 1")
        .with_alt_title("Alternative 2");

    let titles = info.all_titles();

    assert_eq!(titles.len(), 4);
    assert!(titles.contains(&"English Title"));
    assert!(titles.contains(&"日本語タイトル"));
    assert!(titles.contains(&"Alternative 1"));
}

#[test]
fn tests_test_media_type_compatibility() {
    assert!(MediaType::Anime.is_compatible_with(MediaType::Tv));
    assert!(MediaType::Tv.is_compatible_with(MediaType::Anime));
    assert!(MediaType::Unknown.is_compatible_with(MediaType::Movie));
    assert!(!MediaType::Movie.is_compatible_with(MediaType::Tv));
}

#[test]
fn tests_test_external_ids_merge() {
    let mut ids1 = ExternalIds {
        imdb: Some("tt1234567".to_string()),
        tmdb: Some("123".to_string()),
        ..Default::default()
    };

    let ids2 = ExternalIds {
        tmdb: Some("456".to_string()), // Should override
        tvdb: Some("789".to_string()), // Should add
        ..Default::default()
    };

    ids1.merge(&ids2);

    assert_eq!(ids1.imdb, Some("tt1234567".to_string())); // Unchanged
    assert_eq!(ids1.tmdb, Some("456".to_string())); // Overridden
    assert_eq!(ids1.tvdb, Some("789".to_string())); // Added
}

#[test]
fn tests_test_external_ids_has_any() {
    let empty = ExternalIds::default();
    assert!(!empty.has_any());

    let with_imdb = ExternalIds {
        imdb: Some("tt1234567".to_string()),
        ..Default::default()
    };
    assert!(with_imdb.has_any());
}

#[test]
fn tests_test_media_metadata_default() {
    let metadata = MediaMetadata::default();

    assert!(metadata.id.is_empty());
    assert!(metadata.title.is_empty());
    assert_eq!(metadata.media_type, MediaType::Unknown);
    assert!(metadata.genres.is_empty());
    assert!(metadata.cast.is_empty());
}

