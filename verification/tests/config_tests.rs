use rs_uploader::config::{Mode, StorageConfig, WatchKind, DEBOUNCE_MILLIS};

#[test]
fn without_a_directory_one_image_is_uploaded() {
    assert_eq!(Mode::from_flags(None, false), Mode::OneShot { extension: "png".to_string() });
    assert_eq!(Mode::from_flags(None, true), Mode::OneShot { extension: "png".to_string() });
    assert!(!Mode::from_flags(None, true).is_watch());
}

#[test]
fn with_a_directory_written_files_are_watched() {
    assert_eq!(
        Mode::from_flags(Some("shots".to_string()), false),
        Mode::Watch {
            directory: "shots".to_string(),
            trigger: WatchKind::Written,
            delete_after_upload: false
        }
    );
    assert_eq!(
        Mode::from_flags(Some("shots".to_string()), true),
        Mode::Watch {
            directory: "shots".to_string(),
            trigger: WatchKind::Written,
            delete_after_upload: true
        }
    );
    assert!(Mode::from_flags(Some(String::new()), false).is_watch());
}

#[test]
fn changes_settle_for_half_a_second() {
    assert_eq!(DEBOUNCE_MILLIS, 500);
}

#[test]
fn storage_configuration_keeps_its_values() {
    let config = StorageConfig::new(
        "images".to_string(),
        "auto".to_string(),
        "https://storage.example.com".to_string(),
        "key-id".to_string(),
        "key-secret".to_string(),
        "https://cdn.example.com".to_string(),
    );
    assert_eq!(config.bucket(), "images");
    assert_eq!(config.region(), "auto");
    assert_eq!(config.endpoint(), "https://storage.example.com");
    assert_eq!(config.access_key(), "key-id");
    assert_eq!(config.secret_key(), "key-secret");
    assert_eq!(config.base_url(), "https://cdn.example.com");
}
