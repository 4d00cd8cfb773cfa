//! Tests for configuration, errors, upload helpers, and group matching.

use immich_lib::upload::{mime_for_extension, strip_asset_id_prefix};
use immich_lib::{Config, ImmichError};

#[test]
fn test_default_config() {
    let config = Config::default();
    assert!(config.server.url.is_none());
    assert!(config.server.api_key.is_none());
}

#[test]
fn test_error_messages() {
    let e = ImmichError::Api {
        status: 404,
        message: "not found".to_string(),
    };
    assert_eq!(e.message(), "API error 404: not found");
    assert_eq!(
        ImmichError::Http("timeout".to_string()).message(),
        "HTTP request failed: timeout"
    );
    assert_eq!(
        ImmichError::Url("bad scheme".to_string()).message(),
        "Invalid URL: bad scheme"
    );
    assert_eq!(ImmichError::InvalidApiKey.message(), "Invalid API key format");
    assert_eq!(
        ImmichError::AssetNotFound("abc".to_string()).message(),
        "Asset not found: abc"
    );
    assert_eq!(
        ImmichError::Io("disk full".to_string()).message(),
        "IO error: disk full"
    );
}

#[test]
fn test_strip_asset_id_prefix() {
    // A 36-character UUID, an underscore, then the original name
    let name = "123e4567-e89b-12d3-a456-426614174000_IMG_0001.jpg";
    assert_eq!(strip_asset_id_prefix(name), "IMG_0001.jpg");
    // No prefix: kept whole
    assert_eq!(strip_asset_id_prefix("IMG_0001.jpg"), "IMG_0001.jpg");
    // Underscore at the right place but not a UUID: kept whole
    let odd = "zzze4567-e89b-12d3-a456-426614174000_IMG_0001.jpg";
    assert_eq!(strip_asset_id_prefix(odd), odd);
}

#[test]
fn test_mime_for_extension() {
    assert_eq!(mime_for_extension("jpg"), "image/jpeg");
    assert_eq!(mime_for_extension("jpeg"), "image/jpeg");
    assert_eq!(mime_for_extension("png"), "image/png");
    assert_eq!(mime_for_extension("heic"), "image/heic");
    assert_eq!(mime_for_extension("mp4"), "video/mp4");
    assert_eq!(mime_for_extension("mov"), "video/quicktime");
    assert_eq!(mime_for_extension("xyz"), "application/octet-stream");
}

/// Manifest describing a test scenario, as the integration harness reads it.
struct Manifest {
    images: Vec<String>,
    expected_winner: String,
}

/// Minimal duplicate group shape returned by the duplicates endpoint.
struct DuplicateGroupResponse {
    duplicate_id: String,
    assets: Vec<DuplicateAsset>,
}

/// Minimal asset info from the duplicates endpoint.
struct DuplicateAsset {
    original_file_name: String,
}

/// Find the duplicate group whose asset filenames cover a manifest's images.
fn find_scenario_group<'a>(
    duplicates: &'a [DuplicateGroupResponse],
    manifest: &Manifest,
) -> Option<&'a DuplicateGroupResponse> {
    for group in duplicates {
        let group_filenames: Vec<&str> = group
            .assets
            .iter()
            .map(|a| a.original_file_name.as_str())
            .collect();

        let all_present = manifest
            .images
            .iter()
            .all(|img| group_filenames.iter().any(|gf| gf == img));

        if all_present && group.assets.len() >= manifest.images.len() {
            return Some(group);
        }
    }

    None
}

#[test]
fn test_find_scenario_group_found() {
    let groups = vec![
        DuplicateGroupResponse {
            duplicate_id: "group1".to_string(),
            assets: vec![
                DuplicateAsset {
                    original_file_name: "photo1.jpg".to_string(),
                },
                DuplicateAsset {
                    original_file_name: "photo2.jpg".to_string(),
                },
            ],
        },
        DuplicateGroupResponse {
            duplicate_id: "group2".to_string(),
            assets: vec![
                DuplicateAsset {
                    original_file_name: "w1_large.jpg".to_string(),
                },
                DuplicateAsset {
                    original_file_name: "w1_small.jpg".to_string(),
                },
            ],
        },
    ];

    let manifest = Manifest {
        images: vec!["w1_large.jpg".to_string(), "w1_small.jpg".to_string()],
        expected_winner: "w1_large.jpg".to_string(),
    };
    assert_eq!(manifest.expected_winner, "w1_large.jpg");

    let found = find_scenario_group(&groups, &manifest);
    assert!(found.is_some());
    assert_eq!(found.unwrap().duplicate_id, "group2");
}

#[test]
fn test_find_scenario_group_not_found() {
    let groups = vec![DuplicateGroupResponse {
        duplicate_id: "group1".to_string(),
        assets: vec![DuplicateAsset {
            original_file_name: "photo1.jpg".to_string(),
        }],
    }];

    let manifest = Manifest {
        images: vec!["w1_large.jpg".to_string(), "w1_small.jpg".to_string()],
        expected_winner: "w1_large.jpg".to_string(),
    };
    assert_eq!(manifest.expected_winner, "w1_large.jpg");

    let found = find_scenario_group(&groups, &manifest);
    assert!(found.is_none());
}
