//! Tests for aspect ratio detection and letterbox pairing.

use immich_lib::letterbox::{detect_aspect_ratio, find_letterbox_pairs, AspectRatio};
use immich_lib::models::{AssetResponse, AssetType, ExifInfo};

/// Helper to create a mock asset with configurable EXIF data.
/// GPS coordinates are microdegrees.
#[allow(clippy::too_many_arguments)]
fn mock_asset(
    id: &str,
    width: Option<u32>,
    height: Option<u32>,
    make: Option<&str>,
    model: Option<&str>,
    timestamp: Option<&str>,
    lat: Option<i64>,
    lon: Option<i64>,
) -> AssetResponse {
    let exif = ExifInfo {
        exif_image_width: width,
        exif_image_height: height,
        make: make.map(String::from),
        model: model.map(String::from),
        date_time_original: timestamp.map(String::from),
        latitude: lat,
        longitude: lon,
        city: None,
        state: None,
        country: None,
        time_zone: None,
        lens_model: None,
        exposure_time: None,
        iso: None,
        file_size_in_byte: None,
        description: None,
        rating: None,
        orientation: None,
        modify_date: None,
        projection_type: None,
    };

    AssetResponse {
        id: id.to_string(),
        original_file_name: format!("{}.HEIC", id),
        file_created_at: "2024-12-23T10:30:45Z".to_string(),
        local_date_time: "2024-12-23T10:30:45".to_string(),
        asset_type: AssetType::Image,
        exif_info: Some(exif),
        checksum: "abc123".to_string(),
        is_trashed: false,
        is_favorite: false,
        is_archived: false,
        has_metadata: true,
        duration: "0:00:00.000000".to_string(),
        owner_id: "owner-1".to_string(),
        original_mime_type: Some("image/heic".to_string()),
        duplicate_id: None,
        thumbhash: None,
    }
}

#[test]
fn test_detect_4_3_landscape() {
    assert_eq!(
        detect_aspect_ratio(5712, 4284),
        Some(AspectRatio::FourThree)
    );
}

#[test]
fn test_detect_4_3_portrait() {
    assert_eq!(
        detect_aspect_ratio(4284, 5712),
        Some(AspectRatio::FourThree)
    );
}

#[test]
fn test_detect_16_9_landscape() {
    assert_eq!(
        detect_aspect_ratio(5712, 3213),
        Some(AspectRatio::SixteenNine)
    );
}

#[test]
fn test_detect_16_9_portrait() {
    assert_eq!(
        detect_aspect_ratio(3213, 5712),
        Some(AspectRatio::SixteenNine)
    );
}

#[test]
fn test_detect_other_ratio_1_1() {
    assert_eq!(detect_aspect_ratio(1000, 1000), None);
}

#[test]
fn test_detect_other_ratio_3_2() {
    assert_eq!(detect_aspect_ratio(3000, 2000), None);
}

#[test]
fn test_detect_with_tolerance_4_3_edge() {
    // 4:3 = 1.333..., tolerance = 0.01; 1000 / 745 = 1.342 should still match
    assert_eq!(
        detect_aspect_ratio(1000, 745),
        Some(AspectRatio::FourThree)
    );
}

#[test]
fn test_detect_with_tolerance_16_9_edge() {
    // 16:9 = 1.778...; 1778 / 1000 = 1.778 should match
    assert_eq!(
        detect_aspect_ratio(1778, 1000),
        Some(AspectRatio::SixteenNine)
    );
}

#[test]
fn test_detect_zero_dimension() {
    assert_eq!(detect_aspect_ratio(0, 100), None);
    assert_eq!(detect_aspect_ratio(100, 0), None);
    assert_eq!(detect_aspect_ratio(0, 0), None);
}

#[test]
fn test_detect_hd_16_9() {
    assert_eq!(
        detect_aspect_ratio(1920, 1080),
        Some(AspectRatio::SixteenNine)
    );
}

#[test]
fn test_detect_4k_16_9() {
    assert_eq!(
        detect_aspect_ratio(3840, 2160),
        Some(AspectRatio::SixteenNine)
    );
}

#[test]
fn test_find_pair_basic() {
    let assets = vec![
        mock_asset(
            "asset-4-3",
            Some(5712),
            Some(4284),
            Some("Apple"),
            Some("iPhone 15 Pro Max"),
            Some("2024-12-23T10:30:45.123Z"),
            Some(51_507_400),
            Some(-127_800),
        ),
        mock_asset(
            "asset-16-9",
            Some(5712),
            Some(3213),
            Some("Apple"),
            Some("iPhone 15 Pro Max"),
            Some("2024-12-23T10:30:45.456Z"),
            Some(51_507_400),
            Some(-127_800),
        ),
    ];

    let pairs = find_letterbox_pairs(&assets);

    assert_eq!(pairs.len(), 1);
    assert_eq!(pairs[0].keeper.id, "asset-4-3");
    assert_eq!(pairs[0].delete.id, "asset-16-9");
    assert_eq!(pairs[0].camera, "Apple iPhone 15 Pro Max");
}

#[test]
fn test_skip_non_iphone() {
    let assets = vec![
        mock_asset(
            "asset-4-3",
            Some(4000),
            Some(3000),
            Some("Samsung"),
            Some("Galaxy S23"),
            Some("2024-12-23T10:30:45Z"),
            None,
            None,
        ),
        mock_asset(
            "asset-16-9",
            Some(4000),
            Some(2250),
            Some("Samsung"),
            Some("Galaxy S23"),
            Some("2024-12-23T10:30:45Z"),
            None,
            None,
        ),
    ];

    let pairs = find_letterbox_pairs(&assets);
    assert!(pairs.is_empty());
}

#[test]
fn test_skip_missing_timestamp() {
    let assets = vec![
        mock_asset(
            "asset-4-3",
            Some(5712),
            Some(4284),
            Some("Apple"),
            Some("iPhone 15 Pro Max"),
            None,
            None,
            None,
        ),
        mock_asset(
            "asset-16-9",
            Some(5712),
            Some(3213),
            Some("Apple"),
            Some("iPhone 15 Pro Max"),
            None,
            None,
            None,
        ),
    ];

    let pairs = find_letterbox_pairs(&assets);
    assert!(pairs.is_empty());
}

#[test]
fn test_skip_ambiguous_two_4_3() {
    let assets = vec![
        mock_asset(
            "asset-4-3-a",
            Some(5712),
            Some(4284),
            Some("Apple"),
            Some("iPhone 15 Pro Max"),
            Some("2024-12-23T10:30:45Z"),
            None,
            None,
        ),
        mock_asset(
            "asset-4-3-b",
            Some(5712),
            Some(4284),
            Some("Apple"),
            Some("iPhone 15 Pro Max"),
            Some("2024-12-23T10:30:45Z"),
            None,
            None,
        ),
        mock_asset(
            "asset-16-9",
            Some(5712),
            Some(3213),
            Some("Apple"),
            Some("iPhone 15 Pro Max"),
            Some("2024-12-23T10:30:45Z"),
            None,
            None,
        ),
    ];

    let pairs = find_letterbox_pairs(&assets);
    assert!(pairs.is_empty());
}

#[test]
fn test_skip_ambiguous_two_16_9() {
    let assets = vec![
        mock_asset(
            "asset-4-3",
            Some(5712),
            Some(4284),
            Some("Apple"),
            Some("iPhone 15 Pro Max"),
            Some("2024-12-23T10:30:45Z"),
            None,
            None,
        ),
        mock_asset(
            "asset-16-9-a",
            Some(5712),
            Some(3213),
            Some("Apple"),
            Some("iPhone 15 Pro Max"),
            Some("2024-12-23T10:30:45Z"),
            None,
            None,
        ),
        mock_asset(
            "asset-16-9-b",
            Some(5712),
            Some(3213),
            Some("Apple"),
            Some("iPhone 15 Pro Max"),
            Some("2024-12-23T10:30:45Z"),
            None,
            None,
        ),
    ];

    let pairs = find_letterbox_pairs(&assets);
    assert!(pairs.is_empty());
}

#[test]
fn test_multiple_pairs_different_timestamps() {
    let assets = vec![
        mock_asset(
            "pair1-4-3",
            Some(5712),
            Some(4284),
            Some("Apple"),
            Some("iPhone 15 Pro Max"),
            Some("2024-12-23T10:30:45Z"),
            None,
            None,
        ),
        mock_asset(
            "pair1-16-9",
            Some(5712),
            Some(3213),
            Some("Apple"),
            Some("iPhone 15 Pro Max"),
            Some("2024-12-23T10:30:45Z"),
            None,
            None,
        ),
        mock_asset(
            "pair2-4-3",
            Some(5712),
            Some(4284),
            Some("Apple"),
            Some("iPhone 15 Pro Max"),
            Some("2024-12-23T11:00:00Z"),
            None,
            None,
        ),
        mock_asset(
            "pair2-16-9",
            Some(5712),
            Some(3213),
            Some("Apple"),
            Some("iPhone 15 Pro Max"),
            Some("2024-12-23T11:00:00Z"),
            None,
            None,
        ),
    ];

    let pairs = find_letterbox_pairs(&assets);
    assert_eq!(pairs.len(), 2);
}

#[test]
fn test_gps_disambiguation() {
    // Same timestamp but different GPS = separate groups (no pairs formed)
    let assets = vec![
        mock_asset(
            "loc1-4-3",
            Some(5712),
            Some(4284),
            Some("Apple"),
            Some("iPhone 15 Pro Max"),
            Some("2024-12-23T10:30:45Z"),
            Some(51_507_400), // London
            Some(-127_800),
        ),
        mock_asset(
            "loc2-16-9",
            Some(5712),
            Some(3213),
            Some("Apple"),
            Some("iPhone 15 Pro Max"),
            Some("2024-12-23T10:30:45Z"),
            Some(40_712_800), // New York
            Some(-74_006_000),
        ),
    ];

    let pairs = find_letterbox_pairs(&assets);
    assert!(pairs.is_empty());
}

#[test]
fn test_gps_same_location_pairs() {
    let assets = vec![
        mock_asset(
            "asset-4-3",
            Some(5712),
            Some(4284),
            Some("Apple"),
            Some("iPhone 15 Pro Max"),
            Some("2024-12-23T10:30:45Z"),
            Some(51_507_400),
            Some(-127_800),
        ),
        mock_asset(
            "asset-16-9",
            Some(5712),
            Some(3213),
            Some("Apple"),
            Some("iPhone 15 Pro Max"),
            Some("2024-12-23T10:30:45Z"),
            Some(51_507_400),
            Some(-127_800),
        ),
    ];

    let pairs = find_letterbox_pairs(&assets);
    assert_eq!(pairs.len(), 1);
}

#[test]
fn test_skip_trashed_assets() {
    let mut asset_4_3 = mock_asset(
        "asset-4-3",
        Some(5712),
        Some(4284),
        Some("Apple"),
        Some("iPhone 15 Pro Max"),
        Some("2024-12-23T10:30:45Z"),
        None,
        None,
    );
    asset_4_3.is_trashed = true;

    let asset_16_9 = mock_asset(
        "asset-16-9",
        Some(5712),
        Some(3213),
        Some("Apple"),
        Some("iPhone 15 Pro Max"),
        Some("2024-12-23T10:30:45Z"),
        None,
        None,
    );

    let assets = vec![asset_4_3, asset_16_9];
    let pairs = find_letterbox_pairs(&assets);
    assert!(pairs.is_empty());
}

#[test]
fn test_skip_missing_dimensions() {
    let assets = vec![
        mock_asset(
            "asset-4-3",
            None,
            None,
            Some("Apple"),
            Some("iPhone 15 Pro Max"),
            Some("2024-12-23T10:30:45Z"),
            None,
            None,
        ),
        mock_asset(
            "asset-16-9",
            Some(5712),
            Some(3213),
            Some("Apple"),
            Some("iPhone 15 Pro Max"),
            Some("2024-12-23T10:30:45Z"),
            None,
            None,
        ),
    ];

    let pairs = find_letterbox_pairs(&assets);
    assert!(pairs.is_empty());
}

#[test]
fn test_different_iphone_models_no_pair() {
    let assets = vec![
        mock_asset(
            "asset-4-3",
            Some(5712),
            Some(4284),
            Some("Apple"),
            Some("iPhone 15 Pro Max"),
            Some("2024-12-23T10:30:45Z"),
            None,
            None,
        ),
        mock_asset(
            "asset-16-9",
            Some(5712),
            Some(3213),
            Some("Apple"),
            Some("iPhone 14 Pro"),
            Some("2024-12-23T10:30:45Z"),
            None,
            None,
        ),
    ];

    let pairs = find_letterbox_pairs(&assets);
    assert!(pairs.is_empty());
}

#[test]
fn test_only_4_3_no_pair() {
    let assets = vec![mock_asset(
        "asset-4-3",
        Some(5712),
        Some(4284),
        Some("Apple"),
        Some("iPhone 15 Pro Max"),
        Some("2024-12-23T10:30:45Z"),
        None,
        None,
    )];

    let pairs = find_letterbox_pairs(&assets);
    assert!(pairs.is_empty());
}

#[test]
fn test_only_16_9_no_pair() {
    let assets = vec![mock_asset(
        "asset-16-9",
        Some(5712),
        Some(3213),
        Some("Apple"),
        Some("iPhone 15 Pro Max"),
        Some("2024-12-23T10:30:45Z"),
        None,
        None,
    )];

    let pairs = find_letterbox_pairs(&assets);
    assert!(pairs.is_empty());
}

#[test]
fn test_subsecond_timestamp_handling() {
    // Different sub-second precision should still match (truncated to second)
    let assets = vec![
        mock_asset(
            "asset-4-3",
            Some(5712),
            Some(4284),
            Some("Apple"),
            Some("iPhone 15 Pro Max"),
            Some("2024-12-23T10:30:45.123Z"),
            None,
            None,
        ),
        mock_asset(
            "asset-16-9",
            Some(5712),
            Some(3213),
            Some("Apple"),
            Some("iPhone 15 Pro Max"),
            Some("2024-12-23T10:30:45.999Z"),
            None,
            None,
        ),
    ];

    let pairs = find_letterbox_pairs(&assets);
    assert_eq!(pairs.len(), 1);
}
