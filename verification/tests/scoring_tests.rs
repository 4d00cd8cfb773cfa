//! Tests for metadata scoring, conflict detection, and winner selection.

use immich_lib::models::{AssetResponse, AssetType, DuplicateGroup, ExifInfo};
use immich_lib::scoring::{
    dedupe_gps, detect_conflicts, find_unique_strings, has_gps_conflict, DuplicateAnalysis,
    MetadataConflict, MetadataScore,
};

fn empty_exif() -> ExifInfo {
    ExifInfo {
        latitude: None,
        longitude: None,
        city: None,
        state: None,
        country: None,
        time_zone: None,
        date_time_original: None,
        make: None,
        model: None,
        lens_model: None,
        exposure_time: None,
        iso: None,
        exif_image_width: None,
        exif_image_height: None,
        file_size_in_byte: None,
        description: None,
        rating: None,
        orientation: None,
        modify_date: None,
        projection_type: None,
    }
}

fn asset_with_exif(id: &str, filename: &str, exif: Option<ExifInfo>) -> AssetResponse {
    AssetResponse {
        id: id.to_string(),
        original_file_name: filename.to_string(),
        file_created_at: "2024-01-01T00:00:00Z".to_string(),
        local_date_time: "2024-01-01T00:00:00".to_string(),
        asset_type: AssetType::Image,
        exif_info: exif,
        checksum: "checksum".to_string(),
        is_trashed: false,
        is_favorite: false,
        is_archived: false,
        has_metadata: true,
        duration: "0:00:00.000000".to_string(),
        owner_id: "owner-1".to_string(),
        original_mime_type: None,
        duplicate_id: None,
        thumbhash: None,
    }
}

fn group(id: &str, assets: Vec<AssetResponse>) -> DuplicateGroup {
    DuplicateGroup {
        duplicate_id: id.to_string(),
        assets,
    }
}

#[test]
fn test_metadata_score_default() {
    let score = MetadataScore::default();
    assert_eq!(score.total, 0);
}

#[test]
fn test_gps_conflict_detection() {
    // Same coordinates within threshold
    let coords = vec![(51_507_400, -127_800), (51_507_400, -127_800)];
    assert!(!has_gps_conflict(&coords));

    // Different coordinates beyond threshold
    let coords = vec![(51_507_400, -127_800), (52_000_000, -500_000)];
    assert!(has_gps_conflict(&coords));
}

#[test]
fn test_find_unique_strings() {
    // Single value
    let values = vec!["America/New_York".to_string()];
    assert!(find_unique_strings(&values).is_none());

    // Same values (case-insensitive)
    let values = vec![
        "America/New_York".to_string(),
        "america/new_york".to_string(),
    ];
    assert!(find_unique_strings(&values).is_none());

    // Different values
    let values = vec!["America/New_York".to_string(), "Europe/London".to_string()];
    let unique = find_unique_strings(&values).unwrap();
    assert_eq!(unique.len(), 2);
}

#[test]
fn test_find_unique_strings_trims_whitespace() {
    // One distinct value, repeated with different casing and whitespace:
    // never a conflict
    let values = vec!["  Canon  ".to_string(), "canon".to_string(), "CANON".to_string()];
    assert!(find_unique_strings(&values).is_none());
}

#[test]
fn test_score_weights() {
    let mut exif = empty_exif();
    exif.latitude = Some(51_507_400);
    exif.longitude = Some(-127_800);
    exif.time_zone = Some("+00:00".to_string());
    exif.make = Some("Canon".to_string());
    exif.date_time_original = Some("2024:01:01 00:00:00".to_string());
    exif.lens_model = Some("RF 24-70".to_string());
    exif.city = Some("London".to_string());

    let asset = asset_with_exif("a", "a.jpg", Some(exif));
    let score = MetadataScore::from_asset(&asset);
    assert_eq!(score.gps, 30);
    assert_eq!(score.timezone, 20);
    assert_eq!(score.camera_info, 15);
    assert_eq!(score.capture_time, 15);
    assert_eq!(score.lens_info, 10);
    assert_eq!(score.location, 10);
    assert_eq!(score.total, 100);
}

#[test]
fn test_score_no_exif_is_zero() {
    let asset = asset_with_exif("a", "a.jpg", None);
    let score = MetadataScore::from_asset(&asset);
    assert_eq!(score.total, 0);
}

#[test]
fn test_winner_higher_score_wins() {
    // The winner's score total is at least every loser's
    let mut rich = empty_exif();
    rich.latitude = Some(1_000_000);
    rich.longitude = Some(2_000_000);
    let bare = empty_exif();

    let g = group(
        "g1",
        vec![
            asset_with_exif("a", "bare.jpg", Some(bare)),
            asset_with_exif("b", "rich.jpg", Some(rich)),
        ],
    );
    let analysis = DuplicateAnalysis::from_group(&g);
    assert_eq!(analysis.winner.filename, "rich.jpg");
    assert_eq!(analysis.losers.len(), 1);
    assert!(analysis.winner.score.total >= analysis.losers[0].score.total);
}

#[test]
fn test_winner_tie_larger_file_size_wins() {
    let mut small = empty_exif();
    small.file_size_in_byte = Some(1_000);
    let mut large = empty_exif();
    large.file_size_in_byte = Some(2_000);

    let g = group(
        "g2",
        vec![
            asset_with_exif("a", "small.jpg", Some(small)),
            asset_with_exif("b", "large.jpg", Some(large)),
        ],
    );
    let analysis = DuplicateAnalysis::from_group(&g);
    assert_eq!(analysis.winner.filename, "large.jpg");
}

#[test]
fn test_winner_full_tie_first_in_order_wins() {
    // Scenario: two assets with no EXIF (score tie at zero, equal sizes):
    // the first asset in input order wins
    let g = group(
        "g3",
        vec![
            asset_with_exif("asset-a", "a_2000x1500.jpg", None),
            asset_with_exif("asset-b", "b_1000x750.jpg", None),
        ],
    );
    let analysis = DuplicateAnalysis::from_group(&g);
    assert_eq!(analysis.winner.asset_id, "asset-a");
    assert_eq!(analysis.losers.len(), 1);
    assert_eq!(analysis.losers[0].asset_id, "asset-b");
}

#[test]
fn test_single_asset_group_no_review() {
    // A group with exactly one asset: no review, empty losers
    let g = group("g4", vec![asset_with_exif("only", "only.jpg", None)]);
    let analysis = DuplicateAnalysis::from_group(&g);
    assert!(!analysis.needs_review);
    assert!(analysis.losers.is_empty());
    assert!(analysis.conflicts.is_empty());
}

#[test]
fn test_losers_keep_input_order() {
    let mut winner_exif = empty_exif();
    winner_exif.latitude = Some(1);
    winner_exif.longitude = Some(1);
    let g = group(
        "g5",
        vec![
            asset_with_exif("l1", "l1.jpg", None),
            asset_with_exif("w", "w.jpg", Some(winner_exif)),
            asset_with_exif("l2", "l2.jpg", None),
        ],
    );
    let analysis = DuplicateAnalysis::from_group(&g);
    assert_eq!(analysis.winner.asset_id, "w");
    assert_eq!(analysis.losers.len(), 2);
    assert_eq!(analysis.losers[0].asset_id, "l1");
    assert_eq!(analysis.losers[1].asset_id, "l2");
}

#[test]
fn test_gps_conflict_beyond_threshold() {
    // GPS conflict is emitted iff two points differ by more than 0.0001
    // degrees (100 microdegrees) in either axis
    let mut london = empty_exif();
    london.latitude = Some(51_507_400);
    london.longitude = Some(-127_800);
    let mut paris = empty_exif();
    paris.latitude = Some(48_856_600);
    paris.longitude = Some(2_352_200);

    let assets = vec![
        asset_with_exif("a", "a.jpg", Some(london)),
        asset_with_exif("b", "b.jpg", Some(paris)),
    ];
    let conflicts = detect_conflicts(&assets);
    assert_eq!(conflicts.len(), 1);
    match &conflicts[0] {
        MetadataConflict::Gps { values } => {
            assert_eq!(values.len(), 2);
        }
        _ => panic!("expected a GPS conflict"),
    }
}

#[test]
fn test_gps_within_threshold_no_conflict() {
    // Points within the threshold dedupe into one entry and never conflict
    let mut a = empty_exif();
    a.latitude = Some(51_507_400);
    a.longitude = Some(-127_800);
    let mut b = empty_exif();
    b.latitude = Some(51_507_450); // 50 microdegrees away
    b.longitude = Some(-127_850);

    let assets = vec![
        asset_with_exif("a", "a.jpg", Some(a)),
        asset_with_exif("b", "b.jpg", Some(b)),
    ];
    let conflicts = detect_conflicts(&assets);
    assert!(conflicts.is_empty());
}

#[test]
fn test_dedupe_gps_merges_close_points() {
    let coords = vec![
        (51_507_400, -127_800),
        (51_507_450, -127_850),
        (48_856_600, 2_352_200),
    ];
    let unique = dedupe_gps(&coords);
    assert_eq!(unique.len(), 2);
    assert_eq!(unique[0], (51_507_400, -127_800));
    assert_eq!(unique[1], (48_856_600, 2_352_200));
}

#[test]
fn test_timezone_conflict() {
    let mut a = empty_exif();
    a.time_zone = Some("+00:00".to_string());
    let mut b = empty_exif();
    b.time_zone = Some("-08:00".to_string());

    let assets = vec![
        asset_with_exif("a", "a.jpg", Some(a)),
        asset_with_exif("b", "b.jpg", Some(b)),
    ];
    let conflicts = detect_conflicts(&assets);
    assert_eq!(conflicts.len(), 1);
    assert!(matches!(&conflicts[0], MetadataConflict::Timezone { .. }));
}

#[test]
fn test_timezone_same_value_different_case_no_conflict() {
    // A single distinct value, even repeated with different casing and
    // whitespace, never produces a conflict
    let mut a = empty_exif();
    a.time_zone = Some("Europe/London".to_string());
    let mut b = empty_exif();
    b.time_zone = Some("  europe/london ".to_string());

    let assets = vec![
        asset_with_exif("a", "a.jpg", Some(a)),
        asset_with_exif("b", "b.jpg", Some(b)),
    ];
    let conflicts = detect_conflicts(&assets);
    assert!(conflicts.is_empty());
}

#[test]
fn test_camera_conflict() {
    let mut a = empty_exif();
    a.make = Some("Canon".to_string());
    a.model = Some("EOS R5".to_string());
    let mut b = empty_exif();
    b.make = Some("Nikon".to_string());
    b.model = Some("Z6 II".to_string());

    let assets = vec![
        asset_with_exif("a", "a.jpg", Some(a)),
        asset_with_exif("b", "b.jpg", Some(b)),
    ];
    let conflicts = detect_conflicts(&assets);
    assert_eq!(conflicts.len(), 1);
    match &conflicts[0] {
        MetadataConflict::CameraInfo { values } => {
            assert_eq!(values.len(), 2);
            assert_eq!(values[0], "Canon EOS R5");
            assert_eq!(values[1], "Nikon Z6 II");
        }
        _ => panic!("expected a camera conflict"),
    }
}

#[test]
fn test_capture_time_conflict() {
    let mut a = empty_exif();
    a.date_time_original = Some("2024:01:15 08:00:00".to_string());
    let mut b = empty_exif();
    b.date_time_original = Some("2024:01:15 20:00:00".to_string());

    let assets = vec![
        asset_with_exif("a", "a.jpg", Some(a)),
        asset_with_exif("b", "b.jpg", Some(b)),
    ];
    let conflicts = detect_conflicts(&assets);
    assert_eq!(conflicts.len(), 1);
    assert!(matches!(&conflicts[0], MetadataConflict::CaptureTime { .. }));
}

#[test]
fn test_multiple_conflicts_and_needs_review() {
    let mut a = empty_exif();
    a.latitude = Some(51_507_400);
    a.longitude = Some(-127_800);
    a.make = Some("Canon".to_string());
    a.time_zone = Some("+00:00".to_string());
    let mut b = empty_exif();
    b.latitude = Some(40_712_800);
    b.longitude = Some(-74_006_000);
    b.make = Some("Sony".to_string());
    b.time_zone = Some("-05:00".to_string());

    let g = group(
        "g6",
        vec![
            asset_with_exif("a", "a.jpg", Some(a)),
            asset_with_exif("b", "b.jpg", Some(b)),
        ],
    );
    let analysis = DuplicateAnalysis::from_group(&g);
    assert_eq!(analysis.conflicts.len(), 3);
    assert!(analysis.needs_review);
    assert!(matches!(&analysis.conflicts[0], MetadataConflict::Gps { .. }));
    assert!(matches!(
        &analysis.conflicts[1],
        MetadataConflict::Timezone { .. }
    ));
    assert!(matches!(
        &analysis.conflicts[2],
        MetadataConflict::CameraInfo { .. }
    ));
}

#[test]
fn test_no_conflicts_no_review() {
    let mut a = empty_exif();
    a.latitude = Some(51_507_400);
    a.longitude = Some(-127_800);
    a.make = Some("Canon".to_string());
    let mut b = empty_exif();
    b.latitude = Some(51_507_400);
    b.longitude = Some(-127_800);
    b.make = Some("Canon".to_string());

    let g = group(
        "g7",
        vec![
            asset_with_exif("a", "a.jpg", Some(a)),
            asset_with_exif("b", "b.jpg", Some(b)),
        ],
    );
    let analysis = DuplicateAnalysis::from_group(&g);
    assert!(analysis.conflicts.is_empty());
    assert!(!analysis.needs_review);
}

#[test]
fn test_missing_fields_excluded_from_comparison() {
    // Assets lacking a field are excluded from comparison, not treated as
    // a conflicting value
    let mut a = empty_exif();
    a.time_zone = Some("+00:00".to_string());
    let b = empty_exif();

    let assets = vec![
        asset_with_exif("a", "a.jpg", Some(a)),
        asset_with_exif("b", "b.jpg", Some(b)),
    ];
    let conflicts = detect_conflicts(&assets);
    assert!(conflicts.is_empty());
}

#[test]
fn test_empty_input_no_conflicts() {
    let assets: Vec<AssetResponse> = vec![];
    let conflicts = detect_conflicts(&assets);
    assert!(conflicts.is_empty());
}
