//! Tests for the scenario fixtures, detection, and reporting.

use immich_lib::models::{AssetResponse, AssetType, DuplicateGroup, ExifInfo};
use immich_lib::testing::detector::{detect_scenarios, extract_year};
use immich_lib::testing::{all_fixtures, format_report, ScenarioMatch, ScenarioReport, TestScenario};
use immich_lib::testing::generator::{ExifSpec, ImageSpec, TestImage, TransformSpec};

fn empty_exif() -> ExifInfo {
    ExifInfo {
        latitude: None,
        longitude: None,
        city: None,
        state: None,
        country: None,
        time_zone: None,
        date_time_original: None,
        make: None,
        model: None,
        lens_model: None,
        exposure_time: None,
        iso: None,
        exif_image_width: None,
        exif_image_height: None,
        file_size_in_byte: None,
        description: None,
        rating: None,
        orientation: None,
        modify_date: None,
        projection_type: None,
    }
}

fn asset(id: &str, filename: &str, exif: Option<ExifInfo>) -> AssetResponse {
    AssetResponse {
        id: id.to_string(),
        original_file_name: filename.to_string(),
        file_created_at: "2024-01-01T00:00:00Z".to_string(),
        local_date_time: "2024-01-01T00:00:00".to_string(),
        asset_type: AssetType::Image,
        exif_info: exif,
        checksum: "checksum".to_string(),
        is_trashed: false,
        is_favorite: false,
        is_archived: false,
        has_metadata: true,
        duration: "0:00:00.000000".to_string(),
        owner_id: "owner-1".to_string(),
        original_mime_type: None,
        duplicate_id: None,
        thumbhash: None,
    }
}

fn has(matches: &[ScenarioMatch], sc: TestScenario) -> bool {
    matches.iter().any(|m| m.scenario == sc)
}

#[test]
fn test_all_fixtures_count() {
    let fixtures = all_fixtures();
    assert_eq!(fixtures.len(), 34, "Should have exactly 34 fixtures");
}

#[test]
fn test_tracked_list_omits_heic_and_raw() {
    let all = TestScenario::all();
    assert!(!all.contains(&TestScenario::X6Heic));
    assert!(!all.contains(&TestScenario::X8Raw));
    let fixtures = all_fixtures();
    assert!(fixtures.iter().any(|f| f.scenario == TestScenario::X6Heic));
    assert!(fixtures.iter().any(|f| f.scenario == TestScenario::X8Raw));
}

#[test]
fn test_all_scenarios_covered() {
    let fixtures = all_fixtures();
    let all_scenarios = TestScenario::all();

    for scenario in &all_scenarios {
        let found = fixtures.iter().any(|f| f.scenario == *scenario);
        assert!(found, "Missing fixture for scenario: {:?}", scenario);
    }
}

#[test]
fn test_each_fixture_has_images() {
    let fixtures = all_fixtures();
    for fixture in &fixtures {
        assert!(
            !fixture.images.is_empty(),
            "Fixture {:?} has no images",
            fixture.scenario
        );
    }
}

#[test]
fn test_winner_index_valid() {
    let fixtures = all_fixtures();
    for fixture in &fixtures {
        assert!(
            fixture.expected_winner_index < fixture.images.len(),
            "Fixture {:?} has invalid winner index {} (only {} images)",
            fixture.scenario,
            fixture.expected_winner_index,
            fixture.images.len()
        );
    }
}

#[test]
fn test_transform_spec_builder() {
    let spec = TransformSpec::new("base_landscape.jpg")
        .with_size(1000, 750)
        .with_quality(90);

    assert_eq!(spec.base_image, "base_landscape.jpg");
    assert_eq!(spec.width, Some(1000));
    assert_eq!(spec.height, Some(750));
    assert_eq!(spec.quality, 90);
}

#[test]
fn test_transform_spec_scale() {
    let spec = TransformSpec::new("base_portrait.jpg").with_scale(50);

    assert_eq!(spec.width, Some(50));
    assert_eq!(spec.height, None);
}

#[test]
fn test_test_image_builder() {
    let image = TestImage::new(
        "photo.jpg",
        ImageSpec {
            width: Some(800),
            height: Some(600),
            color: [1, 2, 3],
        },
    )
    .with_exif(ExifSpec {
        gps: Some((51_507_400, -127_800)),
        datetime: None,
        timezone: None,
        camera_make: Some("Apple".to_string()),
        camera_model: None,
        description: None,
    });
    assert_eq!(image.filename, "photo.jpg");
    assert_eq!(image.image_spec.width, Some(800));
    assert_eq!(image.exif_spec.gps, Some((51_507_400, -127_800)));
    assert_eq!(image.exif_spec.camera_make.as_deref(), Some("Apple"));
}

#[test]
fn test_scenario_codes() {
    assert_eq!(TestScenario::W1ClearDimensionWinner.code(), "w1");
    assert_eq!(TestScenario::C6MultipleLosersContribute.code(), "c6");
    assert_eq!(TestScenario::F2GpsWithinThreshold.code(), "f2");
    assert_eq!(TestScenario::X11FutureDate.code(), "x11");
}

#[test]
fn test_scenario_categories_names() {
    assert_eq!(TestScenario::W1ClearDimensionWinner.category(), "Winner Selection");
    assert_eq!(TestScenario::C1WinnerLacksGpsLoserHas.category(), "Consolidation");
    assert_eq!(TestScenario::F1GpsConflict.category(), "Conflicts");
    assert_eq!(TestScenario::X5Video.category(), "Edge Cases");
    assert_eq!(TestScenario::all().len(), 32);
    assert_eq!(
        TestScenario::W1ClearDimensionWinner.name(),
        "W1: Clear dimension winner"
    );
}

#[test]
fn test_extract_year_formats() {
    assert_eq!(extract_year("2023:01:15 12:00:00"), Some(2023));
    assert_eq!(extract_year("2023-01-15T12:00:00Z"), Some(2023));
    assert_eq!(extract_year("1985:07:20 12:00:00"), Some(1985));
    assert_eq!(extract_year("not-a-date"), None);
    assert_eq!(extract_year(""), None);
    assert_eq!(extract_year("3000-01-01"), None);
    assert_eq!(extract_year("1700-01-01"), None);
}

#[test]
fn test_detect_single_asset_group() {
    let g = DuplicateGroup {
        duplicate_id: "g1".to_string(),
        assets: vec![asset("a", "a.jpg", None)],
    };
    let matches = detect_scenarios(&g, 2026);
    assert!(has(&matches, TestScenario::X1SingleAssetGroup));
    assert!(!has(&matches, TestScenario::W7ThreePlusDuplicates));
    assert!(has(&matches, TestScenario::F7NoConflicts));
}

#[test]
fn test_detect_dimension_scenarios_clear_winner() {
    let mut big = empty_exif();
    big.exif_image_width = Some(2000);
    big.exif_image_height = Some(1500);
    let mut small = empty_exif();
    small.exif_image_width = Some(1000);
    small.exif_image_height = Some(750);
    let g = DuplicateGroup {
        duplicate_id: "g2".to_string(),
        assets: vec![
            asset("a", "a.jpg", Some(big)),
            asset("b", "b.jpg", Some(small)),
        ],
    };
    let matches = detect_scenarios(&g, 2026);
    assert!(has(&matches, TestScenario::W1ClearDimensionWinner));
    assert!(!has(&matches, TestScenario::W8SamePixelsDifferentAspect));
}

#[test]
fn test_detect_consolidation_and_edge_scenarios() {
    let mut winner = empty_exif();
    winner.exif_image_width = Some(4000);
    winner.exif_image_height = Some(3000);
    let mut loser = empty_exif();
    loser.exif_image_width = Some(2000);
    loser.exif_image_height = Some(1500);
    loser.latitude = Some(51_507_400);
    loser.longitude = Some(-127_800);
    loser.date_time_original = Some("2030:01:01 00:00:00".to_string());
    let g = DuplicateGroup {
        duplicate_id: "g3".to_string(),
        assets: vec![
            asset("w", "w.jpg", Some(winner)),
            asset("l", "l.png", Some(loser)),
        ],
    };
    let matches = detect_scenarios(&g, 2026);
    assert!(has(&matches, TestScenario::C1WinnerLacksGpsLoserHas));
    assert!(has(&matches, TestScenario::C2WinnerLacksDatetimeLoserHas));
    assert!(has(&matches, TestScenario::X7Png));
    assert!(has(&matches, TestScenario::X11FutureDate));
    assert!(!has(&matches, TestScenario::X10VeryOldDate));
}

#[test]
fn test_detect_conflict_scenarios_gps() {
    let mut a = empty_exif();
    a.latitude = Some(51_507_400);
    a.longitude = Some(-127_800);
    let mut b = empty_exif();
    b.latitude = Some(48_856_600);
    b.longitude = Some(2_352_200);
    let g = DuplicateGroup {
        duplicate_id: "g4".to_string(),
        assets: vec![
            asset("a", "a.jpg", Some(a)),
            asset("b", "b.jpg", Some(b)),
        ],
    };
    let matches = detect_scenarios(&g, 2026);
    assert!(has(&matches, TestScenario::F1GpsConflict));
    assert!(!has(&matches, TestScenario::F7NoConflicts));
    assert!(!has(&matches, TestScenario::F2GpsWithinThreshold));
}

#[test]
fn test_report_from_matches_groups_by_scenario() {
    let matches = vec![
        ScenarioMatch {
            scenario: TestScenario::F1GpsConflict,
            duplicate_id: "g1".to_string(),
            details: "two locations".to_string(),
        },
        ScenarioMatch {
            scenario: TestScenario::F1GpsConflict,
            duplicate_id: "g2".to_string(),
            details: "two locations".to_string(),
        },
        ScenarioMatch {
            scenario: TestScenario::X5Video,
            duplicate_id: "g3".to_string(),
            details: "video".to_string(),
        },
    ];
    let report = ScenarioReport::from_matches(matches, 3);
    assert_eq!(report.total_groups, 3);
    assert_eq!(report.coverage.len(), 2);
    assert_eq!(report.coverage[0].0, "F1: GPS conflict");
    assert_eq!(report.coverage[0].1.len(), 2);
    assert_eq!(report.coverage[1].0, "X5: Video");
    assert_eq!(report.uncovered.len(), 30);
    assert!(report.unexpected.is_empty());
}

#[test]
fn test_report_add_unexpected() {
    let mut report = ScenarioReport::from_matches(Vec::new(), 0);
    report.add_unexpected("an odd pattern".to_string());
    assert_eq!(report.unexpected, vec!["an odd pattern".to_string()]);
}

#[test]
fn test_format_report_header_and_counts() {
    let matches = vec![ScenarioMatch {
        scenario: TestScenario::W1ClearDimensionWinner,
        duplicate_id: "g1".to_string(),
        details: "dims".to_string(),
    }];
    let report = ScenarioReport::from_matches(matches, 1);
    let text = format_report(&report);
    assert!(text.starts_with("=== Test Scenario Coverage Report ===\n\n"));
    assert!(text.contains("COVERED (1/32 scenarios, 3%):\n"));
    assert!(text.contains("W1: Clear dimension winner: 1 groups"));
    assert!(text.contains("Example: g1 (dims)"));
    assert!(text.contains("NOT COVERED (31 scenarios):"));
    assert!(text.contains("Total groups analyzed: 1"));
}
