//! Test fixture specifications for the test scenarios.
//!
//! Each fixture defines the exact images, metadata, and expected outcomes
//! for reproducible integration testing, one group per scenario. GPS
//! coordinates are microdegrees; capture times are EXIF-formatted strings.

use vstd::prelude::*;

use crate::testing::generator::{ExifSpec, ImageSpec, TestImage};
use crate::testing::scenarios::TestScenario;
use crate::text::{concat_str, u64_to_string};

verus! {

/// A complete test fixture for a scenario: the images of one duplicate
/// group, the index of the expected winner, and a description.
pub struct ScenarioFixture {
    /// The scenario this fixture tests
    pub scenario: TestScenario,
    /// Images in the duplicate group
    pub images: Vec<TestImage>,
    /// Index of expected winner (0-based)
    pub expected_winner_index: usize,
    /// Description of what this tests
    pub description: String,
}

impl ScenarioFixture {
    /// A fixture is well-formed when it has images and its expected winner
    /// index points at one of them.
    pub open spec fn wf(&self) -> bool {
        self.images@.len() > 0 && self.expected_winner_index < self.images@.len()
    }
}

/// Larger dimensions should win (2000x1500 vs 1000x750).
fn w1_clear_dimension_winner() -> (r: ScenarioFixture)
    ensures
        r.wf(),
        r.scenario == TestScenario::W1ClearDimensionWinner,
        r.images@.len() == 2,
        r.expected_winner_index == 0,
{
    let mut images: Vec<TestImage> = Vec::new();
    images.push(
        TestImage {
            filename: "w1_large.jpg".to_owned(),
            image_spec: ImageSpec { width: Option::Some(2000u32), height: Option::Some(1500u32), color: [255, 0, 0] },
            exif_spec: ExifSpec {
                gps: Option::None,
                datetime: Option::None,
                timezone: Option::None,
                camera_make: Option::None,
                camera_model: Option::None,
                description: Option::None,
            },
        },
    );
    images.push(
        TestImage {
            filename: "w1_small.jpg".to_owned(),
            image_spec: ImageSpec { width: Option::Some(1000u32), height: Option::Some(750u32), color: [255, 0, 0] },
            exif_spec: ExifSpec {
                gps: Option::None,
                datetime: Option::None,
                timezone: Option::None,
                camera_make: Option::None,
                camera_model: Option::None,
                description: Option::None,
            },
        },
    );
    ScenarioFixture {
        scenario: TestScenario::W1ClearDimensionWinner,
        images,
        expected_winner_index: 0,
        description: "Larger dimensions should win (2000x1500 vs 1000x750)".to_owned(),
    }
}

/// Same dimensions - first in list wins on tie.
fn w2_same_dimensions_different_size() -> (r: ScenarioFixture)
    ensures
        r.wf(),
        r.scenario == TestScenario::W2SameDimensionsDifferentSize,
        r.images@.len() == 2,
        r.expected_winner_index == 0,
{
    let mut images: Vec<TestImage> = Vec::new();
    images.push(
        TestImage {
            filename: "w2_a.jpg".to_owned(),
            image_spec: ImageSpec { width: Option::Some(1920u32), height: Option::Some(1080u32), color: [255, 128, 0] },
            exif_spec: ExifSpec {
                gps: Option::None,
                datetime: Option::None,
                timezone: Option::None,
                camera_make: Option::None,
                camera_model: Option::None,
                description: Option::None,
            },
        },
    );
    images.push(
        TestImage {
            filename: "w2_b.jpg".to_owned(),
            image_spec: ImageSpec { width: Option::Some(1920u32), height: Option::Some(1080u32), color: [255, 128, 0] },
            exif_spec: ExifSpec {
                gps: Option::None,
                datetime: Option::None,
                timezone: Option::None,
                camera_make: Option::None,
                camera_model: Option::None,
                description: Option::None,
            },
        },
    );
    ScenarioFixture {
        scenario: TestScenario::W2SameDimensionsDifferentSize,
        images,
        expected_winner_index: 0,
        description: "Same dimensions - first in list wins on tie".to_owned(),
    }
}

/// Identical dimensions and size - first wins.
fn w3_same_dimensions_same_size() -> (r: ScenarioFixture)
    ensures
        r.wf(),
        r.scenario == TestScenario::W3SameDimensionsSameSize,
        r.images@.len() == 2,
        r.expected_winner_index == 0,
{
    let mut images: Vec<TestImage> = Vec::new();
    images.push(
        TestImage {
            filename: "w3_a.jpg".to_owned(),
            image_spec: ImageSpec { width: Option::Some(1000u32), height: Option::Some(1000u32), color: [255, 255, 0] },
            exif_spec: ExifSpec {
                gps: Option::None,
                datetime: Option::None,
                timezone: Option::None,
                camera_make: Option::None,
                camera_model: Option::None,
                description: Option::None,
            },
        },
    );
    images.push(
        TestImage {
            filename: "w3_b.jpg".to_owned(),
            image_spec: ImageSpec { width: Option::Some(1000u32), height: Option::Some(1000u32), color: [255, 255, 0] },
            exif_spec: ExifSpec {
                gps: Option::None,
                datetime: Option::None,
                timezone: Option::None,
                camera_make: Option::None,
                camera_model: Option::None,
                description: Option::None,
            },
        },
    );
    ScenarioFixture {
        scenario: TestScenario::W3SameDimensionsSameSize,
        images,
        expected_winner_index: 0,
        description: "Identical dimensions and size - first wins".to_owned(),
    }
}

/// Asset with dimensions beats asset without.
fn w4_some_missing_dimensions() -> (r: ScenarioFixture)
    ensures
        r.wf(),
        r.scenario == TestScenario::W4SomeMissingDimensions,
        r.images@.len() == 2,
        r.expected_winner_index == 0,
{
    let mut images: Vec<TestImage> = Vec::new();
    images.push(
        TestImage {
            filename: "w4_with_dims.jpg".to_owned(),
            image_spec: ImageSpec { width: Option::Some(1600u32), height: Option::Some(1200u32), color: [0, 255, 0] },
            exif_spec: ExifSpec {
                gps: Option::None,
                datetime: Option::None,
                timezone: Option::None,
                camera_make: Option::None,
                camera_model: Option::None,
                description: Option::None,
            },
        },
    );
    images.push(
        TestImage {
            filename: "w4_no_dims.jpg".to_owned(),
            image_spec: ImageSpec { width: Option::None, height: Option::None, color: [0, 255, 0] },
            exif_spec: ExifSpec {
                gps: Option::None,
                datetime: Option::None,
                timezone: Option::None,
                camera_make: Option::None,
                camera_model: Option::None,
                description: Option::None,
            },
        },
    );
    ScenarioFixture {
        scenario: TestScenario::W4SomeMissingDimensions,
        images,
        expected_winner_index: 0,
        description: "Asset with dimensions beats asset without".to_owned(),
    }
}

/// Only second asset has dimensions - it wins.
fn w5_only_one_has_dimensions() -> (r: ScenarioFixture)
    ensures
        r.wf(),
        r.scenario == TestScenario::W5OnlyOneHasDimensions,
        r.images@.len() == 2,
        r.expected_winner_index == 1,
{
    let mut images: Vec<TestImage> = Vec::new();
    images.push(
        TestImage {
            filename: "w5_no_dims.jpg".to_owned(),
            image_spec: ImageSpec { width: Option::None, height: Option::None, color: [0, 128, 255] },
            exif_spec: ExifSpec {
                gps: Option::None,
                datetime: Option::None,
                timezone: Option::None,
                camera_make: Option::None,
                camera_model: Option::None,
                description: Option::None,
            },
        },
    );
    images.push(
        TestImage {
            filename: "w5_with_dims.jpg".to_owned(),
            image_spec: ImageSpec { width: Option::Some(800u32), height: Option::Some(600u32), color: [0, 128, 255] },
            exif_spec: ExifSpec {
                gps: Option::None,
                datetime: Option::None,
                timezone: Option::None,
                camera_make: Option::None,
                camera_model: Option::None,
                description: Option::None,
            },
        },
    );
    ScenarioFixture {
        scenario: TestScenario::W5OnlyOneHasDimensions,
        images,
        expected_winner_index: 1,
        description: "Only second asset has dimensions - it wins".to_owned(),
    }
}

/// No dimensions on any - first wins.
fn w6_all_missing_dimensions() -> (r: ScenarioFixture)
    ensures
        r.wf(),
        r.scenario == TestScenario::W6AllMissingDimensions,
        r.images@.len() == 2,
        r.expected_winner_index == 0,
{
    let mut images: Vec<TestImage> = Vec::new();
    images.push(
        TestImage {
            filename: "w6_a.jpg".to_owned(),
            image_spec: ImageSpec { width: Option::None, height: Option::None, color: [0, 0, 255] },
            exif_spec: ExifSpec {
                gps: Option::None,
                datetime: Option::None,
                timezone: Option::None,
                camera_make: Option::None,
                camera_model: Option::None,
                description: Option::None,
            },
        },
    );
    images.push(
        TestImage {
            filename: "w6_b.jpg".to_owned(),
            image_spec: ImageSpec { width: Option::None, height: Option::None, color: [0, 0, 255] },
            exif_spec: ExifSpec {
                gps: Option::None,
                datetime: Option::None,
                timezone: Option::None,
                camera_make: Option::None,
                camera_model: Option::None,
                description: Option::None,
            },
        },
    );
    ScenarioFixture {
        scenario: TestScenario::W6AllMissingDimensions,
        images,
        expected_winner_index: 0,
        description: "No dimensions on any - first wins".to_owned(),
    }
}

/// 3 duplicates - largest dimensions wins.
fn w7_three_plus_duplicates() -> (r: ScenarioFixture)
    ensures
        r.wf(),
        r.scenario == TestScenario::W7ThreePlusDuplicates,
        r.images@.len() == 3,
        r.expected_winner_index == 1,
{
    let mut images: Vec<TestImage> = Vec::new();
    images.push(
        TestImage {
            filename: "w7_small.jpg".to_owned(),
            image_spec: ImageSpec { width: Option::Some(640u32), height: Option::Some(480u32), color: [128, 0, 255] },
            exif_spec: ExifSpec {
                gps: Option::None,
                datetime: Option::None,
                timezone: Option::None,
                camera_make: Option::None,
                camera_model: Option::None,
                description: Option::None,
            },
        },
    );
    images.push(
        TestImage {
            filename: "w7_large.jpg".to_owned(),
            image_spec: ImageSpec { width: Option::Some(3000u32), height: Option::Some(2000u32), color: [128, 0, 255] },
            exif_spec: ExifSpec {
                gps: Option::None,
                datetime: Option::None,
                timezone: Option::None,
                camera_make: Option::None,
                camera_model: Option::None,
                description: Option::None,
            },
        },
    );
    images.push(
        TestImage {
            filename: "w7_medium.jpg".to_owned(),
            image_spec: ImageSpec { width: Option::Some(1920u32), height: Option::Some(1080u32), color: [128, 0, 255] },
            exif_spec: ExifSpec {
                gps: Option::None,
                datetime: Option::None,
                timezone: Option::None,
                camera_make: Option::None,
                camera_model: Option::None,
                description: Option::None,
            },
        },
    );
    ScenarioFixture {
        scenario: TestScenario::W7ThreePlusDuplicates,
        images,
        expected_winner_index: 1,
        description: "3 duplicates - largest dimensions wins".to_owned(),
    }
}

/// Same pixel count, different aspect - first wins.
fn w8_same_pixels_different_aspect() -> (r: ScenarioFixture)
    ensures
        r.wf(),
        r.scenario == TestScenario::W8SamePixelsDifferentAspect,
        r.images@.len() == 2,
        r.expected_winner_index == 0,
{
    let mut images: Vec<TestImage> = Vec::new();
    images.push(
        TestImage {
            filename: "w8_wide.jpg".to_owned(),
            image_spec: ImageSpec { width: Option::Some(2000u32), height: Option::Some(1000u32), color: [255, 0, 255] },
            exif_spec: ExifSpec {
                gps: Option::None,
                datetime: Option::None,
                timezone: Option::None,
                camera_make: Option::None,
                camera_model: Option::None,
                description: Option::None,
            },
        },
    );
    images.push(
        TestImage {
            filename: "w8_tall.jpg".to_owned(),
            image_spec: ImageSpec { width: Option::Some(1000u32), height: Option::Some(2000u32), color: [255, 0, 255] },
            exif_spec: ExifSpec {
                gps: Option::None,
                datetime: Option::None,
                timezone: Option::None,
                camera_make: Option::None,
                camera_model: Option::None,
                description: Option::None,
            },
        },
    );
    ScenarioFixture {
        scenario: TestScenario::W8SamePixelsDifferentAspect,
        images,
        expected_winner_index: 0,
        description: "Same pixel count, different aspect - first wins".to_owned(),
    }
}

/// Winner lacks GPS, loser has it - consolidate GPS.
fn c1_winner_lacks_gps_loser_has() -> (r: ScenarioFixture)
    ensures
        r.wf(),
        r.scenario == TestScenario::C1WinnerLacksGpsLoserHas,
        r.images@.len() == 2,
        r.expected_winner_index == 0,
{
    let mut images: Vec<TestImage> = Vec::new();
    images.push(
        TestImage {
            filename: "c1_winner_no_gps.jpg".to_owned(),
            image_spec: ImageSpec { width: Option::Some(3000u32), height: Option::Some(2000u32), color: [200, 100, 100] },
            exif_spec: ExifSpec {
                gps: Option::None,
                datetime: Option::None,
                timezone: Option::None,
                camera_make: Option::None,
                camera_model: Option::None,
                description: Option::None,
            },
        },
    );
    images.push(
        TestImage {
            filename: "c1_loser_has_gps.jpg".to_owned(),
            image_spec: ImageSpec { width: Option::Some(1500u32), height: Option::Some(1000u32), color: [200, 100, 100] },
            exif_spec: ExifSpec {
                gps: Option::Some((51507400i64, -127800i64)),
                datetime: Option::None,
                timezone: Option::None,
                camera_make: Option::None,
                camera_model: Option::None,
                description: Option::None,
            },
        },
    );
    ScenarioFixture {
        scenario: TestScenario::C1WinnerLacksGpsLoserHas,
        images,
        expected_winner_index: 0,
        description: "Winner lacks GPS, loser has it - consolidate GPS".to_owned(),
    }
}

/// Winner lacks datetime, loser has it.
fn c2_winner_lacks_datetime_loser_has() -> (r: ScenarioFixture)
    ensures
        r.wf(),
        r.scenario == TestScenario::C2WinnerLacksDatetimeLoserHas,
        r.images@.len() == 2,
        r.expected_winner_index == 0,
{
    let mut images: Vec<TestImage> = Vec::new();
    images.push(
        TestImage {
            filename: "c2_winner_no_dt.jpg".to_owned(),
            image_spec: ImageSpec { width: Option::Some(2500u32), height: Option::Some(1875u32), color: [100, 200, 100] },
            exif_spec: ExifSpec {
                gps: Option::None,
                datetime: Option::None,
                timezone: Option::None,
                camera_make: Option::None,
                camera_model: Option::None,
                description: Option::None,
            },
        },
    );
    images.push(
        TestImage {
            filename: "c2_loser_has_dt.jpg".to_owned(),
            image_spec: ImageSpec { width: Option::Some(1250u32), height: Option::Some(938u32), color: [100, 200, 100] },
            exif_spec: ExifSpec {
                gps: Option::None,
                datetime: Option::Some("2024:06:15 14:30:00".to_owned()),
                timezone: Option::None,
                camera_make: Option::None,
                camera_model: Option::None,
                description: Option::None,
            },
        },
    );
    ScenarioFixture {
        scenario: TestScenario::C2WinnerLacksDatetimeLoserHas,
        images,
        expected_winner_index: 0,
        description: "Winner lacks datetime, loser has it".to_owned(),
    }
}

/// Winner lacks description, loser has it.
fn c3_winner_lacks_description_loser_has() -> (r: ScenarioFixture)
    ensures
        r.wf(),
        r.scenario == TestScenario::C3WinnerLacksDescriptionLoserHas,
        r.images@.len() == 2,
        r.expected_winner_index == 0,
{
    let mut images: Vec<TestImage> = Vec::new();
    images.push(
        TestImage {
            filename: "c3_winner_no_desc.jpg".to_owned(),
            image_spec: ImageSpec { width: Option::Some(2200u32), height: Option::Some(1650u32), color: [100, 100, 200] },
            exif_spec: ExifSpec {
                gps: Option::None,
                datetime: Option::None,
                timezone: Option::None,
                camera_make: Option::None,
                camera_model: Option::None,
                description: Option::None,
            },
        },
    );
    images.push(
        TestImage {
            filename: "c3_loser_has_desc.jpg".to_owned(),
            image_spec: ImageSpec { width: Option::Some(1100u32), height: Option::Some(825u32), color: [100, 100, 200] },
            exif_spec: ExifSpec {
                gps: Option::None,
                datetime: Option::None,
                timezone: Option::None,
                camera_make: Option::None,
                camera_model: Option::None,
                description: Option::Some("Sunset at the beach".to_owned()),
            },
        },
    );
    ScenarioFixture {
        scenario: TestScenario::C3WinnerLacksDescriptionLoserHas,
        images,
        expected_winner_index: 0,
        description: "Winner lacks description, loser has it".to_owned(),
    }
}

/// Winner has no metadata, loser has everything.
fn c4_winner_lacks_all_loser_has_all() -> (r: ScenarioFixture)
    ensures
        r.wf(),
        r.scenario == TestScenario::C4WinnerLacksAllLoserHasAll,
        r.images@.len() == 2,
        r.expected_winner_index == 0,
{
    let mut images: Vec<TestImage> = Vec::new();
    images.push(
        TestImage {
            filename: "c4_winner_bare.jpg".to_owned(),
            image_spec: ImageSpec { width: Option::Some(4000u32), height: Option::Some(3000u32), color: [150, 150, 50] },
            exif_spec: ExifSpec {
                gps: Option::None,
                datetime: Option::None,
                timezone: Option::None,
                camera_make: Option::None,
                camera_model: Option::None,
                description: Option::None,
            },
        },
    );
    images.push(
        TestImage {
            filename: "c4_loser_rich.jpg".to_owned(),
            image_spec: ImageSpec { width: Option::Some(2000u32), height: Option::Some(1500u32), color: [150, 150, 50] },
            exif_spec: ExifSpec {
                gps: Option::Some((40712800i64, -74006000i64)),
                datetime: Option::Some("2023:12:25 10:00:00".to_owned()),
                timezone: Option::Some("-05:00".to_owned()),
                camera_make: Option::Some("Canon".to_owned()),
                camera_model: Option::Some("EOS R5".to_owned()),
                description: Option::Some("Christmas morning".to_owned()),
            },
        },
    );
    ScenarioFixture {
        scenario: TestScenario::C4WinnerLacksAllLoserHasAll,
        images,
        expected_winner_index: 0,
        description: "Winner has no metadata, loser has everything".to_owned(),
    }
}

/// Both have same GPS - no consolidation needed.
fn c5_both_have_gps() -> (r: ScenarioFixture)
    ensures
        r.wf(),
        r.scenario == TestScenario::C5BothHaveGps,
        r.images@.len() == 2,
        r.expected_winner_index == 0,
{
    let mut images: Vec<TestImage> = Vec::new();
    images.push(
        TestImage {
            filename: "c5_a_gps.jpg".to_owned(),
            image_spec: ImageSpec { width: Option::Some(2400u32), height: Option::Some(1600u32), color: [50, 150, 150] },
            exif_spec: ExifSpec {
                gps: Option::Some((48856600i64, 2352200i64)),
                datetime: Option::None,
                timezone: Option::None,
                camera_make: Option::None,
                camera_model: Option::None,
                description: Option::None,
            },
        },
    );
    images.push(
        TestImage {
            filename: "c5_b_gps.jpg".to_owned(),
            image_spec: ImageSpec { width: Option::Some(1200u32), height: Option::Some(800u32), color: [50, 150, 150] },
            exif_spec: ExifSpec {
                gps: Option::Some((48856600i64, 2352200i64)),
                datetime: Option::None,
                timezone: Option::None,
                camera_make: Option::None,
                camera_model: Option::None,
                description: Option::None,
            },
        },
    );
    ScenarioFixture {
        scenario: TestScenario::C5BothHaveGps,
        images,
        expected_winner_index: 0,
        description: "Both have same GPS - no consolidation needed".to_owned(),
    }
}

/// Multiple losers contribute different metadata.
fn c6_multiple_losers_contribute() -> (r: ScenarioFixture)
    ensures
        r.wf(),
        r.scenario == TestScenario::C6MultipleLosersContribute,
        r.images@.len() == 3,
        r.expected_winner_index == 0,
{
    let mut images: Vec<TestImage> = Vec::new();
    images.push(
        TestImage {
            filename: "c6_winner.jpg".to_owned(),
            image_spec: ImageSpec { width: Option::Some(3200u32), height: Option::Some(2400u32), color: [200, 50, 150] },
            exif_spec: ExifSpec {
                gps: Option::None,
                datetime: Option::None,
                timezone: Option::None,
                camera_make: Option::None,
                camera_model: Option::None,
                description: Option::None,
            },
        },
    );
    images.push(
        TestImage {
            filename: "c6_loser_gps.jpg".to_owned(),
            image_spec: ImageSpec { width: Option::Some(1600u32), height: Option::Some(1200u32), color: [200, 50, 150] },
            exif_spec: ExifSpec {
                gps: Option::Some((35676200i64, 139650300i64)),
                datetime: Option::None,
                timezone: Option::None,
                camera_make: Option::None,
                camera_model: Option::None,
                description: Option::None,
            },
        },
    );
    images.push(
        TestImage {
            filename: "c6_loser_dt.jpg".to_owned(),
            image_spec: ImageSpec { width: Option::Some(800u32), height: Option::Some(600u32), color: [200, 50, 150] },
            exif_spec: ExifSpec {
                gps: Option::None,
                datetime: Option::Some("2024:03:20 09:00:00".to_owned()),
                timezone: Option::None,
                camera_make: Option::None,
                camera_model: Option::None,
                description: Option::None,
            },
        },
    );
    ScenarioFixture {
        scenario: TestScenario::C6MultipleLosersContribute,
        images,
        expected_winner_index: 0,
        description: "Multiple losers contribute different metadata".to_owned(),
    }
}

/// Winner lacks GPS but no loser has it either.
fn c7_no_loser_has_needed() -> (r: ScenarioFixture)
    ensures
        r.wf(),
        r.scenario == TestScenario::C7NoLoserHasNeeded,
        r.images@.len() == 2,
        r.expected_winner_index == 0,
{
    let mut images: Vec<TestImage> = Vec::new();
    images.push(
        TestImage {
            filename: "c7_winner.jpg".to_owned(),
            image_spec: ImageSpec { width: Option::Some(2800u32), height: Option::Some(2100u32), color: [100, 200, 50] },
            exif_spec: ExifSpec {
                gps: Option::None,
                datetime: Option::None,
                timezone: Option::None,
                camera_make: Option::None,
                camera_model: Option::None,
                description: Option::None,
            },
        },
    );
    images.push(
        TestImage {
            filename: "c7_loser.jpg".to_owned(),
            image_spec: ImageSpec { width: Option::Some(1400u32), height: Option::Some(1050u32), color: [100, 200, 50] },
            exif_spec: ExifSpec {
                gps: Option::None,
                datetime: Option::None,
                timezone: Option::None,
                camera_make: Option::None,
                camera_model: Option::None,
                description: Option::None,
            },
        },
    );
    ScenarioFixture {
        scenario: TestScenario::C7NoLoserHasNeeded,
        images,
        expected_winner_index: 0,
        description: "Winner lacks GPS but no loser has it either".to_owned(),
    }
}

/// Winner already has all metadata - nothing to consolidate.
fn c8_winner_has_everything() -> (r: ScenarioFixture)
    ensures
        r.wf(),
        r.scenario == TestScenario::C8WinnerHasEverything,
        r.images@.len() == 2,
        r.expected_winner_index == 0,
{
    let mut images: Vec<TestImage> = Vec::new();
    images.push(
        TestImage {
            filename: "c8_winner_full.jpg".to_owned(),
            image_spec: ImageSpec { width: Option::Some(3600u32), height: Option::Some(2400u32), color: [50, 100, 200] },
            exif_spec: ExifSpec {
                gps: Option::Some((37774900i64, -122419400i64)),
                datetime: Option::Some("2024:07:04 12:00:00".to_owned()),
                timezone: Option::Some("-07:00".to_owned()),
                camera_make: Option::Some("Sony".to_owned()),
                camera_model: Option::Some("A7R IV".to_owned()),
                description: Option::Some("Golden Gate at noon".to_owned()),
            },
        },
    );
    images.push(
        TestImage {
            filename: "c8_loser_bare.jpg".to_owned(),
            image_spec: ImageSpec { width: Option::Some(1800u32), height: Option::Some(1200u32), color: [50, 100, 200] },
            exif_spec: ExifSpec {
                gps: Option::None,
                datetime: Option::None,
                timezone: Option::None,
                camera_make: Option::None,
                camera_model: Option::None,
                description: Option::None,
            },
        },
    );
    ScenarioFixture {
        scenario: TestScenario::C8WinnerHasEverything,
        images,
        expected_winner_index: 0,
        description: "Winner already has all metadata - nothing to consolidate".to_owned(),
    }
}

/// GPS conflict - London vs Paris (should flag conflict).
fn f1_gps_conflict() -> (r: ScenarioFixture)
    ensures
        r.wf(),
        r.scenario == TestScenario::F1GpsConflict,
        r.images@.len() == 2,
        r.expected_winner_index == 0,
{
    let mut images: Vec<TestImage> = Vec::new();
    images.push(
        TestImage {
            filename: "f1_london.jpg".to_owned(),
            image_spec: ImageSpec { width: Option::Some(2000u32), height: Option::Some(1500u32), color: [255, 100, 100] },
            exif_spec: ExifSpec {
                gps: Option::Some((51507400i64, -127800i64)),
                datetime: Option::None,
                timezone: Option::None,
                camera_make: Option::None,
                camera_model: Option::None,
                description: Option::None,
            },
        },
    );
    images.push(
        TestImage {
            filename: "f1_paris.jpg".to_owned(),
            image_spec: ImageSpec { width: Option::Some(1000u32), height: Option::Some(750u32), color: [255, 100, 100] },
            exif_spec: ExifSpec {
                gps: Option::Some((48856600i64, 2352200i64)),
                datetime: Option::None,
                timezone: Option::None,
                camera_make: Option::None,
                camera_model: Option::None,
                description: Option::None,
            },
        },
    );
    ScenarioFixture {
        scenario: TestScenario::F1GpsConflict,
        images,
        expected_winner_index: 0,
        description: "GPS conflict - London vs Paris (should flag conflict)".to_owned(),
    }
}

/// GPS within threshold - should NOT conflict.
fn f2_gps_within_threshold() -> (r: ScenarioFixture)
    ensures
        r.wf(),
        r.scenario == TestScenario::F2GpsWithinThreshold,
        r.images@.len() == 2,
        r.expected_winner_index == 0,
{
    let mut images: Vec<TestImage> = Vec::new();
    images.push(
        TestImage {
            filename: "f2_pos_a.jpg".to_owned(),
            image_spec: ImageSpec { width: Option::Some(2000u32), height: Option::Some(1500u32), color: [100, 255, 100] },
            exif_spec: ExifSpec {
                gps: Option::Some((51507400i64, -127800i64)),
                datetime: Option::None,
                timezone: Option::None,
                camera_make: Option::None,
                camera_model: Option::None,
                description: Option::None,
            },
        },
    );
    images.push(
        TestImage {
            filename: "f2_pos_b.jpg".to_owned(),
            image_spec: ImageSpec { width: Option::Some(1000u32), height: Option::Some(750u32), color: [100, 255, 100] },
            exif_spec: ExifSpec {
                gps: Option::Some((51507450i64, -127850i64)),
                datetime: Option::None,
                timezone: Option::None,
                camera_make: Option::None,
                camera_model: Option::None,
                description: Option::None,
            },
        },
    );
    ScenarioFixture {
        scenario: TestScenario::F2GpsWithinThreshold,
        images,
        expected_winner_index: 0,
        description: "GPS within threshold - should NOT conflict".to_owned(),
    }
}

/// Timezone conflict - UTC vs PST.
fn f3_timezone_conflict() -> (r: ScenarioFixture)
    ensures
        r.wf(),
        r.scenario == TestScenario::F3TimezoneConflict,
        r.images@.len() == 2,
        r.expected_winner_index == 0,
{
    let mut images: Vec<TestImage> = Vec::new();
    images.push(
        TestImage {
            filename: "f3_tz_a.jpg".to_owned(),
            image_spec: ImageSpec { width: Option::Some(2000u32), height: Option::Some(1500u32), color: [100, 100, 255] },
            exif_spec: ExifSpec {
                gps: Option::None,
                datetime: Option::None,
                timezone: Option::Some("+00:00".to_owned()),
                camera_make: Option::None,
                camera_model: Option::None,
                description: Option::None,
            },
        },
    );
    images.push(
        TestImage {
            filename: "f3_tz_b.jpg".to_owned(),
            image_spec: ImageSpec { width: Option::Some(1000u32), height: Option::Some(750u32), color: [100, 100, 255] },
            exif_spec: ExifSpec {
                gps: Option::None,
                datetime: Option::None,
                timezone: Option::Some("-08:00".to_owned()),
                camera_make: Option::None,
                camera_model: Option::None,
                description: Option::None,
            },
        },
    );
    ScenarioFixture {
        scenario: TestScenario::F3TimezoneConflict,
        images,
        expected_winner_index: 0,
        description: "Timezone conflict - UTC vs PST".to_owned(),
    }
}

/// Camera conflict - Canon vs Nikon.
fn f4_camera_conflict() -> (r: ScenarioFixture)
    ensures
        r.wf(),
        r.scenario == TestScenario::F4CameraConflict,
        r.images@.len() == 2,
        r.expected_winner_index == 0,
{
    let mut images: Vec<TestImage> = Vec::new();
    images.push(
        TestImage {
            filename: "f4_canon.jpg".to_owned(),
            image_spec: ImageSpec { width: Option::Some(2000u32), height: Option::Some(1500u32), color: [200, 200, 100] },
            exif_spec: ExifSpec {
                gps: Option::None,
                datetime: Option::None,
                timezone: Option::None,
                camera_make: Option::Some("Canon".to_owned()),
                camera_model: Option::Some("EOS R5".to_owned()),
                description: Option::None,
            },
        },
    );
    images.push(
        TestImage {
            filename: "f4_nikon.jpg".to_owned(),
            image_spec: ImageSpec { width: Option::Some(1000u32), height: Option::Some(750u32), color: [200, 200, 100] },
            exif_spec: ExifSpec {
                gps: Option::None,
                datetime: Option::None,
                timezone: Option::None,
                camera_make: Option::Some("Nikon".to_owned()),
                camera_model: Option::Some("Z6 II".to_owned()),
                description: Option::None,
            },
        },
    );
    ScenarioFixture {
        scenario: TestScenario::F4CameraConflict,
        images,
        expected_winner_index: 0,
        description: "Camera conflict - Canon vs Nikon".to_owned(),
    }
}

/// Capture time conflict - morning vs evening.
fn f5_capture_time_conflict() -> (r: ScenarioFixture)
    ensures
        r.wf(),
        r.scenario == TestScenario::F5CaptureTimeConflict,
        r.images@.len() == 2,
        r.expected_winner_index == 0,
{
    let mut images: Vec<TestImage> = Vec::new();
    images.push(
        TestImage {
            filename: "f5_morning.jpg".to_owned(),
            image_spec: ImageSpec { width: Option::Some(2000u32), height: Option::Some(1500u32), color: [200, 100, 200] },
            exif_spec: ExifSpec {
                gps: Option::None,
                datetime: Option::Some("2024:01:15 08:00:00".to_owned()),
                timezone: Option::None,
                camera_make: Option::None,
                camera_model: Option::None,
                description: Option::None,
            },
        },
    );
    images.push(
        TestImage {
            filename: "f5_evening.jpg".to_owned(),
            image_spec: ImageSpec { width: Option::Some(1000u32), height: Option::Some(750u32), color: [200, 100, 200] },
            exif_spec: ExifSpec {
                gps: Option::None,
                datetime: Option::Some("2024:01:15 20:00:00".to_owned()),
                timezone: Option::None,
                camera_make: Option::None,
                camera_model: Option::None,
                description: Option::None,
            },
        },
    );
    ScenarioFixture {
        scenario: TestScenario::F5CaptureTimeConflict,
        images,
        expected_winner_index: 0,
        description: "Capture time conflict - morning vs evening".to_owned(),
    }
}

/// Multiple conflicts - GPS, camera, timezone all differ.
fn f6_multiple_conflicts() -> (r: ScenarioFixture)
    ensures
        r.wf(),
        r.scenario == TestScenario::F6MultipleConflicts,
        r.images@.len() == 2,
        r.expected_winner_index == 0,
{
    let mut images: Vec<TestImage> = Vec::new();
    images.push(
        TestImage {
            filename: "f6_a.jpg".to_owned(),
            image_spec: ImageSpec { width: Option::Some(2000u32), height: Option::Some(1500u32), color: [150, 150, 150] },
            exif_spec: ExifSpec {
                gps: Option::Some((51507400i64, -127800i64)),
                datetime: Option::None,
                timezone: Option::Some("+00:00".to_owned()),
                camera_make: Option::Some("Canon".to_owned()),
                camera_model: Option::None,
                description: Option::None,
            },
        },
    );
    images.push(
        TestImage {
            filename: "f6_b.jpg".to_owned(),
            image_spec: ImageSpec { width: Option::Some(1000u32), height: Option::Some(750u32), color: [150, 150, 150] },
            exif_spec: ExifSpec {
                gps: Option::Some((40712800i64, -74006000i64)),
                datetime: Option::None,
                timezone: Option::Some("-05:00".to_owned()),
                camera_make: Option::Some("Sony".to_owned()),
                camera_model: Option::None,
                description: Option::None,
            },
        },
    );
    ScenarioFixture {
        scenario: TestScenario::F6MultipleConflicts,
        images,
        expected_winner_index: 0,
        description: "Multiple conflicts - GPS, camera, timezone all differ".to_owned(),
    }
}

/// No conflicts - metadata matches.
fn f7_no_conflicts() -> (r: ScenarioFixture)
    ensures
        r.wf(),
        r.scenario == TestScenario::F7NoConflicts,
        r.images@.len() == 2,
        r.expected_winner_index == 0,
{
    let mut images: Vec<TestImage> = Vec::new();
    images.push(
        TestImage {
            filename: "f7_a.jpg".to_owned(),
            image_spec: ImageSpec { width: Option::Some(2000u32), height: Option::Some(1500u32), color: [180, 180, 180] },
            exif_spec: ExifSpec {
                gps: Option::Some((51507400i64, -127800i64)),
                datetime: Option::None,
                timezone: Option::None,
                camera_make: Option::Some("Canon".to_owned()),
                camera_model: Option::None,
                description: Option::None,
            },
        },
    );
    images.push(
        TestImage {
            filename: "f7_b.jpg".to_owned(),
            image_spec: ImageSpec { width: Option::Some(1000u32), height: Option::Some(750u32), color: [180, 180, 180] },
            exif_spec: ExifSpec {
                gps: Option::Some((51507400i64, -127800i64)),
                datetime: Option::None,
                timezone: Option::None,
                camera_make: Option::Some("Canon".to_owned()),
                camera_model: Option::None,
                description: Option::None,
            },
        },
    );
    ScenarioFixture {
        scenario: TestScenario::F7NoConflicts,
        images,
        expected_winner_index: 0,
        description: "No conflicts - metadata matches".to_owned(),
    }
}

/// Single asset group - trivial case.
fn x1_single_asset_group() -> (r: ScenarioFixture)
    ensures
        r.wf(),
        r.scenario == TestScenario::X1SingleAssetGroup,
        r.images@.len() == 1,
        r.expected_winner_index == 0,
{
    let mut images: Vec<TestImage> = Vec::new();
    images.push(
        TestImage {
            filename: "x1_single.jpg".to_owned(),
            image_spec: ImageSpec { width: Option::Some(1920u32), height: Option::Some(1080u32), color: [100, 100, 100] },
            exif_spec: ExifSpec {
                gps: Option::None,
                datetime: Option::None,
                timezone: Option::None,
                camera_make: Option::None,
                camera_model: Option::None,
                description: Option::None,
            },
        },
    );
    ScenarioFixture {
        scenario: TestScenario::X1SingleAssetGroup,
        images,
        expected_winner_index: 0,
        description: "Single asset group - trivial case".to_owned(),
    }
}

/// Large file handling (48MP image).
fn x3_large_file() -> (r: ScenarioFixture)
    ensures
        r.wf(),
        r.scenario == TestScenario::X3LargeFile,
        r.images@.len() == 2,
        r.expected_winner_index == 0,
{
    let mut images: Vec<TestImage> = Vec::new();
    images.push(
        TestImage {
            filename: "x3_large.jpg".to_owned(),
            image_spec: ImageSpec { width: Option::Some(8000u32), height: Option::Some(6000u32), color: [200, 200, 200] },
            exif_spec: ExifSpec {
                gps: Option::None,
                datetime: Option::None,
                timezone: Option::None,
                camera_make: Option::None,
                camera_model: Option::None,
                description: Option::None,
            },
        },
    );
    images.push(
        TestImage {
            filename: "x3_small.jpg".to_owned(),
            image_spec: ImageSpec { width: Option::Some(2000u32), height: Option::Some(1500u32), color: [200, 200, 200] },
            exif_spec: ExifSpec {
                gps: Option::None,
                datetime: Option::None,
                timezone: Option::None,
                camera_make: Option::None,
                camera_model: Option::None,
                description: Option::None,
            },
        },
    );
    ScenarioFixture {
        scenario: TestScenario::X3LargeFile,
        images,
        expected_winner_index: 0,
        description: "Large file handling (48MP image)".to_owned(),
    }
}

/// Filenames with spaces, parens, hyphens.
fn x4_special_chars_filename() -> (r: ScenarioFixture)
    ensures
        r.wf(),
        r.scenario == TestScenario::X4SpecialCharsFilename,
        r.images@.len() == 2,
        r.expected_winner_index == 0,
{
    let mut images: Vec<TestImage> = Vec::new();
    images.push(
        TestImage {
            filename: "x4_photo (1).jpg".to_owned(),
            image_spec: ImageSpec { width: Option::Some(2000u32), height: Option::Some(1500u32), color: [255, 200, 100] },
            exif_spec: ExifSpec {
                gps: Option::None,
                datetime: Option::None,
                timezone: Option::None,
                camera_make: Option::None,
                camera_model: Option::None,
                description: Option::None,
            },
        },
    );
    images.push(
        TestImage {
            filename: "x4_photo-copy_2024.jpg".to_owned(),
            image_spec: ImageSpec { width: Option::Some(1000u32), height: Option::Some(750u32), color: [255, 200, 100] },
            exif_spec: ExifSpec {
                gps: Option::None,
                datetime: Option::None,
                timezone: Option::None,
                camera_make: Option::None,
                camera_model: Option::None,
                description: Option::None,
            },
        },
    );
    ScenarioFixture {
        scenario: TestScenario::X4SpecialCharsFilename,
        images,
        expected_winner_index: 0,
        description: "Filenames with spaces, parens, hyphens".to_owned(),
    }
}

/// Video duplicates - HD vs SD.
fn x5_video() -> (r: ScenarioFixture)
    ensures
        r.wf(),
        r.scenario == TestScenario::X5Video,
        r.images@.len() == 2,
        r.expected_winner_index == 0,
{
    let mut images: Vec<TestImage> = Vec::new();
    images.push(
        TestImage {
            filename: "x5_video_hd.mp4".to_owned(),
            image_spec: ImageSpec { width: Option::Some(1920u32), height: Option::Some(1080u32), color: [0, 0, 255] },
            exif_spec: ExifSpec {
                gps: Option::None,
                datetime: Option::None,
                timezone: Option::None,
                camera_make: Option::None,
                camera_model: Option::None,
                description: Option::None,
            },
        },
    );
    images.push(
        TestImage {
            filename: "x5_video_sd.mp4".to_owned(),
            image_spec: ImageSpec { width: Option::Some(640u32), height: Option::Some(480u32), color: [0, 0, 255] },
            exif_spec: ExifSpec {
                gps: Option::None,
                datetime: Option::None,
                timezone: Option::None,
                camera_make: Option::None,
                camera_model: Option::None,
                description: Option::None,
            },
        },
    );
    ScenarioFixture {
        scenario: TestScenario::X5Video,
        images,
        expected_winner_index: 0,
        description: "Video duplicates - HD vs SD".to_owned(),
    }
}

/// HEIC vs converted JPEG.
fn x6_heic() -> (r: ScenarioFixture)
    ensures
        r.wf(),
        r.scenario == TestScenario::X6Heic,
        r.images@.len() == 2,
        r.expected_winner_index == 0,
{
    let mut images: Vec<TestImage> = Vec::new();
    images.push(
        TestImage {
            filename: "x6_photo.heic".to_owned(),
            image_spec: ImageSpec { width: Option::Some(4032u32), height: Option::Some(3024u32), color: [100, 200, 255] },
            exif_spec: ExifSpec {
                gps: Option::None,
                datetime: Option::None,
                timezone: Option::None,
                camera_make: Option::Some("Apple".to_owned()),
                camera_model: Option::Some("iPhone 15 Pro".to_owned()),
                description: Option::None,
            },
        },
    );
    images.push(
        TestImage {
            filename: "x6_photo_converted.jpg".to_owned(),
            image_spec: ImageSpec { width: Option::Some(2016u32), height: Option::Some(1512u32), color: [100, 200, 255] },
            exif_spec: ExifSpec {
                gps: Option::None,
                datetime: Option::None,
                timezone: Option::None,
                camera_make: Option::None,
                camera_model: Option::None,
                description: Option::None,
            },
        },
    );
    ScenarioFixture {
        scenario: TestScenario::X6Heic,
        images,
        expected_winner_index: 0,
        description: "HEIC vs converted JPEG".to_owned(),
    }
}

/// PNG vs JPEG - PNG larger.
fn x7_png() -> (r: ScenarioFixture)
    ensures
        r.wf(),
        r.scenario == TestScenario::X7Png,
        r.images@.len() == 2,
        r.expected_winner_index == 0,
{
    let mut images: Vec<TestImage> = Vec::new();
    images.push(
        TestImage {
            filename: "x7_image.png".to_owned(),
            image_spec: ImageSpec { width: Option::Some(2048u32), height: Option::Some(1536u32), color: [200, 255, 200] },
            exif_spec: ExifSpec {
                gps: Option::None,
                datetime: Option::None,
                timezone: Option::None,
                camera_make: Option::None,
                camera_model: Option::None,
                description: Option::None,
            },
        },
    );
    images.push(
        TestImage {
            filename: "x7_image.jpg".to_owned(),
            image_spec: ImageSpec { width: Option::Some(1024u32), height: Option::Some(768u32), color: [200, 255, 200] },
            exif_spec: ExifSpec {
                gps: Option::None,
                datetime: Option::None,
                timezone: Option::None,
                camera_make: Option::None,
                camera_model: Option::None,
                description: Option::None,
            },
        },
    );
    ScenarioFixture {
        scenario: TestScenario::X7Png,
        images,
        expected_winner_index: 0,
        description: "PNG vs JPEG - PNG larger".to_owned(),
    }
}

/// RAW vs JPEG - same dimensions.
fn x8_raw() -> (r: ScenarioFixture)
    ensures
        r.wf(),
        r.scenario == TestScenario::X8Raw,
        r.images@.len() == 2,
        r.expected_winner_index == 0,
{
    let mut images: Vec<TestImage> = Vec::new();
    images.push(
        TestImage {
            filename: "x8_photo.cr3".to_owned(),
            image_spec: ImageSpec { width: Option::Some(6720u32), height: Option::Some(4480u32), color: [150, 100, 50] },
            exif_spec: ExifSpec {
                gps: Option::None,
                datetime: Option::None,
                timezone: Option::None,
                camera_make: Option::Some("Canon".to_owned()),
                camera_model: Option::Some("EOS R5".to_owned()),
                description: Option::None,
            },
        },
    );
    images.push(
        TestImage {
            filename: "x8_photo.jpg".to_owned(),
            image_spec: ImageSpec { width: Option::Some(6720u32), height: Option::Some(4480u32), color: [150, 100, 50] },
            exif_spec: ExifSpec {
                gps: Option::None,
                datetime: Option::None,
                timezone: Option::None,
                camera_make: Option::None,
                camera_model: Option::None,
                description: Option::None,
            },
        },
    );
    ScenarioFixture {
        scenario: TestScenario::X8Raw,
        images,
        expected_winner_index: 0,
        description: "RAW vs JPEG - same dimensions".to_owned(),
    }
}

/// Unicode in description - Japanese, emoji.
fn x9_unicode_description() -> (r: ScenarioFixture)
    ensures
        r.wf(),
        r.scenario == TestScenario::X9UnicodeDescription,
        r.images@.len() == 2,
        r.expected_winner_index == 0,
{
    let mut images: Vec<TestImage> = Vec::new();
    images.push(
        TestImage {
            filename: "x9_unicode.jpg".to_owned(),
            image_spec: ImageSpec { width: Option::Some(2000u32), height: Option::Some(1500u32), color: [255, 255, 200] },
            exif_spec: ExifSpec {
                gps: Option::None,
                datetime: Option::None,
                timezone: Option::None,
                camera_make: Option::None,
                camera_model: Option::None,
                description: Option::Some("日本の桜 🌸 Cherry blossoms in 東京".to_owned()),
            },
        },
    );
    images.push(
        TestImage {
            filename: "x9_plain.jpg".to_owned(),
            image_spec: ImageSpec { width: Option::Some(1000u32), height: Option::Some(750u32), color: [255, 255, 200] },
            exif_spec: ExifSpec {
                gps: Option::None,
                datetime: Option::None,
                timezone: Option::None,
                camera_make: Option::None,
                camera_model: Option::None,
                description: Option::None,
            },
        },
    );
    ScenarioFixture {
        scenario: TestScenario::X9UnicodeDescription,
        images,
        expected_winner_index: 0,
        description: "Unicode in description - Japanese, emoji".to_owned(),
    }
}

/// Very old date (1985) - film scan scenario.
fn x10_very_old_date() -> (r: ScenarioFixture)
    ensures
        r.wf(),
        r.scenario == TestScenario::X10VeryOldDate,
        r.images@.len() == 2,
        r.expected_winner_index == 0,
{
    let mut images: Vec<TestImage> = Vec::new();
    images.push(
        TestImage {
            filename: "x10_old.jpg".to_owned(),
            image_spec: ImageSpec { width: Option::Some(1600u32), height: Option::Some(1200u32), color: [180, 150, 100] },
            exif_spec: ExifSpec {
                gps: Option::None,
                datetime: Option::Some("1985:07:20 12:00:00".to_owned()),
                timezone: Option::None,
                camera_make: Option::None,
                camera_model: Option::None,
                description: Option::None,
            },
        },
    );
    images.push(
        TestImage {
            filename: "x10_scan.jpg".to_owned(),
            image_spec: ImageSpec { width: Option::Some(800u32), height: Option::Some(600u32), color: [180, 150, 100] },
            exif_spec: ExifSpec {
                gps: Option::None,
                datetime: Option::None,
                timezone: Option::None,
                camera_make: Option::None,
                camera_model: Option::None,
                description: Option::None,
            },
        },
    );
    ScenarioFixture {
        scenario: TestScenario::X10VeryOldDate,
        images,
        expected_winner_index: 0,
        description: "Very old date (1985) - film scan scenario".to_owned(),
    }
}

/// Future date (2030) - camera clock error scenario.
fn x11_future_date() -> (r: ScenarioFixture)
    ensures
        r.wf(),
        r.scenario == TestScenario::X11FutureDate,
        r.images@.len() == 2,
        r.expected_winner_index == 0,
{
    let mut images: Vec<TestImage> = Vec::new();
    images.push(
        TestImage {
            filename: "x11_future.jpg".to_owned(),
            image_spec: ImageSpec { width: Option::Some(2000u32), height: Option::Some(1500u32), color: [100, 255, 255] },
            exif_spec: ExifSpec {
                gps: Option::None,
                datetime: Option::Some("2030:01:01 00:00:00".to_owned()),
                timezone: Option::None,
                camera_make: Option::None,
                camera_model: Option::None,
                description: Option::None,
            },
        },
    );
    images.push(
        TestImage {
            filename: "x11_normal.jpg".to_owned(),
            image_spec: ImageSpec { width: Option::Some(1000u32), height: Option::Some(750u32), color: [100, 255, 255] },
            exif_spec: ExifSpec {
                gps: Option::None,
                datetime: Option::Some("2024:06:15 14:00:00".to_owned()),
                timezone: Option::None,
                camera_make: Option::None,
                camera_model: Option::None,
                description: Option::None,
            },
        },
    );
    ScenarioFixture {
        scenario: TestScenario::X11FutureDate,
        images,
        expected_winner_index: 0,
        description: "Future date (2030) - camera clock error scenario".to_owned(),
    }
}

/// A large group of twelve duplicates with rising dimensions; the largest
/// should win.
fn x2_large_group() -> (r: ScenarioFixture)
    ensures
        r.wf(),
        r.scenario == TestScenario::X2LargeGroup,
        r.images@.len() == 12,
        r.expected_winner_index == 11,
{
    let mut images: Vec<TestImage> = Vec::new();
    let mut i: u32 = 0;
    while i < 12
        invariant
            i <= 12,
            images@.len() == i,
        decreases 12 - i,
    {
        let number = u64_to_string(i as u64);
        let padded = if i < 10 {
            concat_str("0", number.as_str())
        } else {
            number
        };
        let head = concat_str("x2_dup_", padded.as_str());
        let filename = concat_str(head.as_str(), ".jpg");
        images.push(
            TestImage {
                filename,
                image_spec: ImageSpec {
                    width: Option::Some(1000 + i * 100),
                    height: Option::Some(750 + i * 75),
                    color: [(50 + i * 10) as u8, 50, 50],
                },
                exif_spec: ExifSpec {
                    gps: Option::None,
                    datetime: Option::None,
                    timezone: Option::None,
                    camera_make: Option::None,
                    camera_model: Option::None,
                    description: Option::None,
                },
            },
        );
        i = i + 1;
    }
    ScenarioFixture {
        scenario: TestScenario::X2LargeGroup,
        images,
        expected_winner_index: 11,
        description: "12 duplicates - largest should win".to_owned(),
    }
}

/// Returns fixture definitions for all test scenarios, winner selection
/// first, then consolidation, conflicts, and edge cases.
pub fn all_fixtures() -> (r: Vec<ScenarioFixture>)
    ensures
        r@.len() == 34,
        forall|i: int| 0 <= i < r@.len() ==> (#[trigger] r@[i]).wf(),
{
    let mut fixtures: Vec<ScenarioFixture> = Vec::new();
    fixtures.push(w1_clear_dimension_winner());
    fixtures.push(w2_same_dimensions_different_size());
    fixtures.push(w3_same_dimensions_same_size());
    fixtures.push(w4_some_missing_dimensions());
    fixtures.push(w5_only_one_has_dimensions());
    fixtures.push(w6_all_missing_dimensions());
    fixtures.push(w7_three_plus_duplicates());
    fixtures.push(w8_same_pixels_different_aspect());
    fixtures.push(c1_winner_lacks_gps_loser_has());
    fixtures.push(c2_winner_lacks_datetime_loser_has());
    fixtures.push(c3_winner_lacks_description_loser_has());
    fixtures.push(c4_winner_lacks_all_loser_has_all());
    fixtures.push(c5_both_have_gps());
    fixtures.push(c6_multiple_losers_contribute());
    fixtures.push(c7_no_loser_has_needed());
    fixtures.push(c8_winner_has_everything());
    fixtures.push(f1_gps_conflict());
    fixtures.push(f2_gps_within_threshold());
    fixtures.push(f3_timezone_conflict());
    fixtures.push(f4_camera_conflict());
    fixtures.push(f5_capture_time_conflict());
    fixtures.push(f6_multiple_conflicts());
    fixtures.push(f7_no_conflicts());
    fixtures.push(x1_single_asset_group());
    fixtures.push(x2_large_group());
    fixtures.push(x3_large_file());
    fixtures.push(x4_special_chars_filename());
    fixtures.push(x5_video());
    fixtures.push(x6_heic());
    fixtures.push(x7_png());
    fixtures.push(x8_raw());
    fixtures.push(x9_unicode_description());
    fixtures.push(x10_very_old_date());
    fixtures.push(x11_future_date());
    fixtures
}

} // verus!
