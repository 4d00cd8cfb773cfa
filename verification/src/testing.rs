//! Test scenario detection and fixture specification for duplicate groups.
//!
//! Analyzes duplicate groups and categorises them by test scenario, and
//! defines the synthetic fixtures that cover every scenario.

pub mod detector;
pub mod fixtures;
pub mod generator;
pub mod report;
pub mod scenarios;

pub use detector::detect_scenarios;
pub use fixtures::{all_fixtures, ScenarioFixture};
pub use generator::{ExifSpec, ImageSpec, TestImage, TransformSpec};
pub use report::{format_report, ScenarioReport};
pub use scenarios::{ScenarioMatch, TestScenario};
