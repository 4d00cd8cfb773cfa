//! Test scenario types for duplicate group categorization.

use vstd::prelude::*;

verus! {

/// Test scenarios for categorizing duplicate groups.
///
/// Each scenario represents a specific case that needs coverage in the
/// integration test suite: winner selection, metadata consolidation,
/// conflict detection, and edge cases.
#[derive(Debug, Clone, Copy, PartialEq, Eq, Hash, Structural)]
pub enum TestScenario {
    /// Clear dimension winner (different width x height)
    W1ClearDimensionWinner,
    /// Same dimensions, different file size
    W2SameDimensionsDifferentSize,
    /// Same dimensions, same file size
    W3SameDimensionsSameSize,
    /// Some assets missing dimensions
    W4SomeMissingDimensions,
    /// Only one asset has dimensions
    W5OnlyOneHasDimensions,
    /// All assets missing dimensions
    W6AllMissingDimensions,
    /// 3+ assets in group
    W7ThreePlusDuplicates,
    /// Same pixel count, different aspect ratio
    W8SamePixelsDifferentAspect,
    /// Winner lacks GPS, loser has GPS
    C1WinnerLacksGpsLoserHas,
    /// Winner lacks datetime, loser has datetime
    C2WinnerLacksDatetimeLoserHas,
    /// Winner lacks description, loser has description
    C3WinnerLacksDescriptionLoserHas,
    /// Winner lacks all three, loser has all
    C4WinnerLacksAllLoserHasAll,
    /// Both have GPS (no consolidation needed)
    C5BothHaveGps,
    /// Multiple losers contribute different fields
    C6MultipleLosersContribute,
    /// No loser has what winner lacks
    C7NoLoserHasNeeded,
    /// Winner already has everything
    C8WinnerHasEverything,
    /// GPS conflict (different locations)
    F1GpsConflict,
    /// GPS within threshold (should NOT conflict)
    F2GpsWithinThreshold,
    /// Timezone conflict
    F3TimezoneConflict,
    /// Camera info conflict
    F4CameraConflict,
    /// Capture time conflict
    F5CaptureTimeConflict,
    /// Multiple conflicts
    F6MultipleConflicts,
    /// No conflicts
    F7NoConflicts,
    /// Single asset "group"
    X1SingleAssetGroup,
    /// Large group (10+ duplicates)
    X2LargeGroup,
    /// Large file (>50MB)
    X3LargeFile,
    /// Special characters in filename
    X4SpecialCharsFilename,
    /// Video duplicates
    X5Video,
    /// HEIC files
    X6Heic,
    /// PNG files (limited EXIF)
    X7Png,
    /// RAW files
    X8Raw,
    /// Unicode in description
    X9UnicodeDescription,
    /// Very old date (<1990)
    X10VeryOldDate,
    /// Future date
    X11FutureDate,
}

/// The display names of the tracked scenarios, in the order `all` returns
/// them.
pub open spec fn spec_scenario_names() -> Seq<Seq<char>> {
    seq![
        "W1: Clear dimension winner"@,
            "W2: Same dimensions, different size"@,
            "W3: Same dimensions, same size"@,
            "W4: Some missing dimensions"@,
            "W5: Only one has dimensions"@,
            "W6: All missing dimensions"@,
            "W7: 3+ duplicates"@,
            "W8: Same pixels, different aspect"@,
            "C1: Winner lacks GPS, loser has"@,
            "C2: Winner lacks datetime, loser has"@,
            "C3: Winner lacks description, loser has"@,
            "C4: Winner lacks all, loser has all"@,
            "C5: Both have GPS"@,
            "C6: Multiple losers contribute"@,
            "C7: No loser has needed"@,
            "C8: Winner has everything"@,
            "F1: GPS conflict"@,
            "F2: GPS within threshold"@,
            "F3: Timezone conflict"@,
            "F4: Camera conflict"@,
            "F5: Capture time conflict"@,
            "F6: Multiple conflicts"@,
            "F7: No conflicts"@,
            "X1: Single asset group"@,
            "X2: Large group (10+)"@,
            "X3: Large file (>50MB)"@,
            "X4: Special chars in filename"@,
            "X5: Video"@,
            "X7: PNG"@,
            "X9: Unicode description"@,
            "X10: Very old date (<1990)"@,
            "X11: Future date"@,
    ]
}

impl TestScenario {
    /// Returns the test scenarios that the fixture suite tracks, winner
    /// selection first, then consolidation, conflicts, and edge cases. The
    /// HEIC and RAW scenarios are detected and have fixtures, but are not
    /// part of this tracked list.
    pub fn all() -> (r: Vec<TestScenario>)
        ensures
            r@.len() == 32,
            r@.len() == spec_scenario_names().len(),
            r@[0] == TestScenario::W1ClearDimensionWinner,
            r@[1] == TestScenario::W2SameDimensionsDifferentSize,
            r@[2] == TestScenario::W3SameDimensionsSameSize,
            r@[3] == TestScenario::W4SomeMissingDimensions,
            r@[4] == TestScenario::W5OnlyOneHasDimensions,
            r@[5] == TestScenario::W6AllMissingDimensions,
            r@[6] == TestScenario::W7ThreePlusDuplicates,
            r@[7] == TestScenario::W8SamePixelsDifferentAspect,
            r@[8] == TestScenario::C1WinnerLacksGpsLoserHas,
            r@[9] == TestScenario::C2WinnerLacksDatetimeLoserHas,
            r@[10] == TestScenario::C3WinnerLacksDescriptionLoserHas,
            r@[11] == TestScenario::C4WinnerLacksAllLoserHasAll,
            r@[12] == TestScenario::C5BothHaveGps,
            r@[13] == TestScenario::C6MultipleLosersContribute,
            r@[14] == TestScenario::C7NoLoserHasNeeded,
            r@[15] == TestScenario::C8WinnerHasEverything,
            r@[16] == TestScenario::F1GpsConflict,
            r@[17] == TestScenario::F2GpsWithinThreshold,
            r@[18] == TestScenario::F3TimezoneConflict,
            r@[19] == TestScenario::F4CameraConflict,
            r@[20] == TestScenario::F5CaptureTimeConflict,
            r@[21] == TestScenario::F6MultipleConflicts,
            r@[22] == TestScenario::F7NoConflicts,
            r@[23] == TestScenario::X1SingleAssetGroup,
            r@[24] == TestScenario::X2LargeGroup,
            r@[25] == TestScenario::X3LargeFile,
            r@[26] == TestScenario::X4SpecialCharsFilename,
            r@[27] == TestScenario::X5Video,
            r@[28] == TestScenario::X7Png,
            r@[29] == TestScenario::X9UnicodeDescription,
            r@[30] == TestScenario::X10VeryOldDate,
            r@[31] == TestScenario::X11FutureDate,
            forall|i: int, j: int| 0 <= i < j < r@.len() ==> r@[i] != r@[j],
            forall|j: int|
                0 <= j < r@.len() ==> (#[trigger] r@[j]).spec_name()@ == spec_scenario_names()[j],
    {
        let mut scenarios: Vec<TestScenario> = Vec::new();
        scenarios.push(TestScenario::W1ClearDimensionWinner);
        scenarios.push(TestScenario::W2SameDimensionsDifferentSize);
        scenarios.push(TestScenario::W3SameDimensionsSameSize);
        scenarios.push(TestScenario::W4SomeMissingDimensions);
        scenarios.push(TestScenario::W5OnlyOneHasDimensions);
        scenarios.push(TestScenario::W6AllMissingDimensions);
        scenarios.push(TestScenario::W7ThreePlusDuplicates);
        scenarios.push(TestScenario::W8SamePixelsDifferentAspect);
        scenarios.push(TestScenario::C1WinnerLacksGpsLoserHas);
        scenarios.push(TestScenario::C2WinnerLacksDatetimeLoserHas);
        scenarios.push(TestScenario::C3WinnerLacksDescriptionLoserHas);
        scenarios.push(TestScenario::C4WinnerLacksAllLoserHasAll);
        scenarios.push(TestScenario::C5BothHaveGps);
        scenarios.push(TestScenario::C6MultipleLosersContribute);
        scenarios.push(TestScenario::C7NoLoserHasNeeded);
        scenarios.push(TestScenario::C8WinnerHasEverything);
        scenarios.push(TestScenario::F1GpsConflict);
        scenarios.push(TestScenario::F2GpsWithinThreshold);
        scenarios.push(TestScenario::F3TimezoneConflict);
        scenarios.push(TestScenario::F4CameraConflict);
        scenarios.push(TestScenario::F5CaptureTimeConflict);
        scenarios.push(TestScenario::F6MultipleConflicts);
        scenarios.push(TestScenario::F7NoConflicts);
        scenarios.push(TestScenario::X1SingleAssetGroup);
        scenarios.push(TestScenario::X2LargeGroup);
        scenarios.push(TestScenario::X3LargeFile);
        scenarios.push(TestScenario::X4SpecialCharsFilename);
        scenarios.push(TestScenario::X5Video);
        scenarios.push(TestScenario::X7Png);
        scenarios.push(TestScenario::X9UnicodeDescription);
        scenarios.push(TestScenario::X10VeryOldDate);
        scenarios.push(TestScenario::X11FutureDate);
        proof {
            assert(scenarios@[0].spec_name()@ == spec_scenario_names()[0]);
            assert(scenarios@[1].spec_name()@ == spec_scenario_names()[1]);
            assert(scenarios@[2].spec_name()@ == spec_scenario_names()[2]);
            assert(scenarios@[3].spec_name()@ == spec_scenario_names()[3]);
            assert(scenarios@[4].spec_name()@ == spec_scenario_names()[4]);
            assert(scenarios@[5].spec_name()@ == spec_scenario_names()[5]);
            assert(scenarios@[6].spec_name()@ == spec_scenario_names()[6]);
            assert(scenarios@[7].spec_name()@ == spec_scenario_names()[7]);
            assert(scenarios@[8].spec_name()@ == spec_scenario_names()[8]);
            assert(scenarios@[9].spec_name()@ == spec_scenario_names()[9]);
            assert(scenarios@[10].spec_name()@ == spec_scenario_names()[10]);
            assert(scenarios@[11].spec_name()@ == spec_scenario_names()[11]);
            assert(scenarios@[12].spec_name()@ == spec_scenario_names()[12]);
            assert(scenarios@[13].spec_name()@ == spec_scenario_names()[13]);
            assert(scenarios@[14].spec_name()@ == spec_scenario_names()[14]);
            assert(scenarios@[15].spec_name()@ == spec_scenario_names()[15]);
            assert(scenarios@[16].spec_name()@ == spec_scenario_names()[16]);
            assert(scenarios@[17].spec_name()@ == spec_scenario_names()[17]);
            assert(scenarios@[18].spec_name()@ == spec_scenario_names()[18]);
            assert(scenarios@[19].spec_name()@ == spec_scenario_names()[19]);
            assert(scenarios@[20].spec_name()@ == spec_scenario_names()[20]);
            assert(scenarios@[21].spec_name()@ == spec_scenario_names()[21]);
            assert(scenarios@[22].spec_name()@ == spec_scenario_names()[22]);
            assert(scenarios@[23].spec_name()@ == spec_scenario_names()[23]);
            assert(scenarios@[24].spec_name()@ == spec_scenario_names()[24]);
            assert(scenarios@[25].spec_name()@ == spec_scenario_names()[25]);
            assert(scenarios@[26].spec_name()@ == spec_scenario_names()[26]);
            assert(scenarios@[27].spec_name()@ == spec_scenario_names()[27]);
            assert(scenarios@[28].spec_name()@ == spec_scenario_names()[28]);
            assert(scenarios@[29].spec_name()@ == spec_scenario_names()[29]);
            assert(scenarios@[30].spec_name()@ == spec_scenario_names()[30]);
            assert(scenarios@[31].spec_name()@ == spec_scenario_names()[31]);
        }
        scenarios
    }

    /// The short code of a scenario (e.g., "w1", "c2", "f3", "x5").
    pub open spec fn spec_code(&self) -> &'static str {
        match self {
            TestScenario::W1ClearDimensionWinner => "w1",
            TestScenario::W2SameDimensionsDifferentSize => "w2",
            TestScenario::W3SameDimensionsSameSize => "w3",
            TestScenario::W4SomeMissingDimensions => "w4",
            TestScenario::W5OnlyOneHasDimensions => "w5",
            TestScenario::W6AllMissingDimensions => "w6",
            TestScenario::W7ThreePlusDuplicates => "w7",
            TestScenario::W8SamePixelsDifferentAspect => "w8",
            TestScenario::C1WinnerLacksGpsLoserHas => "c1",
            TestScenario::C2WinnerLacksDatetimeLoserHas => "c2",
            TestScenario::C3WinnerLacksDescriptionLoserHas => "c3",
            TestScenario::C4WinnerLacksAllLoserHasAll => "c4",
            TestScenario::C5BothHaveGps => "c5",
            TestScenario::C6MultipleLosersContribute => "c6",
            TestScenario::C7NoLoserHasNeeded => "c7",
            TestScenario::C8WinnerHasEverything => "c8",
            TestScenario::F1GpsConflict => "f1",
            TestScenario::F2GpsWithinThreshold => "f2",
            TestScenario::F3TimezoneConflict => "f3",
            TestScenario::F4CameraConflict => "f4",
            TestScenario::F5CaptureTimeConflict => "f5",
            TestScenario::F6MultipleConflicts => "f6",
            TestScenario::F7NoConflicts => "f7",
            TestScenario::X1SingleAssetGroup => "x1",
            TestScenario::X2LargeGroup => "x2",
            TestScenario::X3LargeFile => "x3",
            TestScenario::X4SpecialCharsFilename => "x4",
            TestScenario::X5Video => "x5",
            TestScenario::X6Heic => "x6",
            TestScenario::X7Png => "x7",
            TestScenario::X8Raw => "x8",
            TestScenario::X9UnicodeDescription => "x9",
            TestScenario::X10VeryOldDate => "x10",
            TestScenario::X11FutureDate => "x11",
        }
    }

    /// Returns the short code (e.g., "w1", "c2", "f3", "x5").
    #[verifier::when_used_as_spec(spec_code)]
    pub fn code(&self) -> (r: &'static str)
        ensures
            r == self.spec_code(),
    {
        match self {
            TestScenario::W1ClearDimensionWinner => "w1",
            TestScenario::W2SameDimensionsDifferentSize => "w2",
            TestScenario::W3SameDimensionsSameSize => "w3",
            TestScenario::W4SomeMissingDimensions => "w4",
            TestScenario::W5OnlyOneHasDimensions => "w5",
            TestScenario::W6AllMissingDimensions => "w6",
            TestScenario::W7ThreePlusDuplicates => "w7",
            TestScenario::W8SamePixelsDifferentAspect => "w8",
            TestScenario::C1WinnerLacksGpsLoserHas => "c1",
            TestScenario::C2WinnerLacksDatetimeLoserHas => "c2",
            TestScenario::C3WinnerLacksDescriptionLoserHas => "c3",
            TestScenario::C4WinnerLacksAllLoserHasAll => "c4",
            TestScenario::C5BothHaveGps => "c5",
            TestScenario::C6MultipleLosersContribute => "c6",
            TestScenario::C7NoLoserHasNeeded => "c7",
            TestScenario::C8WinnerHasEverything => "c8",
            TestScenario::F1GpsConflict => "f1",
            TestScenario::F2GpsWithinThreshold => "f2",
            TestScenario::F3TimezoneConflict => "f3",
            TestScenario::F4CameraConflict => "f4",
            TestScenario::F5CaptureTimeConflict => "f5",
            TestScenario::F6MultipleConflicts => "f6",
            TestScenario::F7NoConflicts => "f7",
            TestScenario::X1SingleAssetGroup => "x1",
            TestScenario::X2LargeGroup => "x2",
            TestScenario::X3LargeFile => "x3",
            TestScenario::X4SpecialCharsFilename => "x4",
            TestScenario::X5Video => "x5",
            TestScenario::X6Heic => "x6",
            TestScenario::X7Png => "x7",
            TestScenario::X8Raw => "x8",
            TestScenario::X9UnicodeDescription => "x9",
            TestScenario::X10VeryOldDate => "x10",
            TestScenario::X11FutureDate => "x11",
        }
    }

    /// Whether a scenario belongs to the winner-selection family.
    pub open spec fn is_winner_scenario(&self) -> bool {
        match self {
            TestScenario::W1ClearDimensionWinner
            | TestScenario::W2SameDimensionsDifferentSize
            | TestScenario::W3SameDimensionsSameSize
            | TestScenario::W4SomeMissingDimensions
            | TestScenario::W5OnlyOneHasDimensions
            | TestScenario::W6AllMissingDimensions
            | TestScenario::W7ThreePlusDuplicates
            | TestScenario::W8SamePixelsDifferentAspect => true,
            _ => false,
        }
    }

    /// Whether a scenario belongs to the consolidation family.
    pub open spec fn is_consolidation_scenario(&self) -> bool {
        match self {
            TestScenario::C1WinnerLacksGpsLoserHas
            | TestScenario::C2WinnerLacksDatetimeLoserHas
            | TestScenario::C3WinnerLacksDescriptionLoserHas
            | TestScenario::C4WinnerLacksAllLoserHasAll
            | TestScenario::C5BothHaveGps
            | TestScenario::C6MultipleLosersContribute
            | TestScenario::C7NoLoserHasNeeded
            | TestScenario::C8WinnerHasEverything => true,
            _ => false,
        }
    }

    /// Whether a scenario belongs to the conflict family.
    pub open spec fn is_conflict_scenario(&self) -> bool {
        match self {
            TestScenario::F1GpsConflict
            | TestScenario::F2GpsWithinThreshold
            | TestScenario::F3TimezoneConflict
            | TestScenario::F4CameraConflict
            | TestScenario::F5CaptureTimeConflict
            | TestScenario::F6MultipleConflicts
            | TestScenario::F7NoConflicts => true,
            _ => false,
        }
    }

    /// Returns the category name (winner selection, consolidation,
    /// conflicts, or edge cases).
    pub fn category(&self) -> (r: &'static str)
        ensures
            self.is_winner_scenario() ==> r@ == "Winner Selection"@,
            self.is_consolidation_scenario() ==> r@ == "Consolidation"@,
            self.is_conflict_scenario() ==> r@ == "Conflicts"@,
            !self.is_winner_scenario() && !self.is_consolidation_scenario()
                && !self.is_conflict_scenario() ==> r@ == "Edge Cases"@,
    {
        match self {
            TestScenario::W1ClearDimensionWinner
            | TestScenario::W2SameDimensionsDifferentSize
            | TestScenario::W3SameDimensionsSameSize
            | TestScenario::W4SomeMissingDimensions
            | TestScenario::W5OnlyOneHasDimensions
            | TestScenario::W6AllMissingDimensions
            | TestScenario::W7ThreePlusDuplicates
            | TestScenario::W8SamePixelsDifferentAspect => "Winner Selection",
            TestScenario::C1WinnerLacksGpsLoserHas
            | TestScenario::C2WinnerLacksDatetimeLoserHas
            | TestScenario::C3WinnerLacksDescriptionLoserHas
            | TestScenario::C4WinnerLacksAllLoserHasAll
            | TestScenario::C5BothHaveGps
            | TestScenario::C6MultipleLosersContribute
            | TestScenario::C7NoLoserHasNeeded
            | TestScenario::C8WinnerHasEverything => "Consolidation",
            TestScenario::F1GpsConflict
            | TestScenario::F2GpsWithinThreshold
            | TestScenario::F3TimezoneConflict
            | TestScenario::F4CameraConflict
            | TestScenario::F5CaptureTimeConflict
            | TestScenario::F6MultipleConflicts
            | TestScenario::F7NoConflicts => "Conflicts",
            TestScenario::X1SingleAssetGroup
            | TestScenario::X2LargeGroup
            | TestScenario::X3LargeFile
            | TestScenario::X4SpecialCharsFilename
            | TestScenario::X5Video
            | TestScenario::X6Heic
            | TestScenario::X7Png
            | TestScenario::X8Raw
            | TestScenario::X9UnicodeDescription
            | TestScenario::X10VeryOldDate
            | TestScenario::X11FutureDate => "Edge Cases",
        }
    }

    /// The display name of a scenario: its code in upper case and a short
    /// description.
    pub open spec fn spec_name(&self) -> &'static str {
        match self {
            TestScenario::W1ClearDimensionWinner => "W1: Clear dimension winner",
            TestScenario::W2SameDimensionsDifferentSize => "W2: Same dimensions, different size",
            TestScenario::W3SameDimensionsSameSize => "W3: Same dimensions, same size",
            TestScenario::W4SomeMissingDimensions => "W4: Some missing dimensions",
            TestScenario::W5OnlyOneHasDimensions => "W5: Only one has dimensions",
            TestScenario::W6AllMissingDimensions => "W6: All missing dimensions",
            TestScenario::W7ThreePlusDuplicates => "W7: 3+ duplicates",
            TestScenario::W8SamePixelsDifferentAspect => "W8: Same pixels, different aspect",
            TestScenario::C1WinnerLacksGpsLoserHas => "C1: Winner lacks GPS, loser has",
            TestScenario::C2WinnerLacksDatetimeLoserHas => "C2: Winner lacks datetime, loser has",
            TestScenario::C3WinnerLacksDescriptionLoserHas => "C3: Winner lacks description, loser has",
            TestScenario::C4WinnerLacksAllLoserHasAll => "C4: Winner lacks all, loser has all",
            TestScenario::C5BothHaveGps => "C5: Both have GPS",
            TestScenario::C6MultipleLosersContribute => "C6: Multiple losers contribute",
            TestScenario::C7NoLoserHasNeeded => "C7: No loser has needed",
            TestScenario::C8WinnerHasEverything => "C8: Winner has everything",
            TestScenario::F1GpsConflict => "F1: GPS conflict",
            TestScenario::F2GpsWithinThreshold => "F2: GPS within threshold",
            TestScenario::F3TimezoneConflict => "F3: Timezone conflict",
            TestScenario::F4CameraConflict => "F4: Camera conflict",
            TestScenario::F5CaptureTimeConflict => "F5: Capture time conflict",
            TestScenario::F6MultipleConflicts => "F6: Multiple conflicts",
            TestScenario::F7NoConflicts => "F7: No conflicts",
            TestScenario::X1SingleAssetGroup => "X1: Single asset group",
            TestScenario::X2LargeGroup => "X2: Large group (10+)",
            TestScenario::X3LargeFile => "X3: Large file (>50MB)",
            TestScenario::X4SpecialCharsFilename => "X4: Special chars in filename",
            TestScenario::X5Video => "X5: Video",
            TestScenario::X6Heic => "X6: HEIC",
            TestScenario::X7Png => "X7: PNG",
            TestScenario::X8Raw => "X8: RAW",
            TestScenario::X9UnicodeDescription => "X9: Unicode description",
            TestScenario::X10VeryOldDate => "X10: Very old date (<1990)",
            TestScenario::X11FutureDate => "X11: Future date",
        }
    }

    /// The display name of the scenario.
    #[verifier::when_used_as_spec(spec_name)]
    pub fn name(&self) -> (r: &'static str)
        ensures
            r == self.spec_name(),
    {
        match self {
            TestScenario::W1ClearDimensionWinner => "W1: Clear dimension winner",
            TestScenario::W2SameDimensionsDifferentSize => "W2: Same dimensions, different size",
            TestScenario::W3SameDimensionsSameSize => "W3: Same dimensions, same size",
            TestScenario::W4SomeMissingDimensions => "W4: Some missing dimensions",
            TestScenario::W5OnlyOneHasDimensions => "W5: Only one has dimensions",
            TestScenario::W6AllMissingDimensions => "W6: All missing dimensions",
            TestScenario::W7ThreePlusDuplicates => "W7: 3+ duplicates",
            TestScenario::W8SamePixelsDifferentAspect => "W8: Same pixels, different aspect",
            TestScenario::C1WinnerLacksGpsLoserHas => "C1: Winner lacks GPS, loser has",
            TestScenario::C2WinnerLacksDatetimeLoserHas => "C2: Winner lacks datetime, loser has",
            TestScenario::C3WinnerLacksDescriptionLoserHas => "C3: Winner lacks description, loser has",
            TestScenario::C4WinnerLacksAllLoserHasAll => "C4: Winner lacks all, loser has all",
            TestScenario::C5BothHaveGps => "C5: Both have GPS",
            TestScenario::C6MultipleLosersContribute => "C6: Multiple losers contribute",
            TestScenario::C7NoLoserHasNeeded => "C7: No loser has needed",
            TestScenario::C8WinnerHasEverything => "C8: Winner has everything",
            TestScenario::F1GpsConflict => "F1: GPS conflict",
            TestScenario::F2GpsWithinThreshold => "F2: GPS within threshold",
            TestScenario::F3TimezoneConflict => "F3: Timezone conflict",
            TestScenario::F4CameraConflict => "F4: Camera conflict",
            TestScenario::F5CaptureTimeConflict => "F5: Capture time conflict",
            TestScenario::F6MultipleConflicts => "F6: Multiple conflicts",
            TestScenario::F7NoConflicts => "F7: No conflicts",
            TestScenario::X1SingleAssetGroup => "X1: Single asset group",
            TestScenario::X2LargeGroup => "X2: Large group (10+)",
            TestScenario::X3LargeFile => "X3: Large file (>50MB)",
            TestScenario::X4SpecialCharsFilename => "X4: Special chars in filename",
            TestScenario::X5Video => "X5: Video",
            TestScenario::X6Heic => "X6: HEIC",
            TestScenario::X7Png => "X7: PNG",
            TestScenario::X8Raw => "X8: RAW",
            TestScenario::X9UnicodeDescription => "X9: Unicode description",
            TestScenario::X10VeryOldDate => "X10: Very old date (<1990)",
            TestScenario::X11FutureDate => "X11: Future date",
        }
    }
}

/// A match between a test scenario and a duplicate group.
pub struct ScenarioMatch {
    /// The matched scenario
    pub scenario: TestScenario,
    /// Duplicate group ID
    pub duplicate_id: String,
    /// Description of why this matched
    pub details: String,
}

impl Clone for ScenarioMatch {
    /// A clone agrees with the original field for field.
    fn clone(&self) -> (r: Self)
        ensures
            r.scenario == self.scenario,
            r.duplicate_id@ == self.duplicate_id@,
            r.details@ == self.details@,
    {
        ScenarioMatch {
            scenario: self.scenario,
            duplicate_id: self.duplicate_id.clone(),
            details: self.details.clone(),
        }
    }
}

} // verus!
