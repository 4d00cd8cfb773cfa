//! Scenario detection logic for duplicate groups.
//!
//! Categorises a duplicate group by the test scenarios it exercises: group
//! size, dimension-based winner selection, consolidation opportunities,
//! metadata conflicts, and edge cases. The current year is an argument, so
//! that the future-date check does not depend on a clock.

use vstd::prelude::*;

use crate::models::asset::{AssetResponse, AssetType};
use crate::models::duplicate::DuplicateGroup;
use crate::scoring::{
    conflict_count, detect_conflicts, gps_points, spec_camera_conflicts, spec_capture_conflicts,
    spec_gps_conflicts, spec_tz_conflicts,
};
use crate::text::{ends_with_str, lower_of, lowercase, spec_ends_with};

verus! {

/// Large file threshold in bytes (50MB).
pub const LARGE_FILE_THRESHOLD: u64 = 52428800;

use crate::testing::scenarios::{ScenarioMatch, TestScenario};

/// Whether a scenario occurs in `s` at or after position `lo`.
pub open spec fn has_scenario_from(s: Seq<ScenarioMatch>, lo: int, sc: TestScenario) -> bool {
    exists|k: int| lo <= k < s.len() && (#[trigger] s[k]).scenario == sc
}

/// Whether a scenario occurs anywhere in `s`.
pub open spec fn has_scenario(s: Seq<ScenarioMatch>, sc: TestScenario) -> bool {
    has_scenario_from(s, 0, sc)
}

/// Detect group size scenarios: a single-asset group, a group of three or
/// more, and a large group of ten or more.
pub fn detect_group_size_scenarios(
    group: &DuplicateGroup,
    matches: &mut Vec<ScenarioMatch>,
    dup_id: &str,
)
    ensures
        final(matches)@.len() >= old(matches)@.len(),
        final(matches)@.take(old(matches)@.len() as int) == old(matches)@,
        forall|k: int|
            old(matches)@.len() <= k < final(matches)@.len() ==> (#[trigger] final(matches)@[k]).duplicate_id@ == dup_id@,
        forall|k: int|
            old(matches)@.len() <= k < final(matches)@.len() ==> ((#[trigger] final(matches)@[k]).scenario == TestScenario::X1SingleAssetGroup || final(matches)@[k].scenario
                == TestScenario::W7ThreePlusDuplicates || final(matches)@[k].scenario
                == TestScenario::X2LargeGroup),
        has_scenario_from(final(matches)@, old(matches)@.len() as int,
            TestScenario::X1SingleAssetGroup,
        ) <==> group.assets@.len() == 1,
        has_scenario_from(final(matches)@, old(matches)@.len() as int,
            TestScenario::W7ThreePlusDuplicates,
        ) <==> group.assets@.len() >= 3,
        has_scenario_from(final(matches)@, old(matches)@.len() as int,
            TestScenario::X2LargeGroup,
        ) <==> group.assets@.len() >= 10,
{
    let ghost base = old(matches)@.len() as int;
    let count = group.assets.len();

    if count == 1 {
        matches.push(
            ScenarioMatch {
                scenario: TestScenario::X1SingleAssetGroup,
                duplicate_id: dup_id.to_owned(),
                details: "Only 1 asset in group".to_owned(),
            },
        );
    }
    proof {
        assert(forall|k: int|
            base <= k < matches@.len() ==> ((#[trigger] matches@[k]).scenario
                == TestScenario::X1SingleAssetGroup <==> (count == 1 && k == base)));
    }

    if count >= 3 {
        matches.push(
            ScenarioMatch {
                scenario: TestScenario::W7ThreePlusDuplicates,
                duplicate_id: dup_id.to_owned(),
                details: "3 or more assets in group".to_owned(),
            },
        );
    }
    proof {
        assert(forall|k: int|
            base <= k < matches@.len() ==> ((#[trigger] matches@[k]).scenario
                == TestScenario::W7ThreePlusDuplicates <==> (count >= 3 && k == matches@.len()
                - 1)));
    }

    if count >= 10 {
        matches.push(
            ScenarioMatch {
                scenario: TestScenario::X2LargeGroup,
                duplicate_id: dup_id.to_owned(),
                details: "10 or more assets in group".to_owned(),
            },
        );
    }

    proof {
        assert(final(matches)@.take(old(matches)@.len() as int) =~= old(matches)@);
        if count == 1 {
            assert(matches@[base].scenario == TestScenario::X1SingleAssetGroup);
        }
        if count >= 3 {
            assert(has_scenario_from(matches@, base, TestScenario::W7ThreePlusDuplicates));
        }
        if count >= 10 {
            assert(matches@.last().scenario == TestScenario::X2LargeGroup);
            assert(has_scenario_from(matches@, base, TestScenario::X2LargeGroup));
        }
    }
}

/// Detect conflict scenarios: one per conflict kind found, a scenario for
/// several kinds at once, one for no conflicts at all, and one for GPS
/// points that exist but stay within the threshold.
pub fn detect_conflict_scenarios(
    group: &DuplicateGroup,
    matches: &mut Vec<ScenarioMatch>,
    dup_id: &str,
)
    ensures
        final(matches)@.len() >= old(matches)@.len(),
        final(matches)@.take(old(matches)@.len() as int) == old(matches)@,
        forall|k: int|
            old(matches)@.len() <= k < final(matches)@.len() ==> (#[trigger] final(matches)@[k]).duplicate_id@ == dup_id@,
        forall|k: int|
            old(matches)@.len() <= k < final(matches)@.len() ==> ((#[trigger] final(matches)@[k]).scenario).is_conflict_scenario(),
        has_scenario_from(final(matches)@, old(matches)@.len() as int, TestScenario::F7NoConflicts)
            <==> conflict_count(group.assets@) == 0,
        has_scenario_from(final(matches)@, old(matches)@.len() as int, TestScenario::F1GpsConflict)
            <==> spec_gps_conflicts(group.assets@),
        has_scenario_from(final(matches)@, old(matches)@.len() as int,
            TestScenario::F3TimezoneConflict,
        ) <==> spec_tz_conflicts(group.assets@),
        has_scenario_from(final(matches)@, old(matches)@.len() as int,
            TestScenario::F4CameraConflict,
        ) <==> spec_camera_conflicts(group.assets@),
        has_scenario_from(final(matches)@, old(matches)@.len() as int,
            TestScenario::F5CaptureTimeConflict,
        ) <==> spec_capture_conflicts(group.assets@),
        has_scenario_from(final(matches)@, old(matches)@.len() as int,
            TestScenario::F6MultipleConflicts,
        ) <==> conflict_count(group.assets@) >= 2,
        has_scenario_from(final(matches)@, old(matches)@.len() as int,
            TestScenario::F2GpsWithinThreshold,
        ) <==> (conflict_count(group.assets@) > 0 && !spec_gps_conflicts(group.assets@)
            && gps_points(group.assets@).len() >= 2),
{
    let conflicts = detect_conflicts(&group.assets);
    let ghost base = old(matches)@.len() as int;

    if conflicts.len() == 0 {
        matches.push(
            ScenarioMatch {
                scenario: TestScenario::F7NoConflicts,
                duplicate_id: dup_id.to_owned(),
                details: "No metadata conflicts".to_owned(),
            },
        );
        proof {
            assert(final(matches)@.take(old(matches)@.len() as int) =~= old(matches)@);
            assert(matches@[base].scenario == TestScenario::F7NoConflicts);
            assert(forall|k: int|
                base <= k < matches@.len() ==> (#[trigger] matches@[k]).scenario
                    == TestScenario::F7NoConflicts);
        }
        return;
    }

    let mut has_gps_conflict = false;
    let mut has_timezone_conflict = false;
    let mut has_camera_conflict = false;
    let mut has_capture_time_conflict = false;

    let n = conflicts.len();
    let mut i: usize = 0;
    while i < n
        invariant
            n == conflicts@.len(),
            i <= n,
            has_gps_conflict == exists|k: int| 0 <= k < i && (#[trigger] conflicts@[k]) is Gps,
            has_timezone_conflict == exists|k: int|
                0 <= k < i && (#[trigger] conflicts@[k]) is Timezone,
            has_camera_conflict == exists|k: int|
                0 <= k < i && (#[trigger] conflicts@[k]) is CameraInfo,
            has_capture_time_conflict == exists|k: int|
                0 <= k < i && (#[trigger] conflicts@[k]) is CaptureTime,
        decreases n - i,
    {
        match &conflicts[i] {
            crate::scoring::MetadataConflict::Gps { .. } => {
                has_gps_conflict = true;
            },
            crate::scoring::MetadataConflict::Timezone { .. } => {
                has_timezone_conflict = true;
            },
            crate::scoring::MetadataConflict::CameraInfo { .. } => {
                has_camera_conflict = true;
            },
            crate::scoring::MetadataConflict::CaptureTime { .. } => {
                has_capture_time_conflict = true;
            },
        }
        i = i + 1;
    }
    proof {
        assert(has_gps_conflict == spec_gps_conflicts(group.assets@));
        assert(has_timezone_conflict == spec_tz_conflicts(group.assets@));
        assert(has_camera_conflict == spec_camera_conflicts(group.assets@));
        assert(has_capture_time_conflict == spec_capture_conflicts(group.assets@));
    }

    let mut kind_count: usize = 0;
    if has_gps_conflict {
        kind_count = kind_count + 1;
    }
    if has_timezone_conflict {
        kind_count = kind_count + 1;
    }
    if has_camera_conflict {
        kind_count = kind_count + 1;
    }
    if has_capture_time_conflict {
        kind_count = kind_count + 1;
    }
    proof {
        assert(kind_count == conflict_count(group.assets@));
    }

    let push_f2 = if has_gps_conflict {
        false
    } else {
        let mut gps_count: usize = 0;
        let asset_count = group.assets.len();
        let mut a: usize = 0;
        while a < asset_count
            invariant
                asset_count == group.assets@.len(),
                a <= asset_count,
                gps_count == gps_points(group.assets@.take(a as int)).len(),
                gps_count <= a,
            decreases asset_count - a,
        {
            proof {
                assert(group.assets@.take(a + 1).drop_last() =~= group.assets@.take(a as int));
                assert(group.assets@.take(a + 1).last() == group.assets@[a as int]);
            }
            match &group.assets[a].exif_info {
                Option::Some(e) => {
                    if e.latitude.is_some() && e.longitude.is_some() {
                        gps_count = gps_count + 1;
                    }
                },
                Option::None => {},
            }
            a = a + 1;
        }
        proof {
            assert(group.assets@.take(asset_count as int) =~= group.assets@);
        }
        gps_count >= 2
    };

    let ghost mut pos_f1: int = -1;
    if has_gps_conflict {
        proof {
            pos_f1 = matches@.len() as int;
        }
        matches.push(
            ScenarioMatch {
                scenario: TestScenario::F1GpsConflict,
                duplicate_id: dup_id.to_owned(),
                details: "Different locations".to_owned(),
            },
        );
    }
    let ghost mut pos_f3: int = -1;
    if has_timezone_conflict {
        proof {
            pos_f3 = matches@.len() as int;
        }
        matches.push(
            ScenarioMatch {
                scenario: TestScenario::F3TimezoneConflict,
                duplicate_id: dup_id.to_owned(),
                details: "Different timezones".to_owned(),
            },
        );
    }
    let ghost mut pos_f4: int = -1;
    if has_camera_conflict {
        proof {
            pos_f4 = matches@.len() as int;
        }
        matches.push(
            ScenarioMatch {
                scenario: TestScenario::F4CameraConflict,
                duplicate_id: dup_id.to_owned(),
                details: "Different cameras".to_owned(),
            },
        );
    }
    let ghost mut pos_f5: int = -1;
    if has_capture_time_conflict {
        proof {
            pos_f5 = matches@.len() as int;
        }
        matches.push(
            ScenarioMatch {
                scenario: TestScenario::F5CaptureTimeConflict,
                duplicate_id: dup_id.to_owned(),
                details: "Different capture times".to_owned(),
            },
        );
    }
    let ghost mut pos_f6: int = -1;
    if kind_count >= 2 {
        proof {
            pos_f6 = matches@.len() as int;
        }
        matches.push(
            ScenarioMatch {
                scenario: TestScenario::F6MultipleConflicts,
                duplicate_id: dup_id.to_owned(),
                details: "Several conflict kinds".to_owned(),
            },
        );
    }
    let ghost mut pos_f2: int = -1;
    if push_f2 {
        proof {
            pos_f2 = matches@.len() as int;
        }
        matches.push(
            ScenarioMatch {
                scenario: TestScenario::F2GpsWithinThreshold,
                duplicate_id: dup_id.to_owned(),
                details: "GPS values within threshold".to_owned(),
            },
        );
    }

    proof {
        let m = matches@;
        assert(m.take(old(matches)@.len() as int) =~= old(matches)@);
        assert(conflict_count(group.assets@) > 0);
        assert forall|k: int| base <= k < m.len() implies {
            let sc = (#[trigger] m[k]).scenario;
            &&& m[k].duplicate_id@ == dup_id@
            &&& sc.is_conflict_scenario()
            &&& (sc == TestScenario::F7NoConflicts ==> false)
            &&& (sc == TestScenario::F1GpsConflict <==> (has_gps_conflict && k == pos_f1))
            &&& (sc == TestScenario::F3TimezoneConflict <==> (has_timezone_conflict && k
                == pos_f3))
            &&& (sc == TestScenario::F4CameraConflict <==> (has_camera_conflict && k == pos_f4))
            &&& (sc == TestScenario::F5CaptureTimeConflict <==> (has_capture_time_conflict && k
                == pos_f5))
            &&& (sc == TestScenario::F6MultipleConflicts <==> (kind_count >= 2 && k == pos_f6))
            &&& (sc == TestScenario::F2GpsWithinThreshold <==> (push_f2 && k == pos_f2))
        } by {
        }
        if has_gps_conflict {
            assert(m[pos_f1].scenario == TestScenario::F1GpsConflict);
        }
        if has_timezone_conflict {
            assert(m[pos_f3].scenario == TestScenario::F3TimezoneConflict);
        }
        if has_camera_conflict {
            assert(m[pos_f4].scenario == TestScenario::F4CameraConflict);
        }
        if has_capture_time_conflict {
            assert(m[pos_f5].scenario == TestScenario::F5CaptureTimeConflict);
        }
        if kind_count >= 2 {
            assert(m[pos_f6].scenario == TestScenario::F6MultipleConflicts);
        }
        if push_f2 {
            assert(m[pos_f2].scenario == TestScenario::F2GpsWithinThreshold);
        }
    }
}
/// The recorded dimensions of an asset, when both are present.
pub open spec fn dims_of(a: AssetResponse) -> Option<(u32, u32)> {
    match a.exif_info {
        Option::Some(e) => match (e.exif_image_width, e.exif_image_height) {
            (Option::Some(w), Option::Some(h)) => Option::Some((w, h)),
            _ => Option::None,
        },
        Option::None => Option::None,
    }
}

/// The dimensions present across a sequence of assets, in order.
pub open spec fn dims_list(assets: Seq<AssetResponse>) -> Seq<(u32, u32)>
    decreases assets.len(),
{
    if assets.len() == 0 {
        Seq::empty()
    } else {
        let rest = dims_list(assets.drop_last());
        match dims_of(assets.last()) {
            Option::Some(d) => rest.push(d),
            Option::None => rest,
        }
    }
}

/// The file sizes recorded across a sequence of assets, in order.
pub open spec fn sizes_list(assets: Seq<AssetResponse>) -> Seq<u64>
    decreases assets.len(),
{
    if assets.len() == 0 {
        Seq::empty()
    } else {
        let rest = sizes_list(assets.drop_last());
        match assets.last().exif_info {
            Option::Some(e) => match e.file_size_in_byte {
                Option::Some(s) => rest.push(s),
                Option::None => rest,
            },
            Option::None => rest,
        }
    }
}

/// Whether all recorded dimensions agree.
pub open spec fn all_dims_same(dl: Seq<(u32, u32)>) -> bool {
    forall|i: int| 0 <= i < dl.len() ==> #[trigger] dl[i] == dl[0]
}

/// Whether all recorded pixel counts agree.
pub open spec fn all_pixels_same(dl: Seq<(u32, u32)>) -> bool {
    forall|i: int|
        0 <= i < dl.len() ==> (#[trigger] dl[i]).0 * dl[i].1 == dl[0].0 * dl[0].1
}

/// Whether all recorded file sizes agree.
pub open spec fn all_sizes_same(sl: Seq<u64>) -> bool {
    forall|i: int| 0 <= i < sl.len() ==> #[trigger] sl[i] == sl[0]
}

/// Detect dimension-based winner selection scenarios: missing dimensions in
/// various degrees, and for groups with comparable dimensions, whether the
/// dimensions, pixel counts, and file sizes separate a winner.
pub fn detect_dimension_scenarios(
    group: &DuplicateGroup,
    matches: &mut Vec<ScenarioMatch>,
    dup_id: &str,
)
    ensures
        final(matches)@.len() >= old(matches)@.len(),
        final(matches)@.take(old(matches)@.len() as int) == old(matches)@,
        forall|k: int|
            old(matches)@.len() <= k < final(matches)@.len() ==> (#[trigger] final(matches)@[k]).duplicate_id@
                == dup_id@,
        forall|k: int|
            old(matches)@.len() <= k < final(matches)@.len() ==> ((#[trigger] final(matches)@[k]).scenario).is_winner_scenario()
                && final(matches)@[k].scenario != TestScenario::W7ThreePlusDuplicates,
        has_scenario_from(final(matches)@, old(matches)@.len() as int,
            TestScenario::W6AllMissingDimensions,
        ) <==> (dims_list(group.assets@).len() == 0 && group.assets@.len() > 1),
        has_scenario_from(final(matches)@, old(matches)@.len() as int,
            TestScenario::W5OnlyOneHasDimensions,
        ) <==> (dims_list(group.assets@).len() == 1 && group.assets@.len() >= 2),
        has_scenario_from(final(matches)@, old(matches)@.len() as int,
            TestScenario::W4SomeMissingDimensions,
        ) <==> (dims_list(group.assets@).len() > 1 && dims_list(group.assets@).len()
            < group.assets@.len()),
        has_scenario_from(final(matches)@, old(matches)@.len() as int,
            TestScenario::W3SameDimensionsSameSize,
        ) <==> (dims_list(group.assets@).len() >= 2 && all_dims_same(dims_list(group.assets@))
            && sizes_list(group.assets@).len() >= 2 && all_sizes_same(sizes_list(group.assets@))),
        has_scenario_from(final(matches)@, old(matches)@.len() as int,
            TestScenario::W2SameDimensionsDifferentSize,
        ) <==> (dims_list(group.assets@).len() >= 2 && all_dims_same(dims_list(group.assets@))
            && sizes_list(group.assets@).len() >= 2 && !all_sizes_same(sizes_list(group.assets@))),
        has_scenario_from(final(matches)@, old(matches)@.len() as int,
            TestScenario::W8SamePixelsDifferentAspect,
        ) <==> (dims_list(group.assets@).len() >= 2 && !all_dims_same(dims_list(group.assets@))
            && all_pixels_same(dims_list(group.assets@))),
        has_scenario_from(final(matches)@, old(matches)@.len() as int,
            TestScenario::W1ClearDimensionWinner,
        ) <==> (dims_list(group.assets@).len() >= 2 && !all_dims_same(dims_list(group.assets@))
            && !all_pixels_same(dims_list(group.assets@))),
{
    let ghost base = old(matches)@.len() as int;
    let n = group.assets.len();

    let mut dims: Vec<(u32, u32)> = Vec::new();
    let mut sizes: Vec<u64> = Vec::new();
    let mut i: usize = 0;
    while i < n
        invariant
            n == group.assets@.len(),
            i <= n,
            dims@ == dims_list(group.assets@.take(i as int)),
            sizes@ == sizes_list(group.assets@.take(i as int)),
            dims@.len() <= i,
        decreases n - i,
    {
        proof {
            assert(group.assets@.take(i + 1).drop_last() =~= group.assets@.take(i as int));
            assert(group.assets@.take(i + 1).last() == group.assets@[i as int]);
        }
        match &group.assets[i].exif_info {
            Option::Some(e) => {
                match (&e.exif_image_width, &e.exif_image_height) {
                    (Option::Some(w), Option::Some(h)) => {
                        dims.push((*w, *h));
                    },
                    _ => {},
                }
                match &e.file_size_in_byte {
                    Option::Some(sz) => {
                        sizes.push(*sz);
                    },
                    Option::None => {},
                }
            },
            Option::None => {},
        }
        i = i + 1;
    }
    proof {
        assert(group.assets@.take(n as int) =~= group.assets@);
    }

    let with_dims_count = dims.len();
    let without_dims_count = n - with_dims_count;

    if with_dims_count == 0 && n > 1 {
        matches.push(
            ScenarioMatch {
                scenario: TestScenario::W6AllMissingDimensions,
                duplicate_id: dup_id.to_owned(),
                details: "No asset has dimensions".to_owned(),
            },
        );
        proof {
            assert(final(matches)@.take(old(matches)@.len() as int) =~= old(matches)@);
            assert(matches@[base].scenario == TestScenario::W6AllMissingDimensions);
            assert(forall|k: int|
                base <= k < matches@.len() ==> (#[trigger] matches@[k]).scenario
                    == TestScenario::W6AllMissingDimensions);
        }
        return;
    }

    let ghost mut pos_w5: int = -1;
    if with_dims_count == 1 && without_dims_count > 0 {
        proof {
            pos_w5 = matches@.len() as int;
        }
        matches.push(
            ScenarioMatch {
                scenario: TestScenario::W5OnlyOneHasDimensions,
                duplicate_id: dup_id.to_owned(),
                details: "Only one asset has dimensions".to_owned(),
            },
        );
    }

    let ghost mut pos_w4: int = -1;
    if with_dims_count > 1 && without_dims_count > 0 {
        proof {
            pos_w4 = matches@.len() as int;
        }
        matches.push(
            ScenarioMatch {
                scenario: TestScenario::W4SomeMissingDimensions,
                duplicate_id: dup_id.to_owned(),
                details: "Some assets lack dimensions".to_owned(),
            },
        );
    }

    let mut pushed_w3 = false;
    let mut pushed_w2 = false;
    let mut pushed_w8 = false;
    let mut pushed_w1 = false;
    let ghost mut pos_tail: int = -1;

    if with_dims_count >= 2 {
        let mut same_dims = true;
        let mut same_pixels = true;
        let d0 = dims[0];
        let m = dims.len();
        let mut t: usize = 0;
        while t < m
            invariant
                m == dims@.len(),
                m >= 1,
                t <= m,
                d0 == dims@[0],
                same_dims == forall|k: int| 0 <= k < t ==> #[trigger] dims@[k] == dims@[0],
                same_pixels == forall|k: int|
                    0 <= k < t ==> (#[trigger] dims@[k]).0 * dims@[k].1 == dims@[0].0 * dims@[0].1,
            decreases m - t,
        {
            let d = dims[t];
            if !(d.0 == d0.0 && d.1 == d0.1) {
                same_dims = false;
            }
            proof {
                assert((d.0 as u64) * (d.1 as u64) <= u64::MAX) by (nonlinear_arith)
                    requires
                        d.0 as u64 <= 0xFFFFFFFFu64,
                        d.1 as u64 <= 0xFFFFFFFFu64,
                ;
                assert((d0.0 as u64) * (d0.1 as u64) <= u64::MAX) by (nonlinear_arith)
                    requires
                        d0.0 as u64 <= 0xFFFFFFFFu64,
                        d0.1 as u64 <= 0xFFFFFFFFu64,
                ;
            }
            let p: u64 = (d.0 as u64) * (d.1 as u64);
            let p0: u64 = (d0.0 as u64) * (d0.1 as u64);
            if p != p0 {
                same_pixels = false;
            }
            t = t + 1;
        }
        proof {
            assert(same_dims == all_dims_same(dims@));
            assert(same_pixels == all_pixels_same(dims@));
        }

        if same_dims {
            let sn = sizes.len();
            if sn >= 2 {
                let mut same_size = true;
                let s0 = sizes[0];
                let mut t2: usize = 0;
                while t2 < sn
                    invariant
                        sn == sizes@.len(),
                        sn >= 1,
                        t2 <= sn,
                        s0 == sizes@[0],
                        same_size == forall|k: int|
                            0 <= k < t2 ==> #[trigger] sizes@[k] == sizes@[0],
                    decreases sn - t2,
                {
                    if sizes[t2] != s0 {
                        same_size = false;
                    }
                    t2 = t2 + 1;
                }
                proof {
                    assert(same_size == all_sizes_same(sizes@));
                    pos_tail = matches@.len() as int;
                }
                if same_size {
                    matches.push(
                        ScenarioMatch {
                            scenario: TestScenario::W3SameDimensionsSameSize,
                            duplicate_id: dup_id.to_owned(),
                            details: "Same dimensions and file size".to_owned(),
                        },
                    );
                    pushed_w3 = true;
                } else {
                    matches.push(
                        ScenarioMatch {
                            scenario: TestScenario::W2SameDimensionsDifferentSize,
                            duplicate_id: dup_id.to_owned(),
                            details: "Same dimensions, different sizes".to_owned(),
                        },
                    );
                    pushed_w2 = true;
                }
            }
        } else if same_pixels {
            proof {
                pos_tail = matches@.len() as int;
            }
            matches.push(
                ScenarioMatch {
                    scenario: TestScenario::W8SamePixelsDifferentAspect,
                    duplicate_id: dup_id.to_owned(),
                    details: "Same pixel count, different aspect".to_owned(),
                },
            );
            pushed_w8 = true;
        } else {
            proof {
                pos_tail = matches@.len() as int;
            }
            matches.push(
                ScenarioMatch {
                    scenario: TestScenario::W1ClearDimensionWinner,
                    duplicate_id: dup_id.to_owned(),
                    details: "Distinct dimensions".to_owned(),
                },
            );
            pushed_w1 = true;
        }
    }

    proof {
        let m = matches@;
        assert(m.take(old(matches)@.len() as int) =~= old(matches)@);
        if pos_w5 >= 0 {
            assert(m[pos_w5].scenario == TestScenario::W5OnlyOneHasDimensions);
        }
        if pos_w4 >= 0 {
            assert(m[pos_w4].scenario == TestScenario::W4SomeMissingDimensions);
        }
        if pushed_w3 {
            assert(m[pos_tail].scenario == TestScenario::W3SameDimensionsSameSize);
        }
        if pushed_w2 {
            assert(m[pos_tail].scenario == TestScenario::W2SameDimensionsDifferentSize);
        }
        if pushed_w8 {
            assert(m[pos_tail].scenario == TestScenario::W8SamePixelsDifferentAspect);
        }
        if pushed_w1 {
            assert(m[pos_tail].scenario == TestScenario::W1ClearDimensionWinner);
        }
        assert forall|k: int| base <= k < m.len() implies {
            let sc = (#[trigger] m[k]).scenario;
            &&& m[k].duplicate_id@ == dup_id@
            &&& sc.is_winner_scenario()
            &&& sc != TestScenario::W7ThreePlusDuplicates
            &&& (sc == TestScenario::W6AllMissingDimensions ==> false)
            &&& (sc == TestScenario::W5OnlyOneHasDimensions <==> k == pos_w5)
            &&& (sc == TestScenario::W4SomeMissingDimensions <==> k == pos_w4)
            &&& (sc == TestScenario::W3SameDimensionsSameSize <==> (pushed_w3 && k == pos_tail))
            &&& (sc == TestScenario::W2SameDimensionsDifferentSize <==> (pushed_w2 && k
                == pos_tail))
            &&& (sc == TestScenario::W8SamePixelsDifferentAspect <==> (pushed_w8 && k
                == pos_tail))
            &&& (sc == TestScenario::W1ClearDimensionWinner <==> (pushed_w1 && k == pos_tail))
        } by {
        }
    }
}

/// The pixel count of an asset's recorded dimensions, zero when absent.
pub open spec fn pixel_count(a: AssetResponse) -> int {
    match dims_of(a) {
        Option::Some(d) => d.0 * d.1,
        Option::None => 0,
    }
}

/// The recorded file size of an asset, zero when absent.
pub open spec fn spec_size_of(a: AssetResponse) -> int {
    match a.exif_info {
        Option::Some(e) => match e.file_size_in_byte {
            Option::Some(sz) => sz as int,
            Option::None => 0,
        },
        Option::None => 0,
    }
}

/// Whether `a` ranks strictly above `b` by pixel count, then file size.
pub open spec fn pix_beats(a: AssetResponse, b: AssetResponse) -> bool {
    ||| pixel_count(a) > pixel_count(b)
    ||| (pixel_count(a) == pixel_count(b) && spec_size_of(a) > spec_size_of(b))
}

/// The index of the presumed winner by dimensions: the first asset that no
/// other asset ranks strictly above by pixel count, then file size.
pub open spec fn pix_winner_index(assets: Seq<AssetResponse>) -> int
    decreases assets.len(),
{
    if assets.len() <= 1 {
        0
    } else {
        let w = pix_winner_index(assets.drop_last());
        if pix_beats(assets.last(), assets[w]) {
            assets.len() - 1
        } else {
            w
        }
    }
}

/// The dimension winner index is in range; no asset ranks strictly above
/// it; and it ranks strictly above every earlier asset.
pub proof fn lemma_pix_winner_index(assets: Seq<AssetResponse>)
    requires
        assets.len() >= 1,
    ensures
        0 <= pix_winner_index(assets) < assets.len(),
        forall|i: int|
            0 <= i < assets.len() ==> !pix_beats(
                #[trigger] assets[i],
                assets[pix_winner_index(assets)],
            ),
        forall|i: int|
            0 <= i < pix_winner_index(assets) ==> pix_beats(
                assets[pix_winner_index(assets)],
                #[trigger] assets[i],
            ),
    decreases assets.len(),
{
    if assets.len() > 1 {
        lemma_pix_winner_index(assets.drop_last());
        assert(forall|i: int|
            0 <= i < assets.len() - 1 ==> assets.drop_last()[i] == #[trigger] assets[i]);
    }
}

/// Whether an asset carries a nonempty description.
pub open spec fn desc_nonempty(a: AssetResponse) -> bool {
    match a.exif_info {
        Option::Some(e) => match e.description {
            Option::Some(d) => d@.len() > 0,
            Option::None => false,
        },
        Option::None => false,
    }
}

/// The first non-winner asset at or after `i` that has GPS, or -1.
pub open spec fn first_loser_gps(assets: Seq<AssetResponse>, w: int, i: int) -> int
    decreases assets.len() - i,
{
    if i < 0 || i >= assets.len() {
        -1
    } else if i != w && crate::executor::winner_has_gps(assets[i]) {
        i
    } else {
        first_loser_gps(assets, w, i + 1)
    }
}

/// The first non-winner asset at or after `i` that has a capture time, or -1.
pub open spec fn first_loser_datetime(assets: Seq<AssetResponse>, w: int, i: int) -> int
    decreases assets.len() - i,
{
    if i < 0 || i >= assets.len() {
        -1
    } else if i != w && crate::executor::winner_has_datetime(assets[i]) {
        i
    } else {
        first_loser_datetime(assets, w, i + 1)
    }
}

/// The first non-winner asset at or after `i` with a nonempty description,
/// or -1.
pub open spec fn first_loser_description(assets: Seq<AssetResponse>, w: int, i: int) -> int
    decreases assets.len() - i,
{
    if i < 0 || i >= assets.len() {
        -1
    } else if i != w && desc_nonempty(assets[i]) {
        i
    } else {
        first_loser_description(assets, w, i + 1)
    }
}

/// Whether at least two different losers are the first sources of
/// different consolidated fields.
pub open spec fn distinct_contributors(assets: Seq<AssetResponse>, w: int) -> bool {
    let fg = first_loser_gps(assets, w, 0);
    let fd = first_loser_datetime(assets, w, 0);
    let fe = first_loser_description(assets, w, 0);
    ||| (fg >= 0 && fd >= 0 && fg != fd)
    ||| (fg >= 0 && fe >= 0 && fg != fe)
    ||| (fd >= 0 && fe >= 0 && fd != fe)
}

/// Detect consolidation scenarios: which of the consolidated fields the
/// presumed winner (by dimensions, then file size, then input order) lacks
/// and some loser has, whether several losers contribute different fields,
/// and whether nothing can be consolidated at all.
#[verifier::rlimit(60)]
pub fn detect_consolidation_scenarios(
    group: &DuplicateGroup,
    matches: &mut Vec<ScenarioMatch>,
    dup_id: &str,
)
    ensures
        final(matches)@.len() >= old(matches)@.len(),
        final(matches)@.take(old(matches)@.len() as int) == old(matches)@,
        forall|k: int|
            old(matches)@.len() <= k < final(matches)@.len() ==> (#[trigger] final(matches)@[k]).duplicate_id@
                == dup_id@,
        forall|k: int|
            old(matches)@.len() <= k < final(matches)@.len() ==> ((#[trigger] final(matches)@[k]).scenario).is_consolidation_scenario(),
        group.assets@.len() < 2 ==> final(matches)@.len() == old(matches)@.len(),
        group.assets@.len() >= 2 ==> {
            let assets = group.assets@;
            let w = pix_winner_index(assets);
            let wg = crate::executor::winner_has_gps(assets[w]);
            let wd = crate::executor::winner_has_datetime(assets[w]);
            let we = desc_nonempty(assets[w]);
            let lg = exists|i: int|
                0 <= i < assets.len() && i != w && crate::executor::winner_has_gps(
                    #[trigger] assets[i],
                );
            let ld = exists|i: int|
                0 <= i < assets.len() && i != w && crate::executor::winner_has_datetime(
                    #[trigger] assets[i],
                );
            let le = exists|i: int|
                0 <= i < assets.len() && i != w && desc_nonempty(#[trigger] assets[i]);
            let lall = exists|i: int|
                0 <= i < assets.len() && i != w && crate::executor::winner_has_gps(
                    #[trigger] assets[i],
                ) && crate::executor::winner_has_datetime(assets[i]) && desc_nonempty(assets[i]);
            let lo = old(matches)@.len() as int;
            let fm = final(matches)@;
            &&& (has_scenario_from(fm, lo, TestScenario::C8WinnerHasEverything) <==> (wg && wd
                && we))
            &&& (has_scenario_from(fm, lo, TestScenario::C5BothHaveGps) <==> (wg && lg))
            &&& (has_scenario_from(fm, lo, TestScenario::C1WinnerLacksGpsLoserHas) <==> (!wg
                && lg))
            &&& (has_scenario_from(fm, lo, TestScenario::C2WinnerLacksDatetimeLoserHas) <==> (!wd
                && ld))
            &&& (has_scenario_from(fm, lo, TestScenario::C3WinnerLacksDescriptionLoserHas) <==> (
            !we && le))
            &&& (has_scenario_from(fm, lo, TestScenario::C4WinnerLacksAllLoserHasAll) <==> (!wg
                && !wd && !we && lall))
            &&& (has_scenario_from(fm, lo, TestScenario::C6MultipleLosersContribute) <==> (
            assets.len() >= 3 && distinct_contributors(assets, w)))
            &&& (has_scenario_from(fm, lo, TestScenario::C7NoLoserHasNeeded) <==> ((!wg || !wd
                || !we) && !lg && !ld && !le))
        },
{
    let ghost base = old(matches)@.len() as int;
    let n = group.assets.len();
    if n < 2 {
        proof {
            assert(final(matches)@.take(old(matches)@.len() as int) =~= old(matches)@);
        }
        return;
    }

    let mut w: usize = 0;
    let mut i: usize = 1;
    while i < n
        invariant
            n == group.assets@.len(),
            n >= 1,
            w < i <= n || (i <= n && w == 0),
            w < n,
            forall|k: int|
                0 <= k < i ==> !pix_beats(#[trigger] group.assets@[k], group.assets@[w as int]),
            forall|k: int|
                0 <= k < w ==> pix_beats(group.assets@[w as int], #[trigger] group.assets@[k]),
        decreases n - i,
    {
        let (cw, ch) = match &group.assets[i].exif_info {
            Option::Some(e) => match (&e.exif_image_width, &e.exif_image_height) {
                (Option::Some(cw), Option::Some(ch)) => (*cw, *ch),
                _ => (0u32, 0u32),
            },
            Option::None => (0u32, 0u32),
        };
        let (bw, bh) = match &group.assets[w].exif_info {
            Option::Some(e) => match (&e.exif_image_width, &e.exif_image_height) {
                (Option::Some(bw), Option::Some(bh)) => (*bw, *bh),
                _ => (0u32, 0u32),
            },
            Option::None => (0u32, 0u32),
        };
        proof {
            assert((cw as u64) * (ch as u64) <= u64::MAX) by (nonlinear_arith)
                requires
                    cw as u64 <= 0xFFFFFFFFu64,
                    ch as u64 <= 0xFFFFFFFFu64,
            ;
            assert((bw as u64) * (bh as u64) <= u64::MAX) by (nonlinear_arith)
                requires
                    bw as u64 <= 0xFFFFFFFFu64,
                    bh as u64 <= 0xFFFFFFFFu64,
            ;
        }
        let cp: u64 = (cw as u64) * (ch as u64);
        let bp: u64 = (bw as u64) * (bh as u64);
        let cs: u64 = match &group.assets[i].exif_info {
            Option::Some(e) => match &e.file_size_in_byte {
                Option::Some(sz) => *sz,
                Option::None => 0,
            },
            Option::None => 0,
        };
        let bs: u64 = match &group.assets[w].exif_info {
            Option::Some(e) => match &e.file_size_in_byte {
                Option::Some(sz) => *sz,
                Option::None => 0,
            },
            Option::None => 0,
        };
        proof {
            assert(cp as int == pixel_count(group.assets@[i as int]));
            assert(bp as int == pixel_count(group.assets@[w as int]));
            assert(cs as int == spec_size_of(group.assets@[i as int]));
            assert(bs as int == spec_size_of(group.assets@[w as int]));
        }
        if cp > bp || (cp == bp && cs > bs) {
            w = i;
        }
        i = i + 1;
    }
    proof {
        lemma_pix_winner_index(group.assets@);
        let ws = pix_winner_index(group.assets@);
        if (w as int) < ws {
            assert(pix_beats(group.assets@[ws], group.assets@[w as int]));
            assert(false);
        }
        if ws < (w as int) {
            assert(pix_beats(group.assets@[w as int], group.assets@[ws]));
            assert(false);
        }
    }

    let winner = &group.assets[w];
    let winner_has_gps = match &winner.exif_info {
        Option::Some(e) => e.has_gps(),
        Option::None => false,
    };
    let winner_has_datetime = match &winner.exif_info {
        Option::Some(e) => e.date_time_original.is_some(),
        Option::None => false,
    };
    let winner_has_description = match &winner.exif_info {
        Option::Some(e) => match &e.description {
            Option::Some(d) => d.as_str().unicode_len() > 0,
            Option::None => false,
        },
        Option::None => false,
    };

    let mut any_loser_gps = false;
    let mut any_loser_dt = false;
    let mut any_loser_desc = false;
    let mut any_loser_all = false;
    let mut fg_found = false;
    let mut fg_idx: usize = 0;
    let mut fd_found = false;
    let mut fd_idx: usize = 0;
    let mut fe_found = false;
    let mut fe_idx: usize = 0;
    let mut a: usize = 0;
    while a < n
        invariant
            n == group.assets@.len(),
            a <= n,
            w < n,
            any_loser_gps == exists|i2: int|
                0 <= i2 < a && i2 != w && crate::executor::winner_has_gps(
                    #[trigger] group.assets@[i2],
                ),
            any_loser_dt == exists|i2: int|
                0 <= i2 < a && i2 != w && crate::executor::winner_has_datetime(
                    #[trigger] group.assets@[i2],
                ),
            any_loser_desc == exists|i2: int|
                0 <= i2 < a && i2 != w && desc_nonempty(#[trigger] group.assets@[i2]),
            any_loser_all == exists|i2: int|
                0 <= i2 < a && i2 != w && crate::executor::winner_has_gps(
                    #[trigger] group.assets@[i2],
                ) && crate::executor::winner_has_datetime(group.assets@[i2]) && desc_nonempty(
                    group.assets@[i2],
                ),
            !fg_found ==> first_loser_gps(group.assets@, w as int, 0) == first_loser_gps(
                group.assets@,
                w as int,
                a as int,
            ),
            fg_found ==> first_loser_gps(group.assets@, w as int, 0) == fg_idx as int && fg_idx
                < n,
            !fd_found ==> first_loser_datetime(group.assets@, w as int, 0)
                == first_loser_datetime(group.assets@, w as int, a as int),
            fd_found ==> first_loser_datetime(group.assets@, w as int, 0) == fd_idx as int
                && fd_idx < n,
            !fe_found ==> first_loser_description(group.assets@, w as int, 0)
                == first_loser_description(group.assets@, w as int, a as int),
            fe_found ==> first_loser_description(group.assets@, w as int, 0) == fe_idx as int
                && fe_idx < n,
        decreases n - a,
    {
        if a != w {
            let asset = &group.assets[a];
            let has_gps = match &asset.exif_info {
                Option::Some(e) => e.has_gps(),
                Option::None => false,
            };
            let has_dt = match &asset.exif_info {
                Option::Some(e) => e.date_time_original.is_some(),
                Option::None => false,
            };
            let has_desc = match &asset.exif_info {
                Option::Some(e) => match &e.description {
                    Option::Some(d) => d.as_str().unicode_len() > 0,
                    Option::None => false,
                },
                Option::None => false,
            };
            if has_gps {
                any_loser_gps = true;
                if !fg_found {
                    fg_found = true;
                    fg_idx = a;
                }
            }
            if has_dt {
                any_loser_dt = true;
                if !fd_found {
                    fd_found = true;
                    fd_idx = a;
                }
            }
            if has_desc {
                any_loser_desc = true;
                if !fe_found {
                    fe_found = true;
                    fe_idx = a;
                }
            }
            if has_gps && has_dt && has_desc {
                any_loser_all = true;
            }
        }
        proof {
            let assets = group.assets@;
            let wi = w as int;
            let ai = a as int;
            assert(first_loser_gps(assets, wi, ai) == (
            if ai != wi && crate::executor::winner_has_gps(assets[ai]) {
                ai
            } else {
                first_loser_gps(assets, wi, ai + 1)
            }));
            assert(first_loser_datetime(assets, wi, ai) == (
            if ai != wi && crate::executor::winner_has_datetime(assets[ai]) {
                ai
            } else {
                first_loser_datetime(assets, wi, ai + 1)
            }));
            assert(first_loser_description(assets, wi, ai) == (
            if ai != wi && desc_nonempty(assets[ai]) {
                ai
            } else {
                first_loser_description(assets, wi, ai + 1)
            }));
        }
        a = a + 1;
    }
    proof {
        if !fg_found {
            assert(first_loser_gps(group.assets@, w as int, n as int) == -1);
        }
        if !fd_found {
            assert(first_loser_datetime(group.assets@, w as int, n as int) == -1);
        }
        if !fe_found {
            assert(first_loser_description(group.assets@, w as int, n as int) == -1);
        }
    }

    let ghost mut pos_c8: int = -1;
    if winner_has_gps && winner_has_datetime && winner_has_description {
        proof {
            pos_c8 = matches@.len() as int;
        }
        matches.push(
            ScenarioMatch {
                scenario: TestScenario::C8WinnerHasEverything,
                duplicate_id: dup_id.to_owned(),
                details: "Winner has GPS, datetime, description".to_owned(),
            },
        );
    }

    let ghost mut pos_c5: int = -1;
    if winner_has_gps && any_loser_gps {
        proof {
            pos_c5 = matches@.len() as int;
        }
        matches.push(
            ScenarioMatch {
                scenario: TestScenario::C5BothHaveGps,
                duplicate_id: dup_id.to_owned(),
                details: "Winner and losers have GPS".to_owned(),
            },
        );
    }

    let ghost mut pos_c1: int = -1;
    if !winner_has_gps && any_loser_gps {
        proof {
            pos_c1 = matches@.len() as int;
        }
        matches.push(
            ScenarioMatch {
                scenario: TestScenario::C1WinnerLacksGpsLoserHas,
                duplicate_id: dup_id.to_owned(),
                details: "Winner missing GPS, a loser has it".to_owned(),
            },
        );
    }

    let ghost mut pos_c2: int = -1;
    if !winner_has_datetime && any_loser_dt {
        proof {
            pos_c2 = matches@.len() as int;
        }
        matches.push(
            ScenarioMatch {
                scenario: TestScenario::C2WinnerLacksDatetimeLoserHas,
                duplicate_id: dup_id.to_owned(),
                details: "Winner missing datetime, a loser has it".to_owned(),
            },
        );
    }

    let ghost mut pos_c3: int = -1;
    if !winner_has_description && any_loser_desc {
        proof {
            pos_c3 = matches@.len() as int;
        }
        matches.push(
            ScenarioMatch {
                scenario: TestScenario::C3WinnerLacksDescriptionLoserHas,
                duplicate_id: dup_id.to_owned(),
                details: "Winner missing description, a loser has it".to_owned(),
            },
        );
    }

    let ghost mut pos_c4: int = -1;
    if !winner_has_gps && !winner_has_datetime && !winner_has_description && any_loser_all {
        proof {
            pos_c4 = matches@.len() as int;
        }
        matches.push(
            ScenarioMatch {
                scenario: TestScenario::C4WinnerLacksAllLoserHasAll,
                duplicate_id: dup_id.to_owned(),
                details: "Winner lacks GPS, datetime, description; a loser has all".to_owned(),
            },
        );
    }

    let push_c6 = n >= 3 && ((fg_found && fd_found && fg_idx != fd_idx) || (fg_found && fe_found
        && fg_idx != fe_idx) || (fd_found && fe_found && fd_idx != fe_idx));
    let ghost mut pos_c6: int = -1;
    if push_c6 {
        proof {
            pos_c6 = matches@.len() as int;
        }
        matches.push(
            ScenarioMatch {
                scenario: TestScenario::C6MultipleLosersContribute,
                duplicate_id: dup_id.to_owned(),
                details: "Different losers contribute different metadata".to_owned(),
            },
        );
    }

    let ghost mut pos_c7: int = -1;
    if (!winner_has_gps || !winner_has_datetime || !winner_has_description) && !any_loser_gps
        && !any_loser_dt && !any_loser_desc {
        proof {
            pos_c7 = matches@.len() as int;
        }
        matches.push(
            ScenarioMatch {
                scenario: TestScenario::C7NoLoserHasNeeded,
                duplicate_id: dup_id.to_owned(),
                details: "Winner missing metadata, no loser has it".to_owned(),
            },
        );
    }

    proof {
        let m = matches@;
        assert(m.take(old(matches)@.len() as int) =~= old(matches)@);
        if pos_c8 >= 0 {
            assert(m[pos_c8].scenario == TestScenario::C8WinnerHasEverything);
        }
        if pos_c5 >= 0 {
            assert(m[pos_c5].scenario == TestScenario::C5BothHaveGps);
        }
        if pos_c1 >= 0 {
            assert(m[pos_c1].scenario == TestScenario::C1WinnerLacksGpsLoserHas);
        }
        if pos_c2 >= 0 {
            assert(m[pos_c2].scenario == TestScenario::C2WinnerLacksDatetimeLoserHas);
        }
        if pos_c3 >= 0 {
            assert(m[pos_c3].scenario == TestScenario::C3WinnerLacksDescriptionLoserHas);
        }
        if pos_c4 >= 0 {
            assert(m[pos_c4].scenario == TestScenario::C4WinnerLacksAllLoserHasAll);
        }
        if pos_c6 >= 0 {
            assert(m[pos_c6].scenario == TestScenario::C6MultipleLosersContribute);
        }
        if pos_c7 >= 0 {
            assert(m[pos_c7].scenario == TestScenario::C7NoLoserHasNeeded);
        }
        assert forall|k: int| base <= k < m.len() implies {
            let sc = (#[trigger] m[k]).scenario;
            &&& m[k].duplicate_id@ == dup_id@
            &&& sc.is_consolidation_scenario()
            &&& (sc == TestScenario::C8WinnerHasEverything <==> k == pos_c8)
            &&& (sc == TestScenario::C5BothHaveGps <==> k == pos_c5)
            &&& (sc == TestScenario::C1WinnerLacksGpsLoserHas <==> k == pos_c1)
            &&& (sc == TestScenario::C2WinnerLacksDatetimeLoserHas <==> k == pos_c2)
            &&& (sc == TestScenario::C3WinnerLacksDescriptionLoserHas <==> k == pos_c3)
            &&& (sc == TestScenario::C4WinnerLacksAllLoserHasAll <==> k == pos_c4)
            &&& (sc == TestScenario::C6MultipleLosersContribute <==> k == pos_c6)
            &&& (sc == TestScenario::C7NoLoserHasNeeded <==> k == pos_c7)
        } by {
        }
    }
}

/// The characters that end the year segment of a date string: the date
/// separators and the time delimiters.
pub open spec fn is_year_sep(c: char) -> bool {
    c == ':' || c == '-' || c == 'T' || c == ' ' || c == '/'
}

/// The index of the first year separator in `s`, or the length when none
/// occurs.
pub open spec fn sep_index(s: Seq<char>) -> int
    decreases s.len(),
{
    if s.len() == 0 {
        0
    } else if is_year_sep(s[0]) {
        0
    } else {
        1 + sep_index(s.drop_first())
    }
}

/// The first segment never runs past the string, separators never occur
/// before it ends, and it ends at a separator or at the end of the string.
pub proof fn lemma_sep_index(s: Seq<char>)
    ensures
        0 <= sep_index(s) <= s.len(),
        forall|k: int| 0 <= k < sep_index(s) ==> !is_year_sep(s[k]),
        sep_index(s) < s.len() ==> is_year_sep(s[sep_index(s)]),
    decreases s.len(),
{
    if s.len() > 0 && !is_year_sep(s[0]) {
        let d = s.drop_first();
        lemma_sep_index(d);
        assert(forall|k: int| 0 <= k < d.len() ==> #[trigger] d[k] == s[k + 1]);
        assert forall|k: int| 0 <= k < sep_index(s) implies !is_year_sep(s[k]) by {
            if k > 0 {
                assert(d[k - 1] == s[k]);
            }
        }
    }
}

/// Whether a character is a decimal digit.
pub open spec fn is_dec_digit(c: char) -> bool {
    '0' <= c && c <= '9'
}

/// The value of a sequence of decimal digits, most significant first.
pub open spec fn digits_value(s: Seq<char>) -> int
    decreases s.len(),
{
    if s.len() == 0 {
        0
    } else {
        digits_value(s.drop_last()) * 10 + (s.last() as int - '0' as int)
    }
}

/// The segment of a date string before the first separator.
pub open spec fn year_seg(s: Seq<char>) -> Seq<char> {
    s.take(sep_index(s))
}

/// The digits of the year segment, an optional leading plus sign stripped.
pub open spec fn year_body(s: Seq<char>) -> Seq<char> {
    if year_seg(s).len() > 0 && year_seg(s)[0] == '+' {
        year_seg(s).drop_first()
    } else {
        year_seg(s)
    }
}

/// The year read from the front of a date string: the digits before the
/// first separator (an optional leading plus sign allowed), accepted when
/// they parse as a 32-bit integer between 1800 and 2100.
pub open spec fn spec_extract_year(s: Seq<char>) -> Option<i32> {
    if year_body(s).len() > 0 && (forall|k: int|
        0 <= k < year_body(s).len() ==> is_dec_digit(#[trigger] year_body(s)[k]))
        && digits_value(year_body(s)) <= i32::MAX && 1800 <= digits_value(year_body(s)) <= 2100 {
        Option::Some(digits_value(year_body(s)) as i32)
    } else {
        Option::None
    }
}

/// Extract the year from the front of a date string (formats such as
/// `2023:01:15 12:00:00` or `2023-01-15T12:00:00Z`), accepted only within
/// the range 1800 to 2100.
pub fn extract_year(date_str: &str) -> (r: Option<i32>)
    ensures
        r == spec_extract_year(date_str@),
{
    proof {
        lemma_sep_index(date_str@);
    }
    let slen = date_str.unicode_len();
    let mut seg_end: usize = 0;
    let mut found_sep = false;
    while seg_end < slen && !found_sep
        invariant
            slen == date_str@.len(),
            seg_end <= slen,
            !found_sep ==> forall|k: int| 0 <= k < seg_end ==> !is_year_sep(date_str@[k]),
            found_sep ==> seg_end < slen && is_year_sep(date_str@[seg_end as int]) && forall|
                k: int,
            |
                0 <= k < seg_end ==> !is_year_sep(date_str@[k]),
        decreases slen - seg_end + (if found_sep {
            0int
        } else {
            1int
        }),
    {
        let c = date_str.get_char(seg_end);
        if c == ':' || c == '-' || c == 'T' || c == ' ' || c == '/' {
            found_sep = true;
        } else {
            seg_end = seg_end + 1;
        }
    }
    proof {
        if sep_index(date_str@) < seg_end {
            assert(!is_year_sep(date_str@[sep_index(date_str@)]));
        }
        if seg_end < sep_index(date_str@) {
            assert(!is_year_sep(date_str@[seg_end as int]));
        }
        assert(seg_end == sep_index(date_str@));
    }

    let ghost seg = year_seg(date_str@);
    let mut start: usize = 0;
    if seg_end > 0 && date_str.get_char(0) == '+' {
        start = 1;
    }
    let ghost body = year_body(date_str@);
    proof {
        assert(forall|k: int| 0 <= k < seg.len() ==> #[trigger] seg[k] == date_str@[k]);
        assert(body.len() == seg_end - start);
        assert(forall|k: int|
            0 <= k < body.len() ==> #[trigger] body[k] == date_str@[k + start]);
    }

    if seg_end == start {
        proof {
            assert(body.len() == 0);
        }
        return Option::None;
    }

    let mut value: u64 = 0;
    let mut too_big = false;
    let mut i: usize = start;
    while i < seg_end
        invariant
            slen == date_str@.len(),
            start <= i <= seg_end,
            seg_end <= slen,
            body == year_body(date_str@),
            body.len() == seg_end - start,
            forall|k: int| 0 <= k < body.len() ==> #[trigger] body[k] == date_str@[k + start],
            forall|k: int| 0 <= k < i - start ==> is_dec_digit(#[trigger] body[k]),
            !too_big ==> value == digits_value(body.take(i - start)) && value <= i32::MAX,
            too_big ==> digits_value(body.take(i - start)) > i32::MAX,
        decreases seg_end - i,
    {
        let c = date_str.get_char(i);
        if !('0' <= c && c <= '9') {
            proof {
                assert(body[i - start] == date_str@[i as int]);
                assert(!is_dec_digit(body[i - start]));
                assert(!(forall|k: int|
                    0 <= k < body.len() ==> is_dec_digit(#[trigger] body[k])));
                assert(spec_extract_year(date_str@) is None);
            }
            return Option::None;
        }
        let d: u64 = (c as u64) - ('0' as u64);
        proof {
            assert(body.take(i - start + 1).drop_last() =~= body.take(i - start));
            assert(body.take(i - start + 1).last() == body[i - start]);
        }
        if too_big {
            proof {
                let prev = digits_value(body.take(i - start));
                assert(prev * 10 >= prev) by (nonlinear_arith)
                    requires
                        prev > 0,
                ;
                assert(prev * 10 + (body[i - start] as int - '0' as int) > i32::MAX);
            }
        } else {
            let next = value * 10 + d;
            if next > 2147483647 {
                too_big = true;
            } else {
                value = next;
            }
        }
        i = i + 1;
    }
    proof {
        assert(body.take(seg_end - start) =~= body);
    }

    if too_big {
        return Option::None;
    }
    let year_u: u64 = value;
    if 1800 <= year_u && year_u <= 2100 {
        Option::Some(year_u as i32)
    } else {
        Option::None
    }
}

/// The special characters checked for in filenames.
pub open spec fn is_special_char(c: char) -> bool {
    c == '!' || c == '@' || c == '#' || c == '$' || c == '%' || c == '^' || c == '&' || c == '*'
        || c == '(' || c == ')' || c == '[' || c == ']' || c == '{' || c == '}' || c == '|'
        || c == ';' || c == '\'' || c == '"' || c == '<' || c == '>' || c == '?'
}

/// Whether an asset's file is larger than the large-file threshold.
pub open spec fn cond_large_file(a: AssetResponse) -> bool {
    match a.exif_info {
        Option::Some(e) => match e.file_size_in_byte {
            Option::Some(sz) => sz > LARGE_FILE_THRESHOLD,
            Option::None => false,
        },
        Option::None => false,
    }
}

/// Whether an asset's filename holds a special character.
pub open spec fn cond_special_filename(a: AssetResponse) -> bool {
    exists|k: int|
        0 <= k < a.original_file_name@.len() && is_special_char(
            #[trigger] a.original_file_name@[k],
        )
}

/// Whether an asset is a video.
pub open spec fn cond_video(a: AssetResponse) -> bool {
    a.asset_type == AssetType::Video
}

/// Whether an asset's filename names a HEIC or HEIF file.
pub open spec fn cond_heic(a: AssetResponse) -> bool {
    spec_ends_with(lower_of(a.original_file_name@), ".heic"@) || spec_ends_with(
        lower_of(a.original_file_name@),
        ".heif"@,
    )
}

/// Whether an asset's filename names a PNG file.
pub open spec fn cond_png(a: AssetResponse) -> bool {
    spec_ends_with(lower_of(a.original_file_name@), ".png"@)
}

/// Whether an asset's filename names a camera-raw file.
pub open spec fn cond_raw(a: AssetResponse) -> bool {
    ||| spec_ends_with(lower_of(a.original_file_name@), ".raw"@)
    ||| spec_ends_with(lower_of(a.original_file_name@), ".cr2"@)
    ||| spec_ends_with(lower_of(a.original_file_name@), ".cr3"@)
    ||| spec_ends_with(lower_of(a.original_file_name@), ".nef"@)
    ||| spec_ends_with(lower_of(a.original_file_name@), ".arw"@)
    ||| spec_ends_with(lower_of(a.original_file_name@), ".orf"@)
    ||| spec_ends_with(lower_of(a.original_file_name@), ".rw2"@)
    ||| spec_ends_with(lower_of(a.original_file_name@), ".dng"@)
    ||| spec_ends_with(lower_of(a.original_file_name@), ".raf"@)
    ||| spec_ends_with(lower_of(a.original_file_name@), ".pef"@)
}

/// Whether an asset's description holds non-ASCII text.
pub open spec fn cond_unicode_description(a: AssetResponse) -> bool {
    match a.exif_info {
        Option::Some(e) => match e.description {
            Option::Some(d) => !vstd::utf8::is_ascii_chars(d@),
            Option::None => false,
        },
        Option::None => false,
    }
}

/// Whether an asset's capture year reads as earlier than 1990.
pub open spec fn cond_old_date(a: AssetResponse) -> bool {
    match a.exif_info {
        Option::Some(e) => match e.date_time_original {
            Option::Some(dt) => match spec_extract_year(dt@) {
                Option::Some(y) => y < 1990,
                Option::None => false,
            },
            Option::None => false,
        },
        Option::None => false,
    }
}

/// Whether an asset's capture year reads as later than the given year.
pub open spec fn cond_future_date(a: AssetResponse, current_year: i32) -> bool {
    match a.exif_info {
        Option::Some(e) => match e.date_time_original {
            Option::Some(dt) => match spec_extract_year(dt@) {
                Option::Some(y) => y > current_year,
                Option::None => false,
            },
            Option::None => false,
        },
        Option::None => false,
    }
}

/// Whether a filename holds a special character.
fn has_special_char(s: &str) -> (r: bool)
    ensures
        r == exists|k: int| 0 <= k < s@.len() && is_special_char(#[trigger] s@[k]),
{
    let n = s.unicode_len();
    let mut i: usize = 0;
    while i < n
        invariant
            n == s@.len(),
            i <= n,
            forall|k: int| 0 <= k < i ==> !is_special_char(#[trigger] s@[k]),
        decreases n - i,
    {
        let c = s.get_char(i);
        if c == '!' || c == '@' || c == '#' || c == '$' || c == '%' || c == '^' || c == '&'
            || c == '*' || c == '(' || c == ')' || c == '[' || c == ']' || c == '{' || c == '}'
            || c == '|' || c == ';' || c == '\'' || c == '"' || c == '<' || c == '>' || c == '?' {
            return true;
        }
        i = i + 1;
    }
    false
}

/// Detect edge case scenarios, one match per asset that exhibits one: large
/// files, special filename characters, videos, HEIC, PNG, and RAW files,
/// non-ASCII descriptions, and very old or future capture dates.
/// Detect the large-file, special-filename, video, and HEIC scenarios one asset exhibits.
#[verifier::rlimit(100)]
fn detect_edge_file_flags(
    asset: &AssetResponse,
    matches: &mut Vec<ScenarioMatch>,
    dup_id: &str,
    current_year: i32,
)
    ensures
        final(matches)@.len() >= old(matches)@.len(),
        final(matches)@.take(old(matches)@.len() as int) == old(matches)@,
        forall|k: int|
            old(matches)@.len() <= k < final(matches)@.len() ==> (#[trigger] final(matches)@[k]).duplicate_id@
                == dup_id@,
        forall|k: int|
            old(matches)@.len() <= k < final(matches)@.len() ==> {
                let sc = (#[trigger] final(matches)@[k]).scenario;
                !sc.is_winner_scenario() && !sc.is_consolidation_scenario()
                    && !sc.is_conflict_scenario() && sc != TestScenario::X1SingleAssetGroup && sc
                    != TestScenario::X2LargeGroup
            },
        forall|k: int|
            old(matches)@.len() <= k < final(matches)@.len() ==> ((#[trigger] final(matches)@[k]).scenario == TestScenario::X3LargeFile || (#[trigger] final(matches)@[k]).scenario == TestScenario::X4SpecialCharsFilename || (#[trigger] final(matches)@[k]).scenario == TestScenario::X5Video || (#[trigger] final(matches)@[k]).scenario == TestScenario::X6Heic),
        has_scenario_from(final(matches)@, old(matches)@.len() as int, TestScenario::X3LargeFile)
            <==> cond_large_file(*asset),
        has_scenario_from(final(matches)@, old(matches)@.len() as int, TestScenario::X4SpecialCharsFilename)
            <==> cond_special_filename(*asset),
        has_scenario_from(final(matches)@, old(matches)@.len() as int, TestScenario::X5Video)
            <==> cond_video(*asset),
        has_scenario_from(final(matches)@, old(matches)@.len() as int, TestScenario::X6Heic)
            <==> cond_heic(*asset),
{
    let ghost m0 = matches@;
    let filename = &asset.original_file_name;
    let lowered = lowercase(filename.as_str());
    let is_large = match &asset.exif_info {
        Option::Some(e) => match &e.file_size_in_byte {
            Option::Some(sz) => *sz > LARGE_FILE_THRESHOLD,
            Option::None => false,
        },
        Option::None => false,
    };
    let is_special = has_special_char(filename.as_str());
    let is_video = match &asset.asset_type {
        AssetType::Video => true,
        AssetType::Image => false,
    };
    let is_heic = ends_with_str(lowered.as_str(), ".heic") || ends_with_str(
        lowered.as_str(),
        ".heif",
    );
    proof {
        assert(is_large == cond_large_file(*asset));
        assert(is_special == cond_special_filename(*asset));
        assert(is_video == cond_video(*asset));
        assert(is_heic == cond_heic(*asset));
    }

    if is_large {
        matches.push(
            ScenarioMatch {
                scenario: TestScenario::X3LargeFile,
                duplicate_id: dup_id.to_owned(),
                details: "File larger than 50MB".to_owned(),
            },
        );
    }
    if is_special {
        matches.push(
            ScenarioMatch {
                scenario: TestScenario::X4SpecialCharsFilename,
                duplicate_id: dup_id.to_owned(),
                details: "Special characters in filename".to_owned(),
            },
        );
    }
    if is_video {
        matches.push(
            ScenarioMatch {
                scenario: TestScenario::X5Video,
                duplicate_id: dup_id.to_owned(),
                details: "Video asset".to_owned(),
            },
        );
    }
    if is_heic {
        matches.push(
            ScenarioMatch {
                scenario: TestScenario::X6Heic,
                duplicate_id: dup_id.to_owned(),
                details: "HEIC file".to_owned(),
            },
        );
    }

    proof {
        assert(matches@.take(m0.len() as int) =~= m0);
        let c_is_large: int = if is_large { 1int } else { 0int };
        let c_is_special: int = if is_special { 1int } else { 0int };
        let c_is_video: int = if is_video { 1int } else { 0int };
        let c_is_heic: int = if is_heic { 1int } else { 0int };
        let p_is_large: int = m0.len() + 0int;
        let p_is_special: int = m0.len() + c_is_large;
        let p_is_video: int = m0.len() + c_is_large + c_is_special;
        let p_is_heic: int = m0.len() + c_is_large + c_is_special + c_is_video;
        assert(matches@.len() == m0.len() + c_is_large + c_is_special + c_is_video + c_is_heic);
        assert(has_scenario_from(matches@, m0.len() as int, TestScenario::X3LargeFile) <==> is_large) by {
            if is_large {
                assert(matches@[p_is_large].scenario == TestScenario::X3LargeFile);
            }
            if has_scenario_from(matches@, m0.len() as int, TestScenario::X3LargeFile) && !is_large {
                let k1 = choose|k: int|
                    m0.len() <= k < matches@.len() && (#[trigger] matches@[k]).scenario
                        == TestScenario::X3LargeFile;
                assert((k1 == p_is_large && is_large) || (k1 == p_is_special && is_special) || (k1 == p_is_video && is_video) || (k1 == p_is_heic && is_heic));
                assert(false);
            }
        }
        assert(has_scenario_from(matches@, m0.len() as int, TestScenario::X4SpecialCharsFilename) <==> is_special) by {
            if is_special {
                assert(matches@[p_is_special].scenario == TestScenario::X4SpecialCharsFilename);
            }
            if has_scenario_from(matches@, m0.len() as int, TestScenario::X4SpecialCharsFilename) && !is_special {
                let k1 = choose|k: int|
                    m0.len() <= k < matches@.len() && (#[trigger] matches@[k]).scenario
                        == TestScenario::X4SpecialCharsFilename;
                assert((k1 == p_is_large && is_large) || (k1 == p_is_special && is_special) || (k1 == p_is_video && is_video) || (k1 == p_is_heic && is_heic));
                assert(false);
            }
        }
        assert(has_scenario_from(matches@, m0.len() as int, TestScenario::X5Video) <==> is_video) by {
            if is_video {
                assert(matches@[p_is_video].scenario == TestScenario::X5Video);
            }
            if has_scenario_from(matches@, m0.len() as int, TestScenario::X5Video) && !is_video {
                let k1 = choose|k: int|
                    m0.len() <= k < matches@.len() && (#[trigger] matches@[k]).scenario
                        == TestScenario::X5Video;
                assert((k1 == p_is_large && is_large) || (k1 == p_is_special && is_special) || (k1 == p_is_video && is_video) || (k1 == p_is_heic && is_heic));
                assert(false);
            }
        }
        assert(has_scenario_from(matches@, m0.len() as int, TestScenario::X6Heic) <==> is_heic) by {
            if is_heic {
                assert(matches@[p_is_heic].scenario == TestScenario::X6Heic);
            }
            if has_scenario_from(matches@, m0.len() as int, TestScenario::X6Heic) && !is_heic {
                let k1 = choose|k: int|
                    m0.len() <= k < matches@.len() && (#[trigger] matches@[k]).scenario
                        == TestScenario::X6Heic;
                assert((k1 == p_is_large && is_large) || (k1 == p_is_special && is_special) || (k1 == p_is_video && is_video) || (k1 == p_is_heic && is_heic));
                assert(false);
            }
        }
    }
}

/// Detect the PNG, RAW, non-ASCII-description, and date scenarios one asset exhibits.
#[verifier::rlimit(100)]
fn detect_edge_format_flags(
    asset: &AssetResponse,
    matches: &mut Vec<ScenarioMatch>,
    dup_id: &str,
    current_year: i32,
)
    ensures
        final(matches)@.len() >= old(matches)@.len(),
        final(matches)@.take(old(matches)@.len() as int) == old(matches)@,
        forall|k: int|
            old(matches)@.len() <= k < final(matches)@.len() ==> (#[trigger] final(matches)@[k]).duplicate_id@
                == dup_id@,
        forall|k: int|
            old(matches)@.len() <= k < final(matches)@.len() ==> {
                let sc = (#[trigger] final(matches)@[k]).scenario;
                !sc.is_winner_scenario() && !sc.is_consolidation_scenario()
                    && !sc.is_conflict_scenario() && sc != TestScenario::X1SingleAssetGroup && sc
                    != TestScenario::X2LargeGroup
            },
        forall|k: int|
            old(matches)@.len() <= k < final(matches)@.len() ==> ((#[trigger] final(matches)@[k]).scenario == TestScenario::X7Png || (#[trigger] final(matches)@[k]).scenario == TestScenario::X8Raw || (#[trigger] final(matches)@[k]).scenario == TestScenario::X9UnicodeDescription || (#[trigger] final(matches)@[k]).scenario == TestScenario::X10VeryOldDate || (#[trigger] final(matches)@[k]).scenario == TestScenario::X11FutureDate),
        has_scenario_from(final(matches)@, old(matches)@.len() as int, TestScenario::X7Png)
            <==> cond_png(*asset),
        has_scenario_from(final(matches)@, old(matches)@.len() as int, TestScenario::X8Raw)
            <==> cond_raw(*asset),
        has_scenario_from(final(matches)@, old(matches)@.len() as int, TestScenario::X9UnicodeDescription)
            <==> cond_unicode_description(*asset),
        has_scenario_from(final(matches)@, old(matches)@.len() as int, TestScenario::X10VeryOldDate)
            <==> cond_old_date(*asset),
        has_scenario_from(final(matches)@, old(matches)@.len() as int, TestScenario::X11FutureDate)
            <==> cond_future_date(*asset, current_year),
{
    let ghost m0 = matches@;
    let filename = &asset.original_file_name;
    let lowered = lowercase(filename.as_str());
    let is_png = ends_with_str(lowered.as_str(), ".png");
    let is_raw = ends_with_str(lowered.as_str(), ".raw") || ends_with_str(lowered.as_str(), ".cr2")
        || ends_with_str(lowered.as_str(), ".cr3") || ends_with_str(lowered.as_str(), ".nef")
        || ends_with_str(lowered.as_str(), ".arw") || ends_with_str(lowered.as_str(), ".orf")
        || ends_with_str(lowered.as_str(), ".rw2") || ends_with_str(lowered.as_str(), ".dng")
        || ends_with_str(lowered.as_str(), ".raf") || ends_with_str(lowered.as_str(), ".pef");
    let is_unicode_desc = match &asset.exif_info {
        Option::Some(e) => match &e.description {
            Option::Some(d) => !d.as_str().is_ascii(),
            Option::None => false,
        },
        Option::None => false,
    };
    let year = match &asset.exif_info {
        Option::Some(e) => match &e.date_time_original {
            Option::Some(dt) => extract_year(dt.as_str()),
            Option::None => Option::None,
        },
        Option::None => Option::None,
    };
    let is_old = match year {
        Option::Some(y) => y < 1990,
        Option::None => false,
    };
    let is_future = match year {
        Option::Some(y) => y > current_year,
        Option::None => false,
    };
    proof {
        assert(is_png == cond_png(*asset));
        assert(is_raw == cond_raw(*asset));
        assert(is_unicode_desc == cond_unicode_description(*asset));
        assert(is_old == cond_old_date(*asset));
        assert(is_future == cond_future_date(*asset, current_year));
    }

    if is_png {
        matches.push(
            ScenarioMatch {
                scenario: TestScenario::X7Png,
                duplicate_id: dup_id.to_owned(),
                details: "PNG file".to_owned(),
            },
        );
    }
    if is_raw {
        matches.push(
            ScenarioMatch {
                scenario: TestScenario::X8Raw,
                duplicate_id: dup_id.to_owned(),
                details: "RAW file".to_owned(),
            },
        );
    }
    if is_unicode_desc {
        matches.push(
            ScenarioMatch {
                scenario: TestScenario::X9UnicodeDescription,
                duplicate_id: dup_id.to_owned(),
                details: "Non-ASCII description".to_owned(),
            },
        );
    }
    if is_old {
        matches.push(
            ScenarioMatch {
                scenario: TestScenario::X10VeryOldDate,
                duplicate_id: dup_id.to_owned(),
                details: "Capture date before 1990".to_owned(),
            },
        );
    }
    if is_future {
        matches.push(
            ScenarioMatch {
                scenario: TestScenario::X11FutureDate,
                duplicate_id: dup_id.to_owned(),
                details: "Capture date in the future".to_owned(),
            },
        );
    }

    proof {
        assert(matches@.take(m0.len() as int) =~= m0);
        let c_is_png: int = if is_png { 1int } else { 0int };
        let c_is_raw: int = if is_raw { 1int } else { 0int };
        let c_is_unicode_desc: int = if is_unicode_desc { 1int } else { 0int };
        let c_is_old: int = if is_old { 1int } else { 0int };
        let c_is_future: int = if is_future { 1int } else { 0int };
        let p_is_png: int = m0.len() + 0int;
        let p_is_raw: int = m0.len() + c_is_png;
        let p_is_unicode_desc: int = m0.len() + c_is_png + c_is_raw;
        let p_is_old: int = m0.len() + c_is_png + c_is_raw + c_is_unicode_desc;
        let p_is_future: int = m0.len() + c_is_png + c_is_raw + c_is_unicode_desc + c_is_old;
        assert(matches@.len() == m0.len() + c_is_png + c_is_raw + c_is_unicode_desc + c_is_old + c_is_future);
        assert(has_scenario_from(matches@, m0.len() as int, TestScenario::X7Png) <==> is_png) by {
            if is_png {
                assert(matches@[p_is_png].scenario == TestScenario::X7Png);
            }
            if has_scenario_from(matches@, m0.len() as int, TestScenario::X7Png) && !is_png {
                let k1 = choose|k: int|
                    m0.len() <= k < matches@.len() && (#[trigger] matches@[k]).scenario
                        == TestScenario::X7Png;
                assert((k1 == p_is_png && is_png) || (k1 == p_is_raw && is_raw) || (k1 == p_is_unicode_desc && is_unicode_desc) || (k1 == p_is_old && is_old) || (k1 == p_is_future && is_future));
                assert(false);
            }
        }
        assert(has_scenario_from(matches@, m0.len() as int, TestScenario::X8Raw) <==> is_raw) by {
            if is_raw {
                assert(matches@[p_is_raw].scenario == TestScenario::X8Raw);
            }
            if has_scenario_from(matches@, m0.len() as int, TestScenario::X8Raw) && !is_raw {
                let k1 = choose|k: int|
                    m0.len() <= k < matches@.len() && (#[trigger] matches@[k]).scenario
                        == TestScenario::X8Raw;
                assert((k1 == p_is_png && is_png) || (k1 == p_is_raw && is_raw) || (k1 == p_is_unicode_desc && is_unicode_desc) || (k1 == p_is_old && is_old) || (k1 == p_is_future && is_future));
                assert(false);
            }
        }
        assert(has_scenario_from(matches@, m0.len() as int, TestScenario::X9UnicodeDescription) <==> is_unicode_desc) by {
            if is_unicode_desc {
                assert(matches@[p_is_unicode_desc].scenario == TestScenario::X9UnicodeDescription);
            }
            if has_scenario_from(matches@, m0.len() as int, TestScenario::X9UnicodeDescription) && !is_unicode_desc {
                let k1 = choose|k: int|
                    m0.len() <= k < matches@.len() && (#[trigger] matches@[k]).scenario
                        == TestScenario::X9UnicodeDescription;
                assert((k1 == p_is_png && is_png) || (k1 == p_is_raw && is_raw) || (k1 == p_is_unicode_desc && is_unicode_desc) || (k1 == p_is_old && is_old) || (k1 == p_is_future && is_future));
                assert(false);
            }
        }
        assert(has_scenario_from(matches@, m0.len() as int, TestScenario::X10VeryOldDate) <==> is_old) by {
            if is_old {
                assert(matches@[p_is_old].scenario == TestScenario::X10VeryOldDate);
            }
            if has_scenario_from(matches@, m0.len() as int, TestScenario::X10VeryOldDate) && !is_old {
                let k1 = choose|k: int|
                    m0.len() <= k < matches@.len() && (#[trigger] matches@[k]).scenario
                        == TestScenario::X10VeryOldDate;
                assert((k1 == p_is_png && is_png) || (k1 == p_is_raw && is_raw) || (k1 == p_is_unicode_desc && is_unicode_desc) || (k1 == p_is_old && is_old) || (k1 == p_is_future && is_future));
                assert(false);
            }
        }
        assert(has_scenario_from(matches@, m0.len() as int, TestScenario::X11FutureDate) <==> is_future) by {
            if is_future {
                assert(matches@[p_is_future].scenario == TestScenario::X11FutureDate);
            }
            if has_scenario_from(matches@, m0.len() as int, TestScenario::X11FutureDate) && !is_future {
                let k1 = choose|k: int|
                    m0.len() <= k < matches@.len() && (#[trigger] matches@[k]).scenario
                        == TestScenario::X11FutureDate;
                assert((k1 == p_is_png && is_png) || (k1 == p_is_raw && is_raw) || (k1 == p_is_unicode_desc && is_unicode_desc) || (k1 == p_is_old && is_old) || (k1 == p_is_future && is_future));
                assert(false);
            }
        }
    }
}

/// Detect edge case scenarios, one match per asset that exhibits one: large
/// files, special filename characters, videos, HEIC, PNG, and RAW files,
/// non-ASCII descriptions, and very old or future capture dates.
#[verifier::rlimit(100)]
pub fn detect_edge_case_scenarios(
    group: &DuplicateGroup,
    matches: &mut Vec<ScenarioMatch>,
    dup_id: &str,
    current_year: i32,
)
    ensures
        final(matches)@.len() >= old(matches)@.len(),
        final(matches)@.take(old(matches)@.len() as int) == old(matches)@,
        forall|k: int|
            old(matches)@.len() <= k < final(matches)@.len() ==> (#[trigger] final(matches)@[k]).duplicate_id@
                == dup_id@,
        forall|k: int|
            old(matches)@.len() <= k < final(matches)@.len() ==> {
                let sc = (#[trigger] final(matches)@[k]).scenario;
                !sc.is_winner_scenario() && !sc.is_consolidation_scenario()
                    && !sc.is_conflict_scenario() && sc != TestScenario::X1SingleAssetGroup && sc
                    != TestScenario::X2LargeGroup
            },
        has_scenario_from(final(matches)@, old(matches)@.len() as int, TestScenario::X3LargeFile)
            <==> exists|i: int|
            0 <= i < group.assets@.len() && cond_large_file(#[trigger] group.assets@[i]),
        has_scenario_from(final(matches)@, old(matches)@.len() as int, TestScenario::X4SpecialCharsFilename)
            <==> exists|i: int|
            0 <= i < group.assets@.len() && cond_special_filename(#[trigger] group.assets@[i]),
        has_scenario_from(final(matches)@, old(matches)@.len() as int, TestScenario::X5Video)
            <==> exists|i: int|
            0 <= i < group.assets@.len() && cond_video(#[trigger] group.assets@[i]),
        has_scenario_from(final(matches)@, old(matches)@.len() as int, TestScenario::X6Heic)
            <==> exists|i: int|
            0 <= i < group.assets@.len() && cond_heic(#[trigger] group.assets@[i]),
        has_scenario_from(final(matches)@, old(matches)@.len() as int, TestScenario::X7Png)
            <==> exists|i: int|
            0 <= i < group.assets@.len() && cond_png(#[trigger] group.assets@[i]),
        has_scenario_from(final(matches)@, old(matches)@.len() as int, TestScenario::X8Raw)
            <==> exists|i: int|
            0 <= i < group.assets@.len() && cond_raw(#[trigger] group.assets@[i]),
        has_scenario_from(final(matches)@, old(matches)@.len() as int, TestScenario::X9UnicodeDescription)
            <==> exists|i: int|
            0 <= i < group.assets@.len() && cond_unicode_description(#[trigger] group.assets@[i]),
        has_scenario_from(final(matches)@, old(matches)@.len() as int, TestScenario::X10VeryOldDate)
            <==> exists|i: int|
            0 <= i < group.assets@.len() && cond_old_date(#[trigger] group.assets@[i]),
        has_scenario_from(final(matches)@, old(matches)@.len() as int, TestScenario::X11FutureDate)
            <==> exists|i: int|
            0 <= i < group.assets@.len() && cond_future_date(#[trigger] group.assets@[i], current_year),
{
    let ghost base = old(matches)@.len() as int;
    let n = group.assets.len();
    let mut a: usize = 0;
    while a < n
        invariant
            n == group.assets@.len(),
            base <= matches@.len(),
            matches@.take(base) == old(matches)@,
            base == old(matches)@.len(),
            a <= n,
            forall|k: int|
                base <= k < matches@.len() ==> (#[trigger] matches@[k]).duplicate_id@ == dup_id@,
            forall|k: int|
                base <= k < matches@.len() ==> {
                    let sc = (#[trigger] matches@[k]).scenario;
                !sc.is_winner_scenario() && !sc.is_consolidation_scenario()
                    && !sc.is_conflict_scenario() && sc != TestScenario::X1SingleAssetGroup && sc
                    != TestScenario::X2LargeGroup
                },
            has_scenario_from(matches@, base, TestScenario::X3LargeFile) <==> exists|i2: int|
                0 <= i2 < a && cond_large_file(#[trigger] group.assets@[i2]),
            has_scenario_from(matches@, base, TestScenario::X4SpecialCharsFilename) <==> exists|i2: int|
                0 <= i2 < a && cond_special_filename(#[trigger] group.assets@[i2]),
            has_scenario_from(matches@, base, TestScenario::X5Video) <==> exists|i2: int|
                0 <= i2 < a && cond_video(#[trigger] group.assets@[i2]),
            has_scenario_from(matches@, base, TestScenario::X6Heic) <==> exists|i2: int|
                0 <= i2 < a && cond_heic(#[trigger] group.assets@[i2]),
            has_scenario_from(matches@, base, TestScenario::X7Png) <==> exists|i2: int|
                0 <= i2 < a && cond_png(#[trigger] group.assets@[i2]),
            has_scenario_from(matches@, base, TestScenario::X8Raw) <==> exists|i2: int|
                0 <= i2 < a && cond_raw(#[trigger] group.assets@[i2]),
            has_scenario_from(matches@, base, TestScenario::X9UnicodeDescription) <==> exists|i2: int|
                0 <= i2 < a && cond_unicode_description(#[trigger] group.assets@[i2]),
            has_scenario_from(matches@, base, TestScenario::X10VeryOldDate) <==> exists|i2: int|
                0 <= i2 < a && cond_old_date(#[trigger] group.assets@[i2]),
            has_scenario_from(matches@, base, TestScenario::X11FutureDate) <==> exists|i2: int|
                0 <= i2 < a && cond_future_date(#[trigger] group.assets@[i2], current_year),
        decreases n - a,
    {
        let ghost m0 = matches@;
        detect_edge_file_flags(&group.assets[a], matches, dup_id, current_year);
        let ghost m1 = matches@;
        detect_edge_format_flags(&group.assets[a], matches, dup_id, current_year);
        proof {
            assert(matches@.take(m1.len() as int) == m1);
            assert(m1.take(m0.len() as int) == m0);
            assert(matches@.take(m0.len() as int) =~= m0);
            assert(matches@.take(base) =~= m0.take(base));
            assert forall|k: int| base <= k < matches@.len() implies (#[trigger] matches@[k]).duplicate_id@
                == dup_id@ && {
                let sc = matches@[k].scenario;
                !sc.is_winner_scenario() && !sc.is_consolidation_scenario()
                    && !sc.is_conflict_scenario() && sc != TestScenario::X1SingleAssetGroup && sc
                    != TestScenario::X2LargeGroup
            } by {
                if k < m0.len() {
                    assert(matches@[k] == m0[k]);
                } else if k < m1.len() {
                    assert(matches@[k] == m1[k]);
                }
            }
            assert(has_scenario_from(matches@, base, TestScenario::X3LargeFile)
                <==> exists|i2: int|
                0 <= i2 < a + 1 && cond_large_file(#[trigger] group.assets@[i2])) by {
                if has_scenario_from(m0, base, TestScenario::X3LargeFile) {
                    let k0 = choose|k: int|
                        base <= k < m0.len() && (#[trigger] m0[k]).scenario == TestScenario::X3LargeFile;
                    assert(matches@[k0] == m0[k0]);
                }
                if has_scenario_from(m1, m0.len() as int, TestScenario::X3LargeFile) {
                    let k0 = choose|k: int|
                        m0.len() <= k < m1.len() && (#[trigger] m1[k]).scenario
                            == TestScenario::X3LargeFile;
                    assert(matches@[k0] == m1[k0]);
                }
                if has_scenario_from(matches@, m1.len() as int, TestScenario::X3LargeFile) {
                }
                if has_scenario_from(matches@, base, TestScenario::X3LargeFile)
                    && !has_scenario_from(m0, base, TestScenario::X3LargeFile)
                    && !has_scenario_from(m1, m0.len() as int, TestScenario::X3LargeFile)
                    && !has_scenario_from(matches@, m1.len() as int, TestScenario::X3LargeFile) {
                    let k1 = choose|k: int|
                        base <= k < matches@.len() && (#[trigger] matches@[k]).scenario
                            == TestScenario::X3LargeFile;
                    if k1 < m0.len() {
                        assert(m0[k1] == matches@[k1]);
                        assert(false);
                    } else if k1 < m1.len() {
                        assert(m1[k1] == matches@[k1]);
                        assert(false);
                    } else {
                        assert(false);
                    }
                }
            }
            assert(has_scenario_from(matches@, base, TestScenario::X4SpecialCharsFilename)
                <==> exists|i2: int|
                0 <= i2 < a + 1 && cond_special_filename(#[trigger] group.assets@[i2])) by {
                if has_scenario_from(m0, base, TestScenario::X4SpecialCharsFilename) {
                    let k0 = choose|k: int|
                        base <= k < m0.len() && (#[trigger] m0[k]).scenario == TestScenario::X4SpecialCharsFilename;
                    assert(matches@[k0] == m0[k0]);
                }
                if has_scenario_from(m1, m0.len() as int, TestScenario::X4SpecialCharsFilename) {
                    let k0 = choose|k: int|
                        m0.len() <= k < m1.len() && (#[trigger] m1[k]).scenario
                            == TestScenario::X4SpecialCharsFilename;
                    assert(matches@[k0] == m1[k0]);
                }
                if has_scenario_from(matches@, m1.len() as int, TestScenario::X4SpecialCharsFilename) {
                }
                if has_scenario_from(matches@, base, TestScenario::X4SpecialCharsFilename)
                    && !has_scenario_from(m0, base, TestScenario::X4SpecialCharsFilename)
                    && !has_scenario_from(m1, m0.len() as int, TestScenario::X4SpecialCharsFilename)
                    && !has_scenario_from(matches@, m1.len() as int, TestScenario::X4SpecialCharsFilename) {
                    let k1 = choose|k: int|
                        base <= k < matches@.len() && (#[trigger] matches@[k]).scenario
                            == TestScenario::X4SpecialCharsFilename;
                    if k1 < m0.len() {
                        assert(m0[k1] == matches@[k1]);
                        assert(false);
                    } else if k1 < m1.len() {
                        assert(m1[k1] == matches@[k1]);
                        assert(false);
                    } else {
                        assert(false);
                    }
                }
            }
            assert(has_scenario_from(matches@, base, TestScenario::X5Video)
                <==> exists|i2: int|
                0 <= i2 < a + 1 && cond_video(#[trigger] group.assets@[i2])) by {
                if has_scenario_from(m0, base, TestScenario::X5Video) {
                    let k0 = choose|k: int|
                        base <= k < m0.len() && (#[trigger] m0[k]).scenario == TestScenario::X5Video;
                    assert(matches@[k0] == m0[k0]);
                }
                if has_scenario_from(m1, m0.len() as int, TestScenario::X5Video) {
                    let k0 = choose|k: int|
                        m0.len() <= k < m1.len() && (#[trigger] m1[k]).scenario
                            == TestScenario::X5Video;
                    assert(matches@[k0] == m1[k0]);
                }
                if has_scenario_from(matches@, m1.len() as int, TestScenario::X5Video) {
                }
                if has_scenario_from(matches@, base, TestScenario::X5Video)
                    && !has_scenario_from(m0, base, TestScenario::X5Video)
                    && !has_scenario_from(m1, m0.len() as int, TestScenario::X5Video)
                    && !has_scenario_from(matches@, m1.len() as int, TestScenario::X5Video) {
                    let k1 = choose|k: int|
                        base <= k < matches@.len() && (#[trigger] matches@[k]).scenario
                            == TestScenario::X5Video;
                    if k1 < m0.len() {
                        assert(m0[k1] == matches@[k1]);
                        assert(false);
                    } else if k1 < m1.len() {
                        assert(m1[k1] == matches@[k1]);
                        assert(false);
                    } else {
                        assert(false);
                    }
                }
            }
            assert(has_scenario_from(matches@, base, TestScenario::X6Heic)
                <==> exists|i2: int|
                0 <= i2 < a + 1 && cond_heic(#[trigger] group.assets@[i2])) by {
                if has_scenario_from(m0, base, TestScenario::X6Heic) {
                    let k0 = choose|k: int|
                        base <= k < m0.len() && (#[trigger] m0[k]).scenario == TestScenario::X6Heic;
                    assert(matches@[k0] == m0[k0]);
                }
                if has_scenario_from(m1, m0.len() as int, TestScenario::X6Heic) {
                    let k0 = choose|k: int|
                        m0.len() <= k < m1.len() && (#[trigger] m1[k]).scenario
                            == TestScenario::X6Heic;
                    assert(matches@[k0] == m1[k0]);
                }
                if has_scenario_from(matches@, m1.len() as int, TestScenario::X6Heic) {
                }
                if has_scenario_from(matches@, base, TestScenario::X6Heic)
                    && !has_scenario_from(m0, base, TestScenario::X6Heic)
                    && !has_scenario_from(m1, m0.len() as int, TestScenario::X6Heic)
                    && !has_scenario_from(matches@, m1.len() as int, TestScenario::X6Heic) {
                    let k1 = choose|k: int|
                        base <= k < matches@.len() && (#[trigger] matches@[k]).scenario
                            == TestScenario::X6Heic;
                    if k1 < m0.len() {
                        assert(m0[k1] == matches@[k1]);
                        assert(false);
                    } else if k1 < m1.len() {
                        assert(m1[k1] == matches@[k1]);
                        assert(false);
                    } else {
                        assert(false);
                    }
                }
            }
            assert(has_scenario_from(matches@, base, TestScenario::X7Png)
                <==> exists|i2: int|
                0 <= i2 < a + 1 && cond_png(#[trigger] group.assets@[i2])) by {
                if has_scenario_from(m0, base, TestScenario::X7Png) {
                    let k0 = choose|k: int|
                        base <= k < m0.len() && (#[trigger] m0[k]).scenario == TestScenario::X7Png;
                    assert(matches@[k0] == m0[k0]);
                }
                if has_scenario_from(m1, m0.len() as int, TestScenario::X7Png) {
                    let k0 = choose|k: int|
                        m0.len() <= k < m1.len() && (#[trigger] m1[k]).scenario
                            == TestScenario::X7Png;
                    assert(matches@[k0] == m1[k0]);
                }
                if has_scenario_from(matches@, m1.len() as int, TestScenario::X7Png) {
                }
                if has_scenario_from(matches@, base, TestScenario::X7Png)
                    && !has_scenario_from(m0, base, TestScenario::X7Png)
                    && !has_scenario_from(m1, m0.len() as int, TestScenario::X7Png)
                    && !has_scenario_from(matches@, m1.len() as int, TestScenario::X7Png) {
                    let k1 = choose|k: int|
                        base <= k < matches@.len() && (#[trigger] matches@[k]).scenario
                            == TestScenario::X7Png;
                    if k1 < m0.len() {
                        assert(m0[k1] == matches@[k1]);
                        assert(false);
                    } else if k1 < m1.len() {
                        assert(m1[k1] == matches@[k1]);
                        assert(false);
                    } else {
                        assert(false);
                    }
                }
            }
            assert(has_scenario_from(matches@, base, TestScenario::X8Raw)
                <==> exists|i2: int|
                0 <= i2 < a + 1 && cond_raw(#[trigger] group.assets@[i2])) by {
                if has_scenario_from(m0, base, TestScenario::X8Raw) {
                    let k0 = choose|k: int|
                        base <= k < m0.len() && (#[trigger] m0[k]).scenario == TestScenario::X8Raw;
                    assert(matches@[k0] == m0[k0]);
                }
                if has_scenario_from(m1, m0.len() as int, TestScenario::X8Raw) {
                    let k0 = choose|k: int|
                        m0.len() <= k < m1.len() && (#[trigger] m1[k]).scenario
                            == TestScenario::X8Raw;
                    assert(matches@[k0] == m1[k0]);
                }
                if has_scenario_from(matches@, m1.len() as int, TestScenario::X8Raw) {
                }
                if has_scenario_from(matches@, base, TestScenario::X8Raw)
                    && !has_scenario_from(m0, base, TestScenario::X8Raw)
                    && !has_scenario_from(m1, m0.len() as int, TestScenario::X8Raw)
                    && !has_scenario_from(matches@, m1.len() as int, TestScenario::X8Raw) {
                    let k1 = choose|k: int|
                        base <= k < matches@.len() && (#[trigger] matches@[k]).scenario
                            == TestScenario::X8Raw;
                    if k1 < m0.len() {
                        assert(m0[k1] == matches@[k1]);
                        assert(false);
                    } else if k1 < m1.len() {
                        assert(m1[k1] == matches@[k1]);
                        assert(false);
                    } else {
                        assert(false);
                    }
                }
            }
            assert(has_scenario_from(matches@, base, TestScenario::X9UnicodeDescription)
                <==> exists|i2: int|
                0 <= i2 < a + 1 && cond_unicode_description(#[trigger] group.assets@[i2])) by {
                if has_scenario_from(m0, base, TestScenario::X9UnicodeDescription) {
                    let k0 = choose|k: int|
                        base <= k < m0.len() && (#[trigger] m0[k]).scenario == TestScenario::X9UnicodeDescription;
                    assert(matches@[k0] == m0[k0]);
                }
                if has_scenario_from(m1, m0.len() as int, TestScenario::X9UnicodeDescription) {
                    let k0 = choose|k: int|
                        m0.len() <= k < m1.len() && (#[trigger] m1[k]).scenario
                            == TestScenario::X9UnicodeDescription;
                    assert(matches@[k0] == m1[k0]);
                }
                if has_scenario_from(matches@, m1.len() as int, TestScenario::X9UnicodeDescription) {
                }
                if has_scenario_from(matches@, base, TestScenario::X9UnicodeDescription)
                    && !has_scenario_from(m0, base, TestScenario::X9UnicodeDescription)
                    && !has_scenario_from(m1, m0.len() as int, TestScenario::X9UnicodeDescription)
                    && !has_scenario_from(matches@, m1.len() as int, TestScenario::X9UnicodeDescription) {
                    let k1 = choose|k: int|
                        base <= k < matches@.len() && (#[trigger] matches@[k]).scenario
                            == TestScenario::X9UnicodeDescription;
                    if k1 < m0.len() {
                        assert(m0[k1] == matches@[k1]);
                        assert(false);
                    } else if k1 < m1.len() {
                        assert(m1[k1] == matches@[k1]);
                        assert(false);
                    } else {
                        assert(false);
                    }
                }
            }
            assert(has_scenario_from(matches@, base, TestScenario::X10VeryOldDate)
                <==> exists|i2: int|
                0 <= i2 < a + 1 && cond_old_date(#[trigger] group.assets@[i2])) by {
                if has_scenario_from(m0, base, TestScenario::X10VeryOldDate) {
                    let k0 = choose|k: int|
                        base <= k < m0.len() && (#[trigger] m0[k]).scenario == TestScenario::X10VeryOldDate;
                    assert(matches@[k0] == m0[k0]);
                }
                if has_scenario_from(m1, m0.len() as int, TestScenario::X10VeryOldDate) {
                    let k0 = choose|k: int|
                        m0.len() <= k < m1.len() && (#[trigger] m1[k]).scenario
                            == TestScenario::X10VeryOldDate;
                    assert(matches@[k0] == m1[k0]);
                }
                if has_scenario_from(matches@, m1.len() as int, TestScenario::X10VeryOldDate) {
                }
                if has_scenario_from(matches@, base, TestScenario::X10VeryOldDate)
                    && !has_scenario_from(m0, base, TestScenario::X10VeryOldDate)
                    && !has_scenario_from(m1, m0.len() as int, TestScenario::X10VeryOldDate)
                    && !has_scenario_from(matches@, m1.len() as int, TestScenario::X10VeryOldDate) {
                    let k1 = choose|k: int|
                        base <= k < matches@.len() && (#[trigger] matches@[k]).scenario
                            == TestScenario::X10VeryOldDate;
                    if k1 < m0.len() {
                        assert(m0[k1] == matches@[k1]);
                        assert(false);
                    } else if k1 < m1.len() {
                        assert(m1[k1] == matches@[k1]);
                        assert(false);
                    } else {
                        assert(false);
                    }
                }
            }
            assert(has_scenario_from(matches@, base, TestScenario::X11FutureDate)
                <==> exists|i2: int|
                0 <= i2 < a + 1 && cond_future_date(#[trigger] group.assets@[i2], current_year)) by {
                if has_scenario_from(m0, base, TestScenario::X11FutureDate) {
                    let k0 = choose|k: int|
                        base <= k < m0.len() && (#[trigger] m0[k]).scenario == TestScenario::X11FutureDate;
                    assert(matches@[k0] == m0[k0]);
                }
                if has_scenario_from(m1, m0.len() as int, TestScenario::X11FutureDate) {
                    let k0 = choose|k: int|
                        m0.len() <= k < m1.len() && (#[trigger] m1[k]).scenario
                            == TestScenario::X11FutureDate;
                    assert(matches@[k0] == m1[k0]);
                }
                if has_scenario_from(matches@, m1.len() as int, TestScenario::X11FutureDate) {
                }
                if has_scenario_from(matches@, base, TestScenario::X11FutureDate)
                    && !has_scenario_from(m0, base, TestScenario::X11FutureDate)
                    && !has_scenario_from(m1, m0.len() as int, TestScenario::X11FutureDate)
                    && !has_scenario_from(matches@, m1.len() as int, TestScenario::X11FutureDate) {
                    let k1 = choose|k: int|
                        base <= k < matches@.len() && (#[trigger] matches@[k]).scenario
                            == TestScenario::X11FutureDate;
                    if k1 < m0.len() {
                        assert(m0[k1] == matches@[k1]);
                        assert(false);
                    } else if k1 < m1.len() {
                        assert(m1[k1] == matches@[k1]);
                        assert(false);
                    } else {
                        assert(false);
                    }
                }
            }
        }
        a = a + 1;
    }
    proof {
        assert(final(matches)@.take(old(matches)@.len() as int) =~= old(matches)@);
    }
}

/// The winner of a two-plus group already has GPS, capture time, and a
/// nonempty description.
pub open spec fn cond_c8(assets: Seq<AssetResponse>) -> bool {
    assets.len() >= 2 && crate::executor::winner_has_gps(assets[pix_winner_index(assets)])
        && crate::executor::winner_has_datetime(assets[pix_winner_index(assets)]) && desc_nonempty(
        assets[pix_winner_index(assets)],
    )
}

/// Whether some non-winner asset has GPS.
pub open spec fn some_loser_gps(assets: Seq<AssetResponse>) -> bool {
    exists|i: int|
        0 <= i < assets.len() && i != pix_winner_index(assets)
            && crate::executor::winner_has_gps(#[trigger] assets[i])
}

/// Whether some non-winner asset has a capture time.
pub open spec fn some_loser_datetime(assets: Seq<AssetResponse>) -> bool {
    exists|i: int|
        0 <= i < assets.len() && i != pix_winner_index(assets)
            && crate::executor::winner_has_datetime(#[trigger] assets[i])
}

/// Whether some non-winner asset has a nonempty description.
pub open spec fn some_loser_description(assets: Seq<AssetResponse>) -> bool {
    exists|i: int|
        0 <= i < assets.len() && i != pix_winner_index(assets) && desc_nonempty(
            #[trigger] assets[i],
        )
}

/// Whether some non-winner asset has GPS, a capture time, and a nonempty
/// description all at once.
pub open spec fn some_loser_all(assets: Seq<AssetResponse>) -> bool {
    exists|i: int|
        0 <= i < assets.len() && i != pix_winner_index(assets)
            && crate::executor::winner_has_gps(#[trigger] assets[i])
            && crate::executor::winner_has_datetime(assets[i]) && desc_nonempty(assets[i])
}

/// Membership at or after `lo` in an extended list splits into membership in
/// the prefix and membership in the appended region.
pub proof fn lemma_has_scenario_split(
    pre: Seq<ScenarioMatch>,
    post: Seq<ScenarioMatch>,
    lo: int,
    sc: TestScenario,
)
    requires
        post.len() >= pre.len(),
        post.take(pre.len() as int) == pre,
        0 <= lo <= pre.len(),
    ensures
        has_scenario_from(post, lo, sc) <==> (has_scenario_from(pre, lo, sc)
            || has_scenario_from(post, pre.len() as int, sc)),
{
    if has_scenario_from(post, lo, sc) {
        let k = choose|k: int| lo <= k < post.len() && (#[trigger] post[k]).scenario == sc;
        if k < pre.len() {
            assert(pre[k] == post.take(pre.len() as int)[k]);
            assert(pre[k] == post[k]);
        }
    }
    if has_scenario_from(pre, lo, sc) {
        let k = choose|k: int| lo <= k < pre.len() && (#[trigger] pre[k]).scenario == sc;
        assert(post[k] == post.take(pre.len() as int)[k]);
        assert(post[k] == pre[k]);
    }
}

/// Detect all matching test scenarios for a duplicate group, given the
/// current year for the future-date check: group size, dimension-based
/// winner selection, consolidation opportunities, metadata conflicts, and
/// edge cases, in that order.
#[verifier::rlimit(100)]
#[verifier::spinoff_prover]
pub fn detect_scenarios(group: &DuplicateGroup, current_year: i32) -> (r: Vec<ScenarioMatch>)
    ensures
        forall|k: int|
            0 <= k < r@.len() ==> (#[trigger] r@[k]).duplicate_id@ == group.duplicate_id@,
        has_scenario(r@, TestScenario::X1SingleAssetGroup) <==> (group.assets@.len() == 1),
        has_scenario(r@, TestScenario::W7ThreePlusDuplicates) <==> (group.assets@.len() >= 3),
        has_scenario(r@, TestScenario::X2LargeGroup) <==> (group.assets@.len() >= 10),
        has_scenario(r@, TestScenario::W6AllMissingDimensions) <==> ((dims_list(group.assets@).len() == 0 && group.assets@.len() > 1)),
        has_scenario(r@, TestScenario::W5OnlyOneHasDimensions) <==> ((dims_list(group.assets@).len() == 1 && group.assets@.len() >= 2)),
        has_scenario(r@, TestScenario::W4SomeMissingDimensions) <==> ((dims_list(group.assets@).len() > 1 && dims_list(group.assets@).len() < group.assets@.len())),
        has_scenario(r@, TestScenario::W3SameDimensionsSameSize) <==> ((dims_list(group.assets@).len() >= 2 && all_dims_same(dims_list(group.assets@)) && sizes_list(group.assets@).len() >= 2 && all_sizes_same(sizes_list(group.assets@)))),
        has_scenario(r@, TestScenario::W2SameDimensionsDifferentSize) <==> ((dims_list(group.assets@).len() >= 2 && all_dims_same(dims_list(group.assets@)) && sizes_list(group.assets@).len() >= 2 && !all_sizes_same(sizes_list(group.assets@)))),
        has_scenario(r@, TestScenario::W8SamePixelsDifferentAspect) <==> ((dims_list(group.assets@).len() >= 2 && !all_dims_same(dims_list(group.assets@)) && all_pixels_same(dims_list(group.assets@)))),
        has_scenario(r@, TestScenario::W1ClearDimensionWinner) <==> ((dims_list(group.assets@).len() >= 2 && !all_dims_same(dims_list(group.assets@)) && !all_pixels_same(dims_list(group.assets@)))),
        has_scenario(r@, TestScenario::C8WinnerHasEverything) <==> (cond_c8(group.assets@)),
        has_scenario(r@, TestScenario::C5BothHaveGps) <==> ((group.assets@.len() >= 2 && crate::executor::winner_has_gps(group.assets@[pix_winner_index(group.assets@)]) && some_loser_gps(group.assets@))),
        has_scenario(r@, TestScenario::C1WinnerLacksGpsLoserHas) <==> ((group.assets@.len() >= 2 && !crate::executor::winner_has_gps(group.assets@[pix_winner_index(group.assets@)]) && some_loser_gps(group.assets@))),
        has_scenario(r@, TestScenario::C2WinnerLacksDatetimeLoserHas) <==> ((group.assets@.len() >= 2 && !crate::executor::winner_has_datetime(group.assets@[pix_winner_index(group.assets@)]) && some_loser_datetime(group.assets@))),
        has_scenario(r@, TestScenario::C3WinnerLacksDescriptionLoserHas) <==> ((group.assets@.len() >= 2 && !desc_nonempty(group.assets@[pix_winner_index(group.assets@)]) && some_loser_description(group.assets@))),
        has_scenario(r@, TestScenario::C4WinnerLacksAllLoserHasAll) <==> ((group.assets@.len() >= 2 && !crate::executor::winner_has_gps(group.assets@[pix_winner_index(group.assets@)]) && !crate::executor::winner_has_datetime(group.assets@[pix_winner_index(group.assets@)]) && !desc_nonempty(group.assets@[pix_winner_index(group.assets@)]) && some_loser_all(group.assets@))),
        has_scenario(r@, TestScenario::C6MultipleLosersContribute) <==> ((group.assets@.len() >= 3 && distinct_contributors(group.assets@, pix_winner_index(group.assets@)))),
        has_scenario(r@, TestScenario::C7NoLoserHasNeeded) <==> ((group.assets@.len() >= 2 && (!crate::executor::winner_has_gps(group.assets@[pix_winner_index(group.assets@)]) || !crate::executor::winner_has_datetime(group.assets@[pix_winner_index(group.assets@)]) || !desc_nonempty(group.assets@[pix_winner_index(group.assets@)])) && !some_loser_gps(group.assets@) && !some_loser_datetime(group.assets@) && !some_loser_description(group.assets@))),
        has_scenario(r@, TestScenario::F7NoConflicts) <==> (conflict_count(group.assets@) == 0),
        has_scenario(r@, TestScenario::F1GpsConflict) <==> (spec_gps_conflicts(group.assets@)),
        has_scenario(r@, TestScenario::F3TimezoneConflict) <==> (spec_tz_conflicts(group.assets@)),
        has_scenario(r@, TestScenario::F4CameraConflict) <==> (spec_camera_conflicts(group.assets@)),
        has_scenario(r@, TestScenario::F5CaptureTimeConflict) <==> (spec_capture_conflicts(group.assets@)),
        has_scenario(r@, TestScenario::F6MultipleConflicts) <==> (conflict_count(group.assets@) >= 2),
        has_scenario(r@, TestScenario::F2GpsWithinThreshold) <==> ((conflict_count(group.assets@) > 0 && !spec_gps_conflicts(group.assets@) && gps_points(group.assets@).len() >= 2)),
        has_scenario(r@, TestScenario::X3LargeFile) <==> (exists|i: int| 0 <= i < group.assets@.len() && cond_large_file(#[trigger] group.assets@[i])),
        has_scenario(r@, TestScenario::X4SpecialCharsFilename) <==> (exists|i: int| 0 <= i < group.assets@.len() && cond_special_filename(#[trigger] group.assets@[i])),
        has_scenario(r@, TestScenario::X5Video) <==> (exists|i: int| 0 <= i < group.assets@.len() && cond_video(#[trigger] group.assets@[i])),
        has_scenario(r@, TestScenario::X6Heic) <==> (exists|i: int| 0 <= i < group.assets@.len() && cond_heic(#[trigger] group.assets@[i])),
        has_scenario(r@, TestScenario::X7Png) <==> (exists|i: int| 0 <= i < group.assets@.len() && cond_png(#[trigger] group.assets@[i])),
        has_scenario(r@, TestScenario::X8Raw) <==> (exists|i: int| 0 <= i < group.assets@.len() && cond_raw(#[trigger] group.assets@[i])),
        has_scenario(r@, TestScenario::X9UnicodeDescription) <==> (exists|i: int| 0 <= i < group.assets@.len() && cond_unicode_description(#[trigger] group.assets@[i])),
        has_scenario(r@, TestScenario::X10VeryOldDate) <==> (exists|i: int| 0 <= i < group.assets@.len() && cond_old_date(#[trigger] group.assets@[i])),
        has_scenario(r@, TestScenario::X11FutureDate) <==> (exists|i: int| 0 <= i < group.assets@.len() && cond_future_date(#[trigger] group.assets@[i], current_year)),
{
    let mut matches: Vec<ScenarioMatch> = Vec::new();

    detect_group_size_scenarios(group, &mut matches, group.duplicate_id.as_str());
    let ghost m1 = matches@;
    detect_dimension_scenarios(group, &mut matches, group.duplicate_id.as_str());
    let ghost m2 = matches@;
    detect_consolidation_scenarios(group, &mut matches, group.duplicate_id.as_str());
    let ghost m3 = matches@;
    detect_conflict_scenarios(group, &mut matches, group.duplicate_id.as_str());
    let ghost m4 = matches@;
    detect_edge_case_scenarios(group, &mut matches, group.duplicate_id.as_str(), current_year);

    proof {
        assert(matches@.take(m4.len() as int) == m4);
        assert(m4.take(m3.len() as int) == m3);
        assert(m3.take(m2.len() as int) == m2);
        assert(m2.take(m1.len() as int) == m1);
        assert(m4.take(m2.len() as int) =~= m2) by {
            assert(forall|k: int|
                0 <= k < m3.len() ==> #[trigger] m4[k] == m3[k]);
            assert(forall|k: int|
                0 <= k < m2.len() ==> #[trigger] m3[k] == m2[k]);
        }
        assert(m4.take(m1.len() as int) =~= m1) by {
            assert(forall|k: int|
                0 <= k < m3.len() ==> #[trigger] m4[k] == m3[k]);
            assert(forall|k: int|
                0 <= k < m2.len() ==> #[trigger] m3[k] == m2[k]);
            assert(forall|k: int|
                0 <= k < m1.len() ==> #[trigger] m2[k] == m1[k]);
        }
        assert(matches@.take(m3.len() as int) =~= m3) by {
            assert(forall|k: int|
                0 <= k < m4.len() ==> #[trigger] matches@[k] == m4[k]);
        }
        assert(matches@.take(m2.len() as int) =~= m2) by {
            assert(forall|k: int|
                0 <= k < m4.len() ==> #[trigger] matches@[k] == m4[k]);
            assert(forall|k: int|
                0 <= k < m2.len() ==> #[trigger] m4[k] == m2[k]);
        }
        assert(matches@.take(m1.len() as int) =~= m1) by {
            assert(forall|k: int|
                0 <= k < m4.len() ==> #[trigger] matches@[k] == m4[k]);
            assert(forall|k: int|
                0 <= k < m1.len() ==> #[trigger] m4[k] == m1[k]);
        }
        assert forall|k: int|
            0 <= k < matches@.len() implies (#[trigger] matches@[k]).duplicate_id@
            == group.duplicate_id@ by {
            if k < m1.len() {
                assert(matches@[k] == m1[k]);
            } else if k < m2.len() {
                assert(matches@[k] == m2[k]);
            } else if k < m3.len() {
                assert(matches@[k] == m3[k]);
            } else if k < m4.len() {
                assert(matches@[k] == m4[k]);
            }
        }
        lemma_has_scenario_split(m1, m2, 0, TestScenario::X1SingleAssetGroup);
        lemma_has_scenario_split(m2, m3, 0, TestScenario::X1SingleAssetGroup);
        lemma_has_scenario_split(m3, m4, 0, TestScenario::X1SingleAssetGroup);
        lemma_has_scenario_split(m4, matches@, 0, TestScenario::X1SingleAssetGroup);
        lemma_has_scenario_split(m1, m2, m1.len() as int, TestScenario::X1SingleAssetGroup);
        lemma_has_scenario_split(m2, m3, m2.len() as int, TestScenario::X1SingleAssetGroup);
        lemma_has_scenario_split(m3, m4, m3.len() as int, TestScenario::X1SingleAssetGroup);
        lemma_has_scenario_split(m1, m2, 0, TestScenario::W7ThreePlusDuplicates);
        lemma_has_scenario_split(m2, m3, 0, TestScenario::W7ThreePlusDuplicates);
        lemma_has_scenario_split(m3, m4, 0, TestScenario::W7ThreePlusDuplicates);
        lemma_has_scenario_split(m4, matches@, 0, TestScenario::W7ThreePlusDuplicates);
        lemma_has_scenario_split(m1, m2, m1.len() as int, TestScenario::W7ThreePlusDuplicates);
        lemma_has_scenario_split(m2, m3, m2.len() as int, TestScenario::W7ThreePlusDuplicates);
        lemma_has_scenario_split(m3, m4, m3.len() as int, TestScenario::W7ThreePlusDuplicates);
        lemma_has_scenario_split(m1, m2, 0, TestScenario::X2LargeGroup);
        lemma_has_scenario_split(m2, m3, 0, TestScenario::X2LargeGroup);
        lemma_has_scenario_split(m3, m4, 0, TestScenario::X2LargeGroup);
        lemma_has_scenario_split(m4, matches@, 0, TestScenario::X2LargeGroup);
        lemma_has_scenario_split(m1, m2, m1.len() as int, TestScenario::X2LargeGroup);
        lemma_has_scenario_split(m2, m3, m2.len() as int, TestScenario::X2LargeGroup);
        lemma_has_scenario_split(m3, m4, m3.len() as int, TestScenario::X2LargeGroup);
        lemma_has_scenario_split(m1, m2, 0, TestScenario::W6AllMissingDimensions);
        lemma_has_scenario_split(m2, m3, 0, TestScenario::W6AllMissingDimensions);
        lemma_has_scenario_split(m3, m4, 0, TestScenario::W6AllMissingDimensions);
        lemma_has_scenario_split(m4, matches@, 0, TestScenario::W6AllMissingDimensions);
        lemma_has_scenario_split(m1, m2, m1.len() as int, TestScenario::W6AllMissingDimensions);
        lemma_has_scenario_split(m2, m3, m2.len() as int, TestScenario::W6AllMissingDimensions);
        lemma_has_scenario_split(m3, m4, m3.len() as int, TestScenario::W6AllMissingDimensions);
        lemma_has_scenario_split(m1, m2, 0, TestScenario::W5OnlyOneHasDimensions);
        lemma_has_scenario_split(m2, m3, 0, TestScenario::W5OnlyOneHasDimensions);
        lemma_has_scenario_split(m3, m4, 0, TestScenario::W5OnlyOneHasDimensions);
        lemma_has_scenario_split(m4, matches@, 0, TestScenario::W5OnlyOneHasDimensions);
        lemma_has_scenario_split(m1, m2, m1.len() as int, TestScenario::W5OnlyOneHasDimensions);
        lemma_has_scenario_split(m2, m3, m2.len() as int, TestScenario::W5OnlyOneHasDimensions);
        lemma_has_scenario_split(m3, m4, m3.len() as int, TestScenario::W5OnlyOneHasDimensions);
        lemma_has_scenario_split(m1, m2, 0, TestScenario::W4SomeMissingDimensions);
        lemma_has_scenario_split(m2, m3, 0, TestScenario::W4SomeMissingDimensions);
        lemma_has_scenario_split(m3, m4, 0, TestScenario::W4SomeMissingDimensions);
        lemma_has_scenario_split(m4, matches@, 0, TestScenario::W4SomeMissingDimensions);
        lemma_has_scenario_split(m1, m2, m1.len() as int, TestScenario::W4SomeMissingDimensions);
        lemma_has_scenario_split(m2, m3, m2.len() as int, TestScenario::W4SomeMissingDimensions);
        lemma_has_scenario_split(m3, m4, m3.len() as int, TestScenario::W4SomeMissingDimensions);
        lemma_has_scenario_split(m1, m2, 0, TestScenario::W3SameDimensionsSameSize);
        lemma_has_scenario_split(m2, m3, 0, TestScenario::W3SameDimensionsSameSize);
        lemma_has_scenario_split(m3, m4, 0, TestScenario::W3SameDimensionsSameSize);
        lemma_has_scenario_split(m4, matches@, 0, TestScenario::W3SameDimensionsSameSize);
        lemma_has_scenario_split(m1, m2, m1.len() as int, TestScenario::W3SameDimensionsSameSize);
        lemma_has_scenario_split(m2, m3, m2.len() as int, TestScenario::W3SameDimensionsSameSize);
        lemma_has_scenario_split(m3, m4, m3.len() as int, TestScenario::W3SameDimensionsSameSize);
        lemma_has_scenario_split(m1, m2, 0, TestScenario::W2SameDimensionsDifferentSize);
        lemma_has_scenario_split(m2, m3, 0, TestScenario::W2SameDimensionsDifferentSize);
        lemma_has_scenario_split(m3, m4, 0, TestScenario::W2SameDimensionsDifferentSize);
        lemma_has_scenario_split(m4, matches@, 0, TestScenario::W2SameDimensionsDifferentSize);
        lemma_has_scenario_split(m1, m2, m1.len() as int, TestScenario::W2SameDimensionsDifferentSize);
        lemma_has_scenario_split(m2, m3, m2.len() as int, TestScenario::W2SameDimensionsDifferentSize);
        lemma_has_scenario_split(m3, m4, m3.len() as int, TestScenario::W2SameDimensionsDifferentSize);
        lemma_has_scenario_split(m1, m2, 0, TestScenario::W8SamePixelsDifferentAspect);
        lemma_has_scenario_split(m2, m3, 0, TestScenario::W8SamePixelsDifferentAspect);
        lemma_has_scenario_split(m3, m4, 0, TestScenario::W8SamePixelsDifferentAspect);
        lemma_has_scenario_split(m4, matches@, 0, TestScenario::W8SamePixelsDifferentAspect);
        lemma_has_scenario_split(m1, m2, m1.len() as int, TestScenario::W8SamePixelsDifferentAspect);
        lemma_has_scenario_split(m2, m3, m2.len() as int, TestScenario::W8SamePixelsDifferentAspect);
        lemma_has_scenario_split(m3, m4, m3.len() as int, TestScenario::W8SamePixelsDifferentAspect);
        lemma_has_scenario_split(m1, m2, 0, TestScenario::W1ClearDimensionWinner);
        lemma_has_scenario_split(m2, m3, 0, TestScenario::W1ClearDimensionWinner);
        lemma_has_scenario_split(m3, m4, 0, TestScenario::W1ClearDimensionWinner);
        lemma_has_scenario_split(m4, matches@, 0, TestScenario::W1ClearDimensionWinner);
        lemma_has_scenario_split(m1, m2, m1.len() as int, TestScenario::W1ClearDimensionWinner);
        lemma_has_scenario_split(m2, m3, m2.len() as int, TestScenario::W1ClearDimensionWinner);
        lemma_has_scenario_split(m3, m4, m3.len() as int, TestScenario::W1ClearDimensionWinner);
        lemma_has_scenario_split(m1, m2, 0, TestScenario::C8WinnerHasEverything);
        lemma_has_scenario_split(m2, m3, 0, TestScenario::C8WinnerHasEverything);
        lemma_has_scenario_split(m3, m4, 0, TestScenario::C8WinnerHasEverything);
        lemma_has_scenario_split(m4, matches@, 0, TestScenario::C8WinnerHasEverything);
        lemma_has_scenario_split(m1, m2, m1.len() as int, TestScenario::C8WinnerHasEverything);
        lemma_has_scenario_split(m2, m3, m2.len() as int, TestScenario::C8WinnerHasEverything);
        lemma_has_scenario_split(m3, m4, m3.len() as int, TestScenario::C8WinnerHasEverything);
        lemma_has_scenario_split(m1, m2, 0, TestScenario::C5BothHaveGps);
        lemma_has_scenario_split(m2, m3, 0, TestScenario::C5BothHaveGps);
        lemma_has_scenario_split(m3, m4, 0, TestScenario::C5BothHaveGps);
        lemma_has_scenario_split(m4, matches@, 0, TestScenario::C5BothHaveGps);
        lemma_has_scenario_split(m1, m2, m1.len() as int, TestScenario::C5BothHaveGps);
        lemma_has_scenario_split(m2, m3, m2.len() as int, TestScenario::C5BothHaveGps);
        lemma_has_scenario_split(m3, m4, m3.len() as int, TestScenario::C5BothHaveGps);
        lemma_has_scenario_split(m1, m2, 0, TestScenario::C1WinnerLacksGpsLoserHas);
        lemma_has_scenario_split(m2, m3, 0, TestScenario::C1WinnerLacksGpsLoserHas);
        lemma_has_scenario_split(m3, m4, 0, TestScenario::C1WinnerLacksGpsLoserHas);
        lemma_has_scenario_split(m4, matches@, 0, TestScenario::C1WinnerLacksGpsLoserHas);
        lemma_has_scenario_split(m1, m2, m1.len() as int, TestScenario::C1WinnerLacksGpsLoserHas);
        lemma_has_scenario_split(m2, m3, m2.len() as int, TestScenario::C1WinnerLacksGpsLoserHas);
        lemma_has_scenario_split(m3, m4, m3.len() as int, TestScenario::C1WinnerLacksGpsLoserHas);
        lemma_has_scenario_split(m1, m2, 0, TestScenario::C2WinnerLacksDatetimeLoserHas);
        lemma_has_scenario_split(m2, m3, 0, TestScenario::C2WinnerLacksDatetimeLoserHas);
        lemma_has_scenario_split(m3, m4, 0, TestScenario::C2WinnerLacksDatetimeLoserHas);
        lemma_has_scenario_split(m4, matches@, 0, TestScenario::C2WinnerLacksDatetimeLoserHas);
        lemma_has_scenario_split(m1, m2, m1.len() as int, TestScenario::C2WinnerLacksDatetimeLoserHas);
        lemma_has_scenario_split(m2, m3, m2.len() as int, TestScenario::C2WinnerLacksDatetimeLoserHas);
        lemma_has_scenario_split(m3, m4, m3.len() as int, TestScenario::C2WinnerLacksDatetimeLoserHas);
        lemma_has_scenario_split(m1, m2, 0, TestScenario::C3WinnerLacksDescriptionLoserHas);
        lemma_has_scenario_split(m2, m3, 0, TestScenario::C3WinnerLacksDescriptionLoserHas);
        lemma_has_scenario_split(m3, m4, 0, TestScenario::C3WinnerLacksDescriptionLoserHas);
        lemma_has_scenario_split(m4, matches@, 0, TestScenario::C3WinnerLacksDescriptionLoserHas);
        lemma_has_scenario_split(m1, m2, m1.len() as int, TestScenario::C3WinnerLacksDescriptionLoserHas);
        lemma_has_scenario_split(m2, m3, m2.len() as int, TestScenario::C3WinnerLacksDescriptionLoserHas);
        lemma_has_scenario_split(m3, m4, m3.len() as int, TestScenario::C3WinnerLacksDescriptionLoserHas);
        lemma_has_scenario_split(m1, m2, 0, TestScenario::C4WinnerLacksAllLoserHasAll);
        lemma_has_scenario_split(m2, m3, 0, TestScenario::C4WinnerLacksAllLoserHasAll);
        lemma_has_scenario_split(m3, m4, 0, TestScenario::C4WinnerLacksAllLoserHasAll);
        lemma_has_scenario_split(m4, matches@, 0, TestScenario::C4WinnerLacksAllLoserHasAll);
        lemma_has_scenario_split(m1, m2, m1.len() as int, TestScenario::C4WinnerLacksAllLoserHasAll);
        lemma_has_scenario_split(m2, m3, m2.len() as int, TestScenario::C4WinnerLacksAllLoserHasAll);
        lemma_has_scenario_split(m3, m4, m3.len() as int, TestScenario::C4WinnerLacksAllLoserHasAll);
        lemma_has_scenario_split(m1, m2, 0, TestScenario::C6MultipleLosersContribute);
        lemma_has_scenario_split(m2, m3, 0, TestScenario::C6MultipleLosersContribute);
        lemma_has_scenario_split(m3, m4, 0, TestScenario::C6MultipleLosersContribute);
        lemma_has_scenario_split(m4, matches@, 0, TestScenario::C6MultipleLosersContribute);
        lemma_has_scenario_split(m1, m2, m1.len() as int, TestScenario::C6MultipleLosersContribute);
        lemma_has_scenario_split(m2, m3, m2.len() as int, TestScenario::C6MultipleLosersContribute);
        lemma_has_scenario_split(m3, m4, m3.len() as int, TestScenario::C6MultipleLosersContribute);
        lemma_has_scenario_split(m1, m2, 0, TestScenario::C7NoLoserHasNeeded);
        lemma_has_scenario_split(m2, m3, 0, TestScenario::C7NoLoserHasNeeded);
        lemma_has_scenario_split(m3, m4, 0, TestScenario::C7NoLoserHasNeeded);
        lemma_has_scenario_split(m4, matches@, 0, TestScenario::C7NoLoserHasNeeded);
        lemma_has_scenario_split(m1, m2, m1.len() as int, TestScenario::C7NoLoserHasNeeded);
        lemma_has_scenario_split(m2, m3, m2.len() as int, TestScenario::C7NoLoserHasNeeded);
        lemma_has_scenario_split(m3, m4, m3.len() as int, TestScenario::C7NoLoserHasNeeded);
        lemma_has_scenario_split(m1, m2, 0, TestScenario::F7NoConflicts);
        lemma_has_scenario_split(m2, m3, 0, TestScenario::F7NoConflicts);
        lemma_has_scenario_split(m3, m4, 0, TestScenario::F7NoConflicts);
        lemma_has_scenario_split(m4, matches@, 0, TestScenario::F7NoConflicts);
        lemma_has_scenario_split(m1, m2, m1.len() as int, TestScenario::F7NoConflicts);
        lemma_has_scenario_split(m2, m3, m2.len() as int, TestScenario::F7NoConflicts);
        lemma_has_scenario_split(m3, m4, m3.len() as int, TestScenario::F7NoConflicts);
        lemma_has_scenario_split(m1, m2, 0, TestScenario::F1GpsConflict);
        lemma_has_scenario_split(m2, m3, 0, TestScenario::F1GpsConflict);
        lemma_has_scenario_split(m3, m4, 0, TestScenario::F1GpsConflict);
        lemma_has_scenario_split(m4, matches@, 0, TestScenario::F1GpsConflict);
        lemma_has_scenario_split(m1, m2, m1.len() as int, TestScenario::F1GpsConflict);
        lemma_has_scenario_split(m2, m3, m2.len() as int, TestScenario::F1GpsConflict);
        lemma_has_scenario_split(m3, m4, m3.len() as int, TestScenario::F1GpsConflict);
        lemma_has_scenario_split(m1, m2, 0, TestScenario::F3TimezoneConflict);
        lemma_has_scenario_split(m2, m3, 0, TestScenario::F3TimezoneConflict);
        lemma_has_scenario_split(m3, m4, 0, TestScenario::F3TimezoneConflict);
        lemma_has_scenario_split(m4, matches@, 0, TestScenario::F3TimezoneConflict);
        lemma_has_scenario_split(m1, m2, m1.len() as int, TestScenario::F3TimezoneConflict);
        lemma_has_scenario_split(m2, m3, m2.len() as int, TestScenario::F3TimezoneConflict);
        lemma_has_scenario_split(m3, m4, m3.len() as int, TestScenario::F3TimezoneConflict);
        lemma_has_scenario_split(m1, m2, 0, TestScenario::F4CameraConflict);
        lemma_has_scenario_split(m2, m3, 0, TestScenario::F4CameraConflict);
        lemma_has_scenario_split(m3, m4, 0, TestScenario::F4CameraConflict);
        lemma_has_scenario_split(m4, matches@, 0, TestScenario::F4CameraConflict);
        lemma_has_scenario_split(m1, m2, m1.len() as int, TestScenario::F4CameraConflict);
        lemma_has_scenario_split(m2, m3, m2.len() as int, TestScenario::F4CameraConflict);
        lemma_has_scenario_split(m3, m4, m3.len() as int, TestScenario::F4CameraConflict);
        lemma_has_scenario_split(m1, m2, 0, TestScenario::F5CaptureTimeConflict);
        lemma_has_scenario_split(m2, m3, 0, TestScenario::F5CaptureTimeConflict);
        lemma_has_scenario_split(m3, m4, 0, TestScenario::F5CaptureTimeConflict);
        lemma_has_scenario_split(m4, matches@, 0, TestScenario::F5CaptureTimeConflict);
        lemma_has_scenario_split(m1, m2, m1.len() as int, TestScenario::F5CaptureTimeConflict);
        lemma_has_scenario_split(m2, m3, m2.len() as int, TestScenario::F5CaptureTimeConflict);
        lemma_has_scenario_split(m3, m4, m3.len() as int, TestScenario::F5CaptureTimeConflict);
        lemma_has_scenario_split(m1, m2, 0, TestScenario::F6MultipleConflicts);
        lemma_has_scenario_split(m2, m3, 0, TestScenario::F6MultipleConflicts);
        lemma_has_scenario_split(m3, m4, 0, TestScenario::F6MultipleConflicts);
        lemma_has_scenario_split(m4, matches@, 0, TestScenario::F6MultipleConflicts);
        lemma_has_scenario_split(m1, m2, m1.len() as int, TestScenario::F6MultipleConflicts);
        lemma_has_scenario_split(m2, m3, m2.len() as int, TestScenario::F6MultipleConflicts);
        lemma_has_scenario_split(m3, m4, m3.len() as int, TestScenario::F6MultipleConflicts);
        lemma_has_scenario_split(m1, m2, 0, TestScenario::F2GpsWithinThreshold);
        lemma_has_scenario_split(m2, m3, 0, TestScenario::F2GpsWithinThreshold);
        lemma_has_scenario_split(m3, m4, 0, TestScenario::F2GpsWithinThreshold);
        lemma_has_scenario_split(m4, matches@, 0, TestScenario::F2GpsWithinThreshold);
        lemma_has_scenario_split(m1, m2, m1.len() as int, TestScenario::F2GpsWithinThreshold);
        lemma_has_scenario_split(m2, m3, m2.len() as int, TestScenario::F2GpsWithinThreshold);
        lemma_has_scenario_split(m3, m4, m3.len() as int, TestScenario::F2GpsWithinThreshold);
        lemma_has_scenario_split(m1, m2, 0, TestScenario::X3LargeFile);
        lemma_has_scenario_split(m2, m3, 0, TestScenario::X3LargeFile);
        lemma_has_scenario_split(m3, m4, 0, TestScenario::X3LargeFile);
        lemma_has_scenario_split(m4, matches@, 0, TestScenario::X3LargeFile);
        lemma_has_scenario_split(m1, m2, m1.len() as int, TestScenario::X3LargeFile);
        lemma_has_scenario_split(m2, m3, m2.len() as int, TestScenario::X3LargeFile);
        lemma_has_scenario_split(m3, m4, m3.len() as int, TestScenario::X3LargeFile);
        lemma_has_scenario_split(m1, m2, 0, TestScenario::X4SpecialCharsFilename);
        lemma_has_scenario_split(m2, m3, 0, TestScenario::X4SpecialCharsFilename);
        lemma_has_scenario_split(m3, m4, 0, TestScenario::X4SpecialCharsFilename);
        lemma_has_scenario_split(m4, matches@, 0, TestScenario::X4SpecialCharsFilename);
        lemma_has_scenario_split(m1, m2, m1.len() as int, TestScenario::X4SpecialCharsFilename);
        lemma_has_scenario_split(m2, m3, m2.len() as int, TestScenario::X4SpecialCharsFilename);
        lemma_has_scenario_split(m3, m4, m3.len() as int, TestScenario::X4SpecialCharsFilename);
        lemma_has_scenario_split(m1, m2, 0, TestScenario::X5Video);
        lemma_has_scenario_split(m2, m3, 0, TestScenario::X5Video);
        lemma_has_scenario_split(m3, m4, 0, TestScenario::X5Video);
        lemma_has_scenario_split(m4, matches@, 0, TestScenario::X5Video);
        lemma_has_scenario_split(m1, m2, m1.len() as int, TestScenario::X5Video);
        lemma_has_scenario_split(m2, m3, m2.len() as int, TestScenario::X5Video);
        lemma_has_scenario_split(m3, m4, m3.len() as int, TestScenario::X5Video);
        lemma_has_scenario_split(m1, m2, 0, TestScenario::X6Heic);
        lemma_has_scenario_split(m2, m3, 0, TestScenario::X6Heic);
        lemma_has_scenario_split(m3, m4, 0, TestScenario::X6Heic);
        lemma_has_scenario_split(m4, matches@, 0, TestScenario::X6Heic);
        lemma_has_scenario_split(m1, m2, m1.len() as int, TestScenario::X6Heic);
        lemma_has_scenario_split(m2, m3, m2.len() as int, TestScenario::X6Heic);
        lemma_has_scenario_split(m3, m4, m3.len() as int, TestScenario::X6Heic);
        lemma_has_scenario_split(m1, m2, 0, TestScenario::X7Png);
        lemma_has_scenario_split(m2, m3, 0, TestScenario::X7Png);
        lemma_has_scenario_split(m3, m4, 0, TestScenario::X7Png);
        lemma_has_scenario_split(m4, matches@, 0, TestScenario::X7Png);
        lemma_has_scenario_split(m1, m2, m1.len() as int, TestScenario::X7Png);
        lemma_has_scenario_split(m2, m3, m2.len() as int, TestScenario::X7Png);
        lemma_has_scenario_split(m3, m4, m3.len() as int, TestScenario::X7Png);
        lemma_has_scenario_split(m1, m2, 0, TestScenario::X8Raw);
        lemma_has_scenario_split(m2, m3, 0, TestScenario::X8Raw);
        lemma_has_scenario_split(m3, m4, 0, TestScenario::X8Raw);
        lemma_has_scenario_split(m4, matches@, 0, TestScenario::X8Raw);
        lemma_has_scenario_split(m1, m2, m1.len() as int, TestScenario::X8Raw);
        lemma_has_scenario_split(m2, m3, m2.len() as int, TestScenario::X8Raw);
        lemma_has_scenario_split(m3, m4, m3.len() as int, TestScenario::X8Raw);
        lemma_has_scenario_split(m1, m2, 0, TestScenario::X9UnicodeDescription);
        lemma_has_scenario_split(m2, m3, 0, TestScenario::X9UnicodeDescription);
        lemma_has_scenario_split(m3, m4, 0, TestScenario::X9UnicodeDescription);
        lemma_has_scenario_split(m4, matches@, 0, TestScenario::X9UnicodeDescription);
        lemma_has_scenario_split(m1, m2, m1.len() as int, TestScenario::X9UnicodeDescription);
        lemma_has_scenario_split(m2, m3, m2.len() as int, TestScenario::X9UnicodeDescription);
        lemma_has_scenario_split(m3, m4, m3.len() as int, TestScenario::X9UnicodeDescription);
        lemma_has_scenario_split(m1, m2, 0, TestScenario::X10VeryOldDate);
        lemma_has_scenario_split(m2, m3, 0, TestScenario::X10VeryOldDate);
        lemma_has_scenario_split(m3, m4, 0, TestScenario::X10VeryOldDate);
        lemma_has_scenario_split(m4, matches@, 0, TestScenario::X10VeryOldDate);
        lemma_has_scenario_split(m1, m2, m1.len() as int, TestScenario::X10VeryOldDate);
        lemma_has_scenario_split(m2, m3, m2.len() as int, TestScenario::X10VeryOldDate);
        lemma_has_scenario_split(m3, m4, m3.len() as int, TestScenario::X10VeryOldDate);
        lemma_has_scenario_split(m1, m2, 0, TestScenario::X11FutureDate);
        lemma_has_scenario_split(m2, m3, 0, TestScenario::X11FutureDate);
        lemma_has_scenario_split(m3, m4, 0, TestScenario::X11FutureDate);
        lemma_has_scenario_split(m4, matches@, 0, TestScenario::X11FutureDate);
        lemma_has_scenario_split(m1, m2, m1.len() as int, TestScenario::X11FutureDate);
        lemma_has_scenario_split(m2, m3, m2.len() as int, TestScenario::X11FutureDate);
        lemma_has_scenario_split(m3, m4, m3.len() as int, TestScenario::X11FutureDate);
    }

    matches
}

} // verus!
