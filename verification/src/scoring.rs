//! Metadata scoring and duplicate analysis.
//!
//! Ranks the assets of a duplicate group by metadata completeness, selects
//! the winner deterministically, and detects metadata conflicts that should
//! block automatic resolution.

use vstd::prelude::*;

use crate::models::asset::AssetResponse;
use crate::models::duplicate::DuplicateGroup;
use crate::models::exif::ExifInfo;
use crate::text::{
    concat_str, lowercase, lower_of, seq_views, trim_owned, trim_spec, vec_contains_string,
};

verus! {

/// Weight for GPS coordinates: most valuable, irreplaceable location data.
pub const GPS_WEIGHT: u32 = 30;

/// Weight for the timezone: important for correct timestamps.
pub const TIMEZONE_WEIGHT: u32 = 20;

/// Weight for camera make/model: useful provenance information.
pub const CAMERA_INFO_WEIGHT: u32 = 15;

/// Weight for the original capture time.
pub const CAPTURE_TIME_WEIGHT: u32 = 15;

/// Weight for lens information: nice to have.
pub const LENS_INFO_WEIGHT: u32 = 10;

/// Weight for the reverse-geocoded location, derivable from GPS.
pub const LOCATION_WEIGHT: u32 = 10;

/// GPS coordinate threshold for conflict detection, in microdegrees.
/// 100 microdegrees is 0.0001 degrees, roughly 11 meters at the equator.
pub const GPS_THRESHOLD_UDEG: i64 = 100;

/// Metadata completeness score for an asset.
///
/// Each category contributes a weighted score based on presence of metadata.
/// Higher total scores indicate more complete metadata; ordering between two
/// scores is defined solely by `total`.
#[derive(Clone, Copy, PartialEq, Eq, Structural)]
pub struct MetadataScore {
    /// GPS coordinate score (0 or 30)
    pub gps: u32,

    /// Timezone score (0 or 20)
    pub timezone: u32,

    /// Camera make/model score (0 or 15)
    pub camera_info: u32,

    /// Original capture time score (0 or 15)
    pub capture_time: u32,

    /// Lens info score (0 or 10)
    pub lens_info: u32,

    /// Location (city/country) score (0 or 10)
    pub location: u32,

    /// Total weighted score (sum of all categories)
    pub total: u32,
}

/// The score of an EXIF block: each weight is earned by the presence of its
/// category, and the total is the sum.
pub open spec fn spec_score_of_exif(e: ExifInfo) -> MetadataScore {
    let gps: u32 = if e.spec_has_gps() { GPS_WEIGHT } else { 0 };
    let timezone: u32 = if e.spec_has_timezone() { TIMEZONE_WEIGHT } else { 0 };
    let camera_info: u32 = if e.spec_has_camera_info() { CAMERA_INFO_WEIGHT } else { 0 };
    let capture_time: u32 = if e.spec_has_capture_time() { CAPTURE_TIME_WEIGHT } else { 0 };
    let lens_info: u32 = if e.spec_has_lens_info() { LENS_INFO_WEIGHT } else { 0 };
    let location: u32 = if e.spec_has_location() { LOCATION_WEIGHT } else { 0 };
    MetadataScore {
        gps,
        timezone,
        camera_info,
        capture_time,
        lens_info,
        location,
        total: (gps + timezone + camera_info + capture_time + lens_info + location) as u32,
    }
}

/// The all-zero score of an asset without EXIF data.
pub open spec fn spec_zero_score() -> MetadataScore {
    MetadataScore {
        gps: 0,
        timezone: 0,
        camera_info: 0,
        capture_time: 0,
        lens_info: 0,
        location: 0,
        total: 0,
    }
}

/// The score of an asset: derived purely from its EXIF presence.
pub open spec fn spec_score(a: AssetResponse) -> MetadataScore {
    match a.exif_info {
        Option::Some(e) => spec_score_of_exif(e),
        Option::None => spec_zero_score(),
    }
}

impl Default for MetadataScore {
    /// The default score is all-zero.
    fn default() -> (r: Self)
        ensures
            r == spec_zero_score(),
    {
        MetadataScore {
            gps: 0,
            timezone: 0,
            camera_info: 0,
            capture_time: 0,
            lens_info: 0,
            location: 0,
            total: 0,
        }
    }
}

impl MetadataScore {
    /// Score an asset based on its metadata completeness.
    ///
    /// An asset with no EXIF block scores all-zero; otherwise each category
    /// weight is earned by presence, and the total is the sum.
    pub fn from_asset(asset: &AssetResponse) -> (r: Self)
        ensures
            r == spec_score(*asset),
            r.total <= 100,
    {
        let exif = match &asset.exif_info {
            Option::Some(e) => e,
            Option::None => {
                return MetadataScore {
                    gps: 0,
                    timezone: 0,
                    camera_info: 0,
                    capture_time: 0,
                    lens_info: 0,
                    location: 0,
                    total: 0,
                };
            },
        };

        let gps: u32 = if exif.has_gps() { GPS_WEIGHT } else { 0 };
        let timezone: u32 = if exif.has_timezone() { TIMEZONE_WEIGHT } else { 0 };
        let camera_info: u32 = if exif.has_camera_info() { CAMERA_INFO_WEIGHT } else { 0 };
        let capture_time: u32 = if exif.has_capture_time() { CAPTURE_TIME_WEIGHT } else { 0 };
        let lens_info: u32 = if exif.has_lens_info() { LENS_INFO_WEIGHT } else { 0 };
        let location: u32 = if exif.has_location() { LOCATION_WEIGHT } else { 0 };

        let total = gps + timezone + camera_info + capture_time + lens_info + location;

        MetadataScore {
            gps,
            timezone,
            camera_info,
            capture_time,
            lens_info,
            location,
            total,
        }
    }
}

/// Detected conflict between duplicate assets: different values for the same
/// metadata field, carrying the distinct values observed.
pub enum MetadataConflict {
    /// Different GPS coordinates across duplicates
    Gps {
        /// List of distinct coordinate pairs (latitude, longitude) in
        /// microdegrees, merged within the threshold
        values: Vec<(i64, i64)>,
    },

    /// Different timezones across duplicates
    Timezone {
        /// List of distinct timezone values
        values: Vec<String>,
    },

    /// Different camera make/model combinations across duplicates
    CameraInfo {
        /// List of distinct camera identifiers
        values: Vec<String>,
    },

    /// Different original capture times across duplicates
    CaptureTime {
        /// List of distinct capture timestamps
        values: Vec<String>,
    },
}

/// The coordinate payload of a GPS conflict (empty for other variants).
pub open spec fn gps_values_of(c: MetadataConflict) -> Seq<(i64, i64)> {
    match c {
        MetadataConflict::Gps { values } => values@,
        _ => Seq::empty(),
    }
}

/// The string payload of a string-valued conflict (empty for GPS).
pub open spec fn string_values_of(c: MetadataConflict) -> Seq<Seq<char>> {
    match c {
        MetadataConflict::Gps { .. } => Seq::empty(),
        MetadataConflict::Timezone { values } => seq_views(values@),
        MetadataConflict::CameraInfo { values } => seq_views(values@),
        MetadataConflict::CaptureTime { values } => seq_views(values@),
    }
}

/// The GPS points present across a sequence of assets, in order.
pub open spec fn gps_points(assets: Seq<AssetResponse>) -> Seq<(i64, i64)>
    decreases assets.len(),
{
    if assets.len() == 0 {
        Seq::empty()
    } else {
        let rest = gps_points(assets.drop_last());
        match assets.last().exif_info {
            Option::Some(e) => match (e.latitude, e.longitude) {
                (Option::Some(lat), Option::Some(lon)) => rest.push((lat, lon)),
                _ => rest,
            },
            Option::None => rest,
        }
    }
}

/// Whether two GPS points differ by more than the threshold in either axis.
pub open spec fn gps_differs(p: (i64, i64), q: (i64, i64)) -> bool {
    p.0 - q.0 > GPS_THRESHOLD_UDEG || q.0 - p.0 > GPS_THRESHOLD_UDEG
        || p.1 - q.1 > GPS_THRESHOLD_UDEG || q.1 - p.1 > GPS_THRESHOLD_UDEG
}

/// Whether some pair of observed GPS points differs beyond the threshold.
pub open spec fn spec_gps_conflict(points: Seq<(i64, i64)>) -> bool {
    exists|i: int, j: int|
        0 <= i < j < points.len() && gps_differs(points[i], points[j])
}

/// The threshold-merged distinct GPS points: each point is kept only when it
/// differs beyond the threshold from every point kept before it.
pub open spec fn dedupe_spec(points: Seq<(i64, i64)>) -> Seq<(i64, i64)>
    decreases points.len(),
{
    if points.len() == 0 {
        Seq::empty()
    } else {
        let rest = dedupe_spec(points.drop_last());
        let p = points.last();
        if exists|m: int| 0 <= m < rest.len() && !gps_differs(p, rest[m]) {
            rest
        } else {
            rest.push(p)
        }
    }
}

/// Compares two GPS points against the threshold.
fn gps_differs_exec(p: (i64, i64), q: (i64, i64)) -> (r: bool)
    ensures
        r == gps_differs(p, q),
{
    let dlat: i128 = (p.0 as i128) - (q.0 as i128);
    let dlon: i128 = (p.1 as i128) - (q.1 as i128);
    let t: i128 = GPS_THRESHOLD_UDEG as i128;
    dlat > t || -dlat > t || dlon > t || -dlon > t
}

/// Check if GPS coordinates conflict: some pair differs beyond the threshold.
pub fn has_gps_conflict(coords: &Vec<(i64, i64)>) -> (r: bool)
    ensures
        r == spec_gps_conflict(coords@),
{
    let n = coords.len();
    if n < 2 {
        return false;
    }
    let mut i: usize = 0;
    while i < n
        invariant
            n == coords@.len(),
            i <= n,
            forall|a: int, b: int| 0 <= a < b < n && a < i ==> !gps_differs(coords@[a], coords@[b]),
        decreases n - i,
    {
        let mut j: usize = i + 1;
        while j < n
            invariant
                n == coords@.len(),
                i < j <= n || (i + 1 == j && j <= n),
                i < n,
                forall|b: int| i < b < j ==> !gps_differs(coords@[i as int], coords@[b]),
            decreases n - j,
        {
            if gps_differs_exec(coords[i], coords[j]) {
                return true;
            }
            j = j + 1;
        }
        i = i + 1;
    }
    false
}

/// Deduplicate GPS coordinates within the threshold, keeping first-seen
/// representatives.
pub fn dedupe_gps(coords: &Vec<(i64, i64)>) -> (r: Vec<(i64, i64)>)
    ensures
        r@ == dedupe_spec(coords@),
{
    let n = coords.len();
    let mut unique: Vec<(i64, i64)> = Vec::new();
    let mut i: usize = 0;
    while i < n
        invariant
            n == coords@.len(),
            i <= n,
            unique@ == dedupe_spec(coords@.take(i as int)),
        decreases n - i,
    {
        let p = coords[i];
        let m = unique.len();
        let mut k: usize = 0;
        let mut near: bool = false;
        while k < m
            invariant
                m == unique@.len(),
                k <= m,
                near == exists|q: int| 0 <= q < k && !gps_differs(p, unique@[q]),
            decreases m - k,
        {
            if !gps_differs_exec(p, unique[k]) {
                near = true;
            }
            k = k + 1;
        }
        proof {
            assert(coords@.take(i + 1).drop_last() =~= coords@.take(i as int));
            assert(coords@.take(i + 1).last() == coords@[i as int]);
        }
        if !near {
            unique.push(p);
        }
        i = i + 1;
    }
    proof {
        assert(coords@.take(n as int) =~= coords@);
    }
    unique
}

/// No two entries of the threshold-merged list are within the threshold of
/// each other, and every observed point is within the threshold of some
/// entry: points within the threshold merge into one entry.
pub proof fn lemma_dedupe_separated(points: Seq<(i64, i64)>)
    ensures
        forall|a: int, b: int|
            0 <= a < b < dedupe_spec(points).len() ==> gps_differs(
                dedupe_spec(points)[a],
                dedupe_spec(points)[b],
            ),
        forall|k: int|
            0 <= k < points.len() ==> exists|m: int|
                0 <= m < dedupe_spec(points).len() && !gps_differs(
                    #[trigger] points[k],
                    dedupe_spec(points)[m],
                ),
        dedupe_spec(points).len() <= points.len(),
        points.len() > 0 ==> dedupe_spec(points).len() > 0,
    decreases points.len(),
{
    if points.len() > 0 {
        lemma_dedupe_separated(points.drop_last());
        let rest = dedupe_spec(points.drop_last());
        let p = points.last();
        if exists|m: int| 0 <= m < rest.len() && !gps_differs(p, rest[m]) {
            assert(forall|k: int|
                0 <= k < points.len() - 1 ==> points.drop_last()[k] == points[k]);
        } else {
            assert(dedupe_spec(points) == rest.push(p));
            assert forall|k: int| 0 <= k < points.len() implies exists|m: int|
                0 <= m < dedupe_spec(points).len() && !gps_differs(
                    #[trigger] points[k],
                    dedupe_spec(points)[m],
                ) by {
                if k < points.len() - 1 {
                    assert(points.drop_last()[k] == points[k]);
                    let m0 = choose|m: int|
                        0 <= m < rest.len() && !gps_differs(points.drop_last()[k], rest[m]);
                    assert(dedupe_spec(points)[m0] == rest[m0]);
                } else {
                    assert(!gps_differs(p, p));
                    assert(dedupe_spec(points)[rest.len() as int] == p);
                }
            }
        }
    }
}

/// The normalisation key of a string: trimmed, then case-folded.
pub open spec fn norm_key(s: Seq<char>) -> Seq<char> {
    lower_of(trim_spec(s))
}

/// The distinct nonempty normalisation keys of a list of strings, first-seen
/// order.
pub open spec fn distinct_keys(values: Seq<Seq<char>>) -> Seq<Seq<char>>
    decreases values.len(),
{
    if values.len() == 0 {
        Seq::empty()
    } else {
        let rest = distinct_keys(values.drop_last());
        let k = norm_key(values.last());
        if k.len() > 0 && !rest.contains(k) {
            rest.push(k)
        } else {
            rest
        }
    }
}

/// The trimmed originals of the values that introduced each distinct
/// nonempty key, in first-seen order.
pub open spec fn unique_trimmed(values: Seq<Seq<char>>) -> Seq<Seq<char>>
    decreases values.len(),
{
    if values.len() == 0 {
        Seq::empty()
    } else {
        let rest_keys = distinct_keys(values.drop_last());
        let rest = unique_trimmed(values.drop_last());
        let k = norm_key(values.last());
        if k.len() > 0 && !rest_keys.contains(k) {
            rest.push(trim_spec(values.last()))
        } else {
            rest
        }
    }
}

/// Find the distinct string values (trimmed, compared case-insensitively).
///
/// Returns the trimmed originals in first-seen order when at least two
/// distinct nonempty normalised values exist, `None` otherwise.
pub fn find_unique_strings(values: &Vec<String>) -> (r: Option<Vec<String>>)
    ensures
        r is Some <==> unique_trimmed(seq_views(values@)).len() > 1,
        r is Some ==> seq_views(r.unwrap()@) == unique_trimmed(seq_views(values@)),
{
    let ghost sv = seq_views(values@);
    let n = values.len();
    let mut seen: Vec<String> = Vec::new();
    let mut unique_original: Vec<String> = Vec::new();
    let mut i: usize = 0;
    while i < n
        invariant
            n == values@.len(),
            sv == seq_views(values@),
            i <= n,
            seq_views(seen@) == distinct_keys(sv.take(i as int)),
            seq_views(unique_original@) == unique_trimmed(sv.take(i as int)),
        decreases n - i,
    {
        let trimmed = trim_owned(values[i].as_str());
        let normalized = lowercase(trimmed.as_str());
        proof {
            assert(sv[i as int] == values@[i as int]@);
            assert(normalized@ == norm_key(sv[i as int]));
            assert(sv.take(i + 1).drop_last() =~= sv.take(i as int));
            assert(sv.take(i + 1).last() == sv[i as int]);
        }
        if normalized.as_str().unicode_len() > 0 && !vec_contains_string(&seen, &normalized) {
            seen.push(normalized);
            unique_original.push(trimmed);
            proof {
                assert(seq_views(seen@) =~= distinct_keys(sv.take(i + 1)));
                assert(seq_views(unique_original@) =~= unique_trimmed(sv.take(i + 1)));
            }
        }
        i = i + 1;
    }
    proof {
        assert(sv.take(n as int) =~= sv);
    }
    if unique_original.len() > 1 {
        Option::Some(unique_original)
    } else {
        Option::None
    }
}

/// The view of an optional string, empty when absent.
pub open spec fn opt_view(s: Option<String>) -> Seq<char> {
    match s {
        Option::Some(x) => x@,
        Option::None => Seq::empty(),
    }
}

/// The timezone strings present across a sequence of assets, in order.
pub open spec fn tz_values(assets: Seq<AssetResponse>) -> Seq<Seq<char>>
    decreases assets.len(),
{
    if assets.len() == 0 {
        Seq::empty()
    } else {
        let rest = tz_values(assets.drop_last());
        match assets.last().exif_info {
            Option::Some(e) => match e.time_zone {
                Option::Some(tz) => rest.push(tz@),
                Option::None => rest,
            },
            Option::None => rest,
        }
    }
}

/// The capture-time strings present across a sequence of assets, in order.
pub open spec fn capture_values(assets: Seq<AssetResponse>) -> Seq<Seq<char>>
    decreases assets.len(),
{
    if assets.len() == 0 {
        Seq::empty()
    } else {
        let rest = capture_values(assets.drop_last());
        match assets.last().exif_info {
            Option::Some(e) => match e.date_time_original {
                Option::Some(dt) => rest.push(dt@),
                Option::None => rest,
            },
            Option::None => rest,
        }
    }
}

/// The camera label of an EXIF block: make and model joined by a space,
/// trimmed.
pub open spec fn camera_label(e: ExifInfo) -> Seq<char> {
    trim_spec(opt_view(e.make) + seq![' '] + opt_view(e.model))
}

/// The camera labels across a sequence of assets, for assets with a nonempty
/// make or model, in order.
pub open spec fn camera_values(assets: Seq<AssetResponse>) -> Seq<Seq<char>>
    decreases assets.len(),
{
    if assets.len() == 0 {
        Seq::empty()
    } else {
        let rest = camera_values(assets.drop_last());
        match assets.last().exif_info {
            Option::Some(e) => if opt_view(e.make).len() > 0 || opt_view(e.model).len() > 0 {
                rest.push(camera_label(e))
            } else {
                rest
            },
            Option::None => rest,
        }
    }
}

/// Whether a group's GPS points conflict.
pub open spec fn spec_gps_conflicts(assets: Seq<AssetResponse>) -> bool {
    spec_gps_conflict(gps_points(assets))
}

/// Whether a group's timezones conflict after normalisation.
pub open spec fn spec_tz_conflicts(assets: Seq<AssetResponse>) -> bool {
    unique_trimmed(tz_values(assets)).len() > 1
}

/// Whether a group's camera labels conflict after normalisation.
pub open spec fn spec_camera_conflicts(assets: Seq<AssetResponse>) -> bool {
    unique_trimmed(camera_values(assets)).len() > 1
}

/// Whether a group's capture times conflict after normalisation.
pub open spec fn spec_capture_conflicts(assets: Seq<AssetResponse>) -> bool {
    unique_trimmed(capture_values(assets)).len() > 1
}

/// The number of conflicts a group produces.
pub open spec fn conflict_count(assets: Seq<AssetResponse>) -> int {
    (if spec_gps_conflicts(assets) { 1int } else { 0int })
    + (if spec_tz_conflicts(assets) { 1int } else { 0int })
    + (if spec_camera_conflicts(assets) { 1int } else { 0int })
    + (if spec_capture_conflicts(assets) { 1int } else { 0int })
}

/// The presentation rank of a conflict: GPS, timezone, camera, capture time.
pub open spec fn conflict_rank(c: MetadataConflict) -> int {
    match c {
        MetadataConflict::Gps { .. } => 0,
        MetadataConflict::Timezone { .. } => 1,
        MetadataConflict::CameraInfo { .. } => 2,
        MetadataConflict::CaptureTime { .. } => 3,
    }
}

/// Detect metadata conflicts across a set of assets.
///
/// A GPS conflict is emitted iff two observed GPS points differ by more than
/// the threshold in either axis, carrying the threshold-merged distinct
/// points. A string conflict (timezone, camera, capture time) is emitted iff
/// at least two distinct values remain after trimming and case folding,
/// carrying the trimmed originals in first-seen order. Assets lacking a
/// field are excluded from comparison; empty input yields no conflicts.
pub fn detect_conflicts(assets: &Vec<AssetResponse>) -> (r: Vec<MetadataConflict>)
    ensures
        r@.len() == conflict_count(assets@),
        (exists|k: int| 0 <= k < r@.len() && #[trigger] r@[k] is Gps) <==> spec_gps_conflicts(
            assets@,
        ),
        (exists|k: int| 0 <= k < r@.len() && #[trigger] r@[k] is Timezone) <==> spec_tz_conflicts(
            assets@,
        ),
        (exists|k: int| 0 <= k < r@.len() && #[trigger] r@[k] is CameraInfo)
            <==> spec_camera_conflicts(assets@),
        (exists|k: int| 0 <= k < r@.len() && #[trigger] r@[k] is CaptureTime)
            <==> spec_capture_conflicts(assets@),
        forall|k: int|
            0 <= k < r@.len() && #[trigger] r@[k] is Gps ==> gps_values_of(r@[k]) == dedupe_spec(
                gps_points(assets@),
            ),
        forall|k: int|
            0 <= k < r@.len() && #[trigger] r@[k] is Timezone ==> string_values_of(r@[k])
                == unique_trimmed(tz_values(assets@)),
        forall|k: int|
            0 <= k < r@.len() && #[trigger] r@[k] is CameraInfo ==> string_values_of(r@[k])
                == unique_trimmed(camera_values(assets@)),
        forall|k: int|
            0 <= k < r@.len() && #[trigger] r@[k] is CaptureTime ==> string_values_of(r@[k])
                == unique_trimmed(capture_values(assets@)),
        forall|k: int, l: int|
            0 <= k < l < r@.len() ==> conflict_rank(#[trigger] r@[k]) < conflict_rank(
                #[trigger] r@[l],
            ),
{
    let n = assets.len();

    let mut gps_values: Vec<(i64, i64)> = Vec::new();
    let mut timezone_values: Vec<String> = Vec::new();
    let mut camera_values_v: Vec<String> = Vec::new();
    let mut capture_time_values: Vec<String> = Vec::new();

    let mut i: usize = 0;
    while i < n
        invariant
            n == assets@.len(),
            i <= n,
            gps_values@ == gps_points(assets@.take(i as int)),
            seq_views(timezone_values@) == tz_values(assets@.take(i as int)),
            seq_views(camera_values_v@) == camera_values(assets@.take(i as int)),
            seq_views(capture_time_values@) == capture_values(assets@.take(i as int)),
        decreases n - i,
    {
        proof {
            assert(assets@.take(i + 1).drop_last() =~= assets@.take(i as int));
            assert(assets@.take(i + 1).last() == assets@[i as int]);
        }
        match &assets[i].exif_info {
            Option::Some(e) => {
                match (&e.latitude, &e.longitude) {
                    (Option::Some(lat), Option::Some(lon)) => {
                        gps_values.push((*lat, *lon));
                    },
                    _ => {},
                }
                match &e.time_zone {
                    Option::Some(tz) => {
                        timezone_values.push(tz.clone());
                        proof {
                            assert(seq_views(timezone_values@) =~= tz_values(
                                assets@.take(i + 1),
                            ));
                        }
                    },
                    Option::None => {},
                }
                let make_s: &str = match &e.make {
                    Option::Some(m) => m.as_str(),
                    Option::None => "",
                };
                let model_s: &str = match &e.model {
                    Option::Some(m) => m.as_str(),
                    Option::None => "",
                };
                proof {
                    reveal_strlit("");
                    reveal_strlit(" ");
                }
                if make_s.unicode_len() > 0 || model_s.unicode_len() > 0 {
                    let joined = concat_str(make_s, " ");
                    let joined = concat_str(joined.as_str(), model_s);
                    let label = trim_owned(joined.as_str());
                    proof {
                        assert(joined@ =~= opt_view(assets@[i as int].exif_info.unwrap().make)
                            + seq![' '] + opt_view(assets@[i as int].exif_info.unwrap().model));
                    }
                    camera_values_v.push(label);
                    proof {
                        assert(seq_views(camera_values_v@) =~= camera_values(
                            assets@.take(i + 1),
                        ));
                    }
                }
                match &e.date_time_original {
                    Option::Some(dt) => {
                        capture_time_values.push(dt.clone());
                        proof {
                            assert(seq_views(capture_time_values@) =~= capture_values(
                                assets@.take(i + 1),
                            ));
                        }
                    },
                    Option::None => {},
                }
            },
            Option::None => {},
        }
        i = i + 1;
    }
    proof {
        assert(assets@.take(n as int) =~= assets@);
    }

    let mut conflicts: Vec<MetadataConflict> = Vec::new();

    let had_gps = has_gps_conflict(&gps_values);
    if had_gps {
        let unique_gps = dedupe_gps(&gps_values);
        conflicts.push(MetadataConflict::Gps { values: unique_gps });
    }
    let ghost gn: int = if had_gps { 1int } else { 0int };
    proof {
        assert(had_gps == spec_gps_conflicts(assets@));
        assert(conflicts@.len() == gn);
        assert(forall|k: int|
            0 <= k < conflicts@.len() ==> ((#[trigger] conflicts@[k]) is Gps <==> (had_gps && k
                == 0)));
        assert(had_gps ==> gps_values_of(conflicts@[0]) == dedupe_spec(gps_points(assets@)));
    }

    let mut had_tz = false;
    match find_unique_strings(&timezone_values) {
        Option::Some(unique) => {
            conflicts.push(MetadataConflict::Timezone { values: unique });
            had_tz = true;
        },
        Option::None => {},
    }
    let ghost tn: int = if had_tz { 1int } else { 0int };
    proof {
        assert(had_tz == spec_tz_conflicts(assets@));
        assert(conflicts@.len() == gn + tn);
        assert(forall|k: int|
            0 <= k < conflicts@.len() ==> ((#[trigger] conflicts@[k]) is Gps <==> (had_gps && k
                == 0)));
        assert(forall|k: int|
            0 <= k < conflicts@.len() ==> ((#[trigger] conflicts@[k]) is Timezone <==> (had_tz
                && k == gn)));
        assert(had_tz ==> string_values_of(conflicts@[gn]) == unique_trimmed(tz_values(assets@)));
    }

    let mut had_cam = false;
    match find_unique_strings(&camera_values_v) {
        Option::Some(unique) => {
            conflicts.push(MetadataConflict::CameraInfo { values: unique });
            had_cam = true;
        },
        Option::None => {},
    }
    let ghost cn: int = if had_cam { 1int } else { 0int };
    proof {
        assert(had_cam == spec_camera_conflicts(assets@));
        assert(conflicts@.len() == gn + tn + cn);
        assert(forall|k: int|
            0 <= k < conflicts@.len() ==> ((#[trigger] conflicts@[k]) is Gps <==> (had_gps && k
                == 0)));
        assert(forall|k: int|
            0 <= k < conflicts@.len() ==> ((#[trigger] conflicts@[k]) is Timezone <==> (had_tz
                && k == gn)));
        assert(forall|k: int|
            0 <= k < conflicts@.len() ==> ((#[trigger] conflicts@[k]) is CameraInfo <==> (
            had_cam && k == gn + tn)));
        assert(had_cam ==> string_values_of(conflicts@[gn + tn]) == unique_trimmed(
            camera_values(assets@),
        ));
    }

    let mut had_cap = false;
    match find_unique_strings(&capture_time_values) {
        Option::Some(unique) => {
            conflicts.push(MetadataConflict::CaptureTime { values: unique });
            had_cap = true;
        },
        Option::None => {},
    }
    let ghost pn: int = if had_cap { 1int } else { 0int };
    proof {
        assert(had_cap == spec_capture_conflicts(assets@));
        assert(conflicts@.len() == gn + tn + cn + pn);
        assert(forall|k: int|
            0 <= k < conflicts@.len() ==> ((#[trigger] conflicts@[k]) is Gps <==> (had_gps && k
                == 0)));
        assert(forall|k: int|
            0 <= k < conflicts@.len() ==> ((#[trigger] conflicts@[k]) is Timezone <==> (had_tz
                && k == gn)));
        assert(forall|k: int|
            0 <= k < conflicts@.len() ==> ((#[trigger] conflicts@[k]) is CameraInfo <==> (
            had_cam && k == gn + tn)));
        assert(forall|k: int|
            0 <= k < conflicts@.len() ==> ((#[trigger] conflicts@[k]) is CaptureTime <==> (
            had_cap && k == gn + tn + cn)));
        assert(had_cap ==> string_values_of(conflicts@[gn + tn + cn]) == unique_trimmed(
            capture_values(assets@),
        ));
        if had_gps {
            assert(conflicts@[0] is Gps);
        }
        if had_tz {
            assert(conflicts@[gn] is Timezone);
        }
        if had_cam {
            assert(conflicts@[gn + tn] is CameraInfo);
        }
        if had_cap {
            assert(conflicts@[gn + tn + cn] is CaptureTime);
        }
        assert forall|k: int, l: int| 0 <= k < l < conflicts@.len() implies conflict_rank(
            #[trigger] conflicts@[k],
        ) < conflict_rank(#[trigger] conflicts@[l]) by {
            assert(conflict_rank(conflicts@[k]) == if conflicts@[k] is Gps {
                0int
            } else if conflicts@[k] is Timezone {
                1int
            } else if conflicts@[k] is CameraInfo {
                2int
            } else {
                3int
            });
        }
    }

    conflicts
}

/// A scored asset: id, filename, metadata score, and the file size used for
/// tiebreaking. Produced once per asset per analysis.
pub struct ScoredAsset {
    /// Asset unique identifier
    pub asset_id: String,

    /// Original filename
    pub filename: String,

    /// Metadata completeness score
    pub score: MetadataScore,

    /// File size in bytes (for tiebreaking)
    pub file_size: Option<u64>,
}

impl Clone for ScoredAsset {
    /// A clone agrees with the original field for field.
    fn clone(&self) -> (r: Self)
        ensures
            r.asset_id@ == self.asset_id@,
            r.filename@ == self.filename@,
            r.score == self.score,
            r.file_size == self.file_size,
    {
        ScoredAsset {
            asset_id: self.asset_id.clone(),
            filename: self.filename.clone(),
            score: self.score,
            file_size: self.file_size,
        }
    }
}

/// The file size recorded in an asset's EXIF block, if any.
pub open spec fn spec_file_size(a: AssetResponse) -> Option<u64> {
    match a.exif_info {
        Option::Some(e) => e.file_size_in_byte,
        Option::None => Option::None,
    }
}

/// An absent file size counts as zero for tiebreaking.
pub open spec fn size_or_zero(s: Option<u64>) -> u64 {
    match s {
        Option::Some(x) => x,
        Option::None => 0,
    }
}

/// Whether a scored asset is the faithful scoring of an asset.
pub open spec fn matches_scored(sa: ScoredAsset, a: AssetResponse) -> bool {
    &&& sa.asset_id@ == a.id@
    &&& sa.filename@ == a.original_file_name@
    &&& sa.score == spec_score(a)
    &&& sa.file_size == spec_file_size(a)
}

/// Whether `a` ranks strictly above `b`: a higher score total, or an equal
/// total and a larger file size.
pub open spec fn spec_beats(a: AssetResponse, b: AssetResponse) -> bool {
    ||| spec_score(a).total > spec_score(b).total
    ||| (spec_score(a).total == spec_score(b).total && size_or_zero(spec_file_size(a))
        > size_or_zero(spec_file_size(b)))
}

/// The index of the winner of a group: the first asset that no other asset
/// ranks strictly above.
pub open spec fn winner_index(assets: Seq<AssetResponse>) -> int
    decreases assets.len(),
{
    if assets.len() <= 1 {
        0
    } else {
        let w = winner_index(assets.drop_last());
        if spec_beats(assets.last(), assets[w]) {
            assets.len() - 1
        } else {
            w
        }
    }
}

/// The winner index is in range; no asset ranks strictly above the winner;
/// and the winner ranks strictly above every earlier asset (stability:
/// on a full tie the first asset wins).
pub proof fn lemma_winner_index(assets: Seq<AssetResponse>)
    requires
        assets.len() >= 1,
    ensures
        0 <= winner_index(assets) < assets.len(),
        forall|i: int|
            0 <= i < assets.len() ==> !spec_beats(
                #[trigger] assets[i],
                assets[winner_index(assets)],
            ),
        forall|i: int|
            0 <= i < winner_index(assets) ==> spec_beats(
                assets[winner_index(assets)],
                #[trigger] assets[i],
            ),
    decreases assets.len(),
{
    if assets.len() > 1 {
        lemma_winner_index(assets.drop_last());
        assert(forall|i: int|
            0 <= i < assets.len() - 1 ==> assets.drop_last()[i] == #[trigger] assets[i]);
    }
}

/// Analysis result for a duplicate group: the selected winner, the losers,
/// the detected conflicts, and whether manual review is recommended.
/// Created once per group, immutable; consumed by the executor.
pub struct DuplicateAnalysis {
    /// Duplicate group identifier
    pub duplicate_id: String,

    /// The asset selected as the winner (highest metadata score)
    pub winner: ScoredAsset,

    /// Assets that should be deleted (all non-winners, in input order)
    pub losers: Vec<ScoredAsset>,

    /// Detected metadata conflicts
    pub conflicts: Vec<MetadataConflict>,

    /// Whether manual review is recommended due to conflicts
    pub needs_review: bool,
}

/// The string value sequences of a single-asset group hold at most one
/// element each, so a single-asset group has no conflicts.
proof fn lemma_unique_trimmed_len(values: Seq<Seq<char>>)
    ensures
        unique_trimmed(values).len() <= values.len(),
    decreases values.len(),
{
    if values.len() > 0 {
        lemma_unique_trimmed_len(values.drop_last());
    }
}

/// A single-asset group produces no conflicts.
pub proof fn lemma_single_asset_no_conflicts(assets: Seq<AssetResponse>)
    requires
        assets.len() == 1,
    ensures
        conflict_count(assets) == 0,
{
    assert(gps_points(assets).len() <= 1) by {
        assert(gps_points(assets.drop_last()) =~= Seq::empty());
    }
    assert(tz_values(assets).len() <= 1) by {
        assert(tz_values(assets.drop_last()) =~= Seq::empty());
    }
    assert(camera_values(assets).len() <= 1) by {
        assert(camera_values(assets.drop_last()) =~= Seq::empty());
    }
    assert(capture_values(assets).len() <= 1) by {
        assert(capture_values(assets.drop_last()) =~= Seq::empty());
    }
    lemma_unique_trimmed_len(tz_values(assets));
    lemma_unique_trimmed_len(camera_values(assets));
    lemma_unique_trimmed_len(capture_values(assets));
}

impl DuplicateAnalysis {
    /// Analyze a duplicate group and select a winner.
    ///
    /// The winner is the asset with the highest metadata score; ties are
    /// broken by the larger file size, then by input order (the first such
    /// asset wins). The losers are every other asset, in input order.
    /// Conflicts are computed over the original asset list, and
    /// `needs_review` holds exactly when conflicts were found; a group with
    /// exactly one asset has no conflicts and an empty losers list.
    pub fn from_group(group: &DuplicateGroup) -> (r: DuplicateAnalysis)
        requires
            group.assets@.len() >= 1,
        ensures
            r.duplicate_id@ == group.duplicate_id@,
            matches_scored(r.winner, group.assets@[winner_index(group.assets@)]),
            r.losers@.len() == group.assets@.len() - 1,
            forall|i: int|
                0 <= i < winner_index(group.assets@) ==> matches_scored(
                    #[trigger] r.losers@[i],
                    group.assets@[i],
                ),
            forall|i: int|
                winner_index(group.assets@) <= i < r.losers@.len() ==> matches_scored(
                    #[trigger] r.losers@[i],
                    group.assets@[i + 1],
                ),
            forall|i: int|
                0 <= i < group.assets@.len() ==> !spec_beats(
                    #[trigger] group.assets@[i],
                    group.assets@[winner_index(group.assets@)],
                ),
            forall|i: int|
                0 <= i < winner_index(group.assets@) ==> spec_beats(
                    group.assets@[winner_index(group.assets@)],
                    #[trigger] group.assets@[i],
                ),
            r.needs_review <==> r.conflicts@.len() > 0,
            r.conflicts@.len() == conflict_count(group.assets@),
            (exists|k: int| 0 <= k < r.conflicts@.len() && #[trigger] r.conflicts@[k] is Gps)
                <==> spec_gps_conflicts(group.assets@),
            (exists|k: int| 0 <= k < r.conflicts@.len() && #[trigger] r.conflicts@[k] is Timezone)
                <==> spec_tz_conflicts(group.assets@),
            (exists|k: int|
                0 <= k < r.conflicts@.len() && #[trigger] r.conflicts@[k] is CameraInfo)
                <==> spec_camera_conflicts(group.assets@),
            (exists|k: int|
                0 <= k < r.conflicts@.len() && #[trigger] r.conflicts@[k] is CaptureTime)
                <==> spec_capture_conflicts(group.assets@),
            forall|k: int|
                0 <= k < r.conflicts@.len() && #[trigger] r.conflicts@[k] is Gps
                    ==> gps_values_of(r.conflicts@[k]) == dedupe_spec(gps_points(group.assets@)),
            forall|k: int|
                0 <= k < r.conflicts@.len() && #[trigger] r.conflicts@[k] is Timezone
                    ==> string_values_of(r.conflicts@[k]) == unique_trimmed(
                    tz_values(group.assets@),
                ),
            forall|k: int|
                0 <= k < r.conflicts@.len() && #[trigger] r.conflicts@[k] is CameraInfo
                    ==> string_values_of(r.conflicts@[k]) == unique_trimmed(
                    camera_values(group.assets@),
                ),
            forall|k: int|
                0 <= k < r.conflicts@.len() && #[trigger] r.conflicts@[k] is CaptureTime
                    ==> string_values_of(r.conflicts@[k]) == unique_trimmed(
                    capture_values(group.assets@),
                ),
            forall|k: int, l: int|
                0 <= k < l < r.conflicts@.len() ==> conflict_rank(#[trigger] r.conflicts@[k])
                    < conflict_rank(#[trigger] r.conflicts@[l]),
            group.assets@.len() == 1 ==> !r.needs_review && r.losers@.len() == 0,
    {
        let n = group.assets.len();

        let mut scored: Vec<ScoredAsset> = Vec::new();
        let mut i: usize = 0;
        while i < n
            invariant
                n == group.assets@.len(),
                i <= n,
                scored@.len() == i,
                forall|k: int|
                    0 <= k < i ==> matches_scored(#[trigger] scored@[k], group.assets@[k]),
            decreases n - i,
        {
            let asset = &group.assets[i];
            let file_size = match &asset.exif_info {
                Option::Some(e) => e.file_size_in_byte,
                Option::None => Option::None,
            };
            scored.push(
                ScoredAsset {
                    asset_id: asset.id.clone(),
                    filename: asset.original_file_name.clone(),
                    score: MetadataScore::from_asset(asset),
                    file_size,
                },
            );
            i = i + 1;
        }

        let mut w: usize = 0;
        let mut i: usize = 1;
        while i < n
            invariant
                n == group.assets@.len(),
                n >= 1,
                scored@.len() == n,
                forall|k: int|
                    0 <= k < n ==> matches_scored(#[trigger] scored@[k], group.assets@[k]),
                w < i <= n || (i <= n && w == 0),
                w < n,
                forall|k: int|
                    0 <= k < i ==> !spec_beats(#[trigger] group.assets@[k], group.assets@[w as int]),
                forall|k: int|
                    0 <= k < w ==> spec_beats(group.assets@[w as int], #[trigger] group.assets@[k]),
            decreases n - i,
        {
            let challenger_total = scored[i].score.total;
            let best_total = scored[w].score.total;
            let challenger_size = match scored[i].file_size {
                Option::Some(s) => s,
                Option::None => 0,
            };
            let best_size = match scored[w].file_size {
                Option::Some(s) => s,
                Option::None => 0,
            };
            if challenger_total > best_total || (challenger_total == best_total
                && challenger_size > best_size) {
                w = i;
            }
            i = i + 1;
        }

        proof {
            lemma_winner_index(group.assets@);
            let ws = winner_index(group.assets@);
            if (w as int) < ws {
                assert(spec_beats(group.assets@[ws], group.assets@[w as int]));
                assert(false);
            }
            if ws < (w as int) {
                assert(spec_beats(group.assets@[w as int], group.assets@[ws]));
                assert(false);
            }
        }

        let winner = scored.remove(w);
        let losers = scored;

        let conflicts = detect_conflicts(&group.assets);
        let needs_review = conflicts.len() > 0;

        proof {
            if group.assets@.len() == 1 {
                lemma_single_asset_no_conflicts(group.assets@);
            }
        }

        DuplicateAnalysis {
            duplicate_id: group.duplicate_id.clone(),
            winner,
            losers,
            conflicts,
            needs_review,
        }
    }
}

} // verus!
