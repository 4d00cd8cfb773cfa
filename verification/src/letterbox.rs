//! Letterbox detection and pairing for iPhone 4:3/16:9 crop duplicates.
//!
//! Identifies pairs where an iPhone photo exists both at 4:3 (full sensor,
//! more pixels) and at 16:9 (cropped). The 4:3 version is always the keeper
//! since it contains the full scene. Aspect ratios are matched within a
//! tolerance of one hundredth, in exact integer arithmetic.

use vstd::prelude::*;

use crate::models::asset::{same_asset, AssetResponse};
use crate::text::{concat_str, contains_sub, lower_of, lowercase, spec_contains, str_eq};

verus! {

/// Aspect ratio classification for iPhone photos.
#[derive(Debug, Clone, Copy, PartialEq, Eq, Structural)]
pub enum AspectRatio {
    /// 4:3 ratio (1.333) - full sensor capture
    FourThree,
    /// 16:9 ratio (1.778) - cropped version
    SixteenNine,
}

/// The aspect classification of a width and height: orientation-agnostic
/// (the longer side over the shorter), 4:3 when the ratio lies strictly
/// within one hundredth of 4/3, else 16:9 when strictly within one hundredth
/// of 16/9, else unclassified. In exact arithmetic, `|mx/mn - 4/3| < 1/100`
/// is `|300 mx - 400 mn| < 3 mn`.
pub open spec fn spec_aspect(width: u32, height: u32) -> Option<AspectRatio> {
    if width == 0 || height == 0 {
        Option::None
    } else {
        let mx: int = if width >= height { width as int } else { height as int };
        let mn: int = if width >= height { height as int } else { width as int };
        if -3 * mn < 300 * mx - 400 * mn < 3 * mn {
            Option::Some(AspectRatio::FourThree)
        } else if -9 * mn < 900 * mx - 1600 * mn < 9 * mn {
            Option::Some(AspectRatio::SixteenNine)
        } else {
            Option::None
        }
    }
}

/// Detect the aspect ratio of an image from its dimensions, treating
/// portrait and landscape orientations alike.
pub fn detect_aspect_ratio(width: u32, height: u32) -> (r: Option<AspectRatio>)
    ensures
        r == spec_aspect(width, height),
{
    if width == 0 || height == 0 {
        return Option::None;
    }
    let mx: u64 = if width >= height { width as u64 } else { height as u64 };
    let mn: u64 = if width >= height { height as u64 } else { width as u64 };
    let a: u64 = 300 * mx;
    let b: u64 = 400 * mn;
    let d43: u64 = if a >= b { a - b } else { b - a };
    if d43 < 3 * mn {
        return Option::Some(AspectRatio::FourThree);
    }
    let c: u64 = 900 * mx;
    let e: u64 = 1600 * mn;
    let d169: u64 = if c >= e { c - e } else { e - c };
    if d169 < 9 * mn {
        return Option::Some(AspectRatio::SixteenNine);
    }
    Option::None
}

/// A detected letterbox pair: the 4:3 original and its 16:9 crop.
pub struct LetterboxPair {
    /// The 4:3 version to keep (more pixels, full scene)
    pub keeper: AssetResponse,
    /// The 16:9 version to delete (cropped)
    pub delete: AssetResponse,
    /// Shared capture timestamp, truncated to the second
    pub timestamp: String,
    /// Camera identifier (e.g., "Apple iPhone 15 Pro Max")
    pub camera: String,
}

/// The index of the first occurrence of `c` in `s`, or -1 when absent.
pub open spec fn find_spec(s: Seq<char>, c: char) -> int
    decreases s.len(),
{
    if s.len() == 0 {
        -1
    } else if s[0] == c {
        0
    } else {
        let r = find_spec(s.drop_first(), c);
        if r < 0 {
            -1
        } else {
            r + 1
        }
    }
}

/// `find_spec` names the first occurrence: nonnegative exactly when the
/// character occurs, and then the least index holding it.
pub proof fn lemma_find_spec(s: Seq<char>, c: char)
    ensures
        find_spec(s, c) == -1 || (0 <= find_spec(s, c) < s.len() && s[find_spec(s, c)] == c),
        find_spec(s, c) == -1 ==> forall|k: int| 0 <= k < s.len() ==> s[k] != c,
        forall|k: int| 0 <= k < find_spec(s, c) ==> s[k] != c,
    decreases s.len(),
{
    if s.len() > 0 {
        let d = s.drop_first();
        lemma_find_spec(d, c);
        assert(forall|k: int| 0 <= k < d.len() ==> #[trigger] d[k] == s[k + 1]);
        if s[0] == c {
        } else {
            let r = find_spec(d, c);
            if r < 0 {
                assert forall|k: int| 0 <= k < s.len() implies s[k] != c by {
                    if k > 0 {
                        assert(d[k - 1] == s[k]);
                        assert(d[k - 1] != c);
                    }
                }
            } else {
                assert(find_spec(s, c) == r + 1);
                assert(s[r + 1] == d[r]);
                assert forall|k: int| 0 <= k < find_spec(s, c) implies s[k] != c by {
                    if k > 0 {
                        assert(d[k - 1] == s[k]);
                        assert(d[k - 1] != c);
                    }
                }
            }
        }
    }
}

/// The first occurrence of `c` in `s`.
fn find_char(s: &str, c: char, slen: usize) -> (r: Option<usize>)
    requires
        slen == s@.len(),
    ensures
        r is Some ==> r.unwrap() == find_spec(s@, c),
        r is None ==> find_spec(s@, c) == -1,
{
    proof {
        lemma_find_spec(s@, c);
    }
    let mut i: usize = 0;
    while i < slen
        invariant
            slen == s@.len(),
            i <= slen,
            forall|k: int| 0 <= k < i ==> s@[k] != c,
            find_spec(s@, c) == -1 || (0 <= find_spec(s@, c) < s@.len() && s@[find_spec(s@, c)]
                == c),
            forall|k: int| 0 <= k < find_spec(s@, c) ==> s@[k] != c,
            find_spec(s@, c) == -1 ==> forall|k: int| 0 <= k < s@.len() ==> s@[k] != c,
        decreases slen - i,
    {
        if s.get_char(i) == c {
            proof {
                if find_spec(s@, c) < i {
                    assert(s@[i as int] == c);
                }
                if find_spec(s@, c) > i {
                    assert(s@[i as int] != c);
                }
            }
            return Option::Some(i);
        }
        i = i + 1;
    }
    Option::None
}

/// A capture timestamp truncated to the second: cut at the first dot
/// (sub-second precision) or, failing that, at the first 'Z'.
pub open spec fn ts_second(ts: Seq<char>) -> Seq<char> {
    if find_spec(ts, '.') >= 0 {
        ts.take(find_spec(ts, '.'))
    } else if find_spec(ts, 'Z') >= 0 {
        ts.take(find_spec(ts, 'Z'))
    } else {
        ts
    }
}

/// Truncate a capture timestamp to the second.
fn truncate_timestamp(ts: &str) -> (r: String)
    ensures
        r@ == ts_second(ts@),
{
    let slen = ts.unicode_len();
    match find_char(ts, '.', slen) {
        Option::Some(i) => {
            proof {
                lemma_find_spec(ts@, '.');
            }
            return ts.substring_char(0, i).to_owned();
        },
        Option::None => {},
    }
    match find_char(ts, 'Z', slen) {
        Option::Some(i) => {
            proof {
                lemma_find_spec(ts@, 'Z');
            }
            return ts.substring_char(0, i).to_owned();
        },
        Option::None => {},
    }
    ts.to_owned()
}

/// A GPS coordinate in microdegrees rounded to ten-thousandths of a degree
/// (hundreds of microdegrees), half away from zero: roughly 11 meters.
pub open spec fn round_to_4dec(v: int) -> int {
    if v >= 0 {
        (v + 50) / 100
    } else {
        -(((-v) + 50) / 100)
    }
}

/// Round a microdegree coordinate to ten-thousandths of a degree.
fn round_udeg(v: i64) -> (r: i64)
    ensures
        r as int == round_to_4dec(v as int),
{
    if v >= 0 {
        let w: i128 = (v as i128 + 50) / 100;
        proof {
            assert(w <= i64::MAX as i128);
        }
        w as i64
    } else {
        let w: i128 = ((-(v as i128)) + 50) / 100;
        proof {
            assert(w <= -(i64::MIN as i128));
        }
        (-w) as i64
    }
}

/// Whether an asset carries everything a pairing key needs: a capture
/// timestamp, a make, and a model.
pub open spec fn has_pairing_key(a: AssetResponse) -> bool {
    match a.exif_info {
        Option::Some(e) => e.date_time_original is Some && e.make is Some && e.model is Some,
        Option::None => false,
    }
}

/// The second-truncated timestamp of an asset's pairing key.
pub open spec fn key_ts(a: AssetResponse) -> Seq<char> {
    ts_second(a.exif_info.unwrap().date_time_original.unwrap()@)
}

/// The rounded GPS point of an asset's pairing key, when both coordinates
/// are present.
pub open spec fn key_gps(a: AssetResponse) -> Option<(int, int)> {
    match (a.exif_info.unwrap().latitude, a.exif_info.unwrap().longitude) {
        (Option::Some(lat), Option::Some(lon)) => Option::Some(
            (round_to_4dec(lat as int), round_to_4dec(lon as int)),
        ),
        _ => Option::None,
    }
}

/// Whether two assets group under the same pairing key: the same capture
/// second, make, model, and rounded GPS point.
pub open spec fn same_pairing_key(a: AssetResponse, b: AssetResponse) -> bool {
    &&& key_ts(a) == key_ts(b)
    &&& a.exif_info.unwrap().make.unwrap()@ == b.exif_info.unwrap().make.unwrap()@
    &&& a.exif_info.unwrap().model.unwrap()@ == b.exif_info.unwrap().model.unwrap()@
    &&& key_gps(a) == key_gps(b)
}

/// Internal key for grouping assets by capture moment.
struct PairingKey {
    /// Capture timestamp truncated to the second
    timestamp_second: String,
    /// Camera manufacturer (e.g., "Apple")
    make: String,
    /// Camera model (e.g., "iPhone 15 Pro Max")
    model: String,
    /// GPS rounded to ten-thousandths of a degree, if available
    gps_key: Option<(i64, i64)>,
}

/// Whether an exec pairing key represents an asset's key.
spec fn key_represents(k: PairingKey, a: AssetResponse) -> bool {
    &&& has_pairing_key(a)
    &&& k.timestamp_second@ == key_ts(a)
    &&& k.make@ == a.exif_info.unwrap().make.unwrap()@
    &&& k.model@ == a.exif_info.unwrap().model.unwrap()@
    &&& (match k.gps_key {
        Option::Some(p) => key_gps(a) == Option::Some((p.0 as int, p.1 as int)),
        Option::None => key_gps(a) is None,
    })
}

impl PairingKey {
    /// Create a pairing key from an asset; absent when a required field is
    /// missing.
    fn from_asset(asset: &AssetResponse) -> (r: Option<Self>)
        ensures
            r is Some <==> has_pairing_key(*asset),
            r is Some ==> key_represents(r.unwrap(), *asset),
    {
        let exif = match &asset.exif_info {
            Option::Some(e) => e,
            Option::None => {
                return Option::None;
            },
        };
        let timestamp = match &exif.date_time_original {
            Option::Some(ts) => ts,
            Option::None => {
                return Option::None;
            },
        };
        let make = match &exif.make {
            Option::Some(m) => m.clone(),
            Option::None => {
                return Option::None;
            },
        };
        let model = match &exif.model {
            Option::Some(m) => m.clone(),
            Option::None => {
                return Option::None;
            },
        };
        let timestamp_second = truncate_timestamp(timestamp.as_str());
        let gps_key = match (&exif.latitude, &exif.longitude) {
            (Option::Some(lat), Option::Some(lon)) => Option::Some(
                (round_udeg(*lat), round_udeg(*lon)),
            ),
            _ => Option::None,
        };
        Option::Some(PairingKey { timestamp_second, make, model, gps_key })
    }

    /// Whether this key equals another, field for field.
    fn matches(&self, other: &PairingKey) -> (r: bool)
        ensures
            r == (self.timestamp_second@ == other.timestamp_second@ && self.make@ == other.make@
                && self.model@ == other.model@ && self.gps_key == other.gps_key),
    {
        if !str_eq(self.timestamp_second.as_str(), other.timestamp_second.as_str()) {
            return false;
        }
        if !str_eq(self.make.as_str(), other.make.as_str()) {
            return false;
        }
        if !str_eq(self.model.as_str(), other.model.as_str()) {
            return false;
        }
        match (&self.gps_key, &other.gps_key) {
            (Option::None, Option::None) => true,
            (Option::Some(p), Option::Some(q)) => p.0 == q.0 && p.1 == q.1,
            _ => false,
        }
    }
}

/// Whether an asset is from an iPhone: the make mentions "apple" and the
/// model mentions "iphone", case-insensitively.
pub open spec fn spec_is_iphone(a: AssetResponse) -> bool {
    match a.exif_info {
        Option::Some(e) => {
            &&& e.make is Some
            &&& spec_contains(lower_of(e.make.unwrap()@), "apple"@)
            &&& e.model is Some
            &&& spec_contains(lower_of(e.model.unwrap()@), "iphone"@)
        },
        Option::None => false,
    }
}

/// Check if an asset is from an iPhone.
fn is_iphone_asset(asset: &AssetResponse) -> (r: bool)
    ensures
        r == spec_is_iphone(*asset),
{
    let exif = match &asset.exif_info {
        Option::Some(e) => e,
        Option::None => {
            return false;
        },
    };
    let is_apple = match &exif.make {
        Option::Some(make) => {
            let lowered = lowercase(make.as_str());
            contains_sub(lowered.as_str(), "apple")
        },
        Option::None => false,
    };
    let is_iphone = match &exif.model {
        Option::Some(model) => {
            let lowered = lowercase(model.as_str());
            contains_sub(lowered.as_str(), "iphone")
        },
        Option::None => false,
    };
    is_apple && is_iphone
}

/// The aspect classification of an asset's recorded dimensions.
pub open spec fn spec_asset_aspect(a: AssetResponse) -> Option<AspectRatio> {
    match a.exif_info {
        Option::Some(e) => match (e.exif_image_width, e.exif_image_height) {
            (Option::Some(w), Option::Some(h)) => spec_aspect(w, h),
            _ => Option::None,
        },
        Option::None => Option::None,
    }
}

/// Get the aspect ratio from an asset's dimensions.
fn get_asset_aspect_ratio(asset: &AssetResponse) -> (r: Option<AspectRatio>)
    ensures
        r == spec_asset_aspect(*asset),
{
    match &asset.exif_info {
        Option::Some(e) => match (&e.exif_image_width, &e.exif_image_height) {
            (Option::Some(w), Option::Some(h)) => detect_aspect_ratio(*w, *h),
            _ => Option::None,
        },
        Option::None => Option::None,
    }
}

/// Whether an asset takes part in pairing: an untrashed iPhone photo with a
/// recognised aspect ratio and a complete pairing key.
pub open spec fn spec_eligible(a: AssetResponse) -> bool {
    &&& spec_is_iphone(a)
    &&& !a.is_trashed
    &&& spec_asset_aspect(a) is Some
    &&& has_pairing_key(a)
}

/// Whether a pair is a letterbox pair of the asset list: a 4:3 keeper and a
/// 16:9 crop, both eligible, grouped under the same pairing key.
pub open spec fn spec_valid_pair(p: LetterboxPair, assets: Seq<AssetResponse>) -> bool {
    exists|i: int, j: int|
        {
            &&& 0 <= i < assets.len()
            &&& 0 <= j < assets.len()
            &&& i != j
            &&& spec_eligible(#[trigger] assets[i])
            &&& spec_eligible(#[trigger] assets[j])
            &&& spec_asset_aspect(assets[i]) == Option::Some(AspectRatio::FourThree)
            &&& spec_asset_aspect(assets[j]) == Option::Some(AspectRatio::SixteenNine)
            &&& same_pairing_key(assets[i], assets[j])
            &&& same_asset(p.keeper, assets[i])
            &&& same_asset(p.delete, assets[j])
            &&& p.timestamp@ == key_ts(assets[i])
            &&& p.camera@ == assets[i].exif_info.unwrap().make.unwrap()@ + " "@
                + assets[i].exif_info.unwrap().model.unwrap()@
        }
}

/// Whether two pairing keys agree field for field.
spec fn keys_equal(a: PairingKey, b: PairingKey) -> bool {
    &&& a.timestamp_second@ == b.timestamp_second@
    &&& a.make@ == b.make@
    &&& a.model@ == b.model@
    &&& a.gps_key == b.gps_key
}

/// Two assets represented by the same key group under the same pairing key.
proof fn lemma_key_shared(k: PairingKey, a: AssetResponse, b: AssetResponse)
    requires
        key_represents(k, a),
        key_represents(k, b),
    ensures
        same_pairing_key(a, b),
{
}

/// Keys representing assets with the same pairing key agree field for field.
proof fn lemma_keys_align(k1: PairingKey, k2: PairingKey, a: AssetResponse, b: AssetResponse)
    requires
        key_represents(k1, a),
        key_represents(k2, b),
        same_pairing_key(a, b),
    ensures
        keys_equal(k1, k2),
{
}

/// Whether `idx` is listed in one of the first `upto` member lists.
spec fn member_of(members: Seq<Vec<usize>>, upto: int, idx: int) -> bool {
    exists|g: int, t: int|
        0 <= g < upto && 0 <= t < members[g]@.len() && members[g]@[t] == idx
}

/// A 4:3 photo and a 16:9 photo, each the only eligible photo of its ratio
/// under their shared pairing key.
pub open spec fn spec_clean_pair(assets: Seq<AssetResponse>, i: int, j: int) -> bool {
    &&& 0 <= i < assets.len()
    &&& 0 <= j < assets.len()
    &&& spec_eligible(assets[i])
    &&& spec_eligible(assets[j])
    &&& spec_asset_aspect(assets[i]) == Option::Some(AspectRatio::FourThree)
    &&& spec_asset_aspect(assets[j]) == Option::Some(AspectRatio::SixteenNine)
    &&& same_pairing_key(assets[i], assets[j])
    &&& forall|t: int|
        0 <= t < assets.len() && spec_eligible(#[trigger] assets[t]) && same_pairing_key(
            assets[t],
            assets[i],
        ) && spec_asset_aspect(assets[t]) == Option::Some(AspectRatio::FourThree) ==> t == i
    &&& forall|t: int|
        0 <= t < assets.len() && spec_eligible(#[trigger] assets[t]) && same_pairing_key(
            assets[t],
            assets[i],
        ) && spec_asset_aspect(assets[t]) == Option::Some(AspectRatio::SixteenNine) ==> t == j
}

/// Whether the pair list records a pair keeping `i` and deleting `j`.
pub open spec fn pair_recorded(
    pairs: Seq<LetterboxPair>,
    assets: Seq<AssetResponse>,
    i: int,
    j: int,
) -> bool {
    exists|k: int|
        0 <= k < pairs.len() && same_asset((#[trigger] pairs[k]).keeper, assets[i]) && same_asset(
            pairs[k].delete,
            assets[j],
        )
}

/// The number of listed assets whose aspect classification is `r`.
spec fn count_aspect(assets: Seq<AssetResponse>, mem: Seq<usize>, r: AspectRatio) -> nat
    decreases mem.len(),
{
    if mem.len() == 0 {
        0
    } else {
        count_aspect(assets, mem.drop_last(), r) + (
        if mem.last() < assets.len() && spec_asset_aspect(assets[mem.last() as int])
            == Option::Some(r) {
            1nat
        } else {
            0nat
        })
    }
}

/// A list none of whose assets classifies as `r` counts zero.
proof fn lemma_count_aspect_zero(assets: Seq<AssetResponse>, mem: Seq<usize>, r: AspectRatio)
    requires
        forall|t: int|
            0 <= t < mem.len() ==> (#[trigger] mem[t]) < assets.len() && spec_asset_aspect(
                assets[mem[t] as int],
            ) != Option::Some(r),
    ensures
        count_aspect(assets, mem, r) == 0,
    decreases mem.len(),
{
    if mem.len() > 0 {
        assert(forall|t: int| 0 <= t < mem.len() - 1 ==> #[trigger] mem.drop_last()[t] == mem[t]);
        lemma_count_aspect_zero(assets, mem.drop_last(), r);
    }
}

/// A strictly increasing list whose only `r`-classified asset is `x`, with
/// `x` listed, counts exactly one.
proof fn lemma_count_aspect_one(
    assets: Seq<AssetResponse>,
    mem: Seq<usize>,
    r: AspectRatio,
    x: int,
)
    requires
        forall|t1: int, t2: int|
            0 <= t1 < t2 < mem.len() ==> #[trigger] mem[t1] < #[trigger] mem[t2],
        forall|t: int| 0 <= t < mem.len() ==> (#[trigger] mem[t]) < assets.len(),
        forall|t: int|
            0 <= t < mem.len() && spec_asset_aspect(assets[(#[trigger] mem[t]) as int])
                == Option::Some(r) ==> mem[t] == x,
        exists|t: int| 0 <= t < mem.len() && (#[trigger] mem[t]) == x,
        0 <= x < assets.len(),
        spec_asset_aspect(assets[x]) == Option::Some(r),
    ensures
        count_aspect(assets, mem, r) == 1,
    decreases mem.len(),
{
    let d = mem.drop_last();
    assert(forall|t: int| 0 <= t < d.len() ==> #[trigger] d[t] == mem[t]);
    if mem.last() == x {
        assert forall|t: int|
            0 <= t < d.len() implies (#[trigger] d[t]) < assets.len() && spec_asset_aspect(
            assets[d[t] as int],
        ) != Option::Some(r) by {
            assert(mem[t] < mem[mem.len() - 1]);
        }
        lemma_count_aspect_zero(assets, d, r);
    } else {
        assert(spec_asset_aspect(assets[mem.last() as int]) != Option::Some(r));
        let t0 = choose|t: int| 0 <= t < mem.len() && (#[trigger] mem[t]) == x;
        assert(t0 < mem.len() - 1);
        assert(d[t0] == x);
        lemma_count_aspect_one(assets, d, r, x);
    }
}

/// A group holding one end of a clean pair holds both ends and nothing
/// else of either ratio: its 4:3 and 16:9 counts are exactly one each.
proof fn lemma_group_resolves(
    assets: Seq<AssetResponse>,
    keys: Seq<PairingKey>,
    members: Seq<Vec<usize>>,
    g: int,
    i2: int,
    j2: int,
)
    requires
        keys.len() == members.len(),
        0 <= g < keys.len(),
        forall|gg: int, tt: int|
            0 <= gg < members.len() && 0 <= tt < members[gg]@.len() ==> {
                let idx = #[trigger] members[gg]@[tt];
                &&& idx < assets.len()
                &&& spec_eligible(assets[idx as int])
                &&& key_represents(keys[gg], assets[idx as int])
            },
        forall|g1: int, g2: int|
            0 <= g1 < g2 < keys.len() ==> !keys_equal(#[trigger] keys[g1], #[trigger] keys[g2]),
        forall|gg: int, t1: int, t2: int|
            0 <= gg < members.len() && 0 <= t1 < t2 < members[gg]@.len()
                ==> #[trigger] members[gg]@[t1] < #[trigger] members[gg]@[t2],
        forall|idx: int|
            0 <= idx < assets.len() && spec_eligible(#[trigger] assets[idx]) ==> member_of(
                members,
                members.len() as int,
                idx,
            ),
        spec_clean_pair(assets, i2, j2),
        exists|t: int| 0 <= t < members[g]@.len() && (#[trigger] members[g]@[t]) == i2,
    ensures
        count_aspect(assets, members[g]@, AspectRatio::FourThree) == 1,
        count_aspect(assets, members[g]@, AspectRatio::SixteenNine) == 1,
        forall|t: int|
            0 <= t < members[g]@.len() && spec_asset_aspect(
                assets[(#[trigger] members[g]@[t]) as int],
            ) == Option::Some(AspectRatio::FourThree) ==> members[g]@[t] == i2,
        forall|t: int|
            0 <= t < members[g]@.len() && spec_asset_aspect(
                assets[(#[trigger] members[g]@[t]) as int],
            ) == Option::Some(AspectRatio::SixteenNine) ==> members[g]@[t] == j2,
{
    let mem = members[g]@;
    let ti = choose|t: int| 0 <= t < mem.len() && (#[trigger] mem[t]) == i2;
    assert(key_represents(keys[g], assets[i2]));

    // the 16:9 end of the pair sits in the same group, because every
    // eligible asset is grouped and equal pairing keys share a group
    assert(member_of(members, members.len() as int, j2));
    let (g3, tj): (int, int) = choose|g3: int, tj: int|
        0 <= g3 < members.len() && 0 <= tj < members[g3]@.len() && members[g3]@[tj] == j2;
    assert(key_represents(keys[g3], assets[j2]));
    lemma_keys_align(keys[g], keys[g3], assets[i2], assets[j2]);
    if g3 != g {
        if g < g3 {
            assert(!keys_equal(keys[g], keys[g3]));
        } else {
            assert(!keys_equal(keys[g3], keys[g]));
        }
        assert(false);
    }
    assert(exists|t: int| 0 <= t < mem.len() && (#[trigger] mem[t]) == j2);

    // every member of this ratio is the corresponding end of the pair
    assert forall|t: int|
        0 <= t < mem.len() && spec_asset_aspect(assets[(#[trigger] mem[t]) as int])
            == Option::Some(AspectRatio::FourThree) implies mem[t] == i2 by {
        lemma_key_shared(keys[g], assets[mem[t] as int], assets[i2]);
    }
    assert forall|t: int|
        0 <= t < mem.len() && spec_asset_aspect(assets[(#[trigger] mem[t]) as int])
            == Option::Some(AspectRatio::SixteenNine) implies mem[t] == j2 by {
        lemma_key_shared(keys[g], assets[mem[t] as int], assets[i2]);
    }

    lemma_count_aspect_one(assets, mem, AspectRatio::FourThree, i2);
    lemma_count_aspect_one(assets, mem, AspectRatio::SixteenNine, j2);
}

/// Find letterbox pairs in a collection of assets.
///
/// Groups untrashed iPhone photos by pairing key (capture second, make,
/// model, rounded GPS); a group holding exactly one 4:3 photo and exactly
/// one 16:9 photo yields a pair, 4:3 as keeper. Ambiguous groups (several
/// photos of the same ratio at one moment) yield nothing: a pair is
/// returned exactly for the clean pairs, and nothing else.
#[verifier::rlimit(100)]
pub fn find_letterbox_pairs(assets: &Vec<AssetResponse>) -> (pairs: Vec<LetterboxPair>)
    ensures
        forall|k: int|
            0 <= k < pairs@.len() ==> spec_valid_pair(#[trigger] pairs@[k], assets@),
        forall|i: int, j: int|
            spec_clean_pair(assets@, i, j) ==> pair_recorded(pairs@, assets@, i, j),
{
    let n = assets.len();

    let mut keys: Vec<PairingKey> = Vec::new();
    let mut members: Vec<Vec<usize>> = Vec::new();

    let mut i: usize = 0;
    while i < n
        invariant
            n == assets@.len(),
            i <= n,
            keys@.len() == members@.len(),
            forall|g: int, t: int|
                0 <= g < members@.len() && 0 <= t < members@[g]@.len() ==> {
                    let idx = #[trigger] members@[g]@[t];
                    &&& idx < i
                    &&& spec_eligible(assets@[idx as int])
                    &&& key_represents(keys@[g], assets@[idx as int])
                },
            forall|g1: int, g2: int|
                0 <= g1 < g2 < keys@.len() ==> !keys_equal(
                    #[trigger] keys@[g1],
                    #[trigger] keys@[g2],
                ),
            forall|g: int, t1: int, t2: int|
                0 <= g < members@.len() && 0 <= t1 < t2 < members@[g]@.len()
                    ==> #[trigger] members@[g]@[t1] < #[trigger] members@[g]@[t2],
            forall|idx: int|
                0 <= idx < i && spec_eligible(#[trigger] assets@[idx]) ==> member_of(
                    members@,
                    members@.len() as int,
                    idx,
                ),
        decreases n - i,
    {
        let asset = &assets[i];
        let mut grouped = false;
        if is_iphone_asset(asset) && !asset.is_trashed {
            let has_ratio = match get_asset_aspect_ratio(asset) {
                Option::Some(_) => true,
                Option::None => false,
            };
            if has_ratio {
                match PairingKey::from_asset(asset) {
                    Option::Some(key) => {
                        grouped = true;
                        proof {
                            assert(key_represents(key, assets@[i as int]));
                            assert(spec_eligible(assets@[i as int]));
                        }
                        let g_count = keys.len();
                        let mut g: usize = 0;
                        let mut found = false;
                        while g < g_count && !found
                            invariant
                                g_count == keys@.len(),
                                keys@.len() == members@.len(),
                                g <= g_count,
                                found ==> g < g_count && keys_equal(keys@[g as int], key),
                                !found ==> forall|g2: int|
                                    0 <= g2 < g ==> !keys_equal(#[trigger] keys@[g2], key),
                            decreases g_count - g + (if found {
                                0int
                            } else {
                                1int
                            }),
                        {
                            if keys[g].matches(&key) {
                                found = true;
                            } else {
                                g = g + 1;
                            }
                        }
                        let ghost old_members = members@;
                        let ghost old_keys = keys@;
                        if found {
                            proof {
                                assert(key_represents(keys@[g as int], assets@[i as int]));
                            }
                            let mut member_list = members.remove(g);
                            member_list.push(i);
                            members.insert(g, member_list);
                            proof {
                                assert(members@ =~= old_members.update(
                                    g as int,
                                    members@[g as int],
                                ));
                                assert(members@[g as int]@ =~= old_members[g as int]@.push(
                                    i as usize,
                                ));
                                assert forall|gg: int, tt: int|
                                    0 <= gg < members@.len() && 0 <= tt
                                        < members@[gg]@.len() implies {
                                    let idx = #[trigger] members@[gg]@[tt];
                                    &&& idx < i + 1
                                    &&& spec_eligible(assets@[idx as int])
                                    &&& key_represents(keys@[gg], assets@[idx as int])
                                } by {
                                    if gg == g {
                                        if tt < old_members[gg]@.len() {
                                            assert(members@[gg]@[tt] == old_members[gg]@[tt]);
                                        } else {
                                            assert(members@[gg]@[tt] == i as usize);
                                        }
                                    } else {
                                        assert(members@[gg]@[tt] == old_members[gg]@[tt]);
                                    }
                                }
                                assert forall|gg: int, t1: int, t2: int|
                                    0 <= gg < members@.len() && 0 <= t1 < t2
                                        < members@[gg]@.len() implies #[trigger] members@[gg]@[t1]
                                    < #[trigger] members@[gg]@[t2] by {
                                    if gg == g {
                                        if t2 < old_members[gg]@.len() {
                                            assert(members@[gg]@[t1] == old_members[gg]@[t1]);
                                            assert(members@[gg]@[t2] == old_members[gg]@[t2]);
                                        } else {
                                            assert(members@[gg]@[t1] == old_members[gg]@[t1]);
                                            assert(members@[gg]@[t2] == i as usize);
                                            assert(old_members[gg]@[t1] < i);
                                        }
                                    } else {
                                        assert(members@[gg]@[t1] == old_members[gg]@[t1]);
                                        assert(members@[gg]@[t2] == old_members[gg]@[t2]);
                                    }
                                }
                                assert forall|idx: int|
                                    0 <= idx < i + 1 && spec_eligible(
                                        #[trigger] assets@[idx],
                                    ) implies member_of(members@, members@.len() as int, idx) by {
                                    if idx < i {
                                        let (g2, t2): (int, int) = choose|g2: int, t2: int|
                                            0 <= g2 < old_members.len() && 0 <= t2
                                                < old_members[g2]@.len() && old_members[g2]@[t2]
                                                == idx;
                                        if g2 == g {
                                            assert(members@[g2]@[t2] == old_members[g2]@[t2]);
                                        } else {
                                            assert(members@[g2]@[t2] == old_members[g2]@[t2]);
                                        }
                                    } else {
                                        assert(members@[g as int]@[old_members[g as int]@.len() as int]
                                            == i as usize);
                                    }
                                }
                            }
                        } else {
                            keys.push(key);
                            let mut member_list: Vec<usize> = Vec::new();
                            member_list.push(i);
                            members.push(member_list);
                            proof {
                                assert forall|gg: int, tt: int|
                                    0 <= gg < members@.len() && 0 <= tt
                                        < members@[gg]@.len() implies {
                                    let idx = #[trigger] members@[gg]@[tt];
                                    &&& idx < i + 1
                                    &&& spec_eligible(assets@[idx as int])
                                    &&& key_represents(keys@[gg], assets@[idx as int])
                                } by {
                                    if gg < old_members.len() {
                                        assert(members@[gg]@[tt] == old_members[gg]@[tt]);
                                        assert(keys@[gg] == old_keys[gg]);
                                    } else {
                                        assert(members@[gg]@[tt] == i as usize);
                                        assert(keys@[gg] == key);
                                    }
                                }
                                assert forall|g1: int, g2: int|
                                    0 <= g1 < g2 < keys@.len() implies !keys_equal(
                                    #[trigger] keys@[g1],
                                    #[trigger] keys@[g2],
                                ) by {
                                    if g2 < old_keys.len() {
                                        assert(keys@[g1] == old_keys[g1]);
                                        assert(keys@[g2] == old_keys[g2]);
                                    } else {
                                        assert(keys@[g1] == old_keys[g1]);
                                        assert(keys@[g2] == key);
                                        assert(!keys_equal(old_keys[g1], key));
                                    }
                                }
                                assert forall|gg: int, t1: int, t2: int|
                                    0 <= gg < members@.len() && 0 <= t1 < t2
                                        < members@[gg]@.len() implies #[trigger] members@[gg]@[t1]
                                    < #[trigger] members@[gg]@[t2] by {
                                    if gg < old_members.len() {
                                        assert(members@[gg]@[t1] == old_members[gg]@[t1]);
                                        assert(members@[gg]@[t2] == old_members[gg]@[t2]);
                                    }
                                }
                                assert forall|idx: int|
                                    0 <= idx < i + 1 && spec_eligible(
                                        #[trigger] assets@[idx],
                                    ) implies member_of(members@, members@.len() as int, idx) by {
                                    if idx < i {
                                        let (g2, t2): (int, int) = choose|g2: int, t2: int|
                                            0 <= g2 < old_members.len() && 0 <= t2
                                                < old_members[g2]@.len() && old_members[g2]@[t2]
                                                == idx;
                                        assert(members@[g2]@[t2] == old_members[g2]@[t2]);
                                    } else {
                                        assert(members@[members@.len() - 1]@[0] == i as usize);
                                    }
                                }
                            }
                        }
                    },
                    Option::None => {},
                }
            }
        }
        proof {
            if !grouped {
                assert(!spec_eligible(assets@[i as int]));
            }
        }
        i = i + 1;
    }

    let mut pairs: Vec<LetterboxPair> = Vec::new();
    let g_count = keys.len();
    let mut g: usize = 0;
    while g < g_count
        invariant
            n == assets@.len(),
            g_count == keys@.len(),
            keys@.len() == members@.len(),
            g <= g_count,
            forall|gg: int, t: int|
                0 <= gg < members@.len() && 0 <= t < members@[gg]@.len() ==> {
                    let idx = #[trigger] members@[gg]@[t];
                    &&& idx < n
                    &&& spec_eligible(assets@[idx as int])
                    &&& key_represents(keys@[gg], assets@[idx as int])
                },
            forall|g1: int, g2: int|
                0 <= g1 < g2 < keys@.len() ==> !keys_equal(
                    #[trigger] keys@[g1],
                    #[trigger] keys@[g2],
                ),
            forall|gg: int, t1: int, t2: int|
                0 <= gg < members@.len() && 0 <= t1 < t2 < members@[gg]@.len()
                    ==> #[trigger] members@[gg]@[t1] < #[trigger] members@[gg]@[t2],
            forall|idx: int|
                0 <= idx < n && spec_eligible(#[trigger] assets@[idx]) ==> member_of(
                    members@,
                    members@.len() as int,
                    idx,
                ),
            forall|k: int| 0 <= k < pairs@.len() ==> spec_valid_pair(#[trigger] pairs@[k], assets@),
            forall|i2: int, j2: int|
                spec_clean_pair(assets@, i2, j2) && member_of(members@, g as int, i2)
                    ==> pair_recorded(pairs@, assets@, i2, j2),
        decreases g_count - g,
    {
        let group = &members[g];
        let m = group.len();
        let mut four_three: Option<usize> = Option::None;
        let mut four_three_count: usize = 0;
        let mut sixteen_nine: Option<usize> = Option::None;
        let mut sixteen_nine_count: usize = 0;
        let mut t: usize = 0;
        while t < m
            invariant
                n == assets@.len(),
                g < g_count,
                g_count == keys@.len(),
                keys@.len() == members@.len(),
                m == members@[g as int]@.len(),
                group@ == members@[g as int]@,
                t <= m,
                forall|gg: int, tt: int|
                    0 <= gg < members@.len() && 0 <= tt < members@[gg]@.len() ==> {
                        let idx = #[trigger] members@[gg]@[tt];
                        &&& idx < n
                        &&& spec_eligible(assets@[idx as int])
                        &&& key_represents(keys@[gg], assets@[idx as int])
                    },
                four_three_count == count_aspect(
                    assets@,
                    members@[g as int]@.take(t as int),
                    AspectRatio::FourThree,
                ),
                sixteen_nine_count == count_aspect(
                    assets@,
                    members@[g as int]@.take(t as int),
                    AspectRatio::SixteenNine,
                ),
                four_three_count > 0 ==> four_three is Some,
                four_three is Some ==> {
                    let idx = four_three.unwrap();
                    &&& (idx as int) < n
                    &&& spec_eligible(assets@[idx as int])
                    &&& key_represents(keys@[g as int], assets@[idx as int])
                    &&& spec_asset_aspect(assets@[idx as int]) == Option::Some(
                        AspectRatio::FourThree,
                    )
                    &&& exists|t0: int|
                        0 <= t0 < members@[g as int]@.len() && (#[trigger] members@[g as int]@[t0])
                            == idx
                },
                sixteen_nine_count > 0 ==> sixteen_nine is Some,
                sixteen_nine is Some ==> {
                    let idx = sixteen_nine.unwrap();
                    &&& (idx as int) < n
                    &&& spec_eligible(assets@[idx as int])
                    &&& key_represents(keys@[g as int], assets@[idx as int])
                    &&& spec_asset_aspect(assets@[idx as int]) == Option::Some(
                        AspectRatio::SixteenNine,
                    )
                    &&& exists|t0: int|
                        0 <= t0 < members@[g as int]@.len() && (#[trigger] members@[g as int]@[t0])
                            == idx
                },
                four_three_count <= t,
                sixteen_nine_count <= t,
            decreases m - t,
        {
            let idx = group[t];
            proof {
                assert(idx == members@[g as int]@[t as int]);
                assert(spec_eligible(assets@[idx as int]));
                assert(key_represents(keys@[g as int], assets@[idx as int]));
                assert(members@[g as int]@.take(t + 1).drop_last() =~= members@[g as int]@.take(
                    t as int,
                ));
                assert(members@[g as int]@.take(t + 1).last() == members@[g as int]@[t as int]);
            }
            match get_asset_aspect_ratio(&assets[idx]) {
                Option::Some(AspectRatio::FourThree) => {
                    four_three = Option::Some(idx);
                    four_three_count = four_three_count + 1;
                },
                Option::Some(AspectRatio::SixteenNine) => {
                    sixteen_nine = Option::Some(idx);
                    sixteen_nine_count = sixteen_nine_count + 1;
                },
                Option::None => {},
            }
            t = t + 1;
        }
        proof {
            assert(members@[g as int]@.take(m as int) =~= members@[g as int]@);
        }

        let ghost old_pairs = pairs@;
        if four_three_count == 1 && sixteen_nine_count == 1 {
            let ki = match four_three {
                Option::Some(x) => x,
                Option::None => 0,
            };
            let di = match sixteen_nine {
                Option::Some(x) => x,
                Option::None => 0,
            };
            let keeper = assets[ki].clone();
            let delete = assets[di].clone();
            let timestamp = keys[g].timestamp_second.clone();
            let camera = concat_str(keys[g].make.as_str(), " ");
            let camera = concat_str(camera.as_str(), keys[g].model.as_str());
            let pair = LetterboxPair { keeper, delete, timestamp, camera };
            proof {
                let ik = four_three.unwrap() as int;
                let id = sixteen_nine.unwrap() as int;
                assert(spec_asset_aspect(assets@[ik]) != spec_asset_aspect(assets@[id]));
                assert(same_pairing_key(assets@[ik], assets@[id]));
                assert(pair.camera@ =~= assets@[ik].exif_info.unwrap().make.unwrap()@ + " "@
                    + assets@[ik].exif_info.unwrap().model.unwrap()@);
                assert(spec_valid_pair(pair, assets@));
            }
            pairs.push(pair);
            proof {
                assert(pairs@.drop_last() =~= old_pairs);
                assert forall|i2: int, j2: int|
                    spec_clean_pair(assets@, i2, j2) && member_of(
                        members@,
                        g + 1,
                        i2,
                    ) implies pair_recorded(pairs@, assets@, i2, j2) by {
                    if member_of(members@, g as int, i2) {
                        let k0 = choose|k: int|
                            0 <= k < old_pairs.len() && same_asset(
                                (#[trigger] old_pairs[k]).keeper,
                                assets@[i2],
                            ) && same_asset(old_pairs[k].delete, assets@[j2]);
                        assert(pairs@[k0] == old_pairs[k0]);
                    } else {
                        let (g2, t2): (int, int) = choose|g2: int, t2: int|
                            0 <= g2 < g + 1 && 0 <= t2 < members@[g2]@.len() && members@[g2]@[t2]
                                == i2;
                        assert(g2 == g);
                        lemma_group_resolves(assets@, keys@, members@, g as int, i2, j2);
                        let ik2 = four_three.unwrap() as int;
                        let id2 = sixteen_nine.unwrap() as int;
                        assert(ik2 == i2);
                        assert(id2 == j2);
                        assert(same_asset(pairs@[pairs@.len() - 1].keeper, assets@[i2]));
                        assert(same_asset(pairs@[pairs@.len() - 1].delete, assets@[j2]));
                    }
                }
            }
        } else {
            proof {
                assert forall|i2: int, j2: int|
                    spec_clean_pair(assets@, i2, j2) && member_of(
                        members@,
                        g + 1,
                        i2,
                    ) implies pair_recorded(pairs@, assets@, i2, j2) by {
                    if member_of(members@, g as int, i2) {
                    } else {
                        let (g2, t2): (int, int) = choose|g2: int, t2: int|
                            0 <= g2 < g + 1 && 0 <= t2 < members@[g2]@.len() && members@[g2]@[t2]
                                == i2;
                        assert(g2 == g);
                        lemma_group_resolves(assets@, keys@, members@, g as int, i2, j2);
                        assert(false);
                    }
                }
            }
        }
        g = g + 1;
    }
    proof {
        assert forall|i2: int, j2: int|
            spec_clean_pair(assets@, i2, j2) implies pair_recorded(pairs@, assets@, i2, j2) by {
            assert(spec_eligible(assets@[i2]));
            assert(member_of(members@, members@.len() as int, i2));
        }
    }

    pairs
}

} // verus!
