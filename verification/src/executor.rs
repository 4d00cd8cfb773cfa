//! Decision logic of the execution pipeline.
//!
//! For one analyzed duplicate group the pipeline consolidates metadata onto
//! the winner, transfers album memberships, backs the losers up, and deletes
//! only what was backed up. The remote calls themselves are the caller's
//! business; every decision between two calls is made here: which metadata
//! to take from which loser, which albums to transfer, how long to back off,
//! whether deletion must be skipped, and which assets may be deleted.

use vstd::prelude::*;

use crate::models::album::AlbumResponse;
use crate::models::asset::AssetResponse;
use crate::models::execution::{
    AlbumTransferResult, ConsolidationResult, GroupResult, OperationResult,
};
use crate::scoring::DuplicateAnalysis;
use crate::text::{concat_str, contains_sub, lower_of, lowercase, seq_views, spec_contains, str_eq};

verus! {

/// Whether a fetched winner already has GPS coordinates.
pub open spec fn winner_has_gps(a: AssetResponse) -> bool {
    match a.exif_info {
        Option::Some(e) => e.spec_has_gps(),
        Option::None => false,
    }
}

/// Whether a fetched winner already has an original capture time.
pub open spec fn winner_has_datetime(a: AssetResponse) -> bool {
    match a.exif_info {
        Option::Some(e) => e.date_time_original is Some,
        Option::None => false,
    }
}

/// Whether a fetched winner already has a description.
pub open spec fn winner_has_description(a: AssetResponse) -> bool {
    match a.exif_info {
        Option::Some(e) => e.description is Some,
        Option::None => false,
    }
}

/// The metadata fields sent in one update call to the winner. Only the
/// fields that are present are changed by the call.
pub struct MetadataUpdate {
    /// New GPS latitude in microdegrees
    pub latitude: Option<i64>,

    /// New GPS longitude in microdegrees
    pub longitude: Option<i64>,

    /// New original capture time
    pub date_time_original: Option<String>,

    /// New description
    pub description: Option<String>,
}

/// The consolidation plan for one group: which fields the winner lacks, and
/// the first loser value found for each missing field.
///
/// The caller fetches the winner, builds the plan, then feeds each fetched
/// loser in order with `observe_loser` until `complete` or no loser remains.
/// A later loser never overrides an earlier match for the same field.
pub struct ConsolidationPlan {
    /// Whether the winner lacks GPS coordinates
    pub need_gps: bool,

    /// Whether the winner lacks a capture time
    pub need_datetime: bool,

    /// Whether the winner lacks a description
    pub need_description: bool,

    /// The first GPS point found among the losers, in microdegrees
    pub found_gps: Option<(i64, i64)>,

    /// The loser that provided the GPS point
    pub gps_source: Option<String>,

    /// The first capture time found among the losers
    pub found_datetime: Option<String>,

    /// The loser that provided the capture time
    pub datetime_source: Option<String>,

    /// The first description found among the losers
    pub found_description: Option<String>,

    /// The loser that provided the description
    pub description_source: Option<String>,
}

impl ConsolidationPlan {
    /// A found value always names its source, and only a needed field is
    /// ever filled.
    pub open spec fn wf(&self) -> bool {
        &&& (self.found_gps is Some <==> self.gps_source is Some)
        &&& (self.found_datetime is Some <==> self.datetime_source is Some)
        &&& (self.found_description is Some <==> self.description_source is Some)
        &&& (self.found_gps is Some ==> self.need_gps)
        &&& (self.found_datetime is Some ==> self.need_datetime)
        &&& (self.found_description is Some ==> self.need_description)
    }

    /// Build the plan from the winner's current metadata: a field is needed
    /// exactly when the winner lacks it.
    pub fn new(winner: &AssetResponse) -> (r: Self)
        ensures
            r.wf(),
            r.need_gps == !winner_has_gps(*winner),
            r.need_datetime == !winner_has_datetime(*winner),
            r.need_description == !winner_has_description(*winner),
            r.found_gps is None,
            r.found_datetime is None,
            r.found_description is None,
    {
        let (has_gps, has_datetime, has_description) = match &winner.exif_info {
            Option::Some(e) => (
                e.has_gps(),
                e.date_time_original.is_some(),
                e.description.is_some(),
            ),
            Option::None => (false, false, false),
        };
        ConsolidationPlan {
            need_gps: !has_gps,
            need_datetime: !has_datetime,
            need_description: !has_description,
            found_gps: Option::None,
            gps_source: Option::None,
            found_datetime: Option::None,
            datetime_source: Option::None,
            found_description: Option::None,
            description_source: Option::None,
        }
    }

    /// Whether the winner already has every consolidated field, so that no
    /// consolidation is needed at all.
    pub fn nothing_needed(&self) -> (r: bool)
        ensures
            r == (!self.need_gps && !self.need_datetime && !self.need_description),
    {
        !self.need_gps && !self.need_datetime && !self.need_description
    }

    /// Whether every needed field has been found, so that scanning further
    /// losers cannot change the plan.
    pub fn complete(&self) -> (r: bool)
        ensures
            r == ((!self.need_gps || self.found_gps is Some) && (!self.need_datetime
                || self.found_datetime is Some) && (!self.need_description
                || self.found_description is Some)),
    {
        (!self.need_gps || self.found_gps.is_some()) && (!self.need_datetime
            || self.found_datetime.is_some()) && (!self.need_description
            || self.found_description.is_some())
    }

    /// Whether any field has been found, so that an update call is due.
    pub fn any_found(&self) -> (r: bool)
        ensures
            r == (self.found_gps is Some || self.found_datetime is Some
                || self.found_description is Some),
    {
        self.found_gps.is_some() || self.found_datetime.is_some()
            || self.found_description.is_some()
    }

    /// Feed one fetched loser into the plan. For each field that is needed
    /// and still unfilled, the loser's value is taken when it has one;
    /// everything already found stays as it is (first-found wins per field,
    /// independently per field).
    pub fn observe_loser(&mut self, loser_id: &str, asset: &AssetResponse)
        requires
            old(self).wf(),
        ensures
            final(self).wf(),
            final(self).need_gps == old(self).need_gps,
            final(self).need_datetime == old(self).need_datetime,
            final(self).need_description == old(self).need_description,
            // GPS: filled from this loser exactly when needed, unfilled, and present
            ({
                let take = old(self).need_gps && old(self).found_gps is None && (
                match asset.exif_info {
                    Option::Some(e) => e.spec_has_gps(),
                    Option::None => false,
                });
                if take {
                    final(self).found_gps == Option::Some(
                        (
                            asset.exif_info.unwrap().latitude.unwrap(),
                            asset.exif_info.unwrap().longitude.unwrap(),
                        ),
                    ) && final(self).gps_source is Some && final(self).gps_source.unwrap()@ == loser_id@
                } else {
                    final(self).found_gps == old(self).found_gps && final(self).gps_source == old(self).gps_source
                }
            }),
            // Capture time
            ({
                let take = old(self).need_datetime && old(self).found_datetime is None && (
                match asset.exif_info {
                    Option::Some(e) => e.date_time_original is Some,
                    Option::None => false,
                });
                if take {
                    final(self).found_datetime is Some && final(self).found_datetime.unwrap()@ == asset.exif_info.unwrap().date_time_original.unwrap()@
                        && final(self).datetime_source is Some && final(self).datetime_source.unwrap()@ == loser_id@
                } else {
                    final(self).found_datetime == old(self).found_datetime && final(self).datetime_source == old(self).datetime_source
                }
            }),
            // Description
            ({
                let take = old(self).need_description && old(self).found_description is None && (
                match asset.exif_info {
                    Option::Some(e) => e.description is Some,
                    Option::None => false,
                });
                if take {
                    final(self).found_description is Some && final(self).found_description.unwrap()@ == asset.exif_info.unwrap().description.unwrap()@
                        && final(self).description_source is Some && final(self).description_source.unwrap()@ == loser_id@
                } else {
                    final(self).found_description == old(self).found_description && final(self).description_source == old(self).description_source
                }
            }),
    {
        match &asset.exif_info {
            Option::Some(e) => {
                if self.need_gps && self.found_gps.is_none() && e.has_gps() {
                    match (&e.latitude, &e.longitude) {
                        (Option::Some(lat), Option::Some(lon)) => {
                            self.found_gps = Option::Some((*lat, *lon));
                            self.gps_source = Option::Some(loser_id.to_owned());
                        },
                        _ => {},
                    }
                }
                if self.need_datetime && self.found_datetime.is_none() {
                    match &e.date_time_original {
                        Option::Some(dt) => {
                            self.found_datetime = Option::Some(dt.clone());
                            self.datetime_source = Option::Some(loser_id.to_owned());
                        },
                        Option::None => {},
                    }
                }
                if self.need_description && self.found_description.is_none() {
                    match &e.description {
                        Option::Some(desc) => {
                            self.found_description = Option::Some(desc.clone());
                            self.description_source = Option::Some(loser_id.to_owned());
                        },
                        Option::None => {},
                    }
                }
            },
            Option::None => {},
        }
    }

    /// The source asset id to record: the GPS source when GPS moved, else
    /// the capture-time source, else the description source.
    pub fn source_asset_id(&self) -> (r: Option<String>)
        requires
            self.wf(),
        ensures
            self.found_gps is Some ==> r is Some && r.unwrap()@ == self.gps_source.unwrap()@,
            self.found_gps is None && self.found_datetime is Some ==> r is Some
                && r.unwrap()@ == self.datetime_source.unwrap()@,
            self.found_gps is None && self.found_datetime is None && self.found_description
                is Some ==> r is Some && r.unwrap()@ == self.description_source.unwrap()@,
            self.found_gps is None && self.found_datetime is None && self.found_description
                is None ==> r is None,
    {
        match &self.gps_source {
            Option::Some(id) => Option::Some(id.clone()),
            Option::None => match &self.datetime_source {
                Option::Some(id) => Option::Some(id.clone()),
                Option::None => match &self.description_source {
                    Option::Some(id) => Option::Some(id.clone()),
                    Option::None => Option::None,
                },
            },
        }
    }

    /// The update payload for the winner: exactly the fields found.
    pub fn update_payload(&self) -> (r: MetadataUpdate)
        ensures
            r.latitude == (match self.found_gps {
                Option::Some(p) => Option::Some(p.0),
                Option::None => Option::<i64>::None,
            }),
            r.longitude == (match self.found_gps {
                Option::Some(p) => Option::Some(p.1),
                Option::None => Option::<i64>::None,
            }),
            (r.date_time_original is Some <==> self.found_datetime is Some),
            r.date_time_original is Some
                ==> r.date_time_original.unwrap()@ == self.found_datetime.unwrap()@,
            (r.description is Some <==> self.found_description is Some),
            r.description is Some ==> r.description.unwrap()@ == self.found_description.unwrap()@,
    {
        let (latitude, longitude) = match &self.found_gps {
            Option::Some(p) => (Option::Some(p.0), Option::Some(p.1)),
            Option::None => (Option::None, Option::None),
        };
        let date_time_original = match &self.found_datetime {
            Option::Some(dt) => Option::Some(dt.clone()),
            Option::None => Option::None,
        };
        let description = match &self.found_description {
            Option::Some(desc) => Option::Some(desc.clone()),
            Option::None => Option::None,
        };
        MetadataUpdate { latitude, longitude, date_time_original, description }
    }

    /// The consolidation result to record after a successful update call:
    /// which fields moved, and from which asset.
    pub fn into_result(&self) -> (r: ConsolidationResult)
        requires
            self.wf(),
        ensures
            r.gps_transferred == (self.found_gps is Some),
            r.datetime_transferred == (self.found_datetime is Some),
            r.description_transferred == (self.found_description is Some),
            self.found_gps is Some ==> r.source_asset_id is Some
                && r.source_asset_id.unwrap()@ == self.gps_source.unwrap()@,
            self.found_gps is None && self.found_datetime is Some ==> r.source_asset_id is Some
                && r.source_asset_id.unwrap()@ == self.datetime_source.unwrap()@,
            self.found_gps is None && self.found_datetime is None && self.found_description
                is Some ==> r.source_asset_id is Some
                && r.source_asset_id.unwrap()@ == self.description_source.unwrap()@,
    {
        ConsolidationResult {
            gps_transferred: self.found_gps.is_some(),
            datetime_transferred: self.found_datetime.is_some(),
            description_transferred: self.found_description.is_some(),
            source_asset_id: self.source_asset_id(),
        }
    }
}

/// The ids of a sequence of albums, in order.
pub open spec fn album_ids(s: Seq<AlbumResponse>) -> Seq<Seq<char>> {
    s.map_values(|a: AlbumResponse| a.id@)
}

/// The albums with a first-seen id, duplicates by id dropped.
pub open spec fn dedupe_albums_spec(s: Seq<AlbumResponse>) -> Seq<AlbumResponse>
    decreases s.len(),
{
    if s.len() == 0 {
        Seq::empty()
    } else {
        let rest = dedupe_albums_spec(s.drop_last());
        if album_ids(rest).contains(s.last().id@) {
            rest
        } else {
            rest.push(s.last())
        }
    }
}

/// Whether some album in `v` carries the id `id`.
fn contains_album_id(v: &Vec<AlbumResponse>, id: &str) -> (r: bool)
    ensures
        r == album_ids(v@).contains(id@),
{
    let n = v.len();
    let mut i: usize = 0;
    while i < n
        invariant
            n == v@.len(),
            i <= n,
            forall|k: int| 0 <= k < i ==> album_ids(v@)[k] != id@,
        decreases n - i,
    {
        if str_eq(v[i].id.as_str(), id) {
            proof {
                assert(album_ids(v@)[i as int] == id@);
            }
            return true;
        }
        i = i + 1;
    }
    false
}

/// Unions album lookups: keeps the first album seen for each album id and
/// drops later duplicates, preserving order of first appearance.
pub fn dedupe_albums(all: Vec<AlbumResponse>) -> (r: Vec<AlbumResponse>)
    ensures
        r@ == dedupe_albums_spec(all@),
{
    let ghost orig = all@;
    let mut all = all;
    let mut out: Vec<AlbumResponse> = Vec::new();
    let ghost mut consumed: int = 0;
    while all.len() > 0
        invariant
            0 <= consumed <= orig.len(),
            all@ == orig.skip(consumed),
            out@ == dedupe_albums_spec(orig.take(consumed)),
        decreases all@.len(),
    {
        let album = all.remove(0);
        proof {
            assert(album == orig[consumed]);
            assert(orig.take(consumed + 1).drop_last() =~= orig.take(consumed));
            assert(orig.take(consumed + 1).last() == orig[consumed]);
            assert(orig.skip(consumed).remove(0) =~= orig.skip(consumed + 1));
        }
        if !contains_album_id(&out, album.id.as_str()) {
            out.push(album);
        }
        proof {
            consumed = consumed + 1;
        }
    }
    proof {
        assert(orig.take(consumed) =~= orig);
    }
    out
}

/// Relied-on idempotence of album additions: a 400-status response whose
/// message mentions "duplicate" or "already" (case-insensitively) means the
/// winner was in the album before, which counts as success.
pub fn is_idempotent_add_error(status: u16, message: &str) -> (r: bool)
    ensures
        r == (status == 400 && (spec_contains(lower_of(message@), "duplicate"@)
            || spec_contains(lower_of(message@), "already"@))),
{
    if status != 400 {
        return false;
    }
    let lowered = lowercase(message);
    contains_sub(lowered.as_str(), "duplicate") || contains_sub(lowered.as_str(), "already")
}

/// Running tally of one group's album-transfer stage: the albums
/// transferred so far, whether any transfer failed after retry, and the
/// error summary lines.
///
/// A failed album lookup is swallowed: it is recorded in the summary but
/// never marks the stage failed, so it cannot block the group's deletion.
/// Only a transfer that is still failing after retry sets the failure flag.
pub struct AlbumTransferTally {
    /// Ids of the albums transferred so far
    album_ids: Vec<String>,

    /// Names of the albums transferred so far
    album_names: Vec<String>,

    /// Whether some album transfer failed after retry
    transfer_failed: bool,

    /// The error summary lines recorded so far
    messages: Vec<String>,
}

impl AlbumTransferTally {
    /// The ids of the albums transferred so far.
    pub closed spec fn spec_ids(&self) -> Seq<Seq<char>> {
        seq_views(self.album_ids@)
    }

    /// The names of the albums transferred so far.
    pub closed spec fn spec_names(&self) -> Seq<Seq<char>> {
        seq_views(self.album_names@)
    }

    /// Whether some album transfer failed after retry.
    pub closed spec fn spec_transfer_failed(&self) -> bool {
        self.transfer_failed
    }

    /// The number of error summary lines recorded.
    pub closed spec fn spec_message_count(&self) -> nat {
        self.messages@.len()
    }

    /// One name per transferred album.
    pub closed spec fn wf(&self) -> bool {
        self.album_ids@.len() == self.album_names@.len()
    }

    /// A fresh tally: nothing transferred, nothing failed, no messages.
    pub fn new() -> (r: Self)
        ensures
            r.wf(),
            r.spec_ids().len() == 0,
            r.spec_names().len() == 0,
            !r.spec_transfer_failed(),
            r.spec_message_count() == 0,
    {
        AlbumTransferTally {
            album_ids: Vec::new(),
            album_names: Vec::new(),
            transfer_failed: false,
            messages: Vec::new(),
        }
    }

    /// Record a failed album lookup for a loser: the error joins the
    /// summary, and nothing else changes — a lookup failure is swallowed
    /// and never marks the stage failed.
    pub fn record_lookup_failure(&mut self, loser_id: &str, error: &str)
        requires
            old(self).wf(),
        ensures
            final(self).wf(),
            final(self).spec_ids() == old(self).spec_ids(),
            final(self).spec_names() == old(self).spec_names(),
            final(self).spec_transfer_failed() == old(self).spec_transfer_failed(),
            final(self).spec_message_count() == old(self).spec_message_count() + 1,
    {
        let line = concat_str("Failed to get albums for ", loser_id);
        let line = concat_str(line.as_str(), ": ");
        let line = concat_str(line.as_str(), error);
        self.messages.push(line);
    }

    /// Record one album's transfer outcome. A success appends the album's
    /// id and name; a failure after retry sets the failure flag and joins
    /// the summary.
    pub fn record_transfer(&mut self, album_id: &str, album_name: &str, succeeded: bool)
        requires
            old(self).wf(),
        ensures
            final(self).wf(),
            succeeded ==> {
                &&& final(self).spec_ids() == old(self).spec_ids().push(album_id@)
                &&& final(self).spec_names() == old(self).spec_names().push(album_name@)
                &&& final(self).spec_transfer_failed() == old(self).spec_transfer_failed()
                &&& final(self).spec_message_count() == old(self).spec_message_count()
            },
            !succeeded ==> {
                &&& final(self).spec_ids() == old(self).spec_ids()
                &&& final(self).spec_names() == old(self).spec_names()
                &&& final(self).spec_transfer_failed()
                &&& final(self).spec_message_count() == old(self).spec_message_count() + 1
            },
    {
        if succeeded {
            self.album_ids.push(album_id.to_owned());
            self.album_names.push(album_name.to_owned());
            proof {
                assert(seq_views(self.album_ids@) =~= seq_views(old(self).album_ids@).push(
                    album_id@,
                ));
                assert(seq_views(self.album_names@) =~= seq_views(old(self).album_names@).push(
                    album_name@,
                ));
            }
        } else {
            self.transfer_failed = true;
            let line = concat_str("Failed to transfer album '", album_name);
            let line = concat_str(line.as_str(), "' after retry");
            self.messages.push(line);
        }
    }

    /// Close the stage: the transferred count equals the id and name list
    /// lengths, the failure flag holds exactly when some transfer failed
    /// after retry, and an error summary is present exactly when something
    /// was recorded.
    pub fn finish(self) -> (r: AlbumTransferResult)
        requires
            self.wf(),
        ensures
            r.albums_transferred == r.album_ids@.len(),
            r.album_ids@.len() == r.album_names@.len(),
            seq_views(r.album_ids@) == self.spec_ids(),
            seq_views(r.album_names@) == self.spec_names(),
            r.had_failures == self.spec_transfer_failed(),
            r.error_message is Some <==> self.spec_message_count() > 0,
    {
        let error_message = if self.messages.len() == 0 {
            Option::None
        } else {
            let mut joined = String::new();
            let n = self.messages.len();
            let mut i: usize = 0;
            while i < n
                invariant
                    n == self.messages@.len(),
                    i <= n,
                decreases n - i,
            {
                if i > 0 {
                    joined.append("; ");
                }
                joined.append(self.messages[i].as_str());
                i = i + 1;
            }
            Option::Some(joined)
        };
        AlbumTransferResult {
            albums_transferred: self.album_ids.len(),
            album_ids: self.album_ids,
            album_names: self.album_names,
            had_failures: self.transfer_failed,
            error_message,
        }
    }
}

/// The retry budget for one album-transfer unit, in milliseconds.
pub const MAX_RETRY_BUDGET_MS: u64 = 60000;

/// The delay before the first retry, in milliseconds.
pub const INITIAL_RETRY_DELAY_MS: u64 = 250;

/// The exponential-backoff schedule for one album-transfer unit: the delay
/// starts at 250 ms and doubles each attempt, and the total elapsed time
/// across all attempts never exceeds the 60-second budget.
pub struct RetrySchedule {
    /// The next delay to sleep, in milliseconds
    pub delay_ms: u64,
}

impl RetrySchedule {
    /// The delay never falls below the initial delay.
    pub open spec fn wf(&self) -> bool {
        self.delay_ms >= INITIAL_RETRY_DELAY_MS
    }

    /// A fresh schedule starts at the initial delay.
    pub fn new() -> (r: Self)
        ensures
            r.wf(),
            r.delay_ms == INITIAL_RETRY_DELAY_MS,
    {
        RetrySchedule { delay_ms: INITIAL_RETRY_DELAY_MS }
    }

    /// Decide the sleep before the next attempt, given the time elapsed
    /// since the first attempt. Once the budget is exhausted the operation
    /// fails immediately (`None`, no sleep); otherwise the sleep is the
    /// current delay clamped to the remaining budget, and never pushes the
    /// elapsed time past the budget. The delay doubles for the next attempt.
    pub fn next_sleep(&mut self, elapsed_ms: u64) -> (r: Option<u64>)
        requires
            old(self).wf(),
        ensures
            final(self).wf(),
            elapsed_ms >= MAX_RETRY_BUDGET_MS ==> r is None && *final(self) == *old(self),
            elapsed_ms < MAX_RETRY_BUDGET_MS ==> {
                &&& r is Some
                &&& r.unwrap() == (if old(self).delay_ms <= MAX_RETRY_BUDGET_MS - elapsed_ms {
                    old(self).delay_ms
                } else {
                    (MAX_RETRY_BUDGET_MS - elapsed_ms) as u64
                })
                &&& r.unwrap() > 0
                &&& elapsed_ms + r.unwrap() <= MAX_RETRY_BUDGET_MS
                &&& final(self).delay_ms == (if old(self).delay_ms <= u64::MAX / 2 {
                    (old(self).delay_ms * 2) as u64
                } else {
                    u64::MAX
                })
            },
    {
        if elapsed_ms >= MAX_RETRY_BUDGET_MS {
            return Option::None;
        }
        let remaining = MAX_RETRY_BUDGET_MS - elapsed_ms;
        let sleep = if self.delay_ms <= remaining {
            self.delay_ms
        } else {
            remaining
        };
        self.delay_ms = if self.delay_ms <= u64::MAX / 2 {
            self.delay_ms * 2
        } else {
            u64::MAX
        };
        Option::Some(sleep)
    }
}

/// The ids of the successfully downloaded assets, in order.
pub open spec fn success_ids(s: Seq<OperationResult>) -> Seq<Seq<char>>
    decreases s.len(),
{
    if s.len() == 0 {
        Seq::empty()
    } else {
        let rest = success_ids(s.drop_last());
        if s.last() is Success {
            rest.push(s.last().spec_id())
        } else {
            rest
        }
    }
}

/// Whether `x` is the id of a successful operation in `s`.
pub open spec fn id_from_success(s: Seq<OperationResult>, x: Seq<char>) -> bool {
    exists|j: int| 0 <= j < s.len() && (#[trigger] s[j]) is Success && s[j].spec_id() == x
}

/// Every delete candidate is the id of an operation that succeeded: the set
/// of asset ids handed to deletion is a subset of the successfully
/// downloaded ids.
pub proof fn lemma_delete_candidates_from_successes(s: Seq<OperationResult>)
    ensures
        forall|k: int|
            0 <= k < success_ids(s).len() ==> id_from_success(s, #[trigger] success_ids(s)[k]),
    decreases s.len(),
{
    if s.len() > 0 {
        lemma_delete_candidates_from_successes(s.drop_last());
        assert forall|k: int| 0 <= k < success_ids(s).len() implies id_from_success(
            s,
            #[trigger] success_ids(s)[k],
        ) by {
            if k < success_ids(s.drop_last()).len() {
                assert(success_ids(s)[k] == success_ids(s.drop_last())[k]);
                assert(id_from_success(s.drop_last(), success_ids(s.drop_last())[k]));
                let j0 = choose|j: int|
                    0 <= j < s.drop_last().len() && (#[trigger] s.drop_last()[j]) is Success
                        && s.drop_last()[j].spec_id() == success_ids(s.drop_last())[k];
                assert(s[j0] == s.drop_last()[j0]);
                assert(s[j0] is Success && s[j0].spec_id() == success_ids(s)[k]);
            } else {
                assert(s.last() is Success);
                assert(success_ids(s) == success_ids(s.drop_last()).push(s.last().spec_id()));
                assert(k == success_ids(s.drop_last()).len());
                assert(s[s.len() - 1] == s.last());
                assert(s[s.len() - 1] is Success && s[s.len() - 1].spec_id() == success_ids(
                    s,
                )[k]);
            }
        }
    }
}

/// Collect the asset ids whose download succeeded, in order.
pub fn successful_download_ids(downloads: &Vec<OperationResult>) -> (r: Vec<String>)
    ensures
        seq_views(r@) == success_ids(downloads@),
{
    let n = downloads.len();
    let mut out: Vec<String> = Vec::new();
    let mut i: usize = 0;
    while i < n
        invariant
            n == downloads@.len(),
            i <= n,
            seq_views(out@) == success_ids(downloads@.take(i as int)),
        decreases n - i,
    {
        proof {
            assert(downloads@.take(i + 1).drop_last() =~= downloads@.take(i as int));
            assert(downloads@.take(i + 1).last() == downloads@[i as int]);
        }
        match &downloads[i] {
            OperationResult::Success { id, .. } => {
                out.push(id.clone());
                proof {
                    assert(seq_views(out@) =~= success_ids(downloads@.take(i + 1)));
                }
            },
            _ => {},
        }
        i = i + 1;
    }
    proof {
        assert(downloads@.take(n as int) =~= downloads@);
    }
    out
}

/// The backup destination for one loser: `backup_dir/{assetId}_{filename}`,
/// collision-proofed by the id prefix.
pub fn backup_path(backup_dir: &str, asset_id: &str, filename: &str) -> (r: String)
    ensures
        r@ == backup_dir@ + "/"@ + asset_id@ + "_"@ + filename@,
{
    let p = concat_str(backup_dir, "/");
    let p = concat_str(p.as_str(), asset_id);
    let p = concat_str(p.as_str(), "_");
    concat_str(p.as_str(), filename)
}

/// The asset ids of an analysis's losers, in order.
pub open spec fn loser_ids_of(analysis: DuplicateAnalysis) -> Seq<Seq<char>> {
    analysis.losers@.map_values(|l: crate::scoring::ScoredAsset| l.asset_id@)
}

/// Every delete candidate is the id of one of the group's losers.
pub proof fn lemma_delete_candidates_are_losers(s: Seq<OperationResult>, ids: Seq<Seq<char>>)
    requires
        s.len() <= ids.len(),
        forall|i: int| 0 <= i < s.len() ==> (#[trigger] s[i]).spec_id() == ids[i],
    ensures
        forall|k: int|
            0 <= k < success_ids(s).len() ==> exists|j: int|
                0 <= j < ids.len() && #[trigger] success_ids(s)[k] == ids[j],
{
    lemma_delete_candidates_from_successes(s);
    assert forall|k: int| 0 <= k < success_ids(s).len() implies exists|j: int|
        0 <= j < ids.len() && #[trigger] success_ids(s)[k] == ids[j] by {
        assert(id_from_success(s, success_ids(s)[k]));
        let j0 = choose|j: int|
            0 <= j < s.len() && (#[trigger] s[j]) is Success && s[j].spec_id() == success_ids(
                s,
            )[k];
        assert(s[j0].spec_id() == ids[j0]);
    }
}

/// Whether an optional album transfer reports a failure.
pub open spec fn album_failure(album: Option<AlbumTransferResult>) -> bool {
    match album {
        Option::Some(a) => a.had_failures,
        Option::None => false,
    }
}

/// The running state of one group's pipeline: what has been decided and
/// recorded so far. Once the album transfer reports a failure, no download
/// is ever recorded.
pub struct GroupPipeline {
    /// The duplicate group identifier
    duplicate_id: String,

    /// The winner asset id
    winner_id: String,

    /// The recorded consolidation outcome
    consolidation: Option<ConsolidationResult>,

    /// The recorded album transfer outcome
    album_transfer: Option<AlbumTransferResult>,

    /// The recorded download outcomes, one per loser attempted
    downloads: Vec<OperationResult>,

    /// The asset ids of the group's losers, in order
    loser_ids: Ghost<Seq<Seq<char>>>,
}

impl GroupPipeline {
    /// The group id this pipeline runs for.
    pub closed spec fn spec_duplicate_id(&self) -> Seq<char> {
        self.duplicate_id@
    }

    /// The winner id this pipeline runs for.
    pub closed spec fn spec_winner_id(&self) -> Seq<char> {
        self.winner_id@
    }

    /// The recorded album transfer outcome.
    pub closed spec fn spec_album_transfer(&self) -> Option<AlbumTransferResult> {
        self.album_transfer
    }

    /// The recorded download outcomes.
    pub closed spec fn spec_downloads(&self) -> Seq<OperationResult> {
        self.downloads@
    }

    /// The recorded consolidation outcome.
    pub closed spec fn spec_consolidation(&self) -> Option<ConsolidationResult> {
        self.consolidation
    }

    /// The asset ids of the group's losers, in order.
    pub closed spec fn spec_loser_ids(&self) -> Seq<Seq<char>> {
        self.loser_ids@
    }

    /// A failed album transfer blocks every download; at most one download
    /// is recorded per loser, the i-th carrying the i-th loser's id, and a
    /// download outcome is a success or a failure, never a skip.
    pub closed spec fn wf(&self) -> bool {
        &&& (album_failure(self.album_transfer) ==> self.downloads@.len() == 0)
        &&& self.downloads@.len() <= self.loser_ids@.len()
        &&& forall|i: int|
            0 <= i < self.downloads@.len() ==> (#[trigger] self.downloads@[i]).spec_id()
                == self.loser_ids@[i] && !(self.downloads@[i] is Skipped)
    }

    /// Start the pipeline for one analyzed group.
    pub fn new(analysis: &DuplicateAnalysis) -> (r: Self)
        ensures
            r.wf(),
            r.spec_duplicate_id() == analysis.duplicate_id@,
            r.spec_winner_id() == analysis.winner.asset_id@,
            r.spec_album_transfer() is None,
            r.spec_downloads().len() == 0,
            r.spec_loser_ids() == loser_ids_of(*analysis),
    {
        GroupPipeline {
            duplicate_id: analysis.duplicate_id.clone(),
            winner_id: analysis.winner.asset_id.clone(),
            consolidation: Option::None,
            album_transfer: Option::None,
            downloads: Vec::new(),
            loser_ids: Ghost(loser_ids_of(*analysis)),
        }
    }

    /// Record the consolidation outcome (best-effort; `None` when nothing
    /// moved or the calls failed).
    pub fn set_consolidation(&mut self, result: Option<ConsolidationResult>)
        requires
            old(self).wf(),
        ensures
            final(self).wf(),
            final(self).spec_duplicate_id() == old(self).spec_duplicate_id(),
            final(self).spec_winner_id() == old(self).spec_winner_id(),
            final(self).spec_album_transfer() == old(self).spec_album_transfer(),
            final(self).spec_downloads() == old(self).spec_downloads(),
            final(self).spec_consolidation() == result,
            final(self).spec_loser_ids() == old(self).spec_loser_ids(),
    {
        self.consolidation = result;
    }

    /// Record the album transfer outcome. It is recorded before any
    /// download, so a failure blocks the destructive steps.
    pub fn set_album_transfer(&mut self, result: AlbumTransferResult)
        requires
            old(self).wf(),
            old(self).spec_downloads().len() == 0,
        ensures
            final(self).wf(),
            final(self).spec_duplicate_id() == old(self).spec_duplicate_id(),
            final(self).spec_winner_id() == old(self).spec_winner_id(),
            final(self).spec_album_transfer() == Option::Some(result),
            final(self).spec_downloads().len() == 0,
            final(self).spec_consolidation() == old(self).spec_consolidation(),
            final(self).spec_loser_ids() == old(self).spec_loser_ids(),
    {
        self.album_transfer = Option::Some(result);
    }

    /// Whether the destructive steps must be skipped: exactly when the
    /// album transfer reported a failure.
    pub fn must_skip_deletion(&self) -> (r: bool)
        ensures
            r == album_failure(self.spec_album_transfer()),
    {
        match &self.album_transfer {
            Option::Some(a) => a.had_failures,
            Option::None => false,
        }
    }

    /// Record the next loser's download outcome, in loser order: the result
    /// carries that loser's id and is a success or a failure, never a skip.
    /// Never called for a group whose album transfer failed.
    pub fn record_download(&mut self, result: OperationResult)
        requires
            old(self).wf(),
            !album_failure(old(self).spec_album_transfer()),
            old(self).spec_downloads().len() < old(self).spec_loser_ids().len(),
            result.spec_id() == old(self).spec_loser_ids()[old(self).spec_downloads().len() as int],
            !(result is Skipped),
        ensures
            final(self).wf(),
            final(self).spec_duplicate_id() == old(self).spec_duplicate_id(),
            final(self).spec_winner_id() == old(self).spec_winner_id(),
            final(self).spec_album_transfer() == old(self).spec_album_transfer(),
            final(self).spec_downloads() == old(self).spec_downloads().push(result),
            final(self).spec_consolidation() == old(self).spec_consolidation(),
            final(self).spec_loser_ids() == old(self).spec_loser_ids(),
    {
        self.downloads.push(result);
    }

    /// The asset ids that may be deleted: exactly the ids whose download
    /// succeeded, in order.
    pub fn delete_candidates(&self) -> (r: Vec<String>)
        ensures
            seq_views(r@) == success_ids(self.spec_downloads()),
    {
        successful_download_ids(&self.downloads)
    }

    /// Close the group whose album transfer failed: no download or delete
    /// was attempted, and the group result carries a single skipped
    /// operation explaining why.
    pub fn finish_skipped(self) -> (r: GroupResult)
        requires
            self.wf(),
            album_failure(self.spec_album_transfer()),
        ensures
            r.duplicate_id@ == self.spec_duplicate_id(),
            r.winner_id@ == self.spec_winner_id(),
            r.album_transfer_result == self.spec_album_transfer(),
            r.consolidation_result == self.spec_consolidation(),
            r.download_results@.len() == 0,
            r.delete_result is Some && r.delete_result.unwrap() is Skipped,
            r.delete_result.unwrap().spec_id() == self.spec_duplicate_id(),
            (match r.delete_result.unwrap() {
                OperationResult::Skipped { reason, .. } => reason@
                    == "Album transfer failed after retry, skipping deletion to preserve album integrity"@,
                _ => false,
            }),
            crate::models::execution::spec_album_failure(r),
    {
        GroupResult {
            duplicate_id: self.duplicate_id.clone(),
            winner_id: self.winner_id,
            consolidation_result: self.consolidation,
            album_transfer_result: self.album_transfer,
            download_results: Vec::new(),
            delete_result: Option::Some(
                OperationResult::Skipped {
                    id: self.duplicate_id,
                    reason:
                        "Album transfer failed after retry, skipping deletion to preserve album integrity".to_owned(),
                },
            ),
        }
    }

    /// Close a group that reached the delete step. When nothing was
    /// successfully downloaded the delete is skipped; otherwise the one
    /// batch delete call's outcome (`Ok`, or the error text) is recorded as
    /// a single operation result for the whole batch.
    pub fn finish(self, delete_outcome: Option<Result<(), String>>) -> (r: GroupResult)
        requires
            self.wf(),
            !album_failure(self.spec_album_transfer()),
            success_ids(self.spec_downloads()).len() == 0 <==> delete_outcome is None,
        ensures
            r.duplicate_id@ == self.spec_duplicate_id(),
            r.winner_id@ == self.spec_winner_id(),
            r.album_transfer_result == self.spec_album_transfer(),
            r.consolidation_result == self.spec_consolidation(),
            r.download_results@ == self.spec_downloads(),
            r.download_results@.len() <= self.spec_loser_ids().len(),
            forall|i: int|
                0 <= i < r.download_results@.len() ==> (#[trigger] r.download_results@[i]).spec_id()
                    == self.spec_loser_ids()[i] && !(r.download_results@[i] is Skipped),
            r.delete_result is Some,
            success_ids(self.spec_downloads()).len() == 0 ==> r.delete_result.unwrap() is Skipped
                && (match r.delete_result.unwrap() {
                OperationResult::Skipped { reason, .. } => reason@
                    == "No assets were successfully downloaded"@,
                _ => false,
            }),
            delete_outcome == Option::Some(Result::<(), String>::Ok(()))
                ==> r.delete_result.unwrap() is Success,
            (match delete_outcome {
                Option::Some(Result::Err(e)) => match r.delete_result.unwrap() {
                    OperationResult::Failed { error, .. } => error@ == e@,
                    _ => false,
                },
                _ => true,
            }),
            r.delete_result.unwrap().spec_id() == self.spec_duplicate_id(),
    {
        let delete_result = match delete_outcome {
            Option::None => OperationResult::Skipped {
                id: self.duplicate_id.clone(),
                reason: "No assets were successfully downloaded".to_owned(),
            },
            Option::Some(Result::Ok(())) => OperationResult::Success {
                id: self.duplicate_id.clone(),
                path: Option::None,
            },
            Option::Some(Result::Err(e)) => OperationResult::Failed {
                id: self.duplicate_id.clone(),
                error: e,
            },
        };
        GroupResult {
            duplicate_id: self.duplicate_id,
            winner_id: self.winner_id,
            consolidation_result: self.consolidation,
            album_transfer_result: self.album_transfer,
            download_results: self.downloads,
            delete_result: Option::Some(delete_result),
        }
    }
}

} // verus!
