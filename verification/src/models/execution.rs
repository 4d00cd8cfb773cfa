//! Execution types for the duplicate processing pipeline.
//!
//! These types capture configuration, per-operation outcomes, and the
//! running report for the duplicate execution workflow.

use vstd::prelude::*;

verus! {

/// Configuration for the execution pipeline, immutable for the executor's
/// lifetime.
pub struct ExecutionConfig {
    /// Maximum requests per second to the Immich API
    pub requests_per_sec: u32,

    /// Maximum concurrent operations
    pub max_concurrent: usize,

    /// Directory to save backup downloads before deletion
    pub backup_dir: String,

    /// If true, permanently delete assets; if false, move to trash
    pub force_delete: bool,

    /// If true, preserve album memberships by transferring to winner
    pub preserve_albums: bool,
}

impl Default for ExecutionConfig {
    /// Ten requests per second, five concurrent operations, backups under
    /// `./backups`, deletion to trash, album preservation on.
    fn default() -> (r: Self)
        ensures
            r.requests_per_sec == 10,
            r.max_concurrent == 5,
            r.backup_dir@ == "./backups"@,
            !r.force_delete,
            r.preserve_albums,
    {
        ExecutionConfig {
            requests_per_sec: 10,
            max_concurrent: 5,
            backup_dir: "./backups".to_owned(),
            force_delete: false,
            preserve_albums: true,
        }
    }
}

/// Result of a single operation (download or delete): the unit of outcome
/// for every per-asset operation.
pub enum OperationResult {
    /// Operation completed successfully
    Success {
        /// Asset ID that was processed
        id: String,
        /// Path where the file was saved (for downloads)
        path: Option<String>,
    },

    /// Operation failed with an error
    Failed {
        /// Asset ID that failed
        id: String,
        /// Error message describing the failure
        error: String,
    },

    /// Operation was skipped
    Skipped {
        /// Asset ID that was skipped
        id: String,
        /// Reason for skipping
        reason: String,
    },
}

impl OperationResult {
    /// The asset id this outcome speaks of.
    pub open spec fn spec_id(&self) -> Seq<char> {
        match self {
            OperationResult::Success { id, .. } => id@,
            OperationResult::Failed { id, .. } => id@,
            OperationResult::Skipped { id, .. } => id@,
        }
    }
}

/// The number of successes in a sequence of operation results.
pub open spec fn count_successes(s: Seq<OperationResult>) -> nat
    decreases s.len(),
{
    if s.len() == 0 {
        0
    } else {
        count_successes(s.drop_last()) + (if s.last() is Success {
            1nat
        } else {
            0nat
        })
    }
}

/// The number of failures in a sequence of operation results.
pub open spec fn count_failures(s: Seq<OperationResult>) -> nat
    decreases s.len(),
{
    if s.len() == 0 {
        0
    } else {
        count_failures(s.drop_last()) + (if s.last() is Failed {
            1nat
        } else {
            0nat
        })
    }
}

/// The number of skips in a sequence of operation results.
pub open spec fn count_skips(s: Seq<OperationResult>) -> nat
    decreases s.len(),
{
    if s.len() == 0 {
        0
    } else {
        count_skips(s.drop_last()) + (if s.last() is Skipped {
            1nat
        } else {
            0nat
        })
    }
}

/// Result of metadata consolidation from loser assets to the winner,
/// produced at most once per group.
pub struct ConsolidationResult {
    /// Whether GPS coordinates were transferred
    pub gps_transferred: bool,

    /// Whether date/time was transferred
    pub datetime_transferred: bool,

    /// Whether description was transferred
    pub description_transferred: bool,

    /// Asset ID that provided the consolidated metadata
    pub source_asset_id: Option<String>,
}

impl ConsolidationResult {
    /// Check if any consolidation was performed.
    pub fn any_transferred(&self) -> (r: bool)
        ensures
            r == (self.gps_transferred || self.datetime_transferred
                || self.description_transferred),
    {
        self.gps_transferred || self.datetime_transferred || self.description_transferred
    }
}

/// Result of transferring album memberships from losers to the winner.
pub struct AlbumTransferResult {
    /// Number of albums successfully transferred
    pub albums_transferred: usize,

    /// Album IDs that were transferred
    pub album_ids: Vec<String>,

    /// Album names for readability
    pub album_names: Vec<String>,

    /// Whether any transfer failed
    pub had_failures: bool,

    /// Error message if transfers failed
    pub error_message: Option<String>,
}

impl AlbumTransferResult {
    /// Check if any albums were transferred.
    pub fn any_transferred(&self) -> (r: bool)
        ensures
            r == (self.albums_transferred > 0),
    {
        self.albums_transferred > 0
    }

    /// Check if all transfers succeeded.
    pub fn all_succeeded(&self) -> (r: bool)
        ensures
            r == !self.had_failures,
    {
        !self.had_failures
    }
}

/// Result of processing a single duplicate group.
pub struct GroupResult {
    /// The duplicate group identifier
    pub duplicate_id: String,

    /// The winner asset ID
    pub winner_id: String,

    /// Result of metadata consolidation (if attempted)
    pub consolidation_result: Option<ConsolidationResult>,

    /// Result of album membership transfer (if attempted)
    pub album_transfer_result: Option<AlbumTransferResult>,

    /// Results of downloading each loser asset
    pub download_results: Vec<OperationResult>,

    /// Result of deleting assets (if downloads succeeded)
    pub delete_result: Option<OperationResult>,
}

/// The number of albums a group result reports as transferred.
pub open spec fn spec_albums_transferred(g: GroupResult) -> nat {
    match g.album_transfer_result {
        Option::Some(a) => a.albums_transferred as nat,
        Option::None => 0,
    }
}

/// Whether a group result reports an album transfer failure.
pub open spec fn spec_album_failure(g: GroupResult) -> bool {
    match g.album_transfer_result {
        Option::Some(a) => a.had_failures,
        Option::None => false,
    }
}

/// Summary report of the entire execution: a running total built
/// incrementally as groups complete, never recomputed from scratch.
pub struct ExecutionReport {
    /// Total number of duplicate groups processed
    pub total_groups: usize,

    /// Number of assets successfully downloaded
    pub downloaded: usize,

    /// Number of assets deleted
    pub deleted: usize,

    /// Number of operations that failed
    pub failed: usize,

    /// Number of operations that were skipped
    pub skipped: usize,

    /// Total number of albums transferred across all groups
    pub albums_transferred: usize,

    /// Number of album transfer operations that had failures
    pub album_transfer_failures: usize,

    /// Detailed results for each group
    pub results: Vec<GroupResult>,
}

impl ExecutionReport {
    /// Create an empty execution report.
    pub fn new() -> (r: Self)
        ensures
            r.total_groups == 0,
            r.downloaded == 0,
            r.deleted == 0,
            r.failed == 0,
            r.skipped == 0,
            r.albums_transferred == 0,
            r.album_transfer_failures == 0,
            r.results@.len() == 0,
    {
        ExecutionReport {
            total_groups: 0,
            downloaded: 0,
            deleted: 0,
            failed: 0,
            skipped: 0,
            albums_transferred: 0,
            album_transfer_failures: 0,
            results: Vec::new(),
        }
    }

    /// Add a group result and update every counter.
    ///
    /// Downloads count one success, failure, or skip each; a successful
    /// delete counts one deletion per successfully downloaded asset; a
    /// failed or skipped delete counts once; album figures accumulate.
    pub fn add_group_result(&mut self, result: GroupResult)
        requires
            old(self).total_groups < usize::MAX,
            old(self).downloaded + count_successes(result.download_results@) < usize::MAX,
            old(self).deleted + count_successes(result.download_results@) < usize::MAX,
            old(self).failed + count_failures(result.download_results@) < usize::MAX,
            old(self).skipped + count_skips(result.download_results@) < usize::MAX,
            old(self).albums_transferred + spec_albums_transferred(result) < usize::MAX,
            old(self).album_transfer_failures < usize::MAX,
        ensures
            final(self).total_groups == old(self).total_groups + 1,
            final(self).downloaded == old(self).downloaded + count_successes(
                result.download_results@,
            ),
            final(self).deleted == old(self).deleted + (
            if result.delete_result is Some && result.delete_result.unwrap() is Success {
                count_successes(result.download_results@)
            } else {
                0nat
            }),
            final(self).failed == old(self).failed + count_failures(result.download_results@) + (
            if result.delete_result is Some && result.delete_result.unwrap() is Failed {
                1nat
            } else {
                0nat
            }),
            final(self).skipped == old(self).skipped + count_skips(result.download_results@) + (
            if result.delete_result is Some && result.delete_result.unwrap() is Skipped {
                1nat
            } else {
                0nat
            }),
            final(self).albums_transferred == old(self).albums_transferred
                + spec_albums_transferred(result),
            final(self).album_transfer_failures == old(self).album_transfer_failures + (
            if spec_album_failure(result) {
                1nat
            } else {
                0nat
            }),
            final(self).results@.len() == old(self).results@.len() + 1,
            final(self).results@ == old(self).results@.push(result),
    {
        self.total_groups = self.total_groups + 1;

        let n = result.download_results.len();
        let mut i: usize = 0;
        let mut successes: usize = 0;
        let mut failures: usize = 0;
        let mut skips: usize = 0;
        while i < n
            invariant
                n == result.download_results@.len(),
                i <= n,
                successes == count_successes(result.download_results@.take(i as int)),
                failures == count_failures(result.download_results@.take(i as int)),
                skips == count_skips(result.download_results@.take(i as int)),
                successes <= i,
                failures <= i,
                skips <= i,
            decreases n - i,
        {
            match &result.download_results[i] {
                OperationResult::Success { .. } => {
                    successes = successes + 1;
                },
                OperationResult::Failed { .. } => {
                    failures = failures + 1;
                },
                OperationResult::Skipped { .. } => {
                    skips = skips + 1;
                },
            }
            proof {
                assert(result.download_results@.take(i + 1).drop_last() =~= result
                    .download_results@.take(i as int));
                assert(result.download_results@.take(i + 1).last()
                    == result.download_results@[i as int]);
            }
            i = i + 1;
        }
        proof {
            assert(result.download_results@.take(n as int) =~= result.download_results@);
        }

        self.downloaded = self.downloaded + successes;
        self.failed = self.failed + failures;
        self.skipped = self.skipped + skips;

        match &result.delete_result {
            Option::Some(OperationResult::Success { .. }) => {
                self.deleted = self.deleted + successes;
            },
            Option::Some(OperationResult::Failed { .. }) => {
                self.failed = self.failed + 1;
            },
            Option::Some(OperationResult::Skipped { .. }) => {
                self.skipped = self.skipped + 1;
            },
            Option::None => {},
        }

        match &result.album_transfer_result {
            Option::Some(album_transfer) => {
                self.albums_transferred = self.albums_transferred
                    + album_transfer.albums_transferred;
                if album_transfer.had_failures {
                    self.album_transfer_failures = self.album_transfer_failures + 1;
                }
            },
            Option::None => {},
        }

        self.results.push(result);
    }
}

impl Default for ExecutionReport {
    /// The default report is empty.
    fn default() -> (r: Self)
        ensures
            r.total_groups == 0,
            r.downloaded == 0,
            r.deleted == 0,
            r.failed == 0,
            r.skipped == 0,
            r.albums_transferred == 0,
            r.album_transfer_failures == 0,
            r.results@.len() == 0,
    {
        ExecutionReport::new()
    }
}

} // verus!
