//! Tests for the execution pipeline decision logic.

use immich_lib::executor::{
    backup_path, dedupe_albums, is_idempotent_add_error, successful_download_ids,
    AlbumTransferTally, ConsolidationPlan, GroupPipeline, RetrySchedule,
};
use immich_lib::models::{
    AlbumResponse, AlbumTransferResult, AssetResponse, AssetType, ExifInfo, ExecutionConfig,
    ExecutionReport, GroupResult, OperationResult,
};
use immich_lib::scoring::{DuplicateAnalysis, MetadataScore, ScoredAsset};

fn empty_exif() -> ExifInfo {
    ExifInfo {
        latitude: None,
        longitude: None,
        city: None,
        state: None,
        country: None,
        time_zone: None,
        date_time_original: None,
        make: None,
        model: None,
        lens_model: None,
        exposure_time: None,
        iso: None,
        exif_image_width: None,
        exif_image_height: None,
        file_size_in_byte: None,
        description: None,
        rating: None,
        orientation: None,
        modify_date: None,
        projection_type: None,
    }
}

fn asset_with_exif(id: &str, exif: Option<ExifInfo>) -> AssetResponse {
    AssetResponse {
        id: id.to_string(),
        original_file_name: format!("{}.jpg", id),
        file_created_at: "2024-01-01T00:00:00Z".to_string(),
        local_date_time: "2024-01-01T00:00:00".to_string(),
        asset_type: AssetType::Image,
        exif_info: exif,
        checksum: "checksum".to_string(),
        is_trashed: false,
        is_favorite: false,
        is_archived: false,
        has_metadata: true,
        duration: "0:00:00.000000".to_string(),
        owner_id: "owner-1".to_string(),
        original_mime_type: None,
        duplicate_id: None,
        thumbhash: None,
    }
}

fn scored(id: &str) -> ScoredAsset {
    ScoredAsset {
        asset_id: id.to_string(),
        filename: format!("{}.jpg", id),
        score: MetadataScore::default(),
        file_size: None,
    }
}

fn analysis(dup: &str, winner: &str, losers: &[&str]) -> DuplicateAnalysis {
    DuplicateAnalysis {
        duplicate_id: dup.to_string(),
        winner: scored(winner),
        losers: losers.iter().map(|l| scored(l)).collect(),
        conflicts: Vec::new(),
        needs_review: false,
    }
}

fn album(id: &str, name: &str) -> AlbumResponse {
    AlbumResponse {
        id: id.to_string(),
        album_name: name.to_string(),
        description: None,
        album_thumbnail_asset_id: None,
        owner_id: "owner-1".to_string(),
        asset_ids: Vec::new(),
    }
}

#[test]
fn test_consolidation_single_loser_gps() {
    // Scenario: winner has no GPS, single loser has GPS (51.5074, -0.1278):
    // the result records a GPS transfer sourced from the loser
    let winner = asset_with_exif("winner", None);
    let mut plan = ConsolidationPlan::new(&winner);
    assert!(!plan.nothing_needed());

    let mut loser_exif = empty_exif();
    loser_exif.latitude = Some(51_507_400);
    loser_exif.longitude = Some(-127_800);
    let loser = asset_with_exif("loser", Some(loser_exif));
    plan.observe_loser("loser", &loser);

    assert!(plan.any_found());
    let update = plan.update_payload();
    assert_eq!(update.latitude, Some(51_507_400));
    assert_eq!(update.longitude, Some(-127_800));

    let result = plan.into_result();
    assert!(result.gps_transferred);
    assert!(!result.datetime_transferred);
    assert!(!result.description_transferred);
    assert_eq!(result.source_asset_id.as_deref(), Some("loser"));
    assert!(result.any_transferred());
}

#[test]
fn test_consolidation_first_found_wins_per_field() {
    let winner = asset_with_exif("winner", None);
    let mut plan = ConsolidationPlan::new(&winner);

    let mut first = empty_exif();
    first.latitude = Some(1_000_000);
    first.longitude = Some(2_000_000);
    plan.observe_loser("first", &asset_with_exif("first", Some(first)));

    // A later loser cannot override the earlier GPS match, but fills
    // the still-missing datetime
    let mut second = empty_exif();
    second.latitude = Some(9_000_000);
    second.longitude = Some(9_000_000);
    second.date_time_original = Some("2024:03:20 09:00:00".to_string());
    plan.observe_loser("second", &asset_with_exif("second", Some(second)));

    let update = plan.update_payload();
    assert_eq!(update.latitude, Some(1_000_000));
    assert_eq!(update.date_time_original.as_deref(), Some("2024:03:20 09:00:00"));
    let result = plan.into_result();
    // GPS source takes precedence in the recorded source asset id
    assert_eq!(result.source_asset_id.as_deref(), Some("first"));
}

#[test]
fn test_consolidation_winner_complete_nothing_needed() {
    let mut winner_exif = empty_exif();
    winner_exif.latitude = Some(1);
    winner_exif.longitude = Some(1);
    winner_exif.date_time_original = Some("2024:01:01 00:00:00".to_string());
    winner_exif.description = Some("done".to_string());
    let winner = asset_with_exif("winner", Some(winner_exif));
    let plan = ConsolidationPlan::new(&winner);
    assert!(plan.nothing_needed());
    assert!(plan.complete());
}

#[test]
fn test_consolidation_early_stop_when_complete() {
    let mut winner_exif = empty_exif();
    winner_exif.date_time_original = Some("2024:01:01 00:00:00".to_string());
    winner_exif.description = Some("text".to_string());
    let winner = asset_with_exif("winner", Some(winner_exif));
    let mut plan = ConsolidationPlan::new(&winner);
    assert!(!plan.complete());

    let mut loser = empty_exif();
    loser.latitude = Some(5);
    loser.longitude = Some(6);
    plan.observe_loser("l1", &asset_with_exif("l1", Some(loser)));
    assert!(plan.complete());
}

#[test]
fn test_successful_download_ids_filters_successes() {
    let downloads = vec![
        OperationResult::Success {
            id: "a".to_string(),
            path: Some("/backups/a.jpg".to_string()),
        },
        OperationResult::Failed {
            id: "b".to_string(),
            error: "network".to_string(),
        },
        OperationResult::Success {
            id: "c".to_string(),
            path: Some("/backups/c.jpg".to_string()),
        },
    ];
    let ids = successful_download_ids(&downloads);
    assert_eq!(ids, vec!["a".to_string(), "c".to_string()]);
}

#[test]
fn test_pipeline_delete_candidates_subset_of_successes() {
    // The ids handed to deletion are exactly the successfully downloaded ones
    let a = analysis("group-1", "w", &["l1", "l2", "l3"]);
    let mut pipeline = GroupPipeline::new(&a);
    pipeline.record_download(OperationResult::Success {
        id: "l1".to_string(),
        path: Some("/backups/l1.jpg".to_string()),
    });
    pipeline.record_download(OperationResult::Failed {
        id: "l2".to_string(),
        error: "timeout".to_string(),
    });
    pipeline.record_download(OperationResult::Success {
        id: "l3".to_string(),
        path: Some("/backups/l3.jpg".to_string()),
    });

    let candidates = pipeline.delete_candidates();
    assert_eq!(candidates, vec!["l1".to_string(), "l3".to_string()]);

    let result = pipeline.finish(Some(Ok(())));
    assert_eq!(result.download_results.len(), 3);
    assert!(matches!(
        result.delete_result,
        Some(OperationResult::Success { .. })
    ));
}

#[test]
fn test_pipeline_album_failure_blocks_deletion() {
    // If the album transfer failed, no download or delete is attempted:
    // the download list is empty and one group-level skip is recorded
    let a = analysis("group-2", "w", &["l1"]);
    let mut pipeline = GroupPipeline::new(&a);
    pipeline.set_album_transfer(AlbumTransferResult {
        albums_transferred: 0,
        album_ids: vec![],
        album_names: vec![],
        had_failures: true,
        error_message: Some("Failed to transfer album 'Trips' after retry".to_string()),
    });
    assert!(pipeline.must_skip_deletion());

    let result = pipeline.finish_skipped();
    assert!(result.download_results.is_empty());
    match result.delete_result {
        Some(OperationResult::Skipped { id, reason }) => {
            assert_eq!(id, "group-2");
            assert_eq!(
                reason,
                "Album transfer failed after retry, skipping deletion to preserve album integrity"
            );
        }
        _ => panic!("expected a skipped delete"),
    }
}

#[test]
fn test_pipeline_no_successful_download_skips_delete() {
    let a = analysis("group-3", "w", &["l1"]);
    let mut pipeline = GroupPipeline::new(&a);
    pipeline.record_download(OperationResult::Failed {
        id: "l1".to_string(),
        error: "disk full".to_string(),
    });
    assert!(pipeline.delete_candidates().is_empty());

    let result = pipeline.finish(None);
    match result.delete_result {
        Some(OperationResult::Skipped { reason, .. }) => {
            assert_eq!(reason, "No assets were successfully downloaded");
        }
        _ => panic!("expected a skipped delete"),
    }
}

#[test]
fn test_pipeline_failed_delete_records_error() {
    let a = analysis("group-4", "w", &["l1"]);
    let mut pipeline = GroupPipeline::new(&a);
    pipeline.record_download(OperationResult::Success {
        id: "l1".to_string(),
        path: None,
    });
    let result = pipeline.finish(Some(Err("API error 500: boom".to_string())));
    match result.delete_result {
        Some(OperationResult::Failed { error, .. }) => {
            assert_eq!(error, "API error 500: boom");
        }
        _ => panic!("expected a failed delete"),
    }
}

#[test]
fn test_idempotent_add_error() {
    assert!(is_idempotent_add_error(400, "Asset is a DUPLICATE of existing"));
    assert!(is_idempotent_add_error(400, "asset already in album"));
    assert!(!is_idempotent_add_error(400, "bad request"));
    assert!(!is_idempotent_add_error(500, "duplicate"));
}

#[test]
fn test_retry_schedule_doubles_and_respects_budget() {
    let mut schedule = RetrySchedule::new();
    assert_eq!(schedule.next_sleep(0), Some(250));
    assert_eq!(schedule.next_sleep(250), Some(500));
    assert_eq!(schedule.next_sleep(750), Some(1000));
    // Near the end of the budget the sleep is clamped to what remains
    assert_eq!(schedule.next_sleep(59_900), Some(100));
    // Once the budget is spent, the operation fails without sleeping
    assert_eq!(schedule.next_sleep(60_000), None);
    assert_eq!(schedule.next_sleep(70_000), None);
}

#[test]
fn test_retry_schedule_sleep_never_exceeds_budget() {
    let mut schedule = RetrySchedule::new();
    let mut elapsed: u64 = 0;
    while let Some(sleep) = schedule.next_sleep(elapsed) {
        elapsed += sleep;
        assert!(elapsed <= 60_000);
    }
    assert!(elapsed <= 60_000);
}

#[test]
fn test_dedupe_albums_first_seen() {
    let all = vec![
        album("a1", "Trips"),
        album("a2", "Family"),
        album("a1", "Trips again"),
        album("a3", "Work"),
        album("a2", "Family again"),
    ];
    let unique = dedupe_albums(all);
    assert_eq!(unique.len(), 3);
    assert_eq!(unique[0].id, "a1");
    assert_eq!(unique[0].album_name, "Trips");
    assert_eq!(unique[1].id, "a2");
    assert_eq!(unique[1].album_name, "Family");
    assert_eq!(unique[2].id, "a3");
}

#[test]
fn test_backup_path_layout() {
    let path = backup_path("./backups", "abc-123", "photo.jpg");
    assert_eq!(path, "./backups/abc-123_photo.jpg");
}

#[test]
fn test_execution_config_default() {
    let config = ExecutionConfig::default();
    assert_eq!(config.requests_per_sec, 10);
    assert_eq!(config.max_concurrent, 5);
    assert_eq!(config.backup_dir, "./backups");
    assert!(!config.force_delete);
    assert!(config.preserve_albums);
}

#[test]
fn test_report_counts_accumulate() {
    let mut report = ExecutionReport::new();
    assert_eq!(report.total_groups, 0);

    report.add_group_result(GroupResult {
        duplicate_id: "g1".to_string(),
        winner_id: "w1".to_string(),
        consolidation_result: None,
        album_transfer_result: Some(AlbumTransferResult {
            albums_transferred: 2,
            album_ids: vec!["a1".to_string(), "a2".to_string()],
            album_names: vec!["Trips".to_string(), "Family".to_string()],
            had_failures: false,
            error_message: None,
        }),
        download_results: vec![
            OperationResult::Success {
                id: "l1".to_string(),
                path: None,
            },
            OperationResult::Failed {
                id: "l2".to_string(),
                error: "oops".to_string(),
            },
        ],
        delete_result: Some(OperationResult::Success {
            id: "g1".to_string(),
            path: None,
        }),
    });

    assert_eq!(report.total_groups, 1);
    assert_eq!(report.downloaded, 1);
    assert_eq!(report.failed, 1);
    assert_eq!(report.skipped, 0);
    // One successful delete counts one deletion per downloaded asset
    assert_eq!(report.deleted, 1);
    assert_eq!(report.albums_transferred, 2);
    assert_eq!(report.album_transfer_failures, 0);
    assert_eq!(report.results.len(), 1);

    report.add_group_result(GroupResult {
        duplicate_id: "g2".to_string(),
        winner_id: "w2".to_string(),
        consolidation_result: None,
        album_transfer_result: Some(AlbumTransferResult {
            albums_transferred: 0,
            album_ids: vec![],
            album_names: vec![],
            had_failures: true,
            error_message: Some("failed".to_string()),
        }),
        download_results: vec![],
        delete_result: Some(OperationResult::Skipped {
            id: "g2".to_string(),
            reason: "Album transfer failed after retry, skipping deletion to preserve album integrity".to_string(),
        }),
    });

    assert_eq!(report.total_groups, 2);
    assert_eq!(report.skipped, 1);
    assert_eq!(report.album_transfer_failures, 1);
}

#[test]
fn test_album_transfer_result_helpers() {
    let ok = AlbumTransferResult {
        albums_transferred: 1,
        album_ids: vec!["a".to_string()],
        album_names: vec!["A".to_string()],
        had_failures: false,
        error_message: None,
    };
    assert!(ok.any_transferred());
    assert!(ok.all_succeeded());

    let bad = AlbumTransferResult {
        albums_transferred: 0,
        album_ids: vec![],
        album_names: vec![],
        had_failures: true,
        error_message: Some("e".to_string()),
    };
    assert!(!bad.any_transferred());
    assert!(!bad.all_succeeded());
}

#[test]
fn test_tally_lookup_failure_is_swallowed() {
    // A failed album lookup joins the error summary but never marks the
    // stage failed, so it cannot block the group's deletion
    let mut tally = AlbumTransferTally::new();
    tally.record_lookup_failure("loser-1", "API error 500: boom");
    let result = tally.finish();
    assert!(!result.had_failures);
    assert_eq!(result.albums_transferred, 0);
    assert_eq!(
        result.error_message.as_deref(),
        Some("Failed to get albums for loser-1: API error 500: boom")
    );
}

#[test]
fn test_tally_transfer_failure_sets_flag() {
    let mut tally = AlbumTransferTally::new();
    tally.record_transfer("a1", "Trips", true);
    tally.record_transfer("a2", "Family", false);
    tally.record_transfer("a3", "Work", true);
    let result = tally.finish();
    assert!(result.had_failures);
    assert_eq!(result.albums_transferred, 2);
    assert_eq!(result.album_ids, vec!["a1".to_string(), "a3".to_string()]);
    assert_eq!(result.album_names, vec!["Trips".to_string(), "Work".to_string()]);
    assert_eq!(
        result.error_message.as_deref(),
        Some("Failed to transfer album 'Family' after retry")
    );
}

#[test]
fn test_tally_all_transfers_succeed() {
    let mut tally = AlbumTransferTally::new();
    tally.record_transfer("a1", "Trips", true);
    let result = tally.finish();
    assert!(!result.had_failures);
    assert!(result.error_message.is_none());
    assert_eq!(result.albums_transferred, 1);
    assert!(result.all_succeeded());
}

#[test]
fn test_tally_joins_messages() {
    let mut tally = AlbumTransferTally::new();
    tally.record_lookup_failure("l1", "timeout");
    tally.record_transfer("a1", "Trips", false);
    let result = tally.finish();
    assert!(result.had_failures);
    assert_eq!(
        result.error_message.as_deref(),
        Some("Failed to get albums for l1: timeout; Failed to transfer album 'Trips' after retry")
    );
}
