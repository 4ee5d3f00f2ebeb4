use dr_control::advice::generate_recommendations;
use dr_control::freshness::backup_freshness;
use dr_control::metrics::{validation_metrics, MetricUnit, MetricValue};
use dr_control::probe::{sentinel_marker, sentinel_table, LagDecision, LagProbe};
use dr_control::clock::Instant;
use dr_control::region::{AwsRegion, TableName};
use dr_control::report::{validation_report, ValidationRequest};
use dr_control::sampling::{sample_mismatches, sample_size, validate_table_data, LookupOutcome};
use dr_control::validation::{
    pending_sync_counts, summarize, sync_missing_items, tables_to_validate, totals_fit, validated_tables,
    ActionType, BackupStatus, ConsistencyScore, TableValidation, Thresholds, ValidationMode,
    ValidationResults, ValidationStatus,
};

const ALL_CLEAR: &str = "All validation checks passed. System is healthy.";

fn table(name: &str, primary: usize, dr: usize, misses: &[&str]) -> TableValidation {
    TableValidation {
        table_name: TableName::new(name),
        primary_count: primary,
        dr_count: dr,
        sample_mismatches: misses.iter().map(|m| m.to_string()).collect(),
    }
}

fn backups(last_hours: Option<i128>, count: usize, oldest_days: Option<i128>) -> BackupStatus {
    BackupStatus {
        last_backup_age_seconds: last_hours.map(|h| h * 3600),
        backup_count: count,
        oldest_backup_age_seconds: oldest_days.map(|d| d * 86400),
    }
}

fn results(score: ConsistencyScore, lag: Option<i64>, backup: BackupStatus) -> ValidationResults {
    ValidationResults {
        tables_validated: 2,
        records_checked: score.checked,
        mismatches_found: score.checked - score.matched,
        replication_lag_seconds: lag,
        backup_status: backup,
        consistency_score: score,
    }
}

fn percent(score: &ConsistencyScore) -> f64 {
    if score.checked == 0 {
        100.0
    } else {
        (score.matched as f64 / score.checked as f64) * 100.0
    }
}

#[test]
fn test_table_validation_scenarios() {
    let ids: Vec<String> = vec!["123".to_string(), "456".to_string(), "789".to_string()];
    let outcomes = vec![LookupOutcome::Missing, LookupOutcome::Missing, LookupOutcome::Missing];
    let mismatches = sample_mismatches(&ids, &outcomes);

    assert_eq!(mismatches.len(), 3);
    assert!(mismatches[0].contains("not found in DR"));
    assert_eq!(
        mismatches,
        vec!["Item 123 not found in DR", "Item 456 not found in DR", "Item 789 not found in DR"]
    );
}

#[test]
fn test_metric_thresholds() {
    const CONSISTENCY_THRESHOLD: f64 = 95.0;
    const LAG_THRESHOLD: i64 = 60;
    const BACKUP_AGE_THRESHOLD: f64 = 24.0;

    assert_eq!(CONSISTENCY_THRESHOLD, 95.0);
    assert_eq!(LAG_THRESHOLD, 60);
    assert_eq!(BACKUP_AGE_THRESHOLD, 24.0);

    let th = Thresholds::standard();
    assert_eq!(th.min_consistency_percent as f64, CONSISTENCY_THRESHOLD);
    assert_eq!(th.max_lag_seconds, LAG_THRESHOLD);
    assert_eq!(th.max_backup_age_seconds as f64 / 3600.0, BACKUP_AGE_THRESHOLD);
    assert_eq!(th.max_retention_seconds, 30 * 86400);
}

#[test]
fn test_consistency_score_calculation() {
    let perfect = ConsistencyScore::from_counts(100, 0);
    assert_eq!(percent(&perfect), 100.0);

    let degraded = ConsistencyScore::from_counts(100, 10);
    assert_eq!(percent(&degraded), 90.0);
    assert!(percent(&degraded) < 95.0);
    assert!(!degraded.at_least(95));
    assert_eq!(degraded.tenths(), 900);
}

#[test]
fn test_zero_records_consistency() {
    let v: Vec<TableValidation> = Vec::new();
    let r = summarize(&v, None, BackupStatus::unknown());
    assert_eq!(r.records_checked, 0);
    assert_eq!(percent(&r.consistency_score), 100.0);
    assert_eq!(r.consistency_score.tenths(), 1000);
    assert!(r.consistency_score.at_least(95));
}

#[test]
fn test_recommendations_generation() {
    let th = Thresholds::standard();

    let high_lag = results(
        ConsistencyScore::from_counts(100, 0),
        Some(120),
        backups(Some(10), 5, Some(20)),
    );
    assert_eq!(
        generate_recommendations(&high_lag, &th),
        vec![
            "Replication lag is 120 seconds. Consider investigating DynamoDB Global Tables health."
        ]
    );

    let low = results(ConsistencyScore::from_counts(100, 15), None, BackupStatus::unknown());
    assert_eq!(
        generate_recommendations(&low, &th),
        vec!["Data consistency is below 95% (85.0%). Investigate mismatches immediately."]
    );

    let old = results(ConsistencyScore::from_counts(100, 0), None, backups(Some(36), 3, Some(45)));
    assert_eq!(
        generate_recommendations(&old, &th),
        vec![
            "Last backup is 36.0 hours old. Consider running a manual backup.",
            "Oldest backup is 45 days old. Consider reviewing retention policy.",
        ]
    );
}

#[test]
fn every_rule_fires_in_order() {
    let th = Thresholds::standard();
    let r = results(ConsistencyScore::from_counts(200, 50), Some(61), backups(Some(25), 4, Some(31)));
    let recs = generate_recommendations(&r, &th);
    assert_eq!(recs.len(), 4);
    assert!(recs[0].starts_with("Data consistency is below 95% (75.0%)"));
    assert!(recs[1].starts_with("Replication lag is 61 seconds"));
    assert!(recs[2].starts_with("Last backup is 25.0 hours old"));
    assert!(recs[3].starts_with("Oldest backup is 31 days old"));
    assert!(!recs.iter().any(|m| m == ALL_CLEAR));
}

#[test]
fn thresholds_are_exclusive() {
    let th = Thresholds::standard();
    let r = results(ConsistencyScore::from_counts(100, 5), Some(60), backups(Some(24), 1, Some(30)));
    assert_eq!(generate_recommendations(&r, &th), vec![ALL_CLEAR]);
}

#[test]
fn ages_round_half_up() {
    let th = Thresholds::standard();
    let r = results(
        ConsistencyScore::from_counts(0, 0),
        None,
        BackupStatus {
            last_backup_age_seconds: Some(24 * 3600 + 180),
            backup_count: 1,
            oldest_backup_age_seconds: Some(30 * 86400 + 43200),
        },
    );
    assert_eq!(
        generate_recommendations(&r, &th),
        vec![
            "Last backup is 24.1 hours old. Consider running a manual backup.",
            "Oldest backup is 31 days old. Consider reviewing retention policy.",
        ]
    );
}

#[test]
fn full_run_of_two_consistent_tables_is_healthy() {
    let v = vec![table("dr-application-table", 100, 100, &[]), table("dr-sentinel-table", 100, 100, &[])];
    let th = Thresholds::standard();
    let report = validation_report(
        ValidationMode::Full,
        &v,
        Some(5),
        backups(Some(2), 3, Some(3)),
        &th,
        "2025-01-06T12:00:00+00:00",
    );
    assert_eq!(report.results.tables_validated, 2);
    assert_eq!(report.results.records_checked, 200);
    assert_eq!(report.results.mismatches_found, 0);
    assert_eq!(percent(&report.results.consistency_score), 100.0);
    assert_eq!(report.status, ValidationStatus::Healthy);
    assert_eq!(report.validation_mode, ValidationMode::Full);
    assert_eq!(report.timestamp, "2025-01-06T12:00:00+00:00");
    assert_eq!(report.recommendations, vec![ALL_CLEAR]);
}

#[test]
fn short_secondary_with_sampled_misses_is_degraded() {
    let v = vec![table("orders", 100, 90, &["Item a not found in DR", "Item b not found in DR"])];
    let th = Thresholds::standard();
    let report = validation_report(
        ValidationMode::Specific,
        &v,
        None,
        BackupStatus::unknown(),
        &th,
        "2025-01-06T12:00:00+00:00",
    );
    assert_eq!(report.results.mismatches_found, 12);
    assert_eq!(report.results.records_checked, 100);
    assert_eq!(percent(&report.results.consistency_score), 88.0);
    assert_eq!(report.results.consistency_score.tenths(), 880);
    assert_eq!(report.status, ValidationStatus::Degraded);
    assert!(report
        .recommendations
        .contains(&"Data consistency is below 95% (88.0%). Investigate mismatches immediately.".to_string()));
}

#[test]
fn more_mismatches_than_records_clamp_to_zero() {
    let v = vec![table("t", 10, 0, &["Item x not found in DR"])];
    let r = summarize(&v, None, BackupStatus::unknown());
    assert_eq!(r.mismatches_found, 11);
    assert_eq!(r.consistency_score.matched, 0);
    assert_eq!(percent(&r.consistency_score), 0.0);
}

#[test]
fn score_does_not_rise_with_mismatches() {
    let mut last = f64::INFINITY;
    for m in 0..120 {
        let p = percent(&ConsistencyScore::from_counts(100, m));
        assert!(p <= last);
        last = p;
    }
}

#[test]
fn test_backup_status_scenarios() {
    let now: i64 = 1_000_000_000;
    let stamps = vec![
        (now - 6 * 3600).to_string(),
        "not-a-number".to_string(),
        (now - 15 * 86400).to_string(),
    ];
    let good = backup_freshness(20, &stamps, now);
    assert_eq!(good.backup_count, 20);
    assert_eq!(good.last_backup_age_seconds, Some(6 * 3600));
    assert_eq!(good.oldest_backup_age_seconds, Some(15 * 86400));

    let none = backup_freshness(0, &Vec::new(), now);
    assert_eq!(none, BackupStatus::unknown());

    let old = backup_freshness(5, &vec![(now - 48 * 3600).to_string(), (now - 45 * 86400).to_string()], now);
    assert!(old.last_backup_age_seconds.unwrap() > 24 * 3600);
    assert!(old.oldest_backup_age_seconds.unwrap() > 30 * 86400);
}

#[test]
fn freshness_parses_signed_timestamps() {
    let stamps = vec!["+100".to_string(), "-5".to_string(), " 7".to_string()];
    let f = backup_freshness(3, &stamps, 1000);
    assert_eq!(f.last_backup_age_seconds, Some(900));
    assert_eq!(f.oldest_backup_age_seconds, Some(1005));
}

#[test]
fn sampled_lookup_failures_count_as_mismatches() {
    let ids: Vec<String> = vec!["1".to_string(), "2".to_string(), "3".to_string()];
    let outcomes = vec![LookupOutcome::Found, LookupOutcome::Failed, LookupOutcome::Missing];
    let t = validate_table_data(TableName::new("orders"), 5, 5, &ids, &outcomes);
    assert_eq!(t.sample_mismatches, vec!["Item 2 could not be checked in DR", "Item 3 not found in DR"]);
    assert_eq!(t.mismatches(), 2);
    assert_eq!(sample_size(), 10);
}

#[test]
fn table_selection_and_sync_counts() {
    let named = tables_to_validate(Some(TableName::new("orders")));
    assert_eq!(named, vec![TableName::new("orders")]);
    let defaults = tables_to_validate(None);
    assert_eq!(defaults[0].as_str(), "dr-application-table");
    assert_eq!(defaults[1].as_str(), "dr-sentinel-table");

    let v = vec![table("a", 100, 90, &[]), table("b", 90, 100, &[]), table("c", 5, 5, &["Item z not found in DR"])];
    assert_eq!(sync_missing_items(&v[0]), 10);
    assert_eq!(pending_sync_counts(&v, ActionType::Sync), vec![10, 0, 0]);
    assert_eq!(pending_sync_counts(&v, ActionType::Validate), vec![0, 0, 0]);
    assert!(totals_fit(&v));
    let huge = vec![table("a", usize::MAX, 0, &[]), table("b", 1, 1, &[])];
    assert!(!totals_fit(&huge));
}

#[test]
fn request_defaults_and_names() {
    let r = ValidationRequest::new();
    assert_eq!(r.validation_mode, ValidationMode::Incremental);
    assert_eq!(r.action, ActionType::Validate);
    assert_eq!(r.source_region, AwsRegion::new("us-east-1"));
    assert_eq!(r.target_region.as_str(), "us-west-2");
    assert!(r.table_name.is_none());
    assert_eq!(ValidationMode::Full.as_str(), "full");
    assert_eq!(ValidationMode::Specific.as_str(), "specific");
    assert_eq!(ActionType::Sync.as_str(), "sync");
    assert_eq!(ValidationStatus::Degraded.as_str(), "degraded");
    assert_eq!(ValidationStatus::Failed.as_str(), "failed");
    assert_eq!(AwsRegion::default().as_str(), "us-east-1");
}

#[test]
fn lag_probe_finishes_on_first_sighting() {
    let mut p = LagProbe::start(10_000);
    assert_eq!(p.record_poll(false, 11_000), LagDecision::PollAgain);
    assert_eq!(p.record_poll(true, 13_500), LagDecision::Finished(Some(3)));
    assert_eq!(p.attempts, 2);
    assert_eq!(p.poll_interval_millis(), 1000);
}

#[test]
fn lag_probe_gives_no_signal_after_ten_misses() {
    let mut p = LagProbe::start(0);
    for i in 0..9 {
        assert_eq!(p.record_poll(false, i * 1000), LagDecision::PollAgain);
    }
    assert_eq!(p.record_poll(false, 9000), LagDecision::Finished(None));
}

#[test]
fn sentinel_marker_is_keyed_by_millis() {
    let now = Instant { seconds: 1704556800, millis: 1704556800123, rfc3339: String::new() };
    let m = sentinel_marker(&now);
    assert_eq!(m.id, "lag-test-1704556800123");
    assert_eq!(m.timestamp, 1704556800);
    assert_eq!(m.source, "validator");
    assert_eq!(sentinel_table(), "dr-sentinel-table");
}

#[test]
fn validation_metrics_carry_score_and_mismatches() {
    let r = results(ConsistencyScore::from_counts(100, 12), None, BackupStatus::unknown());
    let m = validation_metrics(&r);
    assert_eq!(m.len(), 2);
    assert_eq!(m[0].name, "ValidationConsistencyScore");
    assert_eq!(m[0].value, MetricValue::Score(ConsistencyScore { matched: 88, checked: 100 }));
    assert_eq!(m[0].unit, MetricUnit::Percent);
    assert_eq!(m[1].name, "ValidationMismatches");
    assert_eq!(m[1].value, MetricValue::Whole(12));
    assert_eq!(m[1].unit, MetricUnit::Count);
}

#[test]
fn any_parsed_timestamp_gives_both_ages() {
    let only_max = backup_freshness(1, &vec![i64::MAX.to_string()], 0);
    assert_eq!(only_max.last_backup_age_seconds, Some(-(i64::MAX as i128)));
    assert_eq!(only_max.oldest_backup_age_seconds, Some(-(i64::MAX as i128)));

    let before_epoch = backup_freshness(2, &vec!["0".to_string(), "-3".to_string()], 10);
    assert_eq!(before_epoch.last_backup_age_seconds, Some(10));
    assert_eq!(before_epoch.oldest_backup_age_seconds, Some(13));

    let unreadable = backup_freshness(2, &vec!["x".to_string()], 10);
    assert_eq!(unreadable.backup_count, 2);
    assert_eq!(unreadable.last_backup_age_seconds, None);
    assert_eq!(unreadable.oldest_backup_age_seconds, None);
}

#[test]
fn failed_tables_are_left_out() {
    let kept = validated_tables(vec![
        Some(table("a", 1, 1, &[])),
        None,
        Some(table("c", 3, 2, &[])),
        None,
    ]);
    assert_eq!(kept.len(), 2);
    assert_eq!(kept[0].table_name.as_str(), "a");
    assert_eq!(kept[1].table_name.as_str(), "c");
    assert!(validated_tables(vec![None, None]).is_empty());
}
