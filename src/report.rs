//! The validation request with its defaults, the final report, and the laws
//! that every report obeys.

use vstd::prelude::*;
use crate::region::{AwsRegion, TableName};
use crate::validation::{
    ActionType, BackupStatus, TableValidation, Thresholds, ValidationMode, ValidationResults,
    ValidationStatus, matched_of, percent_denominator, percent_numerator, score_from_counts,
    status_for, status_of, summarize, total_mismatches, total_records,
};
use crate::advice::{all_clear_message, fired_rules, generate_recommendations, recommendations_of};
use crate::text::{owned, texts};

verus! {

/// A request to validate the replicas; absent fields take their defaults.
#[derive(Debug, Clone)]
pub struct ValidationRequest {
    pub validation_mode: ValidationMode,
    pub table_name: Option<TableName>,
    pub source_region: AwsRegion,
    pub target_region: AwsRegion,
    pub action: ActionType,
}

impl ValidationRequest {
    /// A request with every field at its default: incremental validation of
    /// the default tables from `us-east-1` to `us-west-2`.
    pub fn new() -> (r: ValidationRequest)
        ensures
            r.validation_mode == ValidationMode::Incremental,
            r.table_name is None,
            r.source_region@ == "us-east-1"@,
            r.target_region@ == "us-west-2"@,
            r.action == ActionType::Validate,
    {
        ValidationRequest {
            validation_mode: ValidationMode::default(),
            table_name: None,
            source_region: AwsRegion::default_source(),
            target_region: AwsRegion::default_target(),
            action: ActionType::default(),
        }
    }
}

/// The report of one validation run.
#[derive(Debug, Clone)]
pub struct ValidationResponse {
    pub status: ValidationStatus,
    pub validation_mode: ValidationMode,
    pub timestamp: String,
    pub results: ValidationResults,
    pub recommendations: Vec<String>,
}

/// The results of the tables that could be sampled, with the lag and backup figures.
pub open spec fn summary_of(
    validations: Seq<TableValidation>,
    replication_lag: Option<i64>,
    backup_status: BackupStatus,
) -> ValidationResults {
    ValidationResults {
        tables_validated: validations.len() as usize,
        records_checked: total_records(validations) as usize,
        mismatches_found: total_mismatches(validations) as usize,
        replication_lag_seconds: replication_lag,
        backup_status,
        consistency_score: score_from_counts(
            total_records(validations) as usize,
            total_mismatches(validations) as usize,
        ),
    }
}

/// Builds the report of a run from the tables that could be sampled, the lag
/// measurement, the backup freshness and the time of the run (RFC 3339).
pub fn validation_report(
    validation_mode: ValidationMode,
    validations: &Vec<TableValidation>,
    replication_lag: Option<i64>,
    backup_status: BackupStatus,
    thresholds: &Thresholds,
    timestamp: &str,
) -> (r: ValidationResponse)
    requires
        thresholds.wf(),
        total_records(validations@) <= usize::MAX,
        total_mismatches(validations@) <= usize::MAX,
    ensures
        r.results == summary_of(validations@, replication_lag, backup_status),
        r.status == status_of(r.results.consistency_score, *thresholds),
        r.validation_mode == validation_mode,
        r.timestamp@ == timestamp@,
        texts(r.recommendations@) == recommendations_of(r.results, *thresholds),
{
    let results = summarize(validations, replication_lag, backup_status);
    let status = status_for(&results.consistency_score, thresholds);
    let recommendations = generate_recommendations(&results, thresholds);
    ValidationResponse {
        status,
        validation_mode,
        timestamp: owned(timestamp),
        results,
        recommendations,
    }
}

/// When no record was checked, whatever the tables, lag and backups, the score
/// is exactly 100 percent and the run is healthy.
pub proof fn lemma_nothing_checked_is_healthy(
    validations: Seq<TableValidation>,
    replication_lag: Option<i64>,
    backup_status: BackupStatus,
    th: Thresholds,
)
    requires
        th.wf(),
        total_records(validations) == 0,
    ensures
        summary_of(validations, replication_lag, backup_status).records_checked == 0,
        percent_numerator(summary_of(validations, replication_lag, backup_status).consistency_score)
            == 100 * percent_denominator(
            summary_of(validations, replication_lag, backup_status).consistency_score,
        ),
        status_of(summary_of(validations, replication_lag, backup_status).consistency_score, th)
            == ValidationStatus::Healthy,
{
}

/// For a fixed positive number of checked records, more mismatches never raise the score.
pub proof fn lemma_score_non_increasing(records: usize, fewer: usize, more: usize)
    requires
        records > 0,
        fewer <= more,
    ensures
        percent_numerator(score_from_counts(records, fewer)) * percent_denominator(
            score_from_counts(records, more),
        ) >= percent_numerator(score_from_counts(records, more)) * percent_denominator(
            score_from_counts(records, fewer),
        ),
{
    let a = matched_of(records as nat, fewer as nat);
    let b = matched_of(records as nat, more as nat);
    assert(a >= b);
    assert(100 * a * records >= 100 * b * records) by (nonlinear_arith)
        requires a >= b;
}

/// Of two runs that checked the same positive number of records, the one with
/// more mismatches never has the higher score.
pub proof fn lemma_run_score_non_increasing(
    first: Seq<TableValidation>,
    second: Seq<TableValidation>,
    lag1: Option<i64>,
    lag2: Option<i64>,
    backup1: BackupStatus,
    backup2: BackupStatus,
)
    requires
        summary_of(first, lag1, backup1).records_checked == summary_of(
            second,
            lag2,
            backup2,
        ).records_checked,
        summary_of(first, lag1, backup1).records_checked > 0,
        summary_of(first, lag1, backup1).mismatches_found <= summary_of(
            second,
            lag2,
            backup2,
        ).mismatches_found,
    ensures
        percent_numerator(summary_of(first, lag1, backup1).consistency_score) * percent_denominator(
            summary_of(second, lag2, backup2).consistency_score,
        ) >= percent_numerator(summary_of(second, lag2, backup2).consistency_score)
            * percent_denominator(summary_of(first, lag1, backup1).consistency_score),
{
    let a = summary_of(first, lag1, backup1);
    let b = summary_of(second, lag2, backup2);
    lemma_score_non_increasing(a.records_checked, a.mismatches_found, b.mismatches_found);
}

proof fn lemma_messages_differ_from_all_clear(r: ValidationResults, th: Thresholds)
    ensures
        forall|i: int|
            0 <= i < fired_rules(r, th).len() ==> fired_rules(r, th)[i] != all_clear_message(),
{
    reveal_strlit("All validation checks passed. System is healthy.");
    reveal_strlit("Data consistency is below ");
    reveal_strlit("Replication lag is ");
    reveal_strlit("Last backup is ");
    reveal_strlit("Oldest backup is ");
    assert forall|i: int| 0 <= i < fired_rules(r, th).len() implies fired_rules(r, th)[i][0]
        != 'A' by {
        let m = fired_rules(r, th)[i];
        assert(m[0] == 'D' || m[0] == 'R' || m[0] == 'L' || m[0] == 'O');
    }
    assert(all_clear_message()[0] == 'A');
}

/// The recommendations are never empty, and they are exactly the all-clear
/// message if and only if no threshold rule fired.
pub proof fn lemma_recommendations_all_clear(r: ValidationResults, th: Thresholds)
    ensures
        recommendations_of(r, th).len() > 0,
        (recommendations_of(r, th) == seq![all_clear_message()]) <==> (fired_rules(r, th).len()
            == 0),
{
    lemma_messages_differ_from_all_clear(r, th);
    if fired_rules(r, th).len() > 0 {
        if recommendations_of(r, th) == seq![all_clear_message()] {
            assert(fired_rules(r, th)[0] == all_clear_message());
        }
    }
}

} // verus!
