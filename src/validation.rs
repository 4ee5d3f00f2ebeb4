//! Cross-region consistency validation: per-table results, their aggregation
//! into one report, the consistency score and the health status it implies.

use vstd::prelude::*;
use crate::region::TableName;

verus! {

/// How much of the data a validation run covers.
#[derive(Debug, Clone, Copy, PartialEq, Eq, Structural)]
pub enum ValidationMode {
    Full,
    Incremental,
    Specific,
}

impl ValidationMode {
    /// The lower-case name used on the wire.
    pub fn as_str(&self) -> (r: &'static str)
        ensures
            r@ == mode_name(*self),
    {
        match self {
            ValidationMode::Full => "full",
            ValidationMode::Incremental => "incremental",
            ValidationMode::Specific => "specific",
        }
    }
}

pub open spec fn mode_name(m: ValidationMode) -> Seq<char> {
    match m {
        ValidationMode::Full => "full"@,
        ValidationMode::Incremental => "incremental"@,
        ValidationMode::Specific => "specific"@,
    }
}

impl Default for ValidationMode {
    fn default() -> (r: ValidationMode)
        ensures
            r == ValidationMode::Incremental,
    {
        ValidationMode::Incremental
    }
}

/// What a validation run does about the mismatches it finds.
#[derive(Debug, Clone, Copy, PartialEq, Eq, Structural)]
pub enum ActionType {
    Validate,
    Sync,
}

impl ActionType {
    /// The lower-case name used on the wire.
    pub fn as_str(&self) -> (r: &'static str)
        ensures
            r@ == (match *self {
                ActionType::Validate => "validate"@,
                ActionType::Sync => "sync"@,
            }),
    {
        match self {
            ActionType::Validate => "validate",
            ActionType::Sync => "sync",
        }
    }
}

impl Default for ActionType {
    fn default() -> (r: ActionType)
        ensures
            r == ActionType::Validate,
    {
        ActionType::Validate
    }
}

/// Overall verdict of a validation run. `Failed` is reserved: scoring never yields it.
#[derive(Debug, Clone, Copy, PartialEq, Eq, Structural)]
pub enum ValidationStatus {
    Healthy,
    Degraded,
    Failed,
}

impl ValidationStatus {
    /// The lower-case name used on the wire.
    pub fn as_str(&self) -> (r: &'static str)
        ensures
            r@ == (match *self {
                ValidationStatus::Healthy => "healthy"@,
                ValidationStatus::Degraded => "degraded"@,
                ValidationStatus::Failed => "failed"@,
            }),
    {
        match self {
            ValidationStatus::Healthy => "healthy",
            ValidationStatus::Degraded => "degraded",
            ValidationStatus::Failed => "failed",
        }
    }
}

/// Outcome of sampling one table in both regions.
#[derive(Debug, Clone)]
pub struct TableValidation {
    pub table_name: TableName,
    pub primary_count: usize,
    pub dr_count: usize,
    pub sample_mismatches: Vec<String>,
}

pub open spec fn abs_diff(a: nat, b: nat) -> nat {
    if a >= b {
        (a - b) as nat
    } else {
        (b - a) as nat
    }
}

/// Mismatches of one table: the difference of the counts plus the sampled misses.
pub open spec fn table_mismatches(t: TableValidation) -> nat {
    abs_diff(t.primary_count as nat, t.dr_count as nat) + t.sample_mismatches@.len()
}

/// Sum of the primary counts.
pub open spec fn total_records(ts: Seq<TableValidation>) -> nat
    decreases ts.len(),
{
    if ts.len() == 0 {
        0
    } else {
        total_records(ts.drop_last()) + ts.last().primary_count as nat
    }
}

/// Sum of the per-table mismatches.
pub open spec fn total_mismatches(ts: Seq<TableValidation>) -> nat
    decreases ts.len(),
{
    if ts.len() == 0 {
        0
    } else {
        total_mismatches(ts.drop_last()) + table_mismatches(ts.last())
    }
}

proof fn lemma_totals_grow(ts: Seq<TableValidation>, i: int)
    requires
        0 <= i <= ts.len(),
    ensures
        total_records(ts.take(i)) <= total_records(ts),
        total_mismatches(ts.take(i)) <= total_mismatches(ts),
    decreases ts.len() - i,
{
    if i < ts.len() {
        lemma_totals_grow(ts, i + 1);
        assert(ts.take(i + 1).drop_last() =~= ts.take(i));
    } else {
        assert(ts.take(i) =~= ts);
    }
}

impl TableValidation {
    /// Number of mismatches this table contributes.
    pub fn mismatches(&self) -> (r: usize)
        requires
            table_mismatches(*self) <= usize::MAX,
        ensures
            r == table_mismatches(*self),
    {
        let diff = if self.primary_count >= self.dr_count {
            self.primary_count - self.dr_count
        } else {
            self.dr_count - self.primary_count
        };
        diff + self.sample_mismatches.len()
    }
}

/// Number of items a sync would have to copy to the secondary region: the
/// amount by which the primary count exceeds the secondary one.
pub fn sync_missing_items(validation: &TableValidation) -> (r: usize)
    ensures
        r == (if validation.primary_count > validation.dr_count {
            (validation.primary_count - validation.dr_count) as nat
        } else {
            0nat
        }),
{
    if validation.primary_count > validation.dr_count {
        validation.primary_count - validation.dr_count
    } else {
        0
    }
}

/// The tables validated when a request names none.
pub fn default_tables() -> (r: Vec<TableName>)
    ensures
        r@.len() == 2,
        r@[0]@ == "dr-application-table"@,
        r@[1]@ == "dr-sentinel-table"@,
{
    vec![TableName::new("dr-application-table"), TableName::new("dr-sentinel-table")]
}

/// The tables a run validates: exactly the named one, or the default set.
pub fn tables_to_validate(table_name: Option<TableName>) -> (r: Vec<TableName>)
    ensures
        table_name matches Some(t) ==> r@.len() == 1 && r@[0] == t,
        table_name is None ==> r@.len() == 2 && r@[0]@ == "dr-application-table"@ && r@[1]@
            == "dr-sentinel-table"@,
{
    match table_name {
        Some(t) => vec![t],
        None => default_tables(),
    }
}

/// Records that agree between the regions, never below zero.
pub open spec fn matched_of(records: nat, mismatches: nat) -> nat {
    if mismatches >= records {
        0
    } else {
        (records - mismatches) as nat
    }
}

/// The consistency score: `100 * matched / checked` percent, or 100 percent
/// when nothing was checked.
#[derive(Debug, Clone, Copy, PartialEq, Eq, Structural)]
pub struct ConsistencyScore {
    pub matched: usize,
    pub checked: usize,
}

/// The score in percent is `percent_numerator(s) / percent_denominator(s)`.
pub open spec fn percent_numerator(s: ConsistencyScore) -> int {
    if s.checked == 0 {
        100
    } else {
        100 * s.matched
    }
}

pub open spec fn percent_denominator(s: ConsistencyScore) -> int {
    if s.checked == 0 {
        1
    } else {
        s.checked as int
    }
}

/// Whether the score is at least `pct` percent.
pub open spec fn score_at_least(s: ConsistencyScore, pct: int) -> bool {
    percent_numerator(s) >= pct * percent_denominator(s)
}

/// The score rounded half up to tenths of a percent.
pub open spec fn score_tenths(s: ConsistencyScore) -> nat {
    if s.checked == 0 {
        1000
    } else {
        ((2000 * s.matched + s.checked) / (2 * s.checked as int)) as nat
    }
}

/// The score of `records` checked records of which `mismatches` disagree.
pub open spec fn score_from_counts(records: usize, mismatches: usize) -> ConsistencyScore {
    ConsistencyScore { matched: matched_of(records as nat, mismatches as nat) as usize, checked: records }
}

impl ConsistencyScore {
    pub open spec fn wf(&self) -> bool {
        self.matched <= self.checked
    }

    /// The score of `records` checked records of which `mismatches` disagree.
    pub fn from_counts(records: usize, mismatches: usize) -> (r: ConsistencyScore)
        ensures
            r == score_from_counts(records, mismatches),
            r.wf(),
    {
        let matched = if mismatches >= records {
            0
        } else {
            records - mismatches
        };
        ConsistencyScore { matched, checked: records }
    }

    /// Whether the score reaches `pct` percent.
    pub fn at_least(&self, pct: u64) -> (r: bool)
        ensures
            r == score_at_least(*self, pct as int),
    {
        if self.checked == 0 {
            100 >= pct
        } else {
            let p = pct as u128;
            let c = self.checked as u128;
            proof {
                assert(p * c <= 0xffff_ffff_ffff_ffffu128 * 0xffff_ffff_ffff_ffffu128) by (nonlinear_arith)
                    requires p <= 0xffff_ffff_ffff_ffffu128, c <= 0xffff_ffff_ffff_ffffu128;
            }
            100u128 * (self.matched as u128) >= p * c
        }
    }

    /// The score in tenths of a percent, rounded half up (`880` for 88.0%).
    pub fn tenths(&self) -> (r: u64)
        requires
            self.wf(),
        ensures
            r == score_tenths(*self),
            r <= 1000,
    {
        if self.checked == 0 {
            1000
        } else {
            let m = self.matched as u128;
            let c = self.checked as u128;
            proof {
                assert(2000 * m + c <= 2000 * c + c) by (nonlinear_arith)
                    requires m <= c;
                assert((2000 * m + c) / (2 * c) <= 1000) by (nonlinear_arith)
                    requires 2000 * m + c <= 2001 * c, c > 0;
            }
            ((2000 * m + c) / (2 * c)) as u64
        }
    }
}

/// Tuning of the health rules.
#[derive(Debug, Clone, Copy, PartialEq, Eq, Structural)]
pub struct Thresholds {
    /// Lowest consistency score, in percent, that counts as healthy.
    pub min_consistency_percent: u64,
    /// Longest replication lag, in seconds, that raises no recommendation.
    pub max_lag_seconds: i64,
    /// Oldest age of the latest backup, in seconds, that raises no recommendation.
    pub max_backup_age_seconds: i64,
    /// Oldest age of the oldest backup, in seconds, that raises no recommendation.
    pub max_retention_seconds: i64,
}

impl Thresholds {
    pub open spec fn wf(&self) -> bool {
        self.min_consistency_percent <= 100 && self.max_backup_age_seconds >= 0
            && self.max_retention_seconds >= 0
    }

    /// 95 percent consistency, 60 seconds of lag, a day of backup age and 30 days of retention.
    pub fn standard() -> (r: Thresholds)
        ensures
            r.min_consistency_percent == 95,
            r.max_lag_seconds == 60,
            r.max_backup_age_seconds == 24 * 3600,
            r.max_retention_seconds == 30 * 86400,
            r.wf(),
    {
        Thresholds {
            min_consistency_percent: 95,
            max_lag_seconds: 60,
            max_backup_age_seconds: 86400,
            max_retention_seconds: 2592000,
        }
    }
}

/// The status that a score implies.
pub open spec fn status_of(s: ConsistencyScore, th: Thresholds) -> ValidationStatus {
    if score_at_least(s, th.min_consistency_percent as int) {
        ValidationStatus::Healthy
    } else {
        ValidationStatus::Degraded
    }
}

/// Healthy when the score reaches the configured minimum, else degraded.
pub fn status_for(score: &ConsistencyScore, th: &Thresholds) -> (r: ValidationStatus)
    ensures
        r == status_of(*score, *th),
{
    if score.at_least(th.min_consistency_percent) {
        ValidationStatus::Healthy
    } else {
        ValidationStatus::Degraded
    }
}

/// Freshness of the backups: ages in seconds, absent when no backup is known.
#[derive(Debug, Clone, Copy, PartialEq, Eq, Structural)]
pub struct BackupStatus {
    pub last_backup_age_seconds: Option<i128>,
    pub backup_count: usize,
    pub oldest_backup_age_seconds: Option<i128>,
}

impl BackupStatus {
    /// The freshness reported when the backup records cannot be read.
    pub fn unknown() -> (r: BackupStatus)
        ensures
            r.last_backup_age_seconds is None,
            r.backup_count == 0,
            r.oldest_backup_age_seconds is None,
    {
        BackupStatus { last_backup_age_seconds: None, backup_count: 0, oldest_backup_age_seconds: None }
    }
}

/// Aggregated figures of one validation run.
#[derive(Debug, Clone, Copy, PartialEq, Eq, Structural)]
pub struct ValidationResults {
    pub tables_validated: usize,
    pub records_checked: usize,
    pub mismatches_found: usize,
    pub replication_lag_seconds: Option<i64>,
    pub backup_status: BackupStatus,
    pub consistency_score: ConsistencyScore,
}

/// Combines the tables that could be validated with the lag and backup
/// measurements. Tables whose sampling failed are simply not passed in.
pub fn summarize(
    validations: &Vec<TableValidation>,
    replication_lag: Option<i64>,
    backup_status: BackupStatus,
) -> (r: ValidationResults)
    requires
        total_records(validations@) <= usize::MAX,
        total_mismatches(validations@) <= usize::MAX,
    ensures
        r.tables_validated == validations@.len(),
        r.records_checked == total_records(validations@),
        r.mismatches_found == total_mismatches(validations@),
        r.replication_lag_seconds == replication_lag,
        r.backup_status == backup_status,
        r.consistency_score == score_from_counts(r.records_checked, r.mismatches_found),
        r.consistency_score.wf(),
{
    let mut records: usize = 0;
    let mut mismatches: usize = 0;
    let mut i: usize = 0;
    while i < validations.len()
        invariant
            i <= validations@.len(),
            records == total_records(validations@.take(i as int)),
            mismatches == total_mismatches(validations@.take(i as int)),
            total_records(validations@) <= usize::MAX,
            total_mismatches(validations@) <= usize::MAX,
        decreases validations@.len() - i,
    {
        proof {
            assert(validations@.take(i + 1).drop_last() =~= validations@.take(i as int));
            lemma_totals_grow(validations@, i + 1);
        }
        let v = &validations[i];
        records = records + v.primary_count;
        mismatches = mismatches + v.mismatches();
        i = i + 1;
    }
    proof {
        assert(validations@.take(i as int) =~= validations@);
    }
    ValidationResults {
        tables_validated: validations.len(),
        records_checked: records,
        mismatches_found: mismatches,
        replication_lag_seconds: replication_lag,
        backup_status,
        consistency_score: ConsistencyScore::from_counts(records, mismatches),
    }
}

/// Whether the record and mismatch totals of `validations` fit in a `usize`.
pub fn totals_fit(validations: &Vec<TableValidation>) -> (r: bool)
    ensures
        r == (total_records(validations@) <= usize::MAX && total_mismatches(validations@)
            <= usize::MAX),
{
    let mut records: usize = 0;
    let mut mismatches: usize = 0;
    let mut i: usize = 0;
    while i < validations.len()
        invariant
            i <= validations@.len(),
            records == total_records(validations@.take(i as int)),
            mismatches == total_mismatches(validations@.take(i as int)),
        decreases validations@.len() - i,
    {
        proof {
            assert(validations@.take(i + 1).drop_last() =~= validations@.take(i as int));
            lemma_totals_grow(validations@, i + 1);
        }
        let v = &validations[i];
        let diff: u128 = if v.primary_count >= v.dr_count {
            (v.primary_count - v.dr_count) as u128
        } else {
            (v.dr_count - v.primary_count) as u128
        };
        let next_records = records as u128 + v.primary_count as u128;
        let next_mismatches = mismatches as u128 + diff + v.sample_mismatches.len() as u128;
        if next_records > usize::MAX as u128 || next_mismatches > usize::MAX as u128 {
            return false;
        }
        records = next_records as usize;
        mismatches = next_mismatches as usize;
        i = i + 1;
    }
    proof {
        assert(validations@.take(i as int) =~= validations@);
    }
    true
}

/// Whether a table disagrees in any way between the regions.
pub open spec fn has_mismatches(t: TableValidation) -> bool {
    t.primary_count != t.dr_count || t.sample_mismatches@.len() > 0
}

/// For each table, how many items a sync would copy to the secondary region:
/// counted only when the action is `Sync` and the table has mismatches. No data
/// is copied by this system.
pub fn pending_sync_counts(validations: &Vec<TableValidation>, action: ActionType) -> (r: Vec<
    usize,
>)
    ensures
        r@.len() == validations@.len(),
        forall|i: int|
            0 <= i < r@.len() ==> r@[i] == (if action == ActionType::Sync && has_mismatches(
                validations@[i],
            ) && validations@[i].primary_count > validations@[i].dr_count {
                (validations@[i].primary_count - validations@[i].dr_count) as nat
            } else {
                0nat
            }),
{
    let mut out: Vec<usize> = Vec::new();
    let mut i: usize = 0;
    while i < validations.len()
        invariant
            i <= validations@.len(),
            out@.len() == i,
            forall|j: int|
                0 <= j < i ==> out@[j] == (if action == ActionType::Sync && has_mismatches(
                    validations@[j],
                ) && validations@[j].primary_count > validations@[j].dr_count {
                    (validations@[j].primary_count - validations@[j].dr_count) as nat
                } else {
                    0nat
                }),
        decreases validations@.len() - i,
    {
        let v = &validations[i];
        let mismatched = v.primary_count != v.dr_count || v.sample_mismatches.len() > 0;
        let n = if action == ActionType::Sync && mismatched {
            sync_missing_items(v)
        } else {
            0
        };
        out.push(n);
        i = i + 1;
    }
    out
}

/// The tables that could be sampled, in order.
pub open spec fn sampled_tables(outcomes: Seq<Option<TableValidation>>) -> Seq<TableValidation>
    decreases outcomes.len(),
{
    if outcomes.len() == 0 {
        Seq::empty()
    } else {
        let rest = sampled_tables(outcomes.drop_first());
        match outcomes[0] {
            Some(t) => seq![t] + rest,
            None => rest,
        }
    }
}

/// Keeps the tables whose sampling succeeded (`Some`) and drops the failed
/// ones, so that one broken table does not hide the health of the others.
pub fn validated_tables(outcomes: Vec<Option<TableValidation>>) -> (r: Vec<TableValidation>)
    ensures
        r@ == sampled_tables(outcomes@),
{
    let mut out: Vec<TableValidation> = Vec::new();
    let mut rest = outcomes;
    while rest.len() > 0
        invariant
            out@ + sampled_tables(rest@) == sampled_tables(outcomes@),
        decreases rest@.len(),
    {
        let ghost before = rest@;
        let next = rest.remove(0);
        proof {
            assert(rest@ =~= before.drop_first());
        }
        match next {
            Some(t) => {
                out.push(t);
                assert(out@ + sampled_tables(rest@) =~= sampled_tables(outcomes@));
            },
            None => {},
        }
    }
    proof {
        assert(sampled_tables(rest@) =~= Seq::<TableValidation>::empty());
        assert(out@ =~= out@ + sampled_tables(rest@));
    }
    out
}

} // verus!
