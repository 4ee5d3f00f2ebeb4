//! Operator guidance derived from a validation report by independent threshold rules.

use vstd::prelude::*;
use crate::text::{decimal, signed_decimal, push_decimal, push_signed_decimal, owned, texts};
use crate::validation::{
    ConsistencyScore, Thresholds, ValidationResults, score_at_least, score_tenths,
};

verus! {

/// `t` tenths written with one decimal place (`880` is `88.0`).
pub open spec fn one_decimal(t: nat) -> Seq<char> {
    decimal(t / 10) + seq!['.'] + decimal(t % 10)
}

/// `n / d` rounded half up.
pub open spec fn rounded_div(n: nat, d: nat) -> nat {
    n / d + if 2 * (n % d) >= d {
        1nat
    } else {
        0nat
    }
}

pub open spec fn low_consistency_message(pct: nat, tenths: nat) -> Seq<char> {
    "Data consistency is below "@ + decimal(pct) + "% ("@ + one_decimal(tenths)
        + "%). Investigate mismatches immediately."@
}

pub open spec fn lag_message(lag: int) -> Seq<char> {
    "Replication lag is "@ + signed_decimal(lag)
        + " seconds. Consider investigating DynamoDB Global Tables health."@
}

pub open spec fn backup_age_message(age_seconds: nat) -> Seq<char> {
    "Last backup is "@ + one_decimal(rounded_div(age_seconds, 360))
        + " hours old. Consider running a manual backup."@
}

pub open spec fn retention_message(age_seconds: nat) -> Seq<char> {
    "Oldest backup is "@ + decimal(rounded_div(age_seconds, 86400))
        + " days old. Consider reviewing retention policy."@
}

pub open spec fn all_clear_message() -> Seq<char> {
    "All validation checks passed. System is healthy."@
}

/// Messages of the rules that fire, in evaluation order.
pub open spec fn fired_rules(r: ValidationResults, th: Thresholds) -> Seq<Seq<char>> {
    let consistency = if !score_at_least(r.consistency_score, th.min_consistency_percent as int) {
        seq![low_consistency_message(th.min_consistency_percent as nat, score_tenths(r.consistency_score))]
    } else {
        Seq::empty()
    };
    let lag = match r.replication_lag_seconds {
        Some(l) => if l > th.max_lag_seconds {
            seq![lag_message(l as int)]
        } else {
            Seq::empty()
        },
        None => Seq::empty(),
    };
    let backup_age = match r.backup_status.last_backup_age_seconds {
        Some(a) => if a > th.max_backup_age_seconds {
            seq![backup_age_message(a as nat)]
        } else {
            Seq::empty()
        },
        None => Seq::empty(),
    };
    let retention = match r.backup_status.oldest_backup_age_seconds {
        Some(a) => if a > th.max_retention_seconds {
            seq![retention_message(a as nat)]
        } else {
            Seq::empty()
        },
        None => Seq::empty(),
    };
    consistency + lag + backup_age + retention
}

/// The recommendations of a report: the fired rules, or the all-clear message alone.
pub open spec fn recommendations_of(r: ValidationResults, th: Thresholds) -> Seq<Seq<char>> {
    let fired = fired_rules(r, th);
    if fired.len() == 0 {
        seq![all_clear_message()]
    } else {
        fired
    }
}

fn push_one_decimal(out: &mut String, t: u128)
    ensures
        final(out)@ == old(out)@ + one_decimal(t as nat),
{
    proof {
        reveal_strlit(".");
    }
    push_decimal(out, t / 10);
    out.append(".");
    push_decimal(out, t % 10);
    assert(final(out)@ =~= old(out)@ + one_decimal(t as nat));
}

fn rounded(n: u128, d: u128) -> (r: u128)
    requires
        d >= 2,
    ensures
        r == rounded_div(n as nat, d as nat),
{
    let q = n / d;
    let rem = n % d;
    proof {
        assert(q * 2 <= n) by (nonlinear_arith)
            requires q == n / d, d >= 2;
    }
    if rem >= d - rem {
        q + 1
    } else {
        q
    }
}

fn low_consistency_text(pct: u64, tenths: u64) -> (r: String)
    ensures
        r@ == low_consistency_message(pct as nat, tenths as nat),
{
    let mut s = owned("Data consistency is below ");
    push_decimal(&mut s, pct as u128);
    s.append("% (");
    push_one_decimal(&mut s, tenths as u128);
    s.append("%). Investigate mismatches immediately.");
    assert(s@ =~= low_consistency_message(pct as nat, tenths as nat));
    s
}

fn lag_text(lag: i64) -> (r: String)
    ensures
        r@ == lag_message(lag as int),
{
    let mut s = owned("Replication lag is ");
    push_signed_decimal(&mut s, lag as i128);
    s.append(" seconds. Consider investigating DynamoDB Global Tables health.");
    assert(s@ =~= lag_message(lag as int));
    s
}

fn backup_age_text(age: u128) -> (r: String)
    ensures
        r@ == backup_age_message(age as nat),
{
    let mut s = owned("Last backup is ");
    push_one_decimal(&mut s, rounded(age, 360));
    s.append(" hours old. Consider running a manual backup.");
    assert(s@ =~= backup_age_message(age as nat));
    s
}

fn retention_text(age: u128) -> (r: String)
    ensures
        r@ == retention_message(age as nat),
{
    let mut s = owned("Oldest backup is ");
    push_decimal(&mut s, rounded(age, 86400));
    s.append(" days old. Consider reviewing retention policy.");
    assert(s@ =~= retention_message(age as nat));
    s
}

/// Guidance for the operator: one message per rule that fires, in the order
/// consistency, lag, backup age, retention; the all-clear message when none does.
pub fn generate_recommendations(results: &ValidationResults, th: &Thresholds) -> (r: Vec<String>)
    requires
        th.wf(),
        results.consistency_score.wf(),
    ensures
        texts(r@) == recommendations_of(*results, *th),
{
    let mut recs: Vec<String> = Vec::new();
    let ghost mut fired: Seq<Seq<char>> = Seq::empty();
    let score: ConsistencyScore = results.consistency_score;
    if !score.at_least(th.min_consistency_percent) {
        recs.push(low_consistency_text(th.min_consistency_percent, score.tenths()));
    }
    let ghost consistency = texts(recs@);
    if let Some(lag) = results.replication_lag_seconds {
        if lag > th.max_lag_seconds {
            recs.push(lag_text(lag));
        }
    }
    let ghost after_lag = texts(recs@);
    if let Some(age) = results.backup_status.last_backup_age_seconds {
        if age > th.max_backup_age_seconds as i128 {
            recs.push(backup_age_text(age as u128));
        }
    }
    let ghost after_age = texts(recs@);
    if let Some(age) = results.backup_status.oldest_backup_age_seconds {
        if age > th.max_retention_seconds as i128 {
            recs.push(retention_text(age as u128));
        }
    }
    assert(texts(recs@) =~= fired_rules(*results, *th));
    if recs.len() == 0 {
        recs.push(owned("All validation checks passed. System is healthy."));
        assert(texts(recs@) =~= recommendations_of(*results, *th));
    }
    recs
}

} // verus!
