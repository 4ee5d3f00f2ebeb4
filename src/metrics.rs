//! The metric data points published to the metrics collector.

use vstd::prelude::*;
use crate::text::owned;
use crate::validation::{ConsistencyScore, ValidationResults};

verus! {

/// The namespace under which every metric is published.
pub fn metric_namespace() -> (r: &'static str)
    ensures
        r@ == "DisasterRecovery"@,
{
    "DisasterRecovery"
}

#[derive(Debug, Clone, Copy, PartialEq, Eq, Structural)]
pub enum MetricUnit {
    NoUnit,
    Seconds,
    Percent,
    Count,
}

/// The value of a data point: a whole number, or a consistency score in percent.
#[derive(Debug, Clone, Copy, PartialEq, Eq, Structural)]
pub enum MetricValue {
    Whole(i128),
    Score(ConsistencyScore),
}

/// One data point to publish.
#[derive(Debug, Clone)]
pub struct Metric {
    pub name: String,
    pub value: MetricValue,
    pub unit: MetricUnit,
}

pub open spec fn metric_is(m: Metric, name: Seq<char>, value: MetricValue, unit: MetricUnit) -> bool {
    m.name@ == name && m.value == value && m.unit == unit
}

pub fn metric(name: &str, value: MetricValue, unit: MetricUnit) -> (r: Metric)
    ensures
        metric_is(r, name@, value, unit),
{
    Metric { name: owned(name), value, unit }
}

/// The two data points of a validation run: its score and its mismatch count.
pub fn validation_metrics(results: &ValidationResults) -> (r: Vec<Metric>)
    ensures
        r@.len() == 2,
        metric_is(
            r@[0],
            "ValidationConsistencyScore"@,
            MetricValue::Score(results.consistency_score),
            MetricUnit::Percent,
        ),
        metric_is(
            r@[1],
            "ValidationMismatches"@,
            MetricValue::Whole(results.mismatches_found as i128),
            MetricUnit::Count,
        ),
{
    let mut v: Vec<Metric> = Vec::new();
    v.push(
        metric(
            "ValidationConsistencyScore",
            MetricValue::Score(results.consistency_score),
            MetricUnit::Percent,
        ),
    );
    v.push(
        metric(
            "ValidationMismatches",
            MetricValue::Whole(results.mismatches_found as i128),
            MetricUnit::Count,
        ),
    );
    v
}

} // verus!
