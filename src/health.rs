//! The per-region health probe: reachability of storage and blob services,
//! the sentinel's age, and the metrics that report them.

use vstd::prelude::*;
use crate::clock::Instant;
use crate::metrics::{Metric, MetricUnit, MetricValue, metric, metric_is};
use crate::text::{i64_of_text, owned, parse_i64};

verus! {

/// A health-check request; without a region the caller's own region is checked.
#[derive(Debug, Clone, PartialEq)]
pub struct Request {
    pub region: Option<String>,
}

/// What was found reachable, and how old the sentinel record is.
#[derive(Debug, Clone, Copy, PartialEq, Eq)]
pub struct ServiceStatus {
    pub dynamodb: bool,
    pub s3: bool,
    pub replication_lag: Option<i64>,
}

/// The answer to a health check: `status` is `healthy` or `unhealthy`.
#[derive(Debug, Clone, PartialEq)]
pub struct Response {
    pub status: String,
    pub region: String,
    pub timestamp: String,
    pub services: ServiceStatus,
}

pub open spec fn is_healthy(s: ServiceStatus) -> bool {
    s.dynamodb && s.s3
}

/// `healthy` when both services answered, else `unhealthy`.
pub fn overall_status(services: &ServiceStatus) -> (r: &'static str)
    ensures
        r@ == (if is_healthy(*services) {
            "healthy"@
        } else {
            "unhealthy"@
        }),
{
    if services.dynamodb && services.s3 {
        "healthy"
    } else {
        "unhealthy"
    }
}

/// The response for `region`, checked at `now`.
pub fn health_response(region: &str, services: ServiceStatus, now: &Instant) -> (r: Response)
    ensures
        r.status@ == (if is_healthy(services) {
            "healthy"@
        } else {
            "unhealthy"@
        }),
        r.region@ == region@,
        r.timestamp@ == now.rfc3339@,
        r.services == services,
{
    Response {
        status: owned(overall_status(&services)),
        region: owned(region),
        timestamp: now.rfc3339.clone(),
        services,
    }
}

/// The region checked: the requested one, else the caller's own.
pub fn region_to_check(request: &Request, own_region: &str) -> (r: String)
    ensures
        request.region matches Some(g) ==> r@ == g@,
        request.region is None ==> r@ == own_region@,
{
    match &request.region {
        Some(g) => g.clone(),
        None => owned(own_region),
    }
}

/// The blob bucket probed in `region` when none is configured.
pub fn default_bucket(region: &str) -> (r: String)
    ensures
        r@ == "dr-demo-backup-bucket-"@ + region@,
{
    owned("dr-demo-backup-bucket-").concat(region)
}

/// Age in seconds of a sentinel last updated at `last_updated` (seconds since
/// the epoch, as text), seen at `now`; `None` when the text is not a number or
/// the difference leaves the range of `i64`.
pub fn lag_since(last_updated: &str, now: i64) -> (r: Option<i64>)
    ensures
        r == (match i64_of_text(last_updated@) {
            Some(t) => if i64::MIN <= now - t <= i64::MAX {
                Some((now - t) as i64)
            } else {
                None
            },
            None => None,
        }),
{
    match parse_i64(last_updated) {
        Some(t) => now.checked_sub(t),
        None => None,
    }
}

/// The data points of a health check: storage health and blob health (1 or
/// 0), and the replication lag in seconds when it is known.
pub fn health_metrics(services: &ServiceStatus) -> (r: Vec<Metric>)
    ensures
        r@.len() == (if services.replication_lag is Some {
            3int
        } else {
            2int
        }),
        metric_is(
            r@[0],
            "DynamoDBHealth"@,
            MetricValue::Whole(if services.dynamodb {
                1
            } else {
                0
            }),
            MetricUnit::NoUnit,
        ),
        metric_is(
            r@[1],
            "S3Health"@,
            MetricValue::Whole(if services.s3 {
                1
            } else {
                0
            }),
            MetricUnit::NoUnit,
        ),
        services.replication_lag matches Some(l) ==> metric_is(
            r@[2],
            "ReplicationLag"@,
            MetricValue::Whole(l as i128),
            MetricUnit::Seconds,
        ),
{
    let mut v: Vec<Metric> = Vec::new();
    let dynamo: i128 = if services.dynamodb {
        1
    } else {
        0
    };
    let blob: i128 = if services.s3 {
        1
    } else {
        0
    };
    v.push(metric("DynamoDBHealth", MetricValue::Whole(dynamo), MetricUnit::NoUnit));
    v.push(metric("S3Health", MetricValue::Whole(blob), MetricUnit::NoUnit));
    if let Some(lag) = services.replication_lag {
        v.push(metric("ReplicationLag", MetricValue::Whole(lag as i128), MetricUnit::Seconds));
    }
    v
}

} // verus!
