//! The failover orchestrator: a health-gated, one-shot decision to move traffic
//! to a target region, recorded in a single-slot status record.
//!
//! The caller drives it: `begin` says whether to probe the target's health, to
//! write the status record, or to reply at once; `after_health_check` and
//! `after_status_write` take the outcome of that work and say what comes next.

use vstd::prelude::*;
use crate::clock::Instant;
use crate::region::{is_region_name, validate_region};
use crate::text::{owned, str_eq};

verus! {

/// A request to move traffic: `action` is `failover` or `failback`.
#[derive(Debug, Clone)]
pub struct Request {
    pub action: String,
    pub target_region: String,
    pub force: Option<bool>,
}

/// The answer to a request: `status` is `success` or `failed`.
#[derive(Debug, Clone, PartialEq)]
pub struct Response {
    pub status: String,
    pub message: String,
    pub action: String,
    pub timestamp: String,
}

/// The single durable record of the latest completed transition.
#[derive(Debug, Clone, PartialEq)]
pub struct FailoverStatus {
    pub id: String,
    pub timestamp: i64,
    pub action: String,
    pub source_region: String,
    pub target_region: String,
    pub status: String,
}

/// The two transitions; they run the same algorithm and differ only in name.
#[derive(Debug, Clone, Copy, PartialEq, Eq, Structural)]
pub enum FailoverAction {
    Failover,
    Failback,
}

pub open spec fn action_of(s: Seq<char>) -> Option<FailoverAction> {
    if s == "failover"@ {
        Some(FailoverAction::Failover)
    } else if s == "failback"@ {
        Some(FailoverAction::Failback)
    } else {
        None
    }
}

pub open spec fn action_name(a: FailoverAction) -> Seq<char> {
    match a {
        FailoverAction::Failover => "failover"@,
        FailoverAction::Failback => "failback"@,
    }
}

/// The action named by `action`, which must match exactly (case included).
pub fn parse_action(action: &str) -> (r: Option<FailoverAction>)
    ensures
        r == action_of(action@),
{
    if str_eq(action, "failover") {
        Some(FailoverAction::Failover)
    } else if str_eq(action, "failback") {
        Some(FailoverAction::Failback)
    } else {
        None
    }
}

/// Whether `action` names one of the two transitions.
pub fn validate_action(action: &str) -> (r: bool)
    ensures
        r == (action@ == "failover"@ || action@ == "failback"@),
{
    parse_action(action).is_some()
}

impl FailoverAction {
    pub fn as_str(&self) -> (r: &'static str)
        ensures
            r@ == action_name(*self),
    {
        match self {
            FailoverAction::Failover => "failover",
            FailoverAction::Failback => "failback",
        }
    }
}

/// Why a request was turned down.
pub enum Rejection {
    InvalidAction,
    InvalidRegion,
    Unhealthy,
    NotRecorded,
}

/// What the orchestrator decides at a point of the protocol.
pub enum Plan {
    /// Probe the target region's health.
    Probe,
    /// Write the status record of this transition.
    Record(FailoverAction),
    /// Report success: the record is written.
    Done(FailoverAction),
    /// Reply `failed` and touch nothing.
    Reject(Rejection),
}

/// The decision on a fresh request.
pub open spec fn plan_on_request(action: Seq<char>, target: Seq<char>, force: bool) -> Plan {
    match action_of(action) {
        None => Plan::Reject(Rejection::InvalidAction),
        Some(a) => if !is_region_name(target) {
            Plan::Reject(Rejection::InvalidRegion)
        } else if force {
            Plan::Record(a)
        } else {
            Plan::Probe
        },
    }
}

/// The decision once the target's health is known.
pub open spec fn plan_after_probe(a: FailoverAction, healthy: bool) -> Plan {
    if healthy {
        Plan::Record(a)
    } else {
        Plan::Reject(Rejection::Unhealthy)
    }
}

/// The decision once the status record was, or was not, written.
pub open spec fn plan_after_write(a: FailoverAction, written: bool) -> Plan {
    if written {
        Plan::Done(a)
    } else {
        Plan::Reject(Rejection::NotRecorded)
    }
}

pub open spec fn transition_title(a: FailoverAction) -> Seq<char> {
    match a {
        FailoverAction::Failover => "Failover"@,
        FailoverAction::Failback => "Failback"@,
    }
}

/// The message of a reply.
pub open spec fn reply_message(plan: Plan, action: Seq<char>, target: Seq<char>) -> Seq<char> {
    match plan {
        Plan::Done(a) => transition_title(a) + " to region "@ + target + " completed"@,
        Plan::Reject(Rejection::InvalidAction) => "Invalid action: "@ + action,
        Plan::Reject(Rejection::InvalidRegion) => "Invalid target region: "@ + target,
        Plan::Reject(Rejection::Unhealthy) => "Target region "@ + target + " is not healthy"@,
        Plan::Reject(Rejection::NotRecorded) => "Could not record "@ + action + " to region "@
            + target,
        _ => Seq::empty(),
    }
}

/// What the caller must do next.
pub enum FailoverStep {
    /// Probe the health of the request's target region, then call `after_health_check`.
    CheckHealth,
    /// Write this record over the previous one, then call `after_status_write`.
    WriteStatus(FailoverStatus),
    /// Return this response; nothing else is to be done.
    Reply(Response),
}

/// The reply, stamped with `now`, that a plan yields.
pub open spec fn reply_follows(resp: Response, plan: Plan, req: Request, now: Instant) -> bool {
    &&& resp.status@ == (if plan is Done {
        "success"@
    } else {
        "failed"@
    })
    &&& resp.message@ == reply_message(plan, req.action@, req.target_region@)
    &&& resp.action@ == req.action@
    &&& resp.timestamp@ == now.rfc3339@
}

/// The record that a transition writes.
pub open spec fn record_follows(
    rec: FailoverStatus,
    a: FailoverAction,
    req: Request,
    current_region: Seq<char>,
    now: Instant,
) -> bool {
    &&& rec.id@ == "failover_status"@
    &&& rec.timestamp == now.seconds
    &&& rec.action@ == action_name(a)
    &&& rec.source_region@ == current_region
    &&& rec.target_region@ == req.target_region@
    &&& rec.status@ == "completed"@
}

/// The step that carries out a plan.
pub open spec fn step_follows(
    step: FailoverStep,
    plan: Plan,
    req: Request,
    current_region: Seq<char>,
    now: Instant,
) -> bool {
    match plan {
        Plan::Probe => step is CheckHealth,
        Plan::Record(a) => step matches FailoverStep::WriteStatus(rec) && record_follows(
            rec,
            a,
            req,
            current_region,
            now,
        ),
        _ => step matches FailoverStep::Reply(resp) && reply_follows(resp, plan, req, now),
    }
}

pub open spec fn force_of(req: Request) -> bool {
    req.force == Some(true)
}

fn reply(req: &Request, succeeded: bool, message: String, now: &Instant) -> (r: Response)
    ensures
        r.status@ == (if succeeded {
            "success"@
        } else {
            "failed"@
        }),
        r.message@ == message@,
        r.action@ == req.action@,
        r.timestamp@ == now.rfc3339@,
{
    Response {
        status: if succeeded {
            owned("success")
        } else {
            owned("failed")
        },
        message,
        action: req.action.clone(),
        timestamp: now.rfc3339.clone(),
    }
}

fn record(
    a: FailoverAction,
    req: &Request,
    current_region: &str,
    now: &Instant,
) -> (r: FailoverStatus)
    ensures
        record_follows(r, a, *req, current_region@, *now),
{
    FailoverStatus {
        id: owned("failover_status"),
        timestamp: now.seconds,
        action: owned(a.as_str()),
        source_region: owned(current_region),
        target_region: req.target_region.clone(),
        status: owned("completed"),
    }
}

fn rejection_reply(why: Rejection, req: &Request, now: &Instant) -> (r: Response)
    ensures
        reply_follows(r, Plan::Reject(why), *req, *now),
{
    let action = req.action.as_str();
    let target = req.target_region.as_str();
    let message = match why {
        Rejection::InvalidAction => owned("Invalid action: ").concat(action),
        Rejection::InvalidRegion => owned("Invalid target region: ").concat(target),
        Rejection::Unhealthy => owned("Target region ").concat(target).concat(" is not healthy"),
        Rejection::NotRecorded => owned("Could not record ").concat(action).concat(
            " to region ",
        ).concat(target),
    };
    reply(req, false, message, now)
}

/// The first decision on a request: reject an unknown action or a malformed
/// region, write the record at once when forced, else probe the target first.
pub fn begin(request: &Request, current_region: &str, now: &Instant) -> (r: FailoverStep)
    ensures
        step_follows(
            r,
            plan_on_request(request.action@, request.target_region@, force_of(*request)),
            *request,
            current_region@,
            *now,
        ),
{
    match parse_action(request.action.as_str()) {
        None => FailoverStep::Reply(rejection_reply(Rejection::InvalidAction, request, now)),
        Some(a) => {
            if !validate_region(request.target_region.as_str()) {
                FailoverStep::Reply(rejection_reply(Rejection::InvalidRegion, request, now))
            } else if request.force == Some(true) {
                FailoverStep::WriteStatus(record(a, request, current_region, now))
            } else {
                FailoverStep::CheckHealth
            }
        },
    }
}

/// The decision once the target's health is known: write the record when
/// healthy, else reply `failed` without writing anything.
pub fn after_health_check(
    request: &Request,
    current_region: &str,
    now: &Instant,
    healthy: bool,
) -> (r: FailoverStep)
    requires
        action_of(request.action@) is Some,
    ensures
        step_follows(
            r,
            plan_after_probe(action_of(request.action@)->0, healthy),
            *request,
            current_region@,
            *now,
        ),
{
    let a = parse_action(request.action.as_str()).unwrap();
    if healthy {
        FailoverStep::WriteStatus(record(a, request, current_region, now))
    } else {
        FailoverStep::Reply(rejection_reply(Rejection::Unhealthy, request, now))
    }
}

/// The reply once the status record was, or was not, written.
pub fn after_status_write(request: &Request, now: &Instant, written: bool) -> (r: Response)
    requires
        action_of(request.action@) is Some,
    ensures
        reply_follows(
            r,
            plan_after_write(action_of(request.action@)->0, written),
            *request,
            *now,
        ),
{
    let a = parse_action(request.action.as_str()).unwrap();
    if written {
        let title = match a {
            FailoverAction::Failover => "Failover",
            FailoverAction::Failback => "Failback",
        };
        let message = owned(title).concat(" to region ").concat(
            request.target_region.as_str(),
        ).concat(" completed");
        reply(request, true, message, now)
    } else {
        rejection_reply(Rejection::NotRecorded, request, now)
    }
}

/// The health gate: without force a well-formed request first probes the
/// target, and an unhealthy target ends in a `failed` reply with no record
/// written; with force the record is written whatever the target's health.
pub proof fn lemma_health_gate(
    req: Request,
    current_region: Seq<char>,
    now: Instant,
    step: FailoverStep,
)
    requires
        action_of(req.action@) is Some,
        is_region_name(req.target_region@),
    ensures
        plan_on_request(req.action@, req.target_region@, false) is Probe,
        step_follows(
            step,
            plan_after_probe(action_of(req.action@)->0, false),
            req,
            current_region,
            now,
        ) ==> (step matches FailoverStep::Reply(resp) && resp.status@ == "failed"@
            && resp.message@ == "Target region "@ + req.target_region@ + " is not healthy"@),
        step_follows(
            step,
            plan_on_request(req.action@, req.target_region@, true),
            req,
            current_region,
            now,
        ) ==> (step matches FailoverStep::WriteStatus(rec) && record_follows(
            rec,
            action_of(req.action@)->0,
            req,
            current_region,
            now,
        )),
{
}

/// An unknown action is answered with a `failed` reply naming it; nothing is
/// probed and no record is written.
pub proof fn lemma_invalid_action_rejected(
    req: Request,
    current_region: Seq<char>,
    now: Instant,
    step: FailoverStep,
)
    requires
        action_of(req.action@) is None,
        step_follows(
            step,
            plan_on_request(req.action@, req.target_region@, force_of(req)),
            req,
            current_region,
            now,
        ),
    ensures
        step matches FailoverStep::Reply(resp) && resp.status@ == "failed"@ && resp.message@
            == "Invalid action: "@ + req.action@,
{
}

} // verus!
