//! Servicing / back office: service requests with a typed lifecycle
//! (Open -> InProgress -> Resolved / Cancelled) and the recurring job descriptors.
use vstd::prelude::*;

use crate::text::str_eq;

verus! {

/// Lifecycle state of a service request.
#[derive(Clone, Copy, Debug, PartialEq, Eq, Structural)]
pub enum RequestStatus {
    Open,
    InProgress,
    Resolved,
    Cancelled,
}

/// The display name of a status.
pub open spec fn status_name(s: RequestStatus) -> Seq<char> {
    match s {
        RequestStatus::Open => "Open"@,
        RequestStatus::InProgress => "InProgress"@,
        RequestStatus::Resolved => "Resolved"@,
        RequestStatus::Cancelled => "Cancelled"@,
    }
}

/// The status a name denotes; unrecognised names denote `Open`.
pub open spec fn status_of_name(s: Seq<char>) -> RequestStatus {
    if s == "InProgress"@ {
        RequestStatus::InProgress
    } else if s == "Resolved"@ {
        RequestStatus::Resolved
    } else if s == "Cancelled"@ {
        RequestStatus::Cancelled
    } else {
        RequestStatus::Open
    }
}

/// Resolved and Cancelled are final.
pub open spec fn terminal(s: RequestStatus) -> bool {
    s == RequestStatus::Resolved || s == RequestStatus::Cancelled
}

/// The workflow guard: the four allowed moves.
pub open spec fn transition_allowed(from: RequestStatus, to: RequestStatus) -> bool {
    ||| from == RequestStatus::Open && to == RequestStatus::InProgress
    ||| from == RequestStatus::Open && to == RequestStatus::Cancelled
    ||| from == RequestStatus::InProgress && to == RequestStatus::Resolved
    ||| from == RequestStatus::InProgress && to == RequestStatus::Cancelled
}

/// How far along the lifecycle a status is.
pub open spec fn stage(s: RequestStatus) -> int {
    match s {
        RequestStatus::Open => 0,
        RequestStatus::InProgress => 1,
        RequestStatus::Resolved => 2,
        RequestStatus::Cancelled => 2,
    }
}

impl RequestStatus {
    /// The status's display name.
    pub fn as_str(self) -> (s: &'static str)
        ensures
            s@ == status_name(self),
    {
        match self {
            RequestStatus::Open => "Open",
            RequestStatus::InProgress => "InProgress",
            RequestStatus::Resolved => "Resolved",
            RequestStatus::Cancelled => "Cancelled",
        }
    }

    /// Parse a display name; unknown names give `Open`.
    pub fn from_str_name(s: &str) -> (r: RequestStatus)
        ensures
            r == status_of_name(s@),
    {
        if str_eq(s, "InProgress") {
            RequestStatus::InProgress
        } else if str_eq(s, "Resolved") {
            RequestStatus::Resolved
        } else if str_eq(s, "Cancelled") {
            RequestStatus::Cancelled
        } else {
            RequestStatus::Open
        }
    }

    /// Whether the status is final.
    pub fn is_terminal(self) -> (t: bool)
        ensures
            t == terminal(self),
    {
        matches!(self, RequestStatus::Resolved | RequestStatus::Cancelled)
    }
}

/// The service-request topics, in display order.
pub open spec fn topic_names() -> Seq<Seq<char>> {
    seq![
        "Address Change"@,
        "Beneficiary Update"@,
        "Distribution Request"@,
        "Contribution"@,
        "Account Transfer (ACAT)"@,
        "Tax Document"@,
        "Money Movement"@,
        "Other"@,
    ]
}

/// The service-request topics (mirrors the back-office topic list).
pub fn topics() -> (t: Vec<&'static str>)
    ensures
        t@.len() == topic_names().len(),
        forall|i: int| 0 <= i < t@.len() ==> (#[trigger] t@[i])@ == topic_names()[i],
{
    let mut t: Vec<&'static str> = Vec::new();
    t.push("Address Change");
    t.push("Beneficiary Update");
    t.push("Distribution Request");
    t.push("Contribution");
    t.push("Account Transfer (ACAT)");
    t.push("Tax Document");
    t.push("Money Movement");
    t.push("Other");
    t
}

/// Can a service request move `from` -> `to`?
pub fn can_transition(from: RequestStatus, to: RequestStatus) -> (ok: bool)
    ensures
        ok == (!terminal(from) && transition_allowed(from, to)),
{
    if from.is_terminal() {
        return false;
    }
    match (from, to) {
        (RequestStatus::Open, RequestStatus::InProgress) => true,
        (RequestStatus::Open, RequestStatus::Cancelled) => true,
        (RequestStatus::InProgress, RequestStatus::Resolved) => true,
        (RequestStatus::InProgress, RequestStatus::Cancelled) => true,
        _ => false,
    }
}

/// A recurring back-office job: name, cadence, enabled flag, last run.
#[derive(Clone, Debug, PartialEq)]
pub struct ScheduledJob {
    pub name: String,
    pub cadence: String,
    pub enabled: bool,
    pub last_run: Option<String>,
}

/// The default job names, in order.
pub open spec fn default_job_names() -> Seq<Seq<char>> {
    seq![
        "Refresh quotes"@,
        "Recompute distress scores"@,
        "Drift / tolerance sweep"@,
        "TLH scan"@,
        "Billing accrual"@,
    ]
}

/// The default job cadences, in order.
pub open spec fn default_job_cadences() -> Seq<Seq<char>> {
    seq!["daily"@, "weekly"@, "daily"@, "weekly"@, "monthly"@]
}

fn job(name: &str, cadence: &str) -> (j: ScheduledJob)
    ensures
        j.name@ == name@,
        j.cadence@ == cadence@,
        j.enabled,
        j.last_run is None,
{
    ScheduledJob {
        name: String::from_str(name),
        cadence: String::from_str(cadence),
        enabled: true,
        last_run: None,
    }
}

/// The default job set: five enabled jobs that have never run.
pub fn default_jobs() -> (jobs: Vec<ScheduledJob>)
    ensures
        jobs@.len() == 5,
        forall|i: int|
            0 <= i < 5 ==> (#[trigger] jobs@[i]).name@ == default_job_names()[i]
                && jobs@[i].cadence@ == default_job_cadences()[i] && jobs@[i].enabled
                && jobs@[i].last_run is None,
{
    let mut jobs: Vec<ScheduledJob> = Vec::new();
    jobs.push(job("Refresh quotes", "daily"));
    jobs.push(job("Recompute distress scores", "weekly"));
    jobs.push(job("Drift / tolerance sweep", "daily"));
    jobs.push(job("TLH scan", "weekly"));
    jobs.push(job("Billing accrual", "monthly"));
    jobs
}

/// Name round trip for statuses.
pub proof fn lemma_status_name_roundtrip(s: RequestStatus)
    ensures
        status_of_name(status_name(s)) == s,
{
    reveal_strlit("Open");
    reveal_strlit("InProgress");
    reveal_strlit("Resolved");
    reveal_strlit("Cancelled");
    assert("Open"@[0] != "InProgress"@[0]);
    assert("Open"@[0] != "Resolved"@[0]);
    assert("Open"@[0] != "Cancelled"@[0]);
    assert("Resolved"@[0] != "InProgress"@[0]);
    assert("Cancelled"@[0] != "InProgress"@[0]);
    assert("Cancelled"@[0] != "Resolved"@[0]);
}

/// Terminal states are final while every other state can still be cancelled, an open
/// request is started before it is resolved, nothing ever moves back to Open, and every
/// allowed move strictly advances the lifecycle (so no status can be revisited).
pub proof fn lemma_lifecycle_is_forward(from: RequestStatus, to: RequestStatus)
    ensures
        terminal(from) ==> !transition_allowed(from, to),
        !terminal(from) ==> (exists|t: RequestStatus| transition_allowed(from, t)),
        !transition_allowed(from, RequestStatus::Open),
        transition_allowed(from, to) ==> stage(from) < stage(to),
        transition_allowed(from, to) ==> !transition_allowed(to, from),
        !terminal(from) ==> transition_allowed(from, RequestStatus::Cancelled),
        transition_allowed(RequestStatus::Open, RequestStatus::InProgress),
        transition_allowed(RequestStatus::InProgress, RequestStatus::Resolved),
        !transition_allowed(RequestStatus::Open, RequestStatus::Resolved),
{
    assert(transition_allowed(RequestStatus::Open, RequestStatus::Cancelled));
    assert(transition_allowed(RequestStatus::InProgress, RequestStatus::Cancelled));
}

} // verus!
