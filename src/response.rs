use vstd::prelude::*;

verus! {

/// `p` occurs in `s` as a contiguous run.
pub open spec fn has_infix(s: Seq<char>, p: Seq<char>) -> bool {
    exists|i: int| 0 <= i && i + p.len() <= s.len() && #[trigger] s.subrange(i, i + p.len()) == p
}

/// Relies on `str::contains`: true exactly when `pat` occurs in `s` as a
/// contiguous run of characters.
#[verifier::external_body]
fn str_contains(s: &str, pat: &str) -> (r: bool)
    ensures
        r == has_infix(s@, pat@),
{
    s.contains(pat)
}

/// What a remote service sent back for one request.
#[derive(Debug)]
pub enum Reply {
    /// No answer: the connection failed or the reply was malformed. Holds the
    /// error text.
    Unreachable(String),
    /// An answer with its status code, whose body could not be read. Holds
    /// the error text.
    Unreadable(u16, String),
    /// An answer with its status code and its body text.
    Answered(u16, String),
}

/// How one request turned out.
#[derive(Debug)]
pub enum Outcome {
    Succeeded,
    /// The service refused because the resource already was in the
    /// requested state: counted as a success.
    AlreadyInTargetState,
    /// Failed, with the text to report.
    Failed(String),
}

pub open spec fn is_success_spec(status: u16) -> bool {
    200 <= status && status < 300
}

/// A status code of the 2xx range.
pub fn is_success(status: u16) -> (r: bool)
    ensures
        r == is_success_spec(status),
{
    200 <= status && status < 300
}

/// The text that stands in a diagnostic in place of an empty body.
pub open spec fn empty_body_placeholder() -> Seq<char> {
    "empty text response"@
}

pub open spec fn diagnostic_text_spec(body: Seq<char>) -> Seq<char> {
    if body.len() == 0 {
        empty_body_placeholder()
    } else {
        body
    }
}

/// The body as it is reported: an empty body is replaced by a placeholder,
/// so that a diagnostic is never blank.
pub fn diagnostic_text(body: &String) -> (r: String)
    ensures
        r@ == diagnostic_text_spec(body@),
        r@.len() > 0,
{
    if body.as_str().is_empty() {
        let r = String::from_str("empty text response");
        proof {
            reveal_strlit("empty text response");
        }
        r
    } else {
        body.clone()
    }
}

/// Body fragment by which the database-cluster service says that the cluster
/// is already paused.
pub open spec fn atlas_marker() -> Seq<char> {
    "CLUSTER_ALREADY_PAUSED"@
}

/// Body fragment by which the container-cluster service says that the cluster
/// is not running, when asked to stop it.
pub open spec fn aks_marker() -> Seq<char> {
    "is not currently running"@
}

pub open spec fn atlas_already_paused_spec(status: u16, body: Seq<char>) -> bool {
    !is_success_spec(status) && has_infix(body, atlas_marker())
}

pub open spec fn aks_already_stopped_spec(order: bool, status: u16, body: Seq<char>) -> bool {
    order && !is_success_spec(status) && has_infix(body, aks_marker())
}

/// A refusal of the database-cluster service that means that the cluster is
/// already in the requested state.
pub fn atlas_already_paused(status: u16, body: &String) -> (r: bool)
    ensures
        r == atlas_already_paused_spec(status, body@),
{
    !is_success(status) && str_contains(body.as_str(), "CLUSTER_ALREADY_PAUSED")
}

/// A refusal of the container-cluster service that means that the cluster is
/// already stopped. `order` is true when stopping; on a start no refusal
/// counts as a success.
pub fn aks_already_stopped(order: bool, status: u16, body: &String) -> (r: bool)
    ensures
        r == aks_already_stopped_spec(order, status, body@),
{
    order && !is_success(status) && str_contains(body.as_str(), "is not currently running")
}

/// The reply reports success, by its status code.
pub open spec fn reply_succeeded(reply: Reply) -> bool {
    match reply {
        Reply::Unreachable(_) => false,
        Reply::Unreadable(status, _) => is_success_spec(status),
        Reply::Answered(status, _) => is_success_spec(status),
    }
}

/// The text reported for a reply that is neither a success nor a refusal
/// that counts as one.
pub open spec fn failure_text(reply: Reply) -> Seq<char> {
    match reply {
        Reply::Unreachable(e) => e@,
        Reply::Unreadable(_, e) => e@,
        Reply::Answered(_, body) => diagnostic_text_spec(body@),
    }
}

/// The outcome is the one that the reply calls for, where `already` says
/// whether the reply is a refusal that counts as success.
pub open spec fn outcome_matches(r: Outcome, reply: Reply, already: bool) -> bool {
    &&& (r is Succeeded) == reply_succeeded(reply)
    &&& (r is AlreadyInTargetState) == (!reply_succeeded(reply) && already)
    &&& (r is Failed) == (!reply_succeeded(reply) && !already)
    &&& (r matches Outcome::Failed(d) ==> d@ == failure_text(reply))
}

pub open spec fn atlas_already(reply: Reply) -> bool {
    reply matches Reply::Answered(status, body) && atlas_already_paused_spec(status, body@)
}

pub open spec fn aks_already(order: bool, reply: Reply) -> bool {
    reply matches Reply::Answered(status, body) && aks_already_stopped_spec(
        order,
        status,
        body@,
    )
}

fn failure(reply: &Reply) -> (r: Outcome)
    ensures
        r matches Outcome::Failed(d) && d@ == failure_text(*reply),
{
    match reply {
        Reply::Unreachable(e) => Outcome::Failed(e.clone()),
        Reply::Unreadable(_, e) => Outcome::Failed(e.clone()),
        Reply::Answered(_, body) => Outcome::Failed(diagnostic_text(body)),
    }
}

/// Classifies a reply of the database-cluster service: a success, a refusal
/// because the cluster is already paused (a success too), or a failure.
pub fn classify_atlas(reply: &Reply) -> (r: Outcome)
    ensures
        outcome_matches(r, *reply, atlas_already(*reply)),
{
    match reply {
        Reply::Answered(status, body) => {
            if is_success(*status) {
                Outcome::Succeeded
            } else if atlas_already_paused(*status, body) {
                Outcome::AlreadyInTargetState
            } else {
                failure(reply)
            }
        },
        Reply::Unreadable(status, _) => {
            if is_success(*status) {
                Outcome::Succeeded
            } else {
                failure(reply)
            }
        },
        Reply::Unreachable(_) => failure(reply),
    }
}

/// Classifies a reply of the container-cluster service to a start (`order`
/// false) or a stop (`order` true).
pub fn classify_aks(order: bool, reply: &Reply) -> (r: Outcome)
    ensures
        outcome_matches(r, *reply, aks_already(order, *reply)),
{
    match reply {
        Reply::Answered(status, body) => {
            if is_success(*status) {
                Outcome::Succeeded
            } else if aks_already_stopped(order, *status, body) {
                Outcome::AlreadyInTargetState
            } else {
                failure(reply)
            }
        },
        Reply::Unreadable(status, _) => {
            if is_success(*status) {
                Outcome::Succeeded
            } else {
                failure(reply)
            }
        },
        Reply::Unreachable(_) => failure(reply),
    }
}

/// Classifies a reply where no refusal counts as success: a token exchange,
/// a job listing, a job update. Anything but a 2xx status is a failure.
pub fn classify_plain(reply: &Reply) -> (r: Outcome)
    ensures
        outcome_matches(r, *reply, false),
{
    match reply {
        Reply::Answered(status, _) | Reply::Unreadable(status, _) => {
            if is_success(*status) {
                Outcome::Succeeded
            } else {
                failure(reply)
            }
        },
        Reply::Unreachable(_) => failure(reply),
    }
}

pub open spec fn some_failed(outcomes: Seq<Outcome>) -> bool {
    exists|i: int| 0 <= i < outcomes.len() && #[trigger] outcomes[i] is Failed
}

/// The aggregate of a backend's run: true when at least one outcome failed.
pub fn any_failed(outcomes: &Vec<Outcome>) -> (r: bool)
    ensures
        r == some_failed(outcomes@),
{
    let mut i: usize = 0;
    while i < outcomes.len()
        invariant
            0 <= i <= outcomes@.len(),
            forall|j: int| 0 <= j < i ==> !(#[trigger] outcomes@[j] is Failed),
        decreases outcomes@.len() - i,
    {
        if let Outcome::Failed(_) = &outcomes[i] {
            return true;
        }
        i = i + 1;
    }
    false
}

/// The one-line summary of a run.
pub fn summary(failed: bool) -> (r: &'static str)
    ensures
        r@ == (if failed { "some or all failed"@ } else { "all succeeded"@ }),
{
    if failed {
        "some or all failed"
    } else {
        "all succeeded"
    }
}

} // verus!
