use vstd::prelude::*;
use crate::jobs::{
    carried_before, decision_spec, resolves_at, undefined_spec, update_of, JobDecision, JobUpdate,
    LiveJob,
};
use crate::models::{is_empty_field, Atlas, Azure, Gate};
use crate::response::{
    aks_already, atlas_already, empty_body_placeholder, failure_text, is_success_spec,
    outcome_matches, some_failed, Outcome, Reply,
};

verus! {

/// A database-cluster refusal that says the cluster is already paused is
/// classified as a success, and adding its outcome to a run leaves the run's
/// aggregate failure as it was.
pub proof fn lemma_already_paused_is_success(reply: Reply, r: Outcome, outcomes: Seq<Outcome>)
    requires
        atlas_already(reply),
        outcome_matches(r, reply, atlas_already(reply)),
    ensures
        !(r is Failed),
        some_failed(outcomes.push(r)) == some_failed(outcomes),
{
    lemma_success_keeps_aggregate(r, outcomes);
}

/// A container-cluster refusal to stop a cluster that is not running is
/// classified as a success, and adding its outcome to a run leaves the run's
/// aggregate failure as it was.
pub proof fn lemma_already_stopped_is_success(reply: Reply, r: Outcome, outcomes: Seq<Outcome>)
    requires
        aks_already(true, reply),
        outcome_matches(r, reply, aks_already(true, reply)),
    ensures
        !(r is Failed),
        some_failed(outcomes.push(r)) == some_failed(outcomes),
{
    lemma_success_keeps_aggregate(r, outcomes);
}

proof fn lemma_success_keeps_aggregate(r: Outcome, outcomes: Seq<Outcome>)
    requires
        !(r is Failed),
    ensures
        some_failed(outcomes.push(r)) == some_failed(outcomes),
{
    let s = outcomes.push(r);
    if some_failed(s) {
        let i = choose|i: int| 0 <= i < s.len() && #[trigger] s[i] is Failed;
        assert(outcomes[i] is Failed);
    }
    if some_failed(outcomes) {
        let i = choose|i: int| 0 <= i < outcomes.len() && #[trigger] outcomes[i] is Failed;
        assert(s[i] is Failed);
    }
}

/// The aggregate of a run is the logical or of its outcomes: a run of one
/// outcome failed exactly when that outcome failed, and a run made of two
/// parts failed exactly when one of the parts failed.
pub proof fn lemma_aggregate_is_or(a: Seq<Outcome>, b: Seq<Outcome>, o: Outcome)
    ensures
        some_failed(seq![o]) == (o is Failed),
        some_failed(a + b) == (some_failed(a) || some_failed(b)),
{
    let one = seq![o];
    if o is Failed {
        assert(one[0] is Failed);
    }
    let s = a + b;
    if some_failed(s) {
        let i = choose|i: int| 0 <= i < s.len() && #[trigger] s[i] is Failed;
        if i < a.len() {
            assert(a[i] is Failed);
        } else {
            assert(b[i - a.len()] is Failed);
        }
    }
    if some_failed(a) {
        let i = choose|i: int| 0 <= i < a.len() && #[trigger] a[i] is Failed;
        assert(s[i] is Failed);
    }
    if some_failed(b) {
        let i = choose|i: int| 0 <= i < b.len() && #[trigger] b[i] is Failed;
        assert(s[i + a.len()] is Failed);
    }
}

/// The text reported for a refused request is never blank: an empty body is
/// replaced by the placeholder.
pub proof fn lemma_failure_text_never_blank(status: u16, body: String)
    requires
        !is_success_spec(status),
    ensures
        failure_text(Reply::Answered(status, body)).len() > 0,
        body@.len() == 0 ==> failure_text(Reply::Answered(status, body))
            == empty_body_placeholder(),
{
    reveal_strlit("empty text response");
}

/// With the all-jobs flag, a live job is acted on exactly when it has a
/// schedule, whatever names are declared; no job is reported as unscheduled
/// and no declared name as undefined.
pub proof fn lemma_all_jobs_acts_on_scheduled(declared: Seq<Seq<char>>, live: Seq<LiveJob>, i: int)
    requires
        0 <= i < live.len(),
    ensures
        (decision_spec(true, declared, live, i) == JobDecision::Act) == live[i].schedule.is_some(),
        decision_spec(true, declared, live, i) != JobDecision::Unscheduled,
        undefined_spec(true, declared, live).len() == 0,
{
}

/// A job without a schedule is never updated: where the live job ids are
/// distinct, no update carries the id of an unscheduled live job.
pub proof fn lemma_unscheduled_never_updated(u: JobUpdate, live: Seq<LiveJob>, order: bool, i: int)
    requires
        update_of(u, live, order),
        0 <= i < live.len(),
        live[i].schedule.is_none(),
        forall|a: int, b: int|
            0 <= a < live.len() && 0 <= b < live.len() && a != b ==> #[trigger] live[a].job_id
                != #[trigger] live[b].job_id,
    ensures
        u.job_id != live[i].job_id,
{
    assert(u.index as int != i);
}

proof fn lemma_first_named(live: Seq<LiveJob>, d: Seq<char>, n: int) -> (j: int)
    requires
        0 <= n <= live.len(),
        exists|j: int| 0 <= j < n && #[trigger] live[j].name@ == d,
    ensures
        0 <= j < n,
        live[j].name@ == d,
        forall|q: int| 0 <= q < j ==> #[trigger] live[q].name@ != d,
    decreases n,
{
    if exists|j: int| 0 <= j < n - 1 && #[trigger] live[j].name@ == d {
        lemma_first_named(live, d, n - 1)
    } else {
        n - 1
    }
}

/// Without the all-jobs flag, every declared name is accounted for exactly
/// once: either one live job, and only one, resolves it (and is acted on or
/// reported unscheduled), or it is reported as undefined, which happens
/// exactly when no live job carries that name.
pub proof fn lemma_declared_name_accounted_once(
    declared: Seq<Seq<char>>,
    live: Seq<LiveJob>,
    d: Seq<char>,
)
    requires
        declared.contains(d),
    ensures
        undefined_spec(false, declared, live).contains(d) == !(exists|i: int|
            0 <= i < live.len() && #[trigger] live[i].name@ == d),
        undefined_spec(false, declared, live).contains(d) == !(exists|i: int|
            0 <= i < live.len() && live[i].name@ == d && #[trigger] resolves_at(
                false,
                declared,
                live,
                i,
            )),
        forall|i1: int, i2: int|
            0 <= i1 < live.len() && 0 <= i2 < live.len() && live[i1].name@ == d && live[i2].name@
                == d && #[trigger] resolves_at(false, declared, live, i1) && #[trigger] resolves_at(
                false,
                declared,
                live,
                i2,
            ) ==> i1 == i2,
        forall|i: int|
            0 <= i < live.len() && live[i].name@ == d && #[trigger] resolves_at(
                false,
                declared,
                live,
                i,
            ) ==> decision_spec(false, declared, live, i) != JobDecision::Skip,
{
    let pred = |x: Seq<char>| !carried_before(live, live.len() as int, x);
    let k = choose|k: int| 0 <= k < declared.len() && declared[k] == d;
    let u = undefined_spec(false, declared, live);
    assert(u == declared.filter(pred));
    let named = exists|i: int| 0 <= i < live.len() && #[trigger] live[i].name@ == d;
    if named {
        let j = choose|j: int| 0 <= j < live.len() && #[trigger] live[j].name@ == d;
        assert(carried_before(live, live.len() as int, d));
        if u.contains(d) {
            let i = choose|i: int| 0 <= i < u.len() && u[i] == d;
            declared.lemma_filter_pred(pred, i);
        }
        let f = lemma_first_named(live, d, live.len() as int);
        assert(resolves_at(false, declared, live, f));
    } else {
        assert(!carried_before(live, live.len() as int, d));
        declared.lemma_filter_contains(pred, k);
        if exists|i: int|
            0 <= i < live.len() && live[i].name@ == d && #[trigger] resolves_at(
                false,
                declared,
                live,
                i,
            ) {
            let i = choose|i: int|
                0 <= i < live.len() && live[i].name@ == d && #[trigger] resolves_at(
                    false,
                    declared,
                    live,
                    i,
                );
            assert(live[i].name@ == d);
        }
    }
    assert forall|i1: int, i2: int|
        0 <= i1 < live.len() && 0 <= i2 < live.len() && live[i1].name@ == d && live[i2].name@ == d
            && #[trigger] resolves_at(false, declared, live, i1) && #[trigger] resolves_at(
            false,
            declared,
            live,
            i2,
        ) implies i1 == i2 by {
        if i1 < i2 {
            assert(live[i1].name@ != live[i2].name@);
        } else if i2 < i1 {
            assert(live[i2].name@ != live[i1].name@);
        }
    }
}

/// A database-cluster backend with a key absent or empty is not ready, so
/// its run plans no request.
pub proof fn lemma_atlas_credentials_required(a: Atlas)
    requires
        a.public_key.is_none() || a.private_key.is_none() || is_empty_field(a.public_key)
            || is_empty_field(a.private_key),
    ensures
        a.gate_spec() != Gate::Ready,
{
}

/// With a tenant id, client id or client secret absent or empty, neither
/// the container-cluster nor the scheduled-job backend is ready, so no token
/// exchange and no request is planned.
pub proof fn lemma_azure_credentials_required(a: Azure)
    requires
        a.tenant_id.is_none() || a.client_id.is_none() || a.client_secret.is_none()
            || is_empty_field(a.tenant_id) || is_empty_field(a.client_id) || is_empty_field(
            a.client_secret,
        ),
    ensures
        a.basic_gate_spec() != Gate::Ready,
        !a.aks_ready(),
        !a.databricks_ready(),
{
}

} // verus!
