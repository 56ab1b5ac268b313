use vstd::prelude::*;
use crate::models::Databricks;

verus! {

/// The schedule of a job as the job service reports it.
#[derive(Clone, Debug)]
pub struct JobSchedule {
    pub quartz_cron_expression: String,
    pub timezone_id: String,
    pub pause_status: String,
}

/// A job as listed by the job service.
#[derive(Clone, Debug)]
pub struct LiveJob {
    pub job_id: u64,
    pub name: String,
    pub schedule: Option<JobSchedule>,
}

/// What to do with one live job.
#[derive(Clone, Copy, Debug, PartialEq, Eq, Structural)]
pub enum JobDecision {
    /// Change the pause status of its schedule.
    Act,
    /// Declared, but it has no schedule to pause or resume: warn.
    Unscheduled,
    /// Not declared: leave it alone.
    Skip,
}

/// The result of matching the declared job names against the live list.
#[derive(Debug)]
pub struct Reconciliation {
    /// One decision per live job, in the order of the live list.
    pub decisions: Vec<JobDecision>,
    /// The declared names that no live job carries, in declaration order
    /// (none with the all-jobs flag): each gets a warning that the job is not
    /// defined remotely.
    pub undefined: Vec<String>,
}

pub open spec fn names(v: Seq<String>) -> Seq<Seq<char>> {
    v.map_values(|s: String| s@)
}

/// The live job at `i` resolves a declared name: the declared names are
/// consulted (the all-jobs flag is off), its name is declared, and no
/// earlier live job carries that name, so the name is still unresolved.
pub open spec fn resolves_at(
    all_jobs: bool,
    declared: Seq<Seq<char>>,
    live: Seq<LiveJob>,
    i: int,
) -> bool {
    &&& !all_jobs
    &&& declared.contains(live[i].name@)
    &&& forall|j: int| 0 <= j < i ==> #[trigger] live[j].name@ != live[i].name@
}

/// With the all-jobs flag, the declared names are ignored: a job is acted on
/// exactly when it has a schedule. Without it, the job that resolves a
/// declared name is acted on when it has a schedule and reported as
/// unscheduled when not; every other job is left alone.
pub open spec fn decision_spec(
    all_jobs: bool,
    declared: Seq<Seq<char>>,
    live: Seq<LiveJob>,
    i: int,
) -> JobDecision {
    if all_jobs {
        if live[i].schedule.is_some() {
            JobDecision::Act
        } else {
            JobDecision::Skip
        }
    } else if resolves_at(all_jobs, declared, live, i) {
        if live[i].schedule.is_some() {
            JobDecision::Act
        } else {
            JobDecision::Unscheduled
        }
    } else {
        JobDecision::Skip
    }
}

/// Some live job among the first `n` carries the name `d`.
pub open spec fn carried_before(live: Seq<LiveJob>, n: int, d: Seq<char>) -> bool {
    exists|j: int| 0 <= j < n && #[trigger] live[j].name@ == d
}

/// The declared names that the live service does not define, in declaration
/// order; none with the all-jobs flag, which ignores the declared names.
pub open spec fn undefined_spec(
    all_jobs: bool,
    declared: Seq<Seq<char>>,
    live: Seq<LiveJob>,
) -> Seq<Seq<char>> {
    if all_jobs {
        Seq::empty()
    } else {
        declared.filter(|d: Seq<char>| !carried_before(live, live.len() as int, d))
    }
}

/// Matches the declared job names of one service against its live job list.
///
/// With `all_jobs`, the declared names are ignored and every scheduled live
/// job is acted on. Otherwise a working set starts as the declared names; a
/// live job whose name is still in it removes that name (every copy of it)
/// and is acted on when it has a schedule, or reported as unscheduled when
/// not; any other live job is skipped. The names left in the working set at
/// the end are reported as undefined.
pub fn reconcile(all_jobs: bool, declared: &Vec<String>, live: &Vec<LiveJob>) -> (r:
    Reconciliation)
    ensures
        r.decisions@.len() == live@.len(),
        forall|i: int|
            0 <= i < live@.len() ==> #[trigger] r.decisions@[i] == decision_spec(
                all_jobs,
                names(declared@),
                live@,
                i,
            ),
        names(r.undefined@) == undefined_spec(all_jobs, names(declared@), live@),
{
    if all_jobs {
        let mut decisions: Vec<JobDecision> = Vec::new();
        let mut i: usize = 0;
        while i < live.len()
            invariant
                0 <= i <= live@.len(),
                all_jobs,
                decisions@.len() == i,
                forall|j: int|
                    0 <= j < i ==> #[trigger] decisions@[j] == decision_spec(
                        all_jobs,
                        names(declared@),
                        live@,
                        j,
                    ),
            decreases live@.len() - i,
        {
            if live[i].schedule.is_some() {
                decisions.push(JobDecision::Act);
            } else {
                decisions.push(JobDecision::Skip);
            }
            i = i + 1;
        }
        let undefined: Vec<String> = Vec::new();
        proof {
            assert(names(undefined@) =~= Seq::empty());
        }
        return Reconciliation { decisions, undefined };
    }
    let ghost dn = names(declared@);
    let mut resolved: Vec<bool> = Vec::new();
    let mut k: usize = 0;
    while k < declared.len()
        invariant
            0 <= k <= declared@.len(),
            resolved@.len() == k,
            forall|m: int| 0 <= m < k ==> !#[trigger] resolved@[m],
        decreases declared@.len() - k,
    {
        resolved.push(false);
        k = k + 1;
    }
    let mut decisions: Vec<JobDecision> = Vec::new();
    let mut i: usize = 0;
    while i < live.len()
        invariant
            0 <= i <= live@.len(),
            !all_jobs,
            dn == names(declared@),
            dn.len() == declared@.len(),
            resolved@.len() == declared@.len(),
            forall|m: int|
                0 <= m < declared@.len() ==> #[trigger] resolved@[m] == carried_before(
                    live@,
                    i as int,
                    dn[m],
                ),
            decisions@.len() == i,
            forall|j: int|
                0 <= j < i ==> #[trigger] decisions@[j] == decision_spec(
                    all_jobs,
                    dn,
                    live@,
                    j,
                ),
        decreases live@.len() - i,
    {
        let job = &live[i];
        let scheduled = job.schedule.is_some();
        let ghost old_resolved = resolved@;
        let mut found = false;
        let mut m: usize = 0;
        while m < declared.len()
            invariant
                0 <= m <= declared@.len(),
                0 <= i < live@.len(),
                job == live@[i as int],
                dn == names(declared@),
                dn.len() == declared@.len(),
                resolved@.len() == declared@.len(),
                old_resolved.len() == declared@.len(),
                forall|q: int|
                    0 <= q < m ==> #[trigger] resolved@[q] == (old_resolved[q] || dn[q]
                        == job.name@),
                forall|q: int| m <= q < declared@.len() ==> #[trigger] resolved@[q] == old_resolved[q],
                found == exists|q: int|
                    0 <= q < m && #[trigger] dn[q] == job.name@ && !old_resolved[q],
            decreases declared@.len() - m,
        {
            proof {
                assert(dn[m as int] == declared@[m as int]@);
                assert(resolved@[m as int] == old_resolved[m as int]);
            }
            if declared[m] == job.name {
                if !resolved[m] {
                    found = true;
                }
                resolved.set(m, true);
            }
            m = m + 1;
        }
        proof {
            // the name is still in the working set exactly when the job resolves it
            if found {
                let q = choose|q: int|
                    0 <= q < declared@.len() && #[trigger] dn[q] == job.name@ && !old_resolved[q];
                assert(dn.contains(job.name@)) by {
                    assert(dn[q] == live@[i as int].name@);
                }
                assert forall|j: int| 0 <= j < i implies #[trigger] live@[j].name@
                    != live@[i as int].name@ by {
                    if live@[j].name@ == live@[i as int].name@ {
                        assert(carried_before(live@, i as int, dn[q]));
                    }
                }
                assert(resolves_at(all_jobs, dn, live@, i as int));
            } else if resolves_at(all_jobs, dn, live@, i as int) {
                let q = choose|q: int| 0 <= q < dn.len() && dn[q] == live@[i as int].name@;
                assert(dn[q] == job.name@);
                if old_resolved[q] {
                    let j = choose|j: int| 0 <= j < i && #[trigger] live@[j].name@ == dn[q];
                    assert(live@[j].name@ != live@[i as int].name@);
                }
                assert(false);
            }
            assert forall|q: int| 0 <= q < declared@.len() implies #[trigger] resolved@[q]
                == carried_before(live@, i + 1, dn[q]) by {
                if carried_before(live@, i + 1, dn[q]) && !old_resolved[q] {
                    let j = choose|j: int| 0 <= j < i + 1 && #[trigger] live@[j].name@ == dn[q];
                    assert(j == i);
                }
                if old_resolved[q] {
                    let j = choose|j: int| 0 <= j < i && #[trigger] live@[j].name@ == dn[q];
                    assert(0 <= j < i + 1);
                }
                if dn[q] == job.name@ {
                    assert(live@[i as int].name@ == dn[q]);
                }
            }
        }
        if found {
            if scheduled {
                decisions.push(JobDecision::Act);
            } else {
                decisions.push(JobDecision::Unscheduled);
            }
        } else {
            decisions.push(JobDecision::Skip);
        }
        i = i + 1;
    }
    let ghost pred = |d: Seq<char>| !carried_before(live@, live@.len() as int, d);
    let mut undefined: Vec<String> = Vec::new();
    let mut k: usize = 0;
    while k < declared.len()
        invariant
            0 <= k <= declared@.len(),
            i == live@.len(),
            dn == names(declared@),
            dn.len() == declared@.len(),
            resolved@.len() == declared@.len(),
            pred == (|d: Seq<char>| !carried_before(live@, live@.len() as int, d)),
            forall|m: int|
                0 <= m < declared@.len() ==> #[trigger] resolved@[m] == carried_before(
                    live@,
                    i as int,
                    dn[m],
                ),
            names(undefined@) == dn.take(k as int).filter(pred),
        decreases declared@.len() - k,
    {
        proof {
            assert(dn.take(k + 1).drop_last() == dn.take(k as int));
            assert(dn.take(k + 1).last() == dn[k as int]);
            reveal(Seq::filter);
        }
        if !resolved[k] {
            undefined.push(declared[k].clone());
            proof {
                assert(names(undefined@) == names(undefined@).drop_last().push(dn[k as int]));
            }
        }
        k = k + 1;
    }
    proof {
        assert(dn.take(declared@.len() as int) == dn);
    }
    Reconciliation { decisions, undefined }
}

/// The URL that `path` names relative to `base`, or none when `base` is not
/// a URL or `path` cannot be resolved against it.
pub uninterp spec fn joined_url(base: Seq<char>, path: Seq<char>) -> Option<Seq<char>>;

/// Relies on `reqwest::Url::parse` (the `url` crate's parser) to read `base`,
/// and on `Url::join` to resolve `path` against it; the result is the
/// serialised URL.
#[verifier::external_body]
fn join_url(base: &str, path: &str) -> (r: Option<String>)
    ensures
        match r {
            Some(u) => joined_url(base@, path@) == Some(u@),
            None => joined_url(base@, path@).is_none(),
        },
{
    match reqwest::Url::parse(base) {
        Ok(u) => match u.join(path) {
            Ok(j) => Some(String::from(j.as_str())),
            Err(_) => None,
        },
        Err(_) => None,
    }
}

pub open spec fn list_path() -> Seq<char> {
    "/api/2.1/jobs/list"@
}

pub open spec fn update_path() -> Seq<char> {
    "/api/2.1/jobs/update"@
}

impl Databricks {
    /// Where the live job list of this service is fetched; none when the
    /// service URL cannot be read.
    pub fn jobs_list_url(&self) -> (r: Option<String>)
        ensures
            match r {
                Some(u) => joined_url(self.url@, list_path()) == Some(u@),
                None => joined_url(self.url@, list_path()).is_none(),
            },
    {
        join_url(self.url.as_str(), "/api/2.1/jobs/list")
    }

    /// Where job settings of this service are updated.
    pub fn jobs_update_url(&self) -> (r: Option<String>)
        ensures
            match r {
                Some(u) => joined_url(self.url@, update_path()) == Some(u@),
                None => joined_url(self.url@, update_path()).is_none(),
            },
    {
        join_url(self.url.as_str(), "/api/2.1/jobs/update")
    }
}

/// The pause status that a schedule gets: paused when pausing, unpaused when
/// resuming.
pub open spec fn pause_status_spec(order: bool) -> Seq<char> {
    if order {
        "PAUSED"@
    } else {
        "UNPAUSED"@
    }
}

impl JobSchedule {
    /// The same schedule with only its pause status changed.
    pub fn with_pause_status(&self, order: bool) -> (r: JobSchedule)
        ensures
            r.quartz_cron_expression@ == self.quartz_cron_expression@,
            r.timezone_id@ == self.timezone_id@,
            r.pause_status@ == pause_status_spec(order),
    {
        let pause_status = if order {
            String::from_str("PAUSED")
        } else {
            String::from_str("UNPAUSED")
        };
        JobSchedule {
            quartz_cron_expression: self.quartz_cron_expression.clone(),
            timezone_id: self.timezone_id.clone(),
            pause_status,
        }
    }
}

/// The settings update of one job: its id and its whole schedule, of which
/// only the pause status differs from the live one.
#[derive(Debug)]
pub struct JobUpdate {
    /// Position of the job in the live list.
    pub index: usize,
    pub job_id: u64,
    pub name: String,
    pub schedule: JobSchedule,
}

/// `u` is the update of the live job at `u.index`.
pub open spec fn update_of(u: JobUpdate, live: Seq<LiveJob>, order: bool) -> bool {
    &&& 0 <= u.index < live.len()
    &&& live[u.index as int].schedule matches Some(s) && {
        &&& u.schedule.quartz_cron_expression@ == s.quartz_cron_expression@
        &&& u.schedule.timezone_id@ == s.timezone_id@
        &&& u.schedule.pause_status@ == pause_status_spec(order)
    }
    &&& u.job_id == live[u.index as int].job_id
    &&& u.name@ == live[u.index as int].name@
}

/// The names of the live jobs among the first `n` that are declared but
/// unscheduled, in live-list order.
pub open spec fn unscheduled_upto(
    all_jobs: bool,
    declared: Seq<Seq<char>>,
    live: Seq<LiveJob>,
    n: int,
) -> Seq<Seq<char>>
    decreases n,
{
    if n <= 0 {
        Seq::empty()
    } else {
        let prev = unscheduled_upto(all_jobs, declared, live, n - 1);
        if decision_spec(all_jobs, declared, live, n - 1) == JobDecision::Unscheduled {
            prev.push(live[n - 1].name@)
        } else {
            prev
        }
    }
}

/// What a run does at one service: the updates to send, in live-list order,
/// and the names to warn about.
#[derive(Debug)]
pub struct JobPlan {
    pub updates: Vec<JobUpdate>,
    /// Declared names of live jobs that have no schedule.
    pub unscheduled: Vec<String>,
    /// Declared names that no live job carries (none with the all-jobs flag).
    pub undefined: Vec<String>,
}

impl Databricks {
    /// Reconciles this service's declaration against its live job list and
    /// builds the updates: one per live job that is acted on, in the order of
    /// the live list, and no other.
    pub fn plan(&self, live: &Vec<LiveJob>, order: bool) -> (r: JobPlan)
        ensures
            forall|k: int|
                0 <= k < r.updates@.len() ==> {
                    &&& update_of(#[trigger] r.updates@[k], live@, order)
                    &&& decision_spec(
                        self.all_jobs,
                        names(self.jobs@),
                        live@,
                        r.updates@[k].index as int,
                    ) == JobDecision::Act
                },
            forall|k: int, l: int|
                0 <= k < l < r.updates@.len() ==> #[trigger] r.updates@[k].index
                    < #[trigger] r.updates@[l].index,
            forall|i: int|
                0 <= i < live@.len() && decision_spec(self.all_jobs, names(self.jobs@), live@, i)
                    == JobDecision::Act ==> exists|k: int|
                    0 <= k < r.updates@.len() && #[trigger] r.updates@[k].index == i,
            names(r.unscheduled@) == unscheduled_upto(
                self.all_jobs,
                names(self.jobs@),
                live@,
                live@.len() as int,
            ),
            names(r.undefined@) == undefined_spec(self.all_jobs, names(self.jobs@), live@),
    {
        let rec = reconcile(self.all_jobs, &self.jobs, live);
        let mut updates: Vec<JobUpdate> = Vec::new();
        let mut unscheduled: Vec<String> = Vec::new();
        let mut i: usize = 0;
        while i < live.len()
            invariant
                0 <= i <= live@.len(),
                rec.decisions@.len() == live@.len(),
                forall|q: int|
                    0 <= q < live@.len() ==> #[trigger] rec.decisions@[q] == decision_spec(
                        self.all_jobs,
                        names(self.jobs@),
                        live@,
                        q,
                    ),
                forall|k: int|
                    0 <= k < updates@.len() ==> {
                        &&& update_of(#[trigger] updates@[k], live@, order)
                        &&& updates@[k].index < i
                        &&& rec.decisions@[updates@[k].index as int] == JobDecision::Act
                    },
                forall|k: int, l: int|
                    0 <= k < l < updates@.len() ==> #[trigger] updates@[k].index
                        < #[trigger] updates@[l].index,
                forall|q: int|
                    0 <= q < i && #[trigger] rec.decisions@[q] == JobDecision::Act ==> exists|k: int|
                        0 <= k < updates@.len() && #[trigger] updates@[k].index == q,
                names(unscheduled@) == unscheduled_upto(
                    self.all_jobs,
                    names(self.jobs@),
                    live@,
                    i as int,
                ),
            decreases live@.len() - i,
        {
            let job = &live[i];
            let ghost u_before = updates@;
            match rec.decisions[i] {
                JobDecision::Act => {
                    proof {
                        assert(rec.decisions@[i as int] == JobDecision::Act);
                    }
                    let schedule = job.schedule.as_ref().unwrap().with_pause_status(order);
                    updates.push(
                        JobUpdate { index: i, job_id: job.job_id, name: job.name.clone(), schedule },
                    );
                    proof {
                        let n = updates@.len() - 1;
                        assert(updates@[n].index == i);
                    }
                },
                JobDecision::Unscheduled => {
                    let ghost u0 = unscheduled@;
                    unscheduled.push(job.name.clone());
                    proof {
                        assert(names(unscheduled@) == names(u0).push(live@[i as int].name@));
                    }
                },
                JobDecision::Skip => {},
            }
            proof {
                assert forall|q: int|
                    0 <= q < i + 1 && #[trigger] rec.decisions@[q] == JobDecision::Act implies exists|
                    k: int,
                | 0 <= k < updates@.len() && #[trigger] updates@[k].index == q by {
                    if q < i {
                        let k = choose|k: int|
                            0 <= k < u_before.len() && #[trigger] u_before[k].index == q;
                        assert(updates@[k] == u_before[k]);
                    } else {
                        let n = updates@.len() - 1;
                        assert(updates@[n].index == q);
                    }
                }
            }
            i = i + 1;
        }
        proof {
            assert forall|q: int|
                0 <= q < live@.len() && decision_spec(self.all_jobs, names(self.jobs@), live@, q)
                    == JobDecision::Act implies exists|k: int|
                0 <= k < updates@.len() && #[trigger] updates@[k].index == q by {
                assert(rec.decisions@[q] == JobDecision::Act);
            }
        }
        JobPlan { updates, unscheduled, undefined: rec.undefined }
    }
}

} // verus!
