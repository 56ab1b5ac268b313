use cerdito::{
    aks_action_url, aks_already_stopped, any_failed, atlas_already_paused, atlas_cluster_url,
    classify_aks, classify_atlas, classify_plain, default_all_jobs, default_jobs,
    diagnostic_text, is_success, reconcile, replicas_for, summary, Atlas, AtlasCluster, Azure,
    Config, CredentialField, ServiceStep, Databricks, Gate, JobDecision, JobSchedule, Kubernetes,
    KubernetesProject, LiveJob, Outcome, Reply, AKS,
};

fn s(x: &str) -> String {
    x.to_string()
}

fn cluster(name: &str, group: &str) -> AtlasCluster {
    AtlasCluster { name: s(name), group_id: s(group) }
}

fn aks(name: &str) -> AKS {
    AKS { subscription_id: s("sub"), resource_group_name: s("rg"), resource_name: s(name) }
}

fn azure(tenant: Option<&str>, id: Option<&str>, secret: Option<&str>) -> Azure {
    Azure::new(
        tenant.map(s),
        id.map(s),
        secret.map(s),
        Some(vec![aks("k1")]),
        Some(vec![service(false, &["a"])]),
    )
}

fn service(all_jobs: bool, jobs: &[&str]) -> Databricks {
    Databricks {
        url: s("https://adb-1.azuredatabricks.net"),
        all_jobs,
        jobs: jobs.iter().map(|j| s(j)).collect(),
        delete: None,
    }
}

fn schedule(status: &str) -> JobSchedule {
    JobSchedule {
        quartz_cron_expression: s("0 0 8 * * ?"),
        timezone_id: s("Europe/Madrid"),
        pause_status: s(status),
    }
}

fn job(id: u64, name: &str, scheduled: bool) -> LiveJob {
    LiveJob {
        job_id: id,
        name: s(name),
        schedule: if scheduled { Some(schedule("UNPAUSED")) } else { None },
    }
}

fn is_failed(o: &Outcome) -> bool {
    matches!(o, Outcome::Failed(_))
}

#[test]
fn defaults_of_job_declarations() {
    assert!(!default_all_jobs());
    assert!(default_jobs().is_empty());
}

#[test]
fn default_config_configures_nothing() {
    let c = Config::default();
    assert!(!c.atlas.has_configuration());
    assert!(!c.azure.has_basic_configuration());
    assert!(!c.kubernetes.has_configuration());
    assert!(c.atlas.cluster_requests(true).is_empty());
    assert!(c.azure.aks_token_request().is_none());
    assert!(c.azure.databricks_token_request().is_none());
    assert!(c.kubernetes.scale_requests(true).is_empty());
}

#[test]
fn atlas_gate_absent_and_invalid() {
    let a = Atlas::new(None, Some(s("priv")), Some(vec![cluster("X", "g")]));
    assert_eq!(a.gate(), Gate::Absent);
    assert!(a.cluster_requests(true).is_empty());
    let a = Atlas::new(Some(s("pub")), Some(s("priv")), None);
    assert_eq!(a.gate(), Gate::Absent);
    let a = Atlas::new(Some(s("")), Some(s("priv")), Some(vec![cluster("X", "g")]));
    assert_eq!(a.gate(), Gate::Invalid(CredentialField::PublicKey));
    assert!(!a.has_configuration());
    assert!(a.cluster_requests(false).is_empty());
    let a = Atlas::new(Some(s("pub")), Some(s("")), Some(vec![cluster("X", "g")]));
    assert_eq!(a.gate(), Gate::Invalid(CredentialField::PrivateKey));
    let a = Atlas::new(Some(s("pub")), Some(s("priv")), Some(vec![]));
    assert_eq!(a.gate(), Gate::Ready);
    assert!(a.has_configuration());
}

#[test]
fn atlas_requests_follow_the_cluster_list() {
    let a = Atlas::new(
        Some(s("pub")),
        Some(s("priv")),
        Some(vec![cluster("X", "g1"), cluster("Y", "g2")]),
    );
    let r = a.cluster_requests(true);
    assert_eq!(r.len(), 2);
    assert_eq!(r[0].name, "X");
    assert_eq!(r[0].url, "https://cloud.mongodb.com/api/atlas/v2/groups/g1/clusters/X");
    assert!(r[0].paused);
    assert_eq!(r[1].url, "https://cloud.mongodb.com/api/atlas/v2/groups/g2/clusters/Y");
    let r = a.cluster_requests(false);
    assert!(!r[1].paused);
}

#[test]
fn atlas_url_exact() {
    assert_eq!(
        atlas_cluster_url(&cluster("main", "5f1d")),
        "https://cloud.mongodb.com/api/atlas/v2/groups/5f1d/clusters/main"
    );
}

#[test]
fn azure_gates() {
    assert_eq!(azure(None, Some("c"), Some("x")).basic_gate(), Gate::Absent);
    assert_eq!(
        azure(Some(""), Some("c"), Some("x")).basic_gate(),
        Gate::Invalid(CredentialField::TenantId)
    );
    assert_eq!(
        azure(Some("t"), Some(""), Some("x")).basic_gate(),
        Gate::Invalid(CredentialField::ClientId)
    );
    assert_eq!(
        azure(Some("t"), Some("c"), Some("")).basic_gate(),
        Gate::Invalid(CredentialField::ClientSecret)
    );
    let ok = azure(Some("t"), Some("c"), Some("x"));
    assert!(ok.has_basic_configuration());
    assert!(ok.has_aks_configuration());
    assert!(ok.has_databricks_configuration());
    let mut no_aks = azure(Some("t"), Some("c"), Some("x"));
    no_aks.aks = None;
    assert!(!no_aks.has_aks_configuration());
    assert!(no_aks.aks_token_request().is_none());
    assert!(no_aks.databricks_token_request().is_some());
}

#[test]
fn unconfigured_azure_sends_nothing() {
    let a = azure(Some("t"), None, Some("x"));
    assert!(a.aks_token_request().is_none());
    assert!(a.databricks_token_request().is_none());
    assert!(a.aks_requests(true, &Some(s("tok"))).is_empty());
}

#[test]
fn token_requests_exact() {
    let a = azure(Some("tenant"), Some("cid"), Some("secret"));
    let t = a.aks_token_request().unwrap();
    assert_eq!(t.url, "https://login.microsoftonline.com/tenant/oauth2/v2.0/token");
    assert_eq!(
        t.form,
        vec![
            (s("grant_type"), s("client_credentials")),
            (s("client_id"), s("cid")),
            (s("client_secret"), s("secret")),
            (s("scope"), s("https://management.azure.com/.default")),
        ]
    );
    let d = a.databricks_token_request().unwrap();
    assert_eq!(d.form[3].1, "2ff814a6-3304-4ab8-85cb-cd0e6f879c1d/.default");
}

#[test]
fn aks_requests_exact() {
    let a = azure(Some("t"), Some("c"), Some("x"));
    let r = a.aks_requests(false, &Some(s("tok")));
    assert_eq!(r.len(), 1);
    assert_eq!(r[0].name, "k1");
    assert_eq!(r[0].authorization, "Bearer tok");
    assert_eq!(
        r[0].url,
        "https://management.azure.com/subscriptions/sub/resourceGroups/rg/providers/Microsoft.ContainerService/managedClusters/k1/start?api-version=2024-02-01"
    );
    assert!(aks_action_url(&aks("k2"), true).ends_with("/managedClusters/k2/stop?api-version=2024-02-01"));
}

#[test]
fn token_refused_means_no_cluster_call_and_failure() {
    let a = azure(Some("t"), Some("c"), Some("x"));
    assert!(a.aks_token_request().is_some());
    let token_outcome = classify_plain(&Reply::Answered(401, s("")));
    assert!(is_failed(&token_outcome));
    let calls = a.aks_requests(true, &None);
    assert!(calls.is_empty());
    let outcomes = vec![token_outcome];
    assert!(any_failed(&outcomes));
    assert_eq!(summary(any_failed(&outcomes)), "some or all failed");
}

#[test]
fn two_clusters_one_already_paused_is_success() {
    let a = Atlas::new(
        Some(s("pub")),
        Some(s("priv")),
        Some(vec![cluster("X", "g"), cluster("Y", "g")]),
    );
    let calls = a.cluster_requests(true);
    assert_eq!(calls.len(), 2);
    let replies = vec![
        Reply::Answered(200, s("{}")),
        Reply::Answered(409, s("{\"errorCode\":\"CLUSTER_ALREADY_PAUSED\"}")),
    ];
    let outcomes: Vec<Outcome> = replies.iter().map(classify_atlas).collect();
    assert!(matches!(outcomes[0], Outcome::Succeeded));
    assert!(matches!(outcomes[1], Outcome::AlreadyInTargetState));
    assert!(!any_failed(&outcomes));
    assert_eq!(summary(false), "all succeeded");
}

#[test]
fn already_paused_marker_only_on_refusal() {
    assert!(atlas_already_paused(409, &s("x CLUSTER_ALREADY_PAUSED y")));
    assert!(!atlas_already_paused(409, &s("CLUSTER_ALREADY_RUNNING")));
    assert!(!atlas_already_paused(200, &s("CLUSTER_ALREADY_PAUSED")));
}

#[test]
fn aks_not_running_counts_only_when_stopping() {
    let body = s("Cluster k1 is not currently running");
    assert!(aks_already_stopped(true, 409, &body));
    assert!(!aks_already_stopped(false, 409, &body));
    assert!(matches!(
        classify_aks(true, &Reply::Answered(409, body.clone())),
        Outcome::AlreadyInTargetState
    ));
    assert!(is_failed(&classify_aks(false, &Reply::Answered(409, body))));
}

#[test]
fn empty_body_gets_placeholder() {
    assert_eq!(diagnostic_text(&s("")), "empty text response");
    assert_eq!(diagnostic_text(&s("boom")), "boom");
    match classify_atlas(&Reply::Answered(500, s(""))) {
        Outcome::Failed(d) => assert_eq!(d, "empty text response"),
        _ => panic!("expected a failure"),
    }
    match classify_plain(&Reply::Unreachable(s("connection refused"))) {
        Outcome::Failed(d) => assert_eq!(d, "connection refused"),
        _ => panic!("expected a failure"),
    }
    match classify_aks(true, &Reply::Unreadable(502, s("bad utf-8"))) {
        Outcome::Failed(d) => assert_eq!(d, "bad utf-8"),
        _ => panic!("expected a failure"),
    }
}

#[test]
fn success_codes() {
    assert!(is_success(200));
    assert!(is_success(204));
    assert!(is_success(299));
    assert!(!is_success(300));
    assert!(!is_success(199));
    assert!(matches!(classify_plain(&Reply::Answered(201, s(""))), Outcome::Succeeded));
}

#[test]
fn one_failure_among_many_fails_the_run() {
    let outcomes = vec![
        Outcome::Succeeded,
        Outcome::AlreadyInTargetState,
        Outcome::Failed(s("x")),
        Outcome::Succeeded,
    ];
    assert!(any_failed(&outcomes));
    assert!(!any_failed(&vec![Outcome::Succeeded, Outcome::AlreadyInTargetState]));
    assert!(!any_failed(&vec![]));
}

#[test]
fn reconcile_named_jobs() {
    let declared = vec![s("A"), s("B"), s("C")];
    let live = vec![job(1, "A", true), job(3, "C", false), job(4, "D", true)];
    let r = reconcile(false, &declared, &live);
    assert_eq!(r.decisions, vec![JobDecision::Act, JobDecision::Unscheduled, JobDecision::Skip]);
    assert_eq!(r.undefined, vec![s("B")]);
}

#[test]
fn reconcile_all_jobs() {
    let declared = vec![s("C"), s("Z")];
    let live = vec![job(1, "A", true), job(3, "C", false), job(4, "D", true)];
    let r = reconcile(true, &declared, &live);
    assert_eq!(r.decisions, vec![JobDecision::Act, JobDecision::Skip, JobDecision::Act]);
    assert!(r.undefined.is_empty());
    let r = reconcile(true, &vec![], &live);
    assert_eq!(r.decisions, vec![JobDecision::Act, JobDecision::Skip, JobDecision::Act]);
    assert!(r.undefined.is_empty());
}

#[test]
fn reconcile_duplicates() {
    let declared = vec![s("A"), s("A")];
    let live = vec![job(1, "A", true), job(2, "A", true)];
    let r = reconcile(false, &declared, &live);
    assert_eq!(r.decisions, vec![JobDecision::Act, JobDecision::Skip]);
    assert!(r.undefined.is_empty());
    let r = reconcile(false, &vec![], &vec![]);
    assert!(r.decisions.is_empty());
}

#[test]
fn plan_updates_only_pause_status() {
    let svc = service(false, &["A", "B", "C"]);
    let live = vec![job(11, "A", true), job(13, "C", false), job(14, "D", true)];
    let p = svc.plan(&live, true);
    assert_eq!(p.updates.len(), 1);
    assert_eq!(p.updates[0].index, 0);
    assert_eq!(p.updates[0].job_id, 11);
    assert_eq!(p.updates[0].name, "A");
    assert_eq!(p.updates[0].schedule.pause_status, "PAUSED");
    assert_eq!(p.updates[0].schedule.quartz_cron_expression, "0 0 8 * * ?");
    assert_eq!(p.updates[0].schedule.timezone_id, "Europe/Madrid");
    assert_eq!(p.unscheduled, vec![s("C")]);
    assert_eq!(p.undefined, vec![s("B")]);
    let p = service(true, &[]).plan(&live, false);
    assert_eq!(p.updates.len(), 2);
    assert_eq!(p.updates[1].job_id, 14);
    assert_eq!(p.updates[1].schedule.pause_status, "UNPAUSED");
}

#[test]
fn with_pause_status_keeps_the_rest() {
    let sc = schedule("PAUSED").with_pause_status(false);
    assert_eq!(sc.pause_status, "UNPAUSED");
    assert_eq!(sc.quartz_cron_expression, "0 0 8 * * ?");
}

#[test]
fn job_endpoints_resolve_against_service_url() {
    let svc = service(false, &[]);
    assert_eq!(
        svc.jobs_list_url().unwrap(),
        "https://adb-1.azuredatabricks.net/api/2.1/jobs/list"
    );
    let mut deep = service(false, &[]);
    deep.url = s("https://adb-2.net/some/path/");
    assert_eq!(deep.jobs_update_url().unwrap(), "https://adb-2.net/api/2.1/jobs/update");
    let mut bad = service(false, &[]);
    bad.url = s("not a url");
    assert!(bad.jobs_list_url().is_none());
}

#[test]
fn kubernetes_requests() {
    let k = Kubernetes::new(None, None);
    assert!(!k.has_configuration());
    assert!(k.scale_requests(true).is_empty());
    let k = Kubernetes::new(
        Some(s("/tmp/kc")),
        Some(vec![
            KubernetesProject { namespace: s("ns1"), deployments: vec![s("a"), s("b")] },
            KubernetesProject { namespace: s("ns2"), deployments: vec![] },
            KubernetesProject { namespace: s("ns3"), deployments: vec![s("c")] },
        ]),
    );
    assert!(k.has_configuration());
    let r = k.scale_requests(true);
    let pairs: Vec<(String, String, i32)> =
        r.iter().map(|q| (q.namespace.clone(), q.deployment.clone(), q.replicas)).collect();
    assert_eq!(
        pairs,
        vec![(s("ns1"), s("a"), 0), (s("ns1"), s("b"), 0), (s("ns3"), s("c"), 0)]
    );
    assert_eq!(k.scale_requests(false)[2].replicas, 1);
    assert_eq!(replicas_for(true), 0);
    assert_eq!(replicas_for(false), 1);
}

#[test]
fn all_jobs_declared_name_of_scheduled_job_is_not_undefined() {
    let declared = vec![s("n")];
    let live = vec![job(7, "n", true)];
    let r = reconcile(true, &declared, &live);
    assert_eq!(r.decisions, vec![JobDecision::Act]);
    assert!(r.undefined.is_empty());
    let p = service(true, &["n"]).plan(&live, true);
    assert_eq!(p.updates.len(), 1);
    assert!(p.undefined.is_empty());
    assert!(p.unscheduled.is_empty());
}

#[test]
fn unscheduled_job_is_never_updated() {
    let live = vec![job(1, "A", false), job(2, "B", true), job(3, "C", false)];
    for all_jobs in [false, true] {
        let p = service(all_jobs, &["A", "B", "C"]).plan(&live, true);
        let ids: Vec<u64> = p.updates.iter().map(|u| u.job_id).collect();
        assert_eq!(ids, vec![2]);
    }
}

#[test]
fn job_service_steps() {
    let mut a = azure(Some("t"), Some("c"), Some("x"));
    let mut bad = service(false, &[]);
    bad.url = s("not a url");
    a.databricks = Some(vec![service(false, &["a"]), bad]);
    assert!(a.databricks_steps(&None).is_empty());
    let steps = a.databricks_steps(&Some(s("tok")));
    assert_eq!(steps.len(), 2);
    match &steps[0] {
        ServiceStep::Fetch(c) => {
            assert_eq!(c.index, 0);
            assert_eq!(c.list_url, "https://adb-1.azuredatabricks.net/api/2.1/jobs/list");
            assert_eq!(c.update_url, "https://adb-1.azuredatabricks.net/api/2.1/jobs/update");
            assert_eq!(c.authorization, "Bearer tok");
        }
        ServiceStep::BadUrl(_) => panic!("expected a fetch"),
    }
    assert!(matches!(steps[1], ServiceStep::BadUrl(1)));
    let no_creds = azure(Some("t"), Some(""), Some("x"));
    assert!(no_creds.databricks_steps(&Some(s("tok"))).is_empty());
}
