use vstd::prelude::*;
use crate::jobs::{joined_url, list_path, update_path};
use crate::models::{Atlas, AtlasCluster, Azure, Gate, Kubernetes, KubernetesProject, AKS};

verus! {

/// `"stop"` when pausing, `"start"` when resuming.
pub open spec fn action_word(order: bool) -> Seq<char> {
    if order {
        "stop"@
    } else {
        "start"@
    }
}

pub open spec fn atlas_cluster_url_spec(c: AtlasCluster) -> Seq<char> {
    "https://cloud.mongodb.com/api/atlas/v2/groups/"@ + c.group_id@ + "/clusters/"@ + c.name@
}

/// Where the pause flag of a database cluster is patched.
pub fn atlas_cluster_url(c: &AtlasCluster) -> (r: String)
    ensures
        r@ == atlas_cluster_url_spec(*c),
{
    let mut u = String::from_str("https://cloud.mongodb.com/api/atlas/v2/groups/");
    u.append(c.group_id.as_str());
    u.append("/clusters/");
    u.append(c.name.as_str());
    u
}

pub open spec fn aks_action_url_spec(a: AKS, order: bool) -> Seq<char> {
    "https://management.azure.com/subscriptions/"@ + a.subscription_id@ + "/resourceGroups/"@
        + a.resource_group_name@ + "/providers/Microsoft.ContainerService/managedClusters/"@
        + a.resource_name@ + "/"@ + action_word(order) + "?api-version=2024-02-01"@
}

/// Where a container cluster is started or stopped.
pub fn aks_action_url(a: &AKS, order: bool) -> (r: String)
    ensures
        r@ == aks_action_url_spec(*a, order),
{
    let mut u = String::from_str("https://management.azure.com/subscriptions/");
    u.append(a.subscription_id.as_str());
    u.append("/resourceGroups/");
    u.append(a.resource_group_name.as_str());
    u.append("/providers/Microsoft.ContainerService/managedClusters/");
    u.append(a.resource_name.as_str());
    u.append("/");
    if order {
        u.append("stop");
    } else {
        u.append("start");
    }
    u.append("?api-version=2024-02-01");
    u
}

/// One PATCH of a database cluster's pause flag.
#[derive(Debug)]
pub struct ClusterPatch {
    pub name: String,
    pub url: String,
    pub paused: bool,
}

impl Atlas {
    /// The requests of a run, one per cluster in declaration order; none
    /// when the backend is not ready.
    pub fn cluster_requests(&self, order: bool) -> (r: Vec<ClusterPatch>)
        ensures
            self.gate_spec() != Gate::Ready ==> r@.len() == 0,
            self.gate_spec() == Gate::Ready ==> {
                let cl = self.clusters.unwrap()@;
                &&& r@.len() == cl.len()
                &&& forall|i: int|
                    0 <= i < cl.len() ==> {
                        &&& (#[trigger] r@[i]).name@ == cl[i].name@
                        &&& r@[i].url@ == atlas_cluster_url_spec(cl[i])
                        &&& r@[i].paused == order
                    }
            },
    {
        let mut r: Vec<ClusterPatch> = Vec::new();
        if !self.has_configuration() {
            return r;
        }
        let clusters = self.clusters.as_ref().unwrap();
        let mut i: usize = 0;
        while i < clusters.len()
            invariant
                0 <= i <= clusters@.len(),
                self.clusters == Some(*clusters),
                r@.len() == i,
                forall|j: int|
                    0 <= j < i ==> {
                        &&& (#[trigger] r@[j]).name@ == clusters@[j].name@
                        &&& r@[j].url@ == atlas_cluster_url_spec(clusters@[j])
                        &&& r@[j].paused == order
                    },
            decreases clusters@.len() - i,
        {
            let c = &clusters[i];
            r.push(ClusterPatch { name: c.name.clone(), url: atlas_cluster_url(c), paused: order });
            i = i + 1;
        }
        r
    }
}

/// A client-credentials token exchange: where to post it and its form fields.
#[derive(Debug)]
pub struct TokenRequest {
    pub url: String,
    pub form: Vec<(String, String)>,
}

pub open spec fn token_url_spec(tenant: Seq<char>) -> Seq<char> {
    "https://login.microsoftonline.com/"@ + tenant + "/oauth2/v2.0/token"@
}

/// The scope of a token for the container-cluster control plane.
pub open spec fn management_scope() -> Seq<char> {
    "https://management.azure.com/.default"@
}

/// The scope of a token for the job service.
pub open spec fn databricks_scope() -> Seq<char> {
    "2ff814a6-3304-4ab8-85cb-cd0e6f879c1d/.default"@
}

pub open spec fn form_matches(form: Seq<(String, String)>, az: Azure, scope: Seq<char>) -> bool {
    &&& form.len() == 4
    &&& form[0].0@ == "grant_type"@ && form[0].1@ == "client_credentials"@
    &&& form[1].0@ == "client_id"@ && form[1].1@ == az.client_id.unwrap()@
    &&& form[2].0@ == "client_secret"@ && form[2].1@ == az.client_secret.unwrap()@
    &&& form[3].0@ == "scope"@ && form[3].1@ == scope
}

pub open spec fn token_request_matches(t: TokenRequest, az: Azure, scope: Seq<char>) -> bool {
    &&& t.url@ == token_url_spec(az.tenant_id.unwrap()@)
    &&& form_matches(t.form@, az, scope)
}

/// One start or stop of a container cluster, with its authorization header.
#[derive(Debug)]
pub struct AksCall {
    pub name: String,
    pub url: String,
    pub authorization: String,
}

fn bearer(token: &String) -> (r: String)
    ensures
        r@ == "Bearer "@ + token@,
{
    let mut h = String::from_str("Bearer ");
    h.append(token.as_str());
    h
}

impl Azure {
    fn token_request(&self, scope: &str) -> (r: TokenRequest)
        requires
            self.basic_gate_spec() == Gate::Ready,
        ensures
            token_request_matches(r, *self, scope@),
    {
        let tenant = self.tenant_id.as_ref().unwrap();
        let mut url = String::from_str("https://login.microsoftonline.com/");
        url.append(tenant.as_str());
        url.append("/oauth2/v2.0/token");
        let mut form: Vec<(String, String)> = Vec::new();
        form.push((String::from_str("grant_type"), String::from_str("client_credentials")));
        form.push((String::from_str("client_id"), self.client_id.as_ref().unwrap().clone()));
        form.push(
            (String::from_str("client_secret"), self.client_secret.as_ref().unwrap().clone()),
        );
        form.push((String::from_str("scope"), String::from_str(scope)));
        TokenRequest { url, form }
    }

    /// The token exchange of the container-cluster backend; none when that
    /// backend is not ready, so that nothing is sent.
    pub fn aks_token_request(&self) -> (r: Option<TokenRequest>)
        ensures
            r.is_some() == self.aks_ready(),
            r matches Some(t) ==> token_request_matches(t, *self, management_scope()),
    {
        if self.has_basic_configuration() && self.has_aks_configuration() {
            Some(self.token_request("https://management.azure.com/.default"))
        } else {
            None
        }
    }

    /// The token exchange of the scheduled-job backend; none when that
    /// backend is not ready.
    pub fn databricks_token_request(&self) -> (r: Option<TokenRequest>)
        ensures
            r.is_some() == self.databricks_ready(),
            r matches Some(t) ==> token_request_matches(t, *self, databricks_scope()),
    {
        if self.has_basic_configuration() && self.has_databricks_configuration() {
            Some(self.token_request("2ff814a6-3304-4ab8-85cb-cd0e6f879c1d/.default"))
        } else {
            None
        }
    }

    /// The start or stop requests of a run, one per cluster in declaration
    /// order. None without a ready backend or without a token: a failed token
    /// exchange leaves every cluster untouched.
    pub fn aks_requests(&self, order: bool, token: &Option<String>) -> (r: Vec<AksCall>)
        ensures
            !(self.aks_ready() && token.is_some()) ==> r@.len() == 0,
            self.aks_ready() && token.is_some() ==> {
                let cl = self.aks.unwrap()@;
                &&& r@.len() == cl.len()
                &&& forall|i: int|
                    0 <= i < cl.len() ==> {
                        &&& (#[trigger] r@[i]).name@ == cl[i].resource_name@
                        &&& r@[i].url@ == aks_action_url_spec(cl[i], order)
                        &&& r@[i].authorization@ == "Bearer "@ + token.unwrap()@
                    }
            },
    {
        let mut r: Vec<AksCall> = Vec::new();
        if !(self.has_basic_configuration() && self.has_aks_configuration()) {
            return r;
        }
        let t = match token {
            Some(t) => t,
            None => {
                return r;
            },
        };
        let clusters = self.aks.as_ref().unwrap();
        let mut i: usize = 0;
        while i < clusters.len()
            invariant
                0 <= i <= clusters@.len(),
                self.aks == Some(*clusters),
                *token == Some(*t),
                r@.len() == i,
                forall|j: int|
                    0 <= j < i ==> {
                        &&& (#[trigger] r@[j]).name@ == clusters@[j].resource_name@
                        &&& r@[j].url@ == aks_action_url_spec(clusters@[j], order)
                        &&& r@[j].authorization@ == "Bearer "@ + t@
                    },
            decreases clusters@.len() - i,
        {
            let a = &clusters[i];
            r.push(
                AksCall {
                    name: a.resource_name.clone(),
                    url: aks_action_url(a, order),
                    authorization: bearer(t),
                },
            );
            i = i + 1;
        }
        r
    }
}

/// The endpoints of one job service and the authorization header to use there.
#[derive(Debug)]
pub struct JobServiceCall {
    /// Position of the service in the configured list.
    pub index: usize,
    pub list_url: String,
    pub update_url: String,
    pub authorization: String,
}

/// What a run does first at one job service: fetch its live job list, or
/// record a failure because its URL cannot be read (the run goes on with the
/// next service).
#[derive(Debug)]
pub enum ServiceStep {
    Fetch(JobServiceCall),
    BadUrl(usize),
}

impl Azure {
    /// The first step at each job service, in declaration order. None without
    /// a ready backend or without a token: a failed token exchange leaves every
    /// service untouched.
    pub fn databricks_steps(&self, token: &Option<String>) -> (r: Vec<ServiceStep>)
        ensures
            !(self.databricks_ready() && token.is_some()) ==> r@.len() == 0,
            self.databricks_ready() && token.is_some() ==> {
                let sv = self.databricks.unwrap()@;
                &&& r@.len() == sv.len()
                &&& forall|i: int|
                    0 <= i < sv.len() ==> match #[trigger] r@[i] {
                        ServiceStep::Fetch(c) => {
                            &&& c.index == i
                            &&& joined_url(sv[i].url@, list_path()) == Some(c.list_url@)
                            &&& joined_url(sv[i].url@, update_path()) == Some(c.update_url@)
                            &&& c.authorization@ == "Bearer "@ + token.unwrap()@
                        },
                        ServiceStep::BadUrl(j) => {
                            &&& j == i
                            &&& (joined_url(sv[i].url@, list_path()).is_none() || joined_url(
                                sv[i].url@,
                                update_path(),
                            ).is_none())
                        },
                    }
            },
    {
        let mut r: Vec<ServiceStep> = Vec::new();
        if !(self.has_basic_configuration() && self.has_databricks_configuration()) {
            return r;
        }
        let t = match token {
            Some(t) => t,
            None => {
                return r;
            },
        };
        let services = self.databricks.as_ref().unwrap();
        let mut i: usize = 0;
        while i < services.len()
            invariant
                0 <= i <= services@.len(),
                self.databricks == Some(*services),
                *token == Some(*t),
                r@.len() == i,
                forall|j: int|
                    0 <= j < i ==> match #[trigger] r@[j] {
                        ServiceStep::Fetch(c) => {
                            &&& c.index == j
                            &&& joined_url(services@[j].url@, list_path()) == Some(c.list_url@)
                            &&& joined_url(services@[j].url@, update_path()) == Some(c.update_url@)
                            &&& c.authorization@ == "Bearer "@ + t@
                        },
                        ServiceStep::BadUrl(q) => {
                            &&& q == j
                            &&& (joined_url(services@[j].url@, list_path()).is_none()
                                || joined_url(services@[j].url@, update_path()).is_none())
                        },
                    },
            decreases services@.len() - i,
        {
            let service = &services[i];
            let step = match (service.jobs_list_url(), service.jobs_update_url()) {
                (Some(list_url), Some(update_url)) => ServiceStep::Fetch(
                    JobServiceCall { index: i, list_url, update_url, authorization: bearer(t) },
                ),
                _ => ServiceStep::BadUrl(i),
            };
            r.push(step);
            i = i + 1;
        }
        r
    }
}

/// The replica count of a deployment: none when paused, one when resumed.
pub open spec fn replicas_spec(order: bool) -> i32 {
    if order {
        0
    } else {
        1
    }
}

pub fn replicas_for(order: bool) -> (r: i32)
    ensures
        r == replicas_spec(order),
{
    if order {
        0
    } else {
        1
    }
}

/// Every (namespace, deployment) pair, project by project, in declaration
/// order.
pub open spec fn scale_targets(ps: Seq<KubernetesProject>) -> Seq<(Seq<char>, Seq<char>)>
    decreases ps.len(),
{
    if ps.len() == 0 {
        Seq::empty()
    } else {
        scale_targets(ps.drop_last()) + ps.last().deployments@.map_values(
            |d: String| (ps.last().namespace@, d@),
        )
    }
}

/// One replica-count patch of a deployment.
#[derive(Debug)]
pub struct ScaleRequest {
    pub namespace: String,
    pub deployment: String,
    pub replicas: i32,
}

pub open spec fn scale_pairs(r: Seq<ScaleRequest>) -> Seq<(Seq<char>, Seq<char>)> {
    r.map_values(|q: ScaleRequest| (q.namespace@, q.deployment@))
}

impl Kubernetes {
    /// The patches of a run, one per deployment; none when no project is
    /// configured.
    pub fn scale_requests(&self, order: bool) -> (r: Vec<ScaleRequest>)
        ensures
            self.gate_spec() != Gate::Ready ==> r@.len() == 0,
            self.gate_spec() == Gate::Ready ==> scale_pairs(r@) == scale_targets(
                self.projects.unwrap()@,
            ),
            forall|k: int| 0 <= k < r@.len() ==> (#[trigger] r@[k]).replicas == replicas_spec(order),
    {
        let mut r: Vec<ScaleRequest> = Vec::new();
        if !self.has_configuration() {
            return r;
        }
        let projects = self.projects.as_ref().unwrap();
        let replicas = replicas_for(order);
        let mut i: usize = 0;
        while i < projects.len()
            invariant
                0 <= i <= projects@.len(),
                self.projects == Some(*projects),
                replicas == replicas_spec(order),
                scale_pairs(r@) == scale_targets(projects@.take(i as int)),
                forall|k: int| 0 <= k < r@.len() ==> (#[trigger] r@[k]).replicas == replicas,
            decreases projects@.len() - i,
        {
            let p = &projects[i];
            let ghost before = scale_pairs(r@);
            let ghost f = |d: String| (p.namespace@, d@);
            let mut j: usize = 0;
            while j < p.deployments.len()
                invariant
                    0 <= j <= p.deployments@.len(),
                    replicas == replicas_spec(order),
                    f == (|d: String| (p.namespace@, d@)),
                    scale_pairs(r@) == before + p.deployments@.take(j as int).map_values(f),
                    forall|k: int| 0 <= k < r@.len() ==> (#[trigger] r@[k]).replicas == replicas,
                decreases p.deployments@.len() - j,
            {
                let ghost r0 = r@;
                r.push(
                    ScaleRequest {
                        namespace: p.namespace.clone(),
                        deployment: p.deployments[j].clone(),
                        replicas,
                    },
                );
                proof {
                    assert(scale_pairs(r@) == scale_pairs(r0).push(f(p.deployments@[j as int])));
                    assert(p.deployments@.take(j + 1).map_values(f) == p.deployments@.take(
                        j as int,
                    ).map_values(f).push(f(p.deployments@[j as int])));
                }
                j = j + 1;
            }
            proof {
                assert(p.deployments@.take(j as int) == p.deployments@);
                assert(projects@.take(i + 1).drop_last() == projects@.take(i as int));
                assert(projects@.take(i + 1).last() == *p);
            }
            i = i + 1;
        }
        proof {
            assert(projects@.take(i as int) == projects@);
        }
        r
    }
}

} // verus!
