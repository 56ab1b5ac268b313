use vstd::prelude::*;

verus! {

/// One managed database cluster, addressed by its project (group) and name.
#[derive(Clone, Debug)]
pub struct AtlasCluster {
    pub name: String,
    pub group_id: String,
}

/// Settings of the database-cluster backend.
#[derive(Clone, Debug)]
pub struct Atlas {
    pub public_key: Option<String>,
    pub private_key: Option<String>,
    pub clusters: Option<Vec<AtlasCluster>>,
}

/// One managed container cluster.
#[derive(Clone, Debug)]
pub struct AKS {
    pub subscription_id: String,
    pub resource_group_name: String,
    pub resource_name: String,
}

/// One scheduled-job service and the jobs to manage in it.
#[derive(Clone, Debug)]
pub struct Databricks {
    pub url: String,
    pub all_jobs: bool,
    pub jobs: Vec<String>,
    pub delete: Option<Vec<String>>,
}

/// Settings shared by the container-cluster and the scheduled-job backends.
#[derive(Clone, Debug)]
pub struct Azure {
    pub tenant_id: Option<String>,
    pub client_id: Option<String>,
    pub client_secret: Option<String>,
    pub aks: Option<Vec<AKS>>,
    pub databricks: Option<Vec<Databricks>>,
}

/// The deployments of one namespace.
#[derive(Clone, Debug)]
pub struct KubernetesProject {
    pub namespace: String,
    pub deployments: Vec<String>,
}

/// Settings of the orchestration-cluster backend.
#[derive(Clone, Debug)]
pub struct Kubernetes {
    pub kubeconfig: Option<String>,
    pub projects: Option<Vec<KubernetesProject>>,
}

/// The whole configuration.
#[derive(Clone, Debug)]
pub struct Config {
    pub atlas: Atlas,
    pub azure: Azure,
    pub kubernetes: Kubernetes,
}

/// A credential field that a backend requires.
#[derive(Clone, Copy, Debug, PartialEq, Eq, Structural)]
pub enum CredentialField {
    PublicKey,
    PrivateKey,
    TenantId,
    ClientId,
    ClientSecret,
}

/// The verdict of a configuration gate: ready to run, not configured (a
/// credential or the target list is absent), or misconfigured (a required
/// credential is present but empty).
#[derive(Clone, Copy, Debug, PartialEq, Eq, Structural)]
pub enum Gate {
    Ready,
    Absent,
    Invalid(CredentialField),
}

/// A field that is present and holds the empty string.
pub open spec fn is_empty_field(f: Option<String>) -> bool {
    f matches Some(s) && s@.len() == 0
}

fn field_is_empty(f: &Option<String>) -> (r: bool)
    ensures
        r == is_empty_field(*f),
{
    match f {
        Some(s) => s.as_str().is_empty(),
        None => false,
    }
}

/// Default of `Databricks::all_jobs`: only the named jobs are managed.
pub fn default_all_jobs() -> (r: bool)
    ensures
        r == false,
{
    false
}

/// Default of `Databricks::jobs`: no job is named.
pub fn default_jobs() -> (r: Vec<String>)
    ensures
        r@.len() == 0,
{
    Vec::new()
}

impl Atlas {
    pub fn new(
        public_key: Option<String>,
        private_key: Option<String>,
        clusters: Option<Vec<AtlasCluster>>,
    ) -> (r: Atlas)
        ensures
            r.public_key == public_key,
            r.private_key == private_key,
            r.clusters == clusters,
    {
        Atlas { public_key, private_key, clusters }
    }

    /// Both keys must be present, the cluster list must be present, and
    /// neither key may be empty.
    pub open spec fn gate_spec(&self) -> Gate {
        if self.public_key.is_none() || self.private_key.is_none() {
            Gate::Absent
        } else if self.clusters.is_none() {
            Gate::Absent
        } else if is_empty_field(self.public_key) {
            Gate::Invalid(CredentialField::PublicKey)
        } else if is_empty_field(self.private_key) {
            Gate::Invalid(CredentialField::PrivateKey)
        } else {
            Gate::Ready
        }
    }

    pub fn gate(&self) -> (r: Gate)
        ensures
            r == self.gate_spec(),
    {
        if self.public_key.is_none() || self.private_key.is_none() {
            Gate::Absent
        } else if self.clusters.is_none() {
            Gate::Absent
        } else if field_is_empty(&self.public_key) {
            Gate::Invalid(CredentialField::PublicKey)
        } else if field_is_empty(&self.private_key) {
            Gate::Invalid(CredentialField::PrivateKey)
        } else {
            Gate::Ready
        }
    }

    pub fn has_configuration(&self) -> (r: bool)
        ensures
            r == (self.gate_spec() == Gate::Ready),
    {
        match self.gate() {
            Gate::Ready => true,
            _ => false,
        }
    }
}

impl Azure {
    pub fn new(
        tenant_id: Option<String>,
        client_id: Option<String>,
        client_secret: Option<String>,
        aks: Option<Vec<AKS>>,
        databricks: Option<Vec<Databricks>>,
    ) -> (r: Azure)
        ensures
            r.tenant_id == tenant_id,
            r.client_id == client_id,
            r.client_secret == client_secret,
            r.aks == aks,
            r.databricks == databricks,
    {
        Azure { tenant_id, client_id, client_secret, aks, databricks }
    }

    /// The three credentials must be present and none may be empty. The
    /// target lists are gated separately, per backend.
    pub open spec fn basic_gate_spec(&self) -> Gate {
        if self.tenant_id.is_none() || self.client_id.is_none() || self.client_secret.is_none() {
            Gate::Absent
        } else if is_empty_field(self.tenant_id) {
            Gate::Invalid(CredentialField::TenantId)
        } else if is_empty_field(self.client_id) {
            Gate::Invalid(CredentialField::ClientId)
        } else if is_empty_field(self.client_secret) {
            Gate::Invalid(CredentialField::ClientSecret)
        } else {
            Gate::Ready
        }
    }

    pub fn basic_gate(&self) -> (r: Gate)
        ensures
            r == self.basic_gate_spec(),
    {
        if self.tenant_id.is_none() || self.client_id.is_none() || self.client_secret.is_none() {
            Gate::Absent
        } else if field_is_empty(&self.tenant_id) {
            Gate::Invalid(CredentialField::TenantId)
        } else if field_is_empty(&self.client_id) {
            Gate::Invalid(CredentialField::ClientId)
        } else if field_is_empty(&self.client_secret) {
            Gate::Invalid(CredentialField::ClientSecret)
        } else {
            Gate::Ready
        }
    }

    pub fn has_basic_configuration(&self) -> (r: bool)
        ensures
            r == (self.basic_gate_spec() == Gate::Ready),
    {
        match self.basic_gate() {
            Gate::Ready => true,
            _ => false,
        }
    }

    pub fn has_aks_configuration(&self) -> (r: bool)
        ensures
            r == self.aks.is_some(),
    {
        self.aks.is_some()
    }

    pub fn has_databricks_configuration(&self) -> (r: bool)
        ensures
            r == self.databricks.is_some(),
    {
        self.databricks.is_some()
    }

    /// The container-cluster backend runs when the credentials are usable and
    /// a cluster list is present.
    pub open spec fn aks_ready(&self) -> bool {
        self.basic_gate_spec() == Gate::Ready && self.aks.is_some()
    }

    /// The scheduled-job backend runs when the credentials are usable and a
    /// service list is present.
    pub open spec fn databricks_ready(&self) -> bool {
        self.basic_gate_spec() == Gate::Ready && self.databricks.is_some()
    }
}

impl Kubernetes {
    pub fn new(kubeconfig: Option<String>, projects: Option<Vec<KubernetesProject>>) -> (r:
        Kubernetes)
        ensures
            r.kubeconfig == kubeconfig,
            r.projects == projects,
    {
        Kubernetes { kubeconfig, projects }
    }

    /// This backend needs no credential: the project list alone enables it.
    pub open spec fn gate_spec(&self) -> Gate {
        if self.projects.is_none() {
            Gate::Absent
        } else {
            Gate::Ready
        }
    }

    pub fn has_configuration(&self) -> (r: bool)
        ensures
            r == (self.gate_spec() == Gate::Ready),
    {
        self.projects.is_some()
    }
}

impl Default for Config {
    /// Every setting absent: no backend is configured.
    fn default() -> (r: Config)
        ensures
            r.atlas.public_key.is_none(),
            r.atlas.private_key.is_none(),
            r.atlas.clusters.is_none(),
            r.azure.tenant_id.is_none(),
            r.azure.client_id.is_none(),
            r.azure.client_secret.is_none(),
            r.azure.aks.is_none(),
            r.azure.databricks.is_none(),
            r.kubernetes.kubeconfig.is_none(),
            r.kubernetes.projects.is_none(),
    {
        let atlas = Atlas { public_key: None, private_key: None, clusters: None };
        let azure = Azure {
            tenant_id: None,
            client_id: None,
            client_secret: None,
            aks: None,
            databricks: None,
        };
        let kubernetes = Kubernetes { kubeconfig: None, projects: None };
        Config { atlas, azure, kubernetes }
    }
}

} // verus!
