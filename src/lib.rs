//! Pauses and resumes cloud resources: managed database clusters, managed
//! container clusters, scheduled jobs and cluster deployments.
//!
//! The library holds the decisions: when a backend is configured, which
//! requests a run sends, how each reply is classified, how scheduled jobs are
//! reconciled against the remote list, and how outcomes are aggregated. The
//! network exchanges themselves are made by the caller.

pub mod jobs;
pub mod laws;
pub mod models;
pub mod requests;
pub mod response;

pub use models::{
    default_all_jobs, default_jobs, Atlas, AtlasCluster, Azure, Config, CredentialField,
    Databricks, Gate, Kubernetes, KubernetesProject, AKS,
};
pub use response::{
    aks_already_stopped, any_failed, atlas_already_paused, classify_aks, classify_atlas,
    classify_plain, diagnostic_text, is_success, summary, Outcome, Reply,
};
pub use jobs::{reconcile, JobDecision, JobPlan, JobSchedule, JobUpdate, LiveJob, Reconciliation};
pub use laws::{
    lemma_aggregate_is_or, lemma_all_jobs_acts_on_scheduled, lemma_atlas_credentials_required,
    lemma_azure_credentials_required, lemma_already_paused_is_success,
    lemma_already_stopped_is_success, lemma_declared_name_accounted_once,
    lemma_failure_text_never_blank, lemma_unscheduled_never_updated,
};
pub use requests::{
    aks_action_url, atlas_cluster_url, replicas_for, AksCall, ClusterPatch, JobServiceCall,
    ScaleRequest, ServiceStep, TokenRequest,
};
