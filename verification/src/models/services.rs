//! The service records.

use vstd::prelude::*;
use crate::models::envs::EnvironmentStatus;

verus! {

/// One sidecar service of an organization.
#[derive(Debug, Clone, PartialEq, Eq)]
pub struct Service {
    pub id: String,
    pub name: String,
    pub description: String,
    pub image_id: String,
    pub image_tag: String,
    pub command: String,
    pub args: Vec<String>,
    pub privileged: bool,
    pub volume_mounts: Vec<ServiceVolumeMount>,
    pub env_vars: Vec<ServiceEnvVar>,
}

/// One volume a service mounts.
#[derive(Debug, Clone, PartialEq, Eq)]
pub struct ServiceVolumeMount {
    pub name: String,
    pub service_id: String,
    pub path: String,
    pub size_gb: i32,
}

/// One environment variable a service sets.
#[derive(Debug, Clone, PartialEq, Eq)]
pub struct ServiceEnvVar {
    pub key: String,
    pub value: String,
}

/// The latest snapshot of one service's container.
#[derive(Debug, Clone, PartialEq, Eq)]
pub struct ServiceStat {
    pub name: String,
    pub status: EnvironmentStatus,
    pub reason: String,
}

} // verus!
