//! The image, registry and image-tag records.

use vstd::prelude::*;
use vstd::string::StringExecFns;
use crate::models::envs::Environment;

verus! {

/// The identifier of an image.
#[derive(Debug, Clone, PartialEq, Eq)]
pub struct ImageId(pub String);

impl ImageId {
    /// The identifier's text.
    pub fn as_str(&self) -> (s: &str)
        ensures
            s@ == self.0@,
    {
        self.0.as_str()
    }
}

impl From<String> for ImageId {
    fn from(i: String) -> (r: ImageId) {
        ImageId(i)
    }
}

impl vstd::std_specs::convert::FromSpecImpl<String> for ImageId {
    open spec fn obeys_from_spec() -> bool {
        true
    }

    open spec fn from_spec(i: String) -> ImageId {
        ImageId(i)
    }
}

/// One base image.  Timestamps are kept verbatim as the text the service
/// sent.  The environment and user lists ride along only when the query
/// opted in to them.
#[derive(Debug, Clone, PartialEq, Eq)]
pub struct Image {
    pub id: ImageId,
    pub organization_id: String,
    pub repository: String,
    pub description: String,
    pub url: String,
    pub default_cpu_cores: i64,
    pub default_memory_gb: i64,
    pub default_disk_gb: i64,
    pub deprecated: bool,
    pub registry: Registry,
    pub default_tag: ImageTag,
    pub created_at: String,
    pub updated_at: String,
    pub environments: Option<Vec<Environment>>,
    pub user_ids: Option<Vec<String>>,
}

/// One image registry of an organization.
#[derive(Debug, Clone, PartialEq, Eq)]
pub struct Registry {
    pub id: String,
    pub organization_id: String,
    pub friendly_name: String,
    pub registry: String,
    pub created_at: String,
    pub updated_at: String,
}

/// One tag of an image.
#[derive(Debug, Clone, PartialEq, Eq)]
pub struct ImageTag {
    pub image_id: String,
    pub tag: String,
    pub latest_hash: String,
    pub hash_last_updated_at: String,
    pub environments: Vec<Environment>,
    pub os_release: OsRelease,
    pub created_at: String,
    pub updated_at: String,
}

/// The operating-system release an image is built on.
#[derive(Debug, Clone, PartialEq, Eq)]
pub struct OsRelease {
    pub id: String,
    pub pretty_name: String,
    pub home_url: String,
}

} // verus!
