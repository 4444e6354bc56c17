//! The environment records.

use vstd::prelude::*;
use crate::models::duration::Duration;
use crate::models::services::ServiceStat;
use crate::util::str_eq;

verus! {

/// One environment.  Timestamps, and the fractional core count, are kept
/// verbatim as the text the service sent; the auto-off threshold is a
/// millisecond duration.
#[derive(Debug, Clone, PartialEq, Eq)]
pub struct Environment {
    pub id: String,
    pub name: String,
    pub username: String,
    pub image_id: String,
    pub image_tag: String,
    pub image_digest: String,
    pub organization_id: String,
    pub user_id: String,
    pub last_built_at: String,
    pub cpu_cores: String,
    pub memory_gb: i64,
    pub disk_gb: i64,
    pub gpus: i64,
    pub latest_stat: EnvironmentStat,
    pub updating: bool,
    pub rebuild_messages: Vec<RebuildMessage>,
    pub last_opened_at: String,
    pub last_connection_at: String,
    pub auto_off_threshold: Duration,
    pub service_ids: Vec<String>,
    pub created_at: String,
    pub updated_at: String,
}

/// A note the service attaches when an environment needs a rebuild.
#[derive(Debug, Clone, PartialEq, Eq)]
pub struct RebuildMessage {
    pub text: String,
    pub required: bool,
}

/// The latest snapshot of an environment's containers.  Fractional usage
/// numbers are kept verbatim as the text the service sent.
#[derive(Debug, Clone, PartialEq, Eq)]
pub struct EnvironmentStat {
    pub time: String,
    pub last_online: String,
    pub container_status: EnvironmentStatus,
    pub stat_error: String,
    pub cpu_usage: String,
    pub memory_total: i64,
    pub memory_usage: String,
    pub disk_total: i64,
    pub disk_used: i64,
    pub service_stat: Vec<ServiceStat>,
}

/// The lifecycle state of an environment's container, as the service
/// names it on the wire.
#[derive(Debug, Clone, Copy, PartialEq, Eq, Structural)]
pub enum EnvironmentStatus {
    CREATING,
    OFF,
    ON,
    FAILED,
    UNKNOWN,
}

/// The wire name of a container status.
pub open spec fn environment_status_name(s: EnvironmentStatus) -> Seq<char> {
    match s {
        EnvironmentStatus::CREATING => "CREATING"@,
        EnvironmentStatus::OFF => "OFF"@,
        EnvironmentStatus::ON => "ON"@,
        EnvironmentStatus::FAILED => "FAILED"@,
        EnvironmentStatus::UNKNOWN => "UNKNOWN"@,
    }
}

/// The status a wire name denotes, if any.
pub open spec fn parse_environment_status(s: Seq<char>) -> Option<EnvironmentStatus> {
    if s == "CREATING"@ {
        Some(EnvironmentStatus::CREATING)
    } else if s == "OFF"@ {
        Some(EnvironmentStatus::OFF)
    } else if s == "ON"@ {
        Some(EnvironmentStatus::ON)
    } else if s == "FAILED"@ {
        Some(EnvironmentStatus::FAILED)
    } else if s == "UNKNOWN"@ {
        Some(EnvironmentStatus::UNKNOWN)
    } else {
        None
    }
}

impl EnvironmentStatus {
    /// Reads a status off its wire name: exactly the five names are
    /// statuses.
    pub fn from_name(s: &str) -> (r: Option<EnvironmentStatus>)
        ensures
            r == parse_environment_status(s@),
    {
        if str_eq(s, "CREATING") {
            Some(EnvironmentStatus::CREATING)
        } else if str_eq(s, "OFF") {
            Some(EnvironmentStatus::OFF)
        } else if str_eq(s, "ON") {
            Some(EnvironmentStatus::ON)
        } else if str_eq(s, "FAILED") {
            Some(EnvironmentStatus::FAILED)
        } else if str_eq(s, "UNKNOWN") {
            Some(EnvironmentStatus::UNKNOWN)
        } else {
            None
        }
    }

    /// The wire name of this status; `from_name` reads it back.
    pub fn name(&self) -> (s: &'static str)
        ensures
            s@ == environment_status_name(*self),
            parse_environment_status(s@) == Some(*self),
    {
        proof {
            reveal_strlit("CREATING");
            reveal_strlit("OFF");
            reveal_strlit("ON");
            reveal_strlit("FAILED");
            reveal_strlit("UNKNOWN");
            assert("CREATING"@.len() == 8);
            assert("OFF"@.len() == 3);
            assert("ON"@.len() == 2);
            assert("FAILED"@.len() == 6);
            assert("UNKNOWN"@.len() == 7);
        }
        match self {
            EnvironmentStatus::CREATING => "CREATING",
            EnvironmentStatus::OFF => "OFF",
            EnvironmentStatus::ON => "ON",
            EnvironmentStatus::FAILED => "FAILED",
            EnvironmentStatus::UNKNOWN => "UNKNOWN",
        }
    }
}

/// The five wire names denote five different statuses, so naming a status
/// and parsing the name round-trips.
pub proof fn lemma_environment_status_names_distinct()
    ensures
        forall|s: EnvironmentStatus|
            parse_environment_status(environment_status_name(s)) == Some(s),
{
    reveal_strlit("CREATING");
    reveal_strlit("OFF");
    reveal_strlit("ON");
    reveal_strlit("FAILED");
    reveal_strlit("UNKNOWN");
    assert forall|s: EnvironmentStatus|
        parse_environment_status(environment_status_name(s)) == Some(s) by {
        assert("CREATING"@.len() == 8);
        assert("OFF"@.len() == 3);
        assert("ON"@.len() == 2);
        assert("FAILED"@.len() == 6);
        assert("UNKNOWN"@.len() == 7);
    }
}

} // verus!
