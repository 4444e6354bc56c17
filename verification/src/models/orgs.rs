//! The organization records.

use vstd::prelude::*;
use crate::util::str_eq;
use crate::models::users::User;

verus! {

/// One organization.  Timestamps are kept verbatim as the text the service
/// sent.
#[derive(Debug, Clone, PartialEq, Eq)]
pub struct Organization {
    pub id: String,
    pub name: String,
    pub description: String,
    pub default: bool,
    pub members: Vec<OrgMember>,
    pub environment_count: i64,
    pub resource_namespace: String,
    pub auto_off_threshold: i64,
    pub cpu_provisioning_rate: i64,
    pub created_at: String,
    pub updated_at: String,
}

/// One membership: the member's user record, flattened into the same wire
/// object, plus the membership fields.
#[derive(Debug, Clone, PartialEq, Eq)]
pub struct OrgMember {
    pub user: User,
    pub organization_roles: Vec<OrgRole>,
    pub has_active_environments: bool,
    pub joined_at: String,
    pub roles_updated_at: String,
}

/// An organization-scoped role, as the service names it on the wire.
#[derive(Debug, Clone, Copy, PartialEq, Eq, Structural)]
pub enum OrgRole {
    Admin,
    Manager,
    RegistryManager,
    Member,
}

/// The wire name of an organization role.
pub open spec fn org_role_name(r: OrgRole) -> Seq<char> {
    match r {
        OrgRole::Admin => "organization-admin"@,
        OrgRole::Manager => "organization-manager"@,
        OrgRole::RegistryManager => "registry-manager"@,
        OrgRole::Member => "organization-member"@,
    }
}

/// The role a wire name denotes, if any.
pub open spec fn parse_org_role(s: Seq<char>) -> Option<OrgRole> {
    if s == "organization-admin"@ {
        Some(OrgRole::Admin)
    } else if s == "organization-manager"@ {
        Some(OrgRole::Manager)
    } else if s == "registry-manager"@ {
        Some(OrgRole::RegistryManager)
    } else if s == "organization-member"@ {
        Some(OrgRole::Member)
    } else {
        None
    }
}

impl OrgRole {
    /// Reads a role off its wire name: exactly the four names are roles.
    pub fn from_name(s: &str) -> (r: Option<OrgRole>)
        ensures
            r == parse_org_role(s@),
    {
        if str_eq(s, "organization-admin") {
            Some(OrgRole::Admin)
        } else if str_eq(s, "organization-manager") {
            Some(OrgRole::Manager)
        } else if str_eq(s, "registry-manager") {
            Some(OrgRole::RegistryManager)
        } else if str_eq(s, "organization-member") {
            Some(OrgRole::Member)
        } else {
            None
        }
    }

    /// The wire name of this role; `from_name` reads it back.
    pub fn name(&self) -> (s: &'static str)
        ensures
            s@ == org_role_name(*self),
            parse_org_role(s@) == Some(*self),
    {
        proof {
            reveal_strlit("organization-admin");
            reveal_strlit("organization-manager");
            reveal_strlit("registry-manager");
            reveal_strlit("organization-member");
            assert("organization-admin"@.len() == 18);
            assert("organization-manager"@.len() == 20);
            assert("registry-manager"@.len() == 16);
            assert("organization-member"@.len() == 19);
        }
        match self {
            OrgRole::Admin => "organization-admin",
            OrgRole::Manager => "organization-manager",
            OrgRole::RegistryManager => "registry-manager",
            OrgRole::Member => "organization-member",
        }
    }
}

/// The four wire names denote four different roles, so naming a role and
/// parsing the name round-trips.
pub proof fn lemma_org_role_names_distinct()
    ensures
        forall|r: OrgRole| parse_org_role(org_role_name(r)) == Some(r),
{
    reveal_strlit("organization-admin");
    reveal_strlit("organization-manager");
    reveal_strlit("registry-manager");
    reveal_strlit("organization-member");
    assert forall|r: OrgRole| parse_org_role(org_role_name(r)) == Some(r) by {
        assert("organization-admin"@.len() == 18);
        assert("organization-manager"@.len() == 20);
        assert("registry-manager"@.len() == 16);
        assert("organization-member"@.len() == 19);
    }
}

} // verus!
