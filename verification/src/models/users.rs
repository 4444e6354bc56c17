//! The user records.

use vstd::prelude::*;
use crate::util::str_eq;

verus! {

/// One account on the site.  Timestamps are kept verbatim as the text the
/// service sent.
#[derive(Debug, Clone, PartialEq, Eq)]
pub struct User {
    pub id: String,
    pub name: String,
    pub username: String,
    pub email: String,
    pub dotfiles_git_uri: String,
    pub roles: Vec<SiteRole>,
    pub avatar_hash: String,
    pub key_regenerated_at: String,
    pub created_at: String,
    pub updated_at: String,
}

/// A site-wide role, as the service names it on the wire.
#[derive(Debug, Clone, Copy, PartialEq, Eq, Structural)]
pub enum SiteRole {
    Admin,
    Auditor,
    Manager,
    Member,
}

/// The wire name of a site role.
pub open spec fn site_role_name(r: SiteRole) -> Seq<char> {
    match r {
        SiteRole::Admin => "site-admin"@,
        SiteRole::Auditor => "site-auditor"@,
        SiteRole::Manager => "site-manager"@,
        SiteRole::Member => "site-member"@,
    }
}

/// The role a wire name denotes, if any.
pub open spec fn parse_site_role(s: Seq<char>) -> Option<SiteRole> {
    if s == "site-admin"@ {
        Some(SiteRole::Admin)
    } else if s == "site-auditor"@ {
        Some(SiteRole::Auditor)
    } else if s == "site-manager"@ {
        Some(SiteRole::Manager)
    } else if s == "site-member"@ {
        Some(SiteRole::Member)
    } else {
        None
    }
}

impl SiteRole {
    /// Reads a role off its wire name: exactly the four names are roles.
    pub fn from_name(s: &str) -> (r: Option<SiteRole>)
        ensures
            r == parse_site_role(s@),
    {
        if str_eq(s, "site-admin") {
            Some(SiteRole::Admin)
        } else if str_eq(s, "site-auditor") {
            Some(SiteRole::Auditor)
        } else if str_eq(s, "site-manager") {
            Some(SiteRole::Manager)
        } else if str_eq(s, "site-member") {
            Some(SiteRole::Member)
        } else {
            None
        }
    }

    /// The wire name of this role; `from_name` reads it back.
    pub fn name(&self) -> (s: &'static str)
        ensures
            s@ == site_role_name(*self),
            parse_site_role(s@) == Some(*self),
    {
        proof {
            reveal_strlit("site-admin");
            reveal_strlit("site-auditor");
            reveal_strlit("site-manager");
            reveal_strlit("site-member");
            assert("site-admin"@.len() == 10);
            assert("site-auditor"@.len() == 12);
            assert("site-manager"@.len() == 12);
            assert("site-member"@.len() == 11);
            assert("site-auditor"@[5] == 'a' && "site-manager"@[5] == 'm');
        }
        match self {
            SiteRole::Admin => "site-admin",
            SiteRole::Auditor => "site-auditor",
            SiteRole::Manager => "site-manager",
            SiteRole::Member => "site-member",
        }
    }
}

/// The four wire names denote four different roles, so naming a role and
/// parsing the name round-trips.
pub proof fn lemma_site_role_names_distinct()
    ensures
        forall|r: SiteRole| parse_site_role(site_role_name(r)) == Some(r),
{
    reveal_strlit("site-admin");
    reveal_strlit("site-auditor");
    reveal_strlit("site-manager");
    reveal_strlit("site-member");
    assert forall|r: SiteRole| parse_site_role(site_role_name(r)) == Some(r) by {
        assert("site-admin"@.len() == 10);
        assert("site-auditor"@.len() == 12);
        assert("site-manager"@.len() == 12);
        assert("site-member"@.len() == 11);
        assert("site-auditor"@[5] == 'a' && "site-manager"@[5] == 'm');
    }
}

} // verus!
