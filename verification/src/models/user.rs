//! Users, OAuth identities and project memberships.

use vstd::prelude::*;
use crate::text::str_eq;
use crate::time::Timestamp;
use super::feature::ParseEnumError;
use super::ids::{MembershipId, ProjectId, UserId};

verus! {

/// A user account.
#[derive(Debug, Clone)]
pub struct User {
    pub id: UserId,
    pub email: String,
    pub email_verified_at: Option<Timestamp>,
    pub display_name: Option<String>,
    pub avatar_url: Option<String>,
    pub created_at: Timestamp,
    pub updated_at: Timestamp,
}

/// An OAuth identity linked to a user.
#[derive(Debug, Clone)]
pub struct OAuthIdentity {
    pub id: u128,
    pub user_id: UserId,
    pub provider: String,
    pub provider_user_id: String,
    pub provider_email: Option<String>,
    pub access_token: Option<String>,
    pub refresh_token: Option<String>,
    pub token_expires_at: Option<Timestamp>,
    pub created_at: Timestamp,
}

/// Input for creating a user.
#[derive(Debug, Clone)]
pub struct CreateUserInput {
    pub id: UserId,
    pub email: String,
    pub display_name: Option<String>,
    pub avatar_url: Option<String>,
}

/// Input for updating a user.
#[derive(Debug, Clone)]
pub struct UpdateUserInput {
    pub display_name: Option<String>,
    pub avatar_url: Option<String>,
    pub email_verified_at: Option<Timestamp>,
}

/// Input for creating an OAuth identity.
#[derive(Debug, Clone)]
pub struct CreateOAuthIdentityInput {
    pub id: u128,
    pub user_id: UserId,
    pub provider: String,
    pub provider_user_id: String,
    pub provider_email: Option<String>,
}

/// Project membership roles, from least to most privileged.
#[derive(Debug, Clone, Copy, PartialEq, Eq, PartialOrd, Ord, Structural)]
pub enum MembershipRole {
    /// Read-only access.
    Viewer,
    /// Can change features and versions.
    Member,
    /// Member permissions and management of non-owner members.
    Admin,
    /// Full access, including deletion and transfer.
    Owner,
}

impl MembershipRole {
    pub open spec fn text(self) -> Seq<char> {
        match self {
            MembershipRole::Viewer => "viewer"@,
            MembershipRole::Member => "member"@,
            MembershipRole::Admin => "admin"@,
            MembershipRole::Owner => "owner"@,
        }
    }

    pub open spec fn from_text(s: Seq<char>) -> Option<MembershipRole> {
        if s == "viewer"@ {
            Some(MembershipRole::Viewer)
        } else if s == "member"@ {
            Some(MembershipRole::Member)
        } else if s == "admin"@ {
            Some(MembershipRole::Admin)
        } else if s == "owner"@ {
            Some(MembershipRole::Owner)
        } else {
            None
        }
    }

    pub fn as_str(&self) -> (r: &'static str)
        ensures
            r@ == self.text(),
    {
        match self {
            MembershipRole::Viewer => "viewer",
            MembershipRole::Member => "member",
            MembershipRole::Admin => "admin",
            MembershipRole::Owner => "owner",
        }
    }

    /// Parses a role from its text; any other text is an error carrying it.
    pub fn from_str(s: &str) -> (r: Result<MembershipRole, ParseEnumError>)
        ensures
            match r {
                Ok(role) => MembershipRole::from_text(s@) == Some(role),
                Err(e) => MembershipRole::from_text(s@) is None && e.0@ == s@,
            },
    {
        if str_eq(s, "viewer") {
            Ok(MembershipRole::Viewer)
        } else if str_eq(s, "member") {
            Ok(MembershipRole::Member)
        } else if str_eq(s, "admin") {
            Ok(MembershipRole::Admin)
        } else if str_eq(s, "owner") {
            Ok(MembershipRole::Owner)
        } else {
            Err(ParseEnumError(s.to_string()))
        }
    }
}

/// Parsing the text of a role gives the role back, and only a role's own text
/// parses to it.
pub proof fn lemma_membership_role_text_roundtrip(role: MembershipRole, s: Seq<char>)
    ensures
        MembershipRole::from_text(role.text()) == Some(role),
        MembershipRole::from_text(s) == Some(role) ==> s == role.text(),
{
    reveal_strlit("viewer");
    reveal_strlit("member");
    reveal_strlit("admin");
    reveal_strlit("owner");
    assert("viewer"@[0] != "member"@[0]);
    assert("viewer"@.len() != "admin"@.len());
    assert("viewer"@.len() != "owner"@.len());
    assert("member"@.len() != "admin"@.len());
    assert("member"@.len() != "owner"@.len());
    assert("admin"@[0] != "owner"@[0]);
}

/// A user's membership in a project.
#[derive(Debug, Clone)]
pub struct ProjectMembership {
    pub id: MembershipId,
    pub project_id: ProjectId,
    pub user_id: UserId,
    pub role: MembershipRole,
    pub invited_by: Option<UserId>,
    pub created_at: Timestamp,
}

} // verus!
