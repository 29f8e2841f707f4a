//! Strongly-typed identifiers for domain entities.
//!
//! Each entity type has its own identifier type so that one entity's identifier
//! cannot be used for another's. An identifier holds the 128-bit value of a UUID.

use vstd::prelude::*;
use crate::uuid_support::{new_uuid, parse_uuid, format_uuid, uuid_parse_result, uuid_text, is_v4};

verus! {

/// Unique identifier for a Project.
#[derive(Debug, Clone, Copy, PartialEq, Eq, Hash, Structural)]
pub struct ProjectId(pub u128);

impl ProjectId {
    /// A fresh random identifier (UUID version 4).
    pub fn new() -> (r: Self)
        ensures
            is_v4(r.0),
    {
        ProjectId(new_uuid())
    }

    /// The identifier from a 128-bit UUID value.
    pub fn from_u128(value: u128) -> (r: Self)
        ensures
            r.0 == value,
    {
        ProjectId(value)
    }

    /// The 128-bit UUID value.
    pub fn inner(self) -> (r: u128)
        ensures
            r == self.0,
    {
        self.0
    }

    /// Parses the textual form of a UUID.
    pub fn parse_str(s: &str) -> (r: Option<Self>)
        ensures
            r == (match uuid_parse_result(s@) {
                Some(v) => Some(ProjectId(v)),
                None => None,
            }),
    {
        match parse_uuid(s) {
            Some(v) => Some(ProjectId(v)),
            None => None,
        }
    }

    /// The lower-case hyphenated form of the UUID, which `parse_str` reads
    /// back to the same identifier.
    pub fn to_string(&self) -> (r: String)
        ensures
            r@ == uuid_text(self.0),
            uuid_parse_result(r@) == Some(self.0),
    {
        format_uuid(self.0)
    }
}

/// Unique identifier for a Feature.
#[derive(Debug, Clone, Copy, PartialEq, Eq, Hash, Structural)]
pub struct FeatureId(pub u128);

impl FeatureId {
    /// A fresh random identifier (UUID version 4).
    pub fn new() -> (r: Self)
        ensures
            is_v4(r.0),
    {
        FeatureId(new_uuid())
    }

    /// The identifier from a 128-bit UUID value.
    pub fn from_u128(value: u128) -> (r: Self)
        ensures
            r.0 == value,
    {
        FeatureId(value)
    }

    /// The 128-bit UUID value.
    pub fn inner(self) -> (r: u128)
        ensures
            r == self.0,
    {
        self.0
    }

    /// Parses the textual form of a UUID.
    pub fn parse_str(s: &str) -> (r: Option<Self>)
        ensures
            r == (match uuid_parse_result(s@) {
                Some(v) => Some(FeatureId(v)),
                None => None,
            }),
    {
        match parse_uuid(s) {
            Some(v) => Some(FeatureId(v)),
            None => None,
        }
    }

    /// The lower-case hyphenated form of the UUID, which `parse_str` reads
    /// back to the same identifier.
    pub fn to_string(&self) -> (r: String)
        ensures
            r@ == uuid_text(self.0),
            uuid_parse_result(r@) == Some(self.0),
    {
        format_uuid(self.0)
    }
}

/// Unique identifier for a Version.
#[derive(Debug, Clone, Copy, PartialEq, Eq, Hash, Structural)]
pub struct VersionId(pub u128);

impl VersionId {
    /// A fresh random identifier (UUID version 4).
    pub fn new() -> (r: Self)
        ensures
            is_v4(r.0),
    {
        VersionId(new_uuid())
    }

    /// The identifier from a 128-bit UUID value.
    pub fn from_u128(value: u128) -> (r: Self)
        ensures
            r.0 == value,
    {
        VersionId(value)
    }

    /// The 128-bit UUID value.
    pub fn inner(self) -> (r: u128)
        ensures
            r == self.0,
    {
        self.0
    }

    /// Parses the textual form of a UUID.
    pub fn parse_str(s: &str) -> (r: Option<Self>)
        ensures
            r == (match uuid_parse_result(s@) {
                Some(v) => Some(VersionId(v)),
                None => None,
            }),
    {
        match parse_uuid(s) {
            Some(v) => Some(VersionId(v)),
            None => None,
        }
    }

    /// The lower-case hyphenated form of the UUID, which `parse_str` reads
    /// back to the same identifier.
    pub fn to_string(&self) -> (r: String)
        ensures
            r@ == uuid_text(self.0),
            uuid_parse_result(r@) == Some(self.0),
    {
        format_uuid(self.0)
    }
}

/// Unique identifier for a Session.
#[derive(Debug, Clone, Copy, PartialEq, Eq, Hash, Structural)]
pub struct SessionId(pub u128);

impl SessionId {
    /// A fresh random identifier (UUID version 4).
    pub fn new() -> (r: Self)
        ensures
            is_v4(r.0),
    {
        SessionId(new_uuid())
    }

    /// The identifier from a 128-bit UUID value.
    pub fn from_u128(value: u128) -> (r: Self)
        ensures
            r.0 == value,
    {
        SessionId(value)
    }

    /// The 128-bit UUID value.
    pub fn inner(self) -> (r: u128)
        ensures
            r == self.0,
    {
        self.0
    }

    /// Parses the textual form of a UUID.
    pub fn parse_str(s: &str) -> (r: Option<Self>)
        ensures
            r == (match uuid_parse_result(s@) {
                Some(v) => Some(SessionId(v)),
                None => None,
            }),
    {
        match parse_uuid(s) {
            Some(v) => Some(SessionId(v)),
            None => None,
        }
    }

    /// The lower-case hyphenated form of the UUID, which `parse_str` reads
    /// back to the same identifier.
    pub fn to_string(&self) -> (r: String)
        ensures
            r@ == uuid_text(self.0),
            uuid_parse_result(r@) == Some(self.0),
    {
        format_uuid(self.0)
    }
}

/// Unique identifier for a Task.
#[derive(Debug, Clone, Copy, PartialEq, Eq, Hash, Structural)]
pub struct TaskId(pub u128);

impl TaskId {
    /// A fresh random identifier (UUID version 4).
    pub fn new() -> (r: Self)
        ensures
            is_v4(r.0),
    {
        TaskId(new_uuid())
    }

    /// The identifier from a 128-bit UUID value.
    pub fn from_u128(value: u128) -> (r: Self)
        ensures
            r.0 == value,
    {
        TaskId(value)
    }

    /// The 128-bit UUID value.
    pub fn inner(self) -> (r: u128)
        ensures
            r == self.0,
    {
        self.0
    }

    /// Parses the textual form of a UUID.
    pub fn parse_str(s: &str) -> (r: Option<Self>)
        ensures
            r == (match uuid_parse_result(s@) {
                Some(v) => Some(TaskId(v)),
                None => None,
            }),
    {
        match parse_uuid(s) {
            Some(v) => Some(TaskId(v)),
            None => None,
        }
    }

    /// The lower-case hyphenated form of the UUID, which `parse_str` reads
    /// back to the same identifier.
    pub fn to_string(&self) -> (r: String)
        ensures
            r@ == uuid_text(self.0),
            uuid_parse_result(r@) == Some(self.0),
    {
        format_uuid(self.0)
    }
}

/// Unique identifier for an User.
#[derive(Debug, Clone, Copy, PartialEq, Eq, Hash, Structural)]
pub struct UserId(pub u128);

impl UserId {
    /// A fresh random identifier (UUID version 4).
    pub fn new() -> (r: Self)
        ensures
            is_v4(r.0),
    {
        UserId(new_uuid())
    }

    /// The identifier from a 128-bit UUID value.
    pub fn from_u128(value: u128) -> (r: Self)
        ensures
            r.0 == value,
    {
        UserId(value)
    }

    /// The 128-bit UUID value.
    pub fn inner(self) -> (r: u128)
        ensures
            r == self.0,
    {
        self.0
    }

    /// Parses the textual form of a UUID.
    pub fn parse_str(s: &str) -> (r: Option<Self>)
        ensures
            r == (match uuid_parse_result(s@) {
                Some(v) => Some(UserId(v)),
                None => None,
            }),
    {
        match parse_uuid(s) {
            Some(v) => Some(UserId(v)),
            None => None,
        }
    }

    /// The lower-case hyphenated form of the UUID, which `parse_str` reads
    /// back to the same identifier.
    pub fn to_string(&self) -> (r: String)
        ensures
            r@ == uuid_text(self.0),
            uuid_parse_result(r@) == Some(self.0),
    {
        format_uuid(self.0)
    }
}

/// Unique identifier for a FeatureHistory entry.
#[derive(Debug, Clone, Copy, PartialEq, Eq, Hash, Structural)]
pub struct HistoryId(pub u128);

impl HistoryId {
    /// A fresh random identifier (UUID version 4).
    pub fn new() -> (r: Self)
        ensures
            is_v4(r.0),
    {
        HistoryId(new_uuid())
    }

    /// The identifier from a 128-bit UUID value.
    pub fn from_u128(value: u128) -> (r: Self)
        ensures
            r.0 == value,
    {
        HistoryId(value)
    }

    /// The 128-bit UUID value.
    pub fn inner(self) -> (r: u128)
        ensures
            r == self.0,
    {
        self.0
    }

    /// Parses the textual form of a UUID.
    pub fn parse_str(s: &str) -> (r: Option<Self>)
        ensures
            r == (match uuid_parse_result(s@) {
                Some(v) => Some(HistoryId(v)),
                None => None,
            }),
    {
        match parse_uuid(s) {
            Some(v) => Some(HistoryId(v)),
            None => None,
        }
    }

    /// The lower-case hyphenated form of the UUID, which `parse_str` reads
    /// back to the same identifier.
    pub fn to_string(&self) -> (r: String)
        ensures
            r@ == uuid_text(self.0),
            uuid_parse_result(r@) == Some(self.0),
    {
        format_uuid(self.0)
    }
}

/// Unique identifier for a ProjectMembership.
#[derive(Debug, Clone, Copy, PartialEq, Eq, Hash, Structural)]
pub struct MembershipId(pub u128);

impl MembershipId {
    /// A fresh random identifier (UUID version 4).
    pub fn new() -> (r: Self)
        ensures
            is_v4(r.0),
    {
        MembershipId(new_uuid())
    }

    /// The identifier from a 128-bit UUID value.
    pub fn from_u128(value: u128) -> (r: Self)
        ensures
            r.0 == value,
    {
        MembershipId(value)
    }

    /// The 128-bit UUID value.
    pub fn inner(self) -> (r: u128)
        ensures
            r == self.0,
    {
        self.0
    }

    /// Parses the textual form of a UUID.
    pub fn parse_str(s: &str) -> (r: Option<Self>)
        ensures
            r == (match uuid_parse_result(s@) {
                Some(v) => Some(MembershipId(v)),
                None => None,
            }),
    {
        match parse_uuid(s) {
            Some(v) => Some(MembershipId(v)),
            None => None,
        }
    }

    /// The lower-case hyphenated form of the UUID, which `parse_str` reads
    /// back to the same identifier.
    pub fn to_string(&self) -> (r: String)
        ensures
            r@ == uuid_text(self.0),
            uuid_parse_result(r@) == Some(self.0),
    {
        format_uuid(self.0)
    }
}

/// Unique identifier for a ProjectDirectory.
#[derive(Debug, Clone, Copy, PartialEq, Eq, Hash, Structural)]
pub struct DirectoryId(pub u128);

impl DirectoryId {
    /// A fresh random identifier (UUID version 4).
    pub fn new() -> (r: Self)
        ensures
            is_v4(r.0),
    {
        DirectoryId(new_uuid())
    }

    /// The identifier from a 128-bit UUID value.
    pub fn from_u128(value: u128) -> (r: Self)
        ensures
            r.0 == value,
    {
        DirectoryId(value)
    }

    /// The 128-bit UUID value.
    pub fn inner(self) -> (r: u128)
        ensures
            r == self.0,
    {
        self.0
    }

    /// Parses the textual form of a UUID.
    pub fn parse_str(s: &str) -> (r: Option<Self>)
        ensures
            r == (match uuid_parse_result(s@) {
                Some(v) => Some(DirectoryId(v)),
                None => None,
            }),
    {
        match parse_uuid(s) {
            Some(v) => Some(DirectoryId(v)),
            None => None,
        }
    }

    /// The lower-case hyphenated form of the UUID, which `parse_str` reads
    /// back to the same identifier.
    pub fn to_string(&self) -> (r: String)
        ensures
            r@ == uuid_text(self.0),
            uuid_parse_result(r@) == Some(self.0),
    {
        format_uuid(self.0)
    }
}

/// Unique identifier for a Proof.
#[derive(Debug, Clone, Copy, PartialEq, Eq, Hash, Structural)]
pub struct ProofId(pub u128);

impl ProofId {
    /// A fresh random identifier (UUID version 4).
    pub fn new() -> (r: Self)
        ensures
            is_v4(r.0),
    {
        ProofId(new_uuid())
    }

    /// The identifier from a 128-bit UUID value.
    pub fn from_u128(value: u128) -> (r: Self)
        ensures
            r.0 == value,
    {
        ProofId(value)
    }

    /// The 128-bit UUID value.
    pub fn inner(self) -> (r: u128)
        ensures
            r == self.0,
    {
        self.0
    }

    /// Parses the textual form of a UUID.
    pub fn parse_str(s: &str) -> (r: Option<Self>)
        ensures
            r == (match uuid_parse_result(s@) {
                Some(v) => Some(ProofId(v)),
                None => None,
            }),
    {
        match parse_uuid(s) {
            Some(v) => Some(ProofId(v)),
            None => None,
        }
    }

    /// The lower-case hyphenated form of the UUID, which `parse_str` reads
    /// back to the same identifier.
    pub fn to_string(&self) -> (r: String)
        ensures
            r@ == uuid_text(self.0),
            uuid_parse_result(r@) == Some(self.0),
    {
        format_uuid(self.0)
    }
}

/// Unique identifier for a SpecTemplate.
#[derive(Debug, Clone, Copy, PartialEq, Eq, Hash, Structural)]
pub struct TemplateId(pub u128);

impl TemplateId {
    /// A fresh random identifier (UUID version 4).
    pub fn new() -> (r: Self)
        ensures
            is_v4(r.0),
    {
        TemplateId(new_uuid())
    }

    /// The identifier from a 128-bit UUID value.
    pub fn from_u128(value: u128) -> (r: Self)
        ensures
            r.0 == value,
    {
        TemplateId(value)
    }

    /// The 128-bit UUID value.
    pub fn inner(self) -> (r: u128)
        ensures
            r == self.0,
    {
        self.0
    }

    /// Parses the textual form of a UUID.
    pub fn parse_str(s: &str) -> (r: Option<Self>)
        ensures
            r == (match uuid_parse_result(s@) {
                Some(v) => Some(TemplateId(v)),
                None => None,
            }),
    {
        match parse_uuid(s) {
            Some(v) => Some(TemplateId(v)),
            None => None,
        }
    }

    /// The lower-case hyphenated form of the UUID, which `parse_str` reads
    /// back to the same identifier.
    pub fn to_string(&self) -> (r: String)
        ensures
            r@ == uuid_text(self.0),
            uuid_parse_result(r@) == Some(self.0),
    {
        format_uuid(self.0)
    }
}

/// Unique identifier for a Remote.
#[derive(Debug, Clone, Copy, PartialEq, Eq, Hash, Structural)]
pub struct RemoteId(pub u128);

impl RemoteId {
    /// A fresh random identifier (UUID version 4).
    pub fn new() -> (r: Self)
        ensures
            is_v4(r.0),
    {
        RemoteId(new_uuid())
    }

    /// The identifier from a 128-bit UUID value.
    pub fn from_u128(value: u128) -> (r: Self)
        ensures
            r.0 == value,
    {
        RemoteId(value)
    }

    /// The 128-bit UUID value.
    pub fn inner(self) -> (r: u128)
        ensures
            r == self.0,
    {
        self.0
    }

    /// Parses the textual form of a UUID.
    pub fn parse_str(s: &str) -> (r: Option<Self>)
        ensures
            r == (match uuid_parse_result(s@) {
                Some(v) => Some(RemoteId(v)),
                None => None,
            }),
    {
        match parse_uuid(s) {
            Some(v) => Some(RemoteId(v)),
            None => None,
        }
    }

    /// The lower-case hyphenated form of the UUID, which `parse_str` reads
    /// back to the same identifier.
    pub fn to_string(&self) -> (r: String)
        ensures
            r@ == uuid_text(self.0),
            uuid_parse_result(r@) == Some(self.0),
    {
        format_uuid(self.0)
    }
}

} // verus!
