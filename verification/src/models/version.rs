//! Versions for release planning.

use vstd::prelude::*;
use crate::text::clone_opt;
use crate::time::Timestamp;
use super::ids::{ProjectId, VersionId};

verus! {

/// A version for release planning; features can target one.
#[derive(Debug, Clone)]
pub struct Version {
    pub id: VersionId,
    pub project_id: ProjectId,
    /// Version name, e.g. "1.0.0".
    pub name: String,
    pub description: Option<String>,
    /// When the version was released, if it was.
    pub released_at: Option<Timestamp>,
    pub created_at: Timestamp,
    pub updated_at: Timestamp,
}

impl Version {
    /// A field-by-field copy.
    pub fn duplicate(&self) -> (r: Version)
        ensures
            r == *self,
    {
        Version {
            id: self.id,
            project_id: self.project_id,
            name: self.name.clone(),
            description: clone_opt(&self.description),
            released_at: self.released_at,
            created_at: self.created_at,
            updated_at: self.updated_at,
        }
    }
}

/// Input for creating a version.
#[derive(Debug, Clone)]
pub struct CreateVersionInput {
    /// Pre-generated identifier; a fresh one is used if absent.
    pub id: Option<VersionId>,
    pub name: String,
    pub description: Option<String>,
}

/// Input for updating a version; every field is optional.
#[derive(Debug, Clone)]
pub struct UpdateVersionInput {
    pub name: Option<String>,
    pub description: Option<String>,
    /// Set to mark the version as released.
    pub released_at: Option<Timestamp>,
}

} // verus!
