//! Projects: the top-level units that hold feature trees.

use vstd::prelude::*;
use crate::text::clone_opt;
use crate::time::Timestamp;
use super::ids::{DirectoryId, FeatureId, ProjectId, VersionId};

verus! {

/// How strictly a project asks for test evidence before a feature is completed.
#[derive(Debug, Clone, Copy, PartialEq, Eq, Structural)]
pub enum TestingPolicy {
    /// A passing proof is required.
    Tdd,
    /// Missing or failing proofs only produce warnings.
    Advisory,
    /// No test evidence is considered.
    Off,
}

/// A project containing features.
#[derive(Debug, Clone)]
pub struct Project {
    pub id: ProjectId,
    /// URL-friendly identifier, unique across projects.
    pub slug: String,
    pub name: String,
    pub description: Option<String>,
    /// Project-wide instructions for agents.
    pub instructions: Option<String>,
    pub current_version_id: Option<VersionId>,
    /// The root feature; all other features descend from it.
    pub root_feature_id: Option<FeatureId>,
    /// Where new features go: "backlog" or "next".
    pub default_feature_destination: String,
    pub testing_policy: TestingPolicy,
    pub test_adapter: Option<String>,
    pub context_budget: Option<i64>,
    /// Prefix of display identifiers such as "MAN-42".
    pub key_prefix: String,
    pub created_at: Timestamp,
    pub updated_at: Timestamp,
}

impl Project {
    /// A field-by-field copy.
    pub fn duplicate(&self) -> (r: Project)
        ensures
            r == *self,
    {
        Project {
            id: self.id,
            slug: self.slug.clone(),
            name: self.name.clone(),
            description: clone_opt(&self.description),
            instructions: clone_opt(&self.instructions),
            current_version_id: self.current_version_id,
            root_feature_id: self.root_feature_id,
            default_feature_destination: self.default_feature_destination.clone(),
            testing_policy: self.testing_policy,
            test_adapter: clone_opt(&self.test_adapter),
            context_budget: self.context_budget,
            key_prefix: self.key_prefix.clone(),
            created_at: self.created_at,
            updated_at: self.updated_at,
        }
    }
}

/// A file-system directory associated with a project.
#[derive(Debug, Clone)]
pub struct ProjectDirectory {
    pub id: DirectoryId,
    pub project_id: ProjectId,
    pub path: String,
    pub git_remote: Option<String>,
    pub is_primary: bool,
    pub instructions: Option<String>,
    pub created_at: Timestamp,
}

/// Input for creating a project.
#[derive(Debug, Clone)]
pub struct CreateProjectInput {
    /// Pre-generated identifier; a fresh one is used if absent.
    pub id: Option<ProjectId>,
    pub name: String,
    /// Derived from the name if absent.
    pub slug: Option<String>,
    pub description: Option<String>,
    pub instructions: Option<String>,
    /// Derived from the slug if absent.
    pub key_prefix: Option<String>,
    pub skip_default_versions: bool,
}

/// Input for updating a project; every field is optional.
#[derive(Debug, Clone)]
pub struct UpdateProjectInput {
    pub name: Option<String>,
    pub slug: Option<String>,
    pub description: Option<String>,
    pub instructions: Option<String>,
    pub current_version_id: Option<VersionId>,
    pub default_feature_destination: Option<String>,
    pub test_adapter: Option<String>,
    pub context_budget: Option<i64>,
    pub key_prefix: Option<String>,
}

/// Input for adding a directory to a project.
#[derive(Debug, Clone)]
pub struct AddDirectoryInput {
    pub path: String,
    pub git_remote: Option<String>,
    pub is_primary: bool,
    pub instructions: Option<String>,
}

/// Input for updating a directory; every field is optional.
#[derive(Debug, Clone)]
pub struct UpdateDirectoryInput {
    pub path: Option<String>,
    pub git_remote: Option<String>,
    pub is_primary: Option<bool>,
    pub instructions: Option<String>,
}

/// A project with its directories.
#[derive(Debug, Clone)]
pub struct ProjectWithDirectories {
    pub project: Project,
    pub directories: Vec<ProjectDirectory>,
}

} // verus!
