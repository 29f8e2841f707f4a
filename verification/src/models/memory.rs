//! Project memories: facts and decisions that survive across sessions.

use vstd::prelude::*;
use crate::time::Timestamp;
use super::ids::{FeatureId, ProjectId};

verus! {

/// A project-scoped memory entry.
#[derive(Debug, Clone)]
pub struct ProjectMemory {
    pub id: u128,
    pub project_id: ProjectId,
    pub content: String,
    pub tags: Vec<String>,
    pub source_feature_id: Option<FeatureId>,
    /// "agent" or "human".
    pub created_by: String,
    pub created_at: Timestamp,
    pub updated_at: Timestamp,
}

/// Input for creating a memory entry.
#[derive(Debug, Clone)]
pub struct CreateMemoryInput {
    pub content: String,
    pub tags: Vec<String>,
    pub source_feature_id: Option<FeatureId>,
    /// "agent" (the default) or "human".
    pub created_by: String,
}

/// The creator recorded when none is given: "agent".
pub fn default_created_by() -> (r: String)
    ensures
        r@ == "agent"@,
{
    "agent".to_string()
}

/// Query parameters for searching memories.
#[derive(Debug, Clone)]
pub struct SearchMemoriesQuery {
    pub q: Option<String>,
    /// Maximum results (10 when absent).
    pub limit: Option<u32>,
}

} // verus!
