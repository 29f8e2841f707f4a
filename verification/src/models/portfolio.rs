//! The portfolio view: a health snapshot of every project.

use vstd::prelude::*;
use crate::time::Timestamp;
use super::ids::{FeatureId, ProjectId, VersionId};

verus! {

/// A minimal feature reference.
#[derive(Debug, Clone)]
pub struct PortfolioFeatureRef {
    pub id: FeatureId,
    pub title: String,
}

/// Progress of the next version.
#[derive(Debug, Clone)]
pub struct PortfolioVersionSummary {
    pub id: VersionId,
    pub name: String,
    /// Leaf features assigned to the version.
    pub feature_count: i64,
    /// Of those, the implemented ones.
    pub implemented_count: i64,
}

/// The next actionable feature of a project.
#[derive(Debug, Clone)]
pub struct PortfolioNextFeature {
    pub id: FeatureId,
    pub title: String,
    /// Whether it is assigned to the next version (rather than the backlog).
    pub in_version: bool,
}

/// A recent feature completion.
#[derive(Debug, Clone)]
pub struct PortfolioCompletion {
    pub id: FeatureId,
    pub title: String,
    pub completed_at: Timestamp,
}

/// The health snapshot of one project.
#[derive(Debug, Clone)]
pub struct PortfolioProject {
    pub id: ProjectId,
    pub name: String,
    pub slug: String,
    pub next_version: Option<PortfolioVersionSummary>,
    pub next_feature: Option<PortfolioNextFeature>,
    /// Up to five in-progress leaf features.
    pub in_progress: Vec<PortfolioFeatureRef>,
    pub in_progress_total: i64,
    pub blocked: Vec<PortfolioFeatureRef>,
    pub blocked_count: i64,
    /// Up to five completions of the last seven days.
    pub recent_completions: Vec<PortfolioCompletion>,
    pub last_activity_at: Option<Timestamp>,
}

/// Health snapshots of all projects.
#[derive(Debug, Clone)]
pub struct Portfolio {
    pub projects: Vec<PortfolioProject>,
}

} // verus!
