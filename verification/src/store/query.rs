//! Query and filter types for listing features.

use vstd::prelude::*;
use crate::models::feature::FeatureState;
use crate::models::ids::{FeatureId, ProjectId, VersionId};

verus! {

/// Filter on the parent relationship.
#[derive(Debug, Clone, Copy, PartialEq, Eq, Structural)]
pub enum ParentFilter {
    /// Features with this parent.
    Exact(FeatureId),
    /// Root features (no parent).
    Root,
    /// All features, whatever their parent.
    Any,
}

/// A backend-agnostic query for listing features.
#[derive(Debug)]
pub struct FeatureQuery {
    pub project_id: Option<ProjectId>,
    pub parent_id: Option<ParentFilter>,
    /// One or more states.
    pub state: Option<Vec<FeatureState>>,
    pub target_version_id: Option<VersionId>,
    /// Text searched in titles and details.
    pub search: Option<String>,
    pub limit: Option<i64>,
    pub offset: Option<i64>,
}

impl Default for FeatureQuery {
    /// The query with no filter.
    fn default() -> (r: FeatureQuery)
        ensures
            r.project_id is None,
            r.parent_id is None,
            r.state is None,
            r.target_version_id is None,
            r.search is None,
            r.limit is None,
            r.offset is None,
    {
        FeatureQuery {
            project_id: None,
            parent_id: None,
            state: None,
            target_version_id: None,
            search: None,
            limit: None,
            offset: None,
        }
    }
}

impl FeatureQuery {
    /// The query for the features of one project.
    pub fn for_project(project_id: ProjectId) -> (r: FeatureQuery)
        ensures
            r.project_id == Some(project_id),
            r.parent_id is None,
            r.state is None,
            r.target_version_id is None,
            r.search is None,
            r.limit is None,
            r.offset is None,
    {
        FeatureQuery {
            project_id: Some(project_id),
            parent_id: None,
            state: None,
            target_version_id: None,
            search: None,
            limit: None,
            offset: None,
        }
    }

    /// The query restricted to one state.
    pub fn with_state(self, state: FeatureState) -> (r: FeatureQuery)
        ensures
            r.state matches Some(v) && v@ == seq![state],
            r.project_id == self.project_id,
            r.parent_id == self.parent_id,
            r.target_version_id == self.target_version_id,
            r.search == self.search,
            r.limit == self.limit,
            r.offset == self.offset,
    {
        let mut v: Vec<FeatureState> = Vec::new();
        v.push(state);
        assert(v@ =~= seq![state]);
        FeatureQuery { state: Some(v), ..self }
    }

    /// The query restricted to the given states.
    pub fn with_states(self, states: Vec<FeatureState>) -> (r: FeatureQuery)
        ensures
            r.state == Some(states),
            r.project_id == self.project_id,
            r.parent_id == self.parent_id,
            r.target_version_id == self.target_version_id,
            r.search == self.search,
            r.limit == self.limit,
            r.offset == self.offset,
    {
        FeatureQuery { state: Some(states), ..self }
    }

    /// The query restricted by parent.
    pub fn with_parent(self, parent: ParentFilter) -> (r: FeatureQuery)
        ensures
            r == (FeatureQuery { parent_id: Some(parent), ..self }),
    {
        FeatureQuery { parent_id: Some(parent), ..self }
    }

    /// The query restricted to one version.
    pub fn with_version(self, version_id: VersionId) -> (r: FeatureQuery)
        ensures
            r == (FeatureQuery { target_version_id: Some(version_id), ..self }),
    {
        FeatureQuery { target_version_id: Some(version_id), ..self }
    }

    /// The query with a search text.
    pub fn with_search(self, query: &str) -> (r: FeatureQuery)
        ensures
            r.search matches Some(s) && s@ == query@,
            r.project_id == self.project_id,
            r.parent_id == self.parent_id,
            r.state == self.state,
            r.target_version_id == self.target_version_id,
            r.limit == self.limit,
            r.offset == self.offset,
    {
        FeatureQuery { search: Some(query.to_owned()), ..self }
    }

    /// The query with a result limit.
    pub fn with_limit(self, limit: i64) -> (r: FeatureQuery)
        ensures
            r == (FeatureQuery { limit: Some(limit), ..self }),
    {
        FeatureQuery { limit: Some(limit), ..self }
    }

    /// The query with a number of results to skip.
    pub fn with_offset(self, offset: i64) -> (r: FeatureQuery)
        ensures
            r == (FeatureQuery { offset: Some(offset), ..self }),
    {
        FeatureQuery { offset: Some(offset), ..self }
    }
}

} // verus!
