//! The rules of the SQLite store adapter: how database errors map to store
//! errors, how a changeset becomes a database update, and which database
//! query serves a feature query.

use vstd::prelude::*;
use crate::db::ManifestError;
use crate::models::feature::UpdateFeatureInput;
use crate::models::ids::{FeatureId, ProjectId, VersionId};
use crate::text::{append_str, chars_of, clone_opt, contains, contains_exec, str_eq, string_of};
use super::error::StoreError;
use super::query::{FeatureQuery, ParentFilter};
use super::types::FeatureChangeset;

verus! {

/// The store error for a database error: a not-found error by the entity its
/// message names (feature, then version, then project; a feature when none),
/// every other error as a validation error.
pub fn map_manifest_error(err: ManifestError) -> (r: StoreError)
    ensures
        match err {
            ManifestError::NotFound(m) => if contains(m@, "feature"@) || contains(m@, "Feature"@) {
                r == StoreError::FeatureNotFound(m)
            } else if contains(m@, "version"@) || contains(m@, "Version"@) {
                r == StoreError::VersionNotFound(m)
            } else if contains(m@, "project"@) || contains(m@, "Project"@) {
                r == StoreError::ProjectNotFound(m)
            } else {
                r == StoreError::FeatureNotFound(m)
            },
            ManifestError::Validation(m) => r == StoreError::Validation(m),
            ManifestError::InvalidState(m) => r == StoreError::Validation(m),
            ManifestError::ClaimConflict(c) => r matches StoreError::Validation(m) && m@
                == "Feature already claimed by '"@ + c.agent_type@ + "'"@,
        },
{
    match err {
        ManifestError::NotFound(m) => {
            let cs = chars_of(m.as_str());
            if contains_exec(&cs, &chars_of("feature")) || contains_exec(&cs, &chars_of("Feature")) {
                StoreError::FeatureNotFound(m)
            } else if contains_exec(&cs, &chars_of("version")) || contains_exec(
                &cs,
                &chars_of("Version"),
            ) {
                StoreError::VersionNotFound(m)
            } else if contains_exec(&cs, &chars_of("project")) || contains_exec(
                &cs,
                &chars_of("Project"),
            ) {
                StoreError::ProjectNotFound(m)
            } else {
                StoreError::FeatureNotFound(m)
            }
        },
        ManifestError::Validation(m) => StoreError::Validation(m),
        ManifestError::InvalidState(m) => StoreError::Validation(m),
        ManifestError::ClaimConflict(c) => {
            let e = ManifestError::ClaimConflict(c);
            StoreError::Validation(e.message())
        },
    }
}

/// The store error for an entity that the database does not hold:
/// "`entity` not found: `id`", as a not-found error of that entity (a feature
/// for an unknown entity).
pub fn not_found_error(entity: &str, id: &str) -> (r: StoreError)
    ensures
        ({
            let m = entity@ + " not found: "@ + id@;
            if entity@ == "Version"@ {
                r matches StoreError::VersionNotFound(x) && x@ == m
            } else if entity@ == "Project"@ {
                r matches StoreError::ProjectNotFound(x) && x@ == m
            } else {
                r matches StoreError::FeatureNotFound(x) && x@ == m
            }
        }),
{
    let mut v: Vec<char> = Vec::new();
    append_str(&mut v, entity);
    append_str(&mut v, " not found: ");
    append_str(&mut v, id);
    let m = string_of(&v);
    proof {
        reveal_strlit("Feature");
        reveal_strlit("Version");
        reveal_strlit("Project");
        assert("Feature"@[0] != "Version"@[0] && "Feature"@[0] != "Project"@[0]);
    }
    if str_eq(entity, "Feature") {
        StoreError::FeatureNotFound(m)
    } else if str_eq(entity, "Version") {
        StoreError::VersionNotFound(m)
    } else if str_eq(entity, "Project") {
        StoreError::ProjectNotFound(m)
    } else {
        StoreError::FeatureNotFound(m)
    }
}

fn clone_opt_opt(o: &Option<Option<String>>) -> (r: Option<Option<String>>)
    ensures
        r == *o,
{
    match o {
        Some(x) => Some(clone_opt(x)),
        None => None,
    }
}

/// The database update for a changeset. A changeset that detaches the
/// feature from its parent (`Some(None)`) asks for the parent to be removed.
pub fn changeset_to_input(changeset: &FeatureChangeset) -> (r: UpdateFeatureInput)
    ensures
        r.title == changeset.title,
        r.details == changeset.details,
        r.desired_details == changeset.desired_details,
        r.details_summary == changeset.details_summary,
        r.state == changeset.state,
        r.priority == changeset.priority,
        r.parent_id == changeset.parent_id,
        r.target_version_id == changeset.target_version_id,
        r.blocked_by is None,
{
    UpdateFeatureInput {
        title: clone_opt(&changeset.title),
        details: clone_opt(&changeset.details),
        desired_details: clone_opt_opt(&changeset.desired_details),
        details_summary: clone_opt_opt(&changeset.details_summary),
        state: changeset.state,
        priority: changeset.priority,
        parent_id: changeset.parent_id,
        target_version_id: changeset.target_version_id,
        blocked_by: None,
    }
}

/// The database query that serves a feature query.
#[derive(Debug)]
pub enum FeatureListRoute {
    /// A text search, optionally in one project, with a result limit.
    Search { text: String, project_id: Option<ProjectId>, limit: Option<u32> },
    /// The top-level features of a project.
    Roots(ProjectId),
    /// The children of a feature.
    Children(FeatureId),
    /// The features of a project, optionally in one version, paginated.
    Project {
        project_id: ProjectId,
        version_id: Option<VersionId>,
        limit: Option<u32>,
        offset: Option<u32>,
    },
    /// All features, optionally in one version, paginated.
    All { version_id: Option<VersionId>, limit: Option<u32>, offset: Option<u32> },
}

pub open spec fn as_u32(o: Option<i64>) -> Option<u32> {
    match o {
        Some(l) => Some(l as u32),
        None => None,
    }
}

pub open spec fn roots_need_project_message() -> Seq<char> {
    "project_id required for root feature queries"@
}

/// How a feature query is served: a search first; then a parent filter (the
/// roots of the project, which must be given, or a parent's children); then
/// the features of the project, or all features.
pub fn route_feature_query(q: &FeatureQuery) -> (r: Result<FeatureListRoute, StoreError>)
    ensures
        match q.search {
            Some(s) => r matches Ok(FeatureListRoute::Search { text, project_id, limit }) && text@ == s@
                && project_id == q.project_id && limit == as_u32(q.limit),
            None => match q.parent_id {
                Some(ParentFilter::Root) => match q.project_id {
                    Some(p) => r matches Ok(FeatureListRoute::Roots(x)) && x == p,
                    None => r matches Err(StoreError::Validation(m)) && m@ == roots_need_project_message(),
                },
                Some(ParentFilter::Exact(pid)) => r matches Ok(FeatureListRoute::Children(x)) && x == pid,
                _ => match q.project_id {
                    Some(p) => r matches Ok(
                        FeatureListRoute::Project { project_id, version_id, limit, offset },
                    ) && project_id == p && version_id == q.target_version_id && limit == as_u32(q.limit)
                        && offset == as_u32(q.offset),
                    None => r matches Ok(FeatureListRoute::All { version_id, limit, offset })
                        && version_id == q.target_version_id && limit == as_u32(q.limit) && offset
                        == as_u32(q.offset),
                },
            },
        },
{
    let limit: Option<u32> = match q.limit {
        Some(l) => Some(l as u32),
        None => None,
    };
    let offset: Option<u32> = match q.offset {
        Some(o) => Some(o as u32),
        None => None,
    };
    match &q.search {
        Some(s) => {
            return Ok(FeatureListRoute::Search { text: s.clone(), project_id: q.project_id, limit });
        },
        None => {},
    }
    match q.parent_id {
        Some(ParentFilter::Root) => {
            return match q.project_id {
                Some(p) => Ok(FeatureListRoute::Roots(p)),
                None => Err(StoreError::Validation("project_id required for root feature queries".to_owned())),
            };
        },
        Some(ParentFilter::Exact(pid)) => {
            return Ok(FeatureListRoute::Children(pid));
        },
        _ => {},
    }
    match q.project_id {
        Some(p) => Ok(
            FeatureListRoute::Project { project_id: p, version_id: q.target_version_id, limit, offset },
        ),
        None => Ok(FeatureListRoute::All { version_id: q.target_version_id, limit, offset }),
    }
}

} // verus!
