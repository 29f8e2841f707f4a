//! Reading stored rows into the models: ids and timestamps are parsed from
//! their stored text, unknown states read as their defaults.
//!
//! The caller reads each column of a row as text or number; these functions
//! turn those columns into models.

use vstd::prelude::*;
use crate::models::feature::{Feature, FeatureState, FeatureSummary, FeatureSummaryContext};
use crate::models::ids::{DirectoryId, FeatureId, ProjectId, RemoteId, TemplateId, VersionId};
use crate::models::project::{Project, ProjectDirectory, TestingPolicy};
use crate::models::remote::{ProjectRemote, Remote, SyncState};
use crate::models::template::SpecTemplate;
use crate::models::version::Version;
use crate::text::{append_str, string_of};
use crate::time::{
    naive_parse_result, parse_naive_utc, parse_rfc3339, rfc3339_parse_result, to_timestamp, Timestamp,
};
use crate::uuid_support::{parse_uuid, uuid_parse_result};

verus! {

/// The instant a stored timestamp stands for: RFC 3339, or else
/// `YYYY-MM-DD HH:MM:SS` in UTC.
pub open spec fn stored_time(s: Seq<char>) -> Option<Timestamp> {
    match to_timestamp(rfc3339_parse_result(s)) {
        Some(t) => Some(t),
        None => to_timestamp(naive_parse_result(s)),
    }
}

/// Parses a stored timestamp.
pub fn parse_datetime(s: &str) -> (r: Result<Timestamp, String>)
    ensures
        match r {
            Ok(t) => stored_time(s@) == Some(t),
            Err(m) => stored_time(s@) is None && m@ == "Invalid timestamp stored in database: "@ + s@,
        },
{
    match parse_rfc3339(s) {
        Some(t) => Ok(t),
        None => match parse_naive_utc(s) {
            Some(t) => Ok(t),
            None => {
                let mut v: Vec<char> = Vec::new();
                append_str(&mut v, "Invalid timestamp stored in database: ");
                append_str(&mut v, s);
                Err(string_of(&v))
            },
        },
    }
}

/// Parses a stored UUID.
pub fn parse_id(s: &str) -> (r: Result<u128, String>)
    ensures
        match r {
            Ok(v) => uuid_parse_result(s@) == Some(v),
            Err(m) => uuid_parse_result(s@) is None && m@ == "Invalid UUID stored in database: "@ + s@,
        },
{
    match parse_uuid(s) {
        Some(v) => Ok(v),
        None => {
            let mut v: Vec<char> = Vec::new();
            append_str(&mut v, "Invalid UUID stored in database: ");
            append_str(&mut v, s);
            Err(string_of(&v))
        },
    }
}

fn parse_opt_id(s: &Option<String>) -> (r: Result<Option<u128>, String>)
    ensures
        match *s {
            Some(x) => match r {
                Ok(v) => v is Some && uuid_parse_result(x@) == v,
                Err(_) => uuid_parse_result(x@) is None,
            },
            None => r == Ok::<Option<u128>, String>(None),
        },
{
    match s {
        Some(x) => match parse_id(x.as_str()) {
            Ok(v) => Ok(Some(v)),
            Err(e) => Err(e),
        },
        None => Ok(None),
    }
}

fn parse_opt_time(s: &Option<String>) -> (r: Result<Option<Timestamp>, String>)
    ensures
        match *s {
            Some(x) => match r {
                Ok(v) => v is Some && stored_time(x@) == v,
                Err(_) => stored_time(x@) is None,
            },
            None => r == Ok::<Option<Timestamp>, String>(None),
        },
{
    match s {
        Some(x) => match parse_datetime(x.as_str()) {
            Ok(t) => Ok(Some(t)),
            Err(e) => Err(e),
        },
        None => Ok(None),
    }
}

/// A stored state, or proposed when the text is not a state.
pub open spec fn stored_state(s: Seq<char>) -> FeatureState {
    match FeatureState::from_text(s) {
        Some(st) => st,
        None => FeatureState::Proposed,
    }
}

fn state_of(s: &str) -> (r: FeatureState)
    ensures
        r == stored_state(s@),
{
    match FeatureState::from_str(s) {
        Ok(st) => st,
        Err(_) => FeatureState::Proposed,
    }
}

/// The columns of a stored feature.
#[derive(Debug)]
pub struct FeatureRow {
    pub id: String,
    pub project_id: String,
    pub parent_id: Option<String>,
    pub title: String,
    pub details: Option<String>,
    pub desired_details: Option<String>,
    pub details_summary: Option<String>,
    pub state: String,
    pub priority: i32,
    pub feature_number: Option<i32>,
    pub target_version_id: Option<String>,
    pub verification_result: Option<String>,
    pub verified_at: Option<String>,
    pub claimed_by: Option<String>,
    pub claimed_at: Option<String>,
    pub claim_metadata: Option<String>,
    pub created_at: String,
    pub updated_at: String,
}

/// The optional instant of a text; a text that does not parse reads as none.
pub open spec fn lenient_time(s: Option<String>) -> Option<Timestamp> {
    match s {
        Some(x) => stored_time(x@),
        None => None,
    }
}

/// Whether the ids and timestamps of a feature row parse (the verification
/// and claim times read as none when they do not).
pub open spec fn feature_row_parses(row: FeatureRow) -> bool {
    &&& uuid_parse_result(row.id@) is Some
    &&& uuid_parse_result(row.project_id@) is Some
    &&& (row.parent_id matches Some(p) ==> uuid_parse_result(p@) is Some)
    &&& (row.target_version_id matches Some(v) ==> uuid_parse_result(v@) is Some)
    &&& stored_time(row.created_at@) is Some
    &&& stored_time(row.updated_at@) is Some
}

/// The feature a stored row holds, or the error for an id or timestamp that
/// does not parse.
pub fn feature_from_row(row: FeatureRow) -> (r: Result<Feature, String>)
    ensures
        r is Ok <==> feature_row_parses(row),
        r matches Ok(f) ==> {
            &&& Some(f.id.0) == uuid_parse_result(row.id@)
            &&& Some(f.project_id.0) == uuid_parse_result(row.project_id@)
            &&& f.parent_id == (match row.parent_id {
                Some(p) => Some(FeatureId(uuid_parse_result(p@)->0)),
                None => None,
            })
            &&& f.title == row.title
            &&& f.details == row.details
            &&& f.desired_details == row.desired_details
            &&& f.details_summary == row.details_summary
            &&& f.state == stored_state(row.state@)
            &&& f.priority == row.priority
            &&& f.feature_number == row.feature_number
            &&& f.target_version_id == (match row.target_version_id {
                Some(v) => Some(VersionId(uuid_parse_result(v@)->0)),
                None => None,
            })
            &&& f.verification_result == row.verification_result
            &&& f.verified_at == lenient_time(row.verified_at)
            &&& f.claimed_by == row.claimed_by
            &&& f.claimed_at == lenient_time(row.claimed_at)
            &&& f.claim_metadata == row.claim_metadata
            &&& Some(f.created_at) == stored_time(row.created_at@)
            &&& Some(f.updated_at) == stored_time(row.updated_at@)
        },
{
    let id = match parse_id(row.id.as_str()) {
        Ok(v) => v,
        Err(e) => return Err(e),
    };
    let project_id = match parse_id(row.project_id.as_str()) {
        Ok(v) => v,
        Err(e) => return Err(e),
    };
    let parent_id = match parse_opt_id(&row.parent_id) {
        Ok(v) => v,
        Err(e) => return Err(e),
    };
    let target = match parse_opt_id(&row.target_version_id) {
        Ok(v) => v,
        Err(e) => return Err(e),
    };
    let verified_at = match parse_opt_time(&row.verified_at) {
        Ok(t) => t,
        Err(_) => None,
    };
    let claimed_at = match parse_opt_time(&row.claimed_at) {
        Ok(t) => t,
        Err(_) => None,
    };
    let created_at = match parse_datetime(row.created_at.as_str()) {
        Ok(t) => t,
        Err(e) => return Err(e),
    };
    let updated_at = match parse_datetime(row.updated_at.as_str()) {
        Ok(t) => t,
        Err(e) => return Err(e),
    };
    let state = state_of(row.state.as_str());
    Ok(Feature {
        id: FeatureId(id),
        project_id: ProjectId(project_id),
        parent_id: match parent_id {
            Some(p) => Some(FeatureId(p)),
            None => None,
        },
        title: row.title,
        details: row.details,
        desired_details: row.desired_details,
        details_summary: row.details_summary,
        state,
        priority: row.priority,
        feature_number: row.feature_number,
        target_version_id: match target {
            Some(v) => Some(VersionId(v)),
            None => None,
        },
        verification_result: row.verification_result,
        verified_at,
        claimed_by: row.claimed_by,
        claimed_at,
        claim_metadata: row.claim_metadata,
        created_at,
        updated_at,
    })
}

/// The summary columns of a stored feature.
#[derive(Debug)]
pub struct FeatureSummaryRow {
    pub id: String,
    pub project_id: String,
    pub parent_id: Option<String>,
    pub title: String,
    pub state: String,
    pub priority: i32,
    pub feature_number: Option<i32>,
    pub target_version_id: Option<String>,
}

/// The feature summary a stored row holds, or the error for an id that does
/// not parse.
pub fn summary_from_row(row: FeatureSummaryRow) -> (r: Result<FeatureSummary, String>)
    ensures
        r is Ok <==> (uuid_parse_result(row.id@) is Some && uuid_parse_result(row.project_id@) is Some
            && (row.parent_id matches Some(p) ==> uuid_parse_result(p@) is Some) && (
        row.target_version_id matches Some(v) ==> uuid_parse_result(v@) is Some)),
        r matches Ok(s) ==> Some(s.id.0) == uuid_parse_result(row.id@) && Some(s.project_id.0)
            == uuid_parse_result(row.project_id@) && s.parent_id == (match row.parent_id {
            Some(p) => Some(FeatureId(uuid_parse_result(p@)->0)),
            None => None,
        }) && s.title == row.title && s.state == stored_state(row.state@) && s.priority
            == row.priority && s.feature_number == row.feature_number && s.target_version_id == (
        match row.target_version_id {
            Some(v) => Some(VersionId(uuid_parse_result(v@)->0)),
            None => None,
        }),
{
    let id = match parse_id(row.id.as_str()) {
        Ok(v) => v,
        Err(e) => return Err(e),
    };
    let project_id = match parse_id(row.project_id.as_str()) {
        Ok(v) => v,
        Err(e) => return Err(e),
    };
    let parent_id = match parse_opt_id(&row.parent_id) {
        Ok(v) => v,
        Err(e) => return Err(e),
    };
    let target = match parse_opt_id(&row.target_version_id) {
        Ok(v) => v,
        Err(e) => return Err(e),
    };
    let state = state_of(row.state.as_str());
    Ok(FeatureSummary {
        id: FeatureId(id),
        project_id: ProjectId(project_id),
        parent_id: match parent_id {
            Some(p) => Some(FeatureId(p)),
            None => None,
        },
        title: row.title,
        state,
        priority: row.priority,
        feature_number: row.feature_number,
        target_version_id: match target {
            Some(v) => Some(VersionId(v)),
            None => None,
        },
    })
}

/// The short context of a stored feature (id, title, state).
pub fn summary_context_from_row(id: &str, title: String, state: &str) -> (r: Result<FeatureSummaryContext, String>)
    ensures
        r is Ok <==> uuid_parse_result(id@) is Some,
        r matches Ok(c) ==> Some(c.id.0) == uuid_parse_result(id@) && c.title == title && c.state
            == stored_state(state@),
{
    let v = match parse_id(id) {
        Ok(v) => v,
        Err(e) => return Err(e),
    };
    Ok(FeatureSummaryContext { id: FeatureId(v), title, state: state_of(state) })
}

/// The columns of a stored project.
#[derive(Debug)]
pub struct ProjectRow {
    pub id: String,
    pub slug: String,
    pub name: String,
    pub description: Option<String>,
    pub instructions: Option<String>,
    pub current_version_id: Option<String>,
    pub root_feature_id: Option<String>,
    pub default_feature_destination: Option<String>,
    pub test_adapter: Option<String>,
    pub context_budget: Option<i64>,
    pub key_prefix: Option<String>,
    pub created_at: String,
    pub updated_at: String,
}

/// The project a stored row holds: destination "backlog" and an empty key
/// prefix when not stored; or the error for an id or timestamp that does not
/// parse.
pub fn project_from_row(row: ProjectRow) -> (r: Result<Project, String>)
    ensures
        r is Ok <==> (uuid_parse_result(row.id@) is Some && (row.current_version_id matches Some(v)
            ==> uuid_parse_result(v@) is Some) && (row.root_feature_id matches Some(v)
            ==> uuid_parse_result(v@) is Some) && stored_time(row.created_at@) is Some && stored_time(
            row.updated_at@,
        ) is Some),
        r matches Ok(p) ==> {
            &&& Some(p.id.0) == uuid_parse_result(row.id@)
            &&& p.slug == row.slug
            &&& p.name == row.name
            &&& p.description == row.description
            &&& p.instructions == row.instructions
            &&& p.current_version_id == (match row.current_version_id {
                Some(v) => Some(VersionId(uuid_parse_result(v@)->0)),
                None => None,
            })
            &&& p.root_feature_id == (match row.root_feature_id {
                Some(v) => Some(FeatureId(uuid_parse_result(v@)->0)),
                None => None,
            })
            &&& p.default_feature_destination@ == (match row.default_feature_destination {
                Some(d) => d@,
                None => "backlog"@,
            })
            &&& p.testing_policy == TestingPolicy::Tdd
            &&& p.test_adapter == row.test_adapter
            &&& p.context_budget == row.context_budget
            &&& p.key_prefix@ == (match row.key_prefix {
                Some(k) => k@,
                None => Seq::<char>::empty(),
            })
            &&& Some(p.created_at) == stored_time(row.created_at@)
            &&& Some(p.updated_at) == stored_time(row.updated_at@)
        },
{
    let id = match parse_id(row.id.as_str()) {
        Ok(v) => v,
        Err(e) => return Err(e),
    };
    let current = match parse_opt_id(&row.current_version_id) {
        Ok(v) => v,
        Err(e) => return Err(e),
    };
    let root = match parse_opt_id(&row.root_feature_id) {
        Ok(v) => v,
        Err(e) => return Err(e),
    };
    let created_at = match parse_datetime(row.created_at.as_str()) {
        Ok(t) => t,
        Err(e) => return Err(e),
    };
    let updated_at = match parse_datetime(row.updated_at.as_str()) {
        Ok(t) => t,
        Err(e) => return Err(e),
    };
    Ok(Project {
        id: ProjectId(id),
        slug: row.slug,
        name: row.name,
        description: row.description,
        instructions: row.instructions,
        current_version_id: match current {
            Some(v) => Some(VersionId(v)),
            None => None,
        },
        root_feature_id: match root {
            Some(v) => Some(FeatureId(v)),
            None => None,
        },
        default_feature_destination: match row.default_feature_destination {
            Some(d) => d,
            None => "backlog".to_owned(),
        },
        testing_policy: TestingPolicy::Tdd,
        test_adapter: row.test_adapter,
        context_budget: row.context_budget,
        key_prefix: match row.key_prefix {
            Some(k) => k,
            None => String::new(),
        },
        created_at,
        updated_at,
    })
}

/// The columns of a stored version.
#[derive(Debug)]
pub struct VersionRow {
    pub id: String,
    pub project_id: String,
    pub name: String,
    pub description: Option<String>,
    pub released_at: Option<String>,
    pub created_at: String,
    pub updated_at: String,
}

/// The version a stored row holds, or the error for an id or timestamp that
/// does not parse.
pub fn version_from_row(row: VersionRow) -> (r: Result<Version, String>)
    ensures
        r is Ok <==> (uuid_parse_result(row.id@) is Some && uuid_parse_result(row.project_id@) is Some
            && (row.released_at matches Some(t) ==> stored_time(t@) is Some) && stored_time(
            row.created_at@,
        ) is Some && stored_time(row.updated_at@) is Some),
        r matches Ok(v) ==> Some(v.id.0) == uuid_parse_result(row.id@) && Some(v.project_id.0)
            == uuid_parse_result(row.project_id@) && v.name == row.name && v.description
            == row.description && v.released_at == lenient_time(row.released_at) && Some(
            v.created_at,
        ) == stored_time(row.created_at@) && Some(v.updated_at) == stored_time(row.updated_at@),
{
    let id = match parse_id(row.id.as_str()) {
        Ok(v) => v,
        Err(e) => return Err(e),
    };
    let project_id = match parse_id(row.project_id.as_str()) {
        Ok(v) => v,
        Err(e) => return Err(e),
    };
    let released_at = match parse_opt_time(&row.released_at) {
        Ok(t) => t,
        Err(e) => return Err(e),
    };
    let created_at = match parse_datetime(row.created_at.as_str()) {
        Ok(t) => t,
        Err(e) => return Err(e),
    };
    let updated_at = match parse_datetime(row.updated_at.as_str()) {
        Ok(t) => t,
        Err(e) => return Err(e),
    };
    Ok(Version {
        id: VersionId(id),
        project_id: ProjectId(project_id),
        name: row.name,
        description: row.description,
        released_at,
        created_at,
        updated_at,
    })
}

/// The remote a stored row holds (sync enabled unless stored as 0), or the
/// error for an id or timestamp that does not parse.
pub fn remote_from_row(
    id: &str,
    name: String,
    provider: String,
    url: String,
    sync_enabled: i32,
    created_at: &str,
    updated_at: &str,
) -> (r: Result<Remote, String>)
    ensures
        r is Ok <==> (uuid_parse_result(id@) is Some && stored_time(created_at@) is Some && stored_time(
            updated_at@,
        ) is Some),
        r matches Ok(rm) ==> Some(rm.id.0) == uuid_parse_result(id@) && rm.name == name && rm.provider
            == provider && rm.url == url && rm.sync_enabled == (sync_enabled != 0) && Some(
            rm.created_at,
        ) == stored_time(created_at@) && Some(rm.updated_at) == stored_time(updated_at@),
{
    let v = match parse_id(id) {
        Ok(v) => v,
        Err(e) => return Err(e),
    };
    let c = match parse_datetime(created_at) {
        Ok(t) => t,
        Err(e) => return Err(e),
    };
    let u = match parse_datetime(updated_at) {
        Ok(t) => t,
        Err(e) => return Err(e),
    };
    Ok(Remote { id: RemoteId(v), name, provider, url, sync_enabled: sync_enabled != 0, created_at: c, updated_at: u })
}

/// The project-remote link a stored row holds: a sync state that is not a
/// state reads as active.
pub fn project_remote_from_row(
    project_id: &str,
    remote_id: &str,
    sync_state: &str,
    last_synced_at: &Option<String>,
) -> (r: Result<ProjectRemote, String>)
    ensures
        r is Ok <==> (uuid_parse_result(project_id@) is Some && uuid_parse_result(remote_id@) is Some
            && (*last_synced_at matches Some(t) ==> stored_time(t@) is Some)),
        r matches Ok(l) ==> Some(l.project_id.0) == uuid_parse_result(project_id@) && Some(
            l.remote_id.0,
        ) == uuid_parse_result(remote_id@) && l.sync_state == (match SyncState::from_text(
            sync_state@,
        ) {
            Some(s) => s,
            None => SyncState::Active,
        }) && l.last_synced_at == lenient_time(*last_synced_at),
{
    let p = match parse_id(project_id) {
        Ok(v) => v,
        Err(e) => return Err(e),
    };
    let rm = match parse_id(remote_id) {
        Ok(v) => v,
        Err(e) => return Err(e),
    };
    let last = match parse_opt_time(last_synced_at) {
        Ok(t) => t,
        Err(e) => return Err(e),
    };
    let state = match SyncState::from_str(sync_state) {
        Some(s) => s,
        None => SyncState::Active,
    };
    Ok(ProjectRemote { project_id: ProjectId(p), remote_id: RemoteId(rm), sync_state: state, last_synced_at: last })
}

/// The project directory a stored row holds (primary unless stored as 0).
pub fn directory_from_row(
    id: &str,
    project_id: &str,
    path: String,
    git_remote: Option<String>,
    is_primary: i32,
    instructions: Option<String>,
    created_at: &str,
) -> (r: Result<ProjectDirectory, String>)
    ensures
        r is Ok <==> (uuid_parse_result(id@) is Some && uuid_parse_result(project_id@) is Some
            && stored_time(created_at@) is Some),
        r matches Ok(d) ==> Some(d.id.0) == uuid_parse_result(id@) && Some(d.project_id.0)
            == uuid_parse_result(project_id@) && d.path == path && d.git_remote == git_remote
            && d.is_primary == (is_primary != 0) && d.instructions == instructions && Some(
            d.created_at,
        ) == stored_time(created_at@),
{
    let v = match parse_id(id) {
        Ok(v) => v,
        Err(e) => return Err(e),
    };
    let p = match parse_id(project_id) {
        Ok(v) => v,
        Err(e) => return Err(e),
    };
    let c = match parse_datetime(created_at) {
        Ok(t) => t,
        Err(e) => return Err(e),
    };
    Ok(ProjectDirectory {
        id: DirectoryId(v),
        project_id: ProjectId(p),
        path,
        git_remote,
        is_primary: is_primary != 0,
        instructions,
        created_at: c,
    })
}

/// The specification template a stored row holds (default unless stored as 0).
pub fn template_from_row(
    id: &str,
    project_id: &str,
    name: String,
    description: Option<String>,
    content: String,
    is_default: i32,
    created_at: &str,
    updated_at: &str,
) -> (r: Result<SpecTemplate, String>)
    ensures
        r is Ok <==> (uuid_parse_result(id@) is Some && uuid_parse_result(project_id@) is Some
            && stored_time(created_at@) is Some && stored_time(updated_at@) is Some),
        r matches Ok(t) ==> Some(t.id.0) == uuid_parse_result(id@) && Some(t.project_id.0)
            == uuid_parse_result(project_id@) && t.name == name && t.description == description
            && t.content == content && t.is_default == (is_default != 0) && Some(t.created_at)
            == stored_time(created_at@) && Some(t.updated_at) == stored_time(updated_at@),
{
    let v = match parse_id(id) {
        Ok(v) => v,
        Err(e) => return Err(e),
    };
    let p = match parse_id(project_id) {
        Ok(v) => v,
        Err(e) => return Err(e),
    };
    let c = match parse_datetime(created_at) {
        Ok(t) => t,
        Err(e) => return Err(e),
    };
    let u = match parse_datetime(updated_at) {
        Ok(t) => t,
        Err(e) => return Err(e),
    };
    Ok(SpecTemplate {
        id: TemplateId(v),
        project_id: ProjectId(p),
        name,
        description,
        content,
        is_default: is_default != 0,
        created_at: c,
        updated_at: u,
    })
}

} // verus!
