//! The rules of the caching store: how writes are routed, which capabilities
//! the combination has, when to sync, and what a sync does to each cached row.
//!
//! Reads come from a local cache; a sync copies newer remote rows into it.

use vstd::prelude::*;
use crate::models::feature::{CreateFeatureInput, Feature};
use crate::models::ids::FeatureId;
use crate::models::project::{CreateProjectInput, Project, UpdateProjectInput};
use crate::models::version::{CreateVersionInput, UpdateVersionInput, Version};
use crate::text::clone_opt;
use crate::time::{ts_lt, Timestamp};
use super::error::StoreError;
use super::types::{FeatureChangeset, StoreCapabilities};

verus! {

/// How writes are routed between the remote store and the cache.
#[derive(Debug, Clone, Copy, PartialEq, Eq, Structural)]
pub enum WriteStrategy {
    /// Write to the remote first, then to the cache on success.
    WriteThrough,
    /// Write to the cache only; the remote syncs by its own means.
    WriteLocal,
}

/// The capabilities of a cache in front of a remote: the cache gives search
/// and transactions, the remote gives the rest, and offline writes exist when
/// writes stay local.
pub fn merge_capabilities(
    strategy: WriteStrategy,
    remote: StoreCapabilities,
    cache: StoreCapabilities,
) -> (r: StoreCapabilities)
    ensures
        r.offline_writes == (strategy == WriteStrategy::WriteLocal),
        r.realtime_sync == remote.realtime_sync,
        r.fulltext_search == cache.fulltext_search,
        r.transactions == cache.transactions,
        r.external_ui == remote.external_ui,
        r.backend_type == remote.backend_type,
        r.max_detail_length == remote.max_detail_length,
{
    StoreCapabilities {
        offline_writes: strategy == WriteStrategy::WriteLocal,
        realtime_sync: remote.realtime_sync,
        fulltext_search: cache.fulltext_search,
        transactions: cache.transactions,
        external_ui: remote.external_ui,
        backend_type: remote.backend_type,
        max_detail_length: remote.max_detail_length,
    }
}

/// Whether a sync is due: never synced, or the interval has passed since.
pub fn sync_due(elapsed_since_sync_ms: Option<u64>, interval_ms: u64) -> (r: bool)
    ensures
        r == (match elapsed_since_sync_ms {
            None => true,
            Some(e) => e >= interval_ms,
        }),
{
    match elapsed_since_sync_ms {
        None => true,
        Some(e) => e >= interval_ms,
    }
}

/// Whether the remote counts as online after an operation on it: yes after a
/// success, no after it was unavailable, unchanged after any other error.
pub fn online_after<T>(result: &Result<T, StoreError>, was_online: bool) -> (r: bool)
    ensures
        r == (match result {
            Ok(_) => true,
            Err(StoreError::Unavailable(_)) => false,
            Err(_) => was_online,
        }),
{
    match result {
        Ok(_) => true,
        Err(StoreError::Unavailable(_)) => false,
        Err(_) => was_online,
    }
}

/// What the cache answered for a row of the remote.
#[derive(Debug, Clone, Copy)]
pub enum CacheLookup {
    /// The cache holds the row, last updated at this time.
    Found(Timestamp),
    /// The cache does not hold the row.
    Missing,
    /// The cache failed to answer.
    Failed,
}

/// The input that creates a copy of a remote project in the cache: the
/// remote's id, name, slug, texts and key prefix, without default versions.
pub open spec fn project_copy(rp: Project, c: CreateProjectInput) -> bool {
    c.id == Some(rp.id) && c.name == rp.name && c.slug == Some(rp.slug) && c.description
        == rp.description && c.instructions == rp.instructions && c.key_prefix == Some(rp.key_prefix)
        && c.skip_default_versions
}

/// The input that copies a remote project into the cache.
pub fn project_copy_input(rp: &Project) -> (c: CreateProjectInput)
    ensures
        project_copy(*rp, c),
{
    CreateProjectInput {
        id: Some(rp.id),
        name: rp.name.clone(),
        slug: Some(rp.slug.clone()),
        description: clone_opt(&rp.description),
        instructions: clone_opt(&rp.instructions),
        key_prefix: Some(rp.key_prefix.clone()),
        skip_default_versions: true,
    }
}

/// The input that copies a remote feature into the cache under `parent`.
pub fn feature_copy_input(rf: &Feature, parent: Option<FeatureId>) -> (c: CreateFeatureInput)
    ensures
        copy_input(*rf, parent, c),
{
    CreateFeatureInput {
        id: Some(rf.id),
        parent_id: parent,
        title: rf.title.clone(),
        details: clone_opt(&rf.details),
        state: Some(rf.state),
        priority: Some(rf.priority),
        target_version_id: rf.target_version_id,
    }
}

/// The input that copies a remote version into the cache.
pub fn version_copy_input(rv: &Version) -> (c: CreateVersionInput)
    ensures
        c.id == Some(rv.id),
        c.name == rv.name,
        c.description == rv.description,
{
    CreateVersionInput { id: Some(rv.id), name: rv.name.clone(), description: clone_opt(&rv.description) }
}

/// What a sync does with a remote project.
#[derive(Debug)]
pub enum ProjectSyncAction {
    /// Update the cached project, which is older.
    Update(UpdateProjectInput),
    /// Create it in the cache, with the remote's id.
    Create(CreateProjectInput),
    /// The cached project is as new: leave it.
    Keep,
    /// The cache failed: skip this project and its features and versions.
    SkipProject,
}

/// The sync of one remote project into the cache.
pub fn project_sync_action(rp: &Project, cached: CacheLookup) -> (r: ProjectSyncAction)
    ensures
        match cached {
            CacheLookup::Found(t) => if ts_lt(t, rp.updated_at) {
                r matches ProjectSyncAction::Update(u) && u.name == Some(rp.name) && u.slug == Some(
                    rp.slug,
                ) && u.description == rp.description && u.instructions == rp.instructions
                    && u.current_version_id is None && u.default_feature_destination is None
                    && u.test_adapter is None && u.context_budget is None && u.key_prefix is None
            } else {
                r is Keep
            },
            CacheLookup::Missing => r matches ProjectSyncAction::Create(c) && project_copy(*rp, c),
            CacheLookup::Failed => r is SkipProject,
        },
{
    match cached {
        CacheLookup::Found(t) => {
            if t.is_before(&rp.updated_at) {
                ProjectSyncAction::Update(
                    UpdateProjectInput {
                        name: Some(rp.name.clone()),
                        slug: Some(rp.slug.clone()),
                        description: clone_opt(&rp.description),
                        instructions: clone_opt(&rp.instructions),
                        current_version_id: None,
                        default_feature_destination: None,
                        test_adapter: None,
                        context_budget: None,
                        key_prefix: None,
                    },
                )
            } else {
                ProjectSyncAction::Keep
            }
        },
        CacheLookup::Missing => ProjectSyncAction::Create(project_copy_input(rp)),
        CacheLookup::Failed => ProjectSyncAction::SkipProject,
    }
}

/// What a sync does with a remote feature.
#[derive(Debug)]
pub enum FeatureSyncAction {
    /// Update the cached feature, which is older.
    Update(FeatureChangeset),
    /// Create it in the cache with the remote's id; if that fails, create it
    /// again without a parent.
    Create { input: CreateFeatureInput, fallback: CreateFeatureInput },
    /// The cached feature is as new: leave it.
    Keep,
    /// The cache failed: go on with the next feature.
    Skip,
}

/// The input that creates a copy of a remote feature under `parent`.
pub open spec fn copy_input(rf: Feature, parent: Option<FeatureId>, c: CreateFeatureInput) -> bool {
    c.id == Some(rf.id) && c.parent_id == parent && c.title == rf.title && c.details == rf.details
        && c.state == Some(rf.state) && c.priority == Some(rf.priority) && c.target_version_id
        == rf.target_version_id
}

/// The sync of one remote feature into the cache.
pub fn feature_sync_action(rf: &Feature, cached: CacheLookup) -> (r: FeatureSyncAction)
    ensures
        match cached {
            CacheLookup::Found(t) => if ts_lt(t, rf.updated_at) {
                r matches FeatureSyncAction::Update(cs) && cs.title == Some(rf.title) && cs.details
                    == rf.details && cs.state == Some(rf.state) && cs.priority == Some(rf.priority)
                    && cs.parent_id == Some(rf.parent_id) && cs.target_version_id == Some(
                    rf.target_version_id,
                ) && cs.desired_details is None && cs.details_summary is None
                    && cs.feature_number is None
            } else {
                r is Keep
            },
            CacheLookup::Missing => r matches FeatureSyncAction::Create { input, fallback }
                && copy_input(*rf, rf.parent_id, input) && copy_input(*rf, None, fallback),
            CacheLookup::Failed => r is Skip,
        },
{
    match cached {
        CacheLookup::Found(t) => {
            if t.is_before(&rf.updated_at) {
                FeatureSyncAction::Update(
                    FeatureChangeset {
                        title: Some(rf.title.clone()),
                        details: clone_opt(&rf.details),
                        desired_details: None,
                        details_summary: None,
                        state: Some(rf.state),
                        priority: Some(rf.priority),
                        parent_id: Some(rf.parent_id),
                        target_version_id: Some(rf.target_version_id),
                        feature_number: None,
                    },
                )
            } else {
                FeatureSyncAction::Keep
            }
        },
        CacheLookup::Missing => FeatureSyncAction::Create {
            input: feature_copy_input(rf, rf.parent_id),
            fallback: feature_copy_input(rf, None),
        },
        CacheLookup::Failed => FeatureSyncAction::Skip,
    }
}

/// What a sync does with a remote version.
#[derive(Debug)]
pub enum VersionSyncAction {
    /// Update the cached version, which is older.
    Update(UpdateVersionInput),
    /// Create it in the cache with the remote's id.
    Create(CreateVersionInput),
    /// The cached version is as new: leave it.
    Keep,
    /// The cache failed: go on with the next version.
    Skip,
}

/// The sync of one remote version into the cache.
pub fn version_sync_action(rv: &Version, cached: CacheLookup) -> (r: VersionSyncAction)
    ensures
        match cached {
            CacheLookup::Found(t) => if ts_lt(t, rv.updated_at) {
                r matches VersionSyncAction::Update(u) && u.name == Some(rv.name) && u.description
                    == rv.description && u.released_at == rv.released_at
            } else {
                r is Keep
            },
            CacheLookup::Missing => r matches VersionSyncAction::Create(c) && c.id == Some(rv.id)
                && c.name == rv.name && c.description == rv.description,
            CacheLookup::Failed => r is Skip,
        },
{
    match cached {
        CacheLookup::Found(t) => {
            if t.is_before(&rv.updated_at) {
                VersionSyncAction::Update(
                    UpdateVersionInput {
                        name: Some(rv.name.clone()),
                        description: clone_opt(&rv.description),
                        released_at: rv.released_at,
                    },
                )
            } else {
                VersionSyncAction::Keep
            }
        },
        CacheLookup::Missing => VersionSyncAction::Create(version_copy_input(rv)),
        CacheLookup::Failed => VersionSyncAction::Skip,
    }
}

} // verus!
