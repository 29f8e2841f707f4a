//! The rules for features: what creating, updating, claiming and completing a
//! feature writes, and the guard rails that refuse a request.
//!
//! Each function takes the rows and facts that the database gave (the
//! feature, its project, whether it has children, the "next" version, ...)
//! and returns the row to write or the error to answer with.

use vstd::prelude::*;
use crate::models::feature::{
    BreadcrumbItem, CreateFeatureInput, Feature, FeatureDiff, FeatureState, UpdateFeatureInput,
};
use crate::models::ids::{FeatureId, VersionId};
use crate::models::project::{Project, TestingPolicy};
use crate::models::test_proof::Proof;
use crate::text::{
    chars_of, clone_opt, opt_eq, opt_view, parse_i32, parse_i32_spec, slice_vec, str_eq, string_of,
    to_upper, upper_char,
};
use crate::time::{ts_le, ts_lt, Timestamp};
use super::ManifestError;

verus! {

// ------------------------------------------------------------------
// Diff
// ------------------------------------------------------------------

/// The difference between a feature's details and its desired details: there
/// are changes when desired details exist and differ from the details.
pub fn feature_diff(feature: Feature) -> (r: FeatureDiff)
    ensures
        r.has_changes == (feature.desired_details is Some && opt_view(feature.desired_details)
            != opt_view(feature.details)),
        r.current == feature.details,
        r.desired == feature.desired_details,
{
    let has_changes = feature.desired_details.is_some() && !opt_eq(
        &feature.desired_details,
        &feature.details,
    );
    FeatureDiff { has_changes, current: feature.details, desired: feature.desired_details }
}

// ------------------------------------------------------------------
// Creation
// ------------------------------------------------------------------

/// Whether new features of a project go to the "next" version by default.
pub open spec fn defaults_to_next(project: Project) -> bool {
    project.default_feature_destination@ == "next"@
}

/// The version a new feature is assigned to: in-progress and implemented
/// features go to the "next" version (or the one asked for, if there is no
/// next one); others go to the one asked for, else to the next version when
/// the project's destination is "next", else to the backlog.
pub open spec fn initial_target(
    state: FeatureState,
    asked: Option<VersionId>,
    to_next: bool,
    next_version: Option<VersionId>,
) -> Option<VersionId> {
    if state == FeatureState::InProgress || state == FeatureState::Implemented {
        match next_version {
            Some(v) => Some(v),
            None => asked,
        }
    } else {
        match asked {
            Some(v) => Some(v),
            None => if to_next {
                next_version
            } else {
                None
            },
        }
    }
}

/// The parent of a new feature: the one asked for, else the project's root.
pub open spec fn initial_parent(project: Project, input: CreateFeatureInput) -> Option<FeatureId> {
    match input.parent_id {
        Some(p) => Some(p),
        None => project.root_feature_id,
    }
}

/// The row written for a new feature with parent `parent`.
pub open spec fn new_feature_row(
    project: Project,
    input: CreateFeatureInput,
    parent: FeatureId,
    next_version: Option<VersionId>,
    fresh_id: FeatureId,
    number: i32,
    now: Timestamp,
) -> Feature {
    let state = match input.state {
        Some(s) => s,
        None => FeatureState::Proposed,
    };
    Feature {
        id: match input.id {
            Some(i) => i,
            None => fresh_id,
        },
        project_id: project.id,
        parent_id: Some(parent),
        title: input.title,
        details: input.details,
        desired_details: None,
        details_summary: None,
        state,
        priority: match input.priority {
            Some(p) => p,
            None => 0,
        },
        feature_number: Some(number),
        target_version_id: initial_target(state, input.target_version_id, defaults_to_next(project), next_version),
        verification_result: None,
        verified_at: None,
        claimed_by: None,
        claimed_at: None,
        claim_metadata: None,
        created_at: now,
        updated_at: now,
    }
}

pub open spec fn no_parent_message() -> Seq<char> {
    "Feature must have a parent"@
}

fn destination_is_next(project: &Project) -> (r: bool)
    ensures
        r == defaults_to_next(*project),
{
    str_eq(project.default_feature_destination.as_str(), "next")
}

fn target_for(state: FeatureState, asked: Option<VersionId>, to_next: bool, next_version: Option<VersionId>) -> (r: Option<VersionId>)
    ensures
        r == initial_target(state, asked, to_next, next_version),
{
    if state == FeatureState::InProgress || state == FeatureState::Implemented {
        match next_version {
            Some(v) => Some(v),
            None => asked,
        }
    } else {
        match asked {
            Some(v) => Some(v),
            None => if to_next {
                next_version
            } else {
                None
            },
        }
    }
}

fn build_new_feature(
    project: &Project,
    input: CreateFeatureInput,
    parent: FeatureId,
    next_version: Option<VersionId>,
    fresh_id: FeatureId,
    number: i32,
    now: Timestamp,
) -> (r: Feature)
    ensures
        r == new_feature_row(*project, input, parent, next_version, fresh_id, number, now),
{
    let state = match input.state {
        Some(s) => s,
        None => FeatureState::Proposed,
    };
    let target = target_for(state, input.target_version_id, destination_is_next(project), next_version);
    Feature {
        id: match input.id {
            Some(i) => i,
            None => fresh_id,
        },
        project_id: project.id,
        parent_id: Some(parent),
        title: input.title,
        details: input.details,
        desired_details: None,
        details_summary: None,
        state,
        priority: match input.priority {
            Some(p) => p,
            None => 0,
        },
        feature_number: Some(number),
        target_version_id: target,
        verification_result: None,
        verified_at: None,
        claimed_by: None,
        claimed_at: None,
        claim_metadata: None,
        created_at: now,
        updated_at: now,
    }
}

/// The feature that creating `input` in `project` writes, or the error: a
/// feature with no parent (none asked for and no project root), then the
/// outcome of checking the version asked for (`version_check`, consulted only
/// when a version is asked for). The feature gets `number` as its feature
/// number and the id asked for, else `fresh_id`.
pub fn plan_create_feature(
    project: &Project,
    input: CreateFeatureInput,
    version_check: Result<(), ManifestError>,
    next_version: Option<VersionId>,
    fresh_id: FeatureId,
    number: i32,
    now: Timestamp,
) -> (r: Result<Feature, ManifestError>)
    ensures
        initial_parent(*project, input) is None ==> (r matches Err(ManifestError::Validation(m))
            && m@ == no_parent_message()),
        (initial_parent(*project, input) is Some && input.target_version_id is Some
            && version_check is Err) ==> r == Err::<Feature, ManifestError>(
            version_check->Err_0,
        ),
        r is Ok <==> (initial_parent(*project, input) is Some && (input.target_version_id is None
            || version_check is Ok)),
        r matches Ok(f) ==> f == new_feature_row(
            *project,
            input,
            initial_parent(*project, input)->0,
            next_version,
            fresh_id,
            number,
            now,
        ),
{
    let parent = match input.parent_id {
        Some(p) => p,
        None => match project.root_feature_id {
            Some(p) => p,
            None => {
                proof {
                    reveal_strlit("Feature must have a parent");
                }
                return Err(ManifestError::validation("Feature must have a parent"));
            },
        },
    };
    if input.target_version_id.is_some() {
        match version_check {
            Err(e) => return Err(e),
            Ok(()) => {},
        }
    }
    Ok(build_new_feature(project, input, parent, next_version, fresh_id, number, now))
}

/// The features that creating `inputs` at once writes, or the error: first the
/// outcome of checking all versions asked for, then the first input with no
/// parent. Input `i` gets feature number `first_number + i` and the id asked
/// for, else `fresh_ids[i]`.
pub fn plan_create_features_bulk(
    project: &Project,
    inputs: Vec<CreateFeatureInput>,
    version_check: Result<(), ManifestError>,
    next_version: Option<VersionId>,
    fresh_ids: Vec<FeatureId>,
    first_number: i32,
    now: Timestamp,
) -> (r: Result<Vec<Feature>, ManifestError>)
    requires
        fresh_ids@.len() == inputs@.len(),
        first_number + inputs@.len() <= i32::MAX,
    ensures
        version_check is Err ==> r == Err::<Vec<Feature>, ManifestError>(version_check->Err_0),
        (version_check is Ok && exists|i: int|
            0 <= i < inputs@.len() && initial_parent(*project, #[trigger] inputs@[i]) is None) ==> (r matches Err(
            ManifestError::Validation(m),
        ) && m@ == no_parent_message()),
        r is Ok <==> (version_check is Ok && forall|i: int|
            0 <= i < inputs@.len() ==> initial_parent(*project, #[trigger] inputs@[i]) is Some),
        r matches Ok(fs) ==> fs@.len() == inputs@.len() && forall|i: int|
            0 <= i < inputs@.len() ==> #[trigger] fs@[i] == new_feature_row(
                *project,
                inputs@[i],
                initial_parent(*project, inputs@[i])->0,
                next_version,
                fresh_ids@[i],
                (first_number + i) as i32,
                now,
            ),
{
    match version_check {
        Err(e) => return Err(e),
        Ok(()) => {},
    }
    let ghost all = inputs@;
    let mut k: usize = 0;
    while k < inputs.len()
        invariant
            k <= inputs@.len(),
            inputs@ == all,
            version_check is Ok,
            forall|i: int| 0 <= i < k ==> initial_parent(*project, #[trigger] all[i]) is Some,
        decreases inputs@.len() - k,
    {
        if inputs[k].parent_id.is_none() && project.root_feature_id.is_none() {
            proof {
                reveal_strlit("Feature must have a parent");
            }
            return Err(ManifestError::validation("Feature must have a parent"));
        }
        k = k + 1;
    }
    let mut out: Vec<Feature> = Vec::new();
    let mut rest = inputs;
    let mut i: usize = 0;
    let mut number = first_number;
    let ghost n = all.len();
    while rest.len() > 0
        invariant
            i + rest@.len() == n,
            n == all.len(),
            version_check is Ok,
            fresh_ids@.len() == n,
            number == first_number + i,
            first_number + n <= i32::MAX,
            rest@ == all.skip(i as int),
            forall|j: int| 0 <= j < n ==> initial_parent(*project, #[trigger] all[j]) is Some,
            out@.len() == i,
            forall|j: int|
                0 <= j < i ==> #[trigger] out@[j] == new_feature_row(
                    *project,
                    all[j],
                    initial_parent(*project, all[j])->0,
                    next_version,
                    fresh_ids@[j],
                    (first_number + j) as i32,
                    now,
                ),
        decreases rest@.len(),
    {
        let input = rest.remove(0);
        assert(input == all[i as int]);
        assert(rest@ =~= all.skip(i as int + 1));
        let parent = match input.parent_id {
            Some(p) => p,
            None => project.root_feature_id.unwrap(),
        };
        let f = build_new_feature(project, input, parent, next_version, fresh_ids[i], number, now);
        out.push(f);
        i = i + 1;
        number = number + 1;
    }
    Ok(out)
}

// ------------------------------------------------------------------
// Update
// ------------------------------------------------------------------

/// What to do with a feature's stored blockers after an update.
#[derive(Debug)]
pub enum BlockerAction {
    /// Leave them as they are.
    Keep,
    /// Replace them with these features.
    Replace(Vec<FeatureId>),
    /// Remove them all.
    Clear,
}

/// The result of an accepted update.
#[derive(Debug)]
pub struct FeatureUpdate {
    /// The row to write.
    pub feature: Feature,
    /// What to do with the stored blockers.
    pub blockers: BlockerAction,
    /// Whether the feature just became implemented, so that the features it
    /// blocks are to be checked for release.
    pub auto_resolve: bool,
}

pub open spec fn feature_set_message() -> Seq<char> {
    "Cannot change state on a feature set. Feature sets group related capabilities — only leaf features have mutable state. To work on this area, start one of its child features instead."@
}

pub open spec fn only_proposed_message() -> Seq<char> {
    "Only proposed features can be blocked. Current state must be 'proposed'."@
}

pub open spec fn no_blockers_message() -> Seq<char> {
    "blocked_by must contain at least one feature ID when transitioning to blocked."@
}

pub open spec fn self_block_message() -> Seq<char> {
    "A feature cannot block itself."@
}

pub open spec fn foreign_blocker_message() -> Seq<char> {
    "All blocker features must exist in the same project."@
}

pub open spec fn unblock_message() -> Seq<char> {
    "Blocked features can only transition to 'proposed'. Unblock first, then change state."@
}

/// The blockers asked for, as a sequence (none when not given).
pub open spec fn blocker_seq(input: UpdateFeatureInput) -> Seq<FeatureId> {
    match input.blocked_by {
        Some(v) => v@,
        None => seq![],
    }
}

/// A state change on a feature set, other than between proposed and blocked.
pub open spec fn rejects_set_change(existing: Feature, input: UpdateFeatureInput, is_leaf: bool) -> bool {
    input.state is Some && !is_leaf && !((existing.state == FeatureState::Proposed && input.state
        == Some(FeatureState::Blocked)) || (existing.state == FeatureState::Blocked && input.state
        == Some(FeatureState::Proposed)))
}

pub open spec fn to_blocked(input: UpdateFeatureInput) -> bool {
    input.state == Some(FeatureState::Blocked)
}

/// Which guard rail an update breaks, in the order they are checked.
pub open spec fn update_violation(
    existing: Feature,
    input: UpdateFeatureInput,
    is_leaf: bool,
    blockers_in_project: i64,
) -> Option<(bool, Seq<char>)> {
    if rejects_set_change(existing, input, is_leaf) {
        Some((false, feature_set_message()))
    } else if to_blocked(input) && existing.state != FeatureState::Proposed {
        Some((false, only_proposed_message()))
    } else if to_blocked(input) && blocker_seq(input).len() == 0 {
        Some((true, no_blockers_message()))
    } else if to_blocked(input) && blocker_seq(input).contains(existing.id) {
        Some((true, self_block_message()))
    } else if to_blocked(input) && blockers_in_project != blocker_seq(input).len() {
        Some((true, foreign_blocker_message()))
    } else if existing.state == FeatureState::Blocked && input.state is Some && !to_blocked(input)
        && input.state != Some(FeatureState::Proposed) {
        Some((false, unblock_message()))
    } else {
        None
    }
}

/// The error for a broken guard rail: a validation error when the flag is set,
/// else an invalid-state error.
pub open spec fn is_violation_error(e: ManifestError, v: (bool, Seq<char>)) -> bool {
    if v.0 {
        e matches ManifestError::Validation(m) && m@ == v.1
    } else {
        e matches ManifestError::InvalidState(m) && m@ == v.1
    }
}

/// The details before desired details are redirected: the new ones, else the
/// stored ones.
pub open spec fn merged_details(existing: Feature, input: UpdateFeatureInput) -> Option<String> {
    match input.details {
        Some(d) => Some(d),
        None => existing.details,
    }
}

/// Desired details are only for proposing changes to implemented features:
/// for any other feature, new desired details are written as its details.
pub open spec fn redirects_desired(existing: Feature, input: UpdateFeatureInput) -> bool {
    existing.state != FeatureState::Implemented && input.desired_details matches Some(Some(_))
}

pub open spec fn new_details(existing: Feature, input: UpdateFeatureInput) -> Option<String> {
    if redirects_desired(existing, input) {
        input.desired_details->0
    } else {
        merged_details(existing, input)
    }
}

/// The desired details after the update. On an implemented feature, desired
/// details equal to the details are dropped.
pub open spec fn new_desired(existing: Feature, input: UpdateFeatureInput) -> Option<String> {
    if redirects_desired(existing, input) {
        existing.desired_details
    } else {
        let d = match input.desired_details {
            Some(x) => x,
            None => existing.desired_details,
        };
        if existing.state == FeatureState::Implemented && d is Some && opt_view(d) == opt_view(
            merged_details(existing, input),
        ) {
            None
        } else {
            d
        }
    }
}

/// Whether the update proposes changes to an implemented feature (desired
/// details appear where there were none); a proposal keeps the state.
pub open spec fn proposes(existing: Feature, input: UpdateFeatureInput) -> bool {
    existing.state == FeatureState::Implemented && new_desired(existing, input) is Some
        && existing.desired_details is None
}

pub open spec fn new_state(existing: Feature, input: UpdateFeatureInput) -> FeatureState {
    if proposes(existing, input) {
        existing.state
    } else {
        match input.state {
            Some(s) => s,
            None => existing.state,
        }
    }
}

/// The version after the update: the one given (or kept); a feature that
/// starts progress moves to the "next" version; an implemented feature with
/// no version gets the "next" one.
pub open spec fn new_target(
    existing: Feature,
    input: UpdateFeatureInput,
    next_version: Option<VersionId>,
) -> Option<VersionId> {
    let st = new_state(existing, input);
    let t0 = match input.target_version_id {
        Some(t) => t,
        None => existing.target_version_id,
    };
    let t1 = if st == FeatureState::InProgress && existing.state != FeatureState::InProgress
        && next_version is Some {
        next_version
    } else {
        t0
    };
    if st == FeatureState::Implemented && t1 is None {
        next_version
    } else {
        t1
    }
}

/// The row written by an accepted update.
pub open spec fn updated_row(
    existing: Feature,
    input: UpdateFeatureInput,
    next_version: Option<VersionId>,
    now: Timestamp,
) -> Feature {
    Feature {
        id: existing.id,
        project_id: existing.project_id,
        parent_id: match input.parent_id {
            Some(p) => p,
            None => existing.parent_id,
        },
        title: match input.title {
            Some(t) => t,
            None => existing.title,
        },
        details: new_details(existing, input),
        desired_details: new_desired(existing, input),
        details_summary: match input.details_summary {
            Some(s) => s,
            None => existing.details_summary,
        },
        state: new_state(existing, input),
        priority: match input.priority {
            Some(p) => p,
            None => existing.priority,
        },
        feature_number: existing.feature_number,
        target_version_id: new_target(existing, input, next_version),
        verification_result: existing.verification_result,
        verified_at: existing.verified_at,
        claimed_by: existing.claimed_by,
        claimed_at: existing.claimed_at,
        claim_metadata: existing.claim_metadata,
        created_at: existing.created_at,
        updated_at: now,
    }
}

/// What happens to the stored blockers: replaced by those given when the
/// feature becomes blocked, removed when it goes from blocked to proposed.
pub open spec fn blocker_effect(existing: Feature, input: UpdateFeatureInput, b: BlockerAction) -> bool {
    let st = new_state(existing, input);
    if st == FeatureState::Blocked && input.blocked_by is Some {
        b matches BlockerAction::Replace(v) && v@ == blocker_seq(input)
    } else if existing.state == FeatureState::Blocked && st == FeatureState::Proposed {
        b is Clear
    } else {
        b is Keep
    }
}

fn violation_error(validation: bool, msg: &str) -> (r: ManifestError)
    ensures
        is_violation_error(r, (validation, msg@)),
{
    if validation {
        ManifestError::validation(msg)
    } else {
        ManifestError::invalid_state(msg)
    }
}

fn contains_id(ids: &Vec<FeatureId>, id: FeatureId) -> (r: bool)
    ensures
        r == ids@.contains(id),
{
    let mut i: usize = 0;
    while i < ids.len()
        invariant
            i <= ids@.len(),
            forall|j: int| 0 <= j < i ==> ids@[j] != id,
        decreases ids@.len() - i,
    {
        if ids[i] == id {
            return true;
        }
        i = i + 1;
    }
    false
}

/// The first guard rail an update breaks, checked in order.
fn check_update(
    existing: &Feature,
    input: &UpdateFeatureInput,
    is_leaf: bool,
    blockers_in_project: i64,
) -> (r: Option<ManifestError>)
    ensures
        match update_violation(*existing, *input, is_leaf, blockers_in_project) {
            Some(v) => r matches Some(e) && is_violation_error(e, v),
            None => r is None,
        },
{
    proof {
        reveal_strlit("Cannot change state on a feature set. Feature sets group related capabilities — only leaf features have mutable state. To work on this area, start one of its child features instead.");
    }
    if input.state.is_some() && !is_leaf {
        let blocked_transition = (existing.state == FeatureState::Proposed && input.state == Some(
            FeatureState::Blocked,
        )) || (existing.state == FeatureState::Blocked && input.state == Some(
            FeatureState::Proposed,
        ));
        if !blocked_transition {
            return Some(
                violation_error(
                    false,
                    "Cannot change state on a feature set. Feature sets group related capabilities — only leaf features have mutable state. To work on this area, start one of its child features instead.",
                ),
            );
        }
    }
    if input.state == Some(FeatureState::Blocked) {
        if existing.state != FeatureState::Proposed {
            return Some(
                violation_error(
                    false,
                    "Only proposed features can be blocked. Current state must be 'proposed'.",
                ),
            );
        }
        let n: usize = match &input.blocked_by {
            Some(v) => v.len(),
            None => 0,
        };
        if n == 0 {
            return Some(
                violation_error(
                    true,
                    "blocked_by must contain at least one feature ID when transitioning to blocked.",
                ),
            );
        }
        let self_ref = match &input.blocked_by {
            Some(v) => contains_id(v, existing.id),
            None => false,
        };
        if self_ref {
            return Some(violation_error(true, "A feature cannot block itself."));
        }
        if (blockers_in_project as i128) != (n as i128) {
            return Some(violation_error(true, "All blocker features must exist in the same project."));
        }
    }
    if existing.state == FeatureState::Blocked && input.state.is_some() && input.state != Some(
        FeatureState::Blocked,
    ) && input.state != Some(FeatureState::Proposed) {
        return Some(
            violation_error(
                false,
                "Blocked features can only transition to 'proposed'. Unblock first, then change state.",
            ),
        );
    }
    None
}

/// The update of a feature: the row to write and what follows from it, or
/// the error. The guard rails are checked in this order: a state change on a
/// feature set (other than proposed and blocked), blocking a feature that is
/// not proposed, blocking without blockers, blocking by itself, blocking by
/// features that are not all in the project (`blockers_in_project` is how
/// many of the given blockers the project holds), leaving blocked for another
/// state than proposed; then the outcome of checking a newly assigned version
/// (`version_check`, consulted only when a version is assigned).
pub fn plan_update_feature(
    existing: Feature,
    input: UpdateFeatureInput,
    is_leaf: bool,
    blockers_in_project: i64,
    version_check: Result<(), ManifestError>,
    next_version: Option<VersionId>,
    now: Timestamp,
) -> (r: Result<FeatureUpdate, ManifestError>)
    ensures
        update_violation(existing, input, is_leaf, blockers_in_project) matches Some(v) ==> (r matches Err(e)
            && is_violation_error(e, v)),
        (update_violation(existing, input, is_leaf, blockers_in_project) is None
            && (input.target_version_id matches Some(Some(_))) && version_check is Err) ==> r == Err::<
            FeatureUpdate,
            ManifestError,
        >(version_check->Err_0),
        r is Ok <==> (update_violation(existing, input, is_leaf, blockers_in_project) is None && (
        !(input.target_version_id matches Some(Some(_))) || version_check is Ok)),
        r matches Ok(u) ==> u.feature == updated_row(existing, input, next_version, now)
            && blocker_effect(existing, input, u.blockers) && u.auto_resolve == (new_state(
            existing,
            input,
        ) == FeatureState::Implemented && existing.state != FeatureState::Implemented),
{
    match check_update(&existing, &input, is_leaf, blockers_in_project) {
        Some(e) => return Err(e),
        None => {},
    }
    match &input.target_version_id {
        Some(Some(_)) => match version_check {
            Err(e) => return Err(e),
            Ok(()) => {},
        },
        _ => {},
    }
    let ghost ex = existing;
    let ghost inp = input;
    let had_desired = existing.desired_details.is_some();
    let merged = match input.details {
        Some(d) => Some(d),
        None => existing.details,
    };
    let redirect = existing.state != FeatureState::Implemented && match &input.desired_details {
        Some(Some(_)) => true,
        _ => false,
    };
    let (details, desired) = if redirect {
        (input.desired_details.unwrap(), existing.desired_details)
    } else {
        let d = match input.desired_details {
            Some(x) => x,
            None => existing.desired_details,
        };
        if existing.state == FeatureState::Implemented && d.is_some() && opt_eq(&d, &merged) {
            (merged, None)
        } else {
            (merged, d)
        }
    };
    assert(details == new_details(ex, inp));
    assert(desired == new_desired(ex, inp));
    let proposing = existing.state == FeatureState::Implemented && desired.is_some()
        && !had_desired;
    let state = if proposing {
        existing.state
    } else {
        match input.state {
            Some(s) => s,
            None => existing.state,
        }
    };
    let mut target = match input.target_version_id {
        Some(t) => t,
        None => existing.target_version_id,
    };
    if state == FeatureState::InProgress && existing.state != FeatureState::InProgress {
        if next_version.is_some() {
            target = next_version;
        }
    }
    if state == FeatureState::Implemented && target.is_none() {
        target = next_version;
    }
    let blockers = if state == FeatureState::Blocked && input.blocked_by.is_some() {
        BlockerAction::Replace(input.blocked_by.unwrap())
    } else if existing.state == FeatureState::Blocked && state == FeatureState::Proposed {
        BlockerAction::Clear
    } else {
        BlockerAction::Keep
    };
    let auto_resolve = state == FeatureState::Implemented && existing.state
        != FeatureState::Implemented;
    let feature = Feature {
        id: existing.id,
        project_id: existing.project_id,
        parent_id: match input.parent_id {
            Some(p) => p,
            None => existing.parent_id,
        },
        title: match input.title {
            Some(t) => t,
            None => existing.title,
        },
        details,
        desired_details: desired,
        details_summary: match input.details_summary {
            Some(s) => s,
            None => existing.details_summary,
        },
        state,
        priority: match input.priority {
            Some(p) => p,
            None => existing.priority,
        },
        feature_number: existing.feature_number,
        target_version_id: target,
        verification_result: existing.verification_result,
        verified_at: existing.verified_at,
        claimed_by: existing.claimed_by,
        claimed_at: existing.claimed_at,
        claim_metadata: existing.claim_metadata,
        created_at: existing.created_at,
        updated_at: now,
    };
    Ok(FeatureUpdate { feature, blockers, auto_resolve })
}

/// An update that gives no field: every field of the input left out.
pub open spec fn empty_update(input: UpdateFeatureInput) -> bool {
    &&& input.parent_id is None
    &&& input.title is None
    &&& input.details is None
    &&& input.desired_details is None
    &&& input.details_summary is None
    &&& input.state is None
    &&& input.priority is None
    &&& input.target_version_id is None
    &&& input.blocked_by is None
}

/// An update that gives no field is accepted and writes the feature back
/// unchanged but for its update time, unless the feature is implemented and
/// either has no version (it then gets the "next" one) or has desired details
/// equal to its details (they are then dropped).
pub proof fn lemma_empty_update_keeps_feature(
    existing: Feature,
    input: UpdateFeatureInput,
    is_leaf: bool,
    blockers_in_project: i64,
    next_version: Option<VersionId>,
    now: Timestamp,
)
    requires
        empty_update(input),
        !(existing.state == FeatureState::Implemented && existing.target_version_id is None),
        !(existing.state == FeatureState::Implemented && existing.desired_details is Some && opt_view(
            existing.desired_details,
        ) == opt_view(existing.details)),
    ensures
        update_violation(existing, input, is_leaf, blockers_in_project) is None,
        updated_row(existing, input, next_version, now) == (Feature { updated_at: now, ..existing }),
{
}

/// States in accepted updates: a feature set (a feature with children)
/// changes state only between proposed and blocked; only a proposed feature
/// becomes blocked, it then has at least one blocker, none of them itself;
/// and a blocked feature leaves that state only to become proposed.
pub proof fn lemma_state_transitions(
    existing: Feature,
    input: UpdateFeatureInput,
    is_leaf: bool,
    blockers_in_project: i64,
)
    requires
        update_violation(existing, input, is_leaf, blockers_in_project) is None,
    ensures
        new_state(existing, input) == FeatureState::Blocked && existing.state != FeatureState::Blocked
            ==> existing.state == FeatureState::Proposed && blocker_seq(input).len() > 0
            && !blocker_seq(input).contains(existing.id),
        existing.state == FeatureState::Blocked ==> (new_state(existing, input)
            == FeatureState::Blocked || new_state(existing, input) == FeatureState::Proposed),
        !is_leaf && new_state(existing, input) != existing.state ==> (existing.state
            == FeatureState::Proposed && new_state(existing, input) == FeatureState::Blocked)
            || (existing.state == FeatureState::Blocked && new_state(existing, input)
            == FeatureState::Proposed),
{
}

/// A proposal of changes to an implemented feature keeps its state, whatever
/// state the update asks for.
pub proof fn lemma_proposal_keeps_state(existing: Feature, input: UpdateFeatureInput)
    requires
        proposes(existing, input),
    ensures
        new_state(existing, input) == existing.state,
        existing.state == FeatureState::Implemented,
{
}

/// Work starts in the "next" version: when a "next" version exists, a
/// feature created in progress or implemented, a feature that an update
/// moves into progress, and a feature that a claim moves into progress all
/// land in it, and an update that leaves a feature implemented never leaves
/// it without a version.
pub proof fn lemma_work_lands_in_next_version(
    state: FeatureState,
    asked: Option<VersionId>,
    to_next: bool,
    existing: Feature,
    input: UpdateFeatureInput,
    next: VersionId,
    agent_type: Seq<char>,
    metadata: Option<Seq<char>>,
    now: Timestamp,
    claimed: Feature,
)
    ensures
        (state == FeatureState::InProgress || state == FeatureState::Implemented) ==> initial_target(
            state,
            asked,
            to_next,
            Some(next),
        ) == Some(next),
        (existing.state != FeatureState::InProgress && new_state(existing, input)
            == FeatureState::InProgress) ==> new_target(existing, input, Some(next)) == Some(next),
        new_state(existing, input) == FeatureState::Implemented ==> new_target(
            existing,
            input,
            Some(next),
        ) is Some,
        (existing.state != FeatureState::InProgress && claimed_row(
            existing,
            agent_type,
            metadata,
            Some(next),
            now,
            claimed,
        ) && claimed.state == FeatureState::InProgress) ==> claimed.target_version_id == Some(next),
{
}

// ------------------------------------------------------------------
// Claims
// ------------------------------------------------------------------

/// Whether a claim is refused: another agent holds a claim on the feature,
/// which is in progress, and the claim is not forced.
pub open spec fn claim_conflicts(feature: Feature, force: bool) -> bool {
    !force && feature.claimed_by is Some && feature.state == FeatureState::InProgress
}

/// The state after a claim: proposed and implemented features go in progress.
pub open spec fn claimed_state(s: FeatureState) -> FeatureState {
    if s == FeatureState::Proposed || s == FeatureState::Implemented {
        FeatureState::InProgress
    } else {
        s
    }
}

/// The row after a successful claim.
pub open spec fn claimed_row(
    feature: Feature,
    agent_type: Seq<char>,
    metadata: Option<Seq<char>>,
    next_version: Option<VersionId>,
    now: Timestamp,
    r: Feature,
) -> bool {
    let st = claimed_state(feature.state);
    &&& r.id == feature.id
    &&& r.project_id == feature.project_id
    &&& r.parent_id == feature.parent_id
    &&& r.title == feature.title
    &&& r.details == feature.details
    &&& r.desired_details == feature.desired_details
    &&& r.details_summary == feature.details_summary
    &&& r.state == st
    &&& r.priority == feature.priority
    &&& r.feature_number == feature.feature_number
    &&& r.target_version_id == (if st == FeatureState::InProgress && feature.state
        != FeatureState::InProgress {
        match next_version {
            Some(v) => Some(v),
            None => feature.target_version_id,
        }
    } else {
        feature.target_version_id
    })
    &&& r.verification_result == feature.verification_result
    &&& r.verified_at == feature.verified_at
    &&& opt_view(r.claimed_by) == Some(agent_type)
    &&& r.claimed_at == Some(now)
    &&& opt_view(r.claim_metadata) == metadata
    &&& r.created_at == feature.created_at
    &&& r.updated_at == now
}

/// The text of an optional instant, or empty.
pub open spec fn claimed_at_text(t: Option<Timestamp>) -> Seq<char> {
    match t {
        Some(x) => match crate::time::rfc3339_text(x.secs, x.nanos) {
            Some(s) => s,
            None => seq![],
        },
        None => seq![],
    }
}

pub open spec fn opt_str_seq(o: Option<&str>) -> Option<Seq<char>> {
    match o {
        Some(s) => Some(s@),
        None => None,
    }
}

/// A claim of a feature by an agent: the row after it, or the claim conflict
/// naming the agent that holds the feature. A claimed proposed or implemented
/// feature goes in progress and, when it starts progress, to the "next"
/// version.
pub fn plan_claim(
    feature: Feature,
    agent_type: &str,
    metadata: Option<&str>,
    force: bool,
    next_version: Option<VersionId>,
    now: Timestamp,
) -> (r: Result<Feature, ManifestError>)
    ensures
        claim_conflicts(feature, force) <==> r is Err,
        r matches Err(e) ==> (e matches ManifestError::ClaimConflict(c) && opt_view(feature.claimed_by)
            == Some(c.agent_type@) && c.feature_id@ == crate::uuid_support::uuid_text(feature.id.0)
            && c.claimed_at@ == claimed_at_text(feature.claimed_at) && c.claim_metadata
            == feature.claim_metadata),
        r matches Ok(f) ==> claimed_row(feature, agent_type@, opt_str_seq(metadata), next_version, now, f),
{
    if !force && feature.claimed_by.is_some() && feature.state == FeatureState::InProgress {
        let claimed_at = match feature.claimed_at {
            Some(t) => match crate::time::format_rfc3339(t) {
                Some(s) => s,
                None => String::new(),
            },
            None => String::new(),
        };
        let info = super::ClaimConflictInfo {
            agent_type: feature.claimed_by.unwrap(),
            feature_id: feature.id.to_string(),
            claimed_at,
            claim_metadata: feature.claim_metadata,
        };
        return Err(ManifestError::ClaimConflict(info));
    }
    let st = if feature.state == FeatureState::Proposed || feature.state == FeatureState::Implemented {
        FeatureState::InProgress
    } else {
        feature.state
    };
    let target = if st == FeatureState::InProgress && feature.state != FeatureState::InProgress {
        match next_version {
            Some(v) => Some(v),
            None => feature.target_version_id,
        }
    } else {
        feature.target_version_id
    };
    let claim_metadata = match metadata {
        Some(m) => Some(m.to_owned()),
        None => None,
    };
    Ok(Feature {
        id: feature.id,
        project_id: feature.project_id,
        parent_id: feature.parent_id,
        title: feature.title,
        details: feature.details,
        desired_details: feature.desired_details,
        details_summary: feature.details_summary,
        state: st,
        priority: feature.priority,
        feature_number: feature.feature_number,
        target_version_id: target,
        verification_result: feature.verification_result,
        verified_at: feature.verified_at,
        claimed_by: Some(agent_type.to_owned()),
        claimed_at: Some(now),
        claim_metadata,
        created_at: feature.created_at,
        updated_at: now,
    })
}

/// Claims exclude each other: once an agent has claimed a feature that was
/// proposed, in progress or implemented, a second claim that is not forced is
/// refused, and a forced claim never is.
pub proof fn lemma_claim_excludes(
    feature: Feature,
    agent_type: Seq<char>,
    metadata: Option<Seq<char>>,
    next_version: Option<VersionId>,
    now: Timestamp,
    claimed: Feature,
)
    requires
        feature.state == FeatureState::Proposed || feature.state == FeatureState::InProgress
            || feature.state == FeatureState::Implemented,
        claimed_row(feature, agent_type, metadata, next_version, now, claimed),
    ensures
        claim_conflicts(claimed, false),
        !claim_conflicts(claimed, true),
{
}

/// What a claim does to a feature's state and version: a proposed or
/// implemented feature goes in progress and into the "next" version (keeping
/// its own when there is none); a blocked, archived or in-progress feature
/// keeps its state and its version.
pub proof fn lemma_claim_moves_only_open_work(
    feature: Feature,
    agent_type: Seq<char>,
    metadata: Option<Seq<char>>,
    next_version: Option<VersionId>,
    now: Timestamp,
    claimed: Feature,
)
    requires
        claimed_row(feature, agent_type, metadata, next_version, now, claimed),
    ensures
        (feature.state == FeatureState::Proposed || feature.state == FeatureState::Implemented) ==> (
        claimed.state == FeatureState::InProgress && claimed.target_version_id == (match next_version {
            Some(v) => Some(v),
            None => feature.target_version_id,
        })),
        (feature.state == FeatureState::Blocked || feature.state == FeatureState::Archived
            || feature.state == FeatureState::InProgress) ==> (claimed.state == feature.state
            && claimed.target_version_id == feature.target_version_id),
{
}

// ------------------------------------------------------------------
// Completion
// ------------------------------------------------------------------

/// What completing a feature does once it is allowed.
#[derive(Debug)]
pub struct CompletionPlan {
    /// Non-blocking warnings, in order.
    pub warnings: Vec<String>,
    /// The update that marks the feature implemented and drops its desired
    /// details, when either is needed; claims are cleared in any case.
    pub update: Option<UpdateFeatureInput>,
    /// The agent that held the claim, for the completion event.
    pub agent_type: Option<String>,
}

pub open spec fn non_leaf_message() -> Seq<char> {
    "Cannot complete a non-leaf feature"@
}

pub open spec fn no_proof_message() -> Seq<char> {
    "Cannot complete feature: no proof recorded. This project requires test evidence (testing_policy: tdd). Call prove_feature with your test results first."@
}

pub open spec fn failing_proof_message() -> Seq<char> {
    "Cannot complete feature: latest proof has failing tests (exit code != 0). Fix the tests and call prove_feature again."@
}

pub open spec fn no_passing_warning() -> Seq<char> {
    "No passing test evidence recorded. Consider running tests and calling prove_feature."@
}

pub open spec fn unstructured_warning() -> Seq<char> {
    "Proof recorded but has no structured test results. Include test_suites with { name, suite, state, file, line } for consistent display in the UI."@
}

pub open spec fn stale_spec_warning() -> Seq<char> {
    "Feature spec not updated since work started. Call update_feature to reflect what was actually built."@
}

/// Whether a proof carries no structured test results.
pub open spec fn unstructured(p: Proof) -> bool {
    match p.tests {
        Some(t) => t@.len() == 0,
        None => true,
    }
}

/// The warnings of a completion, in order.
pub open spec fn completion_warnings(feature: Feature, policy: TestingPolicy, latest: Option<Proof>) -> Seq<Seq<char>> {
    let w1: Seq<Seq<char>> = if policy == TestingPolicy::Advisory && (latest is None || latest->0.exit_code
        != 0) {
        seq![no_passing_warning()]
    } else {
        seq![]
    };
    let w2: Seq<Seq<char>> = if policy == TestingPolicy::Tdd && latest is Some && unstructured(latest->0) {
        seq![unstructured_warning()]
    } else {
        seq![]
    };
    let w3: Seq<Seq<char>> = match feature.claimed_at {
        Some(c) => if ts_le(feature.updated_at, c) {
            seq![stale_spec_warning()]
        } else {
            seq![]
        },
        None => seq![],
    };
    w1 + w2 + w3
}

pub open spec fn string_views(v: Seq<String>) -> Seq<Seq<char>> {
    v.map_values(|s: String| s@)
}

/// Completing a feature: the error (not a leaf; under TDD, no proof or a
/// failing latest proof), or the warnings and the update to make. The
/// latest proof is consulted only when the project has a testing policy.
pub fn plan_completion(
    feature: &Feature,
    is_leaf: bool,
    policy: TestingPolicy,
    latest_proof: Option<Proof>,
) -> (r: Result<CompletionPlan, ManifestError>)
    ensures
        !is_leaf ==> (r matches Err(ManifestError::InvalidState(m)) && m@ == non_leaf_message()),
        (is_leaf && policy == TestingPolicy::Tdd && latest_proof is None) ==> (r matches Err(
            ManifestError::InvalidState(m),
        ) && m@ == no_proof_message()),
        (is_leaf && policy == TestingPolicy::Tdd && (latest_proof matches Some(p) && p.exit_code != 0)) ==> (r matches Err(
            ManifestError::InvalidState(m),
        ) && m@ == failing_proof_message()),
        r is Ok <==> (is_leaf && (policy == TestingPolicy::Tdd ==> (latest_proof matches Some(p)
            && p.exit_code == 0))),
        r matches Ok(plan) ==> {
            let latest = if policy == TestingPolicy::Off {
                None
            } else {
                latest_proof
            };
            let needs_state = feature.state != FeatureState::Implemented;
            let pending = feature.desired_details is Some;
            &&& string_views(plan.warnings@) == completion_warnings(*feature, policy, latest)
            &&& plan.agent_type == feature.claimed_by
            &&& if needs_state || pending {
                plan.update matches Some(u) && u.parent_id is None && u.title is None
                    && u.details is None && u.details_summary is None && u.priority is None
                    && u.target_version_id is None && u.blocked_by is None && u.state == (if needs_state {
                    Some(FeatureState::Implemented)
                } else {
                    None
                }) && u.desired_details == (if pending {
                    Some(None::<String>)
                } else {
                    None
                })
            } else {
                plan.update is None
            }
        },
{
    if !is_leaf {
        proof {
            reveal_strlit("Cannot complete a non-leaf feature");
        }
        return Err(ManifestError::invalid_state("Cannot complete a non-leaf feature"));
    }
    let latest = if policy == TestingPolicy::Off {
        None
    } else {
        latest_proof
    };
    if policy == TestingPolicy::Tdd {
        match &latest {
            None => {
                return Err(
                    ManifestError::invalid_state(
                        "Cannot complete feature: no proof recorded. This project requires test evidence (testing_policy: tdd). Call prove_feature with your test results first.",
                    ),
                );
            },
            Some(p) => {
                if p.exit_code != 0 {
                    return Err(
                        ManifestError::invalid_state(
                            "Cannot complete feature: latest proof has failing tests (exit code != 0). Fix the tests and call prove_feature again.",
                        ),
                    );
                }
            },
        }
    }
    let mut warnings: Vec<String> = Vec::new();
    let ghost w0 = warnings@;
    if policy == TestingPolicy::Advisory {
        let missing = match &latest {
            None => true,
            Some(p) => p.exit_code != 0,
        };
        if missing {
            warnings.push(
                "No passing test evidence recorded. Consider running tests and calling prove_feature.".to_owned(),
            );
        }
    }
    let ghost w1 = warnings@;
    if policy == TestingPolicy::Tdd {
        let bare = match &latest {
            Some(p) => match &p.tests {
                Some(t) => t.len() == 0,
                None => true,
            },
            None => false,
        };
        if bare {
            warnings.push(
                "Proof recorded but has no structured test results. Include test_suites with { name, suite, state, file, line } for consistent display in the UI.".to_owned(),
            );
        }
    }
    let ghost w2 = warnings@;
    match feature.claimed_at {
        Some(c) => {
            if feature.updated_at.is_at_or_before(&c) {
                warnings.push(
                    "Feature spec not updated since work started. Call update_feature to reflect what was actually built.".to_owned(),
                );
            }
        },
        None => {},
    }
    assert(string_views(warnings@) =~= completion_warnings(*feature, policy, latest));
    let needs_state = feature.state != FeatureState::Implemented;
    let pending = feature.desired_details.is_some();
    let update = if needs_state || pending {
        Some(
            UpdateFeatureInput {
                parent_id: None,
                title: None,
                details: None,
                desired_details: if pending {
                    Some(None)
                } else {
                    None
                },
                details_summary: None,
                state: if needs_state {
                    Some(FeatureState::Implemented)
                } else {
                    None
                },
                priority: None,
                target_version_id: None,
                blocked_by: None,
            },
        )
    } else {
        None
    };
    Ok(CompletionPlan { warnings, update, agent_type: clone_opt(&feature.claimed_by) })
}

// ------------------------------------------------------------------
// Display ids
// ------------------------------------------------------------------

/// The position of the last `-` among the first `n` characters.
pub open spec fn last_hyphen(s: Seq<char>, n: int) -> Option<int>
    decreases n,
{
    if n <= 0 {
        None
    } else if s[n - 1] == '-' {
        Some(n - 1)
    } else {
        last_hyphen(s, n - 1)
    }
}

/// The key prefix (in upper case) and number of a display id such as
/// `MAN-42`: the text before the last `-` and the `i32` after it.
pub open spec fn display_id_parts(s: Seq<char>) -> Option<(Seq<char>, i32)> {
    match last_hyphen(s, s.len() as int) {
        Some(k) => match parse_i32_spec(s.skip(k + 1)) {
            Some(n) => Some((s.take(k).map_values(|c: char| upper_char(c)), n)),
            None => None,
        },
        None => None,
    }
}

proof fn lemma_last_hyphen_range(s: Seq<char>, n: int)
    requires
        n <= s.len(),
    ensures
        last_hyphen(s, n) matches Some(k) ==> 0 <= k < n,
    decreases n,
{
    if n > 0 {
        lemma_last_hyphen_range(s, n - 1);
    }
}

proof fn lemma_last_hyphen_skips(s: Seq<char>, k: int, n: int)
    requires
        0 <= k < n <= s.len(),
        s[k] == '-',
        forall|i: int| k < i < n ==> s[i] != '-',
    ensures
        last_hyphen(s, n) == Some(k),
    decreases n - k,
{
    if n - 1 > k {
        lemma_last_hyphen_skips(s, k, n - 1);
    }
}

/// A display id written from a key prefix and a feature number reads back
/// to the prefix in upper case and the number.
pub proof fn lemma_display_id_roundtrip(prefix: Seq<char>, n: i32)
    requires
        n >= 0,
    ensures
        display_id_parts(prefix + seq!['-'] + crate::text::decimal(n as nat)) == Some(
            (prefix.map_values(|c: char| upper_char(c)), n),
        ),
{
    let d = crate::text::decimal(n as nat);
    let s = prefix + seq!['-'] + d;
    crate::text::lemma_decimal_digits(n as nat);
    assert forall|i: int| prefix.len() < i < s.len() implies s[i] != '-' by {
        assert(s[i] == d[i - prefix.len() - 1]);
        assert(crate::text::is_ascii_digit(d[i - prefix.len() - 1]));
    }
    lemma_last_hyphen_skips(s, prefix.len() as int, s.len() as int);
    assert(s.skip(prefix.len() + 1int) =~= d);
    assert(s.take(prefix.len() as int) =~= prefix);
    assert(crate::text::is_ascii_digit(d[0]));
}

/// Parses a display id (`PREFIX-NUMBER`) into its upper-cased key prefix and
/// its number; `None` when there is no `-` or the number does not parse.
pub fn parse_display_id(display_id: &str) -> (r: Option<(String, i32)>)
    ensures
        match r {
            Some((p, n)) => display_id_parts(display_id@) == Some((p@, n)),
            None => display_id_parts(display_id@) is None,
        },
{
    let cs = chars_of(display_id);
    let mut k = cs.len();
    while k > 0 && cs[k - 1] != '-'
        invariant
            k <= cs@.len(),
            cs@ == display_id@,
            last_hyphen(cs@, cs@.len() as int) == last_hyphen(cs@, k as int),
        decreases k,
    {
        k = k - 1;
    }
    if k == 0 {
        return None;
    }
    let pos = k - 1;
    assert(last_hyphen(cs@, cs@.len() as int) == Some(pos as int));
    let number_text = slice_vec(&cs, pos + 1, cs.len());
    assert(number_text@ =~= cs@.skip(pos + 1));
    let n = match parse_i32(&number_text) {
        Some(n) => n,
        None => return None,
    };
    let mut prefix: Vec<char> = Vec::new();
    let mut i: usize = 0;
    while i < pos
        invariant
            i <= pos,
            pos < cs@.len(),
            prefix@ =~= cs@.take(i as int).map_values(|c: char| upper_char(c)),
        decreases pos - i,
    {
        prefix.push(to_upper(cs[i]));
        i = i + 1;
    }
    Some((string_of(&prefix), n))
}

/// The message for an id prefix that more than one feature starts with.
pub open spec fn ambiguous_prefix_message(prefix: Seq<char>) -> Seq<char> {
    "Ambiguous prefix '"@ + prefix + "': matches multiple features"@
}

/// The result of looking a feature up by the start of its id, given the
/// features found (the lookup asks for at most two): none, the one found, or
/// the error for an ambiguous prefix.
pub fn prefix_lookup_outcome(prefix: &str, found: Vec<Feature>) -> (r: Result<Option<Feature>, String>)
    ensures
        found@.len() == 0 ==> r matches Ok(None),
        found@.len() == 1 ==> (r matches Ok(Some(f)) && f == found@[0]),
        found@.len() >= 2 ==> (r matches Err(m) && m@ == ambiguous_prefix_message(prefix@)),
{
    if found.len() >= 2 {
        let mut m: Vec<char> = Vec::new();
        crate::text::append_str(&mut m, "Ambiguous prefix '");
        crate::text::append_str(&mut m, prefix);
        crate::text::append_str(&mut m, "': matches multiple features");
        return Err(string_of(&m));
    }
    let mut found = found;
    match found.pop() {
        Some(f) => Ok(Some(f)),
        None => Ok(None),
    }
}

// ------------------------------------------------------------------
// Breadcrumbs
// ------------------------------------------------------------------

/// A feature on the path from a feature up to its root, as the database
/// returns it.
#[derive(Debug)]
pub struct AncestorRow {
    pub id: FeatureId,
    pub parent_id: Option<FeatureId>,
    pub title: String,
    pub details: Option<String>,
    pub details_summary: Option<String>,
}

/// The breadcrumb entry of an ancestor: a root feature with a summary shows
/// the summary rather than its (long) details.
pub open spec fn crumb_of(a: AncestorRow) -> BreadcrumbItem {
    BreadcrumbItem {
        id: a.id,
        title: a.title,
        details: if a.parent_id is None && a.details_summary is Some {
            a.details_summary
        } else {
            a.details
        },
    }
}

/// The breadcrumb of a feature, from the root down to the feature, given the
/// path from the feature up to the root.
pub fn build_breadcrumb(ancestors: Vec<AncestorRow>) -> (r: Vec<BreadcrumbItem>)
    ensures
        r@.len() == ancestors@.len(),
        forall|i: int| 0 <= i < r@.len() ==> #[trigger] r@[i] == crumb_of(
            ancestors@[ancestors@.len() - 1 - i],
        ),
{
    let ghost all = ancestors@;
    let mut rest = ancestors;
    let mut out: Vec<BreadcrumbItem> = Vec::new();
    while rest.len() > 0
        invariant
            rest@ == all.take(rest@.len() as int),
            rest@.len() <= all.len(),
            out@.len() + rest@.len() == all.len(),
            forall|i: int| 0 <= i < out@.len() ==> #[trigger] out@[i] == crumb_of(all[all.len() - 1 - i]),
        decreases rest@.len(),
    {
        let a = rest.pop().unwrap();
        assert(a == all[all.len() - 1 - out@.len()]);
        assert(rest@ =~= all.take(rest@.len() as int));
        let details = if a.parent_id.is_none() && a.details_summary.is_some() {
            a.details_summary
        } else {
            a.details
        };
        out.push(BreadcrumbItem { id: a.id, title: a.title, details });
    }
    out
}

// ------------------------------------------------------------------
// Next workable feature
// ------------------------------------------------------------------

/// A feature that an agent can work on: a proposed or in-progress leaf that is
/// not a root, in the version asked for if one is.
pub open spec fn workable(f: Feature, has_children: bool, version_id: Option<VersionId>) -> bool {
    &&& (f.state == FeatureState::Proposed || f.state == FeatureState::InProgress)
    &&& f.parent_id is Some
    &&& !has_children
    &&& (version_id matches Some(v) ==> f.target_version_id == Some(v))
}

/// The rank of a feature's version: the "next" version first, then no
/// version, then any other (only when no version is asked for).
pub open spec fn version_rank(f: Feature, version_id: Option<VersionId>, next_version: Option<VersionId>) -> int {
    if version_id is Some {
        0
    } else if f.target_version_id is Some && next_version is Some && f.target_version_id
        == next_version {
        0
    } else if f.target_version_id is None {
        1
    } else {
        2
    }
}

pub open spec fn state_rank(f: Feature) -> int {
    if f.state == FeatureState::Proposed {
        0
    } else {
        1
    }
}

/// Whether `a` comes before `b` in the order of work: by version rank, then
/// proposed before in progress, then priority, then creation time.
pub open spec fn works_before(
    a: Feature,
    b: Feature,
    version_id: Option<VersionId>,
    next_version: Option<VersionId>,
) -> bool {
    let va = version_rank(a, version_id, next_version);
    let vb = version_rank(b, version_id, next_version);
    va < vb || (va == vb && (state_rank(a) < state_rank(b) || (state_rank(a) == state_rank(b) && (
    a.priority < b.priority || (a.priority == b.priority && ts_lt(a.created_at, b.created_at))))))
}

fn version_rank_exec(f: &Feature, version_id: Option<VersionId>, next_version: Option<VersionId>) -> (r: u8)
    ensures
        r as int == version_rank(*f, version_id, next_version),
{
    if version_id.is_some() {
        0
    } else if f.target_version_id.is_some() && next_version.is_some() && f.target_version_id
        == next_version {
        0
    } else if f.target_version_id.is_none() {
        1
    } else {
        2
    }
}

fn works_before_exec(
    a: &Feature,
    b: &Feature,
    version_id: Option<VersionId>,
    next_version: Option<VersionId>,
) -> (r: bool)
    ensures
        r == works_before(*a, *b, version_id, next_version),
{
    let va = version_rank_exec(a, version_id, next_version);
    let vb = version_rank_exec(b, version_id, next_version);
    let sa: u8 = if a.state == FeatureState::Proposed {
        0
    } else {
        1
    };
    let sb: u8 = if b.state == FeatureState::Proposed {
        0
    } else {
        1
    };
    va < vb || (va == vb && (sa < sb || (sa == sb && (a.priority < b.priority || (a.priority
        == b.priority && a.created_at.is_before(&b.created_at))))))
}

/// A feature that a newly implemented feature blocked, with the number of
/// its blockers that are still not implemented.
#[derive(Debug, Clone)]
pub struct BlockedCandidate {
    /// The blocked feature's id, as stored.
    pub feature_id: String,
    /// How many of its blockers are not implemented.
    pub open_blockers: i64,
}

/// The ids of the candidates that no unimplemented feature blocks any more,
/// in order: these are released (back to proposed, blockers removed).
pub open spec fn released_ids(cs: Seq<BlockedCandidate>) -> Seq<Seq<char>>
    decreases cs.len(),
{
    if cs.len() == 0 {
        seq![]
    } else {
        let r = released_ids(cs.drop_last());
        if cs.last().open_blockers == 0 {
            r.push(cs.last().feature_id@)
        } else {
            r
        }
    }
}

/// The blocked features to release once their blocker is implemented: those
/// with no blocker left that is not implemented, in the order given.
pub fn features_to_release(candidates: &Vec<BlockedCandidate>) -> (r: Vec<String>)
    ensures
        r@.len() == released_ids(candidates@).len(),
        forall|i: int| 0 <= i < r@.len() ==> #[trigger] r@[i]@ == released_ids(candidates@)[i],
{
    let mut r: Vec<String> = Vec::new();
    let mut i: usize = 0;
    while i < candidates.len()
        invariant
            i <= candidates@.len(),
            r@.len() == released_ids(candidates@.take(i as int)).len(),
            forall|k: int| 0 <= k < r@.len() ==> #[trigger] r@[k]@ == released_ids(candidates@.take(i as int))[k],
        decreases candidates@.len() - i,
    {
        assert(candidates@.take(i as int + 1).drop_last() =~= candidates@.take(i as int));
        assert(candidates@.take(i as int + 1).last() == candidates@[i as int]);
        if candidates[i].open_blockers == 0 {
            r.push(candidates[i].feature_id.clone());
        }
        i = i + 1;
    }
    assert(candidates@.take(candidates@.len() as int) =~= candidates@);
    r
}

/// The feature to work on next: a workable feature that no workable feature
/// comes before (the first such in the list), or `None` when none is
/// workable. `has_children[i]` tells whether feature `i` has children.
pub fn pick_next_workable(
    features: &[Feature],
    has_children: &[bool],
    version_id: Option<VersionId>,
    next_version: Option<VersionId>,
) -> (r: Option<usize>)
    requires
        has_children@.len() == features@.len(),
    ensures
        match r {
            Some(i) => i < features@.len() && workable(features@[i as int], has_children@[i as int], version_id)
                && (forall|j: int|
                0 <= j < features@.len() && workable(#[trigger] features@[j], has_children@[j], version_id)
                    ==> !works_before(features@[j], features@[i as int], version_id, next_version))
                && (forall|j: int|
                0 <= j < i && workable(#[trigger] features@[j], has_children@[j], version_id)
                    ==> works_before(features@[i as int], features@[j], version_id, next_version)),
            None => forall|j: int|
                0 <= j < features@.len() ==> !workable(#[trigger] features@[j], has_children@[j], version_id),
        },
{
    let mut best: Option<usize> = None;
    let mut i: usize = 0;
    while i < features.len()
        invariant
            i <= features@.len(),
            has_children@.len() == features@.len(),
            match best {
                Some(b) => b < i && workable(features@[b as int], has_children@[b as int], version_id)
                    && (forall|j: int|
                    0 <= j < i && workable(#[trigger] features@[j], has_children@[j], version_id)
                        ==> !works_before(features@[j], features@[b as int], version_id, next_version))
                    && (forall|j: int|
                    0 <= j < b && workable(#[trigger] features@[j], has_children@[j], version_id)
                        ==> works_before(features@[b as int], features@[j], version_id, next_version)),
                None => forall|j: int|
                    0 <= j < i ==> !workable(#[trigger] features@[j], has_children@[j], version_id),
            },
        decreases features@.len() - i,
    {
        let f = &features[i];
        let ok = (f.state == FeatureState::Proposed || f.state == FeatureState::InProgress)
            && f.parent_id.is_some() && !has_children[i] && match version_id {
            Some(v) => f.target_version_id == Some(v),
            None => true,
        };
        if ok {
            match best {
                None => {
                    best = Some(i);
                },
                Some(b) => {
                    if works_before_exec(f, &features[b], version_id, next_version) {
                        proof {
                            lemma_works_before_order(features@, has_children@, version_id, next_version, b as int, i as int);
                        }
                        best = Some(i);
                    } else {
                        proof {
                            lemma_works_before_total(features@[i as int], features@[b as int], version_id, next_version);
                        }
                    }
                },
            }
        }
        i = i + 1;
    }
    best
}

/// The order of work is a strict order: irreflexive and transitive.
pub proof fn lemma_works_before_strict(
    a: Feature,
    b: Feature,
    c: Feature,
    version_id: Option<VersionId>,
    next_version: Option<VersionId>,
)
    ensures
        !works_before(a, a, version_id, next_version),
        works_before(a, b, version_id, next_version) && works_before(b, c, version_id, next_version)
            ==> works_before(a, c, version_id, next_version),
        works_before(a, b, version_id, next_version) ==> !works_before(b, a, version_id, next_version),
{
}

/// The order of work, field by field: with no version asked for, a feature
/// in the "next" version comes before one without a version, which comes
/// before one in another version; among features with the same target
/// version, a proposed one comes before one in progress; with the same target
/// version and state, the smaller priority number comes first, and at equal
/// priority the one created earlier.
pub proof fn lemma_work_order(
    a: Feature,
    b: Feature,
    version_id: Option<VersionId>,
    next_version: Option<VersionId>,
)
    ensures
        (version_id is None && next_version is Some && a.target_version_id == next_version
            && b.target_version_id != next_version) ==> works_before(a, b, version_id, next_version),
        (version_id is None && a.target_version_id is None && b.target_version_id is Some
            && b.target_version_id != next_version) ==> works_before(a, b, version_id, next_version),
        (a.target_version_id == b.target_version_id && a.state == FeatureState::Proposed && b.state
            == FeatureState::InProgress) ==> works_before(a, b, version_id, next_version),
        (a.target_version_id == b.target_version_id && a.state == b.state && a.priority < b.priority)
            ==> works_before(a, b, version_id, next_version),
        (a.target_version_id == b.target_version_id && a.state == b.state && a.priority == b.priority
            && (a.created_at.secs < b.created_at.secs || (a.created_at.secs == b.created_at.secs
            && a.created_at.nanos < b.created_at.nanos))) ==> works_before(a, b, version_id, next_version),
        (a.target_version_id == b.target_version_id && a.state == b.state && b.priority < a.priority)
            ==> !works_before(a, b, version_id, next_version),
{
}

proof fn lemma_works_before_total(
    a: Feature,
    b: Feature,
    version_id: Option<VersionId>,
    next_version: Option<VersionId>,
)
    ensures
        !works_before(a, b, version_id, next_version) ==> (works_before(b, a, version_id, next_version)
            || (version_rank(a, version_id, next_version) == version_rank(b, version_id, next_version)
            && state_rank(a) == state_rank(b) && a.priority == b.priority && a.created_at
            == b.created_at)),
{
}

proof fn lemma_works_before_order(
    fs: Seq<Feature>,
    hc: Seq<bool>,
    version_id: Option<VersionId>,
    next_version: Option<VersionId>,
    b: int,
    i: int,
)
    requires
        0 <= b < i < fs.len(),
        works_before(fs[i], fs[b], version_id, next_version),
        forall|j: int|
            0 <= j < i && workable(#[trigger] fs[j], hc[j], version_id) ==> !works_before(
                fs[j],
                fs[b],
                version_id,
                next_version,
            ),
    ensures
        forall|j: int|
            0 <= j < i && workable(#[trigger] fs[j], hc[j], version_id) ==> works_before(
                fs[i],
                fs[j],
                version_id,
                next_version,
            ),
{
    assert forall|j: int| 0 <= j < i && workable(#[trigger] fs[j], hc[j], version_id) implies works_before(
        fs[i],
        fs[j],
        version_id,
        next_version,
    ) by {
        lemma_works_before_total(fs[j], fs[b], version_id, next_version);
        lemma_works_before_strict(fs[i], fs[b], fs[j], version_id, next_version);
    }
}

} // verus!
