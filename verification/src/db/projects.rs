//! The rules for projects: what creating a project writes (the project, its
//! root feature, its default template), how an update merges, and which
//! registered directory a path belongs to.

use vstd::prelude::*;
use crate::models::feature::{Feature, FeatureState};
use crate::models::ids::{FeatureId, MembershipId, ProjectId, TemplateId, UserId};
use crate::models::project::{CreateProjectInput, Project, TestingPolicy, UpdateProjectInput};
use crate::models::template::{SpecTemplate, DEFAULT_TEMPLATE_CONTENT};
use crate::models::user::{MembershipRole, ProjectMembership};
use crate::text::{chars_of, opt_view, starts_with, str_eq};
use crate::time::Timestamp;
use super::helpers::{derive_key_prefix, key_prefix_of, slug_of, slugify};

verus! {

/// The rows that creating a project writes.
#[derive(Debug)]
pub struct NewProject {
    pub project: Project,
    /// The root feature, which carries the project's name and instructions.
    pub root_feature: Feature,
    /// The project's default specification template.
    pub template: SpecTemplate,
}

/// The slug of a new project: the one given, or the slug of its name.
pub open spec fn new_slug(input: CreateProjectInput) -> Seq<char> {
    match input.slug {
        Some(s) => s@,
        None => slug_of(input.name@),
    }
}

/// The key prefix of a new project: the one given, or the one derived from
/// its slug.
pub open spec fn new_key_prefix(input: CreateProjectInput) -> Seq<char> {
    match input.key_prefix {
        Some(k) => k@,
        None => key_prefix_of(new_slug(input)),
    }
}

/// What creating a project writes: the project (slug and key prefix given or
/// derived, destination "backlog", TDD testing policy) with a root feature
/// (implemented, titled with the project's name, detailed with its
/// instructions) and a default template.
pub fn plan_new_project(
    input: CreateProjectInput,
    project_id: ProjectId,
    root_feature_id: FeatureId,
    template_id: TemplateId,
    now: Timestamp,
) -> (r: NewProject)
    ensures
        r.project.id == project_id,
        r.project.slug@ == new_slug(input),
        r.project.name == input.name,
        r.project.description == input.description,
        r.project.instructions == input.instructions,
        r.project.current_version_id is None,
        r.project.root_feature_id == Some(root_feature_id),
        r.project.default_feature_destination@ == "backlog"@,
        r.project.testing_policy == TestingPolicy::Tdd,
        r.project.test_adapter is None,
        r.project.context_budget is None,
        r.project.key_prefix@ == new_key_prefix(input),
        r.project.created_at == now,
        r.project.updated_at == now,
        r.root_feature == (Feature {
            id: root_feature_id,
            project_id,
            parent_id: None,
            title: input.name,
            details: input.instructions,
            desired_details: None,
            details_summary: None,
            state: FeatureState::Implemented,
            priority: 0,
            feature_number: None,
            target_version_id: None,
            verification_result: None,
            verified_at: None,
            claimed_by: None,
            claimed_at: None,
            claim_metadata: None,
            created_at: now,
            updated_at: now,
        }),
        r.template.id == template_id,
        r.template.project_id == project_id,
        r.template.name@ == "Default"@,
        opt_view(r.template.description) == Some("General-purpose feature specification template"@),
        r.template.content@ == DEFAULT_TEMPLATE_CONTENT@,
        r.template.is_default,
        r.template.created_at == now,
        r.template.updated_at == now,
{
    let slug = match input.slug {
        Some(s) => s,
        None => slugify(input.name.as_str()),
    };
    let key_prefix = match input.key_prefix {
        Some(k) => k,
        None => derive_key_prefix(slug.as_str()),
    };
    let root_feature = Feature {
        id: root_feature_id,
        project_id,
        parent_id: None,
        title: input.name.clone(),
        details: crate::text::clone_opt(&input.instructions),
        desired_details: None,
        details_summary: None,
        state: FeatureState::Implemented,
        priority: 0,
        feature_number: None,
        target_version_id: None,
        verification_result: None,
        verified_at: None,
        claimed_by: None,
        claimed_at: None,
        claim_metadata: None,
        created_at: now,
        updated_at: now,
    };
    let template = SpecTemplate {
        id: template_id,
        project_id,
        name: "Default".to_owned(),
        description: Some("General-purpose feature specification template".to_owned()),
        content: DEFAULT_TEMPLATE_CONTENT.to_owned(),
        is_default: true,
        created_at: now,
        updated_at: now,
    };
    let project = Project {
        id: project_id,
        slug,
        name: input.name,
        description: input.description,
        instructions: input.instructions,
        current_version_id: None,
        root_feature_id: Some(root_feature_id),
        default_feature_destination: "backlog".to_owned(),
        testing_policy: TestingPolicy::Tdd,
        test_adapter: None,
        context_budget: None,
        key_prefix,
        created_at: now,
        updated_at: now,
    };
    NewProject { project, root_feature, template }
}

/// The id of a project created from `input`: the one given, or `fresh`.
pub fn new_project_id(input: &CreateProjectInput, fresh: ProjectId) -> (r: ProjectId)
    ensures
        r == (match input.id {
            Some(i) => i,
            None => fresh,
        }),
{
    match input.id {
        Some(i) => i,
        None => fresh,
    }
}

/// The owner membership written when a user creates a project.
pub fn owner_membership(id: MembershipId, project_id: ProjectId, owner_id: UserId, now: Timestamp) -> (r: ProjectMembership)
    ensures
        r == (ProjectMembership {
            id,
            project_id,
            user_id: owner_id,
            role: MembershipRole::Owner,
            invited_by: None,
            created_at: now,
        }),
{
    ProjectMembership {
        id,
        project_id,
        user_id: owner_id,
        role: MembershipRole::Owner,
        invited_by: None,
        created_at: now,
    }
}

/// A project update: the project after it, and the new root feature title
/// when the name changed and the project has a root feature.
#[derive(Debug)]
pub struct ProjectUpdate {
    pub project: Project,
    pub rename_root: Option<(FeatureId, String)>,
}

/// Whether the update renames the project.
pub open spec fn renames(existing: Project, input: UpdateProjectInput) -> bool {
    input.name matches Some(n) && n@ != existing.name@
}

/// The project after an update: each given field replaces the stored one,
/// every other field (the testing policy among them) keeps its stored value,
/// and a new name is carried to the root feature's title.
pub fn apply_project_update(existing: Project, input: UpdateProjectInput, now: Timestamp) -> (r: ProjectUpdate)
    ensures
        r.project == (Project {
            id: existing.id,
            slug: match input.slug {
                Some(s) => s,
                None => existing.slug,
            },
            name: match input.name {
                Some(n) => n,
                None => existing.name,
            },
            description: match input.description {
                Some(d) => Some(d),
                None => existing.description,
            },
            instructions: match input.instructions {
                Some(i) => Some(i),
                None => existing.instructions,
            },
            current_version_id: match input.current_version_id {
                Some(v) => Some(v),
                None => existing.current_version_id,
            },
            root_feature_id: existing.root_feature_id,
            default_feature_destination: match input.default_feature_destination {
                Some(d) => d,
                None => existing.default_feature_destination,
            },
            testing_policy: existing.testing_policy,
            test_adapter: match input.test_adapter {
                Some(t) => Some(t),
                None => existing.test_adapter,
            },
            context_budget: match input.context_budget {
                Some(b) => Some(b),
                None => existing.context_budget,
            },
            key_prefix: match input.key_prefix {
                Some(k) => k,
                None => existing.key_prefix,
            },
            created_at: existing.created_at,
            updated_at: now,
        }),
        r.rename_root == (if renames(existing, input) && existing.root_feature_id is Some {
            Some((existing.root_feature_id->0, r.project.name))
        } else {
            None
        }),
{
    let name_changed = match &input.name {
        Some(n) => !str_eq(n.as_str(), existing.name.as_str()),
        None => false,
    };
    let project = Project {
        id: existing.id,
        slug: match input.slug {
            Some(s) => s,
            None => existing.slug,
        },
        name: match input.name {
            Some(n) => n,
            None => existing.name,
        },
        description: match input.description {
            Some(d) => Some(d),
            None => existing.description,
        },
        instructions: match input.instructions {
            Some(i) => Some(i),
            None => existing.instructions,
        },
        current_version_id: match input.current_version_id {
            Some(v) => Some(v),
            None => existing.current_version_id,
        },
        root_feature_id: existing.root_feature_id,
        default_feature_destination: match input.default_feature_destination {
            Some(d) => d,
            None => existing.default_feature_destination,
        },
        testing_policy: existing.testing_policy,
        test_adapter: match input.test_adapter {
            Some(t) => Some(t),
            None => existing.test_adapter,
        },
        context_budget: match input.context_budget {
            Some(b) => Some(b),
            None => existing.context_budget,
        },
        key_prefix: match input.key_prefix {
            Some(k) => k,
            None => existing.key_prefix,
        },
        created_at: existing.created_at,
        updated_at: now,
    };
    let rename_root = if name_changed {
        match existing.root_feature_id {
            Some(root) => Some((root, project.name.clone())),
            None => None,
        }
    } else {
        None
    };
    ProjectUpdate { project, rename_root }
}

/// Whether `path` lies in the directory `dir`: it is the directory or below it.
pub open spec fn path_in_dir(path: Seq<char>, dir: Seq<char>) -> bool {
    path == dir || starts_with(path, dir.push('/'))
}

/// The registered directory that a path belongs to: among the directories
/// that contain it, one with the longest path (the first such in the list).
pub fn match_directory(path: &str, dirs: &[String]) -> (r: Option<usize>)
    ensures
        match r {
            Some(i) => i < dirs@.len() && path_in_dir(path@, dirs@[i as int]@) && (forall|j: int|
                0 <= j < dirs@.len() && path_in_dir(path@, #[trigger] dirs@[j]@) ==> dirs@[j]@.len()
                    <= dirs@[i as int]@.len()) && (forall|j: int|
                0 <= j < i && path_in_dir(path@, #[trigger] dirs@[j]@) ==> dirs@[j]@.len()
                    < dirs@[i as int]@.len()),
            None => forall|j: int| 0 <= j < dirs@.len() ==> !path_in_dir(path@, #[trigger] dirs@[j]@),
        },
{
    let p = chars_of(path);
    let mut best: Option<usize> = None;
    let mut best_len: usize = 0;
    let mut i: usize = 0;
    while i < dirs.len()
        invariant
            i <= dirs@.len(),
            p@ == path@,
            match best {
                Some(b) => b < i && path_in_dir(path@, dirs@[b as int]@) && best_len
                    == dirs@[b as int]@.len() && (forall|j: int|
                    0 <= j < i && path_in_dir(path@, #[trigger] dirs@[j]@) ==> dirs@[j]@.len()
                        <= best_len) && (forall|j: int|
                    0 <= j < b && path_in_dir(path@, #[trigger] dirs@[j]@) ==> dirs@[j]@.len()
                        < best_len),
                None => forall|j: int| 0 <= j < i ==> !path_in_dir(path@, #[trigger] dirs@[j]@),
            },
        decreases dirs@.len() - i,
    {
        let d = chars_of(dirs[i].as_str());
        let inside = dir_contains(&p, &d);
        if inside {
            let better = match best {
                Some(_) => d.len() > best_len,
                None => true,
            };
            if better {
                best = Some(i);
                best_len = d.len();
            }
        }
        i = i + 1;
    }
    best
}

fn dir_contains(p: &Vec<char>, d: &Vec<char>) -> (r: bool)
    ensures
        r == path_in_dir(p@, d@),
{
    let mut dd = crate::text::slice_vec(d, 0, d.len());
    dd.push('/');
    assert(dd@ =~= d@.push('/'));
    if p.len() == d.len() {
        let same = crate::text::starts_with_exec(p, d);
        if same {
            assert(p@ =~= d@);
            return true;
        }
        proof {
            if p@ == d@ {
                assert(p@.subrange(0, d@.len() as int) =~= d@);
            }
        }
        return crate::text::starts_with_exec(p, &dd);
    }
    crate::text::starts_with_exec(p, &dd)
}

} // verus!
