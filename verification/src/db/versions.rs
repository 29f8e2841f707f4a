//! The rules for versions: semantic names, the cap on unreleased versions,
//! the minimum set of upcoming versions, and which versions can take features.

use vstd::prelude::*;
use crate::models::ids::{ProjectId, VersionId};
use crate::models::version::{CreateVersionInput, UpdateVersionInput, Version};
use crate::text::{append_chars, append_str, decimal, decimal_exec, string_of};
use crate::time::Timestamp;
use super::helpers::{
    highest_key, is_valid_semver, lemma_next_version_name_is_semver, next_version_name,
    semver_spec, version_key,
};
use super::ManifestError;

verus! {

/// The most unreleased versions a project may have.
pub const MAX_UNRELEASED_VERSIONS: usize = 6;

/// The number of versions among the first `n` that are not released.
pub open spec fn unreleased_in(vs: Seq<Version>, n: int) -> nat
    decreases n,
{
    if n <= 0 {
        0
    } else {
        unreleased_in(vs, n - 1) + if vs[n - 1].released_at is None {
            1nat
        } else {
            0nat
        }
    }
}

pub open spec fn unreleased_spec(vs: Seq<Version>) -> nat {
    unreleased_in(vs, vs.len() as int)
}

/// The number of unreleased versions.
pub fn unreleased_count(versions: &[Version]) -> (r: usize)
    ensures
        r == unreleased_spec(versions@),
{
    let mut n: usize = 0;
    let mut i: usize = 0;
    while i < versions.len()
        invariant
            i <= versions@.len(),
            n == unreleased_in(versions@, i as int),
            n <= i,
        decreases versions@.len() - i,
    {
        if versions[i].released_at.is_none() {
            n = n + 1;
        }
        i = i + 1;
    }
    n
}

/// The message for a version name that is not a semantic version.
pub open spec fn not_semver_message(name: Seq<char>) -> Seq<char> {
    "'"@ + name
        + "' is not a valid semantic version. Use the format MAJOR.MINOR.PATCH (e.g., '0.1.0', '1.0.0') with an optional 'v' prefix (e.g., 'v0.1.0')."@
}

/// The message for a project at the cap of unreleased versions.
pub open spec fn version_cap_message(count: nat) -> Seq<char> {
    "Project already has "@ + decimal(count)
        + " unreleased versions (max 6). Release or delete existing versions before creating new ones."@
}

/// The version that creating `input` in a project writes, or the error: a
/// name that is not a semantic version, then a missing project, then a
/// project that already has six unreleased versions. The version takes the
/// id given in the input, or else `fresh_id`.
pub fn plan_create_version(
    project_id: ProjectId,
    input: CreateVersionInput,
    project_exists: bool,
    unreleased: usize,
    fresh_id: VersionId,
    now: Timestamp,
) -> (r: Result<Version, ManifestError>)
    ensures
        !semver_spec(input.name@) ==> (r matches Err(ManifestError::Validation(m)) && m@
            == not_semver_message(input.name@)),
        semver_spec(input.name@) && !project_exists ==> (r matches Err(ManifestError::NotFound(m))
            && m@ == "Project not found"@),
        semver_spec(input.name@) && project_exists && unreleased >= 6 ==> (r matches Err(
            ManifestError::Validation(m),
        ) && m@ == version_cap_message(unreleased as nat)),
        semver_spec(input.name@) && project_exists && unreleased < 6 <==> r is Ok,
        r matches Ok(v) ==> v == (Version {
            id: match input.id {
                Some(i) => i,
                None => fresh_id,
            },
            project_id,
            name: input.name,
            description: input.description,
            released_at: None,
            created_at: now,
            updated_at: now,
        }),
{
    if !is_valid_semver(input.name.as_str()) {
        let mut m: Vec<char> = Vec::new();
        append_str(&mut m, "'");
        append_str(&mut m, input.name.as_str());
        append_str(
            &mut m,
            "' is not a valid semantic version. Use the format MAJOR.MINOR.PATCH (e.g., '0.1.0', '1.0.0') with an optional 'v' prefix (e.g., 'v0.1.0').",
        );
        return Err(ManifestError::Validation(string_of(&m)));
    }
    if !project_exists {
        proof {
            reveal_strlit("Project");
            reveal_strlit(" not found");
            reveal_strlit("Project not found");
            assert("Project"@ + " not found"@ =~= "Project not found"@);
        }
        return Err(ManifestError::not_found("Project"));
    }
    if unreleased >= MAX_UNRELEASED_VERSIONS {
        let mut m: Vec<char> = Vec::new();
        append_str(&mut m, "Project already has ");
        append_chars(&mut m, &decimal_exec(unreleased as u64));
        append_str(
            &mut m,
            " unreleased versions (max 6). Release or delete existing versions before creating new ones.",
        );
        return Err(ManifestError::Validation(string_of(&m)));
    }
    let id = match input.id {
        Some(i) => i,
        None => fresh_id,
    };
    Ok(Version {
        id,
        project_id,
        name: input.name,
        description: input.description,
        released_at: None,
        created_at: now,
        updated_at: now,
    })
}

/// The (major, minor) from which upcoming versions are numbered: the highest
/// existing one, or (0, 0).
pub open spec fn base_key(vs: Seq<Version>) -> (u32, u32) {
    match highest_key(vs, vs.len() as int) {
        Some(k) => k,
        None => (0, 0),
    }
}

/// The name of the `i`-th version created to fill up the upcoming versions.
pub open spec fn upcoming_name(vs: Seq<Version>, i: int) -> Seq<char> {
    decimal(base_key(vs).0 as nat) + "."@ + decimal((base_key(vs).1 + i + 1) as nat) + ".0"@
}

/// How many versions must be created so that `min_count` are unreleased.
pub open spec fn versions_needed(vs: Seq<Version>, min_count: nat) -> nat {
    if unreleased_spec(vs) >= min_count {
        0
    } else {
        (min_count - unreleased_spec(vs)) as nat
    }
}

/// The names of the versions to create so that at least `min_count` versions
/// are unreleased, in creation order: each one the minor successor of the one
/// before, starting after the highest existing version.
pub fn plan_minimum_version_names(versions: &[Version], min_count: usize) -> (r: Vec<String>)
    requires
        base_key(versions@).1 + min_count <= u32::MAX,
    ensures
        r@.len() == versions_needed(versions@, min_count as nat),
        forall|i: int| 0 <= i < r@.len() ==> (#[trigger] r@[i])@ == upcoming_name(versions@, i),
{
    let unreleased = unreleased_count(versions);
    let mut names: Vec<String> = Vec::new();
    if unreleased >= min_count {
        return names;
    }
    let needed = min_count - unreleased;
    let mut best: Option<(u32, u32)> = None;
    let mut j: usize = 0;
    while j < versions.len()
        invariant
            j <= versions@.len(),
            best == highest_key(versions@, j as int),
        decreases versions@.len() - j,
    {
        let k = key_of(versions[j].name.as_str());
        match k {
            Some(k) => {
                best = match best {
                    Some(b) => if k.0 < b.0 || (k.0 == b.0 && k.1 < b.1) {
                        Some(b)
                    } else {
                        Some(k)
                    },
                    None => Some(k),
                };
            },
            None => {},
        }
        j = j + 1;
    }
    let (major, minor) = match best {
        Some(k) => k,
        None => (0u32, 0u32),
    };
    let mut i: usize = 0;
    while i < needed
        invariant
            i <= needed,
            needed <= min_count,
            (major, minor) == base_key(versions@),
            minor + min_count <= u32::MAX,
            names@.len() == i,
            forall|t: int| 0 <= t < i ==> (#[trigger] names@[t])@ == upcoming_name(versions@, t),
        decreases needed - i,
    {
        let mut out: Vec<char> = Vec::new();
        append_chars(&mut out, &decimal_exec(major as u64));
        append_str(&mut out, ".");
        append_chars(&mut out, &decimal_exec((minor as u64) + (i as u64) + 1));
        append_str(&mut out, ".0");
        names.push(string_of(&out));
        i = i + 1;
    }
    names
}

fn key_of(name: &str) -> (r: Option<(u32, u32)>)
    ensures
        r == version_key(name@),
{
    super::helpers::version_key_of(name)
}

proof fn lemma_unreleased_in_prefix(vs: Seq<Version>, v: Version, n: int)
    requires
        0 <= n <= vs.len(),
    ensures
        unreleased_in(vs.push(v), n) == unreleased_in(vs, n),
    decreases n,
{
    if n > 0 {
        lemma_unreleased_in_prefix(vs, v, n - 1);
        assert(vs.push(v)[n - 1] == vs[n - 1]);
    }
}

/// The cap on unreleased versions is kept: creating a version is accepted
/// only below the cap, and adding one version to a project below the cap
/// adds at most one unreleased version, so the project stays within it.
pub proof fn lemma_version_cap_kept(vs: Seq<Version>, v: Version)
    requires
        unreleased_spec(vs) < MAX_UNRELEASED_VERSIONS,
    ensures
        unreleased_spec(vs.push(v)) <= MAX_UNRELEASED_VERSIONS,
        unreleased_spec(vs.push(v)) == unreleased_spec(vs) + if v.released_at is None {
            1nat
        } else {
            0nat
        },
{
    lemma_unreleased_in_prefix(vs, v, vs.len() as int);
    assert(vs.push(v)[vs.len() as int] == v);
}

/// Adding a version with the next name makes that name's numbers the highest:
/// filling up versions one `compute_next_version_name` at a time gives the
/// names of `plan_minimum_version_names`.
pub proof fn lemma_next_name_becomes_highest(vs: Seq<Version>, v: Version)
    requires
        highest_key(vs, vs.len() as int) matches Some(k) ==> k.1 < u32::MAX,
        v.name@ == next_version_name(vs),
    ensures
        highest_key(vs.push(v), vs.len() + 1int) == Some(
            (base_key(vs).0, (base_key(vs).1 + 1) as u32),
        ),
        v.name@ == upcoming_name(vs, 0),
{
    lemma_next_version_name_is_semver(vs);
    lemma_highest_key_push(vs, v, vs.len() as int);
    reveal_strlit("0.1.0");
    reveal_strlit(".");
    reveal_strlit(".0");
    assert(decimal(0) =~= seq!['0']);
    assert(decimal(1) =~= seq!['1']);
    let nk = version_key(v.name@)->0;
    assert(nk == (base_key(vs).0, (base_key(vs).1 + 1) as u32)) by {
        super::helpers::lemma_next_version_key(vs);
    }
}

proof fn lemma_highest_key_push(vs: Seq<Version>, v: Version, n: int)
    requires
        0 <= n <= vs.len(),
    ensures
        forall|i: int| 0 <= i < n ==> vs.push(v)[i] == vs[i],
        highest_key(vs.push(v), n) == highest_key(vs, n),
    decreases n,
{
    if n > 0 {
        lemma_highest_key_push(vs, v, n - 1);
        assert(vs.push(v)[n - 1] == vs[n - 1]);
    }
}

/// A version with the update applied: given fields replace the stored ones.
pub fn apply_version_update(existing: Version, input: UpdateVersionInput, now: Timestamp) -> (r: Version)
    ensures
        r == (Version {
            id: existing.id,
            project_id: existing.project_id,
            name: match input.name {
                Some(n) => n,
                None => existing.name,
            },
            description: match input.description {
                Some(d) => Some(d),
                None => existing.description,
            },
            released_at: match input.released_at {
                Some(t) => Some(t),
                None => existing.released_at,
            },
            created_at: existing.created_at,
            updated_at: now,
        }),
{
    let name = match input.name {
        Some(n) => n,
        None => existing.name,
    };
    let description = match input.description {
        Some(d) => Some(d),
        None => existing.description,
    };
    let released_at = match input.released_at {
        Some(t) => Some(t),
        None => existing.released_at,
    };
    Version {
        id: existing.id,
        project_id: existing.project_id,
        name,
        description,
        released_at,
        created_at: existing.created_at,
        updated_at: now,
    }
}

/// The message for an assignment to a released version.
pub open spec fn released_message(name: Seq<char>) -> Seq<char> {
    "Cannot assign features to released version '"@ + name
        + "'. Use list_versions to find unreleased versions."@
}

/// Whether features can be assigned to a version: not when it does not exist
/// or is released.
pub fn check_version_assignable(version: &Option<Version>) -> (r: Result<(), ManifestError>)
    ensures
        version is None ==> (r matches Err(ManifestError::NotFound(m)) && m@ == "Version not found"@),
        (version matches Some(v) && v.released_at is Some) ==> (r matches Err(
            ManifestError::Validation(m),
        ) && m@ == released_message(version->0.name@)),
        r is Ok <==> (version matches Some(v) && v.released_at is None),
{
    match version {
        None => {
            proof {
                reveal_strlit("Version");
                reveal_strlit(" not found");
                reveal_strlit("Version not found");
                assert("Version"@ + " not found"@ =~= "Version not found"@);
            }
            Err(ManifestError::not_found("Version"))
        },
        Some(v) => {
            if v.released_at.is_some() {
                let mut m: Vec<char> = Vec::new();
                append_str(&mut m, "Cannot assign features to released version '");
                append_str(&mut m, v.name.as_str());
                append_str(&mut m, "'. Use list_versions to find unreleased versions.");
                Err(ManifestError::Validation(string_of(&m)))
            } else {
                Ok(())
            }
        },
    }
}

} // verus!
