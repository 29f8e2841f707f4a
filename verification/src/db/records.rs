//! The rules for remotes, project links, templates, proofs and history
//! entries: what each write stores, and when it is refused.

use vstd::prelude::*;
use crate::models::history::{CreateHistoryInput, FeatureHistory};
use crate::models::ids::{HistoryId, ProjectId, ProofId, RemoteId, TemplateId, VersionId};
use crate::models::remote::{CreateRemoteInput, ProjectRemote, Remote, SyncState, UpdateRemoteInput};
use crate::models::template::{CreateTemplateInput, SpecTemplate, UpdateTemplateInput};
use crate::models::test_proof::{CreateProofInput, Proof, PROOF_OUTPUT_MAX_CHARS};
use crate::text::{append_chars, append_str, chars_of, clone_opt, decimal, decimal_exec, string_of};
use crate::time::Timestamp;
use super::ManifestError;

verus! {

// ------------------------------------------------------------------
// Remotes
// ------------------------------------------------------------------

pub open spec fn duplicate_remote_message(name: Seq<char>) -> Seq<char> {
    "Remote '"@ + name + "' already exists. Use a different name or update the existing remote."@
}

/// The remote that creating `input` stores (provider "turso" unless given,
/// sync enabled), or the error for a name that is already taken.
pub fn plan_create_remote(input: &CreateRemoteInput, name_taken: bool, id: RemoteId, now: Timestamp) -> (r: Result<Remote, ManifestError>)
    ensures
        name_taken ==> (r matches Err(ManifestError::Validation(m)) && m@ == duplicate_remote_message(input.name@)),
        !name_taken ==> (r matches Ok(rm) && rm.id == id && rm.name == input.name && rm.provider@ == (match input.provider {
            Some(p) => p@,
            None => "turso"@,
        }) && rm.url == input.url && rm.sync_enabled && rm.created_at == now && rm.updated_at == now),
{
    if name_taken {
        let mut m: Vec<char> = Vec::new();
        append_str(&mut m, "Remote '");
        append_str(&mut m, input.name.as_str());
        append_str(&mut m, "' already exists. Use a different name or update the existing remote.");
        return Err(ManifestError::Validation(string_of(&m)));
    }
    let provider = match &input.provider {
        Some(p) => p.clone(),
        None => "turso".to_owned(),
    };
    Ok(Remote {
        id,
        name: input.name.clone(),
        provider,
        url: input.url.clone(),
        sync_enabled: true,
        created_at: now,
        updated_at: now,
    })
}

/// A remote after an update, and the new token to store when one is given
/// (tokens are stored but not carried in the remote).
pub fn apply_remote_update(existing: Remote, input: &UpdateRemoteInput, now: Timestamp) -> (r: (Remote, Option<String>))
    ensures
        r.0 == (Remote {
            url: match input.url {
                Some(u) => u,
                None => existing.url,
            },
            sync_enabled: match input.sync_enabled {
                Some(b) => b,
                None => existing.sync_enabled,
            },
            updated_at: now,
            ..existing
        }),
        r.1 == input.token,
{
    let url = match &input.url {
        Some(u) => u.clone(),
        None => existing.url,
    };
    let sync_enabled = match input.sync_enabled {
        Some(b) => b,
        None => existing.sync_enabled,
    };
    (
        Remote {
            id: existing.id,
            name: existing.name,
            provider: existing.provider,
            url,
            sync_enabled,
            created_at: existing.created_at,
            updated_at: now,
        },
        clone_opt(&input.token),
    )
}

pub open spec fn already_linked_message(state: SyncState) -> Seq<char> {
    "Project is already linked to this remote (state: "@ + state.text() + ")."@
}

/// Linking a project to a remote: the error when the project or remote does
/// not exist, or a live link exists; otherwise the active link, new or
/// revived from an orphaned one.
pub fn plan_link(
    project_id: ProjectId,
    remote_id: RemoteId,
    project_exists: bool,
    remote_exists: bool,
    existing: Option<SyncState>,
) -> (r: Result<ProjectRemote, ManifestError>)
    ensures
        !project_exists ==> (r matches Err(ManifestError::NotFound(m)) && m@ == "Project not found"@),
        project_exists && !remote_exists ==> (r matches Err(ManifestError::NotFound(m)) && m@ == "Remote not found"@),
        (project_exists && remote_exists && (existing matches Some(s) && s != SyncState::Orphaned)) ==> (r matches Err(
            ManifestError::Validation(m),
        ) && m@ == already_linked_message(existing->0)),
        r is Ok <==> (project_exists && remote_exists && existing != Some(SyncState::Active) && existing != Some(SyncState::Paused)),
        r matches Ok(link) ==> link == (ProjectRemote {
            project_id,
            remote_id,
            sync_state: SyncState::Active,
            last_synced_at: None,
        }),
{
    proof {
        reveal_strlit("Project");
        reveal_strlit("Remote");
        reveal_strlit(" not found");
        reveal_strlit("Project not found");
        reveal_strlit("Remote not found");
        assert("Project"@ + " not found"@ =~= "Project not found"@);
        assert("Remote"@ + " not found"@ =~= "Remote not found"@);
    }
    if !project_exists {
        return Err(ManifestError::not_found("Project"));
    }
    if !remote_exists {
        return Err(ManifestError::not_found("Remote"));
    }
    match existing {
        Some(s) => {
            if s != SyncState::Orphaned {
                let mut m: Vec<char> = Vec::new();
                append_str(&mut m, "Project is already linked to this remote (state: ");
                append_str(&mut m, s.as_str());
                append_str(&mut m, ").");
                return Err(ManifestError::Validation(string_of(&m)));
            }
        },
        None => {},
    }
    Ok(ProjectRemote { project_id, remote_id, sync_state: SyncState::Active, last_synced_at: None })
}

// ------------------------------------------------------------------
// Templates
// ------------------------------------------------------------------

/// A new template, and whether the project's other defaults are cleared
/// first (when the new one is the default).
pub fn plan_create_template(project_id: ProjectId, input: CreateTemplateInput, id: TemplateId, now: Timestamp) -> (r: (SpecTemplate, bool))
    ensures
        r.0 == (SpecTemplate {
            id,
            project_id,
            name: input.name,
            description: input.description,
            content: input.content,
            is_default: input.is_default,
            created_at: now,
            updated_at: now,
        }),
        r.1 == input.is_default,
{
    let clear = input.is_default;
    (
        SpecTemplate {
            id,
            project_id,
            name: input.name,
            description: input.description,
            content: input.content,
            is_default: input.is_default,
            created_at: now,
            updated_at: now,
        },
        clear,
    )
}

/// A template after an update, and whether the project's other defaults are
/// cleared first (when it becomes the default).
pub fn apply_template_update(existing: SpecTemplate, input: UpdateTemplateInput, now: Timestamp) -> (r: (SpecTemplate, bool))
    ensures
        r.0 == (SpecTemplate {
            name: match input.name {
                Some(n) => n,
                None => existing.name,
            },
            description: match input.description {
                Some(d) => Some(d),
                None => existing.description,
            },
            content: match input.content {
                Some(c) => c,
                None => existing.content,
            },
            is_default: match input.is_default {
                Some(b) => b,
                None => existing.is_default,
            },
            updated_at: now,
            ..existing
        }),
        r.1 == (r.0.is_default && !existing.is_default),
{
    let is_default = match input.is_default {
        Some(b) => b,
        None => existing.is_default,
    };
    let clear = is_default && !existing.is_default;
    (
        SpecTemplate {
            id: existing.id,
            project_id: existing.project_id,
            name: match input.name {
                Some(n) => n,
                None => existing.name,
            },
            description: match input.description {
                Some(d) => Some(d),
                None => existing.description,
            },
            content: match input.content {
                Some(c) => c,
                None => existing.content,
            },
            is_default,
            created_at: existing.created_at,
            updated_at: now,
        },
        clear,
    )
}

// ------------------------------------------------------------------
// Proofs
// ------------------------------------------------------------------

/// The stored output of a proof: output longer than the limit (in
/// characters) keeps its first characters up to the limit, followed by a note.
pub open spec fn stored_output(o: Seq<char>) -> Seq<char> {
    if o.len() > PROOF_OUTPUT_MAX_CHARS {
        o.take(PROOF_OUTPUT_MAX_CHARS as int) + "\n\n... (output truncated at "@ + decimal(
            PROOF_OUTPUT_MAX_CHARS as nat,
        ) + " characters)"@
    } else {
        o
    }
}

/// The output of a proof as stored, cut at the limit when longer.
pub fn truncate_output(o: &str) -> (r: String)
    ensures
        r@ == stored_output(o@),
{
    let cs = chars_of(o);
    if cs.len() <= PROOF_OUTPUT_MAX_CHARS {
        return o.to_owned();
    }
    let mut out = crate::text::slice_vec(&cs, 0, PROOF_OUTPUT_MAX_CHARS);
    assert(out@ =~= o@.take(PROOF_OUTPUT_MAX_CHARS as int));
    append_str(&mut out, "\n\n... (output truncated at ");
    append_chars(&mut out, &decimal_exec(PROOF_OUTPUT_MAX_CHARS as u64));
    append_str(&mut out, " characters)");
    string_of(&out)
}

/// The proof that recording `input` stores, with its output cut at the limit.
pub fn plan_proof(input: CreateProofInput, id: ProofId, now: Timestamp) -> (r: Proof)
    ensures
        r.id == id,
        r.feature_id == input.feature_id,
        r.history_id == input.history_id,
        r.command == input.command,
        r.exit_code == input.exit_code,
        match input.output {
            Some(o) => r.output matches Some(s) && s@ == stored_output(o@),
            None => r.output is None,
        },
        r.tests == input.tests,
        r.evidence == input.evidence,
        r.commit_sha == input.commit_sha,
        r.agent_type == input.agent_type,
        r.created_at == now,
{
    let output = match &input.output {
        Some(o) => Some(truncate_output(o.as_str())),
        None => None,
    };
    Proof {
        id,
        feature_id: input.feature_id,
        history_id: input.history_id,
        command: input.command,
        exit_code: input.exit_code,
        output,
        tests: input.tests,
        evidence: input.evidence,
        commit_sha: input.commit_sha,
        agent_type: input.agent_type,
        created_at: now,
    }
}

// ------------------------------------------------------------------
// History
// ------------------------------------------------------------------

/// The history entry that recording `input` stores: in the version given, or
/// else in the feature's current version.
pub fn plan_history_entry(input: CreateHistoryInput, feature_version: Option<VersionId>, id: HistoryId, now: Timestamp) -> (r: FeatureHistory)
    ensures
        r == (FeatureHistory {
            id,
            feature_id: input.feature_id,
            version_id: match input.version_id {
                Some(v) => Some(v),
                None => feature_version,
            },
            details: input.details,
            created_at: now,
        }),
{
    FeatureHistory {
        id,
        feature_id: input.feature_id,
        version_id: match input.version_id {
            Some(v) => Some(v),
            None => feature_version,
        },
        details: input.details,
        created_at: now,
    }
}

/// The page of project history asked for: 50 entries from the start unless
/// given.
pub fn history_page(limit: Option<u32>, offset: Option<u32>) -> (r: (u32, u32))
    ensures
        r.0 == (match limit {
            Some(l) => l,
            None => 50,
        }),
        r.1 == (match offset {
            Some(o) => o,
            None => 0,
        }),
{
    (
        match limit {
            Some(l) => l,
            None => 50,
        },
        match offset {
            Some(o) => o,
            None => 0,
        },
    )
}

} // verus!
