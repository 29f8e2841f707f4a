//! Remote backends and the links between projects and remotes.

use vstd::prelude::*;
use crate::text::str_eq;
use crate::time::Timestamp;
use super::ids::{ProjectId, RemoteId};

verus! {

/// A configured remote backend (such as a Turso database).
#[derive(Debug, Clone)]
pub struct Remote {
    pub id: RemoteId,
    /// Human-readable name, unique per machine.
    pub name: String,
    /// Backend provider, e.g. "turso".
    pub provider: String,
    pub url: String,
    pub sync_enabled: bool,
    pub created_at: Timestamp,
    pub updated_at: Timestamp,
}

/// Sync state of a project-remote link.
#[derive(Debug, Clone, Copy, PartialEq, Eq, Structural)]
pub enum SyncState {
    /// Actively syncing.
    Active,
    /// Paused by the user.
    Paused,
    /// The remote was removed.
    Orphaned,
}

impl SyncState {
    pub open spec fn text(self) -> Seq<char> {
        match self {
            SyncState::Active => "active"@,
            SyncState::Paused => "paused"@,
            SyncState::Orphaned => "orphaned"@,
        }
    }

    pub open spec fn from_text(s: Seq<char>) -> Option<SyncState> {
        if s == "active"@ {
            Some(SyncState::Active)
        } else if s == "paused"@ {
            Some(SyncState::Paused)
        } else if s == "orphaned"@ {
            Some(SyncState::Orphaned)
        } else {
            None
        }
    }

    pub fn as_str(&self) -> (r: &'static str)
        ensures
            r@ == self.text(),
    {
        match self {
            SyncState::Active => "active",
            SyncState::Paused => "paused",
            SyncState::Orphaned => "orphaned",
        }
    }

    pub fn from_str(s: &str) -> (r: Option<SyncState>)
        ensures
            r == SyncState::from_text(s@),
    {
        if str_eq(s, "active") {
            Some(SyncState::Active)
        } else if str_eq(s, "paused") {
            Some(SyncState::Paused)
        } else if str_eq(s, "orphaned") {
            Some(SyncState::Orphaned)
        } else {
            None
        }
    }
}

/// Parsing the text of a sync state gives the state back, and only a state's
/// own text parses to it.
pub proof fn lemma_sync_state_text_roundtrip(st: SyncState, s: Seq<char>)
    ensures
        SyncState::from_text(st.text()) == Some(st),
        SyncState::from_text(s) == Some(st) ==> s == st.text(),
{
    reveal_strlit("active");
    reveal_strlit("paused");
    reveal_strlit("orphaned");
    assert("active"@[0] != "paused"@[0]);
    assert("active"@.len() != "orphaned"@.len());
    assert("paused"@.len() != "orphaned"@.len());
}

/// A link between a project and a remote.
#[derive(Debug, Clone)]
pub struct ProjectRemote {
    pub project_id: ProjectId,
    pub remote_id: RemoteId,
    pub sync_state: SyncState,
    pub last_synced_at: Option<Timestamp>,
}

/// Input for creating a remote.
#[derive(Debug, Clone)]
pub struct CreateRemoteInput {
    pub name: String,
    /// "turso" if absent.
    pub provider: Option<String>,
    pub url: String,
    pub token: String,
}

/// Input for updating a remote.
#[derive(Debug, Clone)]
pub struct UpdateRemoteInput {
    pub url: Option<String>,
    pub token: Option<String>,
    pub sync_enabled: Option<bool>,
}

} // verus!
