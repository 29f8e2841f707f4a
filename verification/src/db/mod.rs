//! The rules of the database layer: validation, guard rails and the values
//! written, as functions from the rows read to the rows written.
//!
//! Reading and writing the database is the caller's part; these functions
//! decide what is written and which error a request is answered with.

pub mod features;
pub mod helpers;
pub mod memories;
pub mod projects;
pub mod records;
pub mod rows;
pub mod versions;

use vstd::prelude::*;
use crate::models::ids::{FeatureId, ProjectId};
use crate::text::{append_str, string_of};

verus! {

/// The escaped form of one character in a `LIKE` pattern.
pub open spec fn like_escape_char(c: char) -> Seq<char> {
    if c == '\\' {
        seq!['\\', '\\']
    } else if c == '%' {
        seq!['\\', '%']
    } else if c == '_' {
        seq!['\\', '_']
    } else {
        seq![c]
    }
}

/// A `LIKE` pattern that matches `s` literally: `\`, `%` and `_` are each
/// preceded by `\`.
pub open spec fn like_escape(s: Seq<char>) -> Seq<char>
    decreases s.len(),
{
    if s.len() == 0 {
        seq![]
    } else {
        like_escape(s.drop_last()) + like_escape_char(s.last())
    }
}

/// Escapes the special characters of SQLite `LIKE` patterns (`%`, `_`, and
/// the escape character `\` itself) with `\`.
pub fn escape_like_pattern(query: &str) -> (r: String)
    ensures
        r@ == like_escape(query@),
{
    let cs = crate::text::chars_of(query);
    let mut out: Vec<char> = Vec::new();
    let mut i: usize = 0;
    while i < cs.len()
        invariant
            i <= cs@.len(),
            cs@ == query@,
            out@ == like_escape(cs@.take(i as int)),
        decreases cs@.len() - i,
    {
        let c = cs[i];
        assert(cs@.take(i as int + 1).drop_last() =~= cs@.take(i as int));
        if c == '\\' || c == '%' || c == '_' {
            out.push('\\');
        }
        out.push(c);
        assert(out@ =~= like_escape(cs@.take(i as int)) + like_escape_char(c));
        i = i + 1;
    }
    assert(cs@.take(cs@.len() as int) =~= cs@);
    string_of(&out)
}

/// The text that a `LIKE` pattern with escape character `\` matches, read
/// from the left, when the pattern holds no wildcard (`%` or `_` not escaped)
/// and does not end in a lone `\`; `None` otherwise.
pub open spec fn like_literal(p: Seq<char>) -> Option<Seq<char>>
    decreases p.len(),
{
    if p.len() == 0 {
        Some(seq![])
    } else if p[0] == '%' || p[0] == '_' {
        None
    } else if p[0] == '\\' {
        if p.len() < 2 {
            None
        } else {
            match like_literal(p.skip(2)) {
                Some(r) => Some(seq![p[1]] + r),
                None => None,
            }
        }
    } else {
        match like_literal(p.skip(1)) {
            Some(r) => Some(seq![p[0]] + r),
            None => None,
        }
    }
}

proof fn lemma_like_literal_escaped(s: Seq<char>, t: Seq<char>)
    ensures
        like_literal(like_escape(s) + t) == (match like_literal(t) {
            Some(r) => Some(s + r),
            None => None,
        }),
    decreases s.len(),
{
    if s.len() == 0 {
        assert(like_escape(s) + t =~= t);
        match like_literal(t) {
            Some(r) => assert(s + r =~= r),
            None => {},
        }
    } else {
        let c = s.last();
        let e = like_escape_char(c);
        let t2 = e + t;
        assert(like_escape(s) + t =~= like_escape(s.drop_last()) + t2);
        lemma_like_literal_escaped(s.drop_last(), t2);
        if c == '\\' || c == '%' || c == '_' {
            assert(t2.skip(2) =~= t);
            assert(t2[0] == '\\' && t2[1] == c);
        } else {
            assert(t2.skip(1) =~= t);
            assert(t2[0] == c);
        }
        match like_literal(t) {
            Some(r) => {
                assert(s.drop_last() + (seq![c] + r) =~= s + r);
            },
            None => {},
        }
    }
}

/// An escaped pattern holds no wildcard and matches exactly the text it
/// was made from.
pub proof fn lemma_like_escape_is_literal(s: Seq<char>)
    ensures
        like_literal(like_escape(s)) == Some(s),
{
    lemma_like_literal_escaped(s, seq![]);
    assert(like_escape(s) + seq![] =~= like_escape(s));
    assert(s + seq![] =~= s);
}

/// Events emitted when features change.
#[derive(Debug, Clone)]
pub enum FeatureEvent {
    Created { project_id: ProjectId },
    Updated { project_id: ProjectId },
    Deleted { project_id: ProjectId },
    Completed {
        project_id: ProjectId,
        feature_id: FeatureId,
        feature_title: String,
        project_name: String,
        agent_type: Option<String>,
    },
}

impl FeatureEvent {
    /// The project of any event.
    pub fn project_id(&self) -> (r: ProjectId)
        ensures
            r == (match self {
                FeatureEvent::Created { project_id } => *project_id,
                FeatureEvent::Updated { project_id } => *project_id,
                FeatureEvent::Deleted { project_id } => *project_id,
                FeatureEvent::Completed { project_id, .. } => *project_id,
            }),
    {
        match self {
            FeatureEvent::Created { project_id } => *project_id,
            FeatureEvent::Updated { project_id } => *project_id,
            FeatureEvent::Deleted { project_id } => *project_id,
            FeatureEvent::Completed { project_id, .. } => *project_id,
        }
    }
}

/// Details of a claim held by another agent.
#[derive(Debug, Clone)]
pub struct ClaimConflictInfo {
    /// The agent type that holds the claim.
    pub agent_type: String,
    /// The claimed feature's id.
    pub feature_id: String,
    /// When the claim was made (RFC 3339), or empty.
    pub claimed_at: String,
    /// The claim's metadata, if any.
    pub claim_metadata: Option<String>,
}

/// Domain errors that callers can handle.
#[derive(Debug, Clone)]
pub enum ManifestError {
    /// The requested entity does not exist.
    NotFound(String),
    /// The input failed validation.
    Validation(String),
    /// The operation is invalid in the entity's current state.
    InvalidState(String),
    /// Another agent already holds a claim on the feature.
    ClaimConflict(ClaimConflictInfo),
}

impl ManifestError {
    /// A not-found error for an entity: "`entity` not found".
    pub fn not_found(entity: &str) -> (r: ManifestError)
        ensures
            r matches ManifestError::NotFound(m) && m@ == entity@ + " not found"@,
    {
        let mut v: Vec<char> = Vec::new();
        append_str(&mut v, entity);
        append_str(&mut v, " not found");
        ManifestError::NotFound(string_of(&v))
    }

    /// A validation error with the given message.
    pub fn validation(msg: &str) -> (r: ManifestError)
        ensures
            r matches ManifestError::Validation(m) && m@ == msg@,
    {
        ManifestError::Validation(msg.to_owned())
    }

    /// An invalid-state error with the given message.
    pub fn invalid_state(msg: &str) -> (r: ManifestError)
        ensures
            r matches ManifestError::InvalidState(m) && m@ == msg@,
    {
        ManifestError::InvalidState(msg.to_owned())
    }

    /// The message: the text given, or for a claim conflict
    /// "Feature already claimed by '<agent>'".
    pub fn message(&self) -> (r: String)
        ensures
            r@ == (match self {
                ManifestError::NotFound(m) => m@,
                ManifestError::Validation(m) => m@,
                ManifestError::InvalidState(m) => m@,
                ManifestError::ClaimConflict(c) => "Feature already claimed by '"@ + c.agent_type@
                    + "'"@,
            }),
    {
        match self {
            ManifestError::NotFound(m) => m.clone(),
            ManifestError::Validation(m) => m.clone(),
            ManifestError::InvalidState(m) => m.clone(),
            ManifestError::ClaimConflict(c) => {
                let mut v: Vec<char> = Vec::new();
                append_str(&mut v, "Feature already claimed by '");
                append_str(&mut v, c.agent_type.as_str());
                append_str(&mut v, "'");
                string_of(&v)
            },
        }
    }
}

/// What the migration to root features did.
#[derive(Debug, Clone)]
pub struct RootFeatureMigrationReport {
    /// Projects that received a new root feature.
    pub projects_migrated: usize,
    /// Features placed under a new root feature.
    pub features_reparented: usize,
    /// Projects that already had a root feature.
    pub projects_skipped: usize,
}

impl RootFeatureMigrationReport {
    /// A report of nothing done.
    pub fn new() -> (r: RootFeatureMigrationReport)
        ensures
            r.projects_migrated == 0,
            r.features_reparented == 0,
            r.projects_skipped == 0,
    {
        RootFeatureMigrationReport { projects_migrated: 0, features_reparented: 0, projects_skipped: 0 }
    }
}

} // verus!
