//! Proofs: test evidence recorded for features.

use vstd::prelude::*;
use crate::text::str_eq;
use crate::time::Timestamp;
use super::feature::ParseEnumError;
use super::ids::{FeatureId, HistoryId, ProofId};

verus! {

/// The outcome of one test.
#[derive(Debug, Clone, Copy, PartialEq, Eq, Structural)]
pub enum TestState {
    Passed,
    Failed,
    Errored,
    Skipped,
}

impl TestState {
    pub open spec fn text(self) -> Seq<char> {
        match self {
            TestState::Passed => "passed"@,
            TestState::Failed => "failed"@,
            TestState::Errored => "errored"@,
            TestState::Skipped => "skipped"@,
        }
    }

    pub open spec fn from_text(s: Seq<char>) -> Option<TestState> {
        if s == "passed"@ {
            Some(TestState::Passed)
        } else if s == "failed"@ {
            Some(TestState::Failed)
        } else if s == "errored"@ {
            Some(TestState::Errored)
        } else if s == "skipped"@ {
            Some(TestState::Skipped)
        } else {
            None
        }
    }

    pub fn as_str(&self) -> (r: &'static str)
        ensures
            r@ == self.text(),
    {
        match self {
            TestState::Passed => "passed",
            TestState::Failed => "failed",
            TestState::Errored => "errored",
            TestState::Skipped => "skipped",
        }
    }

    /// The text of the state, as `Display` writes it.
    pub fn to_string(&self) -> (r: String)
        ensures
            r@ == self.text(),
    {
        self.as_str().to_string()
    }

    /// Parses a state from its text; any other text is an error carrying it.
    pub fn from_str(s: &str) -> (r: Result<TestState, ParseEnumError>)
        ensures
            match r {
                Ok(st) => TestState::from_text(s@) == Some(st),
                Err(e) => TestState::from_text(s@) is None && e.0@ == s@,
            },
    {
        if str_eq(s, "passed") {
            Ok(TestState::Passed)
        } else if str_eq(s, "failed") {
            Ok(TestState::Failed)
        } else if str_eq(s, "errored") {
            Ok(TestState::Errored)
        } else if str_eq(s, "skipped") {
            Ok(TestState::Skipped)
        } else {
            Err(ParseEnumError(s.to_string()))
        }
    }
}

/// Parsing the text of a test state gives the state back, and only a state's
/// own text parses to it.
pub proof fn lemma_test_state_text_roundtrip(st: TestState, s: Seq<char>)
    ensures
        TestState::from_text(st.text()) == Some(st),
        TestState::from_text(s) == Some(st) ==> s == st.text(),
{
    reveal_strlit("passed");
    reveal_strlit("failed");
    reveal_strlit("errored");
    reveal_strlit("skipped");
    assert("passed"@[0] != "failed"@[0]);
    assert("passed"@.len() != "errored"@.len());
    assert("passed"@.len() != "skipped"@.len());
    assert("failed"@.len() != "errored"@.len());
    assert("failed"@.len() != "skipped"@.len());
    assert("errored"@[0] != "skipped"@[0]);
}

/// A single test result within a proof.
#[derive(Debug, Clone)]
pub struct TestResult {
    pub name: String,
    pub suite: Option<String>,
    pub state: TestState,
    pub file: Option<String>,
    pub line: Option<u32>,
    pub duration_ms: Option<u64>,
    pub message: Option<String>,
}

/// A file linked as evidence for a proof.
#[derive(Debug, Clone)]
pub struct Evidence {
    pub path: String,
    pub note: Option<String>,
}

/// Maximum length of the raw test output stored in a proof.
pub const PROOF_OUTPUT_MAX_CHARS: usize = 10_000;

/// Test evidence for a feature.
#[derive(Debug, Clone)]
pub struct Proof {
    pub id: ProofId,
    pub feature_id: FeatureId,
    pub history_id: Option<HistoryId>,
    /// The command that was run.
    pub command: String,
    /// Process exit code; 0 when all tests passed.
    pub exit_code: i32,
    pub output: Option<String>,
    /// Structured test results.
    pub tests: Option<Vec<TestResult>>,
    pub evidence: Vec<Evidence>,
    pub commit_sha: Option<String>,
    pub agent_type: Option<String>,
    pub created_at: Timestamp,
}

/// Input for creating a proof.
#[derive(Debug, Clone)]
pub struct CreateProofInput {
    pub feature_id: FeatureId,
    pub history_id: Option<HistoryId>,
    pub command: String,
    pub exit_code: i32,
    pub output: Option<String>,
    pub tests: Option<Vec<TestResult>>,
    pub evidence: Vec<Evidence>,
    pub commit_sha: Option<String>,
    pub agent_type: Option<String>,
}

} // verus!
