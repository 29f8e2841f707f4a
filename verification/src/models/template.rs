//! Specification templates for writing feature specs.

use vstd::prelude::*;
use crate::time::Timestamp;
use super::ids::{ProjectId, TemplateId};

verus! {

/// A template used to guide the writing of feature specifications.
#[derive(Debug, Clone)]
pub struct SpecTemplate {
    pub id: TemplateId,
    pub project_id: ProjectId,
    pub name: String,
    pub description: Option<String>,
    pub content: String,
    pub is_default: bool,
    pub created_at: Timestamp,
    pub updated_at: Timestamp,
}

/// Input for creating a template.
#[derive(Debug, Clone)]
pub struct CreateTemplateInput {
    pub name: String,
    pub description: Option<String>,
    pub content: String,
    pub is_default: bool,
}

/// Input for updating a template; every field is optional.
#[derive(Debug, Clone)]
pub struct UpdateTemplateInput {
    pub name: Option<String>,
    pub description: Option<String>,
    pub content: Option<String>,
    pub is_default: Option<bool>,
}

/// The template content shipped with every new project.
pub const DEFAULT_TEMPLATE_CONTENT: &'static str = "## Goal\n\n<!-- One or two sentences: what capability this adds and why it matters.\n     Focus on the outcome, not the implementation. -->\n\n## Rules\n\n<!-- Business logic, constraints, and edge cases the agent won't discover from\n     code alone. Don't repeat what's in parent features or project instructions.\n     Examples: validation rules, rate limits, ordering guarantees, error behavior. -->\n\n## Acceptance Criteria\n\n<!-- Each criterion should be a specific, verifiable outcome an agent can assert\n     in a test. Use concrete values. The more precise, the better the tests. -->\n\n- [ ] [Specific, verifiable outcome with concrete values]\n- [ ] [Edge case or error handling expectation]\n- [ ] [Additional criteria as needed]";

} // verus!
