//! Backend-agnostic errors of the storage layer.

use vstd::prelude::*;
use crate::text::{append_str, opt_view, string_of};
use crate::time::{format_utc_display, utc_display_text, Timestamp};

verus! {

/// Details of a field changed remotely during a concurrent update.
#[derive(Debug)]
pub struct ConflictDetail {
    pub feature_id: String,
    pub field: String,
    pub local_value: String,
    pub remote_value: String,
    pub remote_updated_at: Timestamp,
}

/// The text of a conflict, once the time of the remote change is written.
pub open spec fn conflict_text(c: ConflictDetail, at: Seq<char>) -> Seq<char> {
    "field '"@ + c.field@ + "' on feature '"@ + c.feature_id@ + "' was modified remotely at "@ + at
}

impl ConflictDetail {
    /// The description of the conflict; none when the time of the remote
    /// change is out of the range that can be written.
    pub fn describe(&self) -> (r: Option<String>)
        ensures
            match utc_display_text(self.remote_updated_at.secs, self.remote_updated_at.nanos) {
                Some(at) => r matches Some(x) && x@ == conflict_text(*self, at),
                None => r is None,
            },
    {
        let at = match format_utc_display(self.remote_updated_at) {
            Some(a) => a,
            None => return None,
        };
        let mut v: Vec<char> = Vec::new();
        append_str(&mut v, "field '");
        append_str(&mut v, self.field.as_str());
        append_str(&mut v, "' on feature '");
        append_str(&mut v, self.feature_id.as_str());
        append_str(&mut v, "' was modified remotely at ");
        append_str(&mut v, at.as_str());
        Some(string_of(&v))
    }
}

/// Errors of feature stores, whatever the backend.
#[derive(Debug)]
pub enum StoreError {
    FeatureNotFound(String),
    VersionNotFound(String),
    ProjectNotFound(String),
    TreeIntegrity(String),
    Conflict(ConflictDetail),
    RateLimited { reset_at: Timestamp },
    Unavailable(String),
    Unsupported(String),
    AuthError(String),
    Validation(String),
    /// A backend failure, by its message.
    Internal(String),
}

impl StoreError {
    /// The message of the error: its text after the error's prefix (such as
    /// "Feature not found: "); for a conflict or a rate limit, none when the
    /// time in it is out of the range that can be written.
    pub fn message(&self) -> (r: Option<String>)
        ensures
            match self {
                StoreError::FeatureNotFound(m) => r matches Some(x) && x@ == "Feature not found: "@ + m@,
                StoreError::VersionNotFound(m) => r matches Some(x) && x@ == "Version not found: "@ + m@,
                StoreError::ProjectNotFound(m) => r matches Some(x) && x@ == "Project not found: "@ + m@,
                StoreError::TreeIntegrity(m) => r matches Some(x) && x@ == "Tree integrity violation: "@ + m@,
                StoreError::Unavailable(m) => r matches Some(x) && x@ == "Backend unavailable: "@ + m@,
                StoreError::Unsupported(m) => r matches Some(x) && x@ == "Operation not supported by this backend: "@ + m@,
                StoreError::AuthError(m) => r matches Some(x) && x@ == "Authentication failed: "@ + m@,
                StoreError::Validation(m) => r matches Some(x) && x@ == "Validation error: "@ + m@,
                StoreError::Internal(m) => r matches Some(x) && x@ == m@,
                StoreError::Conflict(c) => match utc_display_text(
                    c.remote_updated_at.secs,
                    c.remote_updated_at.nanos,
                ) {
                    Some(at) => r matches Some(x) && x@ == "Conflict: "@ + conflict_text(*c, at),
                    None => r is None,
                },
                StoreError::RateLimited { reset_at } => match utc_display_text(reset_at.secs, reset_at.nanos) {
                    Some(at) => r matches Some(x) && x@ == "Rate limit exceeded, resets at "@ + at,
                    None => r is None,
                },
            },
    {
        let (prefix, m): (&str, &String) = match self {
            StoreError::FeatureNotFound(m) => ("Feature not found: ", m),
            StoreError::VersionNotFound(m) => ("Version not found: ", m),
            StoreError::ProjectNotFound(m) => ("Project not found: ", m),
            StoreError::TreeIntegrity(m) => ("Tree integrity violation: ", m),
            StoreError::Unavailable(m) => ("Backend unavailable: ", m),
            StoreError::Unsupported(m) => ("Operation not supported by this backend: ", m),
            StoreError::AuthError(m) => ("Authentication failed: ", m),
            StoreError::Validation(m) => ("Validation error: ", m),
            StoreError::Internal(m) => ("", m),
            StoreError::Conflict(c) => {
                let d = match c.describe() {
                    Some(d) => d,
                    None => return None,
                };
                let mut v: Vec<char> = Vec::new();
                append_str(&mut v, "Conflict: ");
                append_str(&mut v, d.as_str());
                return Some(string_of(&v));
            },
            StoreError::RateLimited { reset_at } => {
                let at = match format_utc_display(*reset_at) {
                    Some(a) => a,
                    None => return None,
                };
                let mut v: Vec<char> = Vec::new();
                append_str(&mut v, "Rate limit exceeded, resets at ");
                append_str(&mut v, at.as_str());
                return Some(string_of(&v));
            },
        };
        let mut v: Vec<char> = Vec::new();
        append_str(&mut v, prefix);
        append_str(&mut v, m.as_str());
        proof {
            reveal_strlit("");
        }
        Some(string_of(&v))
    }
}

} // verus!
