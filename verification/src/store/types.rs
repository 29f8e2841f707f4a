//! Changesets, capabilities and backend configuration.

use vstd::prelude::*;
use crate::models::feature::FeatureState;
use crate::models::ids::{FeatureId, VersionId};
use crate::text::{append_str, string_of};

verus! {

/// The fields of a feature to change; `None` leaves a field as it is.
#[derive(Debug)]
pub struct FeatureChangeset {
    pub title: Option<String>,
    pub details: Option<String>,
    /// `Some(None)` clears the desired details.
    pub desired_details: Option<Option<String>>,
    /// `Some(None)` clears the summary.
    pub details_summary: Option<Option<String>>,
    pub state: Option<FeatureState>,
    pub priority: Option<i32>,
    /// `Some(None)` detaches the feature from its parent.
    pub parent_id: Option<Option<FeatureId>>,
    /// `Some(None)` removes the version.
    pub target_version_id: Option<Option<VersionId>>,
    pub feature_number: Option<i32>,
}

impl Default for FeatureChangeset {
    /// The changeset that changes nothing.
    fn default() -> (r: FeatureChangeset)
        ensures
            r.title is None,
            r.details is None,
            r.desired_details is None,
            r.details_summary is None,
            r.state is None,
            r.priority is None,
            r.parent_id is None,
            r.target_version_id is None,
            r.feature_number is None,
    {
        FeatureChangeset {
            title: None,
            details: None,
            desired_details: None,
            details_summary: None,
            state: None,
            priority: None,
            parent_id: None,
            target_version_id: None,
            feature_number: None,
        }
    }
}

/// The names of the fields a changeset sets, in field order.
pub open spec fn changed_names(cs: FeatureChangeset) -> Seq<Seq<char>> {
    let a: Seq<Seq<char>> = if cs.title is Some { seq!["title"@] } else { seq![] };
    let b: Seq<Seq<char>> = if cs.details is Some { seq!["details"@] } else { seq![] };
    let c: Seq<Seq<char>> = if cs.desired_details is Some { seq!["desired_details"@] } else { seq![] };
    let d: Seq<Seq<char>> = if cs.details_summary is Some { seq!["details_summary"@] } else { seq![] };
    let e: Seq<Seq<char>> = if cs.state is Some { seq!["state"@] } else { seq![] };
    let f: Seq<Seq<char>> = if cs.priority is Some { seq!["priority"@] } else { seq![] };
    let g: Seq<Seq<char>> = if cs.parent_id is Some { seq!["parent_id"@] } else { seq![] };
    let h: Seq<Seq<char>> = if cs.target_version_id is Some { seq!["target_version_id"@] } else { seq![] };
    let i: Seq<Seq<char>> = if cs.feature_number is Some { seq!["feature_number"@] } else { seq![] };
    a + b + c + d + e + f + g + h + i
}

/// Whether a changeset sets no field.
pub open spec fn changes_nothing(cs: FeatureChangeset) -> bool {
    cs.title is None && cs.details is None && cs.desired_details is None && cs.details_summary is None
        && cs.state is None && cs.priority is None && cs.parent_id is None
        && cs.target_version_id is None && cs.feature_number is None
}

pub open spec fn str_views(v: Seq<&'static str>) -> Seq<Seq<char>> {
    v.map_values(|s: &'static str| s@)
}

fn push_if(v: &mut Vec<&'static str>, cond: bool, name: &'static str)
    ensures
        str_views(final(v)@) == str_views(old(v)@) + (if cond {
            seq![name@]
        } else {
            Seq::<Seq<char>>::empty()
        }),
{
    if cond {
        v.push(name);
    }
    assert(str_views(v@) =~= str_views(old(v)@) + (if cond {
        seq![name@]
    } else {
        Seq::<Seq<char>>::empty()
    }));
}

impl FeatureChangeset {
    /// The changeset that also sets the state.
    pub fn state(self, state: FeatureState) -> (r: FeatureChangeset)
        ensures
            r == (FeatureChangeset { state: Some(state), ..self }),
    {
        FeatureChangeset { state: Some(state), ..self }
    }

    /// The changeset that also sets the details.
    pub fn details(self, details: &str) -> (r: FeatureChangeset)
        ensures
            r.details matches Some(d) && d@ == details@,
            r == (FeatureChangeset { details: r.details, ..self }),
    {
        FeatureChangeset { details: Some(details.to_owned()), ..self }
    }

    /// The changeset that also sets the title.
    pub fn title(self, title: &str) -> (r: FeatureChangeset)
        ensures
            r.title matches Some(t) && t@ == title@,
            r == (FeatureChangeset { title: r.title, ..self }),
    {
        FeatureChangeset { title: Some(title.to_owned()), ..self }
    }

    /// The changeset that also sets the priority.
    pub fn priority(self, priority: i32) -> (r: FeatureChangeset)
        ensures
            r == (FeatureChangeset { priority: Some(priority), ..self }),
    {
        FeatureChangeset { priority: Some(priority), ..self }
    }

    /// The changeset that also sets the parent (`None` detaches).
    pub fn parent_id(self, parent_id: Option<FeatureId>) -> (r: FeatureChangeset)
        ensures
            r == (FeatureChangeset { parent_id: Some(parent_id), ..self }),
    {
        FeatureChangeset { parent_id: Some(parent_id), ..self }
    }

    /// The changeset that also sets the version (`None` removes it).
    pub fn target_version_id(self, version_id: Option<VersionId>) -> (r: FeatureChangeset)
        ensures
            r == (FeatureChangeset { target_version_id: Some(version_id), ..self }),
    {
        FeatureChangeset { target_version_id: Some(version_id), ..self }
    }

    /// The changeset that also sets the desired details (`None` clears them).
    pub fn desired_details(self, desired: Option<String>) -> (r: FeatureChangeset)
        ensures
            r == (FeatureChangeset { desired_details: Some(desired), ..self }),
    {
        FeatureChangeset { desired_details: Some(desired), ..self }
    }

    /// The changeset that also sets the summary (`None` clears it).
    pub fn details_summary(self, summary: Option<String>) -> (r: FeatureChangeset)
        ensures
            r == (FeatureChangeset { details_summary: Some(summary), ..self }),
    {
        FeatureChangeset { details_summary: Some(summary), ..self }
    }

    /// Whether no field is set.
    pub fn is_empty(&self) -> (r: bool)
        ensures
            r == changes_nothing(*self),
    {
        self.title.is_none() && self.details.is_none() && self.desired_details.is_none()
            && self.details_summary.is_none() && self.state.is_none() && self.priority.is_none()
            && self.parent_id.is_none() && self.target_version_id.is_none()
            && self.feature_number.is_none()
    }

    /// The names of the fields that are set, in field order.
    pub fn changed_fields(&self) -> (r: Vec<&'static str>)
        ensures
            str_views(r@) == changed_names(*self),
    {
        let mut fields: Vec<&'static str> = Vec::new();
        let ghost cs = *self;
        push_if(&mut fields, self.title.is_some(), "title");
        push_if(&mut fields, self.details.is_some(), "details");
        push_if(&mut fields, self.desired_details.is_some(), "desired_details");
        push_if(&mut fields, self.details_summary.is_some(), "details_summary");
        push_if(&mut fields, self.state.is_some(), "state");
        push_if(&mut fields, self.priority.is_some(), "priority");
        push_if(&mut fields, self.parent_id.is_some(), "parent_id");
        push_if(&mut fields, self.target_version_id.is_some(), "target_version_id");
        push_if(&mut fields, self.feature_number.is_some(), "feature_number");
        assert(str_views(fields@) =~= changed_names(cs));
        fields
    }
}

/// A changeset sets no field exactly when it names no changed field.
pub proof fn lemma_empty_iff_no_changed_fields(cs: FeatureChangeset)
    ensures
        changes_nothing(cs) <==> changed_names(cs).len() == 0,
{
}

/// Identifies a storage backend.
#[derive(Debug, Clone, PartialEq, Eq)]
pub enum BackendType {
    Sqlite,
    Turso,
    GitHub,
    Custom(String),
}

impl BackendType {
    pub open spec fn text(&self) -> Seq<char> {
        match self {
            BackendType::Sqlite => "sqlite"@,
            BackendType::Turso => "turso"@,
            BackendType::GitHub => "github"@,
            BackendType::Custom(n) => "custom:"@ + n@,
        }
    }

    /// The backend's name: `sqlite`, `turso`, `github` or `custom:<name>`.
    pub fn to_string(&self) -> (r: String)
        ensures
            r@ == self.text(),
    {
        match self {
            BackendType::Sqlite => "sqlite".to_owned(),
            BackendType::Turso => "turso".to_owned(),
            BackendType::GitHub => "github".to_owned(),
            BackendType::Custom(n) => {
                let mut v: Vec<char> = Vec::new();
                append_str(&mut v, "custom:");
                append_str(&mut v, n.as_str());
                string_of(&v)
            },
        }
    }

    /// A copy of the backend type.
    pub fn duplicate(&self) -> (r: BackendType)
        ensures
            r == *self,
    {
        match self {
            BackendType::Sqlite => BackendType::Sqlite,
            BackendType::Turso => BackendType::Turso,
            BackendType::GitHub => BackendType::GitHub,
            BackendType::Custom(n) => BackendType::Custom(n.clone()),
        }
    }
}

/// What a storage backend can and cannot do.
#[derive(Debug)]
pub struct StoreCapabilities {
    /// Writes can be queued offline and synced later.
    pub offline_writes: bool,
    /// Changes from other users appear without a sync.
    pub realtime_sync: bool,
    /// Feature details can be searched as full text.
    pub fulltext_search: bool,
    /// Several changes can be made atomically.
    pub transactions: bool,
    /// The backend has its own web interface.
    pub external_ui: bool,
    pub backend_type: BackendType,
    /// The longest feature details accepted, if limited.
    pub max_detail_length: Option<usize>,
}

impl StoreCapabilities {
    /// The capabilities of a local SQLite store.
    pub fn sqlite() -> (r: StoreCapabilities)
        ensures
            r.offline_writes,
            !r.realtime_sync,
            r.fulltext_search,
            r.transactions,
            !r.external_ui,
            r.backend_type == BackendType::Sqlite,
            r.max_detail_length is None,
    {
        StoreCapabilities {
            offline_writes: true,
            realtime_sync: false,
            fulltext_search: true,
            transactions: true,
            external_ui: false,
            backend_type: BackendType::Sqlite,
            max_detail_length: None,
        }
    }

    /// The capabilities of the read-only GitHub Issues store.
    pub fn github() -> (r: StoreCapabilities)
        ensures
            !r.offline_writes,
            !r.realtime_sync,
            !r.fulltext_search,
            !r.transactions,
            r.external_ui,
            r.backend_type == BackendType::GitHub,
            r.max_detail_length == Some(65536usize),
    {
        StoreCapabilities {
            offline_writes: false,
            realtime_sync: false,
            fulltext_search: false,
            transactions: false,
            external_ui: true,
            backend_type: BackendType::GitHub,
            max_detail_length: Some(65536),
        }
    }
}

/// The configuration of a storage backend.
#[derive(Debug)]
pub enum BackendConfig {
    Sqlite { path: Option<String> },
    Turso { url: String, token: Option<String>, sync_interval_secs: Option<u64> },
    GitHub {
        /// "owner/repo".
        repo: Option<String>,
        token: Option<String>,
        sync_interval_secs: Option<u64>,
        project_number: Option<i32>,
    },
}

impl Default for BackendConfig {
    /// A SQLite backend at the default path.
    fn default() -> (r: BackendConfig)
        ensures
            r matches BackendConfig::Sqlite { path: None },
    {
        BackendConfig::Sqlite { path: None }
    }
}

} // verus!
