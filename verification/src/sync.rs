//! Selective sync: merging features from remotes, the registry of connected
//! remotes, and the offline write queue.
//!
//! The local database is the unified read source; each remote carries its own
//! copy of a project's rows. Incoming rows are merged field by field: the
//! fields that carry their own timestamp (state, details, parent) take the
//! newer side, and the rest come from the side with the newer `updated_at`.

use vstd::prelude::*;
use crate::models::ids::{ProjectId, RemoteId};
use crate::models::remote::SyncState;
use crate::text::{clone_opt, opt_view, str_eq};
use crate::time::{now, parse_rfc3339, rfc3339_parse_result, to_timestamp, ts_le, ts_lt, Timestamp};

verus! {

/// A row of the remote `features` table, used for merge operations.
#[derive(Debug)]
pub struct RemoteFeature {
    pub id: String,
    pub project_id: String,
    pub parent_id: Option<String>,
    pub title: String,
    pub details: Option<String>,
    pub desired_details: Option<String>,
    pub details_summary: Option<String>,
    pub state: String,
    pub priority: i64,
    pub feature_number: Option<i64>,
    pub target_version_id: Option<String>,
    pub claimed_by: Option<String>,
    pub claimed_at: Option<String>,
    pub claim_metadata: Option<String>,
    pub verification_result: Option<String>,
    pub verified_at: Option<String>,
    pub state_updated_at: Option<String>,
    pub details_updated_at: Option<String>,
    pub parent_id_updated_at: Option<String>,
    pub created_at: String,
    pub updated_at: String,
}

impl RemoteFeature {
    /// A field-by-field copy.
    pub fn duplicate(&self) -> (r: RemoteFeature)
        ensures
            r == *self,
    {
        RemoteFeature {
            id: self.id.clone(),
            project_id: self.project_id.clone(),
            parent_id: clone_opt(&self.parent_id),
            title: self.title.clone(),
            details: clone_opt(&self.details),
            desired_details: clone_opt(&self.desired_details),
            details_summary: clone_opt(&self.details_summary),
            state: self.state.clone(),
            priority: self.priority,
            feature_number: self.feature_number,
            target_version_id: clone_opt(&self.target_version_id),
            claimed_by: clone_opt(&self.claimed_by),
            claimed_at: clone_opt(&self.claimed_at),
            claim_metadata: clone_opt(&self.claim_metadata),
            verification_result: clone_opt(&self.verification_result),
            verified_at: clone_opt(&self.verified_at),
            state_updated_at: clone_opt(&self.state_updated_at),
            details_updated_at: clone_opt(&self.details_updated_at),
            parent_id_updated_at: clone_opt(&self.parent_id_updated_at),
            created_at: self.created_at.clone(),
            updated_at: self.updated_at.clone(),
        }
    }
}

/// A row of the remote `projects` table.
#[derive(Debug, Clone)]
pub struct RemoteProject {
    pub id: String,
    pub slug: String,
    pub name: String,
    pub description: Option<String>,
    pub instructions: Option<String>,
    pub current_version_id: Option<String>,
    pub root_feature_id: Option<String>,
    pub default_feature_destination: String,
    pub test_adapter: Option<String>,
    pub context_budget: Option<i64>,
    pub key_prefix: String,
    pub created_at: String,
    pub updated_at: String,
}

/// A row of the remote `versions` table.
#[derive(Debug, Clone)]
pub struct RemoteVersion {
    pub id: String,
    pub project_id: String,
    pub name: String,
    pub description: Option<String>,
    pub released_at: Option<String>,
    pub created_at: String,
    pub updated_at: String,
}

/// Direction of a single sync operation, and the side a merged field came from.
#[derive(Debug, Clone, Copy, PartialEq, Eq, Structural)]
pub enum SyncDirection {
    /// Local changes go to the remote (the local side won).
    Push,
    /// Remote changes come to local (the remote side won).
    Pull,
}

/// Result of a single sync operation.
#[derive(Debug, Clone)]
pub struct SyncResult {
    pub remote_name: String,
    pub project_id: String,
    pub direction: SyncDirection,
    pub features_pushed: usize,
    pub features_pulled: usize,
    pub versions_pushed: usize,
    pub versions_pulled: usize,
    pub conflicts_resolved: usize,
}

/// Status of sync for a project-remote pair.
#[derive(Debug, Clone)]
pub struct ProjectSyncStatus {
    pub project_id: ProjectId,
    pub project_name: String,
    pub remote_id: RemoteId,
    pub remote_name: String,
    pub sync_state: SyncState,
    pub last_synced_at: Option<Timestamp>,
    pub pending_push: usize,
    pub pending_pull: usize,
}

/// Type of a queued write.
#[derive(Debug, Clone, Copy, PartialEq, Eq, Structural)]
pub enum WriteOperation {
    Upsert,
    Delete,
}

impl WriteOperation {
    pub open spec fn text(self) -> Seq<char> {
        match self {
            WriteOperation::Upsert => "upsert"@,
            WriteOperation::Delete => "delete"@,
        }
    }

    pub open spec fn from_text(s: Seq<char>) -> Option<WriteOperation> {
        if s == "upsert"@ {
            Some(WriteOperation::Upsert)
        } else if s == "delete"@ {
            Some(WriteOperation::Delete)
        } else {
            None
        }
    }

    pub fn as_str(&self) -> (r: &'static str)
        ensures
            r@ == self.text(),
    {
        match self {
            WriteOperation::Upsert => "upsert",
            WriteOperation::Delete => "delete",
        }
    }

    pub fn from_str(s: &str) -> (r: Option<WriteOperation>)
        ensures
            r == WriteOperation::from_text(s@),
    {
        if str_eq(s, "upsert") {
            Some(WriteOperation::Upsert)
        } else if str_eq(s, "delete") {
            Some(WriteOperation::Delete)
        } else {
            None
        }
    }
}

/// Parsing the text of an operation gives the operation back, and only an
/// operation's own text parses to it.
pub proof fn lemma_write_operation_text_roundtrip(op: WriteOperation, s: Seq<char>)
    ensures
        WriteOperation::from_text(op.text()) == Some(op),
        WriteOperation::from_text(s) == Some(op) ==> s == op.text(),
{
    reveal_strlit("upsert");
    reveal_strlit("delete");
    assert("upsert"@[0] != "delete"@[0]);
}

// ------------------------------------------------------------------
// Field-level merge
// ------------------------------------------------------------------

/// The instant an optional RFC 3339 text stands for, if it parses.
pub open spec fn ts_of(s: Option<String>) -> Option<Timestamp> {
    match s {
        Some(x) => to_timestamp(rfc3339_parse_result(x@)),
        None => None,
    }
}

/// Which side wins a field, given the two sides' timestamps: the newer one,
/// the local side on a tie, the side that has one, and the remote side when
/// neither has one.
pub open spec fn winner(local_ts: Option<Timestamp>, remote_ts: Option<Timestamp>) -> SyncDirection {
    match (local_ts, remote_ts) {
        (Some(l), Some(r)) => if ts_le(r, l) {
            SyncDirection::Push
        } else {
            SyncDirection::Pull
        },
        (Some(_), None) => SyncDirection::Push,
        (None, _) => SyncDirection::Pull,
    }
}

pub open spec fn pick<T>(d: SyncDirection, local: T, remote: T) -> T {
    match d {
        SyncDirection::Push => local,
        SyncDirection::Pull => remote,
    }
}

/// Whether the fields without their own timestamp come from the remote side:
/// unless both `updated_at` parse and the remote one is not newer.
pub open spec fn remote_is_base(lf: RemoteFeature, rf: RemoteFeature) -> bool {
    match (to_timestamp(rfc3339_parse_result(lf.updated_at@)), to_timestamp(
        rfc3339_parse_result(rf.updated_at@),
    )) {
        (Some(l), Some(r)) => ts_lt(l, r),
        _ => true,
    }
}

/// The merge of a local row with the remote row of the same feature.
pub open spec fn merge_pair(lf: RemoteFeature, rf: RemoteFeature) -> RemoteFeature {
    let sd = winner(ts_of(lf.state_updated_at), ts_of(rf.state_updated_at));
    let dd = winner(ts_of(lf.details_updated_at), ts_of(rf.details_updated_at));
    let pd = winner(ts_of(lf.parent_id_updated_at), ts_of(rf.parent_id_updated_at));
    let base = if remote_is_base(lf, rf) {
        rf
    } else {
        lf
    };
    RemoteFeature {
        id: lf.id,
        project_id: lf.project_id,
        parent_id: pick(pd, lf.parent_id, rf.parent_id),
        title: base.title,
        details: pick(dd, lf.details, rf.details),
        desired_details: base.desired_details,
        details_summary: base.details_summary,
        state: pick(sd, lf.state, rf.state),
        priority: base.priority,
        feature_number: base.feature_number,
        target_version_id: base.target_version_id,
        claimed_by: base.claimed_by,
        claimed_at: base.claimed_at,
        claim_metadata: base.claim_metadata,
        verification_result: base.verification_result,
        verified_at: base.verified_at,
        state_updated_at: pick(sd, lf.state_updated_at, rf.state_updated_at),
        details_updated_at: pick(dd, lf.details_updated_at, rf.details_updated_at),
        parent_id_updated_at: pick(pd, lf.parent_id_updated_at, rf.parent_id_updated_at),
        created_at: lf.created_at,
        updated_at: base.updated_at,
    }
}

/// How many of state, details and parent differ between the two rows.
pub open spec fn pair_conflicts(lf: RemoteFeature, rf: RemoteFeature) -> nat {
    (if lf.state@ != rf.state@ {
        1nat
    } else {
        0nat
    }) + (if opt_view(lf.details) != opt_view(rf.details) {
        1nat
    } else {
        0nat
    }) + (if opt_view(lf.parent_id) != opt_view(rf.parent_id) {
        1nat
    } else {
        0nat
    })
}

/// The last position among the first `n` rows of `local` whose id is `id`.
pub open spec fn last_with_id(local: Seq<RemoteFeature>, id: Seq<char>, n: int) -> Option<int>
    decreases n,
{
    if n <= 0 {
        None
    } else if local[n - 1].id@ == id {
        Some(n - 1)
    } else {
        last_with_id(local, id, n - 1)
    }
}

proof fn lemma_last_with_id_range(local: Seq<RemoteFeature>, id: Seq<char>, n: int)
    ensures
        last_with_id(local, id, n) matches Some(i) ==> 0 <= i < n && local[i].id@ == id,
    decreases n,
{
    if n > 0 {
        lemma_last_with_id_range(local, id, n - 1);
    }
}

/// The row that the local side holds for an id: the last one with that id.
pub open spec fn local_row(local: Seq<RemoteFeature>, id: Seq<char>) -> Option<int> {
    last_with_id(local, id, local.len() as int)
}

/// The state after the first `n` remote rows were merged: the merged rows so
/// far, the ids of the local rows consumed, and the number of conflicts.
pub open spec fn merge_prefix(local: Seq<RemoteFeature>, remote: Seq<RemoteFeature>, n: int) -> (
    Seq<RemoteFeature>,
    Seq<Seq<char>>,
    nat,
)
    decreases n,
{
    if n <= 0 {
        (seq![], seq![], 0)
    } else {
        let (m, taken, c) = merge_prefix(local, remote, n - 1);
        let rf = remote[n - 1];
        match local_row(local, rf.id@) {
            Some(i) => if !taken.contains(rf.id@) {
                (m.push(merge_pair(local[i], rf)), taken.push(rf.id@), c + pair_conflicts(local[i], rf))
            } else {
                (m.push(rf), taken, c)
            },
            None => (m.push(rf), taken, c),
        }
    }
}

/// The local rows that no remote row consumed, among the first `n`: for each
/// id, the last row with it, in local order.
pub open spec fn leftover(local: Seq<RemoteFeature>, taken: Seq<Seq<char>>, n: int) -> Seq<RemoteFeature>
    decreases n,
{
    if n <= 0 {
        seq![]
    } else {
        let r = leftover(local, taken, n - 1);
        let f = local[n - 1];
        if local_row(local, f.id@) == Some(n - 1) && !taken.contains(f.id@) {
            r.push(f)
        } else {
            r
        }
    }
}

/// The merged rows of `merge_features`.
pub open spec fn merged_rows(local: Seq<RemoteFeature>, remote: Seq<RemoteFeature>) -> Seq<RemoteFeature> {
    let (m, taken, _) = merge_prefix(local, remote, remote.len() as int);
    m + leftover(local, taken, local.len() as int)
}

/// The number of conflicts that `merge_features` reports.
pub open spec fn merge_conflicts(local: Seq<RemoteFeature>, remote: Seq<RemoteFeature>) -> nat {
    merge_prefix(local, remote, remote.len() as int).2
}

/// The instant a timestamp text stands for, if any and if it parses.
fn parse_ts(s: &Option<String>) -> (r: Option<Timestamp>)
    ensures
        r == ts_of(*s),
{
    match s {
        Some(v) => parse_rfc3339(v.as_str()),
        None => None,
    }
}

/// Which side wins a field, given the two sides' timestamps.
fn resolve_field(local_ts: &Option<Timestamp>, remote_ts: &Option<Timestamp>) -> (r: SyncDirection)
    ensures
        r == winner(*local_ts, *remote_ts),
{
    match (local_ts, remote_ts) {
        (Some(l), Some(r)) => {
            if r.is_at_or_before(l) {
                SyncDirection::Push
            } else {
                SyncDirection::Pull
            }
        },
        (Some(_), None) => SyncDirection::Push,
        (None, _) => SyncDirection::Pull,
    }
}

fn pick_opt(d: SyncDirection, local: &Option<String>, remote: &Option<String>) -> (r: Option<String>)
    ensures
        r == pick(d, *local, *remote),
{
    match d {
        SyncDirection::Push => clone_opt(local),
        SyncDirection::Pull => clone_opt(remote),
    }
}

/// Merges one local row with the remote row of the same feature.
fn merge_one(lf: &RemoteFeature, rf: &RemoteFeature) -> (r: (RemoteFeature, usize))
    ensures
        r.0 == merge_pair(*lf, *rf),
        r.1 == pair_conflicts(*lf, *rf),
{
    let sd = resolve_field(&parse_ts(&lf.state_updated_at), &parse_ts(&rf.state_updated_at));
    let dd = resolve_field(&parse_ts(&lf.details_updated_at), &parse_ts(&rf.details_updated_at));
    let pd = resolve_field(
        &parse_ts(&lf.parent_id_updated_at),
        &parse_ts(&rf.parent_id_updated_at),
    );
    let mut conflicts: usize = 0;
    if !(lf.state == rf.state) {
        conflicts = conflicts + 1;
    }
    if !crate::text::opt_eq(&lf.details, &rf.details) {
        conflicts = conflicts + 1;
    }
    if !crate::text::opt_eq(&lf.parent_id, &rf.parent_id) {
        conflicts = conflicts + 1;
    }
    let use_remote = match (parse_rfc3339(lf.updated_at.as_str()), parse_rfc3339(rf.updated_at.as_str())) {
        (Some(l), Some(r)) => l.is_before(&r),
        _ => true,
    };
    let base = if use_remote {
        rf
    } else {
        lf
    };
    let merged = RemoteFeature {
        id: lf.id.clone(),
        project_id: lf.project_id.clone(),
        parent_id: pick_opt(pd, &lf.parent_id, &rf.parent_id),
        title: base.title.clone(),
        details: pick_opt(dd, &lf.details, &rf.details),
        desired_details: clone_opt(&base.desired_details),
        details_summary: clone_opt(&base.details_summary),
        state: match sd {
            SyncDirection::Push => lf.state.clone(),
            SyncDirection::Pull => rf.state.clone(),
        },
        priority: base.priority,
        feature_number: base.feature_number,
        target_version_id: clone_opt(&base.target_version_id),
        claimed_by: clone_opt(&base.claimed_by),
        claimed_at: clone_opt(&base.claimed_at),
        claim_metadata: clone_opt(&base.claim_metadata),
        verification_result: clone_opt(&base.verification_result),
        verified_at: clone_opt(&base.verified_at),
        state_updated_at: pick_opt(sd, &lf.state_updated_at, &rf.state_updated_at),
        details_updated_at: pick_opt(dd, &lf.details_updated_at, &rf.details_updated_at),
        parent_id_updated_at: pick_opt(pd, &lf.parent_id_updated_at, &rf.parent_id_updated_at),
        created_at: lf.created_at.clone(),
        updated_at: base.updated_at.clone(),
    };
    (merged, conflicts)
}

/// The position of the last row of `local` whose id is `id`.
fn find_local_row(local: &[RemoteFeature], id: &String) -> (r: Option<usize>)
    ensures
        match r {
            Some(i) => local_row(local@, id@) == Some(i as int) && i < local@.len(),
            None => local_row(local@, id@) is None,
        },
{
    proof {
        lemma_last_with_id_range(local@, id@, local@.len() as int);
    }
    let mut n = local.len();
    while n > 0
        invariant
            n <= local@.len(),
            local_row(local@, id@) == last_with_id(local@, id@, n as int),
        decreases n,
    {
        if local[n - 1].id == *id {
            return Some(n - 1);
        }
        n = n - 1;
    }
    None
}

/// Whether `id` is among `ids`.
fn has_id(ids: &Vec<String>, id: &String) -> (r: bool)
    ensures
        r == ids@.map_values(|s: String| s@).contains(id@),
{
    let ghost v = ids@.map_values(|s: String| s@);
    let mut i: usize = 0;
    while i < ids.len()
        invariant
            i <= ids@.len(),
            v == ids@.map_values(|s: String| s@),
            forall|j: int| 0 <= j < i ==> v[j] != id@,
        decreases ids@.len() - i,
    {
        if ids[i] == *id {
            assert(v[i as int] == id@);
            return true;
        }
        i = i + 1;
    }
    false
}

/// The registry of connected remotes, by remote id.
///
/// The connections themselves are held by the caller beside it; the registry
/// decides which remotes count as connected.
pub struct MergeCoordinator {
    connected: Vec<String>,
}

impl MergeCoordinator {
    /// The ids of the connected remotes, in the order they were added.
    pub closed spec fn ids(&self) -> Seq<Seq<char>> {
        self.connected@.map_values(|s: String| s@)
    }

    /// The set of connected remote ids.
    pub open spec fn remote_set(&self) -> Set<Seq<char>> {
        self.ids().to_set()
    }

    /// Every remote id occurs once.
    pub closed spec fn wf(&self) -> bool {
        self.ids().no_duplicates()
    }

    /// A coordinator with no connected remote.
    pub fn new() -> (r: MergeCoordinator)
        ensures
            r.wf(),
            r.remote_set() == Set::<Seq<char>>::empty(),
    {
        let r = MergeCoordinator { connected: Vec::new() };
        assert(r.ids() =~= Seq::<Seq<char>>::empty());
        assert(r.remote_set() =~= Set::<Seq<char>>::empty());
        r
    }

    fn position(&self, remote_id: &str) -> (r: Option<usize>)
        ensures
            match r {
                Some(i) => i < self.ids().len() && self.ids()[i as int] == remote_id@,
                None => !self.ids().contains(remote_id@),
            },
    {
        let mut i: usize = 0;
        while i < self.connected.len()
            invariant
                i <= self.connected@.len(),
                forall|j: int| 0 <= j < i ==> self.ids()[j] != remote_id@,
            decreases self.connected@.len() - i,
        {
            if str_eq(self.connected[i].as_str(), remote_id) {
                return Some(i);
            }
            i = i + 1;
        }
        None
    }

    /// Registers a remote as connected (a remote already registered stays once).
    pub fn add_connection(&mut self, remote_id: &str)
        requires
            old(self).wf(),
        ensures
            final(self).wf(),
            final(self).remote_set() == old(self).remote_set().insert(remote_id@),
    {
        match self.position(remote_id) {
            None => {
                self.connected.push(remote_id.to_owned());
                let ghost before = old(self).ids();
                assert(self.ids() =~= before.push(remote_id@));
                assert forall|x: Seq<char>| self.remote_set().contains(x) <==> old(
                    self,
                ).remote_set().insert(remote_id@).contains(x) by {
                    if self.remote_set().contains(x) && x != remote_id@ {
                        let j = choose|j: int| 0 <= j < self.ids().len() && self.ids()[j] == x;
                        assert(before[j] == x);
                    }
                    if old(self).remote_set().contains(x) {
                        let j = choose|j: int| 0 <= j < before.len() && before[j] == x;
                        assert(self.ids()[j] == x);
                    }
                    if x == remote_id@ {
                        assert(self.ids()[before.len() as int] == x);
                    }
                }
            },
            Some(i) => {
                assert(old(self).ids().contains(remote_id@));
            },
        }
        assert(self.remote_set() =~= old(self).remote_set().insert(remote_id@));
    }

    /// Unregisters a remote.
    pub fn remove_connection(&mut self, remote_id: &str)
        requires
            old(self).wf(),
        ensures
            final(self).wf(),
            final(self).remote_set() == old(self).remote_set().remove(remote_id@),
    {
        match self.position(remote_id) {
            Some(i) => {
                let ghost before = self.ids();
                self.connected.remove(i);
                assert(self.ids() =~= before.remove(i as int));
                assert forall|x: Seq<char>| self.remote_set().contains(x) <==> old(
                    self,
                ).remote_set().remove(remote_id@).contains(x) by {
                    if self.remote_set().contains(x) {
                        let j = choose|j: int| 0 <= j < self.ids().len() && self.ids()[j] == x;
                        if j < i {
                            assert(before[j] == x);
                        } else {
                            assert(before[j + 1] == x);
                        }
                    }
                    if old(self).remote_set().remove(remote_id@).contains(x) {
                        let j = choose|j: int| 0 <= j < before.len() && before[j] == x;
                        assert(j != i);
                        if j < i {
                            assert(self.ids()[j] == x);
                        } else {
                            assert(self.ids()[j - 1] == x);
                        }
                    }
                }
                assert(self.remote_set() =~= old(self).remote_set().remove(remote_id@));
            },
            None => {
                assert(self.remote_set() =~= old(self).remote_set().remove(remote_id@));
            },
        }
    }

    /// Whether a remote is registered as connected.
    pub fn has_connection(&self, remote_id: &str) -> (r: bool)
        ensures
            r == self.remote_set().contains(remote_id@),
    {
        self.position(remote_id).is_some()
    }

    /// The number of connected remotes.
    pub fn connection_count(&self) -> (r: usize)
        requires
            self.wf(),
        ensures
            r == self.remote_set().len(),
    {
        proof {
            self.ids().unique_seq_to_set();
        }
        self.connected.len()
    }
}

impl MergeCoordinator {
    /// Merges the remote rows of a project into the local rows, field by field.
    ///
    /// Each remote row whose id the local side holds (the last local row with
    /// that id, once) is merged with it; any other remote row is taken as it is.
    /// The local rows that no remote row matched follow, in local order. The
    /// count is the number of differing state, details and parent fields among
    /// the merged pairs.
    pub fn merge_features(local: &[RemoteFeature], remote: &[RemoteFeature]) -> (r: (
        Vec<RemoteFeature>,
        usize,
    ))
        requires
            remote@.len() <= usize::MAX / 3,
        ensures
            r.0@ == merged_rows(local@, remote@),
            r.1 == merge_conflicts(local@, remote@),
    {
        let mut merged: Vec<RemoteFeature> = Vec::new();
        let mut taken: Vec<String> = Vec::new();
        let mut conflicts: usize = 0;
        let mut n: usize = 0;
        while n < remote.len()
            invariant
                n <= remote@.len(),
                remote@.len() <= usize::MAX / 3,
                conflicts <= 3 * n,
                merged@ == merge_prefix(local@, remote@, n as int).0,
                taken@.map_values(|s: String| s@) == merge_prefix(local@, remote@, n as int).1,
                conflicts == merge_prefix(local@, remote@, n as int).2,
            decreases remote@.len() - n,
        {
            let rf = &remote[n];
            let found = find_local_row(local, &rf.id);
            let already = has_id(&taken, &rf.id);
            match found {
                Some(i) => {
                    if !already {
                        let (m, c) = merge_one(&local[i], rf);
                        merged.push(m);
                        taken.push(rf.id.clone());
                        conflicts = conflicts + c;
                        assert(taken@.map_values(|s: String| s@) =~= merge_prefix(
                            local@,
                            remote@,
                            n as int,
                        ).1.push(rf.id@));
                    } else {
                        merged.push(rf.duplicate());
                    }
                },
                None => {
                    merged.push(rf.duplicate());
                },
            }
            n = n + 1;
        }
        let ghost taken_ids = taken@.map_values(|s: String| s@);
        let mut k: usize = 0;
        let ghost m0 = merged@;
        while k < local.len()
            invariant
                k <= local@.len(),
                taken_ids == taken@.map_values(|s: String| s@),
                merged@ == m0 + leftover(local@, taken_ids, k as int),
            decreases local@.len() - k,
        {
            let f = &local[k];
            let last = find_local_row(local, &f.id);
            let is_last = match last {
                Some(j) => j == k,
                None => false,
            };
            if is_last && !has_id(&taken, &f.id) {
                merged.push(f.duplicate());
            }
            k = k + 1;
        }
        (merged, conflicts)
    }
}

// ------------------------------------------------------------------
// Laws of the merge
// ------------------------------------------------------------------

/// The ids of the rows, in order.
pub open spec fn row_ids(rows: Seq<RemoteFeature>) -> Seq<Seq<char>> {
    rows.map_values(|f: RemoteFeature| f.id@)
}

/// No two rows share an id.
pub open spec fn unique_ids(rows: Seq<RemoteFeature>) -> bool {
    forall|i: int, j: int| 0 <= i < j < rows.len() ==> #[trigger] rows[i].id@ != #[trigger] rows[j].id@
}

/// Field-level last-writer-wins: a field with a timestamp on both sides comes
/// from the side whose timestamp is later, from the local side on a tie; a
/// field with a timestamp on one side only comes from that side.
pub proof fn lemma_newer_field_wins(lf: RemoteFeature, rf: RemoteFeature)
    ensures
        (ts_of(lf.state_updated_at) matches Some(l) && ts_of(rf.state_updated_at) matches Some(r)
            && ts_lt(l, r)) ==> merge_pair(lf, rf).state == rf.state,
        (ts_of(lf.state_updated_at) matches Some(l) && ts_of(rf.state_updated_at) matches Some(r)
            && ts_le(r, l)) ==> merge_pair(lf, rf).state == lf.state,
        (ts_of(lf.state_updated_at) is Some && ts_of(rf.state_updated_at) is None) ==> merge_pair(
            lf,
            rf,
        ).state == lf.state,
        (ts_of(lf.details_updated_at) matches Some(l) && ts_of(rf.details_updated_at) matches Some(r)
            && ts_lt(l, r)) ==> merge_pair(lf, rf).details == rf.details,
        (ts_of(lf.details_updated_at) matches Some(l) && ts_of(rf.details_updated_at) matches Some(r)
            && ts_le(r, l)) ==> merge_pair(lf, rf).details == lf.details,
        (ts_of(lf.parent_id_updated_at) matches Some(l) && ts_of(rf.parent_id_updated_at) matches Some(
            r,
        ) && ts_lt(l, r)) ==> merge_pair(lf, rf).parent_id == rf.parent_id,
        (ts_of(lf.parent_id_updated_at) matches Some(l) && ts_of(rf.parent_id_updated_at) matches Some(
            r,
        ) && ts_le(r, l)) ==> merge_pair(lf, rf).parent_id == lf.parent_id,
        merge_pair(lf, rf).id == lf.id,
        merge_pair(lf, rf).created_at == lf.created_at,
{
}

/// A field that only one side has stamped comes from that side, and a field
/// that neither side has stamped comes from the remote side: for state,
/// details and parent, both the value and its timestamp.
pub proof fn lemma_stamped_side_wins(lf: RemoteFeature, rf: RemoteFeature)
    ensures
        ts_of(lf.state_updated_at) is None ==> merge_pair(lf, rf).state == rf.state
            && merge_pair(lf, rf).state_updated_at == rf.state_updated_at,
        (ts_of(lf.state_updated_at) is Some && ts_of(rf.state_updated_at) is None) ==> merge_pair(
            lf,
            rf,
        ).state_updated_at == lf.state_updated_at,
        ts_of(lf.details_updated_at) is None ==> merge_pair(lf, rf).details == rf.details
            && merge_pair(lf, rf).details_updated_at == rf.details_updated_at,
        (ts_of(lf.details_updated_at) is Some && ts_of(rf.details_updated_at) is None) ==> merge_pair(
            lf,
            rf,
        ).details == lf.details && merge_pair(lf, rf).details_updated_at == lf.details_updated_at,
        ts_of(lf.parent_id_updated_at) is None ==> merge_pair(lf, rf).parent_id == rf.parent_id
            && merge_pair(lf, rf).parent_id_updated_at == rf.parent_id_updated_at,
        (ts_of(lf.parent_id_updated_at) is Some && ts_of(rf.parent_id_updated_at) is None)
            ==> merge_pair(lf, rf).parent_id == lf.parent_id && merge_pair(lf, rf).parent_id_updated_at
            == lf.parent_id_updated_at,
{
}

proof fn lemma_last_with_id_unique(rows: Seq<RemoteFeature>, k: int, n: int)
    requires
        unique_ids(rows),
        0 <= k < n <= rows.len(),
    ensures
        last_with_id(rows, rows[k].id@, n) == Some(k),
    decreases n,
{
    if n - 1 != k {
        lemma_last_with_id_unique(rows, k, n - 1);
    }
}

proof fn lemma_merge_identical_prefix(rows: Seq<RemoteFeature>, n: int)
    requires
        unique_ids(rows),
        0 <= n <= rows.len(),
    ensures
        merge_prefix(rows, rows, n) == (rows.take(n), row_ids(rows.take(n)), 0nat),
    decreases n,
{
    if n > 0 {
        lemma_merge_identical_prefix(rows, n - 1);
        let f = rows[n - 1];
        lemma_last_with_id_unique(rows, n - 1, rows.len() as int);
        let taken = row_ids(rows.take(n - 1));
        assert(!taken.contains(f.id@)) by {
            if taken.contains(f.id@) {
                let j = choose|j: int| 0 <= j < taken.len() && taken[j] == f.id@;
                assert(rows[j].id@ == f.id@);
            }
        }
        assert(merge_pair(f, f) == f);
        assert(rows.take(n - 1).push(f) =~= rows.take(n));
        assert(taken.push(f.id@) =~= row_ids(rows.take(n)));
    } else {
        assert(rows.take(0) =~= Seq::<RemoteFeature>::empty());
        assert(row_ids(rows.take(0)) =~= Seq::<Seq<char>>::empty());
    }
}

proof fn lemma_leftover_none(rows: Seq<RemoteFeature>, n: int)
    requires
        0 <= n <= rows.len(),
    ensures
        leftover(rows, row_ids(rows), n) == Seq::<RemoteFeature>::empty(),
    decreases n,
{
    if n > 0 {
        lemma_leftover_none(rows, n - 1);
        assert(row_ids(rows)[n - 1] == rows[n - 1].id@);
    }
}

/// Merging a set of rows with an identical copy of itself changes nothing and
/// counts no conflict.
pub proof fn lemma_merge_identical(rows: Seq<RemoteFeature>)
    requires
        unique_ids(rows),
    ensures
        merged_rows(rows, rows) == rows,
        merge_conflicts(rows, rows) == 0,
{
    lemma_merge_identical_prefix(rows, rows.len() as int);
    assert(rows.take(rows.len() as int) =~= rows);
    lemma_leftover_none(rows, rows.len() as int);
    assert(rows + Seq::<RemoteFeature>::empty() =~= rows);
}

proof fn lemma_merge_prefix_ids(local: Seq<RemoteFeature>, remote: Seq<RemoteFeature>, n: int)
    requires
        0 <= n <= remote.len(),
    ensures
        merge_prefix(local, remote, n).0.len() == n,
        forall|j: int| 0 <= j < n ==> #[trigger] merge_prefix(local, remote, n).0[j].id@ == remote[j].id@,
        forall|t: int|
            0 <= t < merge_prefix(local, remote, n).1.len() ==> exists|j: int|
                0 <= j < n && remote[j].id@ == #[trigger] merge_prefix(local, remote, n).1[t],
    decreases n,
{
    if n > 0 {
        lemma_merge_prefix_ids(local, remote, n - 1);
        let rf = remote[n - 1];
        lemma_last_with_id_range(local, rf.id@, local.len() as int);
        let prev = merge_prefix(local, remote, n - 1);
        let cur = merge_prefix(local, remote, n);
        assert forall|t: int| 0 <= t < cur.1.len() implies exists|j: int|
            0 <= j < n && remote[j].id@ == #[trigger] cur.1[t] by {
            if t < prev.1.len() {
                assert(cur.1[t] == prev.1[t]);
                let j = choose|j: int| 0 <= j < n - 1 && remote[j].id@ == prev.1[t];
                assert(remote[j].id@ == cur.1[t]);
            } else {
                assert(remote[n - 1].id@ == cur.1[t]);
            }
        }
        assert forall|j: int| 0 <= j < n implies #[trigger] cur.0[j].id@ == remote[j].id@ by {
            if j < n - 1 {
                assert(cur.0[j] == prev.0[j]);
            }
        }
    }
}

proof fn lemma_last_with_id_some(rows: Seq<RemoteFeature>, i: int, n: int)
    requires
        0 <= i < n <= rows.len(),
    ensures
        last_with_id(rows, rows[i].id@, n) is Some,
    decreases n,
{
    if n - 1 != i && rows[n - 1].id@ != rows[i].id@ {
        lemma_last_with_id_some(rows, i, n - 1);
    }
}

proof fn lemma_leftover_has(local: Seq<RemoteFeature>, taken: Seq<Seq<char>>, i: int, n: int)
    requires
        0 <= i < n <= local.len(),
        local_row(local, local[i].id@) == Some(i),
        !taken.contains(local[i].id@),
    ensures
        leftover(local, taken, n).contains(local[i]),
    decreases n,
{
    if n - 1 == i {
        assert(leftover(local, taken, n).last() == local[i]);
    } else {
        lemma_leftover_has(local, taken, i, n - 1);
        let prev = leftover(local, taken, n - 1);
        let k = choose|k: int| 0 <= k < prev.len() && prev[k] == local[i];
        assert(leftover(local, taken, n)[k] == local[i]);
    }
}

/// No feature is lost in a merge: the merged rows start with one row per
/// remote row, with that row's id, and every id of a local row occurs among
/// the merged rows.
pub proof fn lemma_merge_keeps_ids(local: Seq<RemoteFeature>, remote: Seq<RemoteFeature>)
    ensures
        merged_rows(local, remote).len() >= remote.len(),
        forall|j: int| 0 <= j < remote.len() ==> #[trigger] merged_rows(local, remote)[j].id@ == remote[j].id@,
        forall|i: int| 0 <= i < local.len() ==> exists|k: int|
            0 <= k < merged_rows(local, remote).len() && #[trigger] merged_rows(local, remote)[k].id@
                == #[trigger] local[i].id@,
{
    let n = remote.len() as int;
    lemma_merge_prefix_ids(local, remote, n);
    let (m, taken, c) = merge_prefix(local, remote, n);
    let out = merged_rows(local, remote);
    assert(out == m + leftover(local, taken, local.len() as int));
    assert forall|j: int| 0 <= j < remote.len() implies #[trigger] out[j].id@ == remote[j].id@ by {
        assert(out[j] == m[j]);
    }
    assert forall|i: int| 0 <= i < local.len() implies exists|k: int|
        0 <= k < out.len() && #[trigger] out[k].id@ == #[trigger] local[i].id@ by {
        let id = local[i].id@;
        if taken.contains(id) {
            let t = choose|t: int| 0 <= t < taken.len() && taken[t] == id;
            let j = choose|j: int| 0 <= j < n && remote[j].id@ == #[trigger] taken[t];
            assert(out[j].id@ == id);
        } else {
            lemma_last_with_id_range(local, id, local.len() as int);
            lemma_last_with_id_some(local, i, local.len() as int);
            let i2 = local_row(local, id)->0;
            assert(local[i2].id@ == id);
            lemma_leftover_has(local, taken, i2, local.len() as int);
            let rest = leftover(local, taken, local.len() as int);
            let k = choose|k: int| 0 <= k < rest.len() && rest[k] == local[i2];
            assert(out[m.len() + k] == rest[k]);
            assert(out[m.len() + k].id@ == id);
        }
    }
}

// ------------------------------------------------------------------
// Offline write queue
// ------------------------------------------------------------------

/// An entry of the offline write queue.
#[derive(Debug)]
pub struct QueuedWrite {
    pub id: i64,
    pub project_id: String,
    pub remote_id: String,
    pub table_name: String,
    pub row_id: String,
    pub operation: WriteOperation,
    /// The row, serialized as JSON.
    pub payload: String,
    pub created_at: Timestamp,
}

impl QueuedWrite {
    /// A field-by-field copy.
    pub fn duplicate(&self) -> (r: QueuedWrite)
        ensures
            r == *self,
    {
        QueuedWrite {
            id: self.id,
            project_id: self.project_id.clone(),
            remote_id: self.remote_id.clone(),
            table_name: self.table_name.clone(),
            row_id: self.row_id.clone(),
            operation: self.operation,
            payload: self.payload.clone(),
            created_at: self.created_at,
        }
    }
}

/// The writes of `ws` for the remote `remote_id`, in order.
pub open spec fn writes_for(ws: Seq<QueuedWrite>, remote_id: Seq<char>) -> Seq<QueuedWrite> {
    ws.filter(|w: QueuedWrite| w.remote_id@ == remote_id)
}

/// The writes of `ws` other than the one with id `id`, in order.
pub open spec fn writes_without(ws: Seq<QueuedWrite>, id: i64) -> Seq<QueuedWrite> {
    ws.filter(|w: QueuedWrite| w.id != id)
}

/// Writes queued while a remote is unreachable, delivered once it is back.
///
/// Each write gets the next id, starting at 1; ids grow in queue order.
pub struct OfflineQueue {
    writes: Vec<QueuedWrite>,
    next_id: i64,
}

impl OfflineQueue {
    /// The queued writes, oldest first.
    pub closed spec fn writes(&self) -> Seq<QueuedWrite> {
        self.writes@
    }

    /// The id the next queued write gets.
    pub closed spec fn next_id(&self) -> i64 {
        self.next_id
    }

    /// Ids are positive, strictly increasing in queue order, and below the
    /// next id.
    pub open spec fn wf(&self) -> bool {
        &&& self.next_id() >= 1
        &&& forall|i: int| 0 <= i < self.writes().len() ==> 1 <= #[trigger] self.writes()[i].id
            < self.next_id()
        &&& forall|i: int, j: int|
            0 <= i < j < self.writes().len() ==> #[trigger] self.writes()[i].id
                < #[trigger] self.writes()[j].id
    }

    /// An empty queue whose first write gets id 1.
    pub fn new() -> (r: OfflineQueue)
        ensures
            r.wf(),
            r.writes() == Seq::<QueuedWrite>::empty(),
            r.next_id() == 1,
    {
        OfflineQueue { writes: Vec::new(), next_id: 1 }
    }

    /// The id the next queued write gets (ids run out at `i64::MAX`).
    pub fn next_write_id(&self) -> (r: i64)
        ensures
            r == self.next_id(),
    {
        self.next_id
    }

    /// Queues a write for later delivery and returns its id.
    pub fn enqueue(
        &mut self,
        project_id: &str,
        remote_id: &str,
        table_name: &str,
        row_id: &str,
        operation: WriteOperation,
        payload: &str,
    ) -> (r: i64)
        requires
            old(self).wf(),
            old(self).next_id() < i64::MAX,
        ensures
            final(self).wf(),
            r == old(self).next_id(),
            final(self).next_id() == old(self).next_id() + 1,
            final(self).writes().len() == old(self).writes().len() + 1,
            final(self).writes().drop_last() == old(self).writes(),
            final(self).writes().last().id == r,
            final(self).writes().last().project_id@ == project_id@,
            final(self).writes().last().remote_id@ == remote_id@,
            final(self).writes().last().table_name@ == table_name@,
            final(self).writes().last().row_id@ == row_id@,
            final(self).writes().last().operation == operation,
            final(self).writes().last().payload@ == payload@,
    {
        let id = self.next_id;
        self.next_id = self.next_id + 1;
        let write = QueuedWrite {
            id,
            project_id: project_id.to_owned(),
            remote_id: remote_id.to_owned(),
            table_name: table_name.to_owned(),
            row_id: row_id.to_owned(),
            operation,
            payload: payload.to_owned(),
            created_at: now(),
        };
        self.writes.push(write);
        assert(self.writes().drop_last() =~= old(self).writes());
        id
    }

    /// The queued writes for a remote, oldest first.
    pub fn pending_for_remote(&self, remote_id: &str) -> (r: Vec<QueuedWrite>)
        ensures
            r@ == writes_for(self.writes(), remote_id@),
    {
        let mut out: Vec<QueuedWrite> = Vec::new();
        let mut i: usize = 0;
        while i < self.writes.len()
            invariant
                i <= self.writes@.len(),
                out@ == writes_for(self.writes@.take(i as int), remote_id@),
            decreases self.writes@.len() - i,
        {
            let ghost before = self.writes@.take(i as int);
            assert(self.writes@.take(i as int + 1) =~= before.push(self.writes@[i as int]));
            proof {
                before.lemma_filter_push(self.writes@[i as int], |w: QueuedWrite| w.remote_id@ == remote_id@);
            }
            if str_eq(self.writes[i].remote_id.as_str(), remote_id) {
                out.push(self.writes[i].duplicate());
            }
            i = i + 1;
        }
        assert(self.writes@.take(self.writes@.len() as int) =~= self.writes@);
        out
    }

    /// The number of queued writes.
    pub fn pending_count(&self) -> (r: usize)
        ensures
            r == self.writes().len(),
    {
        self.writes.len()
    }

    /// Removes the write with the given id after its delivery; whether there
    /// was one.
    pub fn dequeue(&mut self, id: i64) -> (r: bool)
        requires
            old(self).wf(),
        ensures
            final(self).wf(),
            final(self).next_id() == old(self).next_id(),
            final(self).writes() == writes_without(old(self).writes(), id),
            r == exists|i: int| 0 <= i < old(self).writes().len() && #[trigger] old(self).writes()[i].id == id,
    {
        let mut kept: Vec<QueuedWrite> = Vec::new();
        let mut found = false;
        let mut i: usize = 0;
        while i < self.writes.len()
            invariant
                i <= self.writes@.len(),
                self.writes@ == old(self).writes(),
                kept@ == writes_without(self.writes@.take(i as int), id),
                found == exists|k: int| 0 <= k < i && #[trigger] self.writes@[k].id == id,
                old(self).wf(),
                forall|a: int| 0 <= a < kept@.len() ==> 1 <= #[trigger] kept@[a].id < self.next_id,
                forall|a: int, k: int|
                    0 <= a < kept@.len() && i <= k < self.writes@.len() ==> #[trigger] kept@[a].id
                        < #[trigger] self.writes@[k].id,
                forall|a: int, b: int|
                    0 <= a < b < kept@.len() ==> #[trigger] kept@[a].id < #[trigger] kept@[b].id,
            decreases self.writes@.len() - i,
        {
            let ghost before = self.writes@.take(i as int);
            assert(self.writes@.take(i as int + 1) =~= before.push(self.writes@[i as int]));
            proof {
                before.lemma_filter_push(self.writes@[i as int], |w: QueuedWrite| w.id != id);
            }
            if self.writes[i].id != id {
                kept.push(self.writes[i].duplicate());
            } else {
                found = true;
            }
            i = i + 1;
        }
        assert(self.writes@.take(self.writes@.len() as int) =~= self.writes@);
        self.writes = kept;
        found
    }
}

proof fn lemma_without_absent(ws: Seq<QueuedWrite>, id: i64)
    requires
        forall|i: int| 0 <= i < ws.len() ==> #[trigger] ws[i].id != id,
    ensures
        writes_without(ws, id) == ws,
    decreases ws.len(),
{
    reveal(Seq::filter);
    if ws.len() > 0 {
        lemma_without_absent(ws.drop_last(), id);
        assert(ws.drop_last().push(ws.last()) =~= ws);
    }
}

/// Removing an id that no queued write has leaves the queue as it was.
pub proof fn lemma_dequeue_absent(q: OfflineQueue, id: i64)
    requires
        forall|i: int| 0 <= i < q.writes().len() ==> #[trigger] q.writes()[i].id != id,
    ensures
        writes_without(q.writes(), id) == q.writes(),
{
    lemma_without_absent(q.writes(), id);
}

/// Registering a remote that was not connected and then removing it gives
/// back the connected remotes from before; registering one that was
/// connected changes nothing.
pub proof fn lemma_remove_undoes_add(
    before: MergeCoordinator,
    added: MergeCoordinator,
    removed: MergeCoordinator,
    remote_id: Seq<char>,
)
    requires
        added.remote_set() == before.remote_set().insert(remote_id),
        removed.remote_set() == added.remote_set().remove(remote_id),
    ensures
        !before.remote_set().contains(remote_id) ==> removed.remote_set() == before.remote_set(),
        before.remote_set().contains(remote_id) ==> added.remote_set() == before.remote_set(),
{
    assert(!before.remote_set().contains(remote_id) ==> removed.remote_set() =~= before.remote_set());
    assert(before.remote_set().contains(remote_id) ==> added.remote_set() =~= before.remote_set());
}

/// A newly queued write comes last among its remote's pending writes, after
/// those from before; every other remote's pending writes stay as they were.
pub proof fn lemma_enqueue_pending(before: OfflineQueue, after: OfflineQueue, remote_id: Seq<char>)
    requires
        after.writes().len() == before.writes().len() + 1,
        after.writes().drop_last() == before.writes(),
    ensures
        writes_for(after.writes(), remote_id) == (if after.writes().last().remote_id@ == remote_id {
            writes_for(before.writes(), remote_id).push(after.writes().last())
        } else {
            writes_for(before.writes(), remote_id)
        }),
{
    reveal(Seq::filter);
    assert(after.writes().len() > 0);
}

/// Removing the write that was just queued gives back the queue from before.
pub proof fn lemma_dequeue_undoes_enqueue(before: OfflineQueue, after: OfflineQueue, id: i64)
    requires
        before.wf(),
        id == before.next_id(),
        after.writes().len() == before.writes().len() + 1,
        after.writes().drop_last() == before.writes(),
        after.writes().last().id == id,
    ensures
        exists|i: int| 0 <= i < after.writes().len() && #[trigger] after.writes()[i].id == id,
        writes_without(after.writes(), id) == before.writes(),
{
    let ws = before.writes();
    let w = after.writes().last();
    assert(ws.push(w) =~= after.writes());
    ws.lemma_filter_push(w, |x: QueuedWrite| x.id != id);
    lemma_without_absent(ws, id);
    assert(after.writes()[after.writes().len() - 1].id == id);
}

} // verus!
