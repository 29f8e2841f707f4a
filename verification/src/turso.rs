//! Turso embedded replicas: their configuration, the shared schema they are
//! provisioned with, and the report of a replica's state.

use vstd::prelude::*;
use crate::text::{append_str, chars_of, split, split_exec, string_of, trim, trim_exec, vec_views};

verus! {

/// The schema of the tables that are shared through Turso, provisioned on
/// first connect.
pub const SHARED_SCHEMA: &'static str = "\nCREATE TABLE IF NOT EXISTS projects (\n    id TEXT PRIMARY KEY,\n    slug TEXT UNIQUE NOT NULL,\n    name TEXT NOT NULL,\n    description TEXT,\n    instructions TEXT,\n    current_version_id TEXT,\n    root_feature_id TEXT,\n    default_feature_destination TEXT NOT NULL DEFAULT 'backlog',\n    test_adapter TEXT,\n    context_budget INTEGER,\n    key_prefix TEXT NOT NULL DEFAULT '',\n    created_at TEXT NOT NULL,\n    updated_at TEXT NOT NULL\n);\n\nCREATE TABLE IF NOT EXISTS features (\n    id TEXT PRIMARY KEY,\n    project_id TEXT NOT NULL REFERENCES projects(id),\n    parent_id TEXT REFERENCES features(id),\n    title TEXT NOT NULL,\n    details TEXT,\n    desired_details TEXT,\n    details_summary TEXT,\n    state TEXT NOT NULL DEFAULT 'proposed',\n    priority INTEGER NOT NULL DEFAULT 0,\n    feature_number INTEGER,\n    target_version_id TEXT,\n    claimed_by TEXT,\n    claimed_at TEXT,\n    claim_metadata TEXT,\n    verification_result TEXT,\n    verified_at TEXT,\n    created_at TEXT NOT NULL,\n    updated_at TEXT NOT NULL\n);\n\nCREATE TABLE IF NOT EXISTS versions (\n    id TEXT PRIMARY KEY,\n    project_id TEXT NOT NULL REFERENCES projects(id),\n    name TEXT NOT NULL,\n    description TEXT,\n    released_at TEXT,\n    created_at TEXT NOT NULL,\n    updated_at TEXT NOT NULL\n);\n\nCREATE TABLE IF NOT EXISTS feature_history (\n    id TEXT PRIMARY KEY,\n    feature_id TEXT NOT NULL REFERENCES features(id),\n    version_id TEXT,\n    details TEXT NOT NULL DEFAULT '{}',\n    created_at TEXT NOT NULL\n);\n\nCREATE TABLE IF NOT EXISTS feature_blockers (\n    feature_id TEXT NOT NULL REFERENCES features(id),\n    blocker_id TEXT NOT NULL REFERENCES features(id),\n    PRIMARY KEY (feature_id, blocker_id)\n);\n";

/// The configuration of a Turso replica connection.
#[derive(Debug, Clone)]
pub struct TursoConfig {
    /// The local replica file.
    pub replica_path: String,
    /// The remote URL (e.g. `libsql://mydb.turso.io`).
    pub url: String,
    pub auth_token: String,
    /// Seconds between background syncs.
    pub sync_interval_secs: u64,
    /// Whether to sync after writes so that reads see them.
    pub read_your_writes: bool,
}

/// `PathBuf::join`: a file name under a directory, or the name itself when it
/// is absolute or the directory is empty.
pub open spec fn path_join(dir: Seq<char>, name: Seq<char>) -> Seq<char> {
    if name.len() > 0 && name[0] == '/' {
        name
    } else if dir.len() == 0 {
        name
    } else if dir.last() == '/' {
        dir + name
    } else {
        dir + "/"@ + name
    }
}

impl TursoConfig {
    /// The configuration for a managed remote: its replica is `<name>.db` in
    /// the replicas directory, synced every 5 seconds and after writes.
    pub fn from_remote(replica_dir: &str, remote_name: &str, url: &str, auth_token: &str) -> (r: TursoConfig)
        ensures
            r.replica_path@ == path_join(replica_dir@, remote_name@ + ".db"@),
            r.url@ == url@,
            r.auth_token@ == auth_token@,
            r.sync_interval_secs == 5,
            r.read_your_writes,
    {
        let mut file: Vec<char> = Vec::new();
        append_str(&mut file, remote_name);
        append_str(&mut file, ".db");
        let dir = chars_of(replica_dir);
        let mut path: Vec<char> = Vec::new();
        if file.len() > 0 && file[0] == '/' {
            path = file;
        } else if dir.len() == 0 {
            path = file;
        } else {
            crate::text::append_chars(&mut path, &dir);
            if dir[dir.len() - 1] != '/' {
                path.push('/');
            }
            crate::text::append_chars(&mut path, &file);
            proof {
                reveal_strlit("/");
                if dir@.last() != '/' {
                    assert(path@ =~= dir@ + "/"@ + file@);
                } else {
                    assert(path@ =~= dir@ + file@);
                }
            }
        }
        TursoConfig {
            replica_path: string_of(&path),
            url: url.to_owned(),
            auth_token: auth_token.to_owned(),
            sync_interval_secs: 5,
            read_your_writes: true,
        }
    }

    /// Whether the connection is local only (no remote URL): syncing it is a
    /// no-op.
    pub fn is_local_only(&self) -> (r: bool)
        ensures
            r == (self.url@.len() == 0),
    {
        chars_of(self.url.as_str()).len() == 0
    }
}

/// What a replica reports about itself.
#[derive(Debug, Clone)]
pub struct TursoInfo {
    pub replica_path: String,
    /// The remote URL; none for a local-only database.
    pub url: Option<String>,
    pub table_count: i64,
    pub project_count: i64,
    pub feature_count: i64,
    /// Milliseconds since the last sync, if any.
    pub last_sync_ms: Option<u64>,
    pub sync_interval_secs: u64,
}

/// The remote URL as reported: none when empty.
pub fn reported_url(url: &str) -> (r: Option<String>)
    ensures
        match r {
            Some(u) => url@.len() > 0 && u@ == url@,
            None => url@.len() == 0,
        },
{
    let cs = chars_of(url);
    if cs.len() == 0 {
        None
    } else {
        Some(url.to_owned())
    }
}

/// The SQL statements of a schema: its `;`-separated pieces, trimmed, without
/// the empty ones.
pub open spec fn statements_of(schema: Seq<char>) -> Seq<Seq<char>> {
    split(schema, ';').map_values(|p: Seq<char>| trim(p)).filter(|t: Seq<char>| t.len() > 0)
}

/// The statements of a schema, in order, trimmed and without empty ones.
pub fn schema_statements(schema: &str) -> (r: Vec<String>)
    ensures
        r@.map_values(|s: String| s@) == statements_of(schema@),
{
    let cs = chars_of(schema);
    let parts = split_exec(&cs, ';');
    let ghost pieces = vec_views(parts@).map_values(|p: Seq<char>| trim(p));
    let ghost pred = |t: Seq<char>| t.len() > 0;
    let mut out: Vec<String> = Vec::new();
    let mut i: usize = 0;
    while i < parts.len()
        invariant
            i <= parts@.len(),
            vec_views(parts@) == split(schema@, ';'),
            pieces == vec_views(parts@).map_values(|p: Seq<char>| trim(p)),
            pred == (|t: Seq<char>| t.len() > 0),
            out@.map_values(|s: String| s@) == pieces.take(i as int).filter(pred),
        decreases parts@.len() - i,
    {
        let ghost before = pieces.take(i as int);
        assert(pieces.take(i as int + 1) =~= before.push(pieces[i as int]));
        proof {
            before.lemma_filter_push(pieces[i as int], pred);
        }
        assert(vec_views(parts@)[i as int] == parts@[i as int]@);
        let t = trim_exec(&parts[i]);
        if t.len() > 0 {
            let ghost o = out@;
            out.push(string_of(&t));
            assert(out@.map_values(|s: String| s@) =~= o.map_values(|s: String| s@).push(t@));
        }
        i = i + 1;
    }
    assert(pieces.take(parts@.len() as int) =~= pieces);
    out
}

} // verus!
