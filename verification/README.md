# manifest_core

The core of Manifest, a tracker of features, versions and their history for
projects worked on by people and coding agents, as a Verus-verified library.

## Layout

- `src/` — the verified library. Every rule that decides what is stored or
  returned is a function with a `requires`/`ensures` contract over
  mathematical models (`Seq`, `Set`, `Option`, spec functions):
  - `models/` — features, projects, versions, history, proofs, remotes,
    templates, users, and their identifiers;
  - `db/` — the rules of the database layer: creating and updating
    features (guard rails on states, blockers, versions), claims and
    completion under a testing policy, projects and their slugs and key
    prefixes, semantic versions, remotes, templates, proofs, history, memory
    search, and the reading of stored rows;
  - `github/` — issue labels, the issue body format (rendering and parsing,
    with round-trip laws), and the read-only snapshot of a repository;
  - `store/` — queries, changesets, capabilities, errors, and the decisions
    of the SQLite store and of a cache in front of a remote;
  - `sync.rs` — field-level merge of features between a local database and
    a remote, the registry of connected remotes, and the offline write queue;
  - `turso.rs`, `config.rs` — remote database configuration and server
    configuration;
  - `text.rs`, `time.rs`, `uuid_support.rs` — character-level text functions
    with their lemmas, and the calls into `chrono` and `uuid`, each behind a
    small trusted wrapper whose contract says what the crate documents.
- `tests/` — tests run against the compiled library.
- `app/` — the input and output around the library (libSQL database, Turso
  replicas, GitHub HTTP API, configuration file, serde forms of the types);
  it reads rows and responses, calls the library's rules and writes back
  what they decide.

## What is not here

- Parent states derived from children and the project's feature tree
  (`get_feature_tree`, `resolve_derived_states`,
  `resolve_derived_states_summary`, `resolve_derived_state_single`): they rest
  on `FeatureState::derive_from_children`, which Manifest does not define.
- Stored verification comments (`record_verification`): the
  `VerificationComment` type is not defined either.
- Queries that are plain reads and writes with no rule beyond what `src/`
  decides, not yet written in `app/`: users, OAuth identities and
  memberships (`get_user*`, `create_user`, `update_user`,
  `create_oauth_identity`, `get_oauth_identities_for_user`,
  `get_project_membership`, `get_user_project_ids`, `get_user_projects`);
  the portfolio views (`get_portfolio`, `portfolio_*`); project focus
  (`set_project_focus`, `get_project_focus`); `get_project_by_slug`,
  `remove_project_directory`, `get_project_with_directories`;
  `get_feature_history`, `get_project_history`; `get_proof`,
  `get_proofs_for_feature`; `get_project_remote`, `get_project_remotes`,
  `get_remote_projects`; `get_default_template`; `get_latest_version`,
  `delete_version`; the memory store's reads and writes (`create_memory`,
  `search_memories`, `delete_memory`), whose search patterns are in
  `src/db/memories.rs`.
- Schema migrations: the initial migration file is not available; the schema
  that `app/` creates is the one `src/turso.rs` lists.

Several of these query, in Manifest's database layer, through an `sqlx` pool
that its database type does not hold beside its libSQL connection; they
cannot be built as written, and `app/` uses libSQL throughout.
