//! The GitHub backend's snapshot of a repository: features from issues,
//! versions from milestones, and the read queries over them.
//!
//! One repository is one project. A feature's state comes from its
//! `manifest:*` labels, its parent from the sub-issue links, its version from
//! its milestone, and its id from the metadata in its body.

use vstd::prelude::*;
use crate::models::feature::{Feature, FeatureState};
use crate::models::ids::{FeatureId, ProjectId, VersionId};
use crate::models::project::{Project, TestingPolicy};
use crate::models::version::Version;
use crate::store::error::StoreError;
use crate::store::query::{FeatureQuery, ParentFilter};
use crate::text::{
    append_chars, append_str, chars_of, join, lines, next_line, starts_with, starts_with_exec,
    string_of, str_eq, trim, trim_exec, lines_from, contains, contains_exec, to_lowercase,
    unicode_lowercase,
};
use crate::time::{parse_utc, to_timestamp, utc_parse_result, Timestamp};
use super::client::{GitHubIssue, GitHubMilestone, SyncData};
use super::labels::{first_label_state, state_from_labels};
use super::parser::{first_manifest_id, meta_prefix, parse_issue_body, spec_details, spec_desired_details, spec_summary};

verus! {

/// The error of a write to the read-only GitHub store.
pub fn unsupported(op: &str) -> (r: StoreError)
    ensures
        r matches StoreError::Unsupported(m) && m@ == "GitHub backend is read-only: "@ + op@
            + " not supported"@,
{
    let mut m: Vec<char> = Vec::new();
    append_str(&mut m, "GitHub backend is read-only: ");
    append_str(&mut m, op);
    append_str(&mut m, " not supported");
    StoreError::Unsupported(string_of(&m))
}

/// The data of a repository, as features, versions and one project.
#[derive(Debug)]
pub struct Snapshot {
    pub project: Option<Project>,
    pub features: Vec<Feature>,
    pub versions: Vec<Version>,
    /// Issue numbers and the ids of their features, in issue order.
    pub number_to_id: Vec<(i64, FeatureId)>,
    /// Milestone titles and the ids of their versions, in milestone order.
    pub milestone_to_version: Vec<(String, VersionId)>,
    pub last_synced_at: Option<Timestamp>,
}

// ------------------------------------------------------------------
// Lookups
// ------------------------------------------------------------------

/// The feature id recorded last for an issue number.
pub open spec fn id_for_number(m: Seq<(i64, FeatureId)>, n: i64) -> Option<FeatureId>
    decreases m.len(),
{
    if m.len() == 0 {
        None
    } else if m.last().0 == n {
        Some(m.last().1)
    } else {
        id_for_number(m.drop_last(), n)
    }
}

/// The version id recorded last for a milestone title.
pub open spec fn version_for_title(m: Seq<(String, VersionId)>, t: Seq<char>) -> Option<VersionId>
    decreases m.len(),
{
    if m.len() == 0 {
        None
    } else if m.last().0@ == t {
        Some(m.last().1)
    } else {
        version_for_title(m.drop_last(), t)
    }
}

fn lookup_number(m: &Vec<(i64, FeatureId)>, n: i64) -> (r: Option<FeatureId>)
    ensures
        r == id_for_number(m@, n),
{
    let mut k = m.len();
    assert(m@.take(m@.len() as int) =~= m@);
    while k > 0
        invariant
            k <= m@.len(),
            id_for_number(m@, n) == id_for_number(m@.take(k as int), n),
        decreases k,
    {
        assert(m@.take(k as int).drop_last() =~= m@.take(k - 1));
        if m[k - 1].0 == n {
            return Some(m[k - 1].1);
        }
        k = k - 1;
    }
    None
}

fn lookup_title(m: &Vec<(String, VersionId)>, t: &str) -> (r: Option<VersionId>)
    ensures
        r == version_for_title(m@, t@),
{
    let mut k = m.len();
    assert(m@.take(m@.len() as int) =~= m@);
    while k > 0
        invariant
            k <= m@.len(),
            version_for_title(m@, t@) == version_for_title(m@.take(k as int), t@),
        decreases k,
    {
        assert(m@.take(k as int).drop_last() =~= m@.take(k - 1));
        if str_eq(m[k - 1].0.as_str(), t) {
            return Some(m[k - 1].1);
        }
        k = k - 1;
    }
    None
}

// ------------------------------------------------------------------
// Building
// ------------------------------------------------------------------

/// The text of an optional body, empty when absent.
pub open spec fn body_text(b: Option<String>) -> Seq<char> {
    match b {
        Some(s) => s@,
        None => seq![],
    }
}

/// The instant of a timestamp text, if it parses.
pub open spec fn utc_of(s: Seq<char>) -> Option<Timestamp> {
    to_timestamp(utc_parse_result(s))
}

/// A milestone description without its metadata lines: the lines whose
/// trimmed text does not start with `<!-- manifest:`, joined and trimmed.
pub open spec fn display_description(d: Seq<char>) -> Seq<char> {
    trim(join(lines(d).filter(|l: Seq<char>| !starts_with(trim(l), meta_prefix())), seq!['\n']))
}

/// The version a milestone becomes, given its id and the current time.
pub open spec fn milestone_version(m: GitHubMilestone, id: VersionId, project_id: ProjectId, now: Timestamp, v: Version) -> bool {
    &&& v.id == id
    &&& v.project_id == project_id
    &&& v.name == m.title
    &&& match m.description {
        Some(d) => v.description matches Some(x) && x@ == display_description(d@),
        None => v.description is None,
    }
    &&& v.released_at == (if m.state@ == "CLOSED"@ {
        match m.due_on {
            Some(d) => match utc_of(d@) {
                Some(t) => Some(t),
                None => Some(now),
            },
            None => Some(now),
        }
    } else {
        None
    })
    &&& Some(v.created_at) == utc_of(m.created_at@)
    &&& Some(v.updated_at) == utc_of(m.updated_at@)
}

/// The version id recorded in a milestone description, if any.
pub open spec fn milestone_recorded_id(m: GitHubMilestone) -> Option<VersionId> {
    match m.description {
        Some(d) => match first_manifest_id(lines(d@)) {
            Some(v) => Some(VersionId(v)),
            None => None,
        },
        None => None,
    }
}

/// Whether both timestamps of a milestone parse.
pub open spec fn milestone_times_parse(m: GitHubMilestone) -> bool {
    utc_of(m.created_at@) is Some && utc_of(m.updated_at@) is Some
}

/// Whether both timestamps of an issue parse.
pub open spec fn issue_times_parse(i: GitHubIssue) -> bool {
    utc_of(i.created_at@) is Some && utc_of(i.updated_at@) is Some
}

fn parse_time(s: &str) -> (r: Result<Timestamp, String>)
    ensures
        match r {
            Ok(t) => utc_of(s@) == Some(t),
            Err(_) => utc_of(s@) is None,
        },
{
    match parse_utc(s) {
        Ok(t) => Ok(t),
        Err(e) => {
            let mut v: Vec<char> = Vec::new();
            append_str(&mut v, "Failed to parse datetime '");
            append_str(&mut v, s);
            append_str(&mut v, "': ");
            append_str(&mut v, e.as_str());
            Err(string_of(&v))
        },
    }
}

/// The description of a milestone without its metadata lines.
fn strip_description_metadata(d: &str) -> (r: String)
    ensures
        r@ == display_description(d@),
{
    let cs = chars_of(d);
    let meta = chars_of("<!-- manifest:");
    let mut out: Vec<char> = Vec::new();
    let ghost mut done: Seq<Seq<char>> = seq![];
    let mut kept: usize = 0;
    let mut pos: usize = 0;
    let ghost p = |l: Seq<char>| !starts_with(trim(l), meta_prefix());
    assert(lines(cs@) =~= done + lines_from(cs@, 0));
    proof {
        reveal(Seq::filter);
    }
    while pos < cs.len()
        invariant
            pos <= cs@.len(),
            cs@ == d@,
            meta@ == meta_prefix(),
            p == (|l: Seq<char>| !starts_with(trim(l), meta_prefix())),
            lines(cs@) == done + lines_from(cs@, pos as int),
            kept == done.filter(p).len(),
            kept <= pos,
            out@ == join(done.filter(p), seq!['\n']),
        decreases cs@.len() - pos,
    {
        let (line, next) = next_line(&cs, pos);
        let ghost rest = lines_from(cs@, next as int);
        proof {
            assert(done + lines_from(cs@, pos as int) =~= done.push(line@) + rest);
            done.lemma_filter_push(line@, p);
        }
        let t = trim_exec(&line);
        if !starts_with_exec(&t, &meta) {
            if kept > 0 {
                out.push('\n');
            }
            append_chars(&mut out, &line);
            proof {
                let k = done.filter(p);
                assert(k.push(line@).drop_last() =~= k);
                if k.len() > 0 {
                    assert(join(k.push(line@), seq!['\n']) == join(k, seq!['\n']) + seq!['\n'] + line@);
                } else {
                    assert(join(k.push(line@), seq!['\n']) == line@);
                }
            }
            kept = kept + 1;
        }
        proof {
            done = done.push(line@);
        }
        pos = next;
    }
    assert(lines_from(cs@, cs@.len() as int) =~= Seq::<Seq<char>>::empty());
    assert(done + Seq::<Seq<char>>::empty() =~= done);
    let trimmed = trim_exec(&out);
    string_of(&trimmed)
}

/// The version a milestone becomes: the id recorded in its description (or
/// `fresh_id`), released at its due date (or now) when closed, with its
/// description stripped of metadata lines; or the error for a timestamp that
/// does not parse.
pub fn milestone_to_version(
    m: &GitHubMilestone,
    project_id: ProjectId,
    fresh_id: VersionId,
    now: Timestamp,
) -> (r: Result<Version, String>)
    ensures
        r is Ok <==> milestone_times_parse(*m),
        r matches Ok(v) ==> milestone_version(
            *m,
            match milestone_recorded_id(*m) {
                Some(i) => i,
                None => fresh_id,
            },
            project_id,
            now,
            v,
        ),
{
    let id = match &m.description {
        Some(d) => match parse_issue_body(d.as_str()).manifest_id {
            Some(fid) => VersionId(fid.0),
            None => fresh_id,
        },
        None => fresh_id,
    };
    let released_at = if str_eq(m.state.as_str(), "CLOSED") {
        match &m.due_on {
            Some(d) => match parse_utc(d.as_str()) {
                Ok(t) => Some(t),
                Err(_) => Some(now),
            },
            None => Some(now),
        }
    } else {
        None
    };
    let created_at = match parse_time(m.created_at.as_str()) {
        Ok(t) => t,
        Err(e) => return Err(e),
    };
    let updated_at = match parse_time(m.updated_at.as_str()) {
        Ok(t) => t,
        Err(e) => return Err(e),
    };
    let description = match &m.description {
        Some(d) => Some(strip_description_metadata(d.as_str())),
        None => None,
    };
    Ok(Version { id, project_id, name: m.title.clone(), description, released_at, created_at, updated_at })
}

/// The feature an issue becomes, given its id and the snapshot's maps.
pub open spec fn issue_feature(
    i: GitHubIssue,
    id: FeatureId,
    project_id: ProjectId,
    number_to_id: Seq<(i64, FeatureId)>,
    milestone_to_version: Seq<(String, VersionId)>,
    f: Feature,
) -> bool {
    let body = body_text(i.body);
    &&& f.id == id
    &&& f.project_id == project_id
    &&& f.parent_id == (match i.parent_number {
        Some(n) => id_for_number(number_to_id, n),
        None => None,
    })
    &&& f.title == i.title
    &&& crate::text::opt_view(f.details) == spec_details(body)
    &&& crate::text::opt_view(f.desired_details) == spec_desired_details(body)
    &&& crate::text::opt_view(f.details_summary) == (match spec_details(body) {
        Some(d) => spec_summary(d),
        None => None,
    })
    &&& f.state == (match first_label_state(i.labels@) {
        Some(s) => s,
        None => FeatureState::Proposed,
    })
    &&& f.priority == 0
    &&& f.feature_number == Some(i.number as i32)
    &&& f.target_version_id == (match i.milestone_title {
        Some(t) => version_for_title(milestone_to_version, t@),
        None => None,
    })
    &&& f.verification_result is None
    &&& f.verified_at is None
    &&& f.claimed_by is None
    &&& f.claimed_at is None
    &&& f.claim_metadata is None
    &&& Some(f.created_at) == utc_of(i.created_at@)
    &&& Some(f.updated_at) == utc_of(i.updated_at@)
}

/// The feature an issue becomes, or the error for a timestamp that does not
/// parse.
pub fn issue_to_feature(
    issue: &GitHubIssue,
    feature_id: FeatureId,
    project_id: ProjectId,
    number_to_id: &Vec<(i64, FeatureId)>,
    milestone_to_version: &Vec<(String, VersionId)>,
) -> (r: Result<Feature, String>)
    ensures
        r is Ok <==> issue_times_parse(*issue),
        r matches Ok(f) ==> issue_feature(*issue, feature_id, project_id, number_to_id@, milestone_to_version@, f),
{
    let body: &str = match &issue.body {
        Some(b) => b.as_str(),
        None => "",
    };
    proof {
        reveal_strlit("");
    }
    assert(body@ == body_text(issue.body));
    let meta = parse_issue_body(body);
    let state = match state_from_labels(issue.labels.as_slice()) {
        Some(s) => s,
        None => FeatureState::Proposed,
    };
    let parent_id = match issue.parent_number {
        Some(n) => lookup_number(number_to_id, n),
        None => None,
    };
    let target_version_id = match &issue.milestone_title {
        Some(t) => lookup_title(milestone_to_version, t.as_str()),
        None => None,
    };
    let created_at = match parse_time(issue.created_at.as_str()) {
        Ok(t) => t,
        Err(e) => return Err(e),
    };
    let updated_at = match parse_time(issue.updated_at.as_str()) {
        Ok(t) => t,
        Err(e) => return Err(e),
    };
    let number: i32 = issue.number as i32;
    assert(number == issue.number as i32);
    assert(crate::text::opt_view(meta.details) == spec_details(body_text(issue.body)));
    assert(crate::text::opt_view(meta.desired_details) == spec_desired_details(body_text(issue.body)));
    Ok(Feature {
        id: feature_id,
        project_id,
        parent_id,
        title: issue.title.clone(),
        details: meta.details,
        desired_details: meta.desired_details,
        details_summary: meta.details_summary,
        state,
        priority: 0,
        feature_number: Some(number),
        target_version_id,
        verification_result: None,
        verified_at: None,
        claimed_by: None,
        claimed_at: None,
        claim_metadata: None,
        created_at,
        updated_at,
    })
}

/// The feature id recorded in an issue's body, if any.
pub open spec fn issue_recorded_id(i: GitHubIssue) -> Option<FeatureId> {
    match first_manifest_id(lines(body_text(i.body))) {
        Some(v) => Some(FeatureId(v)),
        None => None,
    }
}

/// The project a repository stands for.
pub open spec fn repo_project(project_id: ProjectId, repo_full_name: Seq<char>, now: Timestamp, p: Project) -> bool {
    &&& p.id == project_id
    &&& p.slug@ == repo_full_name.map_values(|c: char| if c == '/' { '-' } else { c })
    &&& p.name@ == repo_full_name
    &&& p.description is None
    &&& p.instructions is None
    &&& p.current_version_id is None
    &&& p.root_feature_id is None
    &&& p.default_feature_destination@ == "backlog"@
    &&& p.test_adapter is None
    &&& p.context_budget is None
    &&& p.key_prefix@ == "GH"@
    &&& p.created_at == now
    &&& p.updated_at == now
}

fn slug_of_repo(name: &str) -> (r: String)
    ensures
        r@ == name@.map_values(|c: char| if c == '/' { '-' } else { c }),
{
    let cs = chars_of(name);
    let mut out: Vec<char> = Vec::new();
    let mut i: usize = 0;
    while i < cs.len()
        invariant
            i <= cs@.len(),
            cs@ == name@,
            out@ =~= cs@.take(i as int).map_values(|c: char| if c == '/' { '-' } else { c }),
        decreases cs@.len() - i,
    {
        let c = cs[i];
        out.push(if c == '/' { '-' } else { c });
        i = i + 1;
    }
    assert(cs@.take(cs@.len() as int) =~= cs@);
    string_of(&out)
}

/// Builds the snapshot of a repository: one version per milestone and one
/// feature per issue, in order. A feature keeps the id recorded in its issue
/// body; an issue without one gets the id at its position in `fresh_ids`
/// (likewise milestones with `fresh_version_ids`). Fails on the first
/// timestamp that does not parse, milestones first.
pub fn build_snapshot(
    data: &SyncData,
    project_id: ProjectId,
    repo_full_name: &str,
    fresh_ids: &Vec<FeatureId>,
    fresh_version_ids: &Vec<VersionId>,
    now: Timestamp,
) -> (r: Result<Snapshot, String>)
    requires
        fresh_ids@.len() == data.issues@.len(),
        fresh_version_ids@.len() == data.milestones@.len(),
    ensures
        r is Ok <==> (forall|k: int| 0 <= k < data.milestones@.len() ==> milestone_times_parse(#[trigger] data.milestones@[k]))
            && (forall|k: int| 0 <= k < data.issues@.len() ==> issue_times_parse(#[trigger] data.issues@[k])),
        r matches Ok(s) ==> {
            &&& s.versions@.len() == data.milestones@.len()
            &&& s.milestone_to_version@.len() == data.milestones@.len()
            &&& forall|k: int|
                0 <= k < data.milestones@.len() ==> milestone_version(
                    #[trigger] data.milestones@[k],
                    match milestone_recorded_id(data.milestones@[k]) {
                        Some(i) => i,
                        None => fresh_version_ids@[k],
                    },
                    project_id,
                    now,
                    s.versions@[k],
                ) && s.milestone_to_version@[k].0 == data.milestones@[k].title
                    && s.milestone_to_version@[k].1 == s.versions@[k].id
            &&& s.features@.len() == data.issues@.len()
            &&& s.number_to_id@.len() == data.issues@.len()
            &&& forall|k: int|
                0 <= k < data.issues@.len() ==> s.number_to_id@[k] == (
                    data.issues@[k].number,
                    match issue_recorded_id(#[trigger] data.issues@[k]) {
                        Some(i) => i,
                        None => fresh_ids@[k],
                    },
                ) && issue_feature(
                    data.issues@[k],
                    s.number_to_id@[k].1,
                    project_id,
                    s.number_to_id@,
                    s.milestone_to_version@,
                    s.features@[k],
                )
            &&& s.project matches Some(p) && repo_project(project_id, repo_full_name@, now, p)
            &&& s.last_synced_at == Some(now)
        },
{
    let mut versions: Vec<Version> = Vec::new();
    let mut milestone_map: Vec<(String, VersionId)> = Vec::new();
    let mut k: usize = 0;
    while k < data.milestones.len()
        invariant
            k <= data.milestones@.len(),
            fresh_version_ids@.len() == data.milestones@.len(),
            versions@.len() == k,
            milestone_map@.len() == k,
            forall|j: int| 0 <= j < k ==> milestone_times_parse(#[trigger] data.milestones@[j]),
            forall|j: int|
                0 <= j < k ==> milestone_version(
                    #[trigger] data.milestones@[j],
                    match milestone_recorded_id(data.milestones@[j]) {
                        Some(i) => i,
                        None => fresh_version_ids@[j],
                    },
                    project_id,
                    now,
                    versions@[j],
                ) && milestone_map@[j].0 == data.milestones@[j].title && milestone_map@[j].1
                    == versions@[j].id,
        decreases data.milestones@.len() - k,
    {
        let m = &data.milestones[k];
        let v = match milestone_to_version(m, project_id, fresh_version_ids[k], now) {
            Ok(v) => v,
            Err(e) => return Err(e),
        };
        milestone_map.push((m.title.clone(), v.id));
        versions.push(v);
        k = k + 1;
    }
    let mut number_to_id: Vec<(i64, FeatureId)> = Vec::new();
    let mut i: usize = 0;
    while i < data.issues.len()
        invariant
            i <= data.issues@.len(),
            fresh_ids@.len() == data.issues@.len(),
            number_to_id@.len() == i,
            forall|j: int|
                0 <= j < i ==> number_to_id@[j] == (
                    data.issues@[j].number,
                    match issue_recorded_id(#[trigger] data.issues@[j]) {
                        Some(x) => x,
                        None => fresh_ids@[j],
                    },
                ),
        decreases data.issues@.len() - i,
    {
        let issue = &data.issues[i];
        let body: &str = match &issue.body {
            Some(b) => b.as_str(),
            None => "",
        };
        proof {
            reveal_strlit("");
        }
        let id = match parse_issue_body(body).manifest_id {
            Some(fid) => fid,
            None => fresh_ids[i],
        };
        number_to_id.push((issue.number, id));
        i = i + 1;
    }
    let mut features: Vec<Feature> = Vec::new();
    let mut j: usize = 0;
    while j < data.issues.len()
        invariant
            j <= data.issues@.len(),
            number_to_id@.len() == data.issues@.len(),
            features@.len() == j,
            forall|t: int| 0 <= t < j ==> issue_times_parse(#[trigger] data.issues@[t]),
            forall|t: int|
                0 <= t < j ==> issue_feature(
                    #[trigger] data.issues@[t],
                    number_to_id@[t].1,
                    project_id,
                    number_to_id@,
                    milestone_map@,
                    features@[t],
                ),
        decreases data.issues@.len() - j,
    {
        let f = match issue_to_feature(&data.issues[j], number_to_id[j].1, project_id, &number_to_id, &milestone_map) {
            Ok(f) => f,
            Err(e) => return Err(e),
        };
        features.push(f);
        j = j + 1;
    }
    let project = Project {
        id: project_id,
        slug: slug_of_repo(repo_full_name),
        name: repo_full_name.to_owned(),
        description: None,
        instructions: None,
        current_version_id: None,
        root_feature_id: None,
        default_feature_destination: "backlog".to_owned(),
        testing_policy: TestingPolicy::Tdd,
        test_adapter: None,
        context_budget: None,
        key_prefix: "GH".to_owned(),
        created_at: now,
        updated_at: now,
    };
    Ok(Snapshot {
        project: Some(project),
        features,
        versions,
        number_to_id,
        milestone_to_version: milestone_map,
        last_synced_at: Some(now),
    })
}

// ------------------------------------------------------------------
// Queries
// ------------------------------------------------------------------

/// Whether a feature passes the filters of a query: project, parent, states,
/// version, and the search text (in the title or details, ignoring case).
pub open spec fn passes(f: Feature, q: FeatureQuery) -> bool {
    &&& (q.project_id matches Some(p) ==> f.project_id == p)
    &&& match q.parent_id {
        Some(ParentFilter::Root) => f.parent_id is None,
        Some(ParentFilter::Exact(pid)) => f.parent_id == Some(pid),
        _ => true,
    }
    &&& (q.state matches Some(states) ==> states@.contains(f.state))
    &&& (q.target_version_id matches Some(v) ==> f.target_version_id == Some(v))
    &&& (q.search matches Some(text) ==> (contains(unicode_lowercase(f.title@), unicode_lowercase(text@))
        || (f.details matches Some(d) && contains(unicode_lowercase(d@), unicode_lowercase(text@)))))
}

/// Where `f` goes among features sorted by priority: after every feature of
/// lower or equal priority at the end.
pub open spec fn insert_position(s: Seq<Feature>, f: Feature) -> int
    decreases s.len(),
{
    if s.len() == 0 {
        0
    } else if s.last().priority <= f.priority {
        s.len() as int
    } else {
        insert_position(s.drop_last(), f)
    }
}

/// The stable sort by priority: features of equal priority keep their order.
pub open spec fn sort_by_priority(s: Seq<Feature>) -> Seq<Feature>
    decreases s.len(),
{
    if s.len() == 0 {
        s
    } else {
        let sorted = sort_by_priority(s.drop_last());
        let p = insert_position(sorted, s.last());
        sorted.take(p).push(s.last()) + sorted.skip(p)
    }
}

/// A count or position given as an `i64`, read as a `usize` is: a negative
/// one wraps around to a very large one.
pub open spec fn as_count(x: i64) -> int {
    (x as u64) as int
}

/// The page of `s` that an offset and a limit select.
pub open spec fn page(s: Seq<Feature>, offset: Option<i64>, limit: Option<i64>) -> Seq<Feature> {
    let after = match offset {
        Some(o) => if as_count(o) < s.len() {
            s.skip(as_count(o))
        } else {
            seq![]
        },
        None => s,
    };
    match limit {
        Some(l) => if as_count(l) < after.len() {
            after.take(as_count(l))
        } else {
            after
        },
        None => after,
    }
}

/// The features a query lists: those that pass its filters, sorted by
/// priority, then paginated.
pub open spec fn listed(fs: Seq<Feature>, q: FeatureQuery) -> Seq<Feature> {
    page(sort_by_priority(fs.filter(|f: Feature| passes(f, q))), q.offset, q.limit)
}

fn passes_exec(f: &Feature, q: &FeatureQuery, lower_search: &Option<Vec<char>>) -> (r: bool)
    requires
        match q.search {
            Some(t) => lower_search matches Some(l) && l@ == unicode_lowercase(t@),
            None => lower_search is None,
        },
    ensures
        r == passes(*f, *q),
{
    if let Some(p) = q.project_id {
        if f.project_id != p {
            return false;
        }
    }
    match q.parent_id {
        Some(ParentFilter::Root) => {
            if f.parent_id.is_some() {
                return false;
            }
        },
        Some(ParentFilter::Exact(pid)) => {
            if f.parent_id != Some(pid) {
                return false;
            }
        },
        _ => {},
    }
    if let Some(states) = &q.state {
        let mut found = false;
        let mut i: usize = 0;
        while i < states.len()
            invariant
                i <= states@.len(),
                found == exists|j: int| 0 <= j < i && states@[j] == f.state,
            decreases states@.len() - i,
        {
            if states[i] == f.state {
                found = true;
            }
            i = i + 1;
        }
        if !found {
            return false;
        }
    }
    if let Some(v) = q.target_version_id {
        if f.target_version_id != Some(v) {
            return false;
        }
    }
    match lower_search {
        Some(l) => {
            let title = chars_of(to_lowercase(f.title.as_str()).as_str());
            if contains_exec(&title, l) {
                return true;
            }
            match &f.details {
                Some(d) => {
                    let dl = chars_of(to_lowercase(d.as_str()).as_str());
                    contains_exec(&dl, l)
                },
                None => false,
            }
        },
        None => true,
    }
}

proof fn lemma_insert_position_range(s: Seq<Feature>, f: Feature)
    ensures
        0 <= insert_position(s, f) <= s.len(),
    decreases s.len(),
{
    if s.len() > 0 && s.last().priority > f.priority {
        lemma_insert_position_range(s.drop_last(), f);
    }
}

proof fn lemma_sort_len(s: Seq<Feature>)
    ensures
        sort_by_priority(s).len() == s.len(),
    decreases s.len(),
{
    if s.len() > 0 {
        lemma_sort_len(s.drop_last());
        lemma_insert_position_range(sort_by_priority(s.drop_last()), s.last());
    }
}

/// Inserts `f` where it goes among features sorted by priority.
fn insert_by_priority(out: &mut Vec<Feature>, f: Feature)
    ensures
        final(out)@ == old(out)@.take(insert_position(old(out)@, f)).push(f) + old(out)@.skip(
            insert_position(old(out)@, f),
        ),
{
    let ghost s = out@;
    let mut k = out.len();
    assert(s.take(s.len() as int) =~= s);
    while k > 0 && out[k - 1].priority > f.priority
        invariant
            k <= out@.len(),
            out@ == s,
            insert_position(s, f) == insert_position(s.take(k as int), f),
        decreases k,
    {
        assert(s.take(k as int).drop_last() =~= s.take(k - 1));
        k = k - 1;
    }
    proof {
        if k > 0 {
            assert(s.take(k as int).last() == s[k - 1]);
        }
        assert(insert_position(s.take(k as int), f) == k);
    }
    out.insert(k, f);
    assert(out@ =~= s.take(k as int).push(f) + s.skip(k as int));
}

impl Snapshot {
    /// The features that a query lists: those that pass its filters, sorted
    /// by priority (ties in snapshot order), then the page that its offset and
    /// limit select.
    pub fn list_features(&self, query: &FeatureQuery) -> (r: Vec<Feature>)
        ensures
            r@ == listed(self.features@, *query),
    {
        let lower_search: Option<Vec<char>> = match &query.search {
            Some(t) => Some(chars_of(to_lowercase(t.as_str()).as_str())),
            None => None,
        };
        let ghost pred = |f: Feature| passes(f, *query);
        let mut sorted: Vec<Feature> = Vec::new();
        let mut i: usize = 0;
        while i < self.features.len()
            invariant
                i <= self.features@.len(),
                pred == (|f: Feature| passes(f, *query)),
                match query.search {
                    Some(t) => lower_search matches Some(l) && l@ == unicode_lowercase(t@),
                    None => lower_search is None,
                },
                sorted@ == sort_by_priority(self.features@.take(i as int).filter(pred)),
            decreases self.features@.len() - i,
        {
            let ghost before = self.features@.take(i as int);
            let f = &self.features[i];
            assert(self.features@.take(i as int + 1) =~= before.push(*f));
            proof {
                before.lemma_filter_push(*f, pred);
            }
            if passes_exec(f, query, &lower_search) {
                let ghost fl = before.filter(pred);
                assert(fl.push(*f).drop_last() =~= fl);
                insert_by_priority(&mut sorted, f.duplicate());
            }
            i = i + 1;
        }
        assert(self.features@.take(self.features@.len() as int) =~= self.features@);
        let ghost all = sorted@;
        let mut after: Vec<Feature> = Vec::new();
        match query.offset {
            Some(o) => {
                let u: u64 = o as u64;
                if u < (sorted.len() as u64) {
                    let start: usize = u as usize;
                    let mut k: usize = start;
                    while k < sorted.len()
                        invariant
                            start == as_count(o),
                            start <= k <= sorted@.len(),
                            sorted@ == all,
                            after@ =~= all.subrange(start as int, k as int),
                        decreases sorted@.len() - k,
                    {
                        after.push(sorted[k].duplicate());
                        k = k + 1;
                    }
                    assert(after@ =~= all.skip(start as int));
                }
            },
            None => {
                after = sorted;
            },
        }
        match query.limit {
            Some(l) => {
                let u: u64 = l as u64;
                if u < (after.len() as u64) {
                    let ghost before = after@;
                    after.truncate(u as usize);
                    assert(after@ =~= before.take(as_count(l)));
                }
            },
            None => {},
        }
        after
    }

    /// The project, if it is the one asked for.
    pub fn get_project(&self, project_id: ProjectId) -> (r: Result<Project, StoreError>)
        ensures
            match self.project {
                Some(p) => if p.id == project_id {
                    r == Ok::<Project, StoreError>(p)
                } else {
                    r matches Err(StoreError::ProjectNotFound(m)) && m@ == crate::uuid_support::uuid_text(project_id.0)
                },
                None => r matches Err(StoreError::ProjectNotFound(m)) && m@ == crate::uuid_support::uuid_text(project_id.0),
            },
    {
        match &self.project {
            Some(p) => {
                if p.id == project_id {
                    return Ok(p.duplicate());
                }
            },
            None => {},
        }
        Err(StoreError::ProjectNotFound(project_id.to_string()))
    }

    /// The projects: the repository's one, if built.
    pub fn list_projects(&self) -> (r: Vec<Project>)
        ensures
            match self.project {
                Some(p) => r@ == seq![p],
                None => r@.len() == 0,
            },
    {
        let mut out: Vec<Project> = Vec::new();
        match &self.project {
            Some(p) => {
                out.push(p.duplicate());
                assert(out@ =~= seq![*p]);
            },
            None => {},
        }
        out
    }

    /// The first feature with an id.
    pub fn get_feature(&self, feature_id: FeatureId) -> (r: Result<Feature, StoreError>)
        ensures
            match first_with_id(self.features@, feature_id, 0) {
                Some(k) => r == Ok::<Feature, StoreError>(self.features@[k]),
                None => r matches Err(StoreError::FeatureNotFound(m)) && m@ == crate::uuid_support::uuid_text(feature_id.0),
            },
    {
        match find_id(&self.features, feature_id) {
            Some(k) => Ok(self.features[k].duplicate()),
            None => Err(StoreError::FeatureNotFound(feature_id.to_string())),
        }
    }

    /// The children of a feature, in snapshot order.
    pub fn get_feature_children(&self, feature_id: FeatureId) -> (r: Vec<Feature>)
        ensures
            r@ == self.features@.filter(|f: Feature| f.parent_id == Some(feature_id)),
    {
        let ghost pred = |f: Feature| f.parent_id == Some(feature_id);
        let mut out: Vec<Feature> = Vec::new();
        let mut i: usize = 0;
        while i < self.features.len()
            invariant
                i <= self.features@.len(),
                pred == (|f: Feature| f.parent_id == Some(feature_id)),
                out@ == self.features@.take(i as int).filter(pred),
            decreases self.features@.len() - i,
        {
            let ghost before = self.features@.take(i as int);
            assert(self.features@.take(i as int + 1) =~= before.push(self.features@[i as int]));
            proof {
                before.lemma_filter_push(self.features@[i as int], pred);
            }
            if self.features[i].parent_id == Some(feature_id) {
                out.push(self.features[i].duplicate());
            }
            i = i + 1;
        }
        assert(self.features@.take(self.features@.len() as int) =~= self.features@);
        out
    }

    /// The first version with an id.
    pub fn get_version(&self, version_id: VersionId) -> (r: Result<Version, StoreError>)
        ensures
            match first_version_with_id(self.versions@, version_id, 0) {
                Some(k) => r == Ok::<Version, StoreError>(self.versions@[k]),
                None => r matches Err(StoreError::VersionNotFound(m)) && m@ == crate::uuid_support::uuid_text(version_id.0),
            },
    {
        let mut k: usize = 0;
        while k < self.versions.len() && self.versions[k].id != version_id
            invariant
                k <= self.versions@.len(),
                first_version_with_id(self.versions@, version_id, 0) == first_version_with_id(self.versions@, version_id, k as int),
            decreases self.versions@.len() - k,
        {
            k = k + 1;
        }
        if k == self.versions.len() {
            Err(StoreError::VersionNotFound(version_id.to_string()))
        } else {
            Ok(self.versions[k].duplicate())
        }
    }

    /// The versions of a project, in snapshot order.
    pub fn list_versions(&self, project_id: ProjectId) -> (r: Vec<Version>)
        ensures
            r@ == self.versions@.filter(|v: Version| v.project_id == project_id),
    {
        let ghost pred = |v: Version| v.project_id == project_id;
        let mut out: Vec<Version> = Vec::new();
        let mut i: usize = 0;
        while i < self.versions.len()
            invariant
                i <= self.versions@.len(),
                pred == (|v: Version| v.project_id == project_id),
                out@ == self.versions@.take(i as int).filter(pred),
            decreases self.versions@.len() - i,
        {
            let ghost before = self.versions@.take(i as int);
            assert(self.versions@.take(i as int + 1) =~= before.push(self.versions@[i as int]));
            proof {
                before.lemma_filter_push(self.versions@[i as int], pred);
            }
            if self.versions[i].project_id == project_id {
                out.push(self.versions[i].duplicate());
            }
            i = i + 1;
        }
        assert(self.versions@.take(self.versions@.len() as int) =~= self.versions@);
        out
    }

    /// The ancestors of a feature, root first: its parent, the parent's
    /// parent, and so on, as far as they are in the snapshot. The walk takes
    /// at most as many steps as there are features.
    pub fn get_feature_ancestors(&self, feature_id: FeatureId) -> (r: Vec<Feature>)
        ensures
            r@ == ancestor_walk(self.features@, feature_id, self.features@.len() as nat).reverse(),
    {
        let mut walk: Vec<Feature> = Vec::new();
        let mut current = feature_id;
        let mut fuel: usize = self.features.len();
        let ghost n = self.features@.len() as nat;
        while fuel > 0
            invariant
                fuel <= n,
                n == self.features@.len(),
                ancestor_walk(self.features@, feature_id, n) == walk@ + ancestor_walk(self.features@, current, fuel as nat),
            ensures
                ancestor_walk(self.features@, feature_id, n) == walk@,
            decreases fuel,
        {
            let k = match find_id(&self.features, current) {
                Some(k) => k,
                None => {
                    assert(walk@ + Seq::<Feature>::empty() =~= walk@);
                    break;
                },
            };
            let pid = match self.features[k].parent_id {
                Some(p) => p,
                None => {
                    assert(walk@ + Seq::<Feature>::empty() =~= walk@);
                    break;
                },
            };
            let pk = match find_id(&self.features, pid) {
                Some(pk) => pk,
                None => {
                    assert(walk@ + Seq::<Feature>::empty() =~= walk@);
                    break;
                },
            };
            let ghost prev = walk@;
            walk.push(self.features[pk].duplicate());
            assert(prev + ancestor_walk(self.features@, current, fuel as nat) =~= walk@ + ancestor_walk(self.features@, pid, (fuel - 1) as nat));
            current = pid;
            fuel = fuel - 1;
        }
        let ghost w = walk@;
        let mut out: Vec<Feature> = Vec::new();
        let mut i = walk.len();
        while i > 0
            invariant
                i <= walk@.len(),
                walk@ == w,
                out@ =~= w.skip(i as int).reverse(),
            decreases i,
        {
            out.push(walk[i - 1].duplicate());
            i = i - 1;
            assert(w.skip(i as int).reverse() =~= w.skip(i as int + 1).reverse().push(w[i as int]));
        }
        assert(w.skip(0) =~= w);
        out
    }
}

/// The position of the first feature with an id.
pub open spec fn first_with_id(fs: Seq<Feature>, id: FeatureId, i: int) -> Option<int>
    decreases fs.len() - i,
{
    if i < 0 || i >= fs.len() {
        None
    } else if fs[i].id == id {
        Some(i)
    } else {
        first_with_id(fs, id, i + 1)
    }
}

/// The position of the first version with an id.
pub open spec fn first_version_with_id(vs: Seq<Version>, id: VersionId, i: int) -> Option<int>
    decreases vs.len() - i,
{
    if i < 0 || i >= vs.len() {
        None
    } else if vs[i].id == id {
        Some(i)
    } else {
        first_version_with_id(vs, id, i + 1)
    }
}

/// The walk from a feature up its parents, nearest first, for at most `fuel`
/// steps, stopping where a feature or parent is not in the snapshot.
pub open spec fn ancestor_walk(fs: Seq<Feature>, id: FeatureId, fuel: nat) -> Seq<Feature>
    decreases fuel,
{
    if fuel == 0 {
        seq![]
    } else {
        match first_with_id(fs, id, 0) {
            None => seq![],
            Some(k) => match fs[k].parent_id {
                None => seq![],
                Some(pid) => match first_with_id(fs, pid, 0) {
                    None => seq![],
                    Some(pk) => seq![fs[pk]] + ancestor_walk(fs, pid, (fuel - 1) as nat),
                },
            },
        }
    }
}

proof fn lemma_first_with_id_range(fs: Seq<Feature>, id: FeatureId, i: int)
    ensures
        first_with_id(fs, id, i) matches Some(k) ==> 0 <= i <= k < fs.len() && fs[k].id == id,
    decreases fs.len() - i,
{
    if 0 <= i < fs.len() && fs[i].id != id {
        lemma_first_with_id_range(fs, id, i + 1);
    }
}

fn find_id(fs: &Vec<Feature>, id: FeatureId) -> (r: Option<usize>)
    ensures
        match r {
            Some(k) => first_with_id(fs@, id, 0) == Some(k as int) && k < fs@.len(),
            None => first_with_id(fs@, id, 0) is None,
        },
{
    let mut k: usize = 0;
    while k < fs.len() && fs[k].id != id
        invariant
            k <= fs@.len(),
            first_with_id(fs@, id, 0) == first_with_id(fs@, id, k as int),
        decreases fs@.len() - k,
    {
        k = k + 1;
    }
    if k == fs.len() {
        None
    } else {
        Some(k)
    }
}

/// The stable sort by priority gives features in order of priority.
pub proof fn lemma_sorted_by_priority(s: Seq<Feature>)
    ensures
        forall|i: int, j: int|
            0 <= i < j < sort_by_priority(s).len() ==> (#[trigger] sort_by_priority(s)[i]).priority
                <= (#[trigger] sort_by_priority(s)[j]).priority,
        sort_by_priority(s).len() == s.len(),
    decreases s.len(),
{
    lemma_sort_len(s);
    if s.len() > 0 {
        lemma_sorted_by_priority(s.drop_last());
        let sorted = sort_by_priority(s.drop_last());
        let f = s.last();
        let p = insert_position(sorted, f);
        lemma_insert_position_range(sorted, f);
        lemma_insert_position_bounds(sorted, f);
        let r = sorted.take(p).push(f) + sorted.skip(p);
        assert forall|i: int, j: int| 0 <= i < j < r.len() implies (#[trigger] r[i]).priority
            <= (#[trigger] r[j]).priority by {
            if i < p && j < p {
                assert(r[i] == sorted[i] && r[j] == sorted[j]);
            } else if i < p && j == p {
                assert(r[i] == sorted[i]);
            } else if i < p {
                assert(r[i] == sorted[i] && r[j] == sorted[j - 1]);
            } else if i == p {
                assert(r[j] == sorted[j - 1]);
            } else {
                assert(r[i] == sorted[i - 1] && r[j] == sorted[j - 1]);
            }
        }
    }
}

/// Sorting by priority keeps exactly the features it is given.
proof fn lemma_sort_same_members(s: Seq<Feature>, x: Feature)
    ensures
        s.contains(x) <==> sort_by_priority(s).contains(x),
    decreases s.len(),
{
    if s.len() > 0 {
        let rest = s.drop_last();
        lemma_sort_same_members(rest, x);
        let sorted = sort_by_priority(rest);
        let f = s.last();
        let p = insert_position(sorted, f);
        lemma_insert_position_range(sorted, f);
        let r = sorted.take(p).push(f) + sorted.skip(p);
        assert(r == sort_by_priority(s));
        assert(s =~= rest.push(f));
        if s.contains(x) {
            let i = choose|i: int| 0 <= i < s.len() && s[i] == x;
            if i == s.len() - 1 {
                assert(r[p] == x);
            } else {
                assert(rest[i] == x);
                assert(rest.contains(x));
                let j = choose|j: int| 0 <= j < sorted.len() && sorted[j] == x;
                if j < p {
                    assert(r[j] == x);
                } else {
                    assert(r[j + 1] == x);
                }
            }
        }
        if r.contains(x) {
            let j = choose|j: int| 0 <= j < r.len() && r[j] == x;
            if j == p {
                assert(s[s.len() - 1] == x);
            } else {
                let k = if j < p { j } else { j - 1 };
                assert(sorted[k] == x);
                assert(sorted.contains(x));
                let i = choose|i: int| 0 <= i < rest.len() && rest[i] == x;
                assert(s[i] == x);
            }
        }
    }
}

/// A query without an offset or a limit lists exactly the features that pass
/// its filters.
pub proof fn lemma_listed_are_passing(fs: Seq<Feature>, q: FeatureQuery, f: Feature)
    requires
        q.offset is None,
        q.limit is None,
    ensures
        listed(fs, q).contains(f) <==> (fs.contains(f) && passes(f, q)),
{
    let pred = |g: Feature| passes(g, q);
    let kept = fs.filter(pred);
    lemma_sort_same_members(kept, f);
    assert(listed(fs, q) == sort_by_priority(kept));
    if fs.contains(f) && passes(f, q) {
        let i = choose|i: int| 0 <= i < fs.len() && fs[i] == f;
        fs.lemma_filter_contains(pred, i);
    }
    if kept.contains(f) {
        fs.lemma_filter_contains_rev(pred, f);
        let j = choose|j: int| 0 <= j < kept.len() && kept[j] == f;
        #[allow(deprecated)]
        fs.filter_lemma(pred);
        assert(pred(kept[j]));
    }
}

/// A text search, alone, lets a feature through exactly when its title or
/// its details contain the text, without regard to case.
pub proof fn lemma_search_title_or_details(f: Feature, q: FeatureQuery)
    requires
        q.project_id is None,
        q.parent_id is None,
        q.state is None,
        q.target_version_id is None,
        q.search is Some,
    ensures
        passes(f, q) <==> (contains(unicode_lowercase(f.title@), unicode_lowercase(q.search->0@))
            || (f.details is Some && contains(
            unicode_lowercase(f.details->0@),
            unicode_lowercase(q.search->0@),
        ))),
{
}

proof fn lemma_insert_position_bounds(s: Seq<Feature>, f: Feature)
    requires
        forall|i: int, j: int| 0 <= i < j < s.len() ==> (#[trigger] s[i]).priority <= (#[trigger] s[j]).priority,
    ensures
        forall|i: int| 0 <= i < insert_position(s, f) ==> (#[trigger] s[i]).priority <= f.priority,
        forall|i: int| insert_position(s, f) <= i < s.len() ==> (#[trigger] s[i]).priority > f.priority,
    decreases s.len(),
{
    lemma_insert_position_range(s, f);
    if s.len() > 0 {
        lemma_insert_position_range(s.drop_last(), f);
        if s.last().priority <= f.priority {
            assert forall|i: int| 0 <= i < s.len() implies (#[trigger] s[i]).priority <= f.priority by {
                if i < s.len() - 1 {
                    assert(s[i].priority <= s[s.len() - 1].priority);
                }
            }
        } else {
            let d = s.drop_last();
            assert forall|i: int, j: int| 0 <= i < j < d.len() implies (#[trigger] d[i]).priority <= (#[trigger] d[j]).priority by {
                assert(d[i] == s[i] && d[j] == s[j]);
            }
            lemma_insert_position_bounds(d, f);
            assert forall|i: int| 0 <= i < insert_position(s, f) implies (#[trigger] s[i]).priority <= f.priority by {
                assert(s[i] == d[i]);
            }
            assert forall|i: int| insert_position(s, f) <= i < s.len() implies (#[trigger] s[i]).priority > f.priority by {
                if i < s.len() - 1 {
                    assert(s[i] == d[i]);
                }
            }
        }
    }
}

} // verus!
