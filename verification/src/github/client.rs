//! The data that the GitHub API returns for a repository, and the rules for
//! repository names and sub-issue links.

use vstd::prelude::*;
use crate::text::{append_str, chars_of, slice_vec, string_of, str_eq};

verus! {

/// A GitHub issue as the API returns it.
#[derive(Debug)]
pub struct GitHubIssue {
    /// GitHub's node id.
    pub id: String,
    /// The issue number (e.g. 42).
    pub number: i64,
    pub title: String,
    /// The issue body (Markdown).
    pub body: Option<String>,
    /// "OPEN" or "CLOSED".
    pub state: String,
    /// Label names.
    pub labels: Vec<String>,
    pub milestone_title: Option<String>,
    pub milestone_id: Option<String>,
    /// The number of the parent issue, for a sub-issue.
    pub parent_number: Option<i64>,
    pub sub_issue_numbers: Vec<i64>,
    pub created_at: String,
    pub updated_at: String,
}

/// A GitHub milestone as the API returns it.
#[derive(Debug)]
pub struct GitHubMilestone {
    pub id: String,
    pub number: i64,
    pub title: String,
    pub description: Option<String>,
    /// "OPEN" or "CLOSED".
    pub state: String,
    pub due_on: Option<String>,
    pub created_at: String,
    pub updated_at: String,
}

/// All issues and milestones of a repository.
#[derive(Debug)]
pub struct SyncData {
    pub issues: Vec<GitHubIssue>,
    pub milestones: Vec<GitHubMilestone>,
}

/// The position of the first `/`, if any.
pub open spec fn first_slash(s: Seq<char>, i: int) -> Option<int>
    decreases s.len() - i,
{
    if i < 0 || i >= s.len() {
        None
    } else if s[i] == '/' {
        Some(i)
    } else {
        first_slash(s, i + 1)
    }
}

/// A full repository name `owner/repo` split at its first `/`.
pub open spec fn repo_parts(full: Seq<char>) -> Option<(Seq<char>, Seq<char>)> {
    match first_slash(full, 0) {
        Some(k) => Some((full.take(k), full.skip(k + 1))),
        None => None,
    }
}

proof fn lemma_first_slash_range(s: Seq<char>, i: int)
    ensures
        first_slash(s, i) matches Some(k) ==> 0 <= i <= k < s.len() && s[k] == '/',
    decreases s.len() - i,
{
    if 0 <= i < s.len() && s[i] != '/' {
        lemma_first_slash_range(s, i + 1);
    }
}

/// The owner and repository of a full name `owner/repo`; `None` without a `/`.
pub fn split_repo(repo_full_name: &str) -> (r: Option<(String, String)>)
    ensures
        match r {
            Some((o, n)) => repo_parts(repo_full_name@) == Some((o@, n@)),
            None => repo_parts(repo_full_name@) is None,
        },
{
    let cs = chars_of(repo_full_name);
    let mut i: usize = 0;
    while i < cs.len() && cs[i] != '/'
        invariant
            i <= cs@.len(),
            cs@ == repo_full_name@,
            first_slash(cs@, 0) == first_slash(cs@, i as int),
        decreases cs@.len() - i,
    {
        i = i + 1;
    }
    if i == cs.len() {
        return None;
    }
    proof {
        lemma_first_slash_range(cs@, 0);
    }
    let owner = slice_vec(&cs, 0, i);
    let repo = slice_vec(&cs, i + 1, cs.len());
    assert(owner@ =~= cs@.take(i as int));
    assert(repo@ =~= cs@.skip(i + 1));
    Some((string_of(&owner), string_of(&repo)))
}

/// The full name `owner/repo`.
pub fn repo_full_name(owner: &str, repo: &str) -> (r: String)
    ensures
        r@ == owner@ + "/"@ + repo@,
{
    let mut v: Vec<char> = Vec::new();
    append_str(&mut v, owner);
    append_str(&mut v, "/");
    append_str(&mut v, repo);
    string_of(&v)
}

/// Whether an issue carries the `manifest:feature_set` label.
pub open spec fn is_set_issue(issue: GitHubIssue) -> bool {
    exists|j: int| 0 <= j < issue.labels@.len() && issue.labels@[j]@ == "manifest:feature_set"@
}

fn has_set_label(labels: &Vec<String>) -> (r: bool)
    ensures
        r == (exists|j: int| 0 <= j < labels@.len() && labels@[j]@ == "manifest:feature_set"@),
{
    let mut j: usize = 0;
    while j < labels.len()
        invariant
            j <= labels@.len(),
            forall|k: int| 0 <= k < j ==> labels@[k]@ != "manifest:feature_set"@,
        decreases labels@.len() - j,
    {
        if str_eq(labels[j].as_str(), "manifest:feature_set") {
            return true;
        }
        j = j + 1;
    }
    false
}

/// The numbers of the issues that are feature sets (and so may have
/// sub-issues), in order.
pub fn feature_set_numbers(issues: &[GitHubIssue]) -> (r: Vec<i64>)
    ensures
        r@ == issues@.filter(|i: GitHubIssue| is_set_issue(i)).map_values(|i: GitHubIssue| i.number),
{
    let mut out: Vec<i64> = Vec::new();
    let mut k: usize = 0;
    while k < issues.len()
        invariant
            k <= issues@.len(),
            out@ == issues@.take(k as int).filter(|i: GitHubIssue| is_set_issue(i)).map_values(
                |i: GitHubIssue| i.number,
            ),
        decreases issues@.len() - k,
    {
        let ghost before = issues@.take(k as int);
        assert(issues@.take(k as int + 1) =~= before.push(issues@[k as int]));
        proof {
            before.lemma_filter_push(issues@[k as int], |i: GitHubIssue| is_set_issue(i));
        }
        if has_set_label(&issues[k].labels) {
            out.push(issues[k].number);
            assert(out@ =~= before.filter(|i: GitHubIssue| is_set_issue(i)).push(issues@[k as int]).map_values(
                |i: GitHubIssue| i.number,
            ));
        } else {
            assert(out@ =~= before.filter(|i: GitHubIssue| is_set_issue(i)).map_values(
                |i: GitHubIssue| i.number,
            ));
        }
        k = k + 1;
    }
    assert(issues@.take(issues@.len() as int) =~= issues@);
    out
}

/// The position of the first issue with a number, if any.
pub open spec fn first_with_number(issues: Seq<GitHubIssue>, n: i64, i: int) -> Option<int>
    decreases issues.len() - i,
{
    if i < 0 || i >= issues.len() {
        None
    } else if issues[i].number == n {
        Some(i)
    } else {
        first_with_number(issues, n, i + 1)
    }
}

proof fn lemma_first_with_number_range(issues: Seq<GitHubIssue>, n: i64, i: int)
    ensures
        first_with_number(issues, n, i) matches Some(k) ==> 0 <= i <= k < issues.len()
            && issues[k].number == n,
    decreases issues.len() - i,
{
    if 0 <= i < issues.len() && issues[i].number != n {
        lemma_first_with_number_range(issues, n, i + 1);
    }
}

fn find_number(issues: &Vec<GitHubIssue>, n: i64) -> (r: Option<usize>)
    ensures
        match r {
            Some(k) => first_with_number(issues@, n, 0) == Some(k as int) && k < issues@.len(),
            None => first_with_number(issues@, n, 0) is None,
        },
{
    let mut k: usize = 0;
    while k < issues.len() && issues[k].number != n
        invariant
            k <= issues@.len(),
            first_with_number(issues@, n, 0) == first_with_number(issues@, n, k as int),
        decreases issues@.len() - k,
    {
        k = k + 1;
    }
    if k == issues.len() {
        None
    } else {
        Some(k)
    }
}

/// Records the sub-issues of a parent: the first issue with each sub-issue
/// number gets the parent's number, and the first issue with the parent's
/// number gets the list of sub-issue numbers.
pub fn apply_sub_issues(issues: &mut Vec<GitHubIssue>, parent_number: i64, sub_numbers: Vec<i64>)
    ensures
        final(issues)@.len() == old(issues)@.len(),
        forall|i: int|
            0 <= i < old(issues)@.len() ==> {
                let before = old(issues)@[i];
                let after = #[trigger] final(issues)@[i];
                &&& after.id == before.id
                &&& after.number == before.number
                &&& after.title == before.title
                &&& after.body == before.body
                &&& after.state == before.state
                &&& after.labels == before.labels
                &&& after.milestone_title == before.milestone_title
                &&& after.milestone_id == before.milestone_id
                &&& after.created_at == before.created_at
                &&& after.updated_at == before.updated_at
                &&& after.parent_number == (if exists|s: int|
                    0 <= s < sub_numbers@.len() && first_with_number(old(issues)@, sub_numbers@[s], 0)
                        == Some(i) {
                    Some(parent_number)
                } else {
                    before.parent_number
                })
                &&& after.sub_issue_numbers@ == (if first_with_number(old(issues)@, parent_number, 0)
                    == Some(i) {
                    sub_numbers@
                } else {
                    before.sub_issue_numbers@
                })
            },
{
    let ghost orig = issues@;
    let mut s: usize = 0;
    while s < sub_numbers.len()
        invariant
            s <= sub_numbers@.len(),
            issues@.len() == orig.len(),
            forall|i: int| 0 <= i < orig.len() ==> #[trigger] issues@[i].number == orig[i].number,
            forall|i: int|
                0 <= i < orig.len() ==> {
                    let before = orig[i];
                    let after = #[trigger] issues@[i];
                    &&& after.id == before.id
                    &&& after.title == before.title
                    &&& after.body == before.body
                    &&& after.state == before.state
                    &&& after.labels == before.labels
                    &&& after.milestone_title == before.milestone_title
                    &&& after.milestone_id == before.milestone_id
                    &&& after.created_at == before.created_at
                    &&& after.updated_at == before.updated_at
                    &&& after.sub_issue_numbers == before.sub_issue_numbers
                    &&& after.parent_number == (if exists|t: int|
                        0 <= t < s && first_with_number(orig, sub_numbers@[t], 0) == Some(i) {
                        Some(parent_number)
                    } else {
                        before.parent_number
                    })
                },
        decreases sub_numbers@.len() - s,
    {
        proof {
            assert forall|n: i64| first_with_number(issues@, n, 0) == first_with_number(orig, n, 0) by {
                lemma_same_numbers(issues@, orig, n, 0);
            }
        }
        match find_number(issues, sub_numbers[s]) {
            Some(k) => {
                let mut it = issues.remove(k);
                it.parent_number = Some(parent_number);
                issues.insert(k, it);
            },
            None => {},
        }
        s = s + 1;
    }
    proof {
        assert forall|n: i64| first_with_number(issues@, n, 0) == first_with_number(orig, n, 0) by {
            lemma_same_numbers(issues@, orig, n, 0);
        }
    }
    match find_number(issues, parent_number) {
        Some(k) => {
            let mut it = issues.remove(k);
            it.sub_issue_numbers = sub_numbers;
            issues.insert(k, it);
        },
        None => {},
    }
}

proof fn lemma_same_numbers(a: Seq<GitHubIssue>, b: Seq<GitHubIssue>, n: i64, i: int)
    requires
        a.len() == b.len(),
        forall|j: int| 0 <= j < b.len() ==> #[trigger] a[j].number == b[j].number,
    ensures
        first_with_number(a, n, i) == first_with_number(b, n, i),
    decreases a.len() - i,
{
    if 0 <= i < a.len() {
        lemma_same_numbers(a, b, n, i + 1);
    }
}

} // verus!
