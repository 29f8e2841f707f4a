//! The rules for searching project memories: full-text search for queries
//! long enough, `LIKE` matching otherwise.

use vstd::prelude::*;
use crate::text::{append_chars, chars_of, string_of, trim, trim_exec};

verus! {

/// The number of bytes of a character in UTF-8.
pub open spec fn utf8_width(c: char) -> nat {
    if (c as u32) < 0x80 {
        1
    } else if (c as u32) < 0x800 {
        2
    } else if (c as u32) < 0x10000 {
        3
    } else {
        4
    }
}

/// The number of bytes of a text in UTF-8.
pub open spec fn utf8_len(s: Seq<char>) -> nat
    decreases s.len(),
{
    if s.len() == 0 {
        0
    } else {
        utf8_len(s.drop_last()) + utf8_width(s.last())
    }
}

/// Whether a query is too short for full-text search: under 3 bytes once
/// trimmed.
pub fn is_short_query(q: &str) -> (r: bool)
    ensures
        r == (utf8_len(trim(q@)) < 3),
{
    let t = trim_exec(&chars_of(q));
    let mut n: usize = 0;
    let mut i: usize = 0;
    while i < t.len()
        invariant
            i <= t@.len(),
            t@ == trim(q@),
            n == utf8_len(t@.take(i as int)),
            n <= 4 * i,
        decreases t@.len() - i,
    {
        assert(t@.take(i as int + 1).drop_last() =~= t@.take(i as int));
        let x = t[i] as u32;
        let w: usize = if x < 0x80 {
            1
        } else if x < 0x800 {
            2
        } else if x < 0x10000 {
            3
        } else {
            4
        };
        if n >= 3 {
            proof {
                lemma_utf8_len_prefix(t@, i as int);
            }
            return false;
        }
        n = n + w;
        i = i + 1;
    }
    assert(t@.take(t@.len() as int) =~= t@);
    n < 3
}

proof fn lemma_utf8_len_prefix(s: Seq<char>, k: int)
    requires
        0 <= k <= s.len(),
    ensures
        utf8_len(s.take(k)) <= utf8_len(s),
    decreases s.len() - k,
{
    if k < s.len() {
        lemma_utf8_len_prefix(s, k + 1);
        assert(s.take(k + 1).drop_last() =~= s.take(k));
    } else {
        assert(s.take(k) =~= s);
    }
}

/// The text with every `"` replaced by a space.
pub open spec fn unquoted(s: Seq<char>) -> Seq<char> {
    s.map_values(|c: char| if c == '"' { ' ' } else { c })
}

/// A full-text query that matches the text as a phrase: its `"` removed,
/// trimmed, and wrapped in quotes.
pub fn sanitize_fts_query(q: &str) -> (r: String)
    ensures
        r@ == seq!['"'] + trim(unquoted(q@)) + seq!['"'],
{
    let cs = chars_of(q);
    let mut cleaned: Vec<char> = Vec::new();
    let mut i: usize = 0;
    while i < cs.len()
        invariant
            i <= cs@.len(),
            cs@ == q@,
            cleaned@ =~= unquoted(cs@.take(i as int)),
        decreases cs@.len() - i,
    {
        let c = cs[i];
        cleaned.push(if c == '"' { ' ' } else { c });
        i = i + 1;
    }
    assert(cs@.take(cs@.len() as int) =~= cs@);
    let t = trim_exec(&cleaned);
    let mut out: Vec<char> = Vec::new();
    out.push('"');
    append_chars(&mut out, &t);
    out.push('"');
    assert(out@ =~= seq!['"'] + t@ + seq!['"']);
    string_of(&out)
}

/// A sanitized query is a single phrase: quotes open and close it and none
/// stands inside it.
pub proof fn lemma_fts_query_is_one_phrase(q: Seq<char>)
    ensures
        ({
            let r = seq!['"'] + trim(unquoted(q)) + seq!['"'];
            &&& r.len() >= 2
            &&& r[0] == '"'
            &&& r[r.len() - 1] == '"'
            &&& forall|i: int| 0 < i < r.len() - 1 ==> r[i] != '"'
        }),
{
    let u = unquoted(q);
    let t = trim(u);
    let r = seq!['"'] + t + seq!['"'];
    crate::text::lemma_trim_in_text(u);
    let (a, b) = choose|a: int, b: int| 0 <= a <= b <= u.len() && trim(u) == u.subrange(a, b);
    assert forall|i: int| 0 < i < r.len() - 1 implies r[i] != '"' by {
        assert(r[i] == t[i - 1]);
        assert(t[i - 1] == u[a + i - 1]);
    }
}

/// The `LIKE` escaping of memory searches: `%` and `_` preceded by `\`.
pub open spec fn like_escape_wildcards(s: Seq<char>) -> Seq<char>
    decreases s.len(),
{
    if s.len() == 0 {
        seq![]
    } else {
        let c = s.last();
        like_escape_wildcards(s.drop_last()) + if c == '%' || c == '_' {
            seq!['\\', c]
        } else {
            seq![c]
        }
    }
}

/// The `LIKE` pattern of a memory search: the query, its `%` and `_`
/// escaped, between `%` wildcards.
pub fn like_memory_pattern(q: &str) -> (r: String)
    ensures
        r@ == seq!['%'] + like_escape_wildcards(q@) + seq!['%'],
{
    let cs = chars_of(q);
    let mut out: Vec<char> = Vec::new();
    out.push('%');
    let mut i: usize = 0;
    while i < cs.len()
        invariant
            i <= cs@.len(),
            cs@ == q@,
            out@ == seq!['%'] + like_escape_wildcards(cs@.take(i as int)),
        decreases cs@.len() - i,
    {
        let c = cs[i];
        assert(cs@.take(i as int + 1).drop_last() =~= cs@.take(i as int));
        if c == '%' || c == '_' {
            out.push('\\');
        }
        out.push(c);
        assert(out@ =~= seq!['%'] + like_escape_wildcards(cs@.take(i as int + 1)));
        i = i + 1;
    }
    assert(cs@.take(cs@.len() as int) =~= cs@);
    out.push('%');
    string_of(&out)
}

/// How a memory search is run.
#[derive(Debug)]
pub enum MemorySearch {
    /// No query: all memories of the project, newest first.
    All,
    /// Full-text search with this phrase query (falling back to `LIKE` with
    /// the pattern when the full-text index is missing).
    FullText { phrase: String, fallback_pattern: String },
    /// `LIKE` matching with this pattern.
    Like(String),
}

/// How a memory search runs: all memories without a query; full-text search
/// on SQLite for queries that are not short; `LIKE` otherwise.
pub fn memory_search_mode(query: Option<&str>, is_sqlite: bool) -> (r: MemorySearch)
    ensures
        match query {
            None => r is All,
            Some(q) => if is_sqlite && utf8_len(trim(q@)) >= 3 {
                r matches MemorySearch::FullText { phrase, fallback_pattern } && phrase@ == seq!['"']
                    + trim(unquoted(q@)) + seq!['"'] && fallback_pattern@ == seq!['%']
                    + like_escape_wildcards(q@) + seq!['%']
            } else {
                r matches MemorySearch::Like(p) && p@ == seq!['%'] + like_escape_wildcards(q@) + seq![
                    '%',
                ]
            },
        },
{
    match query {
        None => MemorySearch::All,
        Some(q) => {
            if is_sqlite && !is_short_query(q) {
                MemorySearch::FullText { phrase: sanitize_fts_query(q), fallback_pattern: like_memory_pattern(q) }
            } else {
                MemorySearch::Like(like_memory_pattern(q))
            }
        },
    }
}

} // verus!
