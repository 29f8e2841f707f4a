//! Shared helpers of the database layer: pagination clauses, slugs, key
//! prefixes and version names.

use vstd::prelude::*;
use crate::models::version::Version;
use crate::text::{
    append_chars, append_str, chars_of, decimal, decimal_exec, is_ascii_alnum, is_ascii_alpha,
    lemma_decimal_digits, lemma_parse_decimal_u32, lemma_split_three, lower_char, parse_u32,
    parse_u32_spec, push_chars, split, split_exec, string_of, to_lower,
    to_upper, upper_char, vec_views,
};

verus! {

// ------------------------------------------------------------------
// Pagination
// ------------------------------------------------------------------

/// The clause that `append_pagination` appends, and the next parameter index.
pub open spec fn pagination_clause(has_limit: bool, has_offset: bool, p: u32) -> (Seq<char>, int) {
    if has_limit && has_offset {
        (" LIMIT ?"@ + decimal(p as nat) + " OFFSET ?"@ + decimal((p + 1) as nat), p + 2)
    } else if has_limit {
        (" LIMIT ?"@ + decimal(p as nat), p + 1)
    } else if has_offset {
        (" LIMIT -1 OFFSET ?"@ + decimal(p as nat), p + 1)
    } else {
        (seq![], p as int)
    }
}

/// Appends `LIMIT` / `OFFSET` clauses with `?N` placeholders, numbered from
/// `next_param`, and returns the next free parameter index.
pub fn append_pagination(sql: &mut String, limit: Option<u32>, offset: Option<u32>, next_param: u32) -> (r: u32)
    requires
        limit.is_some() && offset.is_some() ==> next_param <= u32::MAX - 2,
        limit.is_some() || offset.is_some() ==> next_param < u32::MAX,
    ensures
        final(sql)@ == old(sql)@ + pagination_clause(limit.is_some(), offset.is_some(), next_param).0,
        r as int == pagination_clause(limit.is_some(), offset.is_some(), next_param).1,
{
    let mut clause: Vec<char> = Vec::new();
    let p = next_param;
    let r = match (limit, offset) {
        (Some(_), Some(_)) => {
            append_str(&mut clause, " LIMIT ?");
            append_chars(&mut clause, &decimal_exec(p as u64));
            append_str(&mut clause, " OFFSET ?");
            append_chars(&mut clause, &decimal_exec((p + 1) as u64));
            p + 2
        },
        (Some(_), None) => {
            append_str(&mut clause, " LIMIT ?");
            append_chars(&mut clause, &decimal_exec(p as u64));
            p + 1
        },
        (None, Some(_)) => {
            append_str(&mut clause, " LIMIT -1 OFFSET ?");
            append_chars(&mut clause, &decimal_exec(p as u64));
            p + 1
        },
        (None, None) => p,
    };
    proof {
        if limit.is_none() && offset.is_none() {
            assert(clause@ =~= Seq::<char>::empty());
        }
    }
    push_chars(sql, &clause);
    r
}

// ------------------------------------------------------------------
// Slugs
// ------------------------------------------------------------------

/// The slug read so far, and whether it ends in a separator (or is empty).
pub open spec fn slug_acc(s: Seq<char>) -> (Seq<char>, bool)
    decreases s.len(),
{
    if s.len() == 0 {
        (seq![], true)
    } else {
        let (acc, last_hyphen) = slug_acc(s.drop_last());
        let c = s.last();
        if is_ascii_alnum(c) {
            (acc.push(lower_char(c)), false)
        } else if !last_hyphen {
            (acc.push('-'), true)
        } else {
            (acc, last_hyphen)
        }
    }
}

/// The URL slug of a name: ASCII letters and digits in lower case, each run of
/// other characters replaced by one `-`, with no `-` at either end.
pub open spec fn slug_of(name: Seq<char>) -> Seq<char> {
    let acc = slug_acc(name).0;
    if acc.len() > 0 && acc.last() == '-' {
        acc.drop_last()
    } else {
        acc
    }
}

/// Converts a name to a URL-friendly slug.
pub fn slugify(name: &str) -> (r: String)
    ensures
        r@ == slug_of(name@),
{
    let cs = chars_of(name);
    let mut out: Vec<char> = Vec::new();
    let mut last_was_hyphen = true;
    let mut i: usize = 0;
    while i < cs.len()
        invariant
            i <= cs@.len(),
            cs@ == name@,
            (out@, last_was_hyphen) == slug_acc(cs@.take(i as int)),
        decreases cs@.len() - i,
    {
        let c = cs[i];
        assert(cs@.take(i as int + 1).drop_last() =~= cs@.take(i as int));
        let x = c as u32;
        if (48 <= x && x <= 57) || (65 <= x && x <= 90) || (97 <= x && x <= 122) {
            out.push(to_lower(c));
            last_was_hyphen = false;
        } else if !last_was_hyphen {
            out.push('-');
            last_was_hyphen = true;
        }
        i = i + 1;
    }
    assert(cs@.take(cs@.len() as int) =~= cs@);
    if out.len() > 0 && out[out.len() - 1] == '-' {
        out.pop();
    }
    string_of(&out)
}

pub open spec fn is_slug_char(c: char) -> bool {
    (48 <= c as u32 && c as u32 <= 57) || (97 <= c as u32 && c as u32 <= 122) || c == '-'
}

/// What makes a slug: lower-case ASCII letters, digits and single `-`
/// separators, none at the start.
pub open spec fn slug_shape(s: Seq<char>) -> bool {
    &&& forall|i: int| 0 <= i < s.len() ==> is_slug_char(#[trigger] s[i])
    &&& s.len() > 0 ==> s[0] != '-'
    &&& forall|i: int| 0 <= i < s.len() - 1 ==> !(#[trigger] s[i] == '-' && s[i + 1] == '-')
}

proof fn lemma_slug_acc_shape(s: Seq<char>)
    ensures
        slug_shape(slug_acc(s).0),
        slug_acc(s).1 <==> (slug_acc(s).0.len() == 0 || slug_acc(s).0.last() == '-'),
    decreases s.len(),
{
    if s.len() > 0 {
        lemma_slug_acc_shape(s.drop_last());
        let (acc, lh) = slug_acc(s.drop_last());
        let c = s.last();
        let next = slug_acc(s).0;
        if is_ascii_alnum(c) {
            assert(is_slug_char(lower_char(c)));
            assert forall|i: int| 0 <= i < next.len() - 1 implies !(#[trigger] next[i] == '-'
                && next[i + 1] == '-') by {
                if i < acc.len() - 1 {
                    assert(next[i] == acc[i] && next[i + 1] == acc[i + 1]);
                }
            }
        } else if !lh {
            assert forall|i: int| 0 <= i < next.len() - 1 implies !(#[trigger] next[i] == '-'
                && next[i + 1] == '-') by {
                if i < acc.len() - 1 {
                    assert(next[i] == acc[i] && next[i + 1] == acc[i + 1]);
                } else {
                    assert(next[i] == acc.last());
                }
            }
        }
    }
}

/// A slug is made of lower-case ASCII letters, digits and single `-`
/// separators, with none at either end.
pub proof fn lemma_slug_shape(name: Seq<char>)
    ensures
        slug_shape(slug_of(name)),
        slug_of(name).len() > 0 ==> slug_of(name).last() != '-',
{
    lemma_slug_acc_shape(name);
    let acc = slug_acc(name).0;
    let r = slug_of(name);
    if acc.len() > 0 && acc.last() == '-' {
        assert forall|i: int| 0 <= i < r.len() - 1 implies !(#[trigger] r[i] == '-' && r[i + 1]
            == '-') by {
            assert(r[i] == acc[i] && r[i + 1] == acc[i + 1]);
        }
        if r.len() > 0 {
            assert(r.last() == acc[acc.len() - 2]);
            assert(!(acc[acc.len() - 2] == '-' && acc[acc.len() - 1] == '-'));
        }
    }
}

proof fn lemma_slug_acc_of_slug(s: Seq<char>)
    requires
        slug_shape(s),
    ensures
        slug_acc(s) == (s, s.len() == 0 || s.last() == '-'),
    decreases s.len(),
{
    if s.len() > 0 {
        let p = s.drop_last();
        assert(slug_shape(p)) by {
            assert forall|i: int| 0 <= i < p.len() - 1 implies !(#[trigger] p[i] == '-' && p[i + 1]
                == '-') by {
                assert(p[i] == s[i] && p[i + 1] == s[i + 1]);
            }
        }
        lemma_slug_acc_of_slug(p);
        let c = s.last();
        assert(is_slug_char(s[s.len() - 1]));
        if c == '-' {
            assert(s.len() >= 2);
            assert(!(s[s.len() - 2] == '-' && s[s.len() - 1] == '-'));
        }
        assert(p.push(c) =~= s);
    }
}

/// A slug is its own slug: slugifying twice gives what slugifying once gives.
pub proof fn lemma_slug_idempotent(name: Seq<char>)
    ensures
        slug_of(slug_of(name)) == slug_of(name),
{
    lemma_slug_shape(name);
    lemma_slug_acc_of_slug(slug_of(name));
}

// ------------------------------------------------------------------
// Key prefixes
// ------------------------------------------------------------------

/// The ASCII letters of `s`, in order.
pub open spec fn ascii_letters(s: Seq<char>) -> Seq<char>
    decreases s.len(),
{
    if s.len() == 0 {
        seq![]
    } else if is_ascii_alpha(s.last()) {
        ascii_letters(s.drop_last()).push(s.last())
    } else {
        ascii_letters(s.drop_last())
    }
}

/// The key prefix of a slug: the first five ASCII letters of its first
/// `-`-separated word, in upper case, or `PRJ` where there are none.
pub open spec fn key_prefix_of(slug: Seq<char>) -> Seq<char> {
    let letters = ascii_letters(split(slug, '-')[0]);
    let p = letters.take(if letters.len() < 5 { letters.len() as int } else { 5 }).map_values(
        |c: char| upper_char(c),
    );
    if p.len() == 0 {
        "PRJ"@
    } else {
        p
    }
}

/// Derives the key prefix of display ids (as in `MAN-42`) from a slug.
pub fn derive_key_prefix(slug: &str) -> (r: String)
    ensures
        r@ == key_prefix_of(slug@),
{
    let cs = chars_of(slug);
    let parts = split_exec(&cs, '-');
    let first = &parts[0];
    assert(first@ == split(slug@, '-')[0]);
    let mut letters: Vec<char> = Vec::new();
    let mut i: usize = 0;
    while i < first.len()
        invariant
            i <= first@.len(),
            letters@ == ascii_letters(first@.take(i as int)),
        decreases first@.len() - i,
    {
        assert(first@.take(i as int + 1).drop_last() =~= first@.take(i as int));
        let x = first[i] as u32;
        if (65 <= x && x <= 90) || (97 <= x && x <= 122) {
            letters.push(first[i]);
        }
        i = i + 1;
    }
    assert(first@.take(first@.len() as int) =~= first@);
    let n: usize = if letters.len() < 5 {
        letters.len()
    } else {
        5
    };
    let mut out: Vec<char> = Vec::new();
    let mut k: usize = 0;
    while k < n
        invariant
            k <= n,
            n <= letters@.len(),
            out@ =~= letters@.take(k as int).map_values(|c: char| upper_char(c)),
        decreases n - k,
    {
        out.push(to_upper(letters[k]));
        k = k + 1;
    }
    if out.len() == 0 {
        "PRJ".to_owned()
    } else {
        string_of(&out)
    }
}

// ------------------------------------------------------------------
// Version names
// ------------------------------------------------------------------

/// `name` without one leading `v`.
pub open spec fn without_v(name: Seq<char>) -> Seq<char> {
    if name.len() > 0 && name[0] == 'v' {
        name.drop_first()
    } else {
        name
    }
}

/// A semantic version: an optional `v`, then exactly three `.`-separated
/// parts, each a non-empty `u32`.
pub open spec fn semver_spec(name: Seq<char>) -> bool {
    let parts = split(without_v(name), '.');
    &&& parts.len() == 3
    &&& forall|i: int| 0 <= i < 3 ==> #[trigger] parts[i].len() > 0 && parse_u32_spec(parts[i]) is Some
}

fn strip_v(cs: &Vec<char>) -> (r: Vec<char>)
    ensures
        r@ == without_v(cs@),
{
    if cs.len() > 0 && cs[0] == 'v' {
        let r = crate::text::slice_vec(cs, 1, cs.len());
        assert(r@ =~= cs@.drop_first());
        r
    } else {
        crate::text::slice_vec(cs, 0, cs.len())
    }
}

/// Whether a version name is a semantic version (`MAJOR.MINOR.PATCH`, with an
/// optional `v` prefix).
pub fn is_valid_semver(name: &str) -> (r: bool)
    ensures
        r == semver_spec(name@),
{
    let cs = chars_of(name);
    let n = strip_v(&cs);
    let parts = split_exec(&n, '.');
    if parts.len() != 3 {
        return false;
    }
    let mut i: usize = 0;
    while i < 3
        invariant
            i <= 3,
            parts@.len() == 3,
            vec_views(parts@) == split(without_v(name@), '.'),
            forall|j: int| 0 <= j < i ==> #[trigger] parts@[j]@.len() > 0 && parse_u32_spec(
                parts@[j]@,
            ) is Some,
        decreases 3 - i,
    {
        assert(vec_views(parts@)[i as int] == parts@[i as int]@);
        if parts[i].len() == 0 || parse_u32(&parts[i]).is_none() {
            return false;
        }
        i = i + 1;
    }
    assert forall|j: int| 0 <= j < 3 implies #[trigger] split(without_v(name@), '.')[j].len() > 0
        && parse_u32_spec(split(without_v(name@), '.')[j]) is Some by {
        assert(vec_views(parts@)[j] == parts@[j]@);
    }
    true
}

/// The (major, minor) numbers of a version name: an optional `v`, then at
/// least two `.`-separated parts of which the first two are `u32`s.
pub open spec fn version_key(name: Seq<char>) -> Option<(u32, u32)> {
    let parts = split(without_v(name), '.');
    if parts.len() >= 2 {
        match (parse_u32_spec(parts[0]), parse_u32_spec(parts[1])) {
            (Some(a), Some(b)) => Some((a, b)),
            _ => None,
        }
    } else {
        None
    }
}

pub open spec fn key_lt(a: (u32, u32), b: (u32, u32)) -> bool {
    a.0 < b.0 || (a.0 == b.0 && a.1 < b.1)
}

/// The highest (major, minor) among the first `n` versions, if any has one.
pub open spec fn highest_key(vs: Seq<Version>, n: int) -> Option<(u32, u32)>
    decreases n,
{
    if n <= 0 {
        None
    } else {
        let prev = highest_key(vs, n - 1);
        match version_key(vs[n - 1].name@) {
            Some(k) => match prev {
                Some(b) => if key_lt(k, b) {
                    Some(b)
                } else {
                    Some(k)
                },
                None => Some(k),
            },
            None => prev,
        }
    }
}

/// The name after the highest version: its minor number plus one, patch 0,
/// or `0.1.0` where no version name has a major and minor number.
pub open spec fn next_version_name(vs: Seq<Version>) -> Seq<char> {
    match highest_key(vs, vs.len() as int) {
        None => "0.1.0"@,
        Some(k) => decimal(k.0 as nat) + "."@ + decimal((k.1 + 1) as nat) + ".0"@,
    }
}

pub fn version_key_of(name: &str) -> (r: Option<(u32, u32)>)
    ensures
        r == version_key(name@),
{
    let cs = chars_of(name);
    let n = strip_v(&cs);
    let parts = split_exec(&n, '.');
    if parts.len() < 2 {
        return None;
    }
    assert(vec_views(parts@)[0] == parts@[0]@);
    assert(vec_views(parts@)[1] == parts@[1]@);
    match parse_u32(&parts[0]) {
        Some(a) => match parse_u32(&parts[1]) {
            Some(b) => Some((a, b)),
            None => None,
        },
        None => None,
    }
}

/// The highest key is the largest (major, minor) pair among the versions'
/// names, compared by major number first, and is the key of one of them;
/// there is none exactly when no name has a major and minor number.
pub proof fn lemma_highest_key_is_max(vs: Seq<Version>, n: int)
    requires
        0 <= n <= vs.len(),
    ensures
        forall|i: int|
            0 <= i < n && #[trigger] version_key(vs[i].name@) is Some ==> ({
                let k = version_key(vs[i].name@)->0;
                highest_key(vs, n) matches Some(h) && (k.0 < h.0 || (k.0 == h.0 && k.1 <= h.1))
            }),
        highest_key(vs, n) matches Some(h) ==> exists|i: int|
            0 <= i < n && #[trigger] version_key(vs[i].name@) == Some(h),
        highest_key(vs, n) is None ==> forall|i: int| 0 <= i < n ==> #[trigger] version_key(vs[i].name@) is None,
    decreases n,
{
    if n > 0 {
        lemma_highest_key_is_max(vs, n - 1);
        if let Some(h) = highest_key(vs, n) {
            if highest_key(vs, n - 1) == Some(h) {
                let i = choose|i: int| 0 <= i < n - 1 && #[trigger] version_key(vs[i].name@) == Some(h);
                assert(version_key(vs[i].name@) == Some(h));
            } else {
                assert(version_key(vs[n - 1].name@) == Some(h));
            }
        }
    }
}

/// The next version name ranks above every existing version: its (major,
/// minor) pair is greater than that of each version name that has one.
pub proof fn lemma_next_version_above_all(vs: Seq<Version>)
    requires
        highest_key(vs, vs.len() as int) matches Some(k) ==> k.1 < u32::MAX,
    ensures
        version_key(next_version_name(vs)) is Some,
        forall|i: int|
            0 <= i < vs.len() && #[trigger] version_key(vs[i].name@) is Some ==> ({
                let k = version_key(vs[i].name@)->0;
                let nk = version_key(next_version_name(vs))->0;
                k.0 < nk.0 || (k.0 == nk.0 && k.1 < nk.1)
            }),
{
    lemma_highest_key_is_max(vs, vs.len() as int);
    lemma_next_version_key(vs);
}

/// The name of the version after the highest existing one, by incrementing
/// the minor number.
pub fn compute_next_version_name(versions: &[Version]) -> (r: String)
    requires
        highest_key(versions@, versions@.len() as int) matches Some(k) ==> k.1 < u32::MAX,
    ensures
        r@ == next_version_name(versions@),
{
    let mut best: Option<(u32, u32)> = None;
    let mut i: usize = 0;
    while i < versions.len()
        invariant
            i <= versions@.len(),
            best == highest_key(versions@, i as int),
        decreases versions@.len() - i,
    {
        match version_key_of(versions[i].name.as_str()) {
            Some(k) => {
                best = match best {
                    Some(b) => if k.0 < b.0 || (k.0 == b.0 && k.1 < b.1) {
                        Some(b)
                    } else {
                        Some(k)
                    },
                    None => Some(k),
                };
            },
            None => {},
        }
        i = i + 1;
    }
    match best {
        None => "0.1.0".to_owned(),
        Some(k) => {
            let mut out: Vec<char> = Vec::new();
            append_chars(&mut out, &decimal_exec(k.0 as u64));
            append_str(&mut out, ".");
            append_chars(&mut out, &decimal_exec((k.1 + 1) as u64));
            append_str(&mut out, ".0");
            string_of(&out)
        },
    }
}

/// The name after the highest version is itself a semantic version, and
/// ranks above every existing version name.
pub proof fn lemma_next_version_name_is_semver(vs: Seq<Version>)
    requires
        highest_key(vs, vs.len() as int) matches Some(k) ==> k.1 < u32::MAX,
    ensures
        semver_spec(next_version_name(vs)),
        version_key(next_version_name(vs)) matches Some(nk) && (highest_key(vs, vs.len() as int) matches Some(k) ==> key_lt(k, nk)),
{
    let name = next_version_name(vs);
    let (a, b): (u32, u32) = match highest_key(vs, vs.len() as int) {
        Some(k) => (k.0, (k.1 + 1) as u32),
        None => (0u32, 1u32),
    };
    let x = decimal(a as nat);
    let y = decimal(b as nat);
    let z = decimal(0);
    reveal_strlit(".");
    reveal_strlit(".0");
    reveal_strlit("0.1.0");
    assert(decimal(0) =~= seq!['0']);
    assert(decimal(1) =~= seq!['1']);
    lemma_decimal_digits(a as nat);
    lemma_decimal_digits(b as nat);
    lemma_decimal_digits(0);
    assert(name =~= x + seq!['.'] + y + seq!['.'] + z);
    assert(forall|i: int| 0 <= i < x.len() ==> x[i] != '.') by {
        assert forall|i: int| 0 <= i < x.len() implies x[i] != '.' by {
            assert(crate::text::is_ascii_digit(x[i]));
        }
    }
    assert(forall|i: int| 0 <= i < y.len() ==> y[i] != '.') by {
        assert forall|i: int| 0 <= i < y.len() implies y[i] != '.' by {
            assert(crate::text::is_ascii_digit(y[i]));
        }
    }
    assert(crate::text::is_ascii_digit(x[0]));
    assert(name[0] == x[0]);
    assert(without_v(name) == name);
    lemma_split_three(x, y, z, '.');
    let parts = split(without_v(name), '.');
    assert(parts == seq![x, y, z]);
    lemma_parse_decimal_u32(a);
    lemma_parse_decimal_u32(b);
    lemma_parse_decimal_u32(0);
    assert(parts[0] == x && parts[1] == y && parts[2] == z);
}

/// The numbers of the next version name: the highest minor plus one.
pub proof fn lemma_next_version_key(vs: Seq<Version>)
    requires
        highest_key(vs, vs.len() as int) matches Some(k) ==> k.1 < u32::MAX,
    ensures
        version_key(next_version_name(vs)) == Some(
            match highest_key(vs, vs.len() as int) {
                Some(k) => (k.0, (k.1 + 1) as u32),
                None => (0u32, 1u32),
            },
        ),
{
    lemma_next_version_name_is_semver(vs);
    let (a, b): (u32, u32) = match highest_key(vs, vs.len() as int) {
        Some(k) => (k.0, (k.1 + 1) as u32),
        None => (0u32, 1u32),
    };
    let x = decimal(a as nat);
    let y = decimal(b as nat);
    reveal_strlit(".");
    reveal_strlit(".0");
    reveal_strlit("0.1.0");
    assert(decimal(0) =~= seq!['0']);
    assert(decimal(1) =~= seq!['1']);
    lemma_decimal_digits(a as nat);
    lemma_decimal_digits(b as nat);
    let name = next_version_name(vs);
    assert(name =~= x + seq!['.'] + y + seq!['.'] + decimal(0));
    assert(crate::text::is_ascii_digit(x[0]));
    assert(without_v(name) == name);
    assert forall|i: int| 0 <= i < x.len() implies x[i] != '.' by {
        assert(crate::text::is_ascii_digit(x[i]));
    }
    assert forall|i: int| 0 <= i < y.len() implies y[i] != '.' by {
        assert(crate::text::is_ascii_digit(y[i]));
    }
    lemma_decimal_digits(0);
    lemma_split_three(x, y, decimal(0), '.');
    lemma_parse_decimal_u32(a);
    lemma_parse_decimal_u32(b);
}

} // verus!
