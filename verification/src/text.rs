//! Character-level text operations with specifications over `Seq<char>`.
//!
//! Strings are handled as sequences of Unicode scalar values: positions are
//! character positions, not byte offsets.

use vstd::prelude::*;

verus! {

// ------------------------------------------------------------------
// Specifications
// ------------------------------------------------------------------

/// The Unicode `White_Space` property, as used by `char::is_whitespace`.
pub open spec fn is_ws(c: char) -> bool {
    let x = c as u32;
    (9 <= x && x <= 13) || x == 32 || x == 0x85 || x == 0xa0 || x == 0x1680 || (0x2000 <= x
        && x <= 0x200a) || x == 0x2028 || x == 0x2029 || x == 0x202f || x == 0x205f || x == 0x3000
}

/// ASCII upper-case letters map to lower case; every other character is kept.
pub open spec fn lower_char(c: char) -> char {
    if 65 <= c as u32 && c as u32 <= 90 {
        ((c as u32) + 32) as char
    } else {
        c
    }
}

/// ASCII lower-case letters map to upper case; every other character is kept.
pub open spec fn upper_char(c: char) -> char {
    if 97 <= c as u32 && c as u32 <= 122 {
        ((c as u32) - 32) as char
    } else {
        c
    }
}

pub open spec fn lower_seq(s: Seq<char>) -> Seq<char> {
    s.map_values(|c: char| lower_char(c))
}

pub open spec fn is_ascii_alpha(c: char) -> bool {
    (65 <= c as u32 && c as u32 <= 90) || (97 <= c as u32 && c as u32 <= 122)
}

pub open spec fn is_ascii_digit(c: char) -> bool {
    48 <= c as u32 && c as u32 <= 57
}

pub open spec fn is_ascii_alnum(c: char) -> bool {
    is_ascii_alpha(c) || is_ascii_digit(c)
}

/// Index of the first non-whitespace character at or after `i`.
pub open spec fn skip_ws_fwd(s: Seq<char>, i: int) -> int
    decreases s.len() - i,
{
    if 0 <= i < s.len() && is_ws(s[i]) {
        skip_ws_fwd(s, i + 1)
    } else {
        i
    }
}

/// End of `s[lo..j]` once trailing whitespace is dropped.
pub open spec fn skip_ws_back(s: Seq<char>, lo: int, j: int) -> int
    decreases j - lo,
{
    if lo < j && j <= s.len() && is_ws(s[j - 1]) {
        skip_ws_back(s, lo, j - 1)
    } else {
        j
    }
}

/// `str::trim`: leading and trailing whitespace removed.
pub open spec fn trim(s: Seq<char>) -> Seq<char> {
    let a = skip_ws_fwd(s, 0);
    s.subrange(a, skip_ws_back(s, a, s.len() as int))
}

pub open spec fn matches_at(h: Seq<char>, n: Seq<char>, k: int) -> bool {
    0 <= k && k + n.len() <= h.len() && h.subrange(k, k + n.len()) == n
}

/// The first position at or after `from` where `n` occurs in `h`.
pub open spec fn find_from(h: Seq<char>, n: Seq<char>, from: int) -> Option<int>
    decreases h.len() - from,
{
    if from < 0 || from + n.len() > h.len() {
        None
    } else if matches_at(h, n, from) {
        Some(from)
    } else if from >= h.len() {
        None
    } else {
        find_from(h, n, from + 1)
    }
}

pub open spec fn find(h: Seq<char>, n: Seq<char>) -> Option<int> {
    find_from(h, n, 0)
}

pub open spec fn contains(h: Seq<char>, n: Seq<char>) -> bool {
    find(h, n) is Some
}

pub open spec fn starts_with(h: Seq<char>, p: Seq<char>) -> bool {
    p.len() <= h.len() && h.subrange(0, p.len() as int) == p
}

pub open spec fn ends_with(h: Seq<char>, p: Seq<char>) -> bool {
    p.len() <= h.len() && h.subrange(h.len() - p.len(), h.len() as int) == p
}

/// Drop one trailing `'\r'`, if present.
pub open spec fn strip_cr(s: Seq<char>) -> Seq<char> {
    if s.len() > 0 && s[s.len() - 1] == '\r' {
        s.drop_last()
    } else {
        s
    }
}

/// `str::lines` from position `p` on: the text split at `'\n'`, each piece
/// without a final `'\r'`; a final line terminator does not start an empty line.
pub open spec fn lines_from(s: Seq<char>, p: int) -> Seq<Seq<char>>
    decreases s.len() - p,
{
    if p < 0 || p >= s.len() {
        seq![]
    } else {
        match find_from(s, seq!['\n'], p) {
            Some(i) => if p <= i < s.len() {
                seq![strip_cr(s.subrange(p, i))] + lines_from(s, i + 1)
            } else {
                seq![s.subrange(p, s.len() as int)]
            },
            None => seq![s.subrange(p, s.len() as int)],
        }
    }
}

/// `str::lines`.
pub open spec fn lines(s: Seq<char>) -> Seq<Seq<char>> {
    lines_from(s, 0)
}

/// The pieces joined with `sep` between consecutive pieces.
pub open spec fn join(parts: Seq<Seq<char>>, sep: Seq<char>) -> Seq<char>
    decreases parts.len(),
{
    if parts.len() == 0 {
        seq![]
    } else if parts.len() == 1 {
        parts[0]
    } else {
        join(parts.drop_last(), sep) + sep + parts.last()
    }
}

/// `s` without the prefix `p`, if it starts with it.
pub open spec fn strip_prefix(s: Seq<char>, p: Seq<char>) -> Option<Seq<char>> {
    if starts_with(s, p) {
        Some(s.skip(p.len() as int))
    } else {
        None
    }
}

/// `s` without the suffix `p`, if it ends with it.
pub open spec fn strip_suffix(s: Seq<char>, p: Seq<char>) -> Option<Seq<char>> {
    if ends_with(s, p) {
        Some(s.take(s.len() - p.len()))
    } else {
        None
    }
}

// ------------------------------------------------------------------
// Conversions
// ------------------------------------------------------------------

/// The characters of a string slice.
pub fn chars_of(s: &str) -> (v: Vec<char>)
    ensures
        v@ == s@,
{
    let mut v: Vec<char> = Vec::new();
    for c in it: s.chars()
        invariant
            v@ == it.seq().take(it.index() as int),
    {
        v.push(c);
    }
    v
}

/// Appends one character (`String::push`).
#[verifier::external_body]
pub(crate) fn push_char(s: &mut String, c: char)
    ensures
        final(s)@ == old(s)@.push(c),
{
    s.push(c)
}

/// Appends all of `v` to `s`.
pub fn push_chars(s: &mut String, v: &[char])
    ensures
        final(s)@ == old(s)@ + v@,
{
    let mut i: usize = 0;
    while i < v.len()
        invariant
            i <= v@.len(),
            s@ == old(s)@ + v@.take(i as int),
        decreases v@.len() - i,
    {
        push_char(s, v[i]);
        assert(v@.take(i as int).push(v@[i as int]) =~= v@.take(i as int + 1));
        assert(old(s)@ + v@.take(i as int + 1) =~= (old(s)@ + v@.take(i as int)).push(v@[i as int]));
        i = i + 1;
    }
    assert(v@.take(v@.len() as int) =~= v@);
}

/// A string holding the given characters.
pub fn string_of(v: &[char]) -> (s: String)
    ensures
        s@ == v@,
{
    let mut s = String::new();
    let mut i: usize = 0;
    while i < v.len()
        invariant
            i <= v@.len(),
            s@ == v@.take(i as int),
        decreases v@.len() - i,
    {
        push_char(&mut s, v[i]);
        assert(v@.take(i as int).push(v@[i as int]) =~= v@.take(i as int + 1));
        i = i + 1;
    }
    assert(v@.take(v@.len() as int) =~= v@);
    s
}

/// Whether two texts are equal, character by character.
pub(crate) fn str_eq(a: &str, b: &str) -> (r: bool)
    ensures
        r == (a@ == b@),
{
    let x = chars_of(a);
    let y = chars_of(b);
    if x.len() != y.len() {
        return false;
    }
    let mut i: usize = 0;
    while i < x.len()
        invariant
            x@ == a@,
            y@ == b@,
            x@.len() == y@.len(),
            i <= x@.len(),
            forall|k: int| 0 <= k < i ==> x@[k] == y@[k],
        decreases x@.len() - i,
    {
        if x[i] != y[i] {
            return false;
        }
        i = i + 1;
    }
    assert(x@ =~= y@);
    true
}

/// A copy of an optional string.
pub fn clone_opt(s: &Option<String>) -> (r: Option<String>)
    ensures
        r == *s,
{
    match s {
        Some(x) => Some(x.clone()),
        None => None,
    }
}

/// Equality of two optional strings.
pub fn opt_eq(a: &Option<String>, b: &Option<String>) -> (r: bool)
    ensures
        r == (opt_view(*a) == opt_view(*b)),
{
    match (a, b) {
        (Some(x), Some(y)) => str_eq(x.as_str(), y.as_str()),
        (None, None) => true,
        _ => false,
    }
}

pub open spec fn opt_view(s: Option<String>) -> Option<Seq<char>> {
    match s {
        Some(x) => Some(x@),
        None => None,
    }
}

// ------------------------------------------------------------------
// Character classes
// ------------------------------------------------------------------

pub fn is_whitespace(c: char) -> (r: bool)
    ensures
        r == is_ws(c),
{
    let x = c as u32;
    (9 <= x && x <= 13) || x == 32 || x == 0x85 || x == 0xa0 || x == 0x1680 || (0x2000 <= x
        && x <= 0x200a) || x == 0x2028 || x == 0x2029 || x == 0x202f || x == 0x205f || x == 0x3000
}

pub fn to_lower(c: char) -> (r: char)
    ensures
        r == lower_char(c),
{
    let x = c as u32;
    if 65 <= x && x <= 90 {
        let b: u8 = (x + 32) as u8;
        let r = b as char;
        assert(r as u32 == x + 32);
        r
    } else {
        c
    }
}

pub fn to_upper(c: char) -> (r: char)
    ensures
        r == upper_char(c),
{
    let x = c as u32;
    if 97 <= x && x <= 122 {
        let b: u8 = (x - 32) as u8;
        let r = b as char;
        assert(r as u32 == x - 32);
        r
    } else {
        c
    }
}

pub fn lower_all(s: &[char]) -> (r: Vec<char>)
    ensures
        r@ == lower_seq(s@),
{
    let mut r: Vec<char> = Vec::new();
    let mut i: usize = 0;
    while i < s.len()
        invariant
            i <= s@.len(),
            r@ =~= lower_seq(s@.take(i as int)),
        decreases s@.len() - i,
    {
        r.push(to_lower(s[i]));
        i = i + 1;
        assert(lower_seq(s@.take(i as int)) =~= lower_seq(s@.take(i - 1)).push(lower_char(s@[i - 1])));
    }
    assert(s@.take(s@.len() as int) =~= s@);
    r
}

// ------------------------------------------------------------------
// Searching and trimming
// ------------------------------------------------------------------

/// Whether `n` occurs in `h` at position `k`.
pub fn matches_at_exec(h: &[char], n: &[char], k: usize) -> (r: bool)
    ensures
        r == matches_at(h@, n@, k as int),
{
    if k > h.len() || n.len() > h.len() - k {
        return false;
    }
    let mut j: usize = 0;
    while j < n.len()
        invariant
            k + n@.len() <= h@.len(),
            j <= n@.len(),
            forall|t: int| 0 <= t < j ==> h@[k + t] == n@[t],
        decreases n@.len() - j,
    {
        assert(k + j < h.len());
        if h[k + j] != n[j] {
            assert(h@.subrange(k as int, k + n@.len())[j as int] != n@[j as int]);
            return false;
        }
        j = j + 1;
    }
    assert(h@.subrange(k as int, k + n@.len()) =~= n@);
    true
}

/// The first position at or after `from` where `n` occurs in `h`.
pub fn find_from_exec(h: &[char], n: &[char], from: usize) -> (r: Option<usize>)
    ensures
        match r {
            Some(k) => find_from(h@, n@, from as int) == Some(k as int),
            None => find_from(h@, n@, from as int) is None,
        },
{
    if n.len() > h.len() || from > h.len() - n.len() {
        return None;
    }
    let last = h.len() - n.len();
    let mut k = from;
    while k <= last
        invariant
            from <= k,
            last + n@.len() == h@.len(),
            find_from(h@, n@, from as int) == find_from(h@, n@, k as int),
        decreases last - k,
    {
        if matches_at_exec(h, n, k) {
            return Some(k);
        }
        if k == last {
            assert(find_from(h@, n@, k as int + 1) is None);
            return None;
        }
        k = k + 1;
    }
    None
}

/// Whether `n` occurs in `h`.
pub fn contains_exec(h: &[char], n: &[char]) -> (r: bool)
    ensures
        r == contains(h@, n@),
{
    find_from_exec(h, n, 0).is_some()
}

pub fn starts_with_exec(h: &[char], p: &[char]) -> (r: bool)
    ensures
        r == starts_with(h@, p@),
{
    let r = matches_at_exec(h, p, 0);
    proof {
        if p@.len() <= h@.len() {
            assert(h@.subrange(0, p@.len() as int) == h@.subrange(0, 0 + p@.len() as int));
        }
    }
    r
}

pub fn ends_with_exec(h: &[char], p: &[char]) -> (r: bool)
    ensures
        r == ends_with(h@, p@),
{
    if p.len() > h.len() {
        return false;
    }
    let k = h.len() - p.len();
    let r = matches_at_exec(h, p, k);
    proof {
        assert(h@.subrange(k as int, k + p@.len()) == h@.subrange(h@.len() - p@.len(), h@.len() as int));
    }
    r
}

/// The range of `s` left once leading and trailing whitespace is dropped.
pub fn trim_range(s: &[char]) -> (r: (usize, usize))
    ensures
        r.0 as int == skip_ws_fwd(s@, 0),
        r.1 as int == skip_ws_back(s@, r.0 as int, s@.len() as int),
        r.0 <= r.1 <= s@.len(),
        s@.subrange(r.0 as int, r.1 as int) == trim(s@),
{
    let mut a: usize = 0;
    while a < s.len() && is_whitespace(s[a])
        invariant
            a <= s@.len(),
            skip_ws_fwd(s@, 0) == skip_ws_fwd(s@, a as int),
        decreases s@.len() - a,
    {
        a = a + 1;
    }
    let mut b: usize = s.len();
    while b > a && is_whitespace(s[b - 1])
        invariant
            a <= b <= s@.len(),
            skip_ws_back(s@, a as int, s@.len() as int) == skip_ws_back(s@, a as int, b as int),
        decreases b - a,
    {
        b = b - 1;
    }
    (a, b)
}

/// `str::trim` on a character vector.
pub fn trim_exec(s: &[char]) -> (r: Vec<char>)
    ensures
        r@ == trim(s@),
{
    let (a, b) = trim_range(s);
    slice_vec(s, a, b)
}

/// A copy of `s[a..b]`.
pub fn slice_vec(s: &[char], a: usize, b: usize) -> (r: Vec<char>)
    requires
        a <= b <= s@.len(),
    ensures
        r@ == s@.subrange(a as int, b as int),
{
    let mut r: Vec<char> = Vec::new();
    let mut i = a;
    while i < b
        invariant
            a <= i <= b,
            b <= s@.len(),
            r@ =~= s@.subrange(a as int, i as int),
        decreases b - i,
    {
        r.push(s[i]);
        i = i + 1;
    }
    r
}

/// `a` followed by `b`.
pub fn concat(a: &[char], b: &[char]) -> (r: Vec<char>)
    ensures
        r@ == a@ + b@,
{
    let mut r = slice_vec(a, 0, a.len());
    let mut i: usize = 0;
    while i < b.len()
        invariant
            i <= b@.len(),
            r@ =~= a@ + b@.take(i as int),
        decreases b@.len() - i,
    {
        r.push(b[i]);
        i = i + 1;
    }
    assert(b@.take(b@.len() as int) =~= b@);
    r
}

/// Appends all of `b` to `r`.
pub fn append_chars(r: &mut Vec<char>, b: &[char])
    ensures
        final(r)@ == old(r)@ + b@,
{
    let mut i: usize = 0;
    while i < b.len()
        invariant
            i <= b@.len(),
            r@ =~= old(r)@ + b@.take(i as int),
        decreases b@.len() - i,
    {
        r.push(b[i]);
        i = i + 1;
    }
    assert(b@.take(b@.len() as int) =~= b@);
}

/// Appends all characters of `b` to `r`.
pub fn append_str(r: &mut Vec<char>, b: &str)
    ensures
        final(r)@ == old(r)@ + b@,
{
    let v = chars_of(b);
    append_chars(r, &v);
}

/// The line that starts at `pos` and the position after its terminator.
pub fn next_line(s: &[char], pos: usize) -> (r: (Vec<char>, usize))
    requires
        pos < s@.len(),
    ensures
        pos < r.1 <= s@.len(),
        lines_from(s@, pos as int) == seq![r.0@] + lines_from(s@, r.1 as int),
{
    let nl = ['\n'];
    let ghost nls: Seq<char> = seq!['\n'];
    assert(nl@ =~= nls);
    match find_from_exec(s, &nl, pos) {
        Some(i) => {
            proof {
                lemma_find_from_bounds(s@, nls, pos as int);
            }
            let mut end = i;
            if end > pos && s[end - 1] == '\r' {
                end = end - 1;
            }
            let line = slice_vec(s, pos, end);
            assert(line@ =~= strip_cr(s@.subrange(pos as int, i as int)));
            assert(i < s.len());
            (line, i + 1)
        },
        None => {
            let line = slice_vec(s, pos, s.len());
            assert(lines_from(s@, s@.len() as int) =~= Seq::<Seq<char>>::empty());
            assert(seq![line@] + lines_from(s@, s@.len() as int) =~= seq![line@]);
            (line, s.len())
        },
    }
}

/// A found position lies in range and the needle occurs there.
pub proof fn lemma_find_from_bounds(h: Seq<char>, n: Seq<char>, from: int)
    ensures
        find_from(h, n, from) matches Some(i) ==> from <= i && i + n.len() <= h.len()
            && matches_at(h, n, i),
    decreases h.len() - from,
{
    if from < 0 || from + n.len() > h.len() {
    } else if matches_at(h, n, from) {
    } else if from >= h.len() {
    } else {
        lemma_find_from_bounds(h, n, from + 1);
    }
}

/// `find_from`'s result moved `d` positions on.
pub open spec fn shift(o: Option<int>, d: int) -> Option<int> {
    match o {
        Some(i) => Some(i + d),
        None => None,
    }
}

/// With no match in `[from, k)`, the search from `from` finds what the search
/// from `k` finds.
pub proof fn lemma_find_from_skip(h: Seq<char>, n: Seq<char>, from: int, k: int)
    requires
        0 <= from <= k,
        forall|j: int| from <= j < k ==> !matches_at(h, n, j),
    ensures
        find_from(h, n, from) == find_from(h, n, k),
    decreases k - from,
{
    if from < k {
        lemma_find_from_skip(h, n, from + 1, k);
        if from + n.len() > h.len() {
            lemma_no_match_beyond(h, n, from, k);
        }
    }
}

/// Past the point where the needle no longer fits, the search finds nothing.
proof fn lemma_no_match_beyond(h: Seq<char>, n: Seq<char>, from: int, k: int)
    requires
        0 <= from <= k,
        from + n.len() > h.len(),
    ensures
        find_from(h, n, k) is None,
{
}

/// When the search from `from` finds nothing, the needle occurs nowhere at
/// or after `from`.
pub proof fn lemma_find_none_no_match(h: Seq<char>, n: Seq<char>, from: int, j: int)
    requires
        0 <= from <= j,
        find_from(h, n, from) is None,
    ensures
        !matches_at(h, n, j),
    decreases j - from,
{
    if from < j && from + n.len() <= h.len() && !matches_at(h, n, from) && from < h.len() {
        lemma_find_none_no_match(h, n, from + 1, j);
    }
}

/// A needle that occurs at `k` is found at `k` or before.
pub proof fn lemma_match_found(h: Seq<char>, n: Seq<char>, from: int, k: int)
    requires
        0 <= from <= k,
        matches_at(h, n, k),
    ensures
        find_from(h, n, from) is Some,
    decreases k - from,
{
    if from < k && !matches_at(h, n, from) {
        lemma_match_found(h, n, from + 1, k);
    }
}

/// Searching `x + y` from the start of `y` is searching `y`.
pub proof fn lemma_find_from_concat_skip(x: Seq<char>, y: Seq<char>, n: Seq<char>, j: int)
    requires
        0 <= j,
    ensures
        find_from(x + y, n, x.len() + j) == shift(find_from(y, n, j), x.len() as int),
    decreases y.len() - j,
{
    let h = x + y;
    if j + n.len() <= y.len() {
        assert(h.subrange(x.len() + j, x.len() + j + n.len()) =~= y.subrange(j, j + n.len()));
    }
    if j + n.len() <= y.len() && !matches_at(y, n, j) && j < y.len() {
        lemma_find_from_concat_skip(x, y, n, j + 1);
    }
}

/// A needle without `c` that occurs in `a + [c] + b` occurs in `a` or in `b`.
pub proof fn lemma_match_split(a: Seq<char>, c: char, b: Seq<char>, n: Seq<char>, k: int)
    requires
        matches_at(a + seq![c] + b, n, k),
        forall|i: int| 0 <= i < n.len() ==> n[i] != c,
    ensures
        k + n.len() <= a.len() && matches_at(a, n, k) || k >= a.len() + 1 && matches_at(
            b,
            n,
            k - a.len() - 1,
        ),
{
    let h = a + seq![c] + b;
    if k <= a.len() && a.len() < k + n.len() {
        assert(h.subrange(k, k + n.len())[a.len() - k] == h[a.len() as int]);
    } else if k + n.len() <= a.len() {
        assert(h.subrange(k, k + n.len()) =~= a.subrange(k, k + n.len()));
    } else {
        assert(h.subrange(k, k + n.len()) =~= b.subrange(k - a.len() - 1, k - a.len() - 1 + n.len()));
    }
}

/// When `a` does not hold a needle that lacks `c`, the first occurrence in
/// `a + [c] + b` is the first one in `b`.
pub proof fn lemma_find_sep(a: Seq<char>, c: char, b: Seq<char>, n: Seq<char>)
    requires
        !contains(a, n),
        forall|i: int| 0 <= i < n.len() ==> n[i] != c,
    ensures
        find(a + seq![c] + b, n) == shift(find(b, n), a.len() + 1int),
{
    let h = a + seq![c] + b;
    assert forall|j: int| 0 <= j < a.len() + 1 implies !matches_at(h, n, j) by {
        if matches_at(h, n, j) {
            lemma_match_split(a, c, b, n, j);
            lemma_find_none_no_match(a, n, 0, j);
        }
    }
    lemma_find_from_skip(h, n, 0, a.len() + 1int);
    assert(h =~= (a + seq![c]) + b);
    lemma_find_from_concat_skip(a + seq![c], b, n, 0);
}

/// A needle found at the start is found there first.
pub proof fn lemma_find_at_start(h: Seq<char>, n: Seq<char>)
    requires
        matches_at(h, n, 0),
    ensures
        find(h, n) == Some(0int),
{
}

/// Lower-casing keeps concatenation.
pub proof fn lemma_lower_concat(a: Seq<char>, b: Seq<char>)
    ensures
        lower_seq(a + b) == lower_seq(a) + lower_seq(b),
{
    assert(lower_seq(a + b) =~= lower_seq(a) + lower_seq(b));
}

// ------------------------------------------------------------------
// Lines and joins
// ------------------------------------------------------------------

/// No `'\r'` stands right before a `'\n'`.
pub open spec fn no_crlf(s: Seq<char>) -> bool {
    forall|i: int| 0 <= i && i + 1 < s.len() && #[trigger] s[i] == '\r' ==> s[i + 1] != '\n'
}

/// Joining a first piece to more pieces.
pub proof fn lemma_join_cons(a: Seq<char>, r: Seq<Seq<char>>, sep: Seq<char>)
    requires
        r.len() > 0,
    ensures
        join(seq![a] + r, sep) == a + sep + join(r, sep),
    decreases r.len(),
{
    let p = seq![a] + r;
    assert(p.len() >= 2);
    assert(join(p, sep) == join(p.drop_last(), sep) + sep + p.last());
    assert(p.last() == r.last());
    if r.len() == 1 {
        assert(p.drop_last() =~= seq![a]);
        assert(join(seq![a], sep) == a);
        assert(join(r, sep) == r[0]);
    } else {
        assert(p.drop_last() =~= seq![a] + r.drop_last());
        lemma_join_cons(a, r.drop_last(), sep);
        assert(join(r, sep) == join(r.drop_last(), sep) + sep + r.last());
        assert(a + sep + join(r.drop_last(), sep) + sep + r.last() =~= a + sep + (join(
            r.drop_last(),
            sep,
        ) + sep + r.last()));
    }
}

/// The lines of a text that ends with `'\n'` and holds no `"\r\n"`, joined
/// with `'\n'`, give the text back without its final `'\n'`.
pub proof fn lemma_join_lines(s: Seq<char>, p: int)
    requires
        0 <= p < s.len(),
        s.last() == '\n',
        no_crlf(s),
    ensures
        join(lines_from(s, p), seq!['\n']) == s.subrange(p, s.len() - 1),
    decreases s.len() - p,
{
    let nl = seq!['\n'];
    assert(s.subrange(s.len() - 1, s.len() as int) =~= nl);
    lemma_match_found(s, nl, p, s.len() - 1);
    lemma_find_from_bounds(s, nl, p);
    let i = find_from(s, nl, p)->0;
    assert(s.subrange(i, i + 1)[0] == s[i]);
    let line = s.subrange(p, i);
    if i > p {
        assert(s[i - 1] != '\r');
        assert(strip_cr(line) == line);
    } else {
        assert(strip_cr(line) == line);
    }
    if i + 1 >= s.len() {
        assert(lines_from(s, i + 1) =~= Seq::<Seq<char>>::empty());
        assert(lines_from(s, p) =~= seq![line]);
    } else {
        lemma_join_lines(s, i + 1);
        let rest = lines_from(s, i + 1);
        assert(rest.len() > 0);
        lemma_join_cons(line, rest, nl);
        assert(line + nl + s.subrange(i + 1, s.len() - 1) =~= s.subrange(p, s.len() - 1));
    }
}

/// Each line of a text is a piece of it.
pub proof fn lemma_line_in_text(s: Seq<char>, p: int, k: int)
    requires
        0 <= k < lines_from(s, p).len(),
    ensures
        exists|a: int, b: int|
            0 <= p <= a <= b <= s.len() && #[trigger] lines_from(s, p)[k] == s.subrange(a, b),
    decreases s.len() - p,
{
    let nl = seq!['\n'];
    lemma_find_from_bounds(s, nl, p);
    match find_from(s, nl, p) {
        Some(i) => {
            if p <= i < s.len() {
                let line = s.subrange(p, i);
                if k == 0 {
                    if line.len() > 0 && line[line.len() - 1] == '\r' {
                        assert(strip_cr(line) =~= s.subrange(p, i - 1));
                    }
                    assert(lines_from(s, p)[0] == strip_cr(line));
                } else {
                    assert(lines_from(s, p)[k] == lines_from(s, i + 1)[k - 1]);
                    lemma_line_in_text(s, i + 1, k - 1);
                }
            }
        },
        None => {},
    }
}

/// The lines of `x + y` from the start of `y` on are the lines of `y`.
pub proof fn lemma_lines_concat_skip(x: Seq<char>, y: Seq<char>, j: int)
    requires
        0 <= j,
    ensures
        lines_from(x + y, x.len() + j) == lines_from(y, j),
    decreases y.len() - j,
{
    let s = x + y;
    let nl = seq!['\n'];
    if j < y.len() {
        lemma_find_from_concat_skip(x, y, nl, j);
        lemma_find_from_bounds(y, nl, j);
        match find_from(y, nl, j) {
            Some(i) => {
                assert(s.subrange(x.len() + j, x.len() + i) =~= y.subrange(j, i));
                lemma_lines_concat_skip(x, y, i + 1);
            },
            None => {
                assert(s.subrange(x.len() + j, s.len() as int) =~= y.subrange(j, y.len() as int));
            },
        }
    }
}

/// A needle found in `x` is found at the same place in `x + y`.
pub proof fn lemma_find_from_extend(x: Seq<char>, y: Seq<char>, n: Seq<char>, from: int)
    requires
        find_from(x, n, from) is Some,
    ensures
        find_from(x + y, n, from) == find_from(x, n, from),
    decreases x.len() - from,
{
    let h = x + y;
    assert(from >= 0 && from + n.len() <= x.len());
    assert(h.subrange(from, from + n.len()) =~= x.subrange(from, from + n.len()));
    if !matches_at(x, n, from) {
        lemma_find_from_extend(x, y, n, from + 1);
    }
}

/// The lines of `x + y`, from a point in `x`, when `x` ends with a line
/// terminator: the lines of `x` from that point, then those of `y`.
pub proof fn lemma_lines_prefix(x: Seq<char>, y: Seq<char>, p: int)
    requires
        0 <= p <= x.len(),
        x.len() > 0,
        x.last() == '\n',
    ensures
        lines_from(x + y, p) == lines_from(x, p) + lines_from(y, 0),
    decreases x.len() - p,
{
    let s = x + y;
    let nl = seq!['\n'];
    lemma_lines_concat_skip(x, y, 0);
    if p == x.len() {
        assert(lines_from(x, p) + lines_from(y, 0) =~= lines_from(y, 0));
        assert(s.len() + 0 == x.len() + y.len());
    } else {
        assert(x.subrange(x.len() - 1, x.len() as int) =~= nl);
        lemma_match_found(x, nl, p, x.len() - 1);
        lemma_find_from_bounds(x, nl, p);
        lemma_find_from_extend(x, y, nl, p);
        let i = find_from(x, nl, p)->0;
        assert(s.subrange(p, i) =~= x.subrange(p, i));
        lemma_lines_prefix(x, y, i + 1);
        assert(lines_from(s, p) =~= seq![strip_cr(x.subrange(p, i))] + lines_from(s, i + 1));
        assert(lines_from(x, p) =~= seq![strip_cr(x.subrange(p, i))] + lines_from(x, i + 1));
        assert(lines_from(s, p) =~= lines_from(x, p) + lines_from(y, 0));
    }
}

/// The trimmed text is a piece of the text.
pub proof fn lemma_trim_in_text(s: Seq<char>)
    ensures
        exists|a: int, b: int| 0 <= a <= b <= s.len() && #[trigger] trim(s) == s.subrange(a, b),
{
    let a = skip_ws_fwd(s, 0);
    lemma_skip_fwd_bounds(s, 0);
    lemma_skip_back_range(s, a, s.len() as int);
    let b = skip_ws_back(s, a, s.len() as int);
    assert(trim(s) == s.subrange(a, b));
}

// ------------------------------------------------------------------
// Trimming around whitespace
// ------------------------------------------------------------------

pub open spec fn all_ws(s: Seq<char>) -> bool {
    forall|i: int| 0 <= i < s.len() ==> is_ws(#[trigger] s[i])
}

proof fn lemma_skip_fwd_prefix(w: Seq<char>, x: Seq<char>, i: int)
    requires
        all_ws(w),
        0 <= i <= w.len(),
    ensures
        skip_ws_fwd(w + x, i) == skip_ws_fwd(w + x, w.len() as int),
    decreases w.len() - i,
{
    if i < w.len() {
        assert((w + x)[i] == w[i]);
        lemma_skip_fwd_prefix(w, x, i + 1);
    }
}

proof fn lemma_skip_fwd_middle(w: Seq<char>, x: Seq<char>, z: Seq<char>, k: int)
    requires
        0 <= k <= skip_ws_fwd(x, k) < x.len(),
    ensures
        skip_ws_fwd(w + x + z, w.len() + k) == w.len() + skip_ws_fwd(x, k),
    decreases x.len() - k,
{
    let s = w + x + z;
    assert(s[w.len() + k] == x[k]);
    if is_ws(x[k]) {
        lemma_skip_fwd_bounds(x, k + 1);
        lemma_skip_fwd_middle(w, x, z, k + 1);
    }
}

proof fn lemma_skip_fwd_bounds(s: Seq<char>, i: int)
    ensures
        i <= skip_ws_fwd(s, i),
        0 <= i <= s.len() ==> skip_ws_fwd(s, i) <= s.len(),
    decreases s.len() - i,
{
    if 0 <= i < s.len() && is_ws(s[i]) {
        lemma_skip_fwd_bounds(s, i + 1);
    }
}

proof fn lemma_skip_back_suffix(s: Seq<char>, lo: int, m: int, j: int)
    requires
        lo <= m <= j <= s.len(),
        forall|i: int| m <= i < s.len() ==> is_ws(#[trigger] s[i]),
    ensures
        skip_ws_back(s, lo, j) == skip_ws_back(s, lo, m),
    decreases j - m,
{
    if m < j {
        lemma_skip_back_suffix(s, lo, m, j - 1);
    }
}

proof fn lemma_skip_back_middle(w: Seq<char>, x: Seq<char>, z: Seq<char>, a: int, j: int)
    requires
        0 <= a <= j <= x.len(),
    ensures
        skip_ws_back(w + x + z, w.len() + a, w.len() + j) == w.len() + skip_ws_back(x, a, j),
    decreases j - a,
{
    let s = w + x + z;
    if a < j {
        assert(s[w.len() + j - 1] == x[j - 1]);
        lemma_skip_back_middle(w, x, z, a, j - 1);
    }
}

/// Whitespace around a text that is not blank does not change its trimmed
/// form.
pub proof fn lemma_trim_padded(w: Seq<char>, x: Seq<char>, z: Seq<char>)
    requires
        all_ws(w),
        all_ws(z),
        trim(x).len() > 0,
    ensures
        trim(w + x + z) == trim(x),
{
    let s = w + x + z;
    let a = skip_ws_fwd(x, 0);
    lemma_skip_fwd_bounds(x, 0);
    if a >= x.len() {
        assert(trim(x).len() == 0);
    }
    assert(s =~= w + (x + z));
    lemma_skip_fwd_prefix(w, x + z, 0);
    assert(w + (x + z) =~= w + x + z);
    lemma_skip_fwd_middle(w, x, z, 0);
    assert(skip_ws_fwd(s, 0) == w.len() + a);
    assert forall|i: int| w.len() + x.len() <= i < s.len() implies is_ws(#[trigger] s[i]) by {
        assert(s[i] == z[i - w.len() - x.len()]);
    }
    lemma_skip_back_suffix(s, w.len() + a, (w.len() + x.len()) as int, s.len() as int);
    lemma_skip_back_middle(w, x, z, a, x.len() as int);
    let e = skip_ws_back(x, a, x.len() as int);
    lemma_skip_back_range(x, a, x.len() as int);
    assert(s.subrange(w.len() + a, w.len() + e) =~= x.subrange(a, e));
}

proof fn lemma_skip_back_range(s: Seq<char>, lo: int, j: int)
    requires
        lo <= j,
    ensures
        lo <= skip_ws_back(s, lo, j) <= j,
    decreases j - lo,
{
    if lo < j && j <= s.len() && is_ws(s[j - 1]) {
        lemma_skip_back_range(s, lo, j - 1);
    }
}

// ------------------------------------------------------------------
// Splitting
// ------------------------------------------------------------------

/// The pieces finished so far and the piece being read, after reading `s`
/// and splitting at `c`.
pub open spec fn split_acc(s: Seq<char>, c: char) -> (Seq<Seq<char>>, Seq<char>)
    decreases s.len(),
{
    if s.len() == 0 {
        (seq![], seq![])
    } else {
        let (done, cur) = split_acc(s.drop_last(), c);
        if s.last() == c {
            (done.push(cur), seq![])
        } else {
            (done, cur.push(s.last()))
        }
    }
}

/// `str::split` on a character: the pieces between occurrences of `c`; at
/// least one piece, empty pieces included.
pub open spec fn split(s: Seq<char>, c: char) -> Seq<Seq<char>> {
    let (done, cur) = split_acc(s, c);
    done.push(cur)
}

pub open spec fn vec_views(v: Seq<Vec<char>>) -> Seq<Seq<char>> {
    v.map_values(|x: Vec<char>| x@)
}

/// `str::split` on a character.
pub fn split_exec(s: &[char], c: char) -> (r: Vec<Vec<char>>)
    ensures
        vec_views(r@) == split(s@, c),
        r@.len() >= 1,
{
    let mut done: Vec<Vec<char>> = Vec::new();
    let mut cur: Vec<char> = Vec::new();
    let mut i: usize = 0;
    while i < s.len()
        invariant
            i <= s@.len(),
            (vec_views(done@), cur@) == split_acc(s@.take(i as int), c),
        decreases s@.len() - i,
    {
        assert(s@.take(i as int + 1).drop_last() =~= s@.take(i as int));
        if s[i] == c {
            let piece = cur;
            done.push(piece);
            cur = Vec::new();
            assert(vec_views(done@) =~= split_acc(s@.take(i as int), c).0.push(piece@));
        } else {
            cur.push(s[i]);
        }
        i = i + 1;
    }
    assert(s@.take(s@.len() as int) =~= s@);
    let ghost d = done@;
    done.push(cur);
    assert(vec_views(done@) =~= vec_views(d).push(cur@));
    done
}

// ------------------------------------------------------------------
// Decimal numbers
// ------------------------------------------------------------------

pub open spec fn digit_char(d: nat) -> char {
    (48 + d) as char
}

/// The decimal text of a natural number, without sign or leading zeros.
pub open spec fn decimal(n: nat) -> Seq<char>
    decreases n,
{
    if n < 10 {
        seq![digit_char(n)]
    } else {
        decimal(n / 10).push(digit_char(n % 10))
    }
}

pub open spec fn all_digits(s: Seq<char>) -> bool {
    forall|i: int| 0 <= i < s.len() ==> is_ascii_digit(#[trigger] s[i])
}

/// The value of a text of decimal digits.
pub open spec fn digits_value(s: Seq<char>) -> nat
    decreases s.len(),
{
    if s.len() == 0 {
        0
    } else {
        digits_value(s.drop_last()) * 10 + ((s.last() as u32) - 48) as nat
    }
}

/// `str::parse::<u32>`: an optional `+`, then at least one ASCII digit, and a
/// value that fits in a `u32`.
pub open spec fn parse_u32_spec(s: Seq<char>) -> Option<u32> {
    let d = if s.len() > 0 && s[0] == '+' {
        s.drop_first()
    } else {
        s
    };
    if d.len() > 0 && all_digits(d) && digits_value(d) <= u32::MAX {
        Some(digits_value(d) as u32)
    } else {
        None
    }
}

/// `str::parse::<i32>`: an optional `+` or `-`, then at least one ASCII digit,
/// and a value that fits in an `i32`.
pub open spec fn parse_i32_spec(s: Seq<char>) -> Option<i32> {
    let neg = s.len() > 0 && s[0] == '-';
    let d = if s.len() > 0 && (s[0] == '+' || s[0] == '-') {
        s.drop_first()
    } else {
        s
    };
    if d.len() > 0 && all_digits(d) {
        if neg && digits_value(d) <= 0x8000_0000 {
            Some((0 - digits_value(d)) as i32)
        } else if !neg && digits_value(d) <= 0x7fff_ffff {
            Some(digits_value(d) as i32)
        } else {
            None
        }
    } else {
        None
    }
}

/// The decimal text of `n`.
pub fn decimal_exec(n: u64) -> (r: Vec<char>)
    ensures
        r@ == decimal(n as nat),
    decreases n,
{
    let d: u8 = (n % 10) as u8;
    let c = (d + 48) as char;
    assert(c == digit_char((n % 10) as nat));
    if n < 10 {
        let mut r: Vec<char> = Vec::new();
        r.push(c);
        assert(r@ =~= seq![c]);
        r
    } else {
        let mut r = decimal_exec(n / 10);
        r.push(c);
        r
    }
}

/// The value of the decimal digits of `d`, or `None` once it exceeds `bound`.
fn digits_upto(d: &[char], bound: u64) -> (r: Option<u64>)
    requires
        all_digits(d@),
        bound <= u32::MAX as u64 + 1,
    ensures
        match r {
            Some(v) => v == digits_value(d@) && v <= bound,
            None => digits_value(d@) > bound,
        },
{
    let mut v: u64 = 0;
    let mut i: usize = 0;
    while i < d.len()
        invariant
            i <= d@.len(),
            all_digits(d@),
            bound <= u32::MAX as u64 + 1,
            v == digits_value(d@.take(i as int)),
            v <= bound,
        decreases d@.len() - i,
    {
        assert(d@.take(i as int + 1).drop_last() =~= d@.take(i as int));
        assert(is_ascii_digit(d@[i as int]));
        let dv = (d[i] as u32 - 48) as u64;
        let nv = v * 10 + dv;
        if nv > bound {
            proof {
                lemma_digits_value_prefix_mono(d@, i as int + 1);
            }
            return None;
        }
        v = nv;
        i = i + 1;
    }
    assert(d@.take(d@.len() as int) =~= d@);
    Some(v)
}

/// Digit values only grow as more digits are read.
proof fn lemma_digits_value_prefix_mono(d: Seq<char>, k: int)
    requires
        0 <= k <= d.len(),
        all_digits(d),
    ensures
        digits_value(d.take(k)) <= digits_value(d),
    decreases d.len() - k,
{
    if k < d.len() {
        lemma_digits_value_prefix_mono(d, k + 1);
        assert(d.take(k + 1).drop_last() =~= d.take(k));
        assert(is_ascii_digit(d[k]));
    } else {
        assert(d.take(k) =~= d);
    }
}

fn all_digits_exec(d: &[char]) -> (r: bool)
    ensures
        r == all_digits(d@),
{
    let mut i: usize = 0;
    while i < d.len()
        invariant
            i <= d@.len(),
            forall|j: int| 0 <= j < i ==> is_ascii_digit(#[trigger] d@[j]),
        decreases d@.len() - i,
    {
        let x = d[i] as u32;
        if !(48 <= x && x <= 57) {
            return false;
        }
        i = i + 1;
    }
    true
}

/// `str::parse::<u32>` on a character sequence.
pub fn parse_u32(s: &[char]) -> (r: Option<u32>)
    ensures
        r == parse_u32_spec(s@),
{
    let start: usize = if s.len() > 0 && s[0] == '+' {
        1
    } else {
        0
    };
    let d = slice_vec(s, start, s.len());
    assert(start == 1 ==> d@ =~= s@.drop_first());
    assert(start == 0 ==> d@ =~= s@);
    if d.len() == 0 || !all_digits_exec(&d) {
        return None;
    }
    match digits_upto(&d, 0xffff_ffff) {
        Some(v) => Some(v as u32),
        None => None,
    }
}

/// `str::parse::<i32>` on a character sequence.
pub fn parse_i32(s: &[char]) -> (r: Option<i32>)
    ensures
        r == parse_i32_spec(s@),
{
    let neg = s.len() > 0 && s[0] == '-';
    let start: usize = if s.len() > 0 && (s[0] == '+' || s[0] == '-') {
        1
    } else {
        0
    };
    let d = slice_vec(s, start, s.len());
    assert(start == 1 ==> d@ =~= s@.drop_first());
    assert(start == 0 ==> d@ =~= s@);
    if d.len() == 0 || !all_digits_exec(&d) {
        return None;
    }
    if neg {
        match digits_upto(&d, 0x8000_0000) {
            Some(v) => {
                let w: i64 = 0 - (v as i64);
                Some(w as i32)
            },
            None => None,
        }
    } else {
        match digits_upto(&d, 0x7fff_ffff) {
            Some(v) => Some(v as i32),
            None => None,
        }
    }
}

/// Reading more characters with no separator among them extends the piece
/// being read.
pub proof fn lemma_split_acc_no_sep(p: Seq<char>, a: Seq<char>, c: char)
    requires
        forall|i: int| 0 <= i < a.len() ==> a[i] != c,
    ensures
        split_acc(p + a, c) == (split_acc(p, c).0, split_acc(p, c).1 + a),
    decreases a.len(),
{
    if a.len() == 0 {
        assert(p + a =~= p);
        assert(split_acc(p, c).1 + a =~= split_acc(p, c).1);
    } else {
        lemma_split_acc_no_sep(p, a.drop_last(), c);
        assert((p + a).drop_last() =~= p + a.drop_last());
        assert((p + a).last() == a.last());
        assert((split_acc(p, c).1 + a.drop_last()).push(a.last()) =~= split_acc(p, c).1 + a);
    }
}

/// Three pieces without `c`, joined by `c`, split back into those pieces.
pub proof fn lemma_split_three(x: Seq<char>, y: Seq<char>, z: Seq<char>, c: char)
    requires
        forall|i: int| 0 <= i < x.len() ==> x[i] != c,
        forall|i: int| 0 <= i < y.len() ==> y[i] != c,
        forall|i: int| 0 <= i < z.len() ==> z[i] != c,
    ensures
        split(x + seq![c] + y + seq![c] + z, c) == seq![x, y, z],
{
    let e = Seq::<char>::empty();
    lemma_split_acc_no_sep(e, x, c);
    assert(e + x =~= x);
    assert(split_acc(e, c) == (Seq::<Seq<char>>::empty(), e));
    assert(e + x =~= x);
    let s1 = x + seq![c];
    assert(s1.drop_last() =~= x);
    assert(split_acc(s1, c) == (seq![x], e));
    lemma_split_acc_no_sep(s1, y, c);
    let s2 = s1 + y + seq![c];
    assert(s2.drop_last() =~= s1 + y);
    assert(split_acc(s2, c) == (seq![x].push(y), e));
    lemma_split_acc_no_sep(s2, z, c);
    assert(x + seq![c] + y + seq![c] + z =~= s2 + z);
    assert(seq![x].push(y).push(z) =~= seq![x, y, z]);
}

/// The decimal text of a number is a non-empty run of digits that reads back
/// to the number.
pub proof fn lemma_decimal_digits(n: nat)
    ensures
        decimal(n).len() > 0,
        all_digits(decimal(n)),
        digits_value(decimal(n)) == n,
    decreases n,
{
    if n < 10 {
        assert(decimal(n).drop_last() =~= Seq::<char>::empty());
        assert(digit_char(n) as u32 == 48 + n);
        assert(decimal(n).last() == digit_char(n));
        assert(digits_value(decimal(n)) == digits_value(decimal(n).drop_last()) * 10 + ((decimal(n).last() as u32) - 48) as nat);
        assert(digits_value(decimal(n)) == n);
    } else {
        lemma_decimal_digits(n / 10);
        assert(decimal(n).drop_last() =~= decimal(n / 10));
        assert(digit_char(n % 10) as u32 == 48 + n % 10);
        assert(decimal(n).last() == digit_char(n % 10));
        assert((n / 10) * 10 + n % 10 == n) by (nonlinear_arith);
        assert(digits_value(decimal(n)) == digits_value(decimal(n).drop_last()) * 10 + ((decimal(n).last() as u32) - 48) as nat);
        assert(digits_value(decimal(n)) == n);
        assert forall|i: int| 0 <= i < decimal(n).len() implies is_ascii_digit(#[trigger] decimal(n)[i]) by {
            if i < decimal(n).len() - 1 {
                assert(decimal(n)[i] == decimal(n / 10)[i]);
            }
        }
    }
}

/// The decimal text of a `u32` parses back to it.
pub proof fn lemma_parse_decimal_u32(n: u32)
    ensures
        parse_u32_spec(decimal(n as nat)) == Some(n),
{
    lemma_decimal_digits(n as nat);
    assert(is_ascii_digit(decimal(n as nat)[0]));
}

/// What `str::to_lowercase` gives for a text (full Unicode lower-casing).
pub uninterp spec fn unicode_lowercase(s: Seq<char>) -> Seq<char>;

/// `str::to_lowercase`: the text in lower case, by the Unicode case mapping
/// of the standard library, which depends on the text alone.
#[verifier::external_body]
pub(crate) fn to_lowercase(s: &str) -> (r: String)
    ensures
        r@ == unicode_lowercase(s@),
{
    s.to_lowercase()
}

} // verus!
