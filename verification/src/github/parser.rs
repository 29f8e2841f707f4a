//! Parses GitHub issue bodies and extracts Manifest metadata.
//!
//! Issue bodies carry Manifest metadata in HTML comments (invisible in GitHub's
//! UI). The parser extracts:
//!
//! - `manifest:id`: the feature UUID, for round-trip fidelity
//! - `manifest:feature`: the marker of a Manifest-managed issue
//! - `details`: the body without metadata comments and the desired-state block
//! - `desired_details`: the content of the `<details>` "Desired state" block
//! - `details_summary`: the text before the first `---` separator
//!
//! Text is handled as characters. Tags and the "desired state" title are found
//! without regard to ASCII case.

use vstd::prelude::*;
use crate::models::ids::FeatureId;
use crate::text::{
    all_ws, append_chars, append_str, chars_of, concat, contains, contains_exec, ends_with,
    ends_with_exec, find, find_from, find_from_exec, join, lemma_find_at_start,
    lemma_find_from_bounds, lemma_find_from_concat_skip, lemma_find_from_extend,
    lemma_find_from_skip, lemma_find_none_no_match, lemma_find_sep, lemma_lines_prefix,
    lemma_join_lines, lemma_line_in_text, lemma_lines_concat_skip, lemma_lower_concat,
    lemma_match_found, lemma_trim_in_text, lemma_trim_padded, lines, no_crlf,
    is_ws, lines_from, lower_all, lower_char, lower_seq, matches_at, next_line, opt_view, slice_vec,
    starts_with, starts_with_exec, string_of, strip_cr, strip_prefix, strip_suffix, trim, trim_exec,
};
use crate::uuid_support::{
    format_uuid, is_lower_hex_or_hyphen, lemma_uuid_text_shape, uuid_parse_result, uuid_text,
};

verus! {

/// Metadata extracted from a GitHub issue body.
#[derive(Debug, Clone)]
pub struct IssueMetadata {
    /// The feature UUID, if present.
    pub manifest_id: Option<FeatureId>,
    /// Whether the body carries the `<!-- manifest:feature -->` marker.
    pub is_manifest_issue: bool,
    /// The body without metadata comments and the desired-state block.
    pub details: Option<String>,
    /// The content of the desired-state block, if present.
    pub desired_details: Option<String>,
    /// The text before the first `---` separator.
    pub details_summary: Option<String>,
}

// ------------------------------------------------------------------
// Specification
// ------------------------------------------------------------------

pub open spec fn feature_marker() -> Seq<char> {
    "<!-- manifest:feature -->"@
}

pub open spec fn id_prefix() -> Seq<char> {
    "<!-- manifest:id:"@
}

pub open spec fn meta_prefix() -> Seq<char> {
    "<!-- manifest:"@
}

pub open spec fn comment_end() -> Seq<char> {
    " -->"@
}

pub open spec fn details_open() -> Seq<char> {
    "<details>"@
}

pub open spec fn details_close() -> Seq<char> {
    "</details>"@
}

pub open spec fn summary_close() -> Seq<char> {
    "</summary>"@
}

pub open spec fn desired_title() -> Seq<char> {
    "desired state"@
}

pub open spec fn summary_separator() -> Seq<char> {
    "\n---\n"@
}

/// The UUID carried by a line of the form `<!-- manifest:id:UUID -->`.
pub open spec fn line_manifest_id(line: Seq<char>) -> Option<u128> {
    match strip_prefix(trim(line), id_prefix()) {
        Some(rest) => match strip_suffix(rest, comment_end()) {
            Some(u) => uuid_parse_result(trim(u)),
            None => None,
        },
        None => None,
    }
}

/// The UUID of the first line, in order, that carries one.
pub open spec fn first_manifest_id(ls: Seq<Seq<char>>) -> Option<u128>
    decreases ls.len(),
{
    if ls.len() == 0 {
        None
    } else {
        match line_manifest_id(ls[0]) {
            Some(v) => Some(v),
            None => first_manifest_id(ls.drop_first()),
        }
    }
}

/// The first `<details>` ... `</details>` block, as the range it covers.
pub open spec fn block_range(s: Seq<char>) -> Option<(int, int)> {
    let lower = lower_seq(s);
    match find(lower, details_open()) {
        None => None,
        Some(ds) => match find_from(lower, details_close(), ds) {
            None => None,
            Some(e) => Some((ds, e + 10)),
        },
    }
}

/// The trimmed content of the desired-state block, if there is one and it is
/// not blank.
pub open spec fn spec_desired_details(body: Seq<char>) -> Option<Seq<char>> {
    match block_range(body) {
        None => None,
        Some(r) => {
            let block = body.subrange(r.0, r.1);
            if !contains(lower_seq(block), desired_title()) {
                None
            } else {
                match find(block, summary_close()) {
                    None => None,
                    Some(cs) => {
                        let t = trim(block.subrange(cs + 10, block.len() - 10));
                        if t.len() == 0 {
                            None
                        } else {
                            Some(t)
                        }
                    },
                }
            }
        },
    }
}

/// Whether a line survives the removal of metadata comments.
pub open spec fn keep_line(l: Seq<char>) -> bool {
    !(starts_with(trim(l), meta_prefix()) && ends_with(trim(l), comment_end()))
}

/// Whether every line of a list survives the removal of metadata comments.
pub open spec fn all_kept(ls: Seq<Seq<char>>) -> bool {
    forall|i: int| 0 <= i < ls.len() ==> keep_line(#[trigger] ls[i])
}

/// No line of the text is a metadata comment line (a line that, trimmed,
/// starts with `<!-- manifest:` and ends with ` -->`).
pub open spec fn no_metadata_lines(t: Seq<char>) -> bool {
    all_kept(lines(t))
}

/// The lines that survive the removal of metadata comments, in order.
pub open spec fn kept_lines(ls: Seq<Seq<char>>) -> Seq<Seq<char>>
    decreases ls.len(),
{
    if ls.len() == 0 {
        seq![]
    } else {
        let r = kept_lines(ls.drop_last());
        if keep_line(ls.last()) {
            r.push(ls.last())
        } else {
            r
        }
    }
}

/// The body without its metadata comment lines.
pub open spec fn spec_strip_metadata(body: Seq<char>) -> Seq<char> {
    join(kept_lines(lines(body)), seq!['\n'])
}

/// The text without its desired-state block.
pub open spec fn spec_strip_desired_block(s: Seq<char>) -> Seq<char> {
    match block_range(s) {
        None => s,
        Some(r) => if !contains(lower_seq(s.subrange(r.0, r.1)), desired_title()) {
            s
        } else {
            s.take(r.0) + s.skip(r.1)
        },
    }
}

/// The details: the trimmed body without metadata and desired-state block,
/// unless that is blank.
pub open spec fn spec_details(body: Seq<char>) -> Option<Seq<char>> {
    let t = trim(spec_strip_desired_block(spec_strip_metadata(body)));
    if t.len() == 0 {
        None
    } else {
        Some(t)
    }
}

/// The trimmed text before the first `\n---\n`, unless there is no separator
/// or that text is blank.
pub open spec fn spec_summary(details: Seq<char>) -> Option<Seq<char>> {
    match find(details, summary_separator()) {
        Some(k) => {
            let t = trim(details.take(k));
            if t.len() == 0 {
                None
            } else {
                Some(t)
            }
        },
        None => None,
    }
}

pub open spec fn opt_str_view(o: Option<&str>) -> Option<Seq<char>> {
    match o {
        Some(s) => Some(s@),
        None => None,
    }
}

/// The issue body rendered for a feature.
pub open spec fn spec_render(id: u128, details: Option<Seq<char>>, desired: Option<Seq<char>>) -> Seq<
    char,
> {
    let head = feature_marker() + "\n"@ + id_prefix() + uuid_text(id) + comment_end() + "\n"@
        + "\n"@;
    let with_details = match details {
        Some(d) => head + d + "\n"@,
        None => head,
    };
    match desired {
        Some(dd) => with_details + "\n<details>\n<summary>Desired state</summary>\n\n"@ + dd
            + "\n\n</details>\n"@,
        None => with_details,
    }
}

/// What `format_uuid` promises of the text of every value: the parser reads
/// it back to the same value.
pub open spec fn uuid_text_readable(id: u128) -> bool {
    uuid_parse_result(uuid_text(id)) == Some(id)
}

// ------------------------------------------------------------------
// Laws
// ------------------------------------------------------------------

/// A `'\n'` at `i` with none before it from `p` on is the next one found.
proof fn lemma_find_newline(s: Seq<char>, p: int, i: int)
    requires
        0 <= p <= i < s.len(),
        s[i] == '\n',
        forall|k: int| p <= k < i ==> s[k] != '\n',
    ensures
        find_from(s, seq!['\n'], p) == Some(i),
    decreases i - p,
{
    if p == i {
        assert(s.subrange(p, p + 1) =~= seq!['\n']);
    } else {
        assert(s.subrange(p, p + 1)[0] == s[p]);
        lemma_find_newline(s, p + 1, i);
    }
}

/// The line that starts at `p` and ends before the `'\n'` at `i`.
proof fn lemma_line_at(s: Seq<char>, p: int, i: int)
    requires
        0 <= p <= i < s.len(),
        s[i] == '\n',
        forall|k: int| p <= k < i ==> s[k] != '\n',
    ensures
        lines_from(s, p) == seq![strip_cr(s.subrange(p, i))] + lines_from(s, i + 1),
{
    lemma_find_newline(s, p, i);
}

/// A rendered body is marked as managed and carries the feature's id on the
/// first line that carries one: parsing it gives the id back.
pub proof fn lemma_render_parse_id(id: u128, details: Option<Seq<char>>, desired: Option<Seq<char>>)
    requires
        uuid_text_readable(id),
    ensures
        first_manifest_id(lines(spec_render(id, details, desired))) == Some(id),
        contains(spec_render(id, details, desired), feature_marker()),
{
    lemma_uuid_text_shape(id);
    reveal_strlit("<!-- manifest:feature -->");
    reveal_strlit("<!-- manifest:id:");
    reveal_strlit(" -->");
    reveal_strlit("\n");
    let s = spec_render(id, details, desired);
    let m = feature_marker();
    let u = uuid_text(id);
    let idline = id_prefix() + u + comment_end();
    let head = m + "\n"@ + id_prefix() + u + comment_end() + "\n"@ + "\n"@;
    let tail = s.skip(85);
    assert(head.len() == 85);
    assert(s.take(85) =~= head);
    assert(forall|k: int| 0 <= k < 85 ==> s[k] == head[k]);
    // the marker line
    assert(s.subrange(0, 25) =~= m);
    assert(forall|k: int| 0 <= k < 25 ==> s[k] != '\n');
    assert(s[25] == '\n');
    lemma_line_at(s, 0, 25);
    assert(strip_cr(m) == m);
    // the id line
    assert(s.subrange(26, 83) =~= idline);
    assert forall|k: int| 26 <= k < 83 implies s[k] != '\n' by {
        if 43 <= k < 79 {
            assert(s[k] == u[k - 43]);
            assert(is_lower_hex_or_hyphen(u[k - 43]));
        }
    }
    assert(s[83] == '\n');
    lemma_line_at(s, 26, 83);
    assert(strip_cr(idline) == idline);
    let ls = lines(s);
    assert(ls[0] == m);
    assert(ls.drop_first()[0] == idline);
    // the marker line carries no id
    assert(trim(m) == m);
    assert(m.subrange(0, 17)[14] != id_prefix()[14]);
    assert(line_manifest_id(m) is None);
    // the id line carries the id
    assert(trim(idline) == idline);
    assert(idline.subrange(0, 17) =~= id_prefix());
    let rest = idline.skip(17);
    assert(rest =~= u + comment_end());
    assert(rest.subrange(36, 40) =~= comment_end());
    assert(rest.take(36) =~= u);
    assert(!is_ws(u[0]) && !is_ws(u[35])) by {
        assert(is_lower_hex_or_hyphen(u[0]));
        assert(is_lower_hex_or_hyphen(u[35]));
    }
    assert(trim(u) == u);
    assert(line_manifest_id(idline) == Some(id));
    assert(ls.len() >= 2);
    assert(first_manifest_id(ls.drop_first()) == Some(id));
    assert(first_manifest_id(ls) == first_manifest_id(ls.drop_first()));
    // the marker occurs at the start
    assert(matches_at(s, m, 0));
}

/// A needle of two or more characters is absent when no position holding
/// its first character is followed by its second.
proof fn lemma_absent_by_pairs(h: Seq<char>, n: Seq<char>)
    requires
        n.len() >= 2,
        forall|k: int| 0 <= k && k + 1 < h.len() && #[trigger] h[k] == n[0] ==> h[k + 1] != n[1],
    ensures
        !contains(h, n),
{
    lemma_find_from_bounds(h, n, 0);
    if let Some(i) = find(h, n) {
        assert(h.subrange(i, i + n.len())[0] == h[i]);
        assert(h.subrange(i, i + n.len())[1] == h[i + 1]);
    }
}

/// Nothing is found in the empty text.
proof fn lemma_absent_in_empty(n: Seq<char>)
    requires
        n.len() > 0,
    ensures
        !contains(Seq::<char>::empty(), n),
{
}

/// Lower-casing `x + [c] + y` for a character that is not an upper-case
/// letter.
proof fn lemma_lower_sep(x: Seq<char>, c: char, y: Seq<char>)
    requires
        !(65 <= c as u32 && c as u32 <= 90),
    ensures
        lower_seq(x + seq![c] + y) == lower_seq(x) + seq![c] + lower_seq(y),
{
    assert(lower_seq(x + seq![c] + y) =~= lower_seq(x) + seq![c] + lower_seq(y));
}

/// The desired-state block as rendered, from its opening tag to the newline
/// after its closing tag.
pub open spec fn desired_block(dd: Seq<char>) -> Seq<char> {
    details_open() + seq!['\n'] + "<summary>Desired state</summary>"@ + seq!['\n'] + seq!['\n'] + dd
        + seq!['\n'] + seq!['\n'] + details_close() + seq!['\n']
}

/// Where the first `<details>` opens in a rendered body: right after the
/// text before the desired-state block.
proof fn lemma_render_block_start(id: u128, details: Option<Seq<char>>, dd: Seq<char>)
    requires
        uuid_text_readable(id),
        details matches Some(d) ==> !contains(lower_seq(d), details_open()),
    ensures
        ({
            let s = spec_render(id, details, Some(dd));
            let x = s.take(s.len() - desired_block(dd).len());
            &&& s == x + desired_block(dd)
            &&& find(lower_seq(s), details_open()) == Some(x.len() as int)
        }),
{
    lemma_uuid_text_shape(id);
    reveal_strlit("<!-- manifest:feature -->");
    reveal_strlit("<!-- manifest:id:");
    reveal_strlit(" -->");
    reveal_strlit("\n");
    reveal_strlit("<details>");
    reveal_strlit("</details>");
    reveal_strlit("<summary>Desired state</summary>");
    reveal_strlit("\n<details>\n<summary>Desired state</summary>\n\n");
    reveal_strlit("\n\n</details>\n");
    let s = spec_render(id, details, Some(dd));
    let b = desired_block(dd);
    let m = feature_marker();
    let u = uuid_text(id);
    let il = id_prefix() + u + comment_end();
    let e = Seq::<char>::empty();
    let nl = seq!['\n'];
    let o = details_open();
    // the body as newline-separated pieces
    let tail = match details {
        Some(d) => d + nl + (e + nl + b),
        None => e + nl + b,
    };
    assert(s =~= m + nl + (il + nl + (e + nl + tail)));
    let x = s.take(s.len() - b.len());
    assert(s =~= x + b);
    // no piece before the block holds `<details>`
    assert forall|i: int| 0 <= i < o.len() implies o[i] != '\n' by {}
    let lm = lower_seq(m);
    assert forall|k: int| 0 <= k && k + 1 < lm.len() && #[trigger] lm[k] == o[0] implies lm[k + 1] != o[1] by {
        assert(lm[k] == lower_char(m[k]));
        if k != 0 {
            assert(m[k] != '<');
        }
        assert(lm[1] == lower_char(m[1]));
    }
    lemma_absent_by_pairs(lm, o);
    let li = lower_seq(il);
    assert forall|k: int| 0 <= k && k + 1 < li.len() && #[trigger] li[k] == o[0] implies li[k + 1] != o[1] by {
        assert(li[k] == lower_char(il[k]));
        if 17 <= k < 53 {
            assert(il[k] == u[k - 17]);
            assert(is_lower_hex_or_hyphen(u[k - 17]));
        }
        if k != 0 {
            assert(il[k] != '<');
        }
        assert(li[1] == lower_char(il[1]));
    }
    lemma_absent_by_pairs(li, o);
    lemma_absent_in_empty(o);
    let lb = lower_seq(b);
    assert(lb.subrange(0, 9) =~= o);
    lemma_find_at_start(lb, o);
    lemma_lower_sep(m, '\n', il + nl + (e + nl + tail));
    lemma_lower_sep(il, '\n', e + nl + tail);
    lemma_lower_sep(e, '\n', tail);
    assert(lower_seq(e) =~= e);
    lemma_find_sep(lm, '\n', lower_seq(il + nl + (e + nl + tail)), o);
    lemma_find_sep(li, '\n', lower_seq(e + nl + tail), o);
    lemma_find_sep(e, '\n', lower_seq(tail), o);
    match details {
        Some(d) => {
            lemma_lower_sep(d, '\n', e + nl + b);
            lemma_lower_sep(e, '\n', b);
            lemma_find_sep(lower_seq(d), '\n', lower_seq(e + nl + b), o);
            lemma_find_sep(e, '\n', lb, o);
            assert(x.len() == m.len() + 1 + il.len() + 1 + 1 + d.len() + 1 + 1);
        },
        None => {
            lemma_lower_sep(e, '\n', b);
            lemma_find_sep(e, '\n', lb, o);
            assert(x.len() == m.len() + 1 + il.len() + 1 + 1 + 1);
        },
    }
}

/// A needle of three or more characters is absent when no position holding
/// its first two characters is followed by its third.
proof fn lemma_absent_by_triples(h: Seq<char>, n: Seq<char>)
    requires
        n.len() >= 3,
        forall|k: int|
            0 <= k && k + 2 < h.len() && #[trigger] h[k] == n[0] && h[k + 1] == n[1] ==> h[k + 2] != n[2],
    ensures
        !contains(h, n),
{
    lemma_find_from_bounds(h, n, 0);
    if let Some(i) = find(h, n) {
        assert(h.subrange(i, i + n.len())[0] == h[i]);
        assert(h.subrange(i, i + n.len())[1] == h[i + 1]);
        assert(h.subrange(i, i + n.len())[2] == h[i + 2]);
    }
}

/// In the rendered block, the first `</details>` (without regard to case)
/// is the block's own closing tag, when the desired details hold none.
proof fn lemma_block_close(dd: Seq<char>, t: Seq<char>)
    requires
        !contains(lower_seq(dd), details_close()),
    ensures
        find(lower_seq(desired_block(dd).take(56 + dd.len() as int) + t), details_close()) == Some(
            46 + dd.len() as int,
        ),
{
    reveal_strlit("<details>");
    reveal_strlit("</details>");
    reveal_strlit("<summary>Desired state</summary>");
    let b = desired_block(dd).take(56 + dd.len() as int) + t;
    let c = details_close();
    let o = details_open();
    let b1 = "<summary>Desired state</summary>"@;
    let e = Seq::<char>::empty();
    let nl = seq!['\n'];
    assert forall|i: int| 0 <= i < c.len() implies c[i] != '\n' by {}
    let r5 = c + t;
    let r4 = e + nl + r5;
    let r3 = dd + nl + r4;
    let r2 = e + nl + r3;
    let r1 = b1 + nl + r2;
    assert(b =~= o + nl + r1);
    let lo = lower_seq(o);
    assert forall|k: int| 0 <= k && k + 1 < lo.len() && #[trigger] lo[k] == c[0] implies lo[k + 1] != c[1] by {
        assert(lo[k] == lower_char(o[k]));
        assert(lo[1] == lower_char(o[1]));
    }
    lemma_absent_by_pairs(lo, c);
    let lb1 = lower_seq(b1);
    assert forall|k: int|
        0 <= k && k + 2 < lb1.len() && #[trigger] lb1[k] == c[0] && lb1[k + 1] == c[1] implies lb1[k + 2] != c[2] by {
        assert(lb1[k] == lower_char(b1[k]));
        assert(lb1[k + 1] == lower_char(b1[k + 1]));
        assert(lb1[k + 2] == lower_char(b1[k + 2]));
    }
    lemma_absent_by_triples(lb1, c);
    lemma_absent_in_empty(c);
    lemma_lower_sep(o, '\n', r1);
    lemma_lower_sep(b1, '\n', r2);
    lemma_lower_sep(e, '\n', r3);
    lemma_lower_sep(dd, '\n', r4);
    lemma_lower_sep(e, '\n', r5);
    assert(lower_seq(e) =~= e);
    lemma_find_sep(lo, '\n', lower_seq(r1), c);
    lemma_find_sep(lb1, '\n', lower_seq(r2), c);
    lemma_find_sep(e, '\n', lower_seq(r3), c);
    lemma_find_sep(lower_seq(dd), '\n', lower_seq(r4), c);
    lemma_find_sep(e, '\n', lower_seq(r5), c);
    assert(lower_seq(r5).subrange(0, 10) =~= c) by {
        assert forall|i: int| 0 <= i < 10 implies lower_seq(r5)[i] == c[i] by {
            assert(lower_seq(r5)[i] == lower_char(r5[i]));
        }
    }
    lemma_find_at_start(lower_seq(r5), c);
}

/// The block up to its closing tag carries the title, its first summary tag
/// closes at 32, and its content is the desired details between blank lines.
proof fn lemma_block_content(dd: Seq<char>)
    ensures
        ({
            let block = desired_block(dd).take(56 + dd.len() as int);
            &&& contains(lower_seq(block), desired_title())
            &&& find(block, summary_close()) == Some(32int)
            &&& block.subrange(42, block.len() - 10) == seq!['\n', '\n'] + dd + seq!['\n', '\n']
        }),
{
    reveal_strlit("<details>");
    reveal_strlit("</details>");
    reveal_strlit("</summary>");
    reveal_strlit("desired state");
    reveal_strlit("<summary>Desired state</summary>");
    let o = details_open();
    let c = details_close();
    let b1 = "<summary>Desired state</summary>"@;
    let nl = seq!['\n'];
    let block = desired_block(dd).take(56 + dd.len() as int);
    let rest = b1 + nl + nl + dd + nl + nl + c;
    assert(block =~= o + nl + rest);
    let lk = lower_seq(block);
    let t = desired_title();
    assert(lk.subrange(19, 32) =~= t) by {
        assert forall|i: int| 0 <= i < 13 implies lk.subrange(19, 32)[i] == t[i] by {
            assert(lk[19 + i] == lower_char(block[19 + i]));
            assert(block[19 + i] == b1[9 + i]);
        }
    }
    lemma_match_found(lk, t, 0, 19);
    let sc = summary_close();
    assert forall|i: int| 0 <= i < sc.len() implies sc[i] != '\n' by {}
    assert forall|k: int| 0 <= k && k + 1 < o.len() && #[trigger] o[k] == sc[0] implies o[k + 1] != sc[1] by {}
    lemma_absent_by_pairs(o, sc);
    lemma_find_sep(o, '\n', rest, sc);
    assert forall|j: int| 0 <= j < 22 implies !matches_at(rest, sc, j) by {
        if matches_at(rest, sc, j) {
            assert(rest.subrange(j, j + 10)[0] == rest[j]);
            assert(rest.subrange(j, j + 10)[1] == rest[j + 1]);
            assert(rest[j] == b1[j]);
            assert(rest[j + 1] == b1[j + 1]);
        }
    }
    assert(rest.subrange(22, 32) =~= sc);
    lemma_find_from_skip(rest, sc, 0, 22);
    assert(block.subrange(42, block.len() - 10) =~= seq!['\n', '\n'] + dd + seq!['\n', '\n']);
}

/// Rendering then parsing gives back the desired details, trimmed, when the
/// current details hold no `<details>` tag, the desired details hold no
/// `</details>` tag and are not blank.
pub proof fn lemma_render_parse_desired(id: u128, details: Option<Seq<char>>, dd: Seq<char>)
    requires
        uuid_text_readable(id),
        details matches Some(d) ==> !contains(lower_seq(d), details_open()),
        !contains(lower_seq(dd), details_close()),
        trim(dd).len() > 0,
    ensures
        spec_desired_details(spec_render(id, details, Some(dd))) == Some(trim(dd)),
{
    lemma_uuid_text_shape(id);
    reveal_strlit("<details>");
    reveal_strlit("</details>");
    reveal_strlit("<summary>Desired state</summary>");
    lemma_render_block_start(id, details, dd);
    lemma_block_close(dd, seq!['\n']);
    assert(desired_block(dd) =~= desired_block(dd).take(56 + dd.len() as int) + seq!['\n']);
    lemma_block_content(dd);
    let s = spec_render(id, details, Some(dd));
    let b = desired_block(dd);
    let x = s.take(s.len() - b.len());
    let ls = lower_seq(s);
    let c = details_close();
    let ds = x.len() as int;
    let eb = 46 + dd.len() as int;
    lemma_lower_concat(x, b);
    lemma_find_from_concat_skip(lower_seq(x), lower_seq(b), c, 0);
    assert(find_from(ls, c, ds) == Some(ds + eb));
    assert(block_range(s) == Some((ds, ds + eb + 10)));
    let block = s.subrange(ds, ds + eb + 10);
    assert(s == x + b);
    assert(b.len() == 57 + dd.len());
    assert(block =~= b.take(56 + dd.len() as int)) by {
        assert forall|i: int| 0 <= i < eb + 10 implies block[i] == b[i] by {
            assert(s[ds + i] == (x + b)[ds + i]);
        }
    }
    let w = seq!['\n', '\n'];
    assert(all_ws(w));
    lemma_trim_padded(w, dd, w);
}

/// Lines that are all kept pass through the removal of metadata lines.
proof fn lemma_kept_lines_append(a: Seq<Seq<char>>, b: Seq<Seq<char>>)
    requires
        forall|i: int| 0 <= i < b.len() ==> keep_line(#[trigger] b[i]),
    ensures
        kept_lines(a + b) == kept_lines(a) + b,
    decreases b.len(),
{
    if b.len() == 0 {
        assert(a + b =~= a);
        assert(kept_lines(a) + b =~= kept_lines(a));
    } else {
        assert((a + b).drop_last() =~= a + b.drop_last());
        assert((a + b).last() == b.last());
        assert(keep_line(b[b.len() - 1]));
        lemma_kept_lines_append(a, b.drop_last());
        assert(kept_lines(a) + b.drop_last() + seq![b.last()] =~= kept_lines(a) + b);
    }
}

/// A rendered body starts with its marker line and its id line, both
/// metadata lines; the rest of its lines are those of the text after them.
proof fn lemma_render_lines(id: u128, details: Option<Seq<char>>, desired: Option<Seq<char>>)
    requires
        uuid_text_readable(id),
    ensures
        ({
            let s = spec_render(id, details, desired);
            kept_lines(lines(s)) == kept_lines(lines_from(s.skip(84), 0))
        }),
{
    lemma_uuid_text_shape(id);
    reveal_strlit("<!-- manifest:feature -->");
    reveal_strlit("<!-- manifest:id:");
    reveal_strlit(" -->");
    reveal_strlit("<!-- manifest:");
    reveal_strlit("\n");
    let s = spec_render(id, details, desired);
    let m = feature_marker();
    let u = uuid_text(id);
    let idline = id_prefix() + u + comment_end();
    let head = m + "\n"@ + id_prefix() + u + comment_end() + "\n"@ + "\n"@;
    assert(head.len() == 85);
    assert(s.take(85) =~= head);
    assert(forall|k: int| 0 <= k < 85 ==> s[k] == head[k]);
    assert(s.subrange(0, 25) =~= m);
    assert(forall|k: int| 0 <= k < 25 ==> s[k] != '\n');
    lemma_line_at(s, 0, 25);
    assert(strip_cr(m) == m);
    assert(s.subrange(26, 83) =~= idline);
    assert forall|k: int| 26 <= k < 83 implies s[k] != '\n' by {
        if 43 <= k < 79 {
            assert(s[k] == u[k - 43]);
            assert(is_lower_hex_or_hyphen(u[k - 43]));
        }
    }
    lemma_line_at(s, 26, 83);
    assert(strip_cr(idline) == idline);
    lemma_lines_concat_skip(s.take(84), s.skip(84), 0);
    assert(s.take(84) + s.skip(84) =~= s);
    let rest = lines_from(s.skip(84), 0);
    assert(lines(s) =~= seq![m, idline] + rest);
    // both head lines are metadata lines
    assert(trim(m) == m);
    assert(m.subrange(0, 14) =~= meta_prefix());
    assert(m.subrange(21, 25) =~= comment_end());
    assert(!keep_line(m));
    assert(!is_ws(u[0]) && !is_ws(u[35])) by {
        assert(is_lower_hex_or_hyphen(u[0]));
        assert(is_lower_hex_or_hyphen(u[35]));
    }
    assert(idline[0] == '<' && idline[56] == '>');
    assert(trim(idline) == idline);
    assert(idline.subrange(0, 14) =~= meta_prefix());
    assert(idline.subrange(53, 57) =~= comment_end());
    assert(!keep_line(idline));
    lemma_kept_prefix_dropped(m, idline, rest);
}

/// Two metadata lines in front do not change what the removal keeps.
proof fn lemma_kept_prefix_dropped(m: Seq<char>, i: Seq<char>, r: Seq<Seq<char>>)
    requires
        !keep_line(m),
        !keep_line(i),
    ensures
        kept_lines(seq![m, i] + r) == kept_lines(r),
    decreases r.len(),
{
    let x = seq![m, i] + r;
    if r.len() == 0 {
        assert(x =~= seq![m, i]);
        assert(x.drop_last() =~= seq![m]);
        assert(x.last() == i);
        assert(seq![m].drop_last() =~= Seq::<Seq<char>>::empty());
        assert(seq![m].last() == m);
        assert(kept_lines(seq![m]) == kept_lines(Seq::<Seq<char>>::empty()));
        assert(kept_lines(x) == kept_lines(seq![m]));
    } else {
        assert(x.drop_last() =~= seq![m, i] + r.drop_last());
        assert(x.last() == r.last());
        lemma_kept_prefix_dropped(m, i, r.drop_last());
        if keep_line(r.last()) {
            assert(kept_lines(x) == kept_lines(x.drop_last()).push(r.last()));
        } else {
            assert(kept_lines(x) == kept_lines(x.drop_last()));
        }
    }
}

/// Rendering details alone, then parsing, gives the details back trimmed,
/// when they are not blank, hold no `"\r\n"`, no final `'\r'`, no metadata
/// comment line and no `<details>` tag.
pub proof fn lemma_render_parse_details(id: u128, d: Seq<char>)
    requires
        uuid_text_readable(id),
        no_crlf(d + seq!['\n']),
        no_metadata_lines(d),
        !contains(lower_seq(d), details_open()),
        trim(d).len() > 0,
    ensures
        spec_details(spec_render(id, Some(d), None)) == Some(trim(d)),
{
    lemma_uuid_text_shape(id);
    reveal_strlit("<!-- manifest:feature -->");
    reveal_strlit("<!-- manifest:id:");
    reveal_strlit(" -->");
    reveal_strlit("<!-- manifest:");
    reveal_strlit("\n");
    reveal_strlit("<details>");
    let s = spec_render(id, Some(d), None);
    lemma_render_lines(id, Some(d), None);
    let nl = seq!['\n'];
    let e = Seq::<char>::empty();
    let a = s.skip(84);
    assert(a =~= nl + d + nl);
    // a ends with a newline and holds no "\r\n"
    assert(no_crlf(a)) by {
        assert forall|i: int| 0 <= i && i + 1 < a.len() && #[trigger] a[i] == '\r' implies a[i + 1] != '\n' by {
            assert(i >= 1);
            assert(a[i] == (d + nl)[i - 1]);
            assert(a[i + 1] == (d + nl)[i]);
        }
    }
    // every line of a is kept
    lemma_lines_nl_kept(d, 0);
    lemma_nl_lines_kept();
    lemma_concat_kept(nl, d + nl);
    assert(a =~= nl + (d + nl));
    let ls = lines_from(a, 0);
    lemma_kept_lines_append(Seq::<Seq<char>>::empty(), ls);
    assert(Seq::<Seq<char>>::empty() + ls =~= ls);
    assert(kept_lines(Seq::<Seq<char>>::empty()) =~= Seq::<Seq<char>>::empty());
    lemma_join_lines(a, 0);
    let stripped = spec_strip_metadata(s);
    assert(stripped =~= nl + d);
    // no desired-state block to remove
    lemma_lower_sep(e, '\n', d);
    assert(lower_seq(e) =~= e);
    assert(forall|k: int| 0 <= k < details_open().len() ==> details_open()[k] != '\n');
    lemma_find_sep(e, '\n', lower_seq(d), details_open());
    assert(e + nl + d =~= stripped);
    assert(spec_strip_desired_block(stripped) == stripped);
    assert(all_ws(nl));
    assert(all_ws(e));
    lemma_trim_padded(nl, d, e);
    assert(nl + d + e =~= stripped);
}

/// A needle without `c` that is in neither side is not in `a + [c] + b`.
proof fn lemma_absent_sep(a: Seq<char>, c: char, b: Seq<char>, n: Seq<char>)
    requires
        !contains(a, n),
        !contains(b, n),
        forall|i: int| 0 <= i < n.len() ==> n[i] != c,
    ensures
        !contains(a + seq![c] + b, n),
{
    lemma_find_sep(a, c, b, n);
}

/// Joining two texts keeps them free of `"\r\n"` when the first does not
/// end with `'\r'`.
proof fn lemma_no_crlf_concat(x: Seq<char>, y: Seq<char>)
    requires
        no_crlf(x),
        no_crlf(y),
        x.len() == 0 || x.last() != '\r',
    ensures
        no_crlf(x + y),
{
    let s = x + y;
    assert forall|i: int| 0 <= i && i + 1 < s.len() && #[trigger] s[i] == '\r' implies s[i + 1] != '\n' by {
        if i + 1 < x.len() {
            assert(x[i] == '\r');
        } else if i >= x.len() {
            assert(y[i - x.len()] == '\r');
            assert(s[i + 1] == y[i + 1 - x.len()]);
        } else {
            assert(x[i] == x.last());
        }
    }
}

/// In a text without the metadata comment prefix, every line is kept.
proof fn lemma_all_lines_kept(a: Seq<char>)
    requires
        !contains(a, meta_prefix()),
    ensures
        forall|i: int| 0 <= i < lines_from(a, 0).len() ==> keep_line(#[trigger] lines_from(a, 0)[i]),
{
    let ls = lines_from(a, 0);
    let mp = meta_prefix();
    assert forall|i: int| 0 <= i < ls.len() implies keep_line(#[trigger] ls[i]) by {
        lemma_line_in_text(a, 0, i);
        let (x, y) = choose|x: int, y: int| 0 <= 0 <= x <= y <= a.len() && ls[i] == a.subrange(x, y);
        let l = ls[i];
        lemma_trim_in_text(l);
        let (p, q) = choose|p: int, q: int| 0 <= p <= q <= l.len() && trim(l) == l.subrange(p, q);
        if starts_with(trim(l), mp) {
            assert(a.subrange(x + p, x + p + mp.len()) =~= mp) by {
                assert forall|k: int| 0 <= k < mp.len() implies a.subrange(x + p, x + p + mp.len())[k] == mp[k] by {
                    assert(trim(l)[k] == mp[k]);
                    assert(trim(l)[k] == l[p + k]);
                    assert(l[p + k] == a[x + p + k]);
                }
            }
            lemma_match_found(a, mp, 0, x + p);
        }
    }
}

/// The text of a rendered body after its two metadata lines, when it has
/// details and desired details.
pub open spec fn rendered_tail(d: Seq<char>, dd: Seq<char>) -> Seq<char> {
    seq!['\n'] + d + seq!['\n'] + seq!['\n'] + desired_block(dd).take(56 + dd.len() as int) + seq!['\n']
}

/// That text holds no `"\r\n"` when the two texts hold none.
proof fn lemma_rendered_tail_clean(d: Seq<char>, dd: Seq<char>)
    requires
        no_crlf(d + seq!['\n']),
        no_crlf(dd + seq!['\n']),
    ensures
        no_crlf(rendered_tail(d, dd)),
{
    reveal_strlit("<!-- manifest:");
    reveal_strlit("<details>");
    reveal_strlit("</details>");
    reveal_strlit("<summary>Desired state</summary>");
    let nl = seq!['\n'];
    let e = Seq::<char>::empty();
    let o = details_open();
    let c = details_close();
    let b1 = "<summary>Desired state</summary>"@;
    let mp = meta_prefix();
    let a = rendered_tail(d, dd);
    let core = desired_block(dd).take(56 + dd.len() as int);
    assert(core =~= o + nl + b1 + nl + nl + dd + nl + nl + c);
    let lit1 = nl + o + nl + b1 + nl + nl;
    let lit2 = nl + c + nl;
    assert(no_crlf(nl)) by {
        assert forall|i: int| 0 <= i && i + 1 < nl.len() && #[trigger] nl[i] == '\r' implies nl[i + 1] != '\n' by {}
    }
    assert(no_crlf(lit1)) by {
        assert forall|i: int| 0 <= i && i + 1 < lit1.len() && #[trigger] lit1[i] == '\r' implies lit1[i + 1] != '\n' by {
            if 1 <= i < 10 {
                assert(lit1[i] == o[i - 1]);
            } else if 11 <= i < 43 {
                assert(lit1[i] == b1[i - 11]);
            }
        }
    }
    assert(no_crlf(lit2)) by {
        assert forall|i: int| 0 <= i && i + 1 < lit2.len() && #[trigger] lit2[i] == '\r' implies lit2[i + 1] != '\n' by {
            if 1 <= i < 11 {
                assert(lit2[i] == c[i - 1]);
            }
        }
    }
    let dn = d + nl;
    let ddn = dd + nl;
    lemma_no_crlf_concat(nl, dn);
    lemma_no_crlf_concat(nl + dn, lit1);
    lemma_no_crlf_concat(nl + dn + lit1, ddn);
    lemma_no_crlf_concat(nl + dn + lit1 + ddn, lit2);
    assert(a =~= nl + dn + lit1 + ddn + lit2);
}

/// Every line of that text is kept when no line of the two texts is a
/// metadata comment line.
proof fn lemma_rendered_tail_kept(d: Seq<char>, dd: Seq<char>)
    requires
        no_crlf(d + seq!['\n']),
        no_crlf(dd + seq!['\n']),
        no_metadata_lines(d),
        no_metadata_lines(dd),
    ensures
        all_kept(lines(rendered_tail(d, dd))),
{
    reveal_strlit("<!-- manifest:");
    reveal_strlit("<details>");
    reveal_strlit("</details>");
    reveal_strlit("<summary>Desired state</summary>");
    let nl = seq!['\n'];
    let e = Seq::<char>::empty();
    let o = details_open();
    let c = details_close();
    let b1 = "<summary>Desired state</summary>"@;
    let mp = meta_prefix();
    let core = desired_block(dd).take(56 + dd.len() as int);
    assert(core =~= o + nl + b1 + nl + nl + dd + nl + nl + c);
    assert(forall|k: int| 0 <= k < mp.len() ==> mp[k] != '\n');
    lemma_absent_in_empty(mp);
    assert forall|k: int| 0 <= k && k + 1 < o.len() && #[trigger] o[k] == mp[0] implies o[k + 1] != mp[1] by {}
    lemma_absent_by_pairs(o, mp);
    assert forall|k: int| 0 <= k && k + 1 < b1.len() && #[trigger] b1[k] == mp[0] implies b1[k + 1] != mp[1] by {}
    lemma_absent_by_pairs(b1, mp);
    assert forall|k: int| 0 <= k && k + 1 < c.len() && #[trigger] c[k] == mp[0] implies c[k + 1] != mp[1] by {}
    lemma_absent_by_pairs(c, mp);
    // the literal lines before and after the desired details
    let p3 = e + nl + e;
    let p2 = b1 + nl + p3;
    let p1 = o + nl + p2;
    let pre = e + nl + p1;
    lemma_absent_sep(e, '\n', e, mp);
    lemma_absent_sep(b1, '\n', p3, mp);
    lemma_absent_sep(o, '\n', p2, mp);
    lemma_absent_sep(e, '\n', p1, mp);
    lemma_all_lines_kept(pre);
    let q1 = c + nl + e;
    let post = e + nl + q1;
    lemma_absent_sep(c, '\n', e, mp);
    lemma_absent_sep(e, '\n', q1, mp);
    lemma_all_lines_kept(post);
    assert(pre =~= nl + o + nl + b1 + nl + nl);
    assert(post =~= nl + c + nl);
    // the texts' own lines
    lemma_lines_nl_kept(d, 0);
    lemma_lines_nl_kept(dd, 0);
    lemma_nl_lines_kept();
    let t4 = (dd + nl) + post;
    lemma_concat_kept(dd + nl, post);
    let t3 = pre + t4;
    lemma_concat_kept(pre, t4);
    let t2 = (d + nl) + t3;
    lemma_concat_kept(d + nl, t3);
    lemma_concat_kept(nl, t2);
    assert(rendered_tail(d, dd) =~= nl + t2);
}

/// The empty line is kept.
proof fn lemma_empty_line_kept()
    ensures
        keep_line(Seq::<char>::empty()),
{
    reveal_strlit("<!-- manifest:");
    let e = Seq::<char>::empty();
    assert(trim(e) =~= e);
}

/// A lone line terminator makes one empty line, which is kept.
proof fn lemma_nl_lines_kept()
    ensures
        all_kept(lines(seq!['\n'])),
{
    let nl = seq!['\n'];
    assert(nl.subrange(0, 1) =~= nl);
    assert(find_from(nl, nl, 0) == Some(0int));
    assert(nl.subrange(0, 0) =~= Seq::<char>::empty());
    assert(strip_cr(Seq::<char>::empty()) =~= Seq::<char>::empty());
    assert(lines_from(nl, 1) =~= Seq::<Seq<char>>::empty());
    assert(lines_from(nl, 0) =~= seq![Seq::<char>::empty()]);
    lemma_empty_line_kept();
}

/// Ending a text with a line terminator keeps its lines kept.
proof fn lemma_lines_nl_kept(d: Seq<char>, p: int)
    requires
        0 <= p <= d.len(),
        no_crlf(d + seq!['\n']),
        all_kept(lines_from(d, p)),
    ensures
        all_kept(lines_from(d + seq!['\n'], p)),
    decreases d.len() - p,
{
    let nl = seq!['\n'];
    let s = d + nl;
    if p == d.len() {
        assert(s.subrange(p, p + 1) =~= nl);
        assert(find_from(s, nl, p) == Some(p));
        assert(s.subrange(p, p) =~= Seq::<char>::empty());
        assert(strip_cr(Seq::<char>::empty()) =~= Seq::<char>::empty());
        assert(lines_from(s, p + 1) =~= Seq::<Seq<char>>::empty());
        assert(lines_from(s, p) =~= seq![Seq::<char>::empty()]);
        lemma_empty_line_kept();
    } else {
        lemma_find_from_bounds(d, nl, p);
        match find_from(d, nl, p) {
            Some(i) => {
                lemma_find_from_extend(d, nl, nl, p);
                assert(s.subrange(p, i) =~= d.subrange(p, i));
                assert(lines_from(d, p) =~= seq![strip_cr(d.subrange(p, i))] + lines_from(d, i + 1));
                assert(lines_from(s, p) =~= seq![strip_cr(d.subrange(p, i))] + lines_from(s, i + 1));
                assert(keep_line(lines_from(d, p)[0]));
                assert forall|k: int| 0 <= k < lines_from(d, i + 1).len() implies keep_line(
                    #[trigger] lines_from(d, i + 1)[k],
                ) by {
                    assert(lines_from(d, i + 1)[k] == lines_from(d, p)[k + 1]);
                }
                lemma_lines_nl_kept(d, i + 1);
                assert forall|k: int| 0 <= k < lines_from(s, p).len() implies keep_line(
                    #[trigger] lines_from(s, p)[k],
                ) by {
                    if k > 0 {
                        assert(lines_from(s, p)[k] == lines_from(s, i + 1)[k - 1]);
                    }
                }
            },
            None => {
                assert forall|j: int| p <= j < d.len() implies !matches_at(s, nl, j) by {
                    lemma_find_none_no_match(d, nl, p, j);
                    assert(s.subrange(j, j + 1) =~= d.subrange(j, j + 1));
                }
                assert(s.subrange(d.len() as int, d.len() as int + 1) =~= nl);
                lemma_find_from_skip(s, nl, p, d.len() as int);
                assert(find_from(s, nl, p) == Some(d.len() as int));
                assert(s[d.len() - 1] != '\r') by {
                    assert(s[d.len() as int] == '\n');
                }
                let l = d.subrange(p, d.len() as int);
                assert(s.subrange(p, d.len() as int) =~= l);
                assert(strip_cr(l) == l);
                assert(lines_from(s, d.len() as int + 1) =~= Seq::<Seq<char>>::empty());
                assert(lines_from(s, p) =~= lines_from(d, p));
            },
        }
    }
}

/// Joining a text that ends with a line terminator to another keeps every
/// line kept.
proof fn lemma_concat_kept(x: Seq<char>, y: Seq<char>)
    requires
        x.len() > 0,
        x.last() == '\n',
        all_kept(lines(x)),
        all_kept(lines(y)),
    ensures
        all_kept(lines(x + y)),
{
    lemma_lines_prefix(x, y, 0);
    assert forall|k: int| 0 <= k < lines(x + y).len() implies keep_line(#[trigger] lines(x + y)[k]) by {
        if k < lines(x).len() {
            assert(lines(x + y)[k] == lines(x)[k]);
        } else {
            assert(lines(x + y)[k] == lines(y)[k - lines(x).len()]);
        }
    }
}

/// The desired-state block at the end of the details text is removed whole.
proof fn lemma_strip_trailing_block(d: Seq<char>, dd: Seq<char>)
    requires
        !contains(lower_seq(d), details_open()),
        !contains(lower_seq(dd), details_close()),
    ensures
        ({
            let x = seq!['\n'] + d + seq!['\n'] + seq!['\n'];
            spec_strip_desired_block(x + desired_block(dd).take(56 + dd.len() as int)) == x
        }),
{
    reveal_strlit("<details>");
    reveal_strlit("</details>");
    reveal_strlit("<summary>Desired state</summary>");
    let nl = seq!['\n'];
    let e = Seq::<char>::empty();
    let o = details_open();
    let c = details_close();
    let core = desired_block(dd).take(56 + dd.len() as int);
    let x = nl + d + nl + nl;
    let stripped = x + core;
    assert(forall|k: int| 0 <= k < o.len() ==> o[k] != '\n');
    assert(lower_seq(e) =~= e);
    lemma_lower_sep(e, '\n', d + nl + (e + nl + core));
    lemma_lower_sep(d, '\n', e + nl + core);
    lemma_lower_sep(e, '\n', core);
    lemma_find_sep(e, '\n', lower_seq(d + nl + (e + nl + core)), o);
    lemma_find_sep(lower_seq(d), '\n', lower_seq(e + nl + core), o);
    lemma_find_sep(e, '\n', lower_seq(core), o);
    let lcore = lower_seq(core);
    assert(lcore.subrange(0, 9) =~= o) by {
        assert forall|k: int| 0 <= k < 9 implies lcore.subrange(0, 9)[k] == o[k] by {
            assert(lcore[k] == lower_char(core[k]));
        }
    }
    lemma_find_at_start(lcore, o);
    assert(e + nl + (d + nl + (e + nl + core)) =~= stripped);
    let ds = x.len() as int;
    assert(find(lower_seq(stripped), o) == Some(ds));
    lemma_block_close(dd, e);
    assert(core + e =~= core);
    lemma_lower_concat(x, core);
    lemma_find_from_concat_skip(lower_seq(x), lcore, c, 0);
    let eb = 46 + dd.len() as int;
    assert(find_from(lower_seq(stripped), c, ds) == Some(ds + eb));
    assert(block_range(stripped) == Some((ds, ds + eb + 10)));
    lemma_block_content(dd);
    assert(stripped.subrange(ds, ds + eb + 10) =~= core);
    assert(spec_strip_desired_block(stripped) =~= x);
}

/// Rendering details and desired details, then parsing, gives the details
/// back trimmed, when the details are not blank and neither text holds
/// `"\r\n"`, a final `'\r'` or a metadata comment line, the details hold no
/// `<details>` tag and the desired details no `</details>` tag.
pub proof fn lemma_render_parse_details_with_desired(id: u128, d: Seq<char>, dd: Seq<char>)
    requires
        uuid_text_readable(id),
        no_crlf(d + seq!['\n']),
        no_crlf(dd + seq!['\n']),
        no_metadata_lines(d),
        no_metadata_lines(dd),
        !contains(lower_seq(d), details_open()),
        !contains(lower_seq(dd), details_close()),
        trim(d).len() > 0,
    ensures
        spec_details(spec_render(id, Some(d), Some(dd))) == Some(trim(d)),
{
    lemma_uuid_text_shape(id);
    reveal_strlit("<!-- manifest:feature -->");
    reveal_strlit("<!-- manifest:id:");
    reveal_strlit(" -->");
    reveal_strlit("\n");
    reveal_strlit("<details>");
    reveal_strlit("</details>");
    reveal_strlit("<summary>Desired state</summary>");
    reveal_strlit("\n<details>\n<summary>Desired state</summary>\n\n");
    reveal_strlit("\n\n</details>\n");
    let s = spec_render(id, Some(d), Some(dd));
    lemma_render_lines(id, Some(d), Some(dd));
    let nl = seq!['\n'];
    let a = s.skip(84);
    let core = desired_block(dd).take(56 + dd.len() as int);
    assert(a =~= rendered_tail(d, dd));
    lemma_rendered_tail_clean(d, dd);
    lemma_rendered_tail_kept(d, dd);
    let ls = lines_from(a, 0);
    lemma_kept_lines_append(Seq::<Seq<char>>::empty(), ls);
    assert(Seq::<Seq<char>>::empty() + ls =~= ls);
    assert(kept_lines(Seq::<Seq<char>>::empty()) =~= Seq::<Seq<char>>::empty());
    lemma_join_lines(a, 0);
    let x = nl + d + nl + nl;
    assert(spec_strip_metadata(s) =~= x + core);
    lemma_strip_trailing_block(d, dd);
    assert(all_ws(nl));
    assert(all_ws(nl + nl));
    lemma_trim_padded(nl, d, nl + nl);
    assert(nl + d + (nl + nl) =~= x);
}

// ------------------------------------------------------------------
// Implementation
// ------------------------------------------------------------------

/// Parses a GitHub issue body and extracts Manifest metadata.
pub fn parse_issue_body(body: &str) -> (meta: IssueMetadata)
    ensures
        meta.is_manifest_issue == contains(body@, feature_marker()),
        meta.manifest_id == (match first_manifest_id(lines(body@)) {
            Some(v) => Some(FeatureId(v)),
            None => None,
        }),
        opt_view(meta.desired_details) == spec_desired_details(body@),
        opt_view(meta.details) == spec_details(body@),
        opt_view(meta.details_summary) == (match spec_details(body@) {
            Some(d) => spec_summary(d),
            None => None,
        }),
{
    let b = chars_of(body);
    let marker = chars_of("<!-- manifest:feature -->");
    let is_manifest_issue = contains_exec(&b, &marker);
    let manifest_id = extract_manifest_id(&b);
    let desired_details = extract_desired_details(&b);
    let stripped = strip_metadata(&b);
    let stripped = strip_desired_details_block(&stripped);
    let trimmed = trim_exec(&stripped);
    let mut details: Option<String> = None;
    let mut details_summary: Option<String> = None;
    if trimmed.len() > 0 {
        details = Some(string_of(&trimmed));
        details_summary = extract_summary(&trimmed);
    }
    IssueMetadata { manifest_id, is_manifest_issue, details, desired_details, details_summary }
}

/// The UUID of `<!-- manifest:id:UUID -->` on one line.
fn line_id(line: &[char]) -> (r: Option<u128>)
    ensures
        r == line_manifest_id(line@),
{
    let t = trim_exec(line);
    let prefix = chars_of("<!-- manifest:id:");
    if !starts_with_exec(&t, &prefix) {
        return None;
    }
    let rest = slice_vec(&t, prefix.len(), t.len());
    assert(rest@ =~= t@.skip(prefix@.len() as int));
    let end = chars_of(" -->");
    if !ends_with_exec(&rest, &end) {
        return None;
    }
    let u = slice_vec(&rest, 0, rest.len() - end.len());
    assert(u@ =~= rest@.take(rest@.len() - end@.len()));
    let ut = trim_exec(&u);
    let s = string_of(&ut);
    crate::uuid_support::parse_uuid(s.as_str())
}

/// Extracts the UUID from the first `<!-- manifest:id:UUID -->` line.
fn extract_manifest_id(body: &[char]) -> (r: Option<FeatureId>)
    ensures
        r == (match first_manifest_id(lines(body@)) {
            Some(v) => Some(FeatureId(v)),
            None => None,
        }),
{
    let mut pos: usize = 0;
    while pos < body.len()
        invariant
            pos <= body@.len(),
            first_manifest_id(lines(body@)) == first_manifest_id(lines_from(body@, pos as int)),
        decreases body@.len() - pos,
    {
        let (line, next) = next_line(body, pos);
        let ghost rest = lines_from(body@, next as int);
        assert((seq![line@] + rest).drop_first() =~= rest);
        assert((seq![line@] + rest)[0] == line@);
        match line_id(&line) {
            Some(v) => {
                return Some(FeatureId(v));
            },
            None => {},
        }
        pos = next;
    }
    None
}

/// In the text below a `</details>` found case-insensitively at its end, a
/// `</summary>` cannot overlap that closing tag.
proof fn lemma_summary_before_close(block: Seq<char>, cs: int)
    requires
        block.len() >= 10,
        lower_seq(block).subrange(block.len() - 10, block.len() as int) == details_close(),
        matches_at(block, summary_close(), cs),
    ensures
        cs + 10 <= block.len() - 10,
{
    reveal_strlit("</details>");
    reveal_strlit("</summary>");
    let n: int = block.len() as int;
    if cs + 20 > n {
        let t = cs + 9 - (n - 10);
        assert(0 <= t < 10);
        assert(block.subrange(cs, cs + 10)[9] == block[cs + 9]);
        assert(block[cs + 9] == '>');
        assert(lower_seq(block).subrange(n - 10, n)[t] == lower_seq(block)[n - 10 + t]);
        assert(lower_seq(block)[n - 10 + t] == lower_char('>'));
        assert(details_close()[t] == '>');
        assert(t == 9);
        assert(block.subrange(cs, cs + 10)[2] == block[cs + 2]);
        assert(block[cs + 2] == 's');
        assert(lower_seq(block).subrange(n - 10, n)[2] == lower_seq(block)[n - 8]);
        assert(lower_seq(block)[n - 8] == lower_char('s'));
        assert(false);
    }
}

/// The range of the first `<details>` ... `</details>` block.
fn find_block(s: &[char]) -> (r: Option<(usize, usize)>)
    ensures
        match r {
            Some(p) => block_range(s@) == Some((p.0 as int, p.1 as int)) && p.0 <= p.1
                <= s@.len() && p.1 >= p.0 + 10 && lower_seq(s@).subrange(p.1 - 10, p.1 as int)
                == details_close(),
            None => block_range(s@) is None,
        },
{
    let lower = lower_all(s);
    let open = chars_of("<details>");
    let close = chars_of("</details>");
    proof {
        reveal_strlit("<details>");
        reveal_strlit("</details>");
    }
    match find_from_exec(&lower, &open, 0) {
        None => None,
        Some(ds) => {
            match find_from_exec(&lower, &close, ds) {
                None => None,
                Some(e) => {
                    let _n = lower.len();
                    proof {
                        lemma_find_from_bounds(lower@, close@, ds as int);
                        assert(close@.len() == 10);
                        assert(e + close@.len() <= lower@.len());
                    }
                    Some((ds, e + 10))
                },
            }
        },
    }
}

/// Extracts the content of the `<details>` block titled "Desired state".
fn extract_desired_details(body: &[char]) -> (r: Option<String>)
    ensures
        opt_view(r) == spec_desired_details(body@),
{
    let (a, b) = match find_block(body) {
        Some(p) => p,
        None => return None,
    };
    let block = slice_vec(body, a, b);
    let lower_block = lower_all(&block);
    let title = chars_of("desired state");
    if !contains_exec(&lower_block, &title) {
        return None;
    }
    let sc = chars_of("</summary>");
    proof {
        reveal_strlit("</summary>");
        assert(lower_seq(block@) =~= lower_seq(body@).subrange(a as int, b as int));
        assert(lower_seq(block@).subrange(block@.len() - 10, block@.len() as int)
            =~= lower_seq(body@).subrange(b - 10, b as int));
    }
    let cs = match find_from_exec(&block, &sc, 0) {
        Some(cs) => cs,
        None => return None,
    };
    proof {
        lemma_find_from_bounds(block@, sc@, 0);
        lemma_summary_before_close(block@, cs as int);
    }
    let content = slice_vec(&block, cs + 10, block.len() - 10);
    let t = trim_exec(&content);
    if t.len() == 0 {
        None
    } else {
        Some(string_of(&t))
    }
}

/// Whether a line survives the removal of metadata comments.
fn keep_line_exec(line: &[char]) -> (r: bool)
    ensures
        r == keep_line(line@),
{
    let t = trim_exec(line);
    let p = chars_of("<!-- manifest:");
    let e = chars_of(" -->");
    !(starts_with_exec(&t, &p) && ends_with_exec(&t, &e))
}

/// Removes the Manifest metadata comment lines from the body.
fn strip_metadata(body: &[char]) -> (r: Vec<char>)
    ensures
        r@ == spec_strip_metadata(body@),
{
    let mut out: Vec<char> = Vec::new();
    let ghost mut done: Seq<Seq<char>> = seq![];
    let mut kept: usize = 0;
    let mut pos: usize = 0;
    assert(lines(body@) =~= done + lines_from(body@, 0));
    while pos < body.len()
        invariant
            pos <= body@.len(),
            lines(body@) == done + lines_from(body@, pos as int),
            kept == kept_lines(done).len(),
            kept <= pos,
            out@ == join(kept_lines(done), seq!['\n']),
        decreases body@.len() - pos,
    {
        let (line, next) = next_line(body, pos);
        let ghost rest = lines_from(body@, next as int);
        proof {
            assert(done + lines_from(body@, pos as int) =~= done.push(line@) + rest);
            assert(done.push(line@).drop_last() =~= done);
        }
        if keep_line_exec(&line) {
            if kept > 0 {
                out.push('\n');
            }
            append_chars(&mut out, &line);
            proof {
                let k = kept_lines(done);
                assert(kept_lines(done.push(line@)) == k.push(line@));
                assert(k.push(line@).drop_last() =~= k);
                if k.len() > 0 {
                    assert(join(k.push(line@), seq!['\n']) == join(k, seq!['\n']) + seq!['\n']
                        + line@);
                } else {
                    assert(join(k.push(line@), seq!['\n']) == line@);
                }
            }
            kept = kept + 1;
        }
        proof {
            done = done.push(line@);
        }
        pos = next;
    }
    assert(lines_from(body@, body@.len() as int) =~= Seq::<Seq<char>>::empty());
    assert(done + Seq::<Seq<char>>::empty() =~= done);
    out
}

/// Removes the desired-state `<details>` block, if present.
fn strip_desired_details_block(s: &[char]) -> (r: Vec<char>)
    ensures
        r@ == spec_strip_desired_block(s@),
{
    let (a, b) = match find_block(s) {
        Some(p) => p,
        None => return slice_vec(s, 0, s.len()),
    };
    let block = slice_vec(s, a, b);
    let lower_block = lower_all(&block);
    let title = chars_of("desired state");
    if !contains_exec(&lower_block, &title) {
        return slice_vec(s, 0, s.len());
    }
    let head = slice_vec(s, 0, a);
    let tail = slice_vec(s, b, s.len());
    assert(head@ =~= s@.take(a as int));
    assert(tail@ =~= s@.skip(b as int));
    concat(&head, &tail)
}

/// The trimmed text before the first `\n---\n` separator, unless blank.
fn extract_summary(details: &[char]) -> (r: Option<String>)
    ensures
        opt_view(r) == spec_summary(details@),
{
    let sep = chars_of("\n---\n");
    match find_from_exec(details, &sep, 0) {
        Some(k) => {
            proof {
                lemma_find_from_bounds(details@, sep@, 0);
            }
            let before = slice_vec(details, 0, k);
            assert(before@ =~= details@.take(k as int));
            let t = trim_exec(&before);
            if t.len() == 0 {
                None
            } else {
                Some(string_of(&t))
            }
        },
        None => None,
    }
}

/// Renders an issue body from feature data, in the format that
/// `parse_issue_body` reads back.
pub fn render_issue_body(manifest_id: &FeatureId, details: Option<&str>, desired_details: Option<
    &str,
>) -> (r: String)
    ensures
        r@ == spec_render(manifest_id.0, opt_str_view(details), opt_str_view(desired_details)),
        uuid_text_readable(manifest_id.0),
{
    let mut body: Vec<char> = Vec::new();
    append_str(&mut body, "<!-- manifest:feature -->");
    append_str(&mut body, "\n");
    append_str(&mut body, "<!-- manifest:id:");
    let id_text = format_uuid(manifest_id.0);
    append_str(&mut body, id_text.as_str());
    append_str(&mut body, " -->");
    append_str(&mut body, "\n");
    append_str(&mut body, "\n");
    match details {
        Some(d) => {
            append_str(&mut body, d);
            append_str(&mut body, "\n");
        },
        None => {},
    }
    match desired_details {
        Some(dd) => {
            append_str(&mut body, "\n<details>\n<summary>Desired state</summary>\n\n");
            append_str(&mut body, dd);
            append_str(&mut body, "\n\n</details>\n");
        },
        None => {},
    }
    string_of(&body)
}

} // verus!
