//! Benchmark corpus text: output paths, configuration fallbacks, formula
//! templates, generated keys, and the normalization that makes generated
//! workbooks readable by every engine (style parts and formula text).

use vstd::prelude::*;
use crate::text::{
    dec, dec_chars, chars_of, owned, push_chars, push_str, string_of, str_eq, zero_pad,
    has_suffix, ends_with, contains, contains_seq, occurs_at, text_from_utf8, utf8_of,
};
use vstd::utf8::*;
use crate::parse::{first_occurrence, first_occurrence_from, find_in, lemma_first_occurrence_from};
use crate::load_envelope::{join, join_path};
use crate::parity::regex_compiles;

verus! {

/// Where a workbook path is written: as given when absolute, else under the
/// root.
pub open spec fn spec_resolve_output_path(root: Seq<char>, workbook_path: Seq<char>) -> Seq<char> {
    if workbook_path.len() > 0 && workbook_path[0] == '/' { workbook_path } else { join_path(root, workbook_path) }
}

/// Resolves a scenario's workbook path against the repository root.
pub fn resolve_output_path(root: &str, workbook_path: &str) -> (s: String)
    ensures
        s@ == spec_resolve_output_path(root@, workbook_path@),
{
    let p = chars_of(workbook_path);
    if p.len() > 0 && p[0] == '/' {
        string_of(&p)
    } else {
        join(root, &p)
    }
}

/// A numeric configuration value: the one found when it fits in 32 bits,
/// else the default.
pub fn cfg_u32(found: Option<u64>, default: u32) -> (v: u32)
    ensures
        v == (match found { Some(n) => if n <= u32::MAX { n as u32 } else { default }, None => default }),
{
    match found {
        Some(n) => if n <= u32::MAX as u64 { n as u32 } else { default },
        None => default,
    }
}

/// A text configuration value: the one found, else the default.
pub fn cfg_str(found: Option<&str>, default: &str) -> (s: String)
    ensures
        s@ == (match found { Some(t) => t@, None => default@ }),
{
    match found {
        Some(t) => owned(t),
        None => owned(default),
    }
}

/// `s` with every non-overlapping occurrence of `p`, scanned from the left,
/// replaced by `r` (for a nonempty `p`), as `str::replace` does.
pub open spec fn replace_all(s: Seq<char>, p: Seq<char>, r: Seq<char>) -> Seq<char>
    decreases s.len(),
{
    if p.len() == 0 || s.len() < p.len() {
        s
    } else if s.subrange(0, p.len() as int) == p {
        r + replace_all(s.subrange(p.len() as int, s.len() as int), p, r)
    } else {
        seq![s[0]] + replace_all(s.drop_first(), p, r)
    }
}

/// Replaces every occurrence of a nonempty pattern.
pub fn replace(s: &str, p: &str, r: &str) -> (out: String)
    requires
        p@.len() > 0,
    ensures
        out@ == replace_all(s@, p@, r@),
{
    let x = chars_of(s);
    let pv = chars_of(p);
    let rv = chars_of(r);
    let n = x.len();
    let mut out: Vec<char> = Vec::new();
    let mut i: usize = 0;
    proof {
        assert(x@.subrange(0, n as int) =~= x@);
        assert(out@ + replace_all(x@, p@, r@) =~= replace_all(x@, p@, r@));
    }
    while i < n
        invariant
            0 <= i <= n,
            n == x@.len(),
            x@ == s@,
            pv@ == p@,
            rv@ == r@,
            p@.len() > 0,
            out@ + replace_all(x@.subrange(i as int, n as int), p@, r@) == replace_all(x@, p@, r@),
        decreases n - i,
    {
        let ghost rest = x@.subrange(i as int, n as int);
        if pv.len() <= n - i {
            let k = find_in(&x, i, i + pv.len(), &pv);
            proof {
                assert(x@.subrange(i as int, i + pv@.len()) == rest.subrange(0, pv@.len() as int));
            }
            if k.is_some() {
                proof {
                    lemma_first_occurrence_from(x@.subrange(i as int, i + pv@.len()), pv@, 0);
                    assert(occurs_at(x@.subrange(i as int, i + pv@.len()), pv@, 0));
                    assert(x@.subrange(i as int, i + pv@.len()).subrange(0, pv@.len() as int) =~= rest.subrange(0, pv@.len() as int));
                    assert(rest.subrange(pv@.len() as int, rest.len() as int) =~= x@.subrange(i + pv@.len(), n as int));
                    assert(out@ + rv@ + replace_all(x@.subrange(i + pv@.len(), n as int), p@, r@) =~= out@ + replace_all(rest, p@, r@));
                }
                push_chars(&mut out, &rv);
                i = i + pv.len();
            } else {
                proof {
                    let piece = x@.subrange(i as int, i + pv@.len());
                    if piece =~= pv@ {
                        assert(piece.subrange(0, pv@.len() as int) =~= pv@);
                        assert(occurs_at(piece, pv@, 0));
                        assert(first_occurrence(piece, pv@) == Some(0int));
                    }
                    assert(rest.drop_first() =~= x@.subrange(i + 1, n as int));
                    assert(out@.push(x@[i as int]) + replace_all(x@.subrange(i + 1, n as int), p@, r@) =~= out@ + replace_all(rest, p@, r@));
                }
                out.push(x[i]);
                i = i + 1;
            }
        } else {
            proof {
                assert(replace_all(rest, p@, r@) == rest);
                assert(out@ + rest =~= out@.push(x@[i as int]) + x@.subrange(i + 1, n as int));
                assert(replace_all(x@.subrange(i + 1, n as int), p@, r@) == x@.subrange(i + 1, n as int));
            }
            out.push(x[i]);
            i = i + 1;
        }
    }
    proof {
        assert(x@.subrange(n as int, n as int) =~= Seq::<char>::empty());
        assert(out@ + Seq::<char>::empty() =~= out@);
    }
    string_of(&out)
}

/// A formula template with `{row}` filled in, then `{fact_last_row}` when a
/// value is given for it.
pub open spec fn spec_render_formula_template(template: Seq<char>, row: nat, fact_last_row: Option<nat>) -> Seq<char> {
    let filled = replace_all(template, "{row}"@, dec(row));
    match fact_last_row {
        Some(f) => replace_all(filled, "{fact_last_row}"@, dec(f)),
        None => filled,
    }
}

/// Fills a formula template for one row.
pub fn render_formula_template(template: &str, row: u32, fact_last_row: Option<u32>) -> (s: String)
    ensures
        s@ == spec_render_formula_template(template@, row as nat, match fact_last_row { Some(f) => Some(f as nat), None => None }),
{
    proof {
        reveal_strlit("{row}");
        reveal_strlit("{fact_last_row}");
    }
    let row_text = string_of(&dec_chars(row as u64));
    let filled = replace(template, "{row}", row_text.as_str());
    match fact_last_row {
        Some(f) => {
            let f_text = string_of(&dec_chars(f as u64));
            replace(filled.as_str(), "{fact_last_row}", f_text.as_str())
        },
        None => filled,
    }
}

/// Decimal numeral of `n` padded on the left with zeros to `width`.
pub fn zero_padded(n: u32, width: usize) -> (v: Vec<char>)
    requires
        width <= 16,
    ensures
        v@ == zero_pad(n as nat, width as nat),
{
    let d = dec_chars(n as u64);
    if d.len() >= width {
        d
    } else {
        let pad = width - d.len();
        let mut v: Vec<char> = Vec::new();
        let mut i: usize = 0;
        while i < pad
            invariant
                0 <= i <= pad,
                v@ == Seq::new(i as nat, |k: int| '0'),
            decreases pad - i,
        {
            v.push('0');
            i = i + 1;
            assert(v@ =~= Seq::new(i as nat, |k: int| '0'));
        }
        push_chars(&mut v, &d);
        v
    }
}

/// Lookup key: the prefix and the index zero-padded to six digits.
pub fn lookup_key(prefix: &str, index: u32) -> (s: String)
    ensures
        s@ == prefix@ + zero_pad(index as nat, 6),
{
    let mut v = chars_of(prefix);
    push_chars(&mut v, &zero_padded(index, 6));
    string_of(&v)
}

/// Fact id: `F` and the index zero-padded to six digits.
pub fn fact_id(index: u32) -> (s: String)
    ensures
        s@ == "F"@ + zero_pad(index as nat, 6),
{
    let mut v = chars_of("F");
    push_chars(&mut v, &zero_padded(index, 6));
    string_of(&v)
}

/// Value of dense lookup row `index`: `7 index + index mod 13`.
pub fn dense_lookup_value(index: u32) -> (v: u32)
    requires
        index * 7 + index % 13 <= u32::MAX,
    ensures
        v == index * 7 + index % 13,
{
    index * 7 + index % 13
}

/// Checksum of dense lookup row `index`: `11 index + index mod 17`.
pub fn dense_lookup_checksum(index: u32) -> (v: u32)
    requires
        index * 11 + index % 17 <= u32::MAX,
    ensures
        v == index * 11 + index % 17,
{
    index * 11 + index % 17
}

/// Why a style part could not be normalized.
#[derive(Clone, Copy, Debug, PartialEq, Eq, Structural)]
pub enum StylesError {
    /// There is no `<styleSheet` root.
    MissingStyleSheet,
    /// The `<styleSheet` open tag has no `>`.
    MalformedStyleSheetOpen,
    /// Neither the marker nor `</styleSheet>` occurs.
    MissingMarkerAndEnd,
}

/// `s` with `t` inserted at position `k`.
pub open spec fn insert_at(s: Seq<char>, k: int, t: Seq<char>) -> Seq<char> {
    s.subrange(0, k) + t + s.subrange(k, s.len() as int)
}

/// Position just after the `>` closing the first `<styleSheet` open tag.
pub open spec fn stylesheet_open_end(s: Seq<char>) -> Result<int, StylesError> {
    match first_occurrence(s, "<styleSheet"@) {
        None => Err(StylesError::MissingStyleSheet),
        Some(open) => match first_occurrence(s.subrange(open, s.len() as int), ">"@) {
            None => Err(StylesError::MalformedStyleSheetOpen),
            Some(gt) => Ok(open + gt + 1),
        },
    }
}

pub open spec fn spec_insert_after_stylesheet_open(s: Seq<char>, snippet: Seq<char>) -> Result<Seq<char>, StylesError> {
    match stylesheet_open_end(s) {
        Ok(k) => Ok(insert_at(s, k, snippet)),
        Err(e) => Err(e),
    }
}

pub open spec fn spec_insert_before_marker_or_end(s: Seq<char>, marker: Seq<char>, snippet: Seq<char>) -> Result<Seq<char>, StylesError> {
    match first_occurrence(s, marker) {
        Some(pos) => Ok(insert_at(s, pos, snippet)),
        None => match first_occurrence(s, "</styleSheet>"@) {
            Some(end) => Ok(insert_at(s, end, snippet)),
            None => Err(StylesError::MissingMarkerAndEnd),
        },
    }
}

pub open spec fn spec_insert_after_marker_or_open(s: Seq<char>, marker: Seq<char>, snippet: Seq<char>) -> Result<Seq<char>, StylesError> {
    match first_occurrence(s, marker) {
        Some(pos) => Ok(insert_at(s, pos + marker.len(), snippet)),
        None => spec_insert_after_stylesheet_open(s, snippet),
    }
}

/// First occurrence of `t` in `x`.
fn find_all(x: &Vec<char>, t: &str) -> (r: Option<usize>)
    ensures
        match r {
            Some(k) => first_occurrence(x@, t@) == Some(k as int) && k + t@.len() <= x@.len(),
            None => first_occurrence(x@, t@) is None,
        },
{
    let tv = chars_of(t);
    let r = find_in(x, 0, x.len(), &tv);
    assert(x@.subrange(0, x@.len() as int) =~= x@);
    r
}

fn insert_chars(x: &Vec<char>, k: usize, t: &str) -> (v: Vec<char>)
    requires
        k <= x@.len(),
    ensures
        v@ == insert_at(x@, k as int, t@),
{
    let mut v: Vec<char> = Vec::new();
    let mut i: usize = 0;
    while i < k
        invariant
            0 <= i <= k <= x@.len(),
            v@ == x@.subrange(0, i as int),
        decreases k - i,
    {
        v.push(x[i]);
        i = i + 1;
        assert(v@ =~= x@.subrange(0, i as int));
    }
    push_str(&mut v, t);
    let mut j: usize = k;
    while j < x.len()
        invariant
            k <= j <= x@.len(),
            v@ == x@.subrange(0, k as int) + t@ + x@.subrange(k as int, j as int),
        decreases x.len() - j,
    {
        v.push(x[j]);
        j = j + 1;
        assert(v@ =~= x@.subrange(0, k as int) + t@ + x@.subrange(k as int, j as int));
    }
    v
}

/// Inserts `snippet` right after the `<styleSheet ...>` open tag.
fn insert_after_stylesheet_open_chars(xml: &mut Vec<char>, snippet: &str) -> (r: Result<(), StylesError>)
    ensures
        match spec_insert_after_stylesheet_open(old(xml)@, snippet@) {
            Ok(s) => r is Ok && final(xml)@ == s,
            Err(e) => r == Err::<(), StylesError>(e) && final(xml)@ == old(xml)@,
        },
{
    let open = match find_all(xml, "<styleSheet") {
        Some(o) => o,
        None => return Err(StylesError::MissingStyleSheet),
    };
    let gt_text = chars_of(">");
    proof {
        reveal_strlit(">");
    }
    let gt = find_in(xml, open, xml.len(), &gt_text);
    match gt {
        None => Err(StylesError::MalformedStyleSheetOpen),
        Some(g) => {
            let v = insert_chars(xml, g + 1, snippet);
            *xml = v;
            Ok(())
        },
    }
}

/// Inserts `snippet` before the first `marker`, else before
/// `</styleSheet>`.
fn insert_before_marker_or_stylesheet_end_chars(xml: &mut Vec<char>, marker: &str, snippet: &str) -> (r: Result<(), StylesError>)
    ensures
        match spec_insert_before_marker_or_end(old(xml)@, marker@, snippet@) {
            Ok(s) => r is Ok && final(xml)@ == s,
            Err(e) => r == Err::<(), StylesError>(e) && final(xml)@ == old(xml)@,
        },
{
    if let Some(pos) = find_all(xml, marker) {
        let v = insert_chars(xml, pos, snippet);
        *xml = v;
        return Ok(());
    }
    if let Some(end) = find_all(xml, "</styleSheet>") {
        let v = insert_chars(xml, end, snippet);
        *xml = v;
        return Ok(());
    }
    Err(StylesError::MissingMarkerAndEnd)
}

/// Inserts `snippet` right after the first `marker`, else right after the
/// `<styleSheet ...>` open tag.
fn insert_after_marker_or_stylesheet_open_chars(xml: &mut Vec<char>, marker: &str, snippet: &str) -> (r: Result<(), StylesError>)
    ensures
        match spec_insert_after_marker_or_open(old(xml)@, marker@, snippet@) {
            Ok(s) => r is Ok && final(xml)@ == s,
            Err(e) => r == Err::<(), StylesError>(e) && final(xml)@ == old(xml)@,
        },
{
    let found = find_all(xml, marker);
    if let Some(pos) = found {
        let mv = chars_of(marker);
        let mlen = mv.len();
        assert(mlen == marker@.len());
        let n = xml.len();
        assert(pos + marker@.len() <= n);
        let at: usize = pos + mlen;
        let v = insert_chars(xml, at, snippet);
        *xml = v;
        return Ok(());
    }
    insert_after_stylesheet_open_chars(xml, snippet)
}

pub open spec fn num_fmts_snippet() -> Seq<char> {
    "<numFmts count=\"0\"/>"@
}

pub open spec fn cell_style_xfs_snippet() -> Seq<char> {
    "<cellStyleXfs count=\"1\"><xf numFmtId=\"0\" fontId=\"0\" fillId=\"0\" borderId=\"0\"/></cellStyleXfs>"@
}

pub open spec fn cell_styles_snippet() -> Seq<char> {
    "<cellStyles count=\"1\"><cellStyle name=\"Normal\" xfId=\"0\" builtinId=\"0\"/></cellStyles>"@
}

/// Adds a missing `<numFmts>` after the root open tag.
pub open spec fn step_num_fmts(s: Seq<char>) -> Result<Seq<char>, StylesError> {
    if contains_seq(s, "<numFmts"@) { Ok(s) } else { spec_insert_after_stylesheet_open(s, num_fmts_snippet()) }
}

/// Adds a missing `<cellStyleXfs>` before `<cellXfs` (or the root's end).
pub open spec fn step_cell_style_xfs(s: Seq<char>) -> Result<Seq<char>, StylesError> {
    if contains_seq(s, "<cellStyleXfs"@) { Ok(s) } else { spec_insert_before_marker_or_end(s, "<cellXfs"@, cell_style_xfs_snippet()) }
}

/// Adds a missing `<cellStyles>` after `</cellXfs>` (or the root's open tag).
pub open spec fn step_cell_styles(s: Seq<char>) -> Result<Seq<char>, StylesError> {
    if contains_seq(s, "<cellStyles"@) { Ok(s) } else { spec_insert_after_marker_or_open(s, "</cellXfs>"@, cell_styles_snippet()) }
}

/// The three steps in order, stopping at the first refusal.
pub open spec fn spec_normalize_styles(s: Seq<char>) -> Result<Seq<char>, StylesError> {
    match step_num_fmts(s) {
        Err(e) => Err(e),
        Ok(a) => match step_cell_style_xfs(a) {
            Err(e) => Err(e),
            Ok(b) => step_cell_styles(b),
        },
    }
}

/// A tag-name marker such as `<numFmts`: an opening `<`, then no `<` and no
/// `>`.
pub open spec fn tag_marker(m: Seq<char>) -> bool {
    &&& m.len() >= 1
    &&& m[0] == '<'
    &&& forall|j: int| 0 <= j < m.len() ==> #[trigger] m[j] != '>' && (j >= 1 ==> m[j] != '<')
}

/// A position between tags: the ends, before a `<` or after a `>`.
pub open spec fn tag_boundary(s: Seq<char>, k: int) -> bool {
    &&& 0 <= k <= s.len()
    &&& (k == 0 || k == s.len() || s[k] == '<' || s[k - 1] == '>')
}

proof fn lemma_insert_keeps(s: Seq<char>, k: int, t: Seq<char>, m: Seq<char>)
    requires
        tag_marker(m),
        tag_boundary(s, k),
        contains_seq(s, m),
    ensures
        contains_seq(insert_at(s, k, t), m),
{
    let r = insert_at(s, k, t);
    let i = choose|i: int| occurs_at(s, m, i);
    assert(s.subrange(i, i + m.len()) == m);
    if i + m.len() <= k {
        assert(r.subrange(i, i + m.len()) =~= m) by {
            assert forall|j: int| 0 <= j < m.len() implies r.subrange(i, i + m.len())[j] == m[j] by {
                assert(r[i + j] == s[i + j]);
                assert(s.subrange(i, i + m.len())[j] == s[i + j]);
            }
        }
        assert(occurs_at(r, m, i));
    } else if i >= k {
        let i2 = i + t.len();
        assert(r.subrange(i2, i2 + m.len()) =~= m) by {
            assert forall|j: int| 0 <= j < m.len() implies r.subrange(i2, i2 + m.len())[j] == m[j] by {
                assert(r[i2 + j] == s[i + j]);
                assert(s.subrange(i, i + m.len())[j] == s[i + j]);
            }
        }
        assert(occurs_at(r, m, i2));
    } else {
        assert(s.subrange(i, i + m.len())[k - i] == s[k]);
        assert(s.subrange(i, i + m.len())[k - 1 - i] == s[k - 1]);
        assert(m[k - i] != '<');
        assert(m[k - 1 - i] != '>');
        assert(false);
    }
}

proof fn lemma_insert_adds(s: Seq<char>, k: int, t: Seq<char>, m: Seq<char>)
    requires
        0 <= k <= s.len(),
        contains_seq(t, m),
    ensures
        contains_seq(insert_at(s, k, t), m),
{
    let r = insert_at(s, k, t);
    let i = choose|i: int| occurs_at(t, m, i);
    assert(t.subrange(i, i + m.len()) == m);
    assert(r.subrange(k + i, k + i + m.len()) =~= m) by {
        assert forall|j: int| 0 <= j < m.len() implies r.subrange(k + i, k + i + m.len())[j] == m[j] by {
            assert(r[k + i + j] == t[i + j]);
            assert(t.subrange(i, i + m.len())[j] == t[i + j]);
        }
    }
    assert(occurs_at(r, m, k + i));
}

proof fn lemma_open_end_boundary(s: Seq<char>)
    requires
        stylesheet_open_end(s) is Ok,
    ensures
        tag_boundary(s, stylesheet_open_end(s)->Ok_0),
{
    let open = first_occurrence(s, "<styleSheet"@)->Some_0;
    lemma_first_occurrence_from(s, "<styleSheet"@, 0);
    let sub = s.subrange(open, s.len() as int);
    let gt = first_occurrence(sub, ">"@)->Some_0;
    lemma_first_occurrence_from(sub, ">"@, 0);
    reveal_strlit(">");
    assert(sub.subrange(gt, gt + 1) == ">"@);
    assert(sub.subrange(gt, gt + 1)[0] == sub[gt]);
    assert(sub[gt] == s[open + gt]);
}

proof fn lemma_occurrence_boundary(s: Seq<char>, t: Seq<char>)
    requires
        first_occurrence(s, t) is Some,
        t.len() >= 1,
        t[0] == '<',
    ensures
        tag_boundary(s, first_occurrence(s, t)->Some_0),
{
    let p = first_occurrence(s, t)->Some_0;
    lemma_first_occurrence_from(s, t, 0);
    assert(s.subrange(p, p + t.len())[0] == s[p]);
}

proof fn lemma_occurrence_end_boundary(s: Seq<char>, t: Seq<char>)
    requires
        first_occurrence(s, t) is Some,
        t.len() >= 1,
        t.last() == '>',
    ensures
        tag_boundary(s, first_occurrence(s, t)->Some_0 + t.len()),
{
    let p = first_occurrence(s, t)->Some_0;
    lemma_first_occurrence_from(s, t, 0);
    assert(s.subrange(p, p + t.len())[t.len() - 1] == s[p + t.len() - 1]);
}

/// What a successful insertion step did: put the snippet at a position
/// between tags.
proof fn lemma_step_at_boundary(s: Seq<char>, r: Seq<char>, which: nat)
    requires
        which == 0 ==> spec_insert_after_stylesheet_open(s, num_fmts_snippet()) == Ok::<Seq<char>, StylesError>(r),
        which == 1 ==> spec_insert_before_marker_or_end(s, "<cellXfs"@, cell_style_xfs_snippet()) == Ok::<Seq<char>, StylesError>(r),
        which == 2 ==> spec_insert_after_marker_or_open(s, "</cellXfs>"@, cell_styles_snippet()) == Ok::<Seq<char>, StylesError>(r),
        which <= 2,
    ensures
        exists|k: int| tag_boundary(s, k) && r == insert_at(s, k, if which == 0 {
            num_fmts_snippet()
        } else if which == 1 {
            cell_style_xfs_snippet()
        } else {
            cell_styles_snippet()
        }),
{
    reveal_strlit("<cellXfs");
    reveal_strlit("</styleSheet>");
    reveal_strlit("</cellXfs>");
    if which == 0 {
        lemma_open_end_boundary(s);
        let k = stylesheet_open_end(s)->Ok_0;
        assert(tag_boundary(s, k) && r == insert_at(s, k, num_fmts_snippet()));
    } else if which == 1 {
        match first_occurrence(s, "<cellXfs"@) {
            Some(pos) => {
                lemma_occurrence_boundary(s, "<cellXfs"@);
                assert(tag_boundary(s, pos) && r == insert_at(s, pos, cell_style_xfs_snippet()));
            },
            None => {
                let end = first_occurrence(s, "</styleSheet>"@)->Some_0;
                lemma_occurrence_boundary(s, "</styleSheet>"@);
                assert(tag_boundary(s, end) && r == insert_at(s, end, cell_style_xfs_snippet()));
            },
        }
    } else {
        match first_occurrence(s, "</cellXfs>"@) {
            Some(pos) => {
                lemma_occurrence_end_boundary(s, "</cellXfs>"@);
                let k = pos + "</cellXfs>"@.len();
                assert(tag_boundary(s, k) && r == insert_at(s, k, cell_styles_snippet()));
            },
            None => {
                lemma_open_end_boundary(s);
                let k = stylesheet_open_end(s)->Ok_0;
                assert(tag_boundary(s, k) && r == insert_at(s, k, cell_styles_snippet()));
            },
        }
    }
}

proof fn lemma_markers() 
    ensures
        tag_marker("<numFmts"@),
        tag_marker("<cellStyleXfs"@),
        tag_marker("<cellStyles"@),
        contains_seq(num_fmts_snippet(), "<numFmts"@),
        contains_seq(cell_style_xfs_snippet(), "<cellStyleXfs"@),
        contains_seq(cell_styles_snippet(), "<cellStyles"@),
{
    reveal_strlit("<numFmts");
    reveal_strlit("<cellStyleXfs");
    reveal_strlit("<cellStyles");
    reveal_strlit("<numFmts count=\"0\"/>");
    reveal_strlit("<cellStyleXfs count=\"1\"><xf numFmtId=\"0\" fontId=\"0\" fillId=\"0\" borderId=\"0\"/></cellStyleXfs>");
    reveal_strlit("<cellStyles count=\"1\"><cellStyle name=\"Normal\" xfId=\"0\" builtinId=\"0\"/></cellStyles>");
    assert(num_fmts_snippet().subrange(0, 8) =~= "<numFmts"@);
    assert(occurs_at(num_fmts_snippet(), "<numFmts"@, 0));
    assert(cell_style_xfs_snippet().subrange(0, 13) =~= "<cellStyleXfs"@);
    assert(occurs_at(cell_style_xfs_snippet(), "<cellStyleXfs"@, 0));
    assert(cell_styles_snippet().subrange(0, 11) =~= "<cellStyles"@);
    assert(occurs_at(cell_styles_snippet(), "<cellStyles"@, 0));
}

/// After a successful normalization the number formats, the cell-style
/// formats and the cell styles are all present; a part that already had all
/// three comes back unchanged.
pub proof fn lemma_normalize_styles_complete(s: Seq<char>)
    requires
        spec_normalize_styles(s) is Ok,
    ensures
        contains_seq(spec_normalize_styles(s)->Ok_0, "<numFmts"@),
        contains_seq(spec_normalize_styles(s)->Ok_0, "<cellStyleXfs"@),
        contains_seq(spec_normalize_styles(s)->Ok_0, "<cellStyles"@),
        contains_seq(s, "<numFmts"@) && contains_seq(s, "<cellStyleXfs"@) && contains_seq(s, "<cellStyles"@)
            ==> spec_normalize_styles(s)->Ok_0 == s,
{
    lemma_markers();
    let nf = "<numFmts"@;
    let cx = "<cellStyleXfs"@;
    let cs = "<cellStyles"@;
    let a = step_num_fmts(s)->Ok_0;
    let b = step_cell_style_xfs(a)->Ok_0;
    let y = step_cell_styles(b)->Ok_0;
    // After the first step the number formats are there.
    if !contains_seq(s, nf) {
        lemma_step_at_boundary(s, a, 0);
        let k = choose|k: int| tag_boundary(s, k) && a == insert_at(s, k, num_fmts_snippet());
        lemma_insert_adds(s, k, num_fmts_snippet(), nf);
    }
    assert(contains_seq(a, nf));
    // The second step keeps them and adds the cell-style formats.
    if !contains_seq(a, cx) {
        lemma_step_at_boundary(a, b, 1);
        let k = choose|k: int| tag_boundary(a, k) && b == insert_at(a, k, cell_style_xfs_snippet());
        lemma_insert_adds(a, k, cell_style_xfs_snippet(), cx);
        lemma_insert_keeps(a, k, cell_style_xfs_snippet(), nf);
    }
    assert(contains_seq(b, nf));
    assert(contains_seq(b, cx));
    // The third keeps both and adds the cell styles.
    if !contains_seq(b, cs) {
        lemma_step_at_boundary(b, y, 2);
        let k = choose|k: int| tag_boundary(b, k) && y == insert_at(b, k, cell_styles_snippet());
        lemma_insert_adds(b, k, cell_styles_snippet(), cs);
        lemma_insert_keeps(b, k, cell_styles_snippet(), nf);
        lemma_insert_keeps(b, k, cell_styles_snippet(), cx);
    }
    assert(contains_seq(y, nf) && contains_seq(y, cx) && contains_seq(y, cs));
}

/// Normalizing a style part that normalization already accepted changes
/// nothing: every part it adds is there afterwards, so a second pass adds
/// none.
pub proof fn lemma_normalize_styles_idempotent(s: Seq<char>)
    requires
        spec_normalize_styles(s) is Ok,
    ensures
        spec_normalize_styles(spec_normalize_styles(s)->Ok_0) == spec_normalize_styles(s),
{
    lemma_normalize_styles_complete(s);
    let y = spec_normalize_styles(s)->Ok_0;
    assert(step_num_fmts(y) == Ok::<Seq<char>, StylesError>(y));
    assert(step_cell_style_xfs(y) == Ok::<Seq<char>, StylesError>(y));
    assert(step_cell_styles(y) == Ok::<Seq<char>, StylesError>(y));
}

/// The style text made complete: an empty number-format list, a default
/// cell-style format and the Normal cell style added where missing.
fn styles_text(xml: &str) -> (r: Result<String, StylesError>)
    ensures
        match spec_normalize_styles(xml@) {
            Ok(s) => r matches Ok(t) && t@ == s,
            Err(e) => r == Err::<String, StylesError>(e),
        },
{
    let mut v = chars_of(xml);
    if !contains(xml, "<numFmts") {
        if let Err(e) = insert_after_stylesheet_open_chars(&mut v, "<numFmts count=\"0\"/>") {
            return Err(e);
        }
    }
    let a = string_of(&v);
    if !contains(a.as_str(), "<cellStyleXfs") {
        if let Err(e) = insert_before_marker_or_stylesheet_end_chars(&mut v, "<cellXfs", "<cellStyleXfs count=\"1\"><xf numFmtId=\"0\" fontId=\"0\" fillId=\"0\" borderId=\"0\"/></cellStyleXfs>") {
            return Err(e);
        }
    }
    let b = string_of(&v);
    if !contains(b.as_str(), "<cellStyles") {
        if let Err(e) = insert_after_marker_or_stylesheet_open_chars(&mut v, "</cellXfs>", "<cellStyles count=\"1\"><cellStyle name=\"Normal\" xfId=\"0\" builtinId=\"0\"/></cellStyles>") {
            return Err(e);
        }
    }
    Ok(string_of(&v))
}


#[verifier::external_type_specification]
#[verifier::external_body]
pub struct ExRegexError(regex::Error);

/// The text `regex::Regex::new(pattern)` followed by `replace_all(text,
/// replacement)` gives, the replacement read with `$n` group references.
pub uninterp spec fn regex_replace_all(pattern: Seq<char>, text: Seq<char>, replacement: Seq<char>) -> Seq<char>;

/// Compiles `pattern` with `regex::Regex::new` and replaces every match in
/// `text` with `replacement`. Compiling succeeds or fails by the pattern
/// alone (the same `regex_compiles` that `Regex::new` is named by
/// elsewhere), and on success the result is the one named by
/// `regex_replace_all`; `replace_all` itself does not fail.
#[verifier::external_body]
fn replace_all_matches(pattern: &str, text: &str, replacement: &str) -> (r: Result<String, regex::Error>)
    ensures
        r.is_ok() == regex_compiles(pattern@),
        r matches Ok(s) ==> s@ == regex_replace_all(pattern@, text@, replacement@),
{
    let re = regex::Regex::new(pattern)?;
    Ok(re.replace_all(text, replacement).into_owned())
}

/// Pattern of an `<f ...>` open tag followed by `=`.
pub open spec fn formula_equals_pattern() -> Seq<char> {
    "(<f(?:\\s+[^>]*)?>)="@
}

/// Why a part of a generated workbook could not be normalized.
#[derive(Clone, Copy, Debug, PartialEq, Eq, Structural)]
pub enum NormalizeError {
    Styles(StylesError),
    /// The formula pattern did not compile.
    Pattern,
    /// The part is not UTF-8 text.
    NotUtf8,
}

/// Worksheet text with the `=` that opens each formula removed.
fn formulas_text(xml: &str) -> (r: Result<String, NormalizeError>)
    ensures
        r is Ok <==> regex_compiles(formula_equals_pattern()),
        r matches Ok(s) ==> s@ == regex_replace_all(formula_equals_pattern(), xml@, "$1"@),
        r matches Err(e) ==> e == NormalizeError::Pattern,
{
    match replace_all_matches("(<f(?:\\s+[^>]*)?>)=", xml, "$1") {
        Ok(s) => Ok(s),
        Err(_) => Err(NormalizeError::Pattern),
    }
}

/// Which normalization a part of the package gets.
pub open spec fn is_worksheet_part(name: Seq<char>) -> bool {
    name.len() >= "xl/worksheets/sheet"@.len() && name.subrange(0, "xl/worksheets/sheet"@.len() as int) == "xl/worksheets/sheet"@
        && has_suffix(name, ".xml"@)
}

pub(crate) fn starts_with(s: &str, prefix: &str) -> (r: bool)
    ensures
        r == (prefix@.len() <= s@.len() && s@.subrange(0, prefix@.len() as int) == prefix@),
{
    let x = chars_of(s);
    let p = chars_of(prefix);
    if p.len() > x.len() {
        return false;
    }
    let mut i: usize = 0;
    while i < p.len()
        invariant
            0 <= i <= p@.len() <= x@.len(),
            x@ == s@,
            p@ == prefix@,
            forall|j: int| 0 <= j < i ==> x@[j] == p@[j],
        decreases p.len() - i,
    {
        if x[i] != p[i] {
            assert(x@.subrange(0, p@.len() as int)[i as int] != p@[i as int]);
            return false;
        }
        i = i + 1;
    }
    assert(x@.subrange(0, p@.len() as int) =~= p@);
    true
}

/// Inserts `snippet` right after the `<styleSheet ...>` open tag.
pub fn insert_after_stylesheet_open(xml: &mut String, snippet: &str) -> (r: Result<(), StylesError>)
    ensures
        match spec_insert_after_stylesheet_open(old(xml)@, snippet@) {
            Ok(s) => r is Ok && final(xml)@ == s,
            Err(e) => r == Err::<(), StylesError>(e) && final(xml)@ == old(xml)@,
        },
{
    let mut v = chars_of(xml.as_str());
    let r = insert_after_stylesheet_open_chars(&mut v, snippet);
    if let Ok(()) = r {
        *xml = string_of(&v);
    }
    r
}

/// Inserts `snippet` before the first `marker`, else before
/// `</styleSheet>`.
pub fn insert_before_marker_or_stylesheet_end(xml: &mut String, marker: &str, snippet: &str) -> (r: Result<(), StylesError>)
    ensures
        match spec_insert_before_marker_or_end(old(xml)@, marker@, snippet@) {
            Ok(s) => r is Ok && final(xml)@ == s,
            Err(e) => r == Err::<(), StylesError>(e) && final(xml)@ == old(xml)@,
        },
{
    let mut v = chars_of(xml.as_str());
    let r = insert_before_marker_or_stylesheet_end_chars(&mut v, marker, snippet);
    if let Ok(()) = r {
        *xml = string_of(&v);
    }
    r
}

/// Inserts `snippet` right after the first `marker`, else right after the
/// `<styleSheet ...>` open tag.
pub fn insert_after_marker_or_stylesheet_open(xml: &mut String, marker: &str, snippet: &str) -> (r: Result<(), StylesError>)
    ensures
        match spec_insert_after_marker_or_open(old(xml)@, marker@, snippet@) {
            Ok(s) => r is Ok && final(xml)@ == s,
            Err(e) => r == Err::<(), StylesError>(e) && final(xml)@ == old(xml)@,
        },
{
    let mut v = chars_of(xml.as_str());
    let r = insert_after_marker_or_stylesheet_open_chars(&mut v, marker, snippet);
    if let Ok(()) = r {
        *xml = string_of(&v);
    }
    r
}

/// The style part's bytes after normalization: refused unless UTF-8, then
/// completed as `spec_normalize_styles` says and encoded again.
pub open spec fn spec_normalize_styles_bytes(b: Seq<u8>) -> Result<Seq<u8>, NormalizeError> {
    if !valid_utf8(b) {
        Err(NormalizeError::NotUtf8)
    } else {
        match spec_normalize_styles(decode_utf8(b)) {
            Ok(s) => Ok(encode_utf8(s)),
            Err(e) => Err(NormalizeError::Styles(e)),
        }
    }
}

/// A worksheet's bytes after normalization: refused unless UTF-8, then the
/// `=` opening each formula removed, and encoded again.
pub open spec fn spec_normalize_formulas_bytes(b: Seq<u8>) -> Result<Seq<u8>, NormalizeError> {
    if !valid_utf8(b) {
        Err(NormalizeError::NotUtf8)
    } else if !regex_compiles(formula_equals_pattern()) {
        Err(NormalizeError::Pattern)
    } else {
        Ok(encode_utf8(regex_replace_all(formula_equals_pattern(), decode_utf8(b), "$1"@)))
    }
}

/// Equality of a byte vector's result with a spec result.
pub open spec fn bytes_result(r: Result<Vec<u8>, NormalizeError>, s: Result<Seq<u8>, NormalizeError>) -> bool {
    match s {
        Ok(b) => r matches Ok(v) && v@ == b,
        Err(e) => r == Err::<Vec<u8>, NormalizeError>(e),
    }
}

/// Makes a style part complete enough for every engine: adds an empty
/// number-format list, a default cell-style format and the Normal cell
/// style where they are missing. The part must be UTF-8.
pub fn normalize_styles_xml(bytes: &[u8]) -> (r: Result<Vec<u8>, NormalizeError>)
    ensures
        bytes_result(r, spec_normalize_styles_bytes(bytes@)),
{
    let text = match text_from_utf8(vstd::slice::slice_to_vec(bytes)) {
        Some(t) => t,
        None => return Err(NormalizeError::NotUtf8),
    };
    match styles_text(text.as_str()) {
        Ok(s) => Ok(utf8_of(s.as_str())),
        Err(e) => Err(NormalizeError::Styles(e)),
    }
}

/// Worksheet XML with the `=` that opens each formula removed. The part
/// must be UTF-8.
pub fn normalize_worksheet_formulas_xml(bytes: &[u8]) -> (r: Result<Vec<u8>, NormalizeError>)
    ensures
        bytes_result(r, spec_normalize_formulas_bytes(bytes@)),
{
    let text = match text_from_utf8(vstd::slice::slice_to_vec(bytes)) {
        Some(t) => t,
        None => return Err(NormalizeError::NotUtf8),
    };
    match formulas_text(text.as_str()) {
        Ok(s) => Ok(utf8_of(s.as_str())),
        Err(e) => Err(e),
    }
}

} // verus!
