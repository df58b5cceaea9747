//! The edit-storm probe: a fan-in-32 roll-up tree of `SUM`s over K inputs
//! with a K-long chain off its root, the values the probe expects after an
//! edit storm, and the parsing of its options.

use vstd::prelude::*;
use crate::a1::{col_letter, col_letters};
use crate::parse::{spec_parse_u64, trim, trim_range, parse_u64_range};
use crate::plan::{CellView, PlannedCell, cells_view, flat, formula_cell, lemma_flat_next, push_formula};
use crate::text::{chars_of, dec, dec_chars, owned, push_chars, push_str, str_eq, string_of};

verus! {

/// Inputs per `SUM` of the roll-up tree.
pub const FAN_IN: usize = 32;

/// `ceil(n / 32)`: sums on the next tree level.
pub open spec fn next_level_count(n: nat) -> nat {
    (n + 31) / 32
}

/// Sum `j` of the level read from column `src`: rows `32 j + 1` to
/// `min(32 (j + 1), count)` of that column, written in row `j + 1` of the
/// next column.
pub open spec fn tree_level_step(src: nat, count: nat) -> spec_fn(nat) -> Seq<CellView> {
    |j: nat| seq![formula_cell(0, j + 1, src + 1,
        "=SUM("@ + col_letters(src) + dec(sum_start(j)) + ":"@ + col_letters(src) + dec(sum_end(j, count)) + ")"@)]
}

/// All tree formulas above a level of `count` cells in column `col`.
pub open spec fn tree_cells(col: nat, count: nat) -> Seq<CellView>
    decreases count,
{
    if count <= 1 {
        Seq::empty()
    } else {
        flat(next_level_count(count), tree_level_step(col, count)) + tree_cells(col + 1, next_level_count(count))
    }
}

/// Column of the tree's root above a level of `count` cells in `col`.
pub open spec fn tree_root_col(col: nat, count: nat) -> nat
    decreases count,
{
    if count <= 1 { col } else { tree_root_col(col + 1, next_level_count(count)) }
}

/// Link `i` of the chain (row `i + 2`): the cell above plus one.
pub open spec fn chain_link_step(chain_col: nat) -> spec_fn(nat) -> Seq<CellView> {
    |i: nat| seq![formula_cell(0, i + 2, chain_col, "="@ + col_letters(chain_col) + dec(i + 1) + "+1"@)]
}

/// The chain: its head reads the root, each later link adds one.
pub open spec fn chain_cells(root_col: nat, k: nat) -> Seq<CellView> {
    seq![formula_cell(0, 1, root_col + 1, "="@ + col_letters(root_col) + "1+0"@)]
        + flat(if k >= 2 { (k - 1) as nat } else { 0 }, chain_link_step(root_col + 1))
}

/// Every formula of the edit-storm workbook over `k` inputs in column A.
pub open spec fn storm_cells(k: nat) -> Seq<CellView> {
    tree_cells(1, k) + chain_cells(tree_root_col(1, k), k)
}

/// First row read by sum `j` of a level.
pub open spec fn sum_start(j: nat) -> nat {
    j * 32 + 1
}

/// Last row read by sum `j` of a level of `count` cells.
pub open spec fn sum_end(j: nat, count: nat) -> nat {
    if (j + 1) * 32 <= count { (j + 1) * 32 } else { count }
}

/// Every cell of a level is read by exactly one sum of the next level:
/// cell `r` by sum `(r - 1) / 32`, and by no other. So the root of the tree
/// adds up every input once.
pub proof fn lemma_level_partition(count: nat, r: nat)
    requires
        count >= 2,
        1 <= r <= count,
    ensures
        ((r - 1) as nat / 32) < next_level_count(count),
        sum_start(((r - 1) as nat / 32)) <= r <= sum_end(((r - 1) as nat / 32), count),
        forall|j: nat| j < next_level_count(count) && sum_start(j) <= r <= #[trigger] sum_end(j, count) ==> j == (r - 1) as nat / 32,
{
    let q = ((r - 1) as nat) / 32;
    assert(q * 32 <= r - 1 < q * 32 + 32);
    assert forall|j: nat| j < next_level_count(count) && sum_start(j) <= r <= #[trigger] sum_end(j, count) implies j == q by {
        if j < q {
            assert((j + 1) * 32 <= q * 32);
        } else if j > q {
            assert(j * 32 >= q * 32 + 32);
        }
    }
}

/// Layout of the built component.
#[derive(Clone, Copy, Debug, PartialEq, Eq, Structural)]
pub struct StormFixture {
    pub k: usize,
    pub chain_col: u32,
    pub chain_len: usize,
    pub root_col: u32,
    pub component_formulas: usize,
}

proof fn lemma_levels_shrink(n: nat)
    requires
        n > 1,
    ensures
        1 <= next_level_count(n) < n,
{
}

proof fn lemma_root_bound(col: nat, count: nat)
    ensures
        tree_root_col(col, count) <= col + count,
    decreases count,
{
    if count > 1 {
        lemma_levels_shrink(count);
        lemma_root_bound(col + 1, next_level_count(count));
    }
}

fn sum_formula(src: u32, start: usize, end: usize) -> (s: String)
    requires
        start <= u64::MAX,
        end <= u64::MAX,
    ensures
        s@ == "=SUM("@ + col_letters(src as nat) + dec(start as nat) + ":"@ + col_letters(src as nat) + dec(end as nat) + ")"@,
{
    let letters = chars_of(col_letter(src).as_str());
    let mut v: Vec<char> = Vec::new();
    push_str(&mut v, "=SUM(");
    push_chars(&mut v, &letters);
    push_chars(&mut v, &dec_chars(start as u64));
    push_str(&mut v, ":");
    push_chars(&mut v, &letters);
    push_chars(&mut v, &dec_chars(end as u64));
    push_str(&mut v, ")");
    assert(v@ =~= "=SUM("@ + col_letters(src as nat) + dec(start as nat) + ":"@ + col_letters(src as nat) + dec(end as nat) + ")"@);
    string_of(&v)
}

/// Plans the formulas of the edit-storm component over `k` inputs (the
/// inputs themselves are seeded separately): the roll-up tree level by
/// level, then the chain in the next free column.
pub fn build_storm(k: usize) -> (r: (Vec<PlannedCell>, StormFixture))
    requires
        k < u32::MAX - 64,
    ensures
        cells_view(r.0@) == storm_cells(k as nat),
        r.1 == (StormFixture {
            k,
            chain_col: (tree_root_col(1, k as nat) + 1) as u32,
            chain_len: k,
            root_col: tree_root_col(1, k as nat) as u32,
            component_formulas: r.0@.len() as usize,
        }),
{
    let mut cells: Vec<PlannedCell> = Vec::new();
    let mut level_col: u32 = 1;
    let mut level_count: usize = k;
    proof {
        lemma_root_bound(1, k as nat);
    }
    assert(cells_view(cells@) + tree_cells(1, k as nat) =~= tree_cells(1, k as nat));
    while level_count > 1
        invariant
            k < u32::MAX - 64,
            1 <= level_col,
            level_count <= k,
            level_col + level_count <= 1 + k,
            cells_view(cells@) + tree_cells(level_col as nat, level_count as nat) == tree_cells(1, k as nat),
            tree_root_col(level_col as nat, level_count as nat) == tree_root_col(1, k as nat),
        decreases level_count,
    {
        proof {
            lemma_levels_shrink(level_count as nat);
        }
        let next_col = level_col + 1;
        let next_count = (level_count + 31) / 32;
        let ghost done = cells_view(cells@);
        let ghost step = tree_level_step(level_col as nat, level_count as nat);
        assert(cells_view(cells@) =~= done + flat(0, step));
        let mut j: usize = 0;
        while j < next_count
            invariant
                k < u32::MAX - 64,
                level_count <= k,
                next_count == next_level_count(level_count as nat),
                level_col + level_count <= 1 + k,
                step == tree_level_step(level_col as nat, level_count as nat),
                0 <= j <= next_count,
                cells_view(cells@) == done + flat(j as nat, step),
            decreases next_count - j,
        {
            let start = j * 32 + 1;
            let end = if (j + 1) * 32 <= level_count { (j + 1) * 32 } else { level_count };
            push_formula(&mut cells, 0, (j + 1) as u32, level_col + 1, sum_formula(level_col, start, end));
            proof {
                lemma_flat_next(j as nat, step);
                assert(cells_view(cells@) =~= done + flat((j + 1) as nat, step));
            }
            j = j + 1;
        }
        assert(cells_view(cells@) + tree_cells(next_col as nat, next_count as nat) =~= tree_cells(1, k as nat));
        level_col = next_col;
        level_count = next_count;
    }
    let root_col = level_col;
    let ghost tree = cells_view(cells@);
    assert(tree =~= tree_cells(1, k as nat));
    let chain_col = root_col + 1;
    let mut head: Vec<char> = Vec::new();
    push_str(&mut head, "=");
    push_str(&mut head, col_letter(root_col).as_str());
    push_str(&mut head, "1+0");
    push_formula(&mut cells, 0, 1, chain_col, string_of(&head));
    let n: usize = if k >= 2 { k - 1 } else { 0 };
    let ghost headed = cells_view(cells@);
    let chain_letters = chars_of(col_letter(chain_col).as_str());
    assert(cells_view(cells@) =~= headed + flat(0, chain_link_step(chain_col as nat)));
    let mut i: usize = 0;
    while i < n
        invariant
            0 <= i <= n,
            n < u32::MAX - 64,
            chain_letters@ == col_letters(chain_col as nat),
            cells_view(cells@) == headed + flat(i as nat, chain_link_step(chain_col as nat)),
        decreases n - i,
    {
        let mut f: Vec<char> = Vec::new();
        push_str(&mut f, "=");
        push_chars(&mut f, &chain_letters);
        push_chars(&mut f, &dec_chars((i + 1) as u64));
        push_str(&mut f, "+1");
        push_formula(&mut cells, 0, (i + 2) as u32, chain_col, string_of(&f));
        proof {
            lemma_flat_next(i as nat, chain_link_step(chain_col as nat));
            assert(cells_view(cells@) =~= headed + flat((i + 1) as nat, chain_link_step(chain_col as nat)));
        }
        i = i + 1;
    }
    assert(cells_view(cells@) =~= storm_cells(k as nat));
    let count = cells.len();
    (cells, StormFixture { k, chain_col, chain_len: k, root_col, component_formulas: count })
}

/// Root and chain tail the probe expects when every input holds `input`:
/// the root sums the `k` inputs and the tail adds one per later link.
pub fn storm_expectations(input: u64, fx: &StormFixture) -> (r: (u128, u128))
    requires
        fx.chain_len >= 1,
    ensures
        r.0 == input * fx.k,
        r.1 == input * fx.k + fx.chain_len - 1,
{
    let a = input as u128;
    let b = fx.k as u128;
    assert(a * b <= u64::MAX * u64::MAX) by (nonlinear_arith)
        requires a <= u64::MAX, b <= u64::MAX;
    let root = a * b;
    (root, root + fx.chain_len as u128 - 1)
}

/* -------------------------------- options -------------------------------- */

/// Why the edit-storm options are refused.
#[derive(Clone, Debug, PartialEq, Eq)]
pub enum StormArgError {
    /// A piece of `--k-list` is not an unsigned number (the piece, trimmed).
    BadK(String),
    /// Some K is below the fan-in.
    KTooSmall,
    /// `--changelog` is not `off`, `on` or `both` (the value given).
    BadChangelog(String),
}

/// The pieces of `s` between commas, as `str::split(',')` gives them (one
/// piece when there is no comma).
pub open spec fn comma_pieces(s: Seq<char>) -> Seq<Seq<char>>
    decreases s.len(),
{
    if s.len() == 0 {
        seq![Seq::empty()]
    } else {
        let r = comma_pieces(s.drop_last());
        if s.last() == ',' {
            r.push(Seq::empty())
        } else {
            r.update(r.len() - 1, r.last().push(s.last()))
        }
    }
}

proof fn lemma_comma_pieces_nonempty(s: Seq<char>)
    ensures
        comma_pieces(s).len() >= 1,
    decreases s.len(),
{
    if s.len() > 0 {
        lemma_comma_pieces_nonempty(s.drop_last());
    }
}

/// Each piece trimmed and read as an unsigned number, in order; the first
/// piece that is not one is the error (trimmed).
pub open spec fn parse_pieces(pieces: Seq<Seq<char>>) -> Result<Seq<u64>, Seq<char>>
    decreases pieces.len(),
{
    if pieces.len() == 0 {
        Ok(Seq::empty())
    } else {
        match spec_parse_u64(trim(pieces[0])) {
            None => Err(trim(pieces[0])),
            Some(v) => match parse_pieces(pieces.drop_first()) {
                Ok(vs) => Ok(seq![v] + vs),
                Err(e) => Err(e),
            },
        }
    }
}

/// `--k-list`: the comma-separated Ks, each at least the fan-in.
pub open spec fn spec_parse_k_list(s: Seq<char>) -> Result<Seq<u64>, StormArgErrorView> {
    match parse_pieces(comma_pieces(s)) {
        Err(p) => Err(StormArgErrorView::BadK(p)),
        Ok(ks) => if ks.len() == 0 || exists|i: int| 0 <= i < ks.len() && #[trigger] ks[i] < 32 {
            Err(StormArgErrorView::KTooSmall)
        } else {
            Ok(ks)
        },
    }
}

/// Mathematical content of an option error.
pub enum StormArgErrorView {
    BadK(Seq<char>),
    KTooSmall,
    BadChangelog(Seq<char>),
}

pub open spec fn storm_error_view(e: StormArgError) -> StormArgErrorView {
    match e {
        StormArgError::BadK(p) => StormArgErrorView::BadK(p@),
        StormArgError::KTooSmall => StormArgErrorView::KTooSmall,
        StormArgError::BadChangelog(v) => StormArgErrorView::BadChangelog(v@),
    }
}

/// `r` holds the bounds of all but the last comma-separated piece of
/// `s[..n]`, and `s[start..n]` is the last one.
pub open spec fn pieces_ok(s: Seq<char>, r: Seq<(usize, usize)>, start: int, n: int) -> bool {
    &&& 0 <= start <= n <= s.len()
    &&& r.len() + 1 == comma_pieces(s.subrange(0, n)).len()
    &&& forall|j: int| #![trigger r[j]] 0 <= j < r.len() ==> r[j].0 <= r[j].1 <= n
        && s.subrange(r[j].0 as int, r[j].1 as int) == comma_pieces(s.subrange(0, n))[j]
    &&& s.subrange(start, n) == comma_pieces(s.subrange(0, n)).last()
}

proof fn lemma_pieces_step(s: Seq<char>, r: Seq<(usize, usize)>, start: int, n: int)
    requires
        pieces_ok(s, r, start, n),
        n < s.len(),
        start <= usize::MAX,
        n <= usize::MAX,
    ensures
        s[n] == ',' ==> pieces_ok(s, r.push((start as usize, n as usize)), n + 1, n + 1),
        s[n] != ',' ==> pieces_ok(s, r, start, n + 1),
{
    let pre = s.subrange(0, n);
    let nxt = s.subrange(0, n + 1);
    let cp = comma_pieces(pre);
    assert(nxt.drop_last() =~= pre);
    lemma_comma_pieces_nonempty(pre);
    assert(nxt.last() == s[n]);
    if s[n] == ',' {
        let r2 = r.push((start as usize, n as usize));
        assert(comma_pieces(nxt) == cp.push(Seq::<char>::empty()));
        assert(s.subrange(n + 1, n + 1) =~= Seq::<char>::empty());
        assert forall|j: int| 0 <= j < r2.len() implies #[trigger] r2[j].0 <= r2[j].1 <= n + 1
            && s.subrange(r2[j].0 as int, r2[j].1 as int) == comma_pieces(nxt)[j] by {
            assert(comma_pieces(nxt)[j] == cp[j]);
            if j < r.len() {
                assert(r2[j] == r[j]);
            }
        }
    } else {
        assert(comma_pieces(nxt) == cp.update(cp.len() - 1, cp.last().push(s[n])));
        assert(s.subrange(start, n + 1) =~= s.subrange(start, n).push(s[n]));
        assert forall|j: int| 0 <= j < r.len() implies #[trigger] r[j].0 <= r[j].1 <= n + 1
            && s.subrange(r[j].0 as int, r[j].1 as int) == comma_pieces(nxt)[j] by {
            assert(r.len() + 1 == cp.len());
            assert(r[j].0 <= r[j].1 <= n);
            assert(s.subrange(r[j].0 as int, r[j].1 as int) == cp[j]);
            assert(comma_pieces(nxt)[j] == cp[j]);
        }
    }
}

pub(crate) fn split_commas(s: &Vec<char>) -> (r: Vec<(usize, usize)>)
    ensures
        r@.len() == comma_pieces(s@).len(),
        forall|i: int| 0 <= i < r@.len() ==> #[trigger] r@[i].0 <= r@[i].1 <= s@.len()
            && s@.subrange(r@[i].0 as int, r@[i].1 as int) == comma_pieces(s@)[i],
{
    let mut r: Vec<(usize, usize)> = Vec::new();
    let mut start: usize = 0;
    let mut i: usize = 0;
    assert(s@.subrange(0, 0) =~= Seq::<char>::empty());
    while i < s.len()
        invariant
            pieces_ok(s@, r@, start as int, i as int),
        decreases s.len() - i,
    {
        proof {
            lemma_pieces_step(s@, r@, start as int, i as int);
        }
        if s[i] == ',' {
            r.push((start, i));
            start = i + 1;
        }
        i = i + 1;
    }
    let ghost r_old = r@;
    r.push((start, s.len()));
    assert(s@.subrange(0, s@.len() as int) =~= s@);
    proof {
        let cp = comma_pieces(s@);
        assert(r_old.len() + 1 == cp.len());
        assert forall|j: int| 0 <= j < r@.len() implies #[trigger] r@[j].0 <= r@[j].1 <= s@.len()
            && s@.subrange(r@[j].0 as int, r@[j].1 as int) == cp[j] by {
            if j < r_old.len() {
                assert(r@[j] == r_old[j]);
                assert(r_old[j].0 <= r_old[j].1 <= s@.len());
            } else {
                assert(j == cp.len() - 1);
                assert(r@[j] == (start, s@.len() as usize));
            }
        }
    }
    r
}

/// Parses `--k-list`.
pub fn parse_k_list(s: &str) -> (r: Result<Vec<u64>, StormArgError>)
    ensures
        match r {
            Ok(ks) => spec_parse_k_list(s@) == Ok::<Seq<u64>, StormArgErrorView>(ks@),
            Err(e) => spec_parse_k_list(s@) == Err::<Seq<u64>, StormArgErrorView>(storm_error_view(e)),
        },
{
    let x = chars_of(s);
    let ranges = split_commas(&x);
    let ghost pieces = comma_pieces(s@);
    assert(x@ == s@);
    assert(comma_pieces(x@) == pieces);
    let mut ks: Vec<u64> = Vec::new();
    let mut i: usize = 0;
    assert(pieces.subrange(0, pieces.len() as int) =~= pieces);
    proof {
        match parse_pieces(pieces) {
            Ok(vs) => { assert(ks@ + vs =~= vs); },
            Err(e) => {},
        }
    }
    while i < ranges.len()
        invariant
            0 <= i <= ranges@.len(),
            x@ == s@,
            pieces == comma_pieces(s@),
            ranges@.len() == pieces.len(),
            forall|j: int| 0 <= j < ranges@.len() ==> #[trigger] ranges@[j].0 <= ranges@[j].1 <= x@.len()
                && x@.subrange(ranges@[j].0 as int, ranges@[j].1 as int) == pieces[j],
            parse_pieces(pieces) == (match parse_pieces(pieces.subrange(i as int, pieces.len() as int)) {
                Ok(vs) => Ok::<Seq<u64>, Seq<char>>(ks@ + vs),
                Err(e) => Err::<Seq<u64>, Seq<char>>(e),
            }),
        decreases ranges.len() - i,
    {
        let (lo, hi) = ranges[i];
        let (a, b) = trim_range(&x, lo, hi);
        let ghost rest = pieces.subrange(i as int, pieces.len() as int);
        let ghost old_ks = ks@;
        assert(rest[0] == pieces[i as int]);
        assert(rest.drop_first() =~= pieces.subrange(i + 1, pieces.len() as int));
        assert(x@.subrange(a as int, b as int) == trim(rest[0]));
        match parse_u64_range(&x, a, b) {
            None => {
                assert(parse_pieces(rest) == Err::<Seq<u64>, Seq<char>>(trim(rest[0])));
                let bad = string_of(&crate::text::slice_chars(&x, a, b));
                return Err(StormArgError::BadK(bad));
            },
            Some(v) => {
                ks.push(v);
                proof {
                    assert(parse_pieces(rest) == (match parse_pieces(rest.drop_first()) {
                        Ok(vs) => Ok::<Seq<u64>, Seq<char>>(seq![v] + vs),
                        Err(e) => Err::<Seq<u64>, Seq<char>>(e),
                    }));
                    match parse_pieces(pieces.subrange(i + 1, pieces.len() as int)) {
                        Ok(vs) => {
                            assert(ks@ + vs =~= old_ks + (seq![v] + vs));
                        },
                        Err(e) => {},
                    }
                }
            },
        }
        i = i + 1;
    }
    assert(pieces.subrange(ranges@.len() as int, pieces.len() as int) =~= Seq::<Seq<char>>::empty());
    assert(ks@ + Seq::<u64>::empty() =~= ks@);
    let mut j: usize = 0;
    let mut small = ks.len() == 0;
    while j < ks.len()
        invariant
            0 <= j <= ks@.len(),
            small == (ks@.len() == 0 || exists|t: int| 0 <= t < j && #[trigger] ks@[t] < 32),
        decreases ks.len() - j,
    {
        if ks[j] < 32 {
            small = true;
        }
        j = j + 1;
    }
    if small {
        Err(StormArgError::KTooSmall)
    } else {
        Ok(ks)
    }
}

/// The changelog settings of `--changelog`.
pub open spec fn spec_changelog_modes(v: Seq<char>) -> Result<Seq<bool>, StormArgErrorView> {
    if v == "off"@ {
        Ok(seq![false])
    } else if v == "on"@ {
        Ok(seq![true])
    } else if v == "both"@ {
        Ok(seq![false, true])
    } else {
        Err(StormArgErrorView::BadChangelog(v))
    }
}

pub fn changelog_modes(v: &str) -> (r: Result<Vec<bool>, StormArgError>)
    ensures
        match r {
            Ok(m) => spec_changelog_modes(v@) == Ok::<Seq<bool>, StormArgErrorView>(m@),
            Err(e) => spec_changelog_modes(v@) == Err::<Seq<bool>, StormArgErrorView>(storm_error_view(e)),
        },
{
    if str_eq(v, "off") {
        let mut m: Vec<bool> = Vec::new();
        m.push(false);
        Ok(m)
    } else if str_eq(v, "on") {
        let mut m: Vec<bool> = Vec::new();
        m.push(true);
        Ok(m)
    } else if str_eq(v, "both") {
        Ok(vec![false, true])
    } else {
        Err(StormArgError::BadChangelog(owned(v)))
    }
}

/// The arms measured per K and changelog setting: the per-cell loop then
/// the batch, or the batch alone.
pub fn arm_names(skip_per_cell: bool) -> (v: Vec<&'static str>)
    ensures
        v@.map_values(|a: &'static str| a@) == (if skip_per_cell { seq!["batch"@] } else { seq!["per_cell"@, "batch"@] }),
{
    let mut v: Vec<&'static str> = Vec::new();
    if !skip_per_cell {
        v.push("per_cell");
    }
    v.push("batch");
    assert(v@.map_values(|a: &'static str| a@) =~= (if skip_per_cell { seq!["batch"@] } else { seq!["per_cell"@, "batch"@] }));
    v
}

} // verus!
