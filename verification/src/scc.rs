//! The cycle probes: independent guarded phantom pairs, convergent
//! iterating pairs and one large ring, with their fixtures, guard-flip
//! rounds, sampling, fixture paths and the checks on engine telemetry.

use vstd::prelude::*;
use crate::plan::{
    CellView, Piece, PlannedCell, WorkbookPlan, bool_cell, cells_view, flat, formula_cell,
    lemma_flat_next, names_view, pieces_text, push_bool, push_formula, push_pieces, sheet_names,
};
use crate::parse::{first_token, first_token_range, parse_u64_range, spec_parse_u64};
use crate::scenarios::common::{sanitize, sanitized, trunc_u32};
use crate::text::{chars_of, dec, dec_chars, push_chars, push_str, string_of};

verus! {

/// Row of pair `pair`: one pair per row from row 1 (the index taken to 32
/// bits).
pub fn pair_row(pair: usize) -> (r: u32)
    requires
        (pair as int) % 0x1_0000_0000 < u32::MAX,
    ensures
        r as int == (pair as int) % 0x1_0000_0000 + 1,
{
    trunc_u32(pair) + 1
}

/// The kilobyte count of a `/proc/self/status` value such as `" 1234 kB"`:
/// its first whitespace-separated token read as an unsigned number.
pub fn parse_status_kb(value: &str) -> (r: Option<u64>)
    ensures
        r == spec_parse_u64(first_token(value@)),
{
    let x = chars_of(value);
    let (a, b) = first_token_range(&x, 0, x.len());
    assert(x@.subrange(0, x@.len() as int) =~= value@);
    parse_u64_range(&x, a, b)
}

/* ---------------------------- phantom pairs ---------------------------- */

/// Whether the probe stamps every static cycle as `#CIRC!` or resolves
/// phantom cycles at run time.
#[derive(Clone, Copy, Debug, PartialEq, Eq, Structural)]
pub enum PhantomMode {
    Static,
    Runtime,
}

impl PhantomMode {
    pub fn as_str(&self) -> (s: &'static str)
        ensures
            s@ == (match *self { PhantomMode::Static => "static"@, PhantomMode::Runtime => "runtime"@ }),
    {
        match self {
            PhantomMode::Static => "static",
            PhantomMode::Runtime => "runtime",
        }
    }
}

/// Value both members of a pair settle to: 100 with the guard set, else 999.
pub open spec fn spec_pair_value(guard: bool) -> int {
    if guard { 100 } else { 999 }
}

pub fn pair_value(guard: bool) -> (v: u32)
    ensures
        v == spec_pair_value(guard),
{
    if guard { 100 } else { 999 }
}

/// The initial guards: set on even pairs.
pub fn initial_guards(pairs: usize) -> (g: Vec<bool>)
    ensures
        g@.len() == pairs,
        forall|p: int| 0 <= p < pairs ==> #[trigger] g@[p] == (p % 2 == 0),
{
    let mut g: Vec<bool> = Vec::new();
    let mut p: usize = 0;
    while p < pairs
        invariant
            0 <= p <= pairs,
            g@.len() == p,
            forall|q: int| 0 <= q < p ==> #[trigger] g@[q] == (q % 2 == 0),
        decreases pairs - p,
    {
        g.push(p % 2 == 0);
        p = p + 1;
    }
    g
}

/// Pair `p` on row `r = p + 1`: the guard, `A = IF(guard, 100, B)`,
/// `B = IF(guard, A, 999)` and a consumer reading both.
pub open spec fn phantom_pair_step(guards: Seq<bool>) -> spec_fn(nat) -> Seq<CellView> {
    |p: nat| {
        let r = p + 1;
        seq![
            bool_cell(0, r, 1, guards[p as int]),
            formula_cell(0, r, 2, pieces_text(seq![Piece::Lit("=IF(A"), Piece::Num(r as u64), Piece::Lit(",100,C"), Piece::Num(r as u64), Piece::Lit(")")])),
            formula_cell(0, r, 3, pieces_text(seq![Piece::Lit("=IF(A"), Piece::Num(r as u64), Piece::Lit(",B"), Piece::Num(r as u64), Piece::Lit(",999)")])),
            formula_cell(0, r, 4, pieces_text(seq![Piece::Lit("=B"), Piece::Num(r as u64), Piece::Lit("+C"), Piece::Num(r as u64)])),
        ]
    }
}

/// Plans the phantom-pair fixture for the given guards.
pub fn phantom_fixture_plan(guards: &Vec<bool>) -> (p: WorkbookPlan)
    requires
        guards@.len() < u32::MAX,
    ensures
        names_view(p.sheets@) == seq!["Sheet1"@],
        cells_view(p.cells@) == flat(guards@.len(), phantom_pair_step(guards@)),
{
    let sheets = sheet_names(vec!["Sheet1"]);
    let mut cells: Vec<PlannedCell> = Vec::new();
    assert(cells_view(cells@) =~= flat(0, phantom_pair_step(guards@)));
    let mut p: usize = 0;
    while p < guards.len()
        invariant
            0 <= p <= guards@.len(),
            guards@.len() < u32::MAX,
            cells_view(cells@) == flat(p as nat, phantom_pair_step(guards@)),
        decreases guards.len() - p,
    {
        let r = (p + 1) as u32;
        push_bool(&mut cells, 0, r, 1, guards[p]);
        push_pieces(&mut cells, 0, r, 2, vec![Piece::Lit("=IF(A"), Piece::Num(r as u64), Piece::Lit(",100,C"), Piece::Num(r as u64), Piece::Lit(")")]);
        push_pieces(&mut cells, 0, r, 3, vec![Piece::Lit("=IF(A"), Piece::Num(r as u64), Piece::Lit(",B"), Piece::Num(r as u64), Piece::Lit(",999)")]);
        push_pieces(&mut cells, 0, r, 4, vec![Piece::Lit("=B"), Piece::Num(r as u64), Piece::Lit("+C"), Piece::Num(r as u64)]);
        proof {
            lemma_flat_next(p as nat, phantom_pair_step(guards@));
            assert(cells_view(cells@) =~= flat((p + 1) as nat, phantom_pair_step(guards@)));
        }
        p = p + 1;
    }
    WorkbookPlan { sheets, cells }
}

/// `target/scc-phantom-fixtures/<label>-<pairs>.xlsx`, the label made
/// file-name safe.
pub open spec fn spec_phantom_workbook_path(label: Seq<char>, pairs: nat) -> Seq<char> {
    "target/scc-phantom-fixtures/"@ + sanitized(label) + "-"@ + dec(pairs) + ".xlsx"@
}

pub fn phantom_default_workbook_path(label: &str, pairs: usize) -> (s: String)
    requires
        pairs <= u64::MAX,
    ensures
        s@ == spec_phantom_workbook_path(label@, pairs as nat),
{
    let mut v: Vec<char> = Vec::new();
    push_str(&mut v, "target/scc-phantom-fixtures/");
    push_str(&mut v, sanitize(label).as_str());
    push_str(&mut v, "-");
    push_chars(&mut v, &dec_chars(pairs as u64));
    push_str(&mut v, ".xlsx");
    string_of(&v)
}

/// Why probe options are refused.
#[derive(Clone, Copy, Debug, PartialEq, Eq, Structural)]
pub enum ProbeArgError {
    /// `--pairs` is zero.
    NoPairs,
    /// `--members` is below two.
    RingTooSmall,
}

impl ProbeArgError {
    pub fn message(&self) -> (s: &'static str)
        ensures
            s@ == (match *self {
                ProbeArgError::NoPairs => "--pairs must be > 0"@,
                ProbeArgError::RingTooSmall => "--members must be >= 2 (a ring needs at least 2 cells)"@,
            }),
    {
        match self {
            ProbeArgError::NoPairs => "--pairs must be > 0",
            ProbeArgError::RingTooSmall => "--members must be >= 2 (a ring needs at least 2 cells)",
        }
    }
}

/// The phantom probe needs at least one pair.
pub fn validate_phantom_pairs(pairs: usize) -> (r: Result<(), ProbeArgError>)
    ensures
        r == (if pairs == 0 { Err::<(), ProbeArgError>(ProbeArgError::NoPairs) } else { Ok(()) }),
{
    if pairs == 0 { Err(ProbeArgError::NoPairs) } else { Ok(()) }
}

/// What the initial evaluation of the phantom fixture showed wrongly.
#[derive(Clone, Copy, Debug, PartialEq, Eq, Structural)]
pub enum PhantomCheckError {
    /// Runtime mode stamped some cells `#CIRC!`.
    RuntimeCircCells,
    /// Runtime mode reported cycle errors.
    RuntimeCycleErrors,
    /// Runtime mode did not report every pair as a phantom cycle.
    RuntimePhantomCount,
    /// Static mode did not stamp both members of every pair.
    StaticCircCount,
}

/// The checks on the initial evaluation, in the order they are made:
/// runtime mode must show no `#CIRC!` cell, no cycle error and one phantom
/// cycle per pair; static mode must show two `#CIRC!` cells per pair.
pub open spec fn spec_check_phantom_initial(mode: PhantomMode, pairs: nat, circ_cells: nat, cycle_errors: nat, phantom_sccs: nat) -> Result<(), PhantomCheckError> {
    match mode {
        PhantomMode::Runtime => if circ_cells != 0 {
            Err(PhantomCheckError::RuntimeCircCells)
        } else if cycle_errors != 0 {
            Err(PhantomCheckError::RuntimeCycleErrors)
        } else if phantom_sccs != pairs {
            Err(PhantomCheckError::RuntimePhantomCount)
        } else {
            Ok(())
        },
        PhantomMode::Static => if circ_cells != 2 * pairs { Err(PhantomCheckError::StaticCircCount) } else { Ok(()) },
    }
}

pub fn check_phantom_initial(mode: PhantomMode, pairs: usize, circ_cells: usize, cycle_errors: usize, phantom_sccs: usize) -> (r: Result<(), PhantomCheckError>)
    ensures
        r == spec_check_phantom_initial(mode, pairs as nat, circ_cells as nat, cycle_errors as nat, phantom_sccs as nat),
{
    match mode {
        PhantomMode::Runtime => {
            if circ_cells != 0 {
                Err(PhantomCheckError::RuntimeCircCells)
            } else if cycle_errors != 0 {
                Err(PhantomCheckError::RuntimeCycleErrors)
            } else if phantom_sccs != pairs {
                Err(PhantomCheckError::RuntimePhantomCount)
            } else {
                Ok(())
            }
        },
        PhantomMode::Static => {
            if (circ_cells as u128) != 2 * (pairs as u128) { Err(PhantomCheckError::StaticCircCount) } else { Ok(()) }
        },
    }
}

/* ------------------------------ guard flips ----------------------------- */

/// Stride of a flip round: the pairs spread over `flips` flips.
pub open spec fn flip_stride(n: nat, flips: nat) -> nat {
    if flips == 0 { 1 } else if n / flips >= 1 { n / flips } else { 1 }
}

/// How many pairs a round flips: every stride-th pair from the round's
/// offset, at most `flips` of them.
pub open spec fn flip_count(n: nat, round: nat, flips: nat) -> nat {
    let stride = flip_stride(n, flips);
    let offset = round % stride;
    let reachable: nat = if offset >= n { 0 } else { ((n - 1 - offset) as nat) / stride + 1 };
    if n == 0 || flips == 0 { 0 } else if reachable < flips { reachable } else { flips }
}

/// The pairs a round flips, in order: `offset + k stride`.
pub open spec fn spec_flip_plan(n: nat, round: nat, flips: nat) -> Seq<nat> {
    let stride = flip_stride(n, flips);
    Seq::new(flip_count(n, round, flips), |k: int| (round % stride + k * stride) as nat)
}

proof fn lemma_stride_count(n: nat, offset: nat, stride: nat, k: nat)
    requires
        stride >= 1,
        offset < n,
        offset + (k - 1) * stride < n || k == 0,
        offset + k * stride >= n,
    ensures
        k == ((n - 1 - offset) as nat) / stride + 1,
{
    let x = (n - 1 - offset) as nat;
    vstd::arithmetic::div_mod::lemma_fundamental_div_mod(x as int, stride as int);
    if k == 0 {
        assert(false);
    }
    assert(x / stride == k - 1) by (nonlinear_arith)
        requires
            stride >= 1,
            k >= 1,
            (k - 1) * stride <= x,
            x < k * stride,
            x == stride * (x / stride) + x % stride,
            0 <= x % stride < stride,
    ;
}

/// The pairs flipped by round `round` of `n` pairs with `flips` flips per
/// round.
pub fn flip_plan(n: usize, round: usize, flips: usize) -> (ps: Vec<usize>)
    requires
        n <= usize::MAX / 2,
    ensures
        ps@.len() == flip_count(n as nat, round as nat, flips as nat),
        forall|k: int| 0 <= k < ps@.len() ==> #[trigger] ps@[k] as nat == spec_flip_plan(n as nat, round as nat, flips as nat)[k],
{
    let mut ps: Vec<usize> = Vec::new();
    if n == 0 || flips == 0 {
        return ps;
    }
    let q = n / flips;
    let stride = if q >= 1 { q } else { 1 };
    let offset = round % stride;
    let ghost st = stride as nat;
    assert(st == flip_stride(n as nat, flips as nat));
    let mut done: usize = 0;
    let mut pair = offset;
    while pair < n && done < flips
        invariant
            n <= usize::MAX / 2,
            1 <= stride <= n,
            st == stride,
            offset == round % stride,
            offset < stride,
            pair as int == offset + done * stride,
            done <= flips,
            ps@.len() == done,
            done >= 1 ==> offset + (done - 1) * stride < n,
            forall|k: int| 0 <= k < done ==> #[trigger] ps@[k] as int == offset + k * stride,
        decreases flips - done,
    {
        ps.push(pair);
        proof {
            assert((done + 1) * stride == done * stride + stride) by (nonlinear_arith);
        }
        done = done + 1;
        pair = pair + stride;
    }
    proof {
        let c = flip_count(n as nat, round as nat, flips as nat);
        if offset >= n {
            assert(done == 0);
        } else if done < flips {
            assert(pair >= n);
            lemma_stride_count(n as nat, offset as nat, stride as nat, done as nat);
            assert(done as nat == ((n - 1 - offset) as nat) / st + 1);
        } else {
            assert(done == flips);
            assert(offset + (done - 1) * stride < n);
            if ((n - 1 - offset) as nat) / st + 1 < flips {
                let x = (n - 1 - offset) as nat;
                vstd::arithmetic::div_mod::lemma_fundamental_div_mod(x as int, st as int);
                assert(false) by (nonlinear_arith)
                    requires
                        st >= 1,
                        done >= 1,
                        (done - 1) * st <= x,
                        x / st + 1 < done,
                        x == st * (x / st) + x % st,
                        0 <= x % st < st,
                ;
            }
        }
        assert(ps@.len() == c);
    }
    ps
}

/// Guards with the listed pairs flipped.
pub open spec fn flipped(g: Seq<bool>, ps: Seq<nat>) -> Seq<bool> {
    Seq::new(g.len(), |i: int| if ps.contains(i as nat) { !g[i] } else { g[i] })
}

/// Flips the guards of the listed pairs (each listed once, all in range).
pub fn apply_flips(guards: &mut Vec<bool>, ps: &Vec<usize>)
    requires
        forall|k: int| 0 <= k < ps@.len() ==> #[trigger] ps@[k] < old(guards)@.len(),
        forall|j: int, k: int| 0 <= j < k < ps@.len() ==> ps@[j] != ps@[k],
    ensures
        final(guards)@ == flipped(old(guards)@, ps@.map_values(|p: usize| p as nat)),
{
    let ghost g0 = guards@;
    let ghost pv = ps@.map_values(|p: usize| p as nat);
    let mut k: usize = 0;
    while k < ps.len()
        invariant
            0 <= k <= ps@.len(),
            guards@.len() == g0.len(),
            forall|j: int| 0 <= j < ps@.len() ==> #[trigger] ps@[j] < g0.len(),
            forall|a: int, b: int| 0 <= a < b < ps@.len() ==> ps@[a] != ps@[b],
            forall|i: int| 0 <= i < g0.len() ==> #[trigger] guards@[i] ==
                (if exists|j: int| 0 <= j < k && #[trigger] ps@[j] == i { !g0[i] } else { g0[i] }),
        decreases ps.len() - k,
    {
        let p = ps[k];
        let next = !guards[p];
        guards.set(p, next);
        proof {
            assert forall|i: int| 0 <= i < g0.len() implies #[trigger] guards@[i] ==
                (if exists|j: int| 0 <= j < k + 1 && #[trigger] ps@[j] == i { !g0[i] } else { g0[i] }) by {
                if i == p as int {
                    assert(ps@[k as int] == i);
                    if exists|j: int| 0 <= j < k && #[trigger] ps@[j] == i {
                        let j = choose|j: int| 0 <= j < k && #[trigger] ps@[j] == i;
                        assert(ps@[j] != ps@[k as int]);
                    }
                } else {
                    if exists|j: int| 0 <= j < k + 1 && #[trigger] ps@[j] == i {
                        let j = choose|j: int| 0 <= j < k + 1 && #[trigger] ps@[j] == i;
                        assert(j < k);
                    }
                }
            }
        }
        k = k + 1;
    }
    assert forall|i: int| 0 <= i < g0.len() implies #[trigger] guards@[i] == flipped(g0, pv)[i] by {
        if pv.contains(i as nat) {
            let j = choose|j: int| 0 <= j < pv.len() && pv[j] == i as nat;
            assert(ps@[j] == i);
        }
        if exists|j: int| 0 <= j < ps@.len() && #[trigger] ps@[j] == i {
            let j = choose|j: int| 0 <= j < ps@.len() && #[trigger] ps@[j] == i;
            assert(pv[j] == i as nat);
        }
    }
    assert(guards@ =~= flipped(g0, pv));
}

/// Flipping the same pairs twice gives the guards back.
pub proof fn lemma_flip_twice(g: Seq<bool>, ps: Seq<nat>)
    ensures
        flipped(flipped(g, ps), ps) == g,
{
    assert(flipped(flipped(g, ps), ps) =~= g);
}

/// The pairs of a flip plan are distinct and below `n`.
pub proof fn lemma_flip_plan_distinct(n: nat, round: nat, flips: nat)
    ensures
        forall|k: int| 0 <= k < spec_flip_plan(n, round, flips).len() ==> #[trigger] spec_flip_plan(n, round, flips)[k] < n,
        forall|j: int, k: int| 0 <= j < k < spec_flip_plan(n, round, flips).len() ==>
            spec_flip_plan(n, round, flips)[j] != spec_flip_plan(n, round, flips)[k],
{
    let stride = flip_stride(n, flips);
    let offset = round % stride;
    let c = flip_count(n, round, flips);
    assert forall|k: int| 0 <= k < c implies #[trigger] spec_flip_plan(n, round, flips)[k] < n by {
        assert(offset < n);
        let x = (n - 1 - offset) as nat;
        vstd::arithmetic::div_mod::lemma_fundamental_div_mod(x as int, stride as int);
        assert(offset + k * stride < n) by (nonlinear_arith)
            requires
                stride >= 1,
                0 <= k,
                k < x / stride + 1,
                x == stride * (x / stride) + x % stride,
                0 <= x % stride,
                x == n - 1 - offset,
        ;
    }
    assert forall|j: int, k: int| 0 <= j < k < c implies
        spec_flip_plan(n, round, flips)[j] != spec_flip_plan(n, round, flips)[k] by {
        assert(j * stride < k * stride) by (nonlinear_arith)
            requires stride >= 1, j < k;
    }
}

/* ------------------------------- sampling ------------------------------- */

/// How many of `0, step, 2 step, ...` lie below `total`.
pub open spec fn stepped_count(total: nat, step: nat) -> nat {
    if total == 0 { 0 } else { ((total - 1) as nat / step) + 1 }
}

/// Every `step`-th index below `total`, from 0.
pub open spec fn stepped(total: nat, step: nat) -> Seq<nat> {
    Seq::new(stepped_count(total, step), |k: int| (k * step) as nat)
}

/// Step of a sample of `sample` indices out of `total` (the sample taken
/// to at least one and at most `cap`).
pub open spec fn sample_step(total: nat, sample: nat, cap: nat) -> nat {
    let s = if sample < 1 { 1 } else if sample > cap { cap } else { sample };
    if total / s >= 1 { total / s } else { 1 }
}

fn stepped_indices(total: usize, step: usize) -> (v: Vec<usize>)
    requires
        step >= 1,
        total <= usize::MAX / 2,
    ensures
        v@.len() == stepped_count(total as nat, step as nat),
        forall|k: int| 0 <= k < v@.len() ==> #[trigger] v@[k] as nat == stepped(total as nat, step as nat)[k],
{
    let mut v: Vec<usize> = Vec::new();
    let mut i: usize = 0;
    let mut go = total > 0;
    assert(v@.len() * step == 0) by (nonlinear_arith)
        requires v@.len() == 0;
    while go
        invariant
            step >= 1,
            total <= usize::MAX / 2,
            go ==> i < total && i as int == v@.len() * step,
            !go ==> v@.len() * step >= total,
            v@.len() >= 1 ==> (v@.len() - 1) * step < total,
            forall|k: int| 0 <= k < v@.len() ==> #[trigger] v@[k] as int == k * step,
        decreases total - i + (if go { 1int } else { 0int }),
    {
        v.push(i);
        proof {
            assert((v@.len()) * step == (v@.len() - 1) * step + step) by (nonlinear_arith);
        }
        if step >= total - i {
            go = false;
        } else {
            i = i + step;
        }
    }
    proof {
        if total >= 1 {
            let k = v@.len();
            if k == 0 {
                assert(k * step == 0) by (nonlinear_arith) requires k == 0;
            }
            assert(k >= 1);
            let x = (total - 1) as nat;
            let st = step as nat;
            vstd::arithmetic::div_mod::lemma_fundamental_div_mod(x as int, st as int);
            assert(x / st == k - 1) by (nonlinear_arith)
                requires
                    st >= 1,
                    k >= 1,
                    (k - 1) * st <= x,
                    x < k * st,
                    x == st * (x / st) + x % st,
                    0 <= x % st < st,
            ;
        }
    }
    v
}

/// Sampled pair indices of the phantom probe: the sample held to
/// `1..=pairs`, then every `pairs / sample`-th pair (at least every one).
pub fn phantom_sample_indices(pairs: usize, sample: usize) -> (v: Vec<usize>)
    requires
        pairs >= 1,
        pairs <= usize::MAX / 2,
    ensures
        v@.len() == stepped_count(pairs as nat, sample_step(pairs as nat, sample as nat, pairs as nat)),
        forall|k: int| 0 <= k < v@.len() ==> #[trigger] v@[k] as nat == stepped(pairs as nat, sample_step(pairs as nat, sample as nat, pairs as nat))[k],
{
    let s = if sample < 1 { 1 } else if sample > pairs { pairs } else { sample };
    let q = pairs / s;
    let step = if q >= 1 { q } else { 1 };
    stepped_indices(pairs, step)
}

/// Sampled indices of the iterate probe: the sample held to
/// `1..=max(total, 1)`, then every `total / sample`-th index.
pub fn sample_indices(total: usize, sample: usize) -> (v: Vec<usize>)
    requires
        total <= usize::MAX / 2,
    ensures
        v@.len() == stepped_count(total as nat, sample_step(total as nat, sample as nat, if total >= 1 { total as nat } else { 1 })),
        forall|k: int| 0 <= k < v@.len() ==> #[trigger] v@[k] as nat == stepped(total as nat, sample_step(total as nat, sample as nat, if total >= 1 { total as nat } else { 1 }))[k],
{
    let cap = if total >= 1 { total } else { 1 };
    let s = if sample < 1 { 1 } else if sample > cap { cap } else { sample };
    let q = total / s;
    let step = if q >= 1 { q } else { 1 };
    stepped_indices(total, step)
}

/* ------------------------- iterating cycles ------------------------- */

/// Workloads of the iterate probe.
#[derive(Clone, Copy, Debug, PartialEq, Eq, Structural)]
pub enum Workload {
    /// Independent convergent two-member cycles.
    Pairs,
    /// One ring of many members.
    BigScc,
}

impl Workload {
    pub fn label(&self) -> (s: &'static str)
        ensures
            s@ == (match *self { Workload::Pairs => "pairs"@, Workload::BigScc => "big-scc"@ }),
    {
        match self {
            Workload::Pairs => "pairs",
            Workload::BigScc => "big-scc",
        }
    }
}

/// The pairs workload needs a pair and a ring needs two members.
pub fn validate_iterate(workload: Workload, pairs: usize, members: usize) -> (r: Result<(), ProbeArgError>)
    ensures
        r == (match workload {
            Workload::Pairs => if pairs == 0 { Err::<(), ProbeArgError>(ProbeArgError::NoPairs) } else { Ok(()) },
            Workload::BigScc => if members < 2 { Err::<(), ProbeArgError>(ProbeArgError::RingTooSmall) } else { Ok(()) },
        }),
{
    match workload {
        Workload::Pairs => if pairs == 0 { Err(ProbeArgError::NoPairs) } else { Ok(()) },
        Workload::BigScc => if members < 2 { Err(ProbeArgError::RingTooSmall) } else { Ok(()) },
    }
}

/// Iterating members in all and the number of iterating cycles: two per
/// pair and one cycle per pair, or the ring's members and one cycle.
pub fn members_and_sccs(workload: Workload, pairs: usize, members: usize) -> (r: (usize, usize))
    requires
        workload == Workload::Pairs ==> 2 * pairs <= usize::MAX,
    ensures
        r == (match workload {
            Workload::Pairs => ((2 * pairs) as usize, pairs),
            Workload::BigScc => (members, 1usize),
        }),
{
    match workload {
        Workload::Pairs => (pairs * 2, pairs),
        Workload::BigScc => (members, 1),
    }
}

/// Pair `p` on row `r = p + 1`: `A = 0.5 B + 10`, `B = 0.5 A + 10` and a
/// consumer `A + B`.
pub open spec fn iterate_pair_step() -> spec_fn(nat) -> Seq<CellView> {
    |p: nat| {
        let r = p + 1;
        seq![
            formula_cell(0, r, 1, pieces_text(seq![Piece::Lit("=0.5*B"), Piece::Num(r as u64), Piece::Lit("+10")])),
            formula_cell(0, r, 2, pieces_text(seq![Piece::Lit("=0.5*A"), Piece::Num(r as u64), Piece::Lit("+10")])),
            formula_cell(0, r, 3, pieces_text(seq![Piece::Lit("=A"), Piece::Num(r as u64), Piece::Lit("+B"), Piece::Num(r as u64)])),
        ]
    }
}

/// Plans the convergent-pairs fixture.
pub fn iterate_pairs_plan(pairs: usize) -> (p: WorkbookPlan)
    requires
        pairs < u32::MAX,
    ensures
        names_view(p.sheets@) == seq!["Sheet1"@],
        cells_view(p.cells@) == flat(pairs as nat, iterate_pair_step()),
{
    let sheets = sheet_names(vec!["Sheet1"]);
    let mut cells: Vec<PlannedCell> = Vec::new();
    assert(cells_view(cells@) =~= flat(0, iterate_pair_step()));
    let mut p: usize = 0;
    while p < pairs
        invariant
            0 <= p <= pairs,
            pairs < u32::MAX,
            cells_view(cells@) == flat(p as nat, iterate_pair_step()),
        decreases pairs - p,
    {
        let r = (p + 1) as u32;
        push_pieces(&mut cells, 0, r, 1, vec![Piece::Lit("=0.5*B"), Piece::Num(r as u64), Piece::Lit("+10")]);
        push_pieces(&mut cells, 0, r, 2, vec![Piece::Lit("=0.5*A"), Piece::Num(r as u64), Piece::Lit("+10")]);
        push_pieces(&mut cells, 0, r, 3, vec![Piece::Lit("=A"), Piece::Num(r as u64), Piece::Lit("+B"), Piece::Num(r as u64)]);
        proof {
            lemma_flat_next(p as nat, iterate_pair_step());
            assert(cells_view(cells@) =~= flat((p + 1) as nat, iterate_pair_step()));
        }
        p = p + 1;
    }
    WorkbookPlan { sheets, cells }
}

/// The formula that re-sets pair 0's first member in the small-edit round.
pub fn pairs_small_edit_formula() -> (s: String)
    ensures
        s@ == pieces_text(seq![Piece::Lit("=0.5*B"), Piece::Num(1), Piece::Lit("+10")]),
{
    crate::plan::render(vec![Piece::Lit("=0.5*B"), Piece::Num(1), Piece::Lit("+10")])
}

/// Formula of ring member `i` (row `i + 1`) of `members`: the factor times
/// its predecessor (member `members - 1` for the first) plus one, and with
/// `range_reads > 0` a small share of the sum of the `range_reads` rows from
/// its own, cut at the last member. The factor is given as its decimal text.
pub open spec fn ring_formula(factor: Seq<char>, i: nat, members: nat, range_reads: nat) -> Seq<char> {
    let prev: nat = if i == 0 { members } else { i };
    let base = "="@ + factor + "*A"@ + dec(prev) + "+1"@;
    if range_reads > 0 {
        let start = i + 1;
        let end: nat = if start + (range_reads - 1) <= members { (start + (range_reads - 1)) as nat } else { members };
        base + "+0.0001*SUM(A"@ + dec(start as nat) + ":A"@ + dec(end as nat) + ")"@
    } else {
        base
    }
}

pub fn ring_member_formula(factor: &str, i: usize, members: usize, range_reads: usize) -> (s: String)
    requires
        i < members < u32::MAX,
        range_reads < u32::MAX,
    ensures
        s@ == ring_formula(factor@, i as nat, members as nat, range_reads as nat),
{
    let prev: usize = if i == 0 { members } else { i };
    let mut v: Vec<char> = Vec::new();
    push_str(&mut v, "=");
    push_str(&mut v, factor);
    push_str(&mut v, "*A");
    push_chars(&mut v, &dec_chars(prev as u64));
    push_str(&mut v, "+1");
    if range_reads > 0 {
        let start = i + 1;
        let reach = start as u64 + (range_reads - 1) as u64;
        let end = if reach <= members as u64 { reach as usize } else { members };
        push_str(&mut v, "+0.0001*SUM(A");
        push_chars(&mut v, &dec_chars(start as u64));
        push_str(&mut v, ":A");
        push_chars(&mut v, &dec_chars(end as u64));
        push_str(&mut v, ")");
    }
    string_of(&v)
}

/// Ring member `i` in column A, row `i + 1`.
pub open spec fn ring_step(factor: Seq<char>, members: nat, range_reads: nat) -> spec_fn(nat) -> Seq<CellView> {
    |i: nat| seq![formula_cell(0, i + 1, 1, ring_formula(factor, i, members, range_reads))]
}

/// The ring and a consumer `B1 = SUM(A1:A{members})`.
pub open spec fn ring_cells(factor: Seq<char>, members: nat, range_reads: nat) -> Seq<CellView> {
    flat(members, ring_step(factor, members, range_reads))
        + seq![formula_cell(0, 1, 2, pieces_text(seq![Piece::Lit("=SUM(A1:A"), Piece::Num(members as u64), Piece::Lit(")")]))]
}

/// Plans the ring fixture.
pub fn ring_plan(factor: &str, members: usize, range_reads: usize) -> (p: WorkbookPlan)
    requires
        members < u32::MAX,
        range_reads < u32::MAX,
    ensures
        names_view(p.sheets@) == seq!["Sheet1"@],
        cells_view(p.cells@) == ring_cells(factor@, members as nat, range_reads as nat),
{
    let sheets = sheet_names(vec!["Sheet1"]);
    let mut cells: Vec<PlannedCell> = Vec::new();
    assert(cells_view(cells@) =~= flat(0, ring_step(factor@, members as nat, range_reads as nat)));
    let mut i: usize = 0;
    while i < members
        invariant
            0 <= i <= members,
            members < u32::MAX,
            range_reads < u32::MAX,
            cells_view(cells@) == flat(i as nat, ring_step(factor@, members as nat, range_reads as nat)),
        decreases members - i,
    {
        push_formula(&mut cells, 0, (i + 1) as u32, 1, ring_member_formula(factor, i, members, range_reads));
        proof {
            lemma_flat_next(i as nat, ring_step(factor@, members as nat, range_reads as nat));
            assert(cells_view(cells@) =~= flat((i + 1) as nat, ring_step(factor@, members as nat, range_reads as nat)));
        }
        i = i + 1;
    }
    push_pieces(&mut cells, 0, 1, 2, vec![Piece::Lit("=SUM(A1:A"), Piece::Num(members as u64), Piece::Lit(")")]);
    WorkbookPlan { sheets, cells }
}

/// `target/scc-iterate-fixtures/<stem>.xlsx`: the stem names the label and
/// the workload's shape.
pub open spec fn spec_iterate_workbook_path(label: Seq<char>, workload: Workload, pairs: nat, members: nat, divergent: bool, range_reads: nat) -> Seq<char> {
    let stem = match workload {
        Workload::Pairs => sanitized(label) + "-pairs-"@ + dec(pairs),
        Workload::BigScc => sanitized(label) + "-big-scc-"@ + dec(members) + "-"@
            + (if divergent { "div"@ } else { "conv"@ })
            + (if range_reads > 0 { "-r"@ + dec(range_reads) } else { Seq::empty() }),
    };
    "target/scc-iterate-fixtures/"@ + stem + ".xlsx"@
}

pub fn iterate_default_workbook_path(label: &str, workload: Workload, pairs: usize, members: usize, divergent: bool, range_reads: usize) -> (s: String)
    requires
        pairs <= u64::MAX,
        members <= u64::MAX,
        range_reads <= u64::MAX,
    ensures
        s@ == spec_iterate_workbook_path(label@, workload, pairs as nat, members as nat, divergent, range_reads as nat),
{
    let mut v: Vec<char> = Vec::new();
    push_str(&mut v, "target/scc-iterate-fixtures/");
    let ghost before = v@;
    push_str(&mut v, sanitize(label).as_str());
    match workload {
        Workload::Pairs => {
            push_str(&mut v, "-pairs-");
            push_chars(&mut v, &dec_chars(pairs as u64));
        },
        Workload::BigScc => {
            push_str(&mut v, "-big-scc-");
            push_chars(&mut v, &dec_chars(members as u64));
            push_str(&mut v, "-");
            if divergent {
                push_str(&mut v, "div");
            } else {
                push_str(&mut v, "conv");
            }
            if range_reads > 0 {
                push_str(&mut v, "-r");
                push_chars(&mut v, &dec_chars(range_reads as u64));
            } else {
                assert(v@ + Seq::<char>::empty() =~= v@);
            }
        },
    }
    push_str(&mut v, ".xlsx");
    assert(v@ =~= spec_iterate_workbook_path(label@, workload, pairs as nat, members as nat, divergent, range_reads as nat));
    string_of(&v)
}

/// What the telemetry of an iterating evaluation showed wrongly.
#[derive(Clone, Copy, Debug, PartialEq, Eq, Structural)]
pub enum IterateCheckError {
    /// Not every cycle iterated.
    IteratedCount,
    /// Some convergent pair did not converge.
    PairsNotConverged,
    /// The divergent ring did not stop at the iteration cap.
    RingNotCapped,
    /// The convergent ring did not converge.
    RingNotConverged,
}

/// Every cycle must iterate; pairs must all converge; a divergent ring
/// must be capped and a convergent one must converge.
pub open spec fn spec_check_iterate_telemetry(workload: Workload, divergent: bool, scc_count: nat, iterated: nat, converged: nat, capped: nat) -> Result<(), IterateCheckError> {
    if iterated != scc_count {
        Err(IterateCheckError::IteratedCount)
    } else {
        match workload {
            Workload::Pairs => if converged != scc_count { Err(IterateCheckError::PairsNotConverged) } else { Ok(()) },
            Workload::BigScc => if divergent {
                if capped != 1 { Err(IterateCheckError::RingNotCapped) } else { Ok(()) }
            } else if converged != 1 {
                Err(IterateCheckError::RingNotConverged)
            } else {
                Ok(())
            },
        }
    }
}

pub fn check_iterate_telemetry(workload: Workload, divergent: bool, scc_count: usize, iterated: usize, converged: usize, capped: usize) -> (r: Result<(), IterateCheckError>)
    ensures
        r == spec_check_iterate_telemetry(workload, divergent, scc_count as nat, iterated as nat, converged as nat, capped as nat),
{
    if iterated != scc_count {
        Err(IterateCheckError::IteratedCount)
    } else {
        match workload {
            Workload::Pairs => if converged != scc_count { Err(IterateCheckError::PairsNotConverged) } else { Ok(()) },
            Workload::BigScc => if divergent {
                if capped != 1 { Err(IterateCheckError::RingNotCapped) } else { Ok(()) }
            } else if converged != 1 {
                Err(IterateCheckError::RingNotConverged)
            } else {
                Ok(())
            },
        }
    }
}

} // verus!
