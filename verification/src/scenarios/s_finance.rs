//! Anchored-arithmetic scenarios: the finance `A*B*$F$1` family with its SUM
//! rollup under rotating edits, and five mixed families over one column.

use vstd::prelude::*;
use crate::scenarios::common::{ScenarioTag, 
    ScaleState, ScenarioBuildCtx, ScenarioFixture, FixtureMetadata, ScenarioPhase, ScenarioScale,
    ScenarioInvariant, InvariantView, CellWrite, CellWriteView, EditPlan, fixture_path,
    spec_fixture_path, push_no_error, push_cell_equals, push_cell_equals_ratio, push_write,
    invariants_match, writes_match, sheet1_no_error, standard_rows, standard_row_count,
    resolved_scale, spec_has_evaluated, has_evaluated_formulas, spec_completed_cycles,
    completed_cycles, phase_ok, last_write, last_in_cycle, last_write_multi, lemma_last_write_bounds,
    lemma_last_write_multi_bounds, sum_to, lemma_sum_to_bounds,
};

verus! {

/// Largest cycle count the edit and value arithmetic is carried out for.
pub open spec fn cycle_cap() -> nat {
    0x1_0000_0000
}

/// Number of writes of a dense or sparse edit: sixteen, or every row when
/// there are fewer, and at least one.
pub open spec fn edit_len(cap: nat, rows: nat) -> nat {
    if rows == 0 { 1 } else if rows < cap { rows } else { cap }
}

fn edit_len_of(cap: usize, rows: usize) -> (r: usize)
    requires
        cap >= 1,
    ensures
        r == edit_len(cap as nat, rows as nat),
        1 <= r <= cap,
{
    if rows == 0 {
        1
    } else if rows < cap {
        rows
    } else {
        cap
    }
}

/// Finance family: units in A, prices in B, `A*B*$F$1` in C and a SUM
/// rollup in G1, edited in rotation (multiplier, dense units, sparse
/// prices).
pub struct S003FinanceAnchoredArithmeticFamily {
    scale: ScaleState,
}

/// Unit edits: cycles `1 mod 3` write sixteen consecutive rows starting at
/// `37 k mod rows`, wrapping.
pub open spec fn s003_unit_n(rows: nat) -> spec_fn(nat) -> nat {
    |k: nat| if k % 3 == 1 { edit_len(16, rows) } else { 0 }
}

pub open spec fn s003_unit_at(rows: nat) -> spec_fn(nat, nat) -> nat {
    |k: nat, i: nat| ((((k * 37) % rows) + i) % rows + 1) as nat
}

pub open spec fn s003_unit_val() -> spec_fn(nat, nat) -> int {
    |k: nat, i: nat| (1000 + k + i) as int
}

/// Price edits: cycles `2 mod 3` write sixteen rows `53 k + 97 i mod rows`.
pub open spec fn s003_price_n(rows: nat) -> spec_fn(nat) -> nat {
    |k: nat| if k % 3 == 2 { edit_len(16, rows) } else { 0 }
}

pub open spec fn sparse_at(rows: nat) -> spec_fn(nat, nat) -> nat {
    |k: nat, i: nat| ((k * 53 + i * 97) % rows + 1) as nat
}

pub open spec fn s003_price_val() -> spec_fn(nat, nat) -> int {
    |k: nat, i: nat| 20 + ((k + i) % 23) as int
}

/// Unit of `row` after `c` cycles.
pub open spec fn s003_unit(row: nat, rows: nat, c: nat) -> int {
    last_write_multi(row as int, row, c, s003_unit_n(rows), s003_unit_at(rows), s003_unit_val())
}

/// Price of `row` after `c` cycles.
pub open spec fn s003_price(row: nat, rows: nat, c: nat) -> int {
    last_write_multi(10 + (((row - 1) as nat) % 17) as int, row, c, s003_price_n(rows), sparse_at(rows), s003_price_val())
}

/// Multiplier in F1 after `c` cycles: cycles `0 mod 3` write `1 + k mod 5`.
pub open spec fn s003_multiplier(c: nat) -> int {
    last_write(1, 0, c, |k: nat| if k % 3 == 0 { 0nat } else { 1nat }, |k: nat| 1 + (k % 5) as int)
}

/// Line value `unit * price * multiplier` of `row`.
pub open spec fn s003_line(row: nat, rows: nat, c: nat) -> int {
    s003_unit(row, rows, c) * s003_price(row, rows, c) * s003_multiplier(c)
}

/// SUM of all line values.
pub open spec fn s003_rollup(rows: nat, c: nat) -> int {
    sum_to(|i: nat| s003_line(i + 1, rows, c), rows)
}

pub open spec fn s003_invariants(rows: nat, phase: ScenarioPhase) -> Seq<InvariantView> {
    let c = spec_completed_cycles(phase);
    sheet1_no_error() + if spec_has_evaluated(phase) {
        Seq::new(rows, |i: int| InvariantView::CellEquals("Sheet1"@, (i + 1) as nat, 3, s003_line((i + 1) as nat, rows, c)))
            .push(InvariantView::CellEquals("Sheet1"@, 1, 7, s003_rollup(rows, c)))
    } else {
        Seq::empty()
    }
}

/// The writes of edit cycle `k` given the detected lengths of columns A and B.
pub open spec fn s003_writes(k: nat, rows_a: nat, rows_b: nat) -> Seq<CellWriteView> {
    if k % 3 == 0 {
        seq![CellWriteView { sheet: "Sheet1"@, row: 1, col: 6, value: 1 + (k % 5) as int }]
    } else if k % 3 == 1 {
        Seq::new(edit_len(16, rows_a), |i: int| CellWriteView { sheet: "Sheet1"@, row: s003_unit_at(rows_a)(k, i as nat), col: 1, value: s003_unit_val()(k, i as nat) })
    } else {
        Seq::new(edit_len(16, rows_b), |i: int| CellWriteView { sheet: "Sheet1"@, row: sparse_at(rows_b)(k, i as nat), col: 2, value: s003_price_val()(k, i as nat) })
    }
}

pub open spec fn s003_label(k: nat) -> Seq<char> {
    if k % 3 == 0 { "multiplier"@ } else if k % 3 == 1 { "dense_units"@ } else { "sparse_prices"@ }
}

impl S003FinanceAnchoredArithmeticFamily {
    pub closed spec fn spec_scale(&self) -> Option<ScenarioScale> {
        self.scale.spec_scale()
    }

    pub fn new() -> (s: Self)
        ensures
            s.spec_scale() is None,
    {
        S003FinanceAnchoredArithmeticFamily { scale: ScaleState::new() }
    }

    pub fn rows(scale: ScenarioScale) -> (r: u32)
        ensures
            r == standard_rows(scale),
    {
        standard_row_count(scale)
    }

    pub fn id(&self) -> (s: &'static str)
        ensures
            s@ == "s003-finance-anchored-arithmetic-family"@,
    {
        "s003-finance-anchored-arithmetic-family"
    }

    /// Records the scale and plans units, prices, the `A*B*$F$1` column,
    /// the multiplier in F1 and the SUM rollup in G1.
    pub fn build_fixture(&mut self, ctx: &ScenarioBuildCtx) -> (f: ScenarioFixture)
        ensures
            final(self).spec_scale() == Some(ctx.scale),
            f.path@ == spec_fixture_path(ctx.fixture_dir@, ctx.label@, "s003-finance-anchored-arithmetic-family"@, ctx.scale),
            f.metadata == (FixtureMetadata { rows: standard_rows(ctx.scale), cols: 7, sheets: 1, formula_cells: (standard_rows(ctx.scale) + 1) as u32, value_cells: (standard_rows(ctx.scale) * 2 + 1) as u32, has_named_ranges: false, has_tables: false }),
    {
        self.scale.set(ctx.scale);
        let rows = Self::rows(ctx.scale);
        let path = fixture_path(ctx, self.id());
        ScenarioFixture {
            path,
            metadata: FixtureMetadata { rows, cols: 7, sheets: 1, formula_cells: rows + 1, value_cells: rows * 2 + 1, has_named_ranges: false, has_tables: false },
        }
    }

    pub fn edit_plan(&self) -> (p: EditPlan)
        ensures
            p.cycles == 5,
    {
        EditPlan { cycles: 5 }
    }

    /// Price of `row` before any edit.
    pub fn initial_price(row: u32) -> (p: i128)
        requires
            row >= 1,
        ensures
            p == 10 + (((row - 1) as nat) % 17) as int,
    {
        10 + ((row - 1) % 17) as i128
    }

    /// Cycle `cycle` either sets the multiplier in F1, rewrites sixteen
    /// consecutive units, or rewrites sixteen scattered prices; `rows_a` and
    /// `rows_b` are the detected lengths of columns A and B.
    pub fn edit_writes(cycle: usize, rows_a: usize, rows_b: usize) -> (r: (Vec<CellWrite>, &'static str))
        requires
            cycle < cycle_cap(),
            0 < rows_a <= u32::MAX,
            0 < rows_b <= u32::MAX,
        ensures
            writes_match(r.0@, s003_writes(cycle as nat, rows_a as nat, rows_b as nat)),
            r.1@ == s003_label(cycle as nat),
    {
        let mut v: Vec<CellWrite> = Vec::new();
        let ghost spec = s003_writes(cycle as nat, rows_a as nat, rows_b as nat);
        if cycle % 3 == 0 {
            push_write(&mut v, "Sheet1", 1, 6, 1 + (cycle % 5) as i128);
            (v, "multiplier")
        } else if cycle % 3 == 1 {
            let len = edit_len_of(16, rows_a);
            let start = ((cycle as u128) * 37) % (rows_a as u128);
            let mut idx: usize = 0;
            while idx < len
                invariant
                    0 <= idx <= len,
                    len == edit_len(16, rows_a as nat),
                    len <= 16,
                    cycle < cycle_cap(),
                    cycle % 3 == 1,
                    0 < rows_a <= u32::MAX,
                    start == ((cycle as nat) * 37) % (rows_a as nat),
                    spec == s003_writes(cycle as nat, rows_a as nat, rows_b as nat),
                    writes_match(v@, spec.subrange(0, idx as int)),
                decreases len - idx,
            {
                let row = ((start + idx as u128) % (rows_a as u128)) as u32 + 1;
                push_write(&mut v, "Sheet1", row, 1, 1000 + cycle as i128 + idx as i128);
                assert(spec[idx as int] == CellWriteView { sheet: "Sheet1"@, row: row as nat, col: 1, value: 1000 + cycle + idx });
                idx = idx + 1;
            }
            assert(spec.subrange(0, idx as int) =~= spec);
            (v, "dense_units")
        } else {
            let len = edit_len_of(16, rows_b);
            let mut idx: usize = 0;
            while idx < len
                invariant
                    0 <= idx <= len,
                    len == edit_len(16, rows_b as nat),
                    len <= 16,
                    cycle < cycle_cap(),
                    cycle % 3 == 2,
                    0 < rows_b <= u32::MAX,
                    spec == s003_writes(cycle as nat, rows_a as nat, rows_b as nat),
                    writes_match(v@, spec.subrange(0, idx as int)),
                decreases len - idx,
            {
                let row = (((cycle as u128) * 53 + (idx as u128) * 97) % (rows_b as u128)) as u32 + 1;
                let value = 20 + ((cycle as u128 + idx as u128) % 23) as i128;
                push_write(&mut v, "Sheet1", row, 2, value);
                assert(spec[idx as int] == CellWriteView { sheet: "Sheet1"@, row: row as nat, col: 2, value: value as int });
                idx = idx + 1;
            }
            assert(spec.subrange(0, idx as int) =~= spec);
            (v, "sparse_prices")
        }
    }

    /// Unit of `row` after `completed_cycles` cycles.
    pub fn unit_at(row: u32, rows: u32, completed_cycles: usize) -> (u: i128)
        requires
            1 <= row,
            rows > 0,
            completed_cycles < cycle_cap(),
        ensures
            u == s003_unit(row as nat, rows as nat, completed_cycles as nat),
            0 <= u <= 0x1_0000_0000_0000,
    {
        let mut unit: i128 = row as i128;
        let mut cycle: usize = 0;
        while cycle < completed_cycles
            invariant
                0 <= cycle <= completed_cycles < cycle_cap(),
                rows > 0,
                unit == s003_unit(row as nat, rows as nat, cycle as nat),
            decreases completed_cycles - cycle,
        {
            let ghost prev = unit as int;
            if cycle % 3 == 1 {
                let len = edit_len_of(16, rows as usize);
                let start = ((cycle as u128) * 37) % (rows as u128);
                let mut idx: usize = 0;
                while idx < len
                    invariant
                        0 <= idx <= len <= 16,
                        len == edit_len(16, rows as nat),
                        cycle < cycle_cap(),
                        rows > 0,
                        start == ((cycle as nat) * 37) % (rows as nat),
                        unit == last_in_cycle(prev, row as nat, cycle as nat, idx as nat, s003_unit_at(rows as nat), s003_unit_val()),
                    decreases len - idx,
                {
                    if row as u128 == ((start + idx as u128) % (rows as u128)) + 1 {
                        unit = 1000 + cycle as i128 + idx as i128;
                    }
                    idx = idx + 1;
                }
            }
            cycle = cycle + 1;
        }
        proof {
            lemma_last_write_multi_bounds(row as int, row as nat, completed_cycles as nat, s003_unit_n(rows as nat), s003_unit_at(rows as nat), s003_unit_val(), 0, 0x1_0000_0000_0000);
        }
        unit
    }

    /// Price of `row` after `completed_cycles` cycles.
    pub fn price_at(row: u32, rows: u32, completed_cycles: usize) -> (p: i128)
        requires
            1 <= row,
            rows > 0,
            completed_cycles < cycle_cap(),
        ensures
            p == s003_price(row as nat, rows as nat, completed_cycles as nat),
            10 <= p <= 42,
    {
        let mut price: i128 = Self::initial_price(row);
        let mut cycle: usize = 0;
        while cycle < completed_cycles
            invariant
                0 <= cycle <= completed_cycles < cycle_cap(),
                rows > 0,
                row >= 1,
                price == s003_price(row as nat, rows as nat, cycle as nat),
            decreases completed_cycles - cycle,
        {
            let ghost prev = price as int;
            if cycle % 3 == 2 {
                let len = edit_len_of(16, rows as usize);
                let mut idx: usize = 0;
                while idx < len
                    invariant
                        0 <= idx <= len <= 16,
                        len == edit_len(16, rows as nat),
                        cycle < cycle_cap(),
                        rows > 0,
                        price == last_in_cycle(prev, row as nat, cycle as nat, idx as nat, sparse_at(rows as nat), s003_price_val()),
                    decreases len - idx,
                {
                    if row as u128 == (((cycle as u128) * 53 + (idx as u128) * 97) % (rows as u128)) + 1 {
                        price = 20 + ((cycle as u128 + idx as u128) % 23) as i128;
                    }
                    idx = idx + 1;
                }
            }
            cycle = cycle + 1;
        }
        proof {
            lemma_last_write_multi_bounds(10 + (((row - 1) as nat) % 17) as int, row as nat, completed_cycles as nat, s003_price_n(rows as nat), sparse_at(rows as nat), s003_price_val(), 10, 42);
        }
        price
    }

    /// Multiplier after `completed_cycles` cycles.
    pub fn multiplier_at(completed_cycles: usize) -> (m: i128)
        ensures
            m == s003_multiplier(completed_cycles as nat),
            1 <= m <= 5,
    {
        let mut m: i128 = 1;
        let mut cycle: usize = 0;
        while cycle < completed_cycles
            invariant
                0 <= cycle <= completed_cycles,
                m == s003_multiplier(cycle as nat),
            decreases completed_cycles - cycle,
        {
            if cycle % 3 == 0 {
                m = 1 + (cycle % 5) as i128;
            }
            cycle = cycle + 1;
        }
        proof {
            lemma_last_write_bounds(1, 0, completed_cycles as nat, |k: nat| if k % 3 == 0 { 0nat } else { 1nat }, |k: nat| 1 + (k % 5) as int, 1, 5);
        }
        m
    }

    /// Line value of `row` after `completed_cycles` cycles.
    pub fn line_value(row: u32, rows: u32, completed_cycles: usize) -> (v: i128)
        requires
            1 <= row,
            rows > 0,
            completed_cycles < cycle_cap(),
        ensures
            v == s003_line(row as nat, rows as nat, completed_cycles as nat),
            0 <= v <= 210 * 0x1_0000_0000_0000,
    {
        let u = Self::unit_at(row, rows, completed_cycles);
        let p = Self::price_at(row, rows, completed_cycles);
        let m = Self::multiplier_at(completed_cycles);
        proof {
            assert(0 <= u * p <= 0x1_0000_0000_0000 * 42) by (nonlinear_arith)
                requires 0 <= u <= 0x1_0000_0000_0000, 10 <= p <= 42;
            assert(0 <= u * p * m <= 210 * 0x1_0000_0000_0000) by (nonlinear_arith)
                requires 0 <= u * p <= 0x1_0000_0000_0000 * 42, 1 <= m <= 5;
        }
        u * p * m
    }

    /// SUM rollup of all line values after `completed_cycles` cycles.
    pub fn expected_rollup(rows: u32, completed_cycles: usize) -> (v: i128)
        requires
            0 < rows <= 50_000,
            completed_cycles < cycle_cap(),
        ensures
            v == s003_rollup(rows as nat, completed_cycles as nat),
    {
        let ghost f = |i: nat| s003_line(i + 1, rows as nat, completed_cycles as nat);
        let mut total: i128 = 0;
        let mut row: u32 = 1;
        while row <= rows
            invariant
                1 <= row <= rows + 1,
                0 < rows <= 50_000,
                completed_cycles < cycle_cap(),
                f == (|i: nat| s003_line(i + 1, rows as nat, completed_cycles as nat)),
                total == sum_to(f, (row - 1) as nat),
                0 <= total <= (row - 1) * (210 * 0x1_0000_0000_0000),
            decreases rows + 1 - row,
        {
            let v = Self::line_value(row, rows, completed_cycles);
            proof {
                assert(f((row - 1) as nat) == v);
                assert((row - 1) * (210 * 0x1_0000_0000_0000) + 210 * 0x1_0000_0000_0000 == row * (210 * 0x1_0000_0000_0000)) by (nonlinear_arith);
                assert(row * (210 * 0x1_0000_0000_0000) <= 50_000 * (210 * 0x1_0000_0000_0000)) by (nonlinear_arith)
                    requires row <= 50_000;
            }
            total = total + v;
            row = row + 1;
        }
        total
    }

    /// No errors; once evaluated every line shows `unit * price * multiplier`
    /// and G1 shows their sum.
    pub fn invariants(&self, phase: ScenarioPhase, global: Option<ScenarioScale>) -> (v: Vec<ScenarioInvariant>)
        requires
            phase_ok(phase),
            spec_completed_cycles(phase) < cycle_cap(),
        ensures
            invariants_match(v@, s003_invariants(standard_rows(resolved_scale(self.spec_scale(), global)) as nat, phase)),
    {
        let rows = Self::rows(self.scale.get_or_small(global));
        let ghost spec = s003_invariants(rows as nat, phase);
        let mut v: Vec<ScenarioInvariant> = Vec::new();
        push_no_error(&mut v, "Sheet1");
        assert(spec.subrange(0, 1) =~= sheet1_no_error());
        if has_evaluated_formulas(phase) {
            let cycles = completed_cycles(phase);
            let mut row: u32 = 1;
            while row <= rows
                invariant
                    1 <= row <= rows + 1,
                    0 < rows <= 50_000,
                    spec_has_evaluated(phase),
                    cycles as nat == spec_completed_cycles(phase),
                    cycles < cycle_cap(),
                    spec == s003_invariants(rows as nat, phase),
                    invariants_match(v@, spec.subrange(0, row as int)),
                decreases rows + 1 - row,
            {
                let value = Self::line_value(row, rows, cycles);
                push_cell_equals(&mut v, "Sheet1", row, 3, value);
                assert(spec[row as int] == InvariantView::CellEquals("Sheet1"@, row as nat, 3, value as int));
                row = row + 1;
            }
            let total = Self::expected_rollup(rows, cycles);
            push_cell_equals(&mut v, "Sheet1", 1, 7, total);
            assert(spec[rows + 1] == InvariantView::CellEquals("Sheet1"@, 1, 7, total as int));
            assert(spec.subrange(0, rows + 2) =~= spec);
        } else {
            assert(spec.subrange(0, 1) =~= spec);
        }
        v
    }
}


/// Five formula families over column A: `A+1`, `A*2`, `A-3`, `A/2` and
/// `A+B`, with sixteen scattered inputs rewritten per cycle.
pub struct S004FiveMixedFamilies {
    scale: ScaleState,
}

pub open spec fn s004_n() -> spec_fn(nat) -> nat {
    |k: nat| 16nat
}

pub open spec fn s004_val() -> spec_fn(nat, nat) -> int {
    |k: nat, i: nat| (2000 + k * 16 + i) as int
}

/// Column-A value of `row` after `c` cycles.
pub open spec fn s004_a(row: nat, rows: nat, c: nat) -> int {
    last_write_multi(row as int, row, c, s004_n(), sparse_at(rows), s004_val())
}

/// The check on column `2 + j` of `row` for an A value `a`.
pub open spec fn s004_check(row: nat, j: nat, a: int) -> InvariantView {
    if j == 0 {
        InvariantView::CellEquals("Sheet1"@, row, 2, a + 1)
    } else if j == 1 {
        InvariantView::CellEquals("Sheet1"@, row, 3, a * 2)
    } else if j == 2 {
        InvariantView::CellEquals("Sheet1"@, row, 4, a - 3)
    } else if j == 3 {
        InvariantView::CellEqualsRatio("Sheet1"@, row, 5, a, 2)
    } else {
        InvariantView::CellEquals("Sheet1"@, row, 6, a + (a + 1))
    }
}

pub open spec fn s004_invariants(rows: nat, phase: ScenarioPhase) -> Seq<InvariantView> {
    let c = spec_completed_cycles(phase);
    sheet1_no_error() + if spec_has_evaluated(phase) {
        Seq::new(5 * rows, |i: int| s004_check((i / 5 + 1) as nat, (i % 5) as nat, s004_a((i / 5 + 1) as nat, rows, c)))
    } else {
        Seq::empty()
    }
}

impl S004FiveMixedFamilies {
    pub closed spec fn spec_scale(&self) -> Option<ScenarioScale> {
        self.scale.spec_scale()
    }

    pub fn new() -> (s: Self)
        ensures
            s.spec_scale() is None,
    {
        S004FiveMixedFamilies { scale: ScaleState::new() }
    }

    pub fn rows(scale: ScenarioScale) -> (r: u32)
        ensures
            r == standard_rows(scale),
    {
        standard_row_count(scale)
    }

    pub fn id(&self) -> (s: &'static str)
        ensures
            s@ == "s004-five-mixed-families"@,
    {
        "s004-five-mixed-families"
    }

    /// Records the scale and plans column A and the five families.
    pub fn build_fixture(&mut self, ctx: &ScenarioBuildCtx) -> (f: ScenarioFixture)
        ensures
            final(self).spec_scale() == Some(ctx.scale),
            f.path@ == spec_fixture_path(ctx.fixture_dir@, ctx.label@, "s004-five-mixed-families"@, ctx.scale),
            f.metadata == (FixtureMetadata { rows: standard_rows(ctx.scale), cols: 6, sheets: 1, formula_cells: (standard_rows(ctx.scale) * 5) as u32, value_cells: standard_rows(ctx.scale), has_named_ranges: false, has_tables: false }),
    {
        self.scale.set(ctx.scale);
        let rows = Self::rows(ctx.scale);
        let path = fixture_path(ctx, self.id());
        ScenarioFixture {
            path,
            metadata: FixtureMetadata { rows, cols: 6, sheets: 1, formula_cells: rows * 5, value_cells: rows, has_named_ranges: false, has_tables: false },
        }
    }

    pub fn edit_plan(&self) -> (p: EditPlan)
        ensures
            p.cycles == 5,
    {
        EditPlan { cycles: 5 }
    }

    /// Cycle `cycle` writes `2000 + 16 cycle + i` into A at row
    /// `53 cycle + 97 i mod rows + 1` for `i < 16`.
    pub fn edit_writes(cycle: usize, rows: usize) -> (r: (Vec<CellWrite>, &'static str))
        requires
            cycle < cycle_cap(),
            0 < rows <= u32::MAX,
        ensures
            writes_match(r.0@, Seq::new(16, |i: int| CellWriteView { sheet: "Sheet1"@, row: sparse_at(rows as nat)(cycle as nat, i as nat), col: 1, value: s004_val()(cycle as nat, i as nat) })),
            r.1@ == "random_a_subset"@,
    {
        let ghost spec = Seq::new(16, |i: int| CellWriteView { sheet: "Sheet1"@, row: sparse_at(rows as nat)(cycle as nat, i as nat), col: 1, value: s004_val()(cycle as nat, i as nat) });
        let mut v: Vec<CellWrite> = Vec::new();
        let mut idx: usize = 0;
        while idx < 16
            invariant
                0 <= idx <= 16,
                cycle < cycle_cap(),
                0 < rows <= u32::MAX,
                spec == Seq::new(16, |i: int| CellWriteView { sheet: "Sheet1"@, row: sparse_at(rows as nat)(cycle as nat, i as nat), col: 1, value: s004_val()(cycle as nat, i as nat) }),
                writes_match(v@, spec.subrange(0, idx as int)),
            decreases 16 - idx,
        {
            let row = (((cycle as u128) * 53 + (idx as u128) * 97) % (rows as u128)) as u32 + 1;
            let value = 2000 + (cycle as i128) * 16 + idx as i128;
            push_write(&mut v, "Sheet1", row, 1, value);
            assert(spec[idx as int] == CellWriteView { sheet: "Sheet1"@, row: row as nat, col: 1, value: value as int });
            idx = idx + 1;
        }
        assert(spec.subrange(0, 16) =~= spec);
        (v, "random_a_subset")
    }

    /// Column-A value of `row` after `completed_cycles` cycles.
    pub fn a_at(row: u32, rows: u32, completed_cycles: usize) -> (a: i128)
        requires
            rows > 0,
            completed_cycles < cycle_cap(),
        ensures
            a == s004_a(row as nat, rows as nat, completed_cycles as nat),
            0 <= a <= 0x1_0000_0000_0000,
    {
        let mut value: i128 = row as i128;
        let mut cycle: usize = 0;
        while cycle < completed_cycles
            invariant
                0 <= cycle <= completed_cycles < cycle_cap(),
                rows > 0,
                value == s004_a(row as nat, rows as nat, cycle as nat),
            decreases completed_cycles - cycle,
        {
            let ghost prev = value as int;
            let mut idx: usize = 0;
            while idx < 16
                invariant
                    0 <= idx <= 16,
                    cycle < cycle_cap(),
                    rows > 0,
                    value == last_in_cycle(prev, row as nat, cycle as nat, idx as nat, sparse_at(rows as nat), s004_val()),
                decreases 16 - idx,
            {
                if row as u128 == (((cycle as u128) * 53 + (idx as u128) * 97) % (rows as u128)) + 1 {
                    value = 2000 + (cycle as i128) * 16 + idx as i128;
                }
                idx = idx + 1;
            }
            cycle = cycle + 1;
        }
        proof {
            assert forall|k: nat, i: nat| k < completed_cycles && i < s004_n()(k) implies 0 <= #[trigger] s004_val()(k, i) <= 0x1_0000_0000_0000 by {
                assert(k * 16 <= 0x1_0000_0000 * 16) by (nonlinear_arith) requires k < 0x1_0000_0000;
            }
            lemma_last_write_multi_bounds(row as int, row as nat, completed_cycles as nat, s004_n(), sparse_at(rows as nat), s004_val(), 0, 0x1_0000_0000_0000);
        }
        value
    }

    /// No errors; once evaluated each row shows `A+1`, `2A`, `A-3`, `A/2`
    /// and `2A+1` for its current A.
    pub fn invariants(&self, phase: ScenarioPhase, global: Option<ScenarioScale>) -> (v: Vec<ScenarioInvariant>)
        requires
            phase_ok(phase),
            spec_completed_cycles(phase) < cycle_cap(),
        ensures
            invariants_match(v@, s004_invariants(standard_rows(resolved_scale(self.spec_scale(), global)) as nat, phase)),
    {
        let rows = Self::rows(self.scale.get_or_small(global));
        let ghost spec = s004_invariants(rows as nat, phase);
        let mut v: Vec<ScenarioInvariant> = Vec::new();
        push_no_error(&mut v, "Sheet1");
        assert(spec.subrange(0, 1) =~= sheet1_no_error());
        if has_evaluated_formulas(phase) {
            let cycles = completed_cycles(phase);
            let mut row: u32 = 1;
            while row <= rows
                invariant
                    1 <= row <= rows + 1,
                    0 < rows <= 50_000,
                    spec_has_evaluated(phase),
                    cycles as nat == spec_completed_cycles(phase),
                    cycles < cycle_cap(),
                    spec == s004_invariants(rows as nat, phase),
                    invariants_match(v@, spec.subrange(0, 5 * (row - 1) + 1)),
                decreases rows + 1 - row,
            {
                let a = Self::a_at(row, rows, cycles);
                push_cell_equals(&mut v, "Sheet1", row, 2, a + 1);
                push_cell_equals(&mut v, "Sheet1", row, 3, a * 2);
                push_cell_equals(&mut v, "Sheet1", row, 4, a - 3);
                push_cell_equals_ratio(&mut v, "Sheet1", row, 5, a, 2);
                push_cell_equals(&mut v, "Sheet1", row, 6, a + (a + 1));
                proof {
                    let b = 5 * (row - 1) + 1;
                    assert((b - 1 + 0) / 5 + 1 == row && (b - 1 + 0) % 5 == 0) by (nonlinear_arith) requires b == 5 * (row - 1) + 1, row >= 1;
                    assert((b + 1 - 1) / 5 + 1 == row && (b + 1 - 1) % 5 == 1) by (nonlinear_arith) requires b == 5 * (row - 1) + 1, row >= 1;
                    assert((b + 2 - 1) / 5 + 1 == row && (b + 2 - 1) % 5 == 2) by (nonlinear_arith) requires b == 5 * (row - 1) + 1, row >= 1;
                    assert((b + 3 - 1) / 5 + 1 == row && (b + 3 - 1) % 5 == 3) by (nonlinear_arith) requires b == 5 * (row - 1) + 1, row >= 1;
                    assert((b + 4 - 1) / 5 + 1 == row && (b + 4 - 1) % 5 == 4) by (nonlinear_arith) requires b == 5 * (row - 1) + 1, row >= 1;
                    assert(spec[b] == s004_check(row as nat, 0, a as int));
                    assert(spec[b + 1] == s004_check(row as nat, 1, a as int));
                    assert(spec[b + 2] == s004_check(row as nat, 2, a as int));
                    assert(spec[b + 3] == s004_check(row as nat, 3, a as int));
                    assert(spec[b + 4] == s004_check(row as nat, 4, a as int));
                }
                row = row + 1;
            }
            assert(spec.subrange(0, 5 * (row - 1) + 1) =~= spec);
        } else {
            assert(spec.subrange(0, 1) =~= spec);
        }
        v
    }
}


/// A write of `halves / 2` into one cell (for inputs that are not whole
/// numbers).
#[derive(Clone, Debug)]
pub struct HalfWrite {
    pub sheet: String,
    pub row: u32,
    pub col: u32,
    pub halves: i128,
}

/// Mathematical content of a half write.
pub struct HalfWriteView {
    pub sheet: Seq<char>,
    pub row: nat,
    pub col: nat,
    pub halves: int,
}

pub open spec fn half_view(w: HalfWrite) -> HalfWriteView {
    HalfWriteView { sheet: w.sheet@, row: w.row as nat, col: w.col as nat, halves: w.halves as int }
}

pub open spec fn half_writes_match(v: Seq<HalfWrite>, s: Seq<HalfWriteView>) -> bool {
    &&& v.len() == s.len()
    &&& forall|i: int| 0 <= i < v.len() ==> half_view(#[trigger] v[i]) == s[i]
}

fn push_half(v: &mut Vec<HalfWrite>, row: u32, col: u32, halves: i128)
    ensures
        final(v)@.len() == old(v)@.len() + 1,
        forall|i: int| 0 <= i < old(v)@.len() ==> final(v)@[i] == old(v)@[i],
        half_view(final(v)@[old(v)@.len() as int]) == (HalfWriteView { sheet: "Sheet1"@, row: row as nat, col: col as nat, halves: halves as int }),
{
    v.push(HalfWrite { sheet: crate::text::owned("Sheet1"), row, col, halves });
}

/// Finance family with eight scripted edit cycles: multiplier 2, sixteen
/// dense units, sixteen sparse prices, fifty contiguous units, fifty sparse
/// half-step prices, multiplier 3.5, and the two bulk edits again.
pub struct S031FinanceAnchoredWithEditCycles {
    scale: ScaleState,
}

/// First row (0-based) of a contiguous bulk unit edit.
pub open spec fn bulk_start(k: nat, rows: nat) -> nat {
    let a = (k * 101) % rows;
    let b = if rows >= 50 { (rows - 50) as nat } else { 0 };
    if a <= b { a } else { b }
}

pub open spec fn s031_unit_n(rows: nat) -> spec_fn(nat) -> nat {
    |k: nat| if k == 1 { edit_len(16, rows) } else if k == 3 || k == 6 { edit_len(50, rows) } else { 0 }
}

pub open spec fn s031_unit_at(rows: nat) -> spec_fn(nat, nat) -> nat {
    |k: nat, i: nat| if k == 1 { ((11 + i) % rows + 1) as nat } else { bulk_start(k, rows) + i + 1 }
}

pub open spec fn s031_unit_val() -> spec_fn(nat, nat) -> int {
    |k: nat, i: nat| if k == 1 { (1000 + k + i) as int } else { (2000 + 10 * k + i) as int }
}

pub open spec fn s031_price_n(rows: nat) -> spec_fn(nat) -> nat {
    |k: nat| if k == 2 { edit_len(16, rows) } else if k == 4 || k == 7 { edit_len(50, rows) } else { 0 }
}

/// Written price in halves.
pub open spec fn s031_price_halves() -> spec_fn(nat, nat) -> int {
    |k: nat, i: nat| if k == 2 { 2 * (20 + ((k + i) % 23) as int) } else { (2 * (50 + k) + i) as int }
}

/// Unit of `row` after `c` cycles.
pub open spec fn s031_unit(row: nat, rows: nat, c: nat) -> int {
    last_write_multi(row as int, row, c, s031_unit_n(rows), s031_unit_at(rows), s031_unit_val())
}

/// Price of `row` after `c` cycles, in halves.
pub open spec fn s031_price2(row: nat, rows: nat, c: nat) -> int {
    last_write_multi(2 * (10 + (((row - 1) as nat) % 17) as int), row, c, s031_price_n(rows), sparse_at(rows), s031_price_halves())
}

/// Multiplier after `c` cycles, in halves: 1, then 2 from cycle 0, then 3.5
/// from cycle 5.
pub open spec fn s031_mult2(c: nat) -> int {
    last_write(2, 0, c, |k: nat| if k == 0 || k == 5 { 0nat } else { 1nat }, |k: nat| if k == 0 { 4int } else { 7int })
}

/// Line value of `row`, in quarters.
pub open spec fn s031_line4(row: nat, rows: nat, c: nat) -> int {
    s031_unit(row, rows, c) * s031_price2(row, rows, c) * s031_mult2(c)
}

/// Rollup, in quarters.
pub open spec fn s031_rollup4(rows: nat, c: nat) -> int {
    sum_to(|i: nat| s031_line4(i + 1, rows, c), rows)
}

pub open spec fn s031_invariants(rows: nat, phase: ScenarioPhase) -> Seq<InvariantView> {
    let c = spec_completed_cycles(phase);
    sheet1_no_error() + if spec_has_evaluated(phase) {
        Seq::new(rows, |i: int| InvariantView::CellEqualsRatio("Sheet1"@, (i + 1) as nat, 3, s031_line4((i + 1) as nat, rows, c), 4))
            .push(InvariantView::CellEqualsRatio("Sheet1"@, 1, 7, s031_rollup4(rows, c), 4))
    } else {
        Seq::empty()
    }
}

/// The writes of cycle `k`, values in halves.
pub open spec fn s031_writes(k: nat, rows: nat) -> Seq<HalfWriteView> {
    if k == 0 {
        seq![HalfWriteView { sheet: "Sheet1"@, row: 1, col: 6, halves: 4 }]
    } else if k == 5 {
        seq![HalfWriteView { sheet: "Sheet1"@, row: 1, col: 6, halves: 7 }]
    } else if k == 1 || k == 3 || k == 6 {
        Seq::new(s031_unit_n(rows)(k), |i: int| HalfWriteView { sheet: "Sheet1"@, row: s031_unit_at(rows)(k, i as nat), col: 1, halves: 2 * s031_unit_val()(k, i as nat) })
    } else if k == 2 || k == 4 || k == 7 {
        Seq::new(s031_price_n(rows)(k), |i: int| HalfWriteView { sheet: "Sheet1"@, row: sparse_at(rows)(k, i as nat), col: 2, halves: s031_price_halves()(k, i as nat) })
    } else {
        Seq::empty()
    }
}

pub open spec fn s031_label(k: nat) -> Seq<char> {
    if k == 0 { "multiplier_2"@ }
    else if k == 1 { "dense_units_16"@ }
    else if k == 2 { "sparse_prices_16"@ }
    else if k == 3 { "bulk_units_contiguous_50"@ }
    else if k == 4 { "bulk_prices_sparse_50"@ }
    else if k == 5 { "multiplier_3_5"@ }
    else if k == 6 { "bulk_units_contiguous_50_b"@ }
    else if k == 7 { "bulk_prices_sparse_50_b"@ }
    else { "noop"@ }
}

fn bulk_start_of(cycle: usize, rows: usize) -> (s: usize)
    requires
        0 < rows,
        cycle < cycle_cap(),
    ensures
        s == bulk_start(cycle as nat, rows as nat),
        s < rows,
{
    let a = ((cycle as u128 * 101) % rows as u128) as usize;
    let b = if rows >= 50 { rows - 50 } else { 0 };
    if a <= b { a } else { b }
}

proof fn lemma_bulk_rows(k: nat, rows: nat, i: nat)
    requires
        rows > 0,
        i < edit_len(50, rows),
    ensures
        bulk_start(k, rows) + i < rows,
{
}

impl S031FinanceAnchoredWithEditCycles {
    pub closed spec fn spec_scale(&self) -> Option<ScenarioScale> {
        self.scale.spec_scale()
    }

    pub fn new() -> (s: Self)
        ensures
            s.spec_scale() is None,
    {
        S031FinanceAnchoredWithEditCycles { scale: ScaleState::new() }
    }

    pub fn rows(scale: ScenarioScale) -> (r: u32)
        ensures
            r == standard_rows(scale),
    {
        standard_row_count(scale)
    }

    pub fn id(&self) -> (s: &'static str)
        ensures
            s@ == "s031-finance-anchored-with-edit-cycles"@,
    {
        "s031-finance-anchored-with-edit-cycles"
    }

    /// Records the scale and plans the finance family and its rollup.
    pub fn build_fixture(&mut self, ctx: &ScenarioBuildCtx) -> (f: ScenarioFixture)
        ensures
            final(self).spec_scale() == Some(ctx.scale),
            f.path@ == spec_fixture_path(ctx.fixture_dir@, ctx.label@, "s031-finance-anchored-with-edit-cycles"@, ctx.scale),
            f.metadata == (FixtureMetadata { rows: standard_rows(ctx.scale), cols: 7, sheets: 1, formula_cells: (standard_rows(ctx.scale) + 1) as u32, value_cells: (standard_rows(ctx.scale) * 2 + 1) as u32, has_named_ranges: false, has_tables: false }),
    {
        self.scale.set(ctx.scale);
        let rows = Self::rows(ctx.scale);
        let path = fixture_path(ctx, self.id());
        ScenarioFixture {
            path,
            metadata: FixtureMetadata { rows, cols: 7, sheets: 1, formula_cells: rows + 1, value_cells: rows * 2 + 1, has_named_ranges: false, has_tables: false },
        }
    }

    pub fn edit_plan(&self) -> (p: EditPlan)
        ensures
            p.cycles == 8,
    {
        EditPlan { cycles: 8 }
    }

    /// The writes of cycle `cycle` (values in halves) and its label; cycles
    /// past the eighth write nothing. `rows` is the detected length of
    /// column A.
    pub fn edit_writes(cycle: usize, rows: usize) -> (r: (Vec<HalfWrite>, &'static str))
        requires
            cycle < cycle_cap(),
            0 < rows <= u32::MAX,
        ensures
            half_writes_match(r.0@, s031_writes(cycle as nat, rows as nat)),
            r.1@ == s031_label(cycle as nat),
    {
        let ghost spec = s031_writes(cycle as nat, rows as nat);
        let mut v: Vec<HalfWrite> = Vec::new();
        if cycle == 0 {
            push_half(&mut v, 1, 6, 4);
            return (v, "multiplier_2");
        }
        if cycle == 5 {
            push_half(&mut v, 1, 6, 7);
            return (v, "multiplier_3_5");
        }
        if cycle == 1 || cycle == 3 || cycle == 6 {
            let len = if cycle == 1 { edit_len_of(16, rows) } else { edit_len_of(50, rows) };
            let start = if cycle == 1 { 0 } else { bulk_start_of(cycle, rows) };
            let mut idx: usize = 0;
            while idx < len
                invariant
                    0 <= idx <= len <= 50,
                    cycle == 1 || cycle == 3 || cycle == 6,
                    len == s031_unit_n(rows as nat)(cycle as nat),
                    cycle != 1 ==> start == bulk_start(cycle as nat, rows as nat),
                    0 < rows <= u32::MAX,
                    spec == s031_writes(cycle as nat, rows as nat),
                    half_writes_match(v@, spec.subrange(0, idx as int)),
                decreases len - idx,
            {
                let row: u32 = if cycle == 1 {
                    ((11 + idx) % rows) as u32 + 1
                } else {
                    proof { lemma_bulk_rows(cycle as nat, rows as nat, idx as nat); }
                    (start + idx) as u32 + 1
                };
                let units: i128 = if cycle == 1 { 1000 + cycle as i128 + idx as i128 } else { 2000 + 10 * cycle as i128 + idx as i128 };
                push_half(&mut v, row, 1, 2 * units);
                assert(spec[idx as int] == HalfWriteView { sheet: "Sheet1"@, row: row as nat, col: 1, halves: 2 * units });
                idx = idx + 1;
            }
            assert(spec.subrange(0, idx as int) =~= spec);
            let label = if cycle == 1 { "dense_units_16" } else if cycle == 3 { "bulk_units_contiguous_50" } else { "bulk_units_contiguous_50_b" };
            return (v, label);
        }
        if cycle == 2 || cycle == 4 || cycle == 7 {
            let len = if cycle == 2 { edit_len_of(16, rows) } else { edit_len_of(50, rows) };
            let mut idx: usize = 0;
            while idx < len
                invariant
                    0 <= idx <= len <= 50,
                    cycle == 2 || cycle == 4 || cycle == 7,
                    len == s031_price_n(rows as nat)(cycle as nat),
                    0 < rows <= u32::MAX,
                    spec == s031_writes(cycle as nat, rows as nat),
                    half_writes_match(v@, spec.subrange(0, idx as int)),
                decreases len - idx,
            {
                let row = (((cycle as u128) * 53 + (idx as u128) * 97) % (rows as u128)) as u32 + 1;
                let halves: i128 = if cycle == 2 { 2 * (20 + ((cycle + idx) % 23) as i128) } else { 2 * (50 + cycle as i128) + idx as i128 };
                push_half(&mut v, row, 2, halves);
                assert(spec[idx as int] == HalfWriteView { sheet: "Sheet1"@, row: row as nat, col: 2, halves: halves as int });
                idx = idx + 1;
            }
            assert(spec.subrange(0, idx as int) =~= spec);
            let label = if cycle == 2 { "sparse_prices_16" } else if cycle == 4 { "bulk_prices_sparse_50" } else { "bulk_prices_sparse_50_b" };
            return (v, label);
        }
        assert(spec =~= Seq::<HalfWriteView>::empty());
        (v, "noop")
    }

    /// Unit of `row` after `completed_cycles` cycles.
    pub fn unit_at(row: u32, rows: u32, completed_cycles: usize) -> (u: i128)
        requires
            rows > 0,
            completed_cycles < cycle_cap(),
        ensures
            u == s031_unit(row as nat, rows as nat, completed_cycles as nat),
            0 <= u <= 0x1_0000_0000,
    {
        let mut unit: i128 = row as i128;
        let mut cycle: usize = 0;
        while cycle < completed_cycles
            invariant
                0 <= cycle <= completed_cycles < cycle_cap(),
                rows > 0,
                unit == s031_unit(row as nat, rows as nat, cycle as nat),
            decreases completed_cycles - cycle,
        {
            let ghost prev = unit as int;
            if cycle == 1 || cycle == 3 || cycle == 6 {
                let len = if cycle == 1 { edit_len_of(16, rows as usize) } else { edit_len_of(50, rows as usize) };
                let start = if cycle == 1 { 0 } else { bulk_start_of(cycle, rows as usize) };
                let mut idx: usize = 0;
                while idx < len
                    invariant
                        0 <= idx <= len <= 50,
                        cycle == 1 || cycle == 3 || cycle == 6,
                        len == s031_unit_n(rows as nat)(cycle as nat),
                        cycle != 1 ==> start == bulk_start(cycle as nat, rows as nat),
                        rows > 0,
                        unit == last_in_cycle(prev, row as nat, cycle as nat, idx as nat, s031_unit_at(rows as nat), s031_unit_val()),
                    decreases len - idx,
                {
                    let at: u64 = if cycle == 1 { ((11 + idx as u64) % rows as u64) + 1 } else { start as u64 + idx as u64 + 1 };
                    if row as u64 == at {
                        unit = if cycle == 1 { 1000 + cycle as i128 + idx as i128 } else { 2000 + 10 * cycle as i128 + idx as i128 };
                    }
                    idx = idx + 1;
                }
            }
            cycle = cycle + 1;
        }
        proof {
            lemma_last_write_multi_bounds(row as int, row as nat, completed_cycles as nat, s031_unit_n(rows as nat), s031_unit_at(rows as nat), s031_unit_val(), 0, 0x1_0000_0000);
        }
        unit
    }

    /// Price of `row` after `completed_cycles` cycles, in halves.
    pub fn price_halves_at(row: u32, rows: u32, completed_cycles: usize) -> (p: i128)
        requires
            row >= 1,
            rows > 0,
            completed_cycles < cycle_cap(),
        ensures
            p == s031_price2(row as nat, rows as nat, completed_cycles as nat),
            0 <= p <= 200,
    {
        let mut price: i128 = 2 * (10 + ((row - 1) % 17) as i128);
        let mut cycle: usize = 0;
        while cycle < completed_cycles
            invariant
                0 <= cycle <= completed_cycles < cycle_cap(),
                rows > 0,
                row >= 1,
                price == s031_price2(row as nat, rows as nat, cycle as nat),
            decreases completed_cycles - cycle,
        {
            let ghost prev = price as int;
            if cycle == 2 || cycle == 4 || cycle == 7 {
                let len = if cycle == 2 { edit_len_of(16, rows as usize) } else { edit_len_of(50, rows as usize) };
                let mut idx: usize = 0;
                while idx < len
                    invariant
                        0 <= idx <= len <= 50,
                        cycle == 2 || cycle == 4 || cycle == 7,
                        len == s031_price_n(rows as nat)(cycle as nat),
                        rows > 0,
                        price == last_in_cycle(prev, row as nat, cycle as nat, idx as nat, sparse_at(rows as nat), s031_price_halves()),
                    decreases len - idx,
                {
                    if row as u128 == (((cycle as u128) * 53 + (idx as u128) * 97) % (rows as u128)) + 1 {
                        price = if cycle == 2 { 2 * (20 + ((cycle + idx) % 23) as i128) } else { 2 * (50 + cycle as i128) + idx as i128 };
                    }
                    idx = idx + 1;
                }
            }
            cycle = cycle + 1;
        }
        proof {
            assert forall|k: nat, i: nat| k < completed_cycles && i < s031_price_n(rows as nat)(k) implies 0 <= #[trigger] s031_price_halves()(k, i) <= 200 by {}
            lemma_last_write_multi_bounds(2 * (10 + (((row - 1) as nat) % 17) as int), row as nat, completed_cycles as nat, s031_price_n(rows as nat), sparse_at(rows as nat), s031_price_halves(), 0, 200);
        }
        price
    }

    /// Multiplier after `completed_cycles` cycles, in halves.
    pub fn multiplier_halves_at(completed_cycles: usize) -> (m: i128)
        ensures
            m == s031_mult2(completed_cycles as nat),
            2 <= m <= 7,
    {
        let mut m: i128 = 2;
        let mut cycle: usize = 0;
        while cycle < completed_cycles
            invariant
                0 <= cycle <= completed_cycles,
                m == s031_mult2(cycle as nat),
            decreases completed_cycles - cycle,
        {
            if cycle == 0 {
                m = 4;
            } else if cycle == 5 {
                m = 7;
            }
            cycle = cycle + 1;
        }
        proof {
            lemma_last_write_bounds(2, 0, completed_cycles as nat, |k: nat| if k == 0 || k == 5 { 0nat } else { 1nat }, |k: nat| if k == 0 { 4int } else { 7int }, 2, 7);
        }
        m
    }

    /// Line value of `row`, in quarters.
    pub fn line_quarters(row: u32, rows: u32, completed_cycles: usize) -> (v: i128)
        requires
            row >= 1,
            rows > 0,
            completed_cycles < cycle_cap(),
        ensures
            v == s031_line4(row as nat, rows as nat, completed_cycles as nat),
            0 <= v <= 1400 * 0x1_0000_0000,
    {
        let u = Self::unit_at(row, rows, completed_cycles);
        let p = Self::price_halves_at(row, rows, completed_cycles);
        let m = Self::multiplier_halves_at(completed_cycles);
        proof {
            assert(0 <= u * p <= 0x1_0000_0000 * 200) by (nonlinear_arith)
                requires 0 <= u <= 0x1_0000_0000, 0 <= p <= 200;
            assert(0 <= u * p * m <= 1400 * 0x1_0000_0000) by (nonlinear_arith)
                requires 0 <= u * p <= 0x1_0000_0000 * 200, 2 <= m <= 7;
        }
        u * p * m
    }

    /// Rollup of all line values, in quarters.
    pub fn rollup_quarters(rows: u32, completed_cycles: usize) -> (v: i128)
        requires
            0 < rows <= 50_000,
            completed_cycles < cycle_cap(),
        ensures
            v == s031_rollup4(rows as nat, completed_cycles as nat),
    {
        let ghost f = |i: nat| s031_line4(i + 1, rows as nat, completed_cycles as nat);
        let mut total: i128 = 0;
        let mut row: u32 = 1;
        while row <= rows
            invariant
                1 <= row <= rows + 1,
                0 < rows <= 50_000,
                completed_cycles < cycle_cap(),
                f == (|i: nat| s031_line4(i + 1, rows as nat, completed_cycles as nat)),
                total == sum_to(f, (row - 1) as nat),
                0 <= total <= (row - 1) * (1400 * 0x1_0000_0000),
            decreases rows + 1 - row,
        {
            let v = Self::line_quarters(row, rows, completed_cycles);
            proof {
                assert(f((row - 1) as nat) == v);
                assert((row - 1) * (1400 * 0x1_0000_0000) + 1400 * 0x1_0000_0000 == row * (1400 * 0x1_0000_0000)) by (nonlinear_arith);
                assert(row * (1400 * 0x1_0000_0000) <= 50_000 * (1400 * 0x1_0000_0000)) by (nonlinear_arith)
                    requires row <= 50_000;
            }
            total = total + v;
            row = row + 1;
        }
        total
    }

    /// No errors; once evaluated every line shows `unit * price * multiplier`
    /// and G1 their sum (as exact quarters).
    pub fn invariants(&self, phase: ScenarioPhase, global: Option<ScenarioScale>) -> (v: Vec<ScenarioInvariant>)
        requires
            phase_ok(phase),
            spec_completed_cycles(phase) < cycle_cap(),
        ensures
            invariants_match(v@, s031_invariants(standard_rows(resolved_scale(self.spec_scale(), global)) as nat, phase)),
    {
        let rows = Self::rows(self.scale.get_or_small(global));
        let ghost spec = s031_invariants(rows as nat, phase);
        let mut v: Vec<ScenarioInvariant> = Vec::new();
        push_no_error(&mut v, "Sheet1");
        assert(spec.subrange(0, 1) =~= sheet1_no_error());
        if has_evaluated_formulas(phase) {
            let cycles = completed_cycles(phase);
            let mut row: u32 = 1;
            while row <= rows
                invariant
                    1 <= row <= rows + 1,
                    0 < rows <= 50_000,
                    spec_has_evaluated(phase),
                    cycles as nat == spec_completed_cycles(phase),
                    cycles < cycle_cap(),
                    spec == s031_invariants(rows as nat, phase),
                    invariants_match(v@, spec.subrange(0, row as int)),
                decreases rows + 1 - row,
            {
                let value = Self::line_quarters(row, rows, cycles);
                push_cell_equals_ratio(&mut v, "Sheet1", row, 3, value, 4);
                assert(spec[row as int] == InvariantView::CellEqualsRatio("Sheet1"@, row as nat, 3, value as int, 4));
                row = row + 1;
            }
            let total = Self::rollup_quarters(rows, cycles);
            push_cell_equals_ratio(&mut v, "Sheet1", 1, 7, total, 4);
            assert(spec[rows + 1] == InvariantView::CellEqualsRatio("Sheet1"@, 1, 7, total as int, 4));
            assert(spec.subrange(0, rows + 2) =~= spec);
        } else {
            assert(spec.subrange(0, 1) =~= spec);
        }
        v
    }
}

/* -------------------------------- tags -------------------------------- */

impl S003FinanceAnchoredArithmeticFamily {
    pub fn tags(&self) -> (v: Vec<ScenarioTag>)
        ensures
            v@ == seq![ScenarioTag::AnchoredArithmetic, ScenarioTag::SpanPromotable, ScenarioTag::SingleCellEdit, ScenarioTag::BulkEdit],
    {
        let v = vec![ScenarioTag::AnchoredArithmetic, ScenarioTag::SpanPromotable, ScenarioTag::SingleCellEdit, ScenarioTag::BulkEdit];
        assert(v@ =~= seq![ScenarioTag::AnchoredArithmetic, ScenarioTag::SpanPromotable, ScenarioTag::SingleCellEdit, ScenarioTag::BulkEdit]);
        v
    }
}

impl S004FiveMixedFamilies {
    pub fn tags(&self) -> (v: Vec<ScenarioTag>)
        ensures
            v@ == seq![ScenarioTag::MultiColumnFamily, ScenarioTag::SpanPromotable, ScenarioTag::Mixed, ScenarioTag::BulkEdit],
    {
        let v = vec![ScenarioTag::MultiColumnFamily, ScenarioTag::SpanPromotable, ScenarioTag::Mixed, ScenarioTag::BulkEdit];
        assert(v@ =~= seq![ScenarioTag::MultiColumnFamily, ScenarioTag::SpanPromotable, ScenarioTag::Mixed, ScenarioTag::BulkEdit]);
        v
    }
}

impl S031FinanceAnchoredWithEditCycles {
    pub fn tags(&self) -> (v: Vec<ScenarioTag>)
        ensures
            v@ == seq![ScenarioTag::AnchoredArithmetic, ScenarioTag::SingleCellEdit, ScenarioTag::BulkEdit],
    {
        let v = vec![ScenarioTag::AnchoredArithmetic, ScenarioTag::SingleCellEdit, ScenarioTag::BulkEdit];
        assert(v@ =~= seq![ScenarioTag::AnchoredArithmetic, ScenarioTag::SingleCellEdit, ScenarioTag::BulkEdit]);
        v
    }
}

} // verus!
