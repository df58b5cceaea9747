//! Small single-sheet scenarios: a static grid, single- and two-column
//! families, dynamic references, gapped inputs, a deep chain, many families
//! and a lookup family.

use vstd::prelude::*;
use crate::scenarios::common::{ExpectedDivergence, ExpectedDivergenceAction, ExpectedDivergencePhase, ScenarioTag, 
    ScaleState, ScenarioBuildCtx, ScenarioFixture, FixtureMetadata, ScenarioPhase, ScenarioScale,
    ScenarioInvariant, InvariantView, CellWrite, CellWriteView, EditPlan, fixture_path,
    spec_fixture_path, push_no_error, push_cell_equals, push_write, invariants_match, writes_match,
    sheet1_no_error, standard_rows, standard_row_count, resolved_scale, spec_has_evaluated,
    has_evaluated_formulas, spec_completed_cycles, completed_cycles, phase_ok, last_write,
    lemma_last_write_bounds, s002_a, s002_edit_row, s002_edit_row_of, s002_cycles_ok,
    maybe_edited_s002_a, trunc_u32, cycles_fit,
};

verus! {

/// Pure value grid without formulas.
pub struct S001NoFormulasStaticGrid {
    scale: ScaleState,
}

impl S001NoFormulasStaticGrid {
    pub closed spec fn spec_scale(&self) -> Option<ScenarioScale> {
        self.scale.spec_scale()
    }

    pub fn new() -> (s: Self)
        ensures
            s.spec_scale() is None,
    {
        S001NoFormulasStaticGrid { scale: ScaleState::new() }
    }

    /// Rows and columns of the grid at each scale.
    pub fn dimensions(scale: ScenarioScale) -> (d: (u32, u32))
        ensures
            d == (match scale {
                ScenarioScale::Small => (1_000u32, 5u32),
                ScenarioScale::Medium => (10_000u32, 10u32),
                ScenarioScale::Large => (50_000u32, 10u32),
            }),
    {
        match scale {
            ScenarioScale::Small => (1_000, 5),
            ScenarioScale::Medium => (10_000, 10),
            ScenarioScale::Large => (50_000, 10),
        }
    }

    pub fn id(&self) -> (s: &'static str)
        ensures
            s@ == "s001-no-formulas-static-grid"@,
    {
        "s001-no-formulas-static-grid"
    }

    /// Records the scale and plans the grid fixture: every cell a value.
    pub fn build_fixture(&mut self, ctx: &ScenarioBuildCtx) -> (f: ScenarioFixture)
        ensures
            final(self).spec_scale() == Some(ctx.scale),
            f.path@ == spec_fixture_path(ctx.fixture_dir@, ctx.label@, "s001-no-formulas-static-grid"@, ctx.scale),
            ({
                let (rows, cols) = match ctx.scale {
                    ScenarioScale::Small => (1_000u32, 5u32),
                    ScenarioScale::Medium => (10_000u32, 10u32),
                    ScenarioScale::Large => (50_000u32, 10u32),
                };
                f.metadata == (FixtureMetadata { rows, cols, sheets: 1, formula_cells: 0, value_cells: (rows * cols) as u32, has_named_ranges: false, has_tables: false })
            }),
    {
        self.scale.set(ctx.scale);
        let (rows, cols) = Self::dimensions(ctx.scale);
        let path = fixture_path(ctx, self.id());
        ScenarioFixture {
            path,
            metadata: FixtureMetadata { rows, cols, sheets: 1, formula_cells: 0, value_cells: rows * cols, has_named_ranges: false, has_tables: false },
        }
    }

    pub fn edit_plan(&self) -> (p: EditPlan)
        ensures
            p.cycles == 5,
    {
        EditPlan { cycles: 5 }
    }

    /// Cycle `cycle` writes the number `cycle` into column A of row
    /// `cycle + 1` (row taken to 32 bits).
    pub fn edit_writes(cycle: usize) -> (r: (Vec<CellWrite>, &'static str))
        requires
            (cycle as int) % 0x1_0000_0000 < u32::MAX,
        ensures
            writes_match(r.0@, seq![CellWriteView { sheet: "Sheet1"@, row: ((cycle as int) % 0x1_0000_0000 + 1) as nat, col: 1, value: cycle as int }]),
            r.1@ == "single_value"@,
    {
        let mut v: Vec<CellWrite> = Vec::new();
        push_write(&mut v, "Sheet1", trunc_u32(cycle) + 1, 1, cycle as i128);
        assert(v@.len() == 1);
        (v, "single_value")
    }

    /// Only the no-error check: the grid has no formulas.
    pub fn invariants(&self, phase: ScenarioPhase) -> (v: Vec<ScenarioInvariant>)
        ensures
            invariants_match(v@, sheet1_no_error()),
    {
        let mut v: Vec<ScenarioInvariant> = Vec::new();
        push_no_error(&mut v, "Sheet1");
        v
    }
}

/// Single formula column `B = A * 2`.
pub struct S002SingleColumnTrivialFamily {
    scale: ScaleState,
}

/// Checks of the single-column family at a phase over `rows` rows.
pub open spec fn s002_invariants(rows: nat, phase: ScenarioPhase) -> Seq<InvariantView> {
    let c = spec_completed_cycles(phase);
    sheet1_no_error() + if spec_has_evaluated(phase) {
        Seq::new(rows, |i: int| InvariantView::CellEquals("Sheet1"@, (i + 1) as nat, 2, 2 * s002_a((i + 1) as nat, c)))
    } else {
        Seq::empty()
    }
}

impl S002SingleColumnTrivialFamily {
    pub closed spec fn spec_scale(&self) -> Option<ScenarioScale> {
        self.scale.spec_scale()
    }

    pub fn new() -> (s: Self)
        ensures
            s.spec_scale() is None,
    {
        S002SingleColumnTrivialFamily { scale: ScaleState::new() }
    }

    pub fn rows(scale: ScenarioScale) -> (r: u32)
        ensures
            r == standard_rows(scale),
    {
        standard_row_count(scale)
    }

    pub fn id(&self) -> (s: &'static str)
        ensures
            s@ == "s002-single-column-trivial-family"@,
    {
        "s002-single-column-trivial-family"
    }

    /// Records the scale and plans `rows` values in A and formulas in B.
    pub fn build_fixture(&mut self, ctx: &ScenarioBuildCtx) -> (f: ScenarioFixture)
        ensures
            final(self).spec_scale() == Some(ctx.scale),
            f.path@ == spec_fixture_path(ctx.fixture_dir@, ctx.label@, "s002-single-column-trivial-family"@, ctx.scale),
            f.metadata == (FixtureMetadata { rows: standard_rows(ctx.scale), cols: 2, sheets: 1, formula_cells: standard_rows(ctx.scale), value_cells: standard_rows(ctx.scale), has_named_ranges: false, has_tables: false }),
    {
        self.scale.set(ctx.scale);
        let rows = Self::rows(ctx.scale);
        let path = fixture_path(ctx, self.id());
        ScenarioFixture {
            path,
            metadata: FixtureMetadata { rows, cols: 2, sheets: 1, formula_cells: rows, value_cells: rows, has_named_ranges: false, has_tables: false },
        }
    }

    pub fn edit_plan(&self) -> (p: EditPlan)
        ensures
            p.cycles == 5,
    {
        EditPlan { cycles: 5 }
    }

    /// Cycle `cycle` writes `1000 + cycle` into column A of row `37 cycle + 1`.
    pub fn edit_writes(cycle: usize) -> (r: (Vec<CellWrite>, &'static str))
        requires
            cycle * 37 <= usize::MAX,
            (cycle * 37) % 0x1_0000_0000 < u32::MAX,
        ensures
            writes_match(r.0@, seq![CellWriteView { sheet: "Sheet1"@, row: s002_edit_row(cycle as nat), col: 1, value: 1000 + cycle as int }]),
            r.1@ == "single_a"@,
    {
        let mut v: Vec<CellWrite> = Vec::new();
        push_write(&mut v, "Sheet1", s002_edit_row_of(cycle), 1, 1000 + cycle as i128);
        (v, "single_a")
    }

    /// No errors on Sheet1; once evaluated, `B = 2 * A` on every row with A
    /// as edited so far.
    pub fn invariants(&self, phase: ScenarioPhase, global: Option<ScenarioScale>) -> (v: Vec<ScenarioInvariant>)
        requires
            phase_ok(phase),
            s002_cycles_ok(spec_completed_cycles(phase)),
        ensures
            invariants_match(v@, s002_invariants(standard_rows(resolved_scale(self.spec_scale(), global)) as nat, phase)),
    {
        let rows = Self::rows(self.scale.get_or_small(global));
        let ghost spec = s002_invariants(rows as nat, phase);
        let mut v: Vec<ScenarioInvariant> = Vec::new();
        push_no_error(&mut v, "Sheet1");
        assert(spec.subrange(0, 1) =~= sheet1_no_error());
        if has_evaluated_formulas(phase) {
            let ghost c = spec_completed_cycles(phase);
            let mut row: u32 = 1;
            while row <= rows
                invariant
                    1 <= row <= rows + 1,
                    rows <= 50_000,
                    spec_has_evaluated(phase),
                    phase_ok(phase),
                    s002_cycles_ok(c),
                    c == spec_completed_cycles(phase),
                    spec == s002_invariants(rows as nat, phase),
                    invariants_match(v@, spec.subrange(0, row as int)),
                decreases rows + 1 - row,
            {
                let a = maybe_edited_s002_a(row, phase);
                proof {
                    lemma_last_write_bounds(row as int, row as nat, c, |k: nat| s002_edit_row(k), |k: nat| 1000 + k as int, 0, 0x1_0000_0000_0000_0000_0000);
                }
                push_cell_equals(&mut v, "Sheet1", row, 2, 2 * a);
                proof {
                    assert(spec[row as int] == InvariantView::CellEquals("Sheet1"@, row as nat, 2, 2 * s002_a(row as nat, c)));
                }
                row = row + 1;
            }
            assert(spec.subrange(0, row as int) =~= spec);
        } else {
            assert(spec.subrange(0, 1) =~= spec);
        }
        v
    }
}

/// Two anchored families `B = $A$1 + 1`, `C = $A$1 * 2`.
pub struct S008TwoAnchoredFamilies {
    scale: ScaleState,
}

/// `A1` after `c` cycles: 1 initially, `10 + k` after cycle `k`.
pub open spec fn s008_a1(c: nat) -> int {
    if c == 0 {
        1
    } else {
        10 + (c - 1)
    }
}

pub open spec fn s008_invariants(rows: nat, phase: ScenarioPhase) -> Seq<InvariantView> {
    let a1 = s008_a1(spec_completed_cycles(phase));
    sheet1_no_error() + if spec_has_evaluated(phase) {
        Seq::new(2 * rows, |i: int| if i % 2 == 0 {
            InvariantView::CellEquals("Sheet1"@, (i / 2 + 1) as nat, 2, a1 + 1)
        } else {
            InvariantView::CellEquals("Sheet1"@, (i / 2 + 1) as nat, 3, a1 * 2)
        })
    } else {
        Seq::empty()
    }
}

impl S008TwoAnchoredFamilies {
    pub closed spec fn spec_scale(&self) -> Option<ScenarioScale> {
        self.scale.spec_scale()
    }

    pub fn new() -> (s: Self)
        ensures
            s.spec_scale() is None,
    {
        S008TwoAnchoredFamilies { scale: ScaleState::new() }
    }

    pub fn rows(scale: ScenarioScale) -> (r: u32)
        ensures
            r == standard_rows(scale),
    {
        standard_row_count(scale)
    }

    pub fn id(&self) -> (s: &'static str)
        ensures
            s@ == "s008-two-anchored-families"@,
    {
        "s008-two-anchored-families"
    }

    /// Records the scale and plans `A1` plus two formula columns.
    pub fn build_fixture(&mut self, ctx: &ScenarioBuildCtx) -> (f: ScenarioFixture)
        ensures
            final(self).spec_scale() == Some(ctx.scale),
            f.path@ == spec_fixture_path(ctx.fixture_dir@, ctx.label@, "s008-two-anchored-families"@, ctx.scale),
            f.metadata == (FixtureMetadata { rows: standard_rows(ctx.scale), cols: 3, sheets: 1, formula_cells: (standard_rows(ctx.scale) * 2) as u32, value_cells: 1, has_named_ranges: false, has_tables: false }),
    {
        self.scale.set(ctx.scale);
        let rows = Self::rows(ctx.scale);
        let path = fixture_path(ctx, self.id());
        ScenarioFixture {
            path,
            metadata: FixtureMetadata { rows, cols: 3, sheets: 1, formula_cells: rows * 2, value_cells: 1, has_named_ranges: false, has_tables: false },
        }
    }

    pub fn edit_plan(&self) -> (p: EditPlan)
        ensures
            p.cycles == 5,
    {
        EditPlan { cycles: 5 }
    }

    /// Cycle `cycle` sets the anchor `A1` to `10 + cycle`.
    pub fn edit_writes(cycle: usize) -> (r: (Vec<CellWrite>, &'static str))
        ensures
            writes_match(r.0@, seq![CellWriteView { sheet: "Sheet1"@, row: 1, col: 1, value: 10 + cycle as int }]),
            r.1@ == "anchor_a1"@,
    {
        let mut v: Vec<CellWrite> = Vec::new();
        push_write(&mut v, "Sheet1", 1, 1, 10 + cycle as i128);
        (v, "anchor_a1")
    }

    /// `A1` after a number of cycles.
    pub fn a1_at(completed_cycles: usize) -> (v: i128)
        ensures
            v as int == s008_a1(completed_cycles as nat),
    {
        if completed_cycles == 0 {
            1
        } else {
            10 + (completed_cycles - 1) as i128
        }
    }

    /// No errors; once evaluated every row shows `A1 + 1` and `A1 * 2`.
    pub fn invariants(&self, phase: ScenarioPhase, global: Option<ScenarioScale>) -> (v: Vec<ScenarioInvariant>)
        requires
            phase_ok(phase),
        ensures
            invariants_match(v@, s008_invariants(standard_rows(resolved_scale(self.spec_scale(), global)) as nat, phase)),
    {
        let rows = Self::rows(self.scale.get_or_small(global));
        let ghost spec = s008_invariants(rows as nat, phase);
        let mut v: Vec<ScenarioInvariant> = Vec::new();
        push_no_error(&mut v, "Sheet1");
        assert(spec.subrange(0, 1) =~= sheet1_no_error());
        if has_evaluated_formulas(phase) {
            let a1 = Self::a1_at(completed_cycles(phase));
            let mut row: u32 = 1;
            while row <= rows
                invariant
                    1 <= row <= rows + 1,
                    rows <= 50_000,
                    spec_has_evaluated(phase),
                    a1 as int == s008_a1(spec_completed_cycles(phase)),
                    spec == s008_invariants(rows as nat, phase),
                    invariants_match(v@, spec.subrange(0, 2 * row - 1)),
                decreases rows + 1 - row,
            {
                push_cell_equals(&mut v, "Sheet1", row, 2, a1 + 1);
                push_cell_equals(&mut v, "Sheet1", row, 3, a1 * 2);
                proof {
                    let i0 = 2 * row - 1;
                    assert(spec[i0 as int] == InvariantView::CellEquals("Sheet1"@, row as nat, 2, a1 + 1));
                    assert(spec[i0 + 1] == InvariantView::CellEquals("Sheet1"@, row as nat, 3, a1 * 2));
                }
                row = row + 1;
            }
            assert(spec.subrange(0, 2 * row - 1) =~= spec);
        } else {
            assert(spec.subrange(0, 1) =~= spec);
        }
        v
    }
}

/// OFFSET/INDIRECT family mirroring column A.
pub struct S022DynamicFunctionsOffsetIndirect {
    scale: ScaleState,
}

/// Row edited by cycle `k` when the input column has `rows` rows.
pub open spec fn row_37(k: nat, rows: nat) -> nat {
    ((k * 37) % rows + 1) as nat
}

/// Column-A value of `row` after `c` cycles, each writing `1000 + k` at row
/// `37 k mod rows + 1`.
pub open spec fn s022_value(row: nat, rows: nat, c: nat) -> int {
    last_write(row as int, row, c, |k: nat| row_37(k, rows), |k: nat| 1000 + k as int)
}

/// The write of cycle `k`: `1000 + k` into column A of row
/// `37 k mod rows + 1`.
pub open spec fn s022_write(k: nat, rows: nat) -> CellWriteView {
    CellWriteView { sheet: "Sheet1"@, row: row_37(k, rows), col: 1, value: 1000 + k as int }
}

/// The column-A values the checks use replay the edit writes: before any
/// cycle every row holds its own number; after cycle `k` the row that cycle
/// writes holds the written value and every other row keeps the value it had.
pub proof fn lemma_s022_value_replays_writes(row: nat, rows: nat, k: nat)
    requires
        rows > 0,
    ensures
        s022_value(row, rows, 0) == row,
        s022_write(k, rows).sheet == "Sheet1"@ && s022_write(k, rows).col == 1,
        s022_write(k, rows).row == row ==> s022_value(row, rows, k + 1) == s022_write(k, rows).value,
        s022_write(k, rows).row != row ==> s022_value(row, rows, k + 1) == s022_value(row, rows, k),
{
}

pub open spec fn s022_invariants(rows: nat, phase: ScenarioPhase) -> Seq<InvariantView> {
    let c = spec_completed_cycles(phase);
    sheet1_no_error() + if spec_has_evaluated(phase) {
        Seq::new(2 * rows, |i: int| if i % 2 == 0 {
            InvariantView::CellEquals("Sheet1"@, (i / 2 + 1) as nat, 2, s022_value((i / 2 + 1) as nat, rows, c) * 2)
        } else {
            InvariantView::CellEquals("Sheet1"@, (i / 2 + 1) as nat, 3, s022_value((i / 2 + 1) as nat, rows, c) + 100)
        })
    } else {
        Seq::empty()
    }
}

/// Row `37 cycle mod rows + 1`.
pub fn row_37_of(cycle: usize, rows: usize) -> (r: u32)
    requires
        cycle * 37 <= usize::MAX,
        0 < rows <= u32::MAX,
    ensures
        r as nat == row_37(cycle as nat, rows as nat),
{
    ((cycle * 37) % rows) as u32 + 1
}

impl S022DynamicFunctionsOffsetIndirect {
    pub closed spec fn spec_scale(&self) -> Option<ScenarioScale> {
        self.scale.spec_scale()
    }

    pub fn new() -> (s: Self)
        ensures
            s.spec_scale() is None,
    {
        S022DynamicFunctionsOffsetIndirect { scale: ScaleState::new() }
    }

    pub fn rows(scale: ScenarioScale) -> (r: u32)
        ensures
            r == standard_rows(scale),
    {
        standard_row_count(scale)
    }

    pub fn id(&self) -> (s: &'static str)
        ensures
            s@ == "s022-dynamic-functions-offset-indirect"@,
    {
        "s022-dynamic-functions-offset-indirect"
    }

    /// Records the scale and plans inputs plus OFFSET and INDIRECT columns.
    pub fn build_fixture(&mut self, ctx: &ScenarioBuildCtx) -> (f: ScenarioFixture)
        ensures
            final(self).spec_scale() == Some(ctx.scale),
            f.path@ == spec_fixture_path(ctx.fixture_dir@, ctx.label@, "s022-dynamic-functions-offset-indirect"@, ctx.scale),
            f.metadata == (FixtureMetadata { rows: standard_rows(ctx.scale), cols: 3, sheets: 1, formula_cells: (standard_rows(ctx.scale) * 2) as u32, value_cells: standard_rows(ctx.scale), has_named_ranges: false, has_tables: false }),
    {
        self.scale.set(ctx.scale);
        let rows = Self::rows(ctx.scale);
        let path = fixture_path(ctx, self.id());
        ScenarioFixture {
            path,
            metadata: FixtureMetadata { rows, cols: 3, sheets: 1, formula_cells: rows * 2, value_cells: rows, has_named_ranges: false, has_tables: false },
        }
    }

    pub fn edit_plan(&self) -> (p: EditPlan)
        ensures
            p.cycles == 5,
    {
        EditPlan { cycles: 5 }
    }

    /// Cycle `cycle` writes `1000 + cycle` into A at row `37 cycle mod rows + 1`,
    /// `rows` being the detected length of column A.
    pub fn edit_writes(cycle: usize, rows: usize) -> (r: (Vec<CellWrite>, &'static str))
        requires
            cycle * 37 <= usize::MAX,
            0 < rows <= u32::MAX,
        ensures
            writes_match(r.0@, seq![s022_write(cycle as nat, rows as nat)]),
            r.1@ == "dynamic_input"@,
    {
        let mut v: Vec<CellWrite> = Vec::new();
        push_write(&mut v, "Sheet1", row_37_of(cycle, rows), 1, 1000 + cycle as i128);
        (v, "dynamic_input")
    }

    /// Column-A value of `row` after `completed_cycles` cycles.
    pub fn data_value(row: u32, rows: u32, completed_cycles: usize) -> (v: i128)
        requires
            rows > 0,
            cycles_fit(completed_cycles as nat, 37),
        ensures
            v as int == s022_value(row as nat, rows as nat, completed_cycles as nat),
            0 <= v <= 0x1_0000_0000_0000_0000_0000,
    {
        let mut value: i128 = row as i128;
        let mut cycle: usize = 0;
        while cycle < completed_cycles
            invariant
                0 <= cycle <= completed_cycles,
                rows > 0,
                cycles_fit(completed_cycles as nat, 37),
                value as int == s022_value(row as nat, rows as nat, cycle as nat),
            decreases completed_cycles - cycle,
        {
            assert((cycle as nat * 37) <= usize::MAX);
            if row == row_37_of(cycle, rows as usize) {
                value = 1000 + cycle as i128;
            }
            cycle = cycle + 1;
        }
        proof {
            lemma_last_write_bounds(row as int, row as nat, completed_cycles as nat, |k: nat| row_37(k, rows as nat), |k: nat| 1000 + k as int, 0, 0x1_0000_0000_0000_0000_0000);
        }
        value
    }

    /// No errors; once evaluated each row shows `2 A` and `A + 100`.
    pub fn invariants(&self, phase: ScenarioPhase, global: Option<ScenarioScale>) -> (v: Vec<ScenarioInvariant>)
        requires
            phase_ok(phase),
            cycles_fit(spec_completed_cycles(phase), 37),
        ensures
            invariants_match(v@, s022_invariants(standard_rows(resolved_scale(self.spec_scale(), global)) as nat, phase)),
    {
        let rows = Self::rows(self.scale.get_or_small(global));
        let ghost spec = s022_invariants(rows as nat, phase);
        let mut v: Vec<ScenarioInvariant> = Vec::new();
        push_no_error(&mut v, "Sheet1");
        assert(spec.subrange(0, 1) =~= sheet1_no_error());
        if has_evaluated_formulas(phase) {
            let cycles = completed_cycles(phase);
            let mut row: u32 = 1;
            while row <= rows
                invariant
                    1 <= row <= rows + 1,
                    0 < rows <= 50_000,
                    spec_has_evaluated(phase),
                    cycles as nat == spec_completed_cycles(phase),
                    cycles_fit(cycles as nat, 37),
                    spec == s022_invariants(rows as nat, phase),
                    invariants_match(v@, spec.subrange(0, 2 * row - 1)),
                decreases rows + 1 - row,
            {
                let value = Self::data_value(row, rows, cycles);
                push_cell_equals(&mut v, "Sheet1", row, 2, value * 2);
                push_cell_equals(&mut v, "Sheet1", row, 3, value + 100);
                proof {
                    let i0 = 2 * row - 1;
                    assert(spec[i0 as int] == InvariantView::CellEquals("Sheet1"@, row as nat, 2, value * 2));
                    assert(spec[i0 + 1] == InvariantView::CellEquals("Sheet1"@, row as nat, 3, value + 100));
                }
                row = row + 1;
            }
            assert(spec.subrange(0, 2 * row - 1) =~= spec);
        } else {
            assert(spec.subrange(0, 1) =~= spec);
        }
        v
    }
}

/// Formula family whose inputs leave every tenth row empty.
pub struct S023EmptyCellGapsInFamily {
    scale: ScaleState,
}

/// Column-A content of `row` after `c` cycles: empty on multiples of ten
/// until an edit writes `1000 + k` there.
pub open spec fn s023_value(row: nat, rows: nat, c: nat) -> Option<int>
    decreases c,
{
    if c == 0 {
        if row % 10 != 0 {
            Some(row as int)
        } else {
            None
        }
    } else if row_37((c - 1) as nat, rows) == row {
        Some(1000 + (c - 1))
    } else {
        s023_value(row, rows, (c - 1) as nat)
    }
}

pub open spec fn unwrap_or_zero(v: Option<int>) -> int {
    match v {
        Some(x) => x,
        None => 0,
    }
}

pub open spec fn s023_invariants(rows: nat, phase: ScenarioPhase) -> Seq<InvariantView> {
    let c = spec_completed_cycles(phase);
    sheet1_no_error() + if spec_has_evaluated(phase) {
        Seq::new(rows, |i: int| InvariantView::CellEquals("Sheet1"@, (i + 1) as nat, 2, unwrap_or_zero(s023_value((i + 1) as nat, rows, c)) * 2))
    } else {
        Seq::empty()
    }
}

impl S023EmptyCellGapsInFamily {
    pub closed spec fn spec_scale(&self) -> Option<ScenarioScale> {
        self.scale.spec_scale()
    }

    pub fn new() -> (s: Self)
        ensures
            s.spec_scale() is None,
    {
        S023EmptyCellGapsInFamily { scale: ScaleState::new() }
    }

    pub fn rows(scale: ScenarioScale) -> (r: u32)
        ensures
            r == standard_rows(scale),
    {
        standard_row_count(scale)
    }

    pub fn id(&self) -> (s: &'static str)
        ensures
            s@ == "s023-empty-cell-gaps-in-family"@,
    {
        "s023-empty-cell-gaps-in-family"
    }

    /// Records the scale and plans gapped inputs with a formula on every row.
    pub fn build_fixture(&mut self, ctx: &ScenarioBuildCtx) -> (f: ScenarioFixture)
        ensures
            final(self).spec_scale() == Some(ctx.scale),
            f.path@ == spec_fixture_path(ctx.fixture_dir@, ctx.label@, "s023-empty-cell-gaps-in-family"@, ctx.scale),
            f.metadata == (FixtureMetadata { rows: standard_rows(ctx.scale), cols: 2, sheets: 1, formula_cells: standard_rows(ctx.scale), value_cells: (standard_rows(ctx.scale) - standard_rows(ctx.scale) / 10) as u32, has_named_ranges: false, has_tables: false }),
    {
        self.scale.set(ctx.scale);
        let rows = Self::rows(ctx.scale);
        let path = fixture_path(ctx, self.id());
        ScenarioFixture {
            path,
            metadata: FixtureMetadata { rows, cols: 2, sheets: 1, formula_cells: rows, value_cells: rows - rows / 10, has_named_ranges: false, has_tables: false },
        }
    }

    pub fn edit_plan(&self) -> (p: EditPlan)
        ensures
            p.cycles == 5,
    {
        EditPlan { cycles: 5 }
    }

    /// Cycle `cycle` writes `1000 + cycle` into A at row `37 cycle mod rows + 1`,
    /// `rows` being the detected length of column B.
    pub fn edit_writes(cycle: usize, rows: usize) -> (r: (Vec<CellWrite>, &'static str))
        requires
            cycle * 37 <= usize::MAX,
            0 < rows <= u32::MAX,
        ensures
            writes_match(r.0@, seq![CellWriteView { sheet: "Sheet1"@, row: row_37(cycle as nat, rows as nat), col: 1, value: 1000 + cycle as int }]),
            r.1@ == "gap_input"@,
    {
        let mut v: Vec<CellWrite> = Vec::new();
        push_write(&mut v, "Sheet1", row_37_of(cycle, rows), 1, 1000 + cycle as i128);
        (v, "gap_input")
    }

    /// Column-A content of `row` after `completed_cycles` cycles.
    pub fn data_value(row: u32, rows: u32, completed_cycles: usize) -> (v: Option<i128>)
        requires
            rows > 0,
            cycles_fit(completed_cycles as nat, 37),
        ensures
            (match v { Some(x) => Some(x as int), None => None::<int> }) == s023_value(row as nat, rows as nat, completed_cycles as nat),
            v matches Some(x) ==> 0 <= x <= 0x1_0000_0000_0000_0000_0000,
    {
        let mut value: Option<i128> = if row % 10 != 0 { Some(row as i128) } else { None };
        let mut cycle: usize = 0;
        while cycle < completed_cycles
            invariant
                0 <= cycle <= completed_cycles,
                rows > 0,
                cycles_fit(completed_cycles as nat, 37),
                (match value { Some(x) => Some(x as int), None => None::<int> }) == s023_value(row as nat, rows as nat, cycle as nat),
                value matches Some(x) ==> 0 <= x <= 1000 + cycle + 0x1_0000_0000,
            decreases completed_cycles - cycle,
        {
            assert((cycle as nat * 37) <= usize::MAX);
            if row == row_37_of(cycle, rows as usize) {
                value = Some(1000 + cycle as i128);
            }
            cycle = cycle + 1;
        }
        value
    }

    /// No errors; once evaluated each row shows twice its input (empty as 0).
    pub fn invariants(&self, phase: ScenarioPhase, global: Option<ScenarioScale>) -> (v: Vec<ScenarioInvariant>)
        requires
            phase_ok(phase),
            cycles_fit(spec_completed_cycles(phase), 37),
        ensures
            invariants_match(v@, s023_invariants(standard_rows(resolved_scale(self.spec_scale(), global)) as nat, phase)),
    {
        let rows = Self::rows(self.scale.get_or_small(global));
        let ghost spec = s023_invariants(rows as nat, phase);
        let mut v: Vec<ScenarioInvariant> = Vec::new();
        push_no_error(&mut v, "Sheet1");
        assert(spec.subrange(0, 1) =~= sheet1_no_error());
        if has_evaluated_formulas(phase) {
            let cycles = completed_cycles(phase);
            let mut row: u32 = 1;
            while row <= rows
                invariant
                    1 <= row <= rows + 1,
                    0 < rows <= 50_000,
                    spec_has_evaluated(phase),
                    cycles as nat == spec_completed_cycles(phase),
                    cycles_fit(cycles as nat, 37),
                    spec == s023_invariants(rows as nat, phase),
                    invariants_match(v@, spec.subrange(0, row as int)),
                decreases rows + 1 - row,
            {
                let value = match Self::data_value(row, rows, cycles) {
                    Some(x) => x,
                    None => 0,
                };
                push_cell_equals(&mut v, "Sheet1", row, 2, value * 2);
                proof {
                    assert(spec[row as int] == InvariantView::CellEquals("Sheet1"@, row as nat, 2, value * 2));
                }
                row = row + 1;
            }
            assert(spec.subrange(0, row as int) =~= spec);
        } else {
            assert(spec.subrange(0, 1) =~= spec);
        }
        v
    }
}

/// A 2000-cell linear dependency chain seeded at `A1`.
pub struct S047VeryDeepChain {
    scale: ScaleState,
}

/// The chain seed after `c` cycles: 1, then `10 + k` after cycle `k`.
pub open spec fn s047_seed(c: nat) -> int {
    if c == 0 {
        1
    } else {
        10 + (c - 1)
    }
}

pub open spec fn s047_invariants(phase: ScenarioPhase) -> Seq<InvariantView> {
    let seed = s047_seed(spec_completed_cycles(phase));
    sheet1_no_error() + if spec_has_evaluated(phase) {
        seq![
            InvariantView::CellEquals("Sheet1"@, 1, 1, seed),
            InvariantView::CellEquals("Sheet1"@, 1000, 1, seed + 999),
            InvariantView::CellEquals("Sheet1"@, 2000, 1, seed + 1999),
        ]
    } else {
        Seq::empty()
    }
}

impl S047VeryDeepChain {
    pub closed spec fn spec_scale(&self) -> Option<ScenarioScale> {
        self.scale.spec_scale()
    }

    pub fn new() -> (s: Self)
        ensures
            s.spec_scale() is None,
    {
        S047VeryDeepChain { scale: ScaleState::new() }
    }

    pub fn id(&self) -> (s: &'static str)
        ensures
            s@ == "s047-very-deep-chain"@,
    {
        "s047-very-deep-chain"
    }

    /// Records the scale and plans the fixed 2000-row chain.
    pub fn build_fixture(&mut self, ctx: &ScenarioBuildCtx) -> (f: ScenarioFixture)
        ensures
            final(self).spec_scale() == Some(ctx.scale),
            f.path@ == spec_fixture_path(ctx.fixture_dir@, ctx.label@, "s047-very-deep-chain"@, ctx.scale),
            f.metadata == (FixtureMetadata { rows: 2000, cols: 1, sheets: 1, formula_cells: 1999, value_cells: 1, has_named_ranges: false, has_tables: false }),
    {
        self.scale.set(ctx.scale);
        let path = fixture_path(ctx, self.id());
        ScenarioFixture {
            path,
            metadata: FixtureMetadata { rows: 2000, cols: 1, sheets: 1, formula_cells: 1999, value_cells: 1, has_named_ranges: false, has_tables: false },
        }
    }

    pub fn edit_plan(&self) -> (p: EditPlan)
        ensures
            p.cycles == 3,
    {
        EditPlan { cycles: 3 }
    }

    /// Cycle `cycle` sets the seed `A1` to `10 + cycle`.
    pub fn edit_writes(cycle: usize) -> (r: (Vec<CellWrite>, &'static str))
        ensures
            writes_match(r.0@, seq![CellWriteView { sheet: "Sheet1"@, row: 1, col: 1, value: 10 + cycle as int }]),
            r.1@ == "deep_chain_seed"@,
    {
        let mut v: Vec<CellWrite> = Vec::new();
        push_write(&mut v, "Sheet1", 1, 1, 10 + cycle as i128);
        (v, "deep_chain_seed")
    }

    /// The chain seed after a number of cycles.
    pub fn seed(cycles: usize) -> (v: i128)
        ensures
            v as int == s047_seed(cycles as nat),
    {
        if cycles == 0 {
            1
        } else {
            10 + (cycles - 1) as i128
        }
    }

    /// No errors; once evaluated rows 1, 1000 and 2000 show `seed + row - 1`.
    pub fn invariants(&self, phase: ScenarioPhase) -> (v: Vec<ScenarioInvariant>)
        requires
            phase_ok(phase),
        ensures
            invariants_match(v@, s047_invariants(phase)),
    {
        let mut v: Vec<ScenarioInvariant> = Vec::new();
        push_no_error(&mut v, "Sheet1");
        if has_evaluated_formulas(phase) {
            let seed = Self::seed(completed_cycles(phase));
            push_cell_equals(&mut v, "Sheet1", 1, 1, seed);
            push_cell_equals(&mut v, "Sheet1", 1000, 1, seed + 999);
            push_cell_equals(&mut v, "Sheet1", 2000, 1, seed + 1999);
        }
        assert(v@.len() == s047_invariants(phase).len());
        v
    }
}

/// Fifty independent two-column formula families.
pub struct S048ManyDisjointFamilies {
    scale: ScaleState,
}

/// Multiplier of family `f`.
pub open spec fn s048_factor(f: nat) -> int {
    f as int + 2
}

/// Row written by cycle `k`: `50 + k`, `k` taken to 32 bits.
pub open spec fn s048_edit_row(k: nat) -> nat {
    (50 + k % 0x1_0000_0000) as nat
}

/// Cycles whose edit rows fit in 32 bits.
pub open spec fn s048_cycles_ok(c: nat) -> bool {
    forall|k: nat| k < c ==> #[trigger] s048_edit_row(k) <= u32::MAX
}

/// Input of family `f` at `row` after `c` cycles; only family 0 is edited.
pub open spec fn s048_input(f: nat, row: nat, c: nat) -> int {
    if f == 0 {
        last_write(row as int, row, c, |k: nat| s048_edit_row(k), |k: nat| 1000 + k as int)
    } else {
        row as int + f as int
    }
}

pub open spec fn s048_check(f: nat, row: nat, c: nat) -> InvariantView {
    InvariantView::CellEquals("Sheet1"@, row, f * 2 + 2, s048_input(f, row, c) * s048_factor(f))
}

pub open spec fn s048_invariants(phase: ScenarioPhase) -> Seq<InvariantView> {
    let c = spec_completed_cycles(phase);
    sheet1_no_error() + if spec_has_evaluated(phase) {
        seq![
            s048_check(0, 1, c), s048_check(0, 100, c), s048_check(0, 200, c),
            s048_check(24, 1, c), s048_check(24, 100, c), s048_check(24, 200, c),
            s048_check(49, 1, c), s048_check(49, 100, c), s048_check(49, 200, c),
        ]
    } else {
        Seq::empty()
    }
}

impl S048ManyDisjointFamilies {
    pub closed spec fn spec_scale(&self) -> Option<ScenarioScale> {
        self.scale.spec_scale()
    }

    pub fn new() -> (s: Self)
        ensures
            s.spec_scale() is None,
    {
        S048ManyDisjointFamilies { scale: ScaleState::new() }
    }

    pub fn id(&self) -> (s: &'static str)
        ensures
            s@ == "s048-many-disjoint-families"@,
    {
        "s048-many-disjoint-families"
    }

    /// Records the scale and plans 50 families of 200 rows.
    pub fn build_fixture(&mut self, ctx: &ScenarioBuildCtx) -> (f: ScenarioFixture)
        ensures
            final(self).spec_scale() == Some(ctx.scale),
            f.path@ == spec_fixture_path(ctx.fixture_dir@, ctx.label@, "s048-many-disjoint-families"@, ctx.scale),
            f.metadata == (FixtureMetadata { rows: 200, cols: 100, sheets: 1, formula_cells: 10_000, value_cells: 10_000, has_named_ranges: false, has_tables: false }),
    {
        self.scale.set(ctx.scale);
        let path = fixture_path(ctx, self.id());
        ScenarioFixture {
            path,
            metadata: FixtureMetadata { rows: 200, cols: 100, sheets: 1, formula_cells: 10_000, value_cells: 10_000, has_named_ranges: false, has_tables: false },
        }
    }

    pub fn edit_plan(&self) -> (p: EditPlan)
        ensures
            p.cycles == 3,
    {
        EditPlan { cycles: 3 }
    }

    /// Cycle `cycle` writes `1000 + cycle` into family 0's input at row `50 + cycle`.
    pub fn edit_writes(cycle: usize) -> (r: (Vec<CellWrite>, &'static str))
        requires
            s048_edit_row(cycle as nat) <= u32::MAX,
        ensures
            writes_match(r.0@, seq![CellWriteView { sheet: "Sheet1"@, row: s048_edit_row(cycle as nat), col: 1, value: 1000 + cycle as int }]),
            r.1@ == "one_family_input"@,
    {
        let mut v: Vec<CellWrite> = Vec::new();
        push_write(&mut v, "Sheet1", 50 + trunc_u32(cycle), 1, 1000 + cycle as i128);
        (v, "one_family_input")
    }

    /// Multiplier of a family.
    pub fn factor(family: u32) -> (v: i128)
        ensures
            v as int == s048_factor(family as nat),
    {
        family as i128 + 2
    }

    /// Input of a family at a row after a number of cycles.
    pub fn input_value(family: u32, row: u32, cycles: usize) -> (v: i128)
        requires
            s048_cycles_ok(cycles as nat),
        ensures
            v as int == s048_input(family as nat, row as nat, cycles as nat),
            0 <= v <= 0x1_0000_0000_0000_0000_0000,
    {
        let mut value: i128 = row as i128 + family as i128;
        if family == 0 {
            let mut cycle: usize = 0;
            while cycle < cycles
                invariant
                    0 <= cycle <= cycles,
                    family == 0,
                    s048_cycles_ok(cycles as nat),
                    value as int == last_write(row as int, row as nat, cycle as nat, |k: nat| s048_edit_row(k), |k: nat| 1000 + k as int),
                decreases cycles - cycle,
            {
                assert(s048_edit_row(cycle as nat) <= u32::MAX);
                if row == 50 + trunc_u32(cycle) {
                    value = 1000 + cycle as i128;
                }
                cycle = cycle + 1;
            }
            proof {
                lemma_last_write_bounds(row as int, row as nat, cycles as nat, |k: nat| s048_edit_row(k), |k: nat| 1000 + k as int, 0, 0x1_0000_0000_0000_0000_0000);
            }
        }
        value
    }

    /// No errors; once evaluated nine sample outputs equal input times factor.
    pub fn invariants(&self, phase: ScenarioPhase) -> (v: Vec<ScenarioInvariant>)
        requires
            phase_ok(phase),
            s048_cycles_ok(spec_completed_cycles(phase)),
        ensures
            invariants_match(v@, s048_invariants(phase)),
    {
        let ghost spec = s048_invariants(phase);
        let mut v: Vec<ScenarioInvariant> = Vec::new();
        push_no_error(&mut v, "Sheet1");
        if has_evaluated_formulas(phase) {
            let cycles = completed_cycles(phase);
            let families: [u32; 3] = [0, 24, 49];
            let rows: [u32; 3] = [1, 100, 200];
            let mut fi: usize = 0;
            while fi < 3
                invariant
                    0 <= fi <= 3,
                    families@ == seq![0u32, 24u32, 49u32],
                    rows@ == seq![1u32, 100u32, 200u32],
                    spec_has_evaluated(phase),
                    cycles as nat == spec_completed_cycles(phase),
                    s048_cycles_ok(cycles as nat),
                    spec == s048_invariants(phase),
                    invariants_match(v@, spec.subrange(0, 1 + 3 * fi)),
                decreases 3 - fi,
            {
                let family = families[fi];
                let mut ri: usize = 0;
                while ri < 3
                    invariant
                        0 <= fi < 3,
                        0 <= ri <= 3,
                        family == families@[fi as int],
                        families@ == seq![0u32, 24u32, 49u32],
                        rows@ == seq![1u32, 100u32, 200u32],
                        cycles as nat == spec_completed_cycles(phase),
                        s048_cycles_ok(cycles as nat),
                        spec == s048_invariants(phase),
                        spec_has_evaluated(phase),
                        invariants_match(v@, spec.subrange(0, 1 + 3 * fi + ri)),
                    decreases 3 - ri,
                {
                    let row = rows[ri];
                    let input = Self::input_value(family, row, cycles);
                    let f = Self::factor(family);
                    push_cell_equals(&mut v, "Sheet1", row, family * 2 + 2, input * f);
                    proof {
                        assert(spec[1 + 3 * fi + ri] == s048_check(family as nat, row as nat, cycles as nat));
                    }
                    ri = ri + 1;
                }
                fi = fi + 1;
            }
            assert(spec.subrange(0, 10) =~= spec);
        } else {
            assert(spec.subrange(0, 1) =~= spec);
        }
        v
    }
}

/// VLOOKUP family with row-relative keys.
pub struct S049VlookupWithRelativeKey {
    scale: ScaleState,
}

/// Lookup key of formula row `row`: cycles through 1..=50.
pub open spec fn s049_key(row: nat) -> nat {
    ((row - 1) % 50 + 1) as nat
}

/// Result column of the table at `row` after `c` cycles: `3 row`, except
/// the edited key row 10, which shows `50000 + k` after cycle `k`.
pub open spec fn s049_table_value(row: nat, c: nat) -> int {
    if row == 10 && c > 0 {
        50_000 + (c - 1)
    } else {
        row as int * 3
    }
}

pub open spec fn s049_invariants(phase: ScenarioPhase) -> Seq<InvariantView> {
    let c = spec_completed_cycles(phase);
    sheet1_no_error() + if spec_has_evaluated(phase) {
        seq![
            InvariantView::CellEquals("Sheet1"@, 1, 4, s049_table_value(s049_key(1), c)),
            InvariantView::CellEquals("Sheet1"@, 10, 4, s049_table_value(s049_key(10), c)),
            InvariantView::CellEquals("Sheet1"@, 60, 4, s049_table_value(s049_key(60), c)),
        ]
    } else {
        Seq::empty()
    }
}

impl S049VlookupWithRelativeKey {
    pub closed spec fn spec_scale(&self) -> Option<ScenarioScale> {
        self.scale.spec_scale()
    }

    pub fn new() -> (s: Self)
        ensures
            s.spec_scale() is None,
    {
        S049VlookupWithRelativeKey { scale: ScaleState::new() }
    }

    pub fn id(&self) -> (s: &'static str)
        ensures
            s@ == "s049-vlookup-with-relative-key"@,
    {
        "s049-vlookup-with-relative-key"
    }

    /// Records the scale and plans the 1000-row key table and lookups.
    pub fn build_fixture(&mut self, ctx: &ScenarioBuildCtx) -> (f: ScenarioFixture)
        ensures
            final(self).spec_scale() == Some(ctx.scale),
            f.path@ == spec_fixture_path(ctx.fixture_dir@, ctx.label@, "s049-vlookup-with-relative-key"@, ctx.scale),
            f.metadata == (FixtureMetadata { rows: 1000, cols: 4, sheets: 1, formula_cells: 1000, value_cells: 3000, has_named_ranges: false, has_tables: false }),
    {
        self.scale.set(ctx.scale);
        let path = fixture_path(ctx, self.id());
        ScenarioFixture {
            path,
            metadata: FixtureMetadata { rows: 1000, cols: 4, sheets: 1, formula_cells: 1000, value_cells: 3000, has_named_ranges: false, has_tables: false },
        }
    }

    pub fn edit_plan(&self) -> (p: EditPlan)
        ensures
            p.cycles == 3,
    {
        EditPlan { cycles: 3 }
    }

    /// Cycle `cycle` writes `50000 + cycle` into the result side of key row 10.
    pub fn edit_writes(cycle: usize) -> (r: (Vec<CellWrite>, &'static str))
        ensures
            writes_match(r.0@, seq![CellWriteView { sheet: "Sheet1"@, row: 10, col: 2, value: 50_000 + cycle as int }]),
            r.1@ == "vlookup_result_side"@,
    {
        let mut v: Vec<CellWrite> = Vec::new();
        push_write(&mut v, "Sheet1", 10, 2, 50_000 + cycle as i128);
        (v, "vlookup_result_side")
    }

    /// Lookup key used by formula row `row`.
    pub fn key_for_formula_row(row: u32) -> (k: u32)
        requires
            row >= 1,
        ensures
            k as nat == s049_key(row as nat),
    {
        ((row - 1) % 50) + 1
    }

    /// Table result at `row` after a number of cycles.
    pub fn table_value(row: u32, cycles: usize) -> (v: i128)
        ensures
            v as int == s049_table_value(row as nat, cycles as nat),
    {
        if row == 10 && cycles > 0 {
            50_000 + (cycles - 1) as i128
        } else {
            row as i128 * 3
        }
    }

    /// No errors; once evaluated rows 1, 10 and 60 show their key's result.
    pub fn invariants(&self, phase: ScenarioPhase) -> (v: Vec<ScenarioInvariant>)
        requires
            phase_ok(phase),
        ensures
            invariants_match(v@, s049_invariants(phase)),
    {
        let mut v: Vec<ScenarioInvariant> = Vec::new();
        push_no_error(&mut v, "Sheet1");
        if has_evaluated_formulas(phase) {
            let cycles = completed_cycles(phase);
            push_cell_equals(&mut v, "Sheet1", 1, 4, Self::table_value(Self::key_for_formula_row(1), cycles));
            push_cell_equals(&mut v, "Sheet1", 10, 4, Self::table_value(Self::key_for_formula_row(10), cycles));
            push_cell_equals(&mut v, "Sheet1", 60, 4, Self::table_value(Self::key_for_formula_row(60), cycles));
        }
        assert(v@.len() == s049_invariants(phase).len());
        v
    }
}

/* -------------------------------- tags -------------------------------- */

impl S001NoFormulasStaticGrid {
    pub fn tags(&self) -> (v: Vec<ScenarioTag>)
        ensures
            v@ == seq![ScenarioTag::NoFormulas, ScenarioTag::SingleCellEdit],
    {
        let v = vec![ScenarioTag::NoFormulas, ScenarioTag::SingleCellEdit];
        assert(v@ =~= seq![ScenarioTag::NoFormulas, ScenarioTag::SingleCellEdit]);
        v
    }
}

impl S002SingleColumnTrivialFamily {
    pub fn tags(&self) -> (v: Vec<ScenarioTag>)
        ensures
            v@ == seq![ScenarioTag::SingleColumnFamily, ScenarioTag::SpanPromotable, ScenarioTag::SingleCellEdit],
    {
        let v = vec![ScenarioTag::SingleColumnFamily, ScenarioTag::SpanPromotable, ScenarioTag::SingleCellEdit];
        assert(v@ =~= seq![ScenarioTag::SingleColumnFamily, ScenarioTag::SpanPromotable, ScenarioTag::SingleCellEdit]);
        v
    }
}

impl S008TwoAnchoredFamilies {
    pub fn tags(&self) -> (v: Vec<ScenarioTag>)
        ensures
            v@ == seq![ScenarioTag::MultiColumnFamily, ScenarioTag::SpanPromotable, ScenarioTag::SingleCellEdit],
    {
        let v = vec![ScenarioTag::MultiColumnFamily, ScenarioTag::SpanPromotable, ScenarioTag::SingleCellEdit];
        assert(v@ =~= seq![ScenarioTag::MultiColumnFamily, ScenarioTag::SpanPromotable, ScenarioTag::SingleCellEdit]);
        v
    }
}

impl S022DynamicFunctionsOffsetIndirect {
    /// OFFSET and INDIRECT resolve their references at run time, so engines
    /// may differ on them in any phase: the difference is noted, not failed.
    pub fn expected_divergences(&self) -> (v: Vec<ExpectedDivergence>)
        ensures
            v@.len() == 1,
            v@[0].phase == ExpectedDivergencePhase::Any,
            v@[0].action == ExpectedDivergenceAction::RunAndNote,
            v@[0].reason@ == "OFFSET and INDIRECT runtime-determined references can differ between engines"@,
    {
        let mut v: Vec<ExpectedDivergence> = Vec::new();
        v.push(ExpectedDivergence {
            phase: ExpectedDivergencePhase::Any,
            reason: "OFFSET and INDIRECT runtime-determined references can differ between engines",
            action: ExpectedDivergenceAction::RunAndNote,
        });
        v
    }

    pub fn tags(&self) -> (v: Vec<ScenarioTag>)
        ensures
            v@ == seq![ScenarioTag::Dynamic, ScenarioTag::SingleCellEdit],
    {
        let v = vec![ScenarioTag::Dynamic, ScenarioTag::SingleCellEdit];
        assert(v@ =~= seq![ScenarioTag::Dynamic, ScenarioTag::SingleCellEdit]);
        v
    }
}

impl S023EmptyCellGapsInFamily {
    pub fn tags(&self) -> (v: Vec<ScenarioTag>)
        ensures
            v@ == seq![ScenarioTag::SingleColumnFamily, ScenarioTag::EmptyGaps, ScenarioTag::SingleCellEdit],
    {
        let v = vec![ScenarioTag::SingleColumnFamily, ScenarioTag::EmptyGaps, ScenarioTag::SingleCellEdit];
        assert(v@ =~= seq![ScenarioTag::SingleColumnFamily, ScenarioTag::EmptyGaps, ScenarioTag::SingleCellEdit]);
        v
    }
}

impl S047VeryDeepChain {
    pub fn tags(&self) -> (v: Vec<ScenarioTag>)
        ensures
            v@ == seq![ScenarioTag::LongChain, ScenarioTag::SingleCellEdit],
    {
        let v = vec![ScenarioTag::LongChain, ScenarioTag::SingleCellEdit];
        assert(v@ =~= seq![ScenarioTag::LongChain, ScenarioTag::SingleCellEdit]);
        v
    }
}

impl S048ManyDisjointFamilies {
    pub fn tags(&self) -> (v: Vec<ScenarioTag>)
        ensures
            v@ == seq![ScenarioTag::SingleColumnFamily, ScenarioTag::SingleCellEdit],
    {
        let v = vec![ScenarioTag::SingleColumnFamily, ScenarioTag::SingleCellEdit];
        assert(v@ =~= seq![ScenarioTag::SingleColumnFamily, ScenarioTag::SingleCellEdit]);
        v
    }
}

impl S049VlookupWithRelativeKey {
    pub fn tags(&self) -> (v: Vec<ScenarioTag>)
        ensures
            v@ == seq![ScenarioTag::LookupHeavy, ScenarioTag::SingleCellEdit],
    {
        let v = vec![ScenarioTag::LookupHeavy, ScenarioTag::SingleCellEdit];
        assert(v@ =~= seq![ScenarioTag::LookupHeavy, ScenarioTag::SingleCellEdit]);
        v
    }
}

} // verus!
