//! Scenarios whose edits change the workbook's structure: row deletes,
//! column deletes, sheet renames and named-range redefinitions.

use vstd::prelude::*;
use crate::text::{dec, dec_chars, chars_of, owned, push_chars, push_str, string_of};
use crate::scenarios::common::{ScenarioTag, 
    ScaleState, ScenarioBuildCtx, ScenarioFixture, FixtureMetadata, ScenarioPhase, ScenarioScale,
    ScenarioInvariant, InvariantView, CellWrite, CellWriteView, EditPlan, StructuralEdit,
    StructuralEditView, structural_view, fixture_path, spec_fixture_path, push_no_error,
    push_cell_equals, push_write, invariants_match, writes_match, sheet1_no_error, standard_rows,
    standard_row_count, resolved_scale, spec_has_evaluated, has_evaluated_formulas,
    spec_completed_cycles, completed_cycles, phase_ok, sum_to, sample_rows,
};

verus! {

/// Rows removed by each delete of S033.
pub const DELETE_ROWS: u32 = 10;
/// Rows added beyond the scale's row count in S033.
pub const BUFFER_ROWS: u32 = 100;

/// `A*2` family with a buffer, losing ten rows per cycle at a point that
/// moves with the cycle.
pub struct S033FamilyWithRowDeleteCycles {
    scale: ScaleState,
}

/// Divisor locating the delete of cycle `k`: 5, 4, 3, 2, 6, repeating.
pub open spec fn delete_divisor(k: nat) -> nat {
    let i = k % 5;
    if i == 0 { 5 } else if i == 1 { 4 } else if i == 2 { 3 } else if i == 3 { 2 } else { 6 }
}

pub open spec fn sat_sub(a: nat, b: nat) -> nat {
    if a >= b { (a - b) as nat } else { 0 }
}

/// First row deleted by cycle `k` when the sheet has `rows` rows: `rows`
/// divided by the cycle's divisor, at least 1 and at most `rows - 10`
/// (itself at least 1).
pub open spec fn delete_start(rows: nat, k: nat) -> nat {
    let q = rows / delete_divisor(k);
    let lo = if q >= 1 { q } else { 1 };
    let hi = if sat_sub(rows, 10) >= 1 { sat_sub(rows, 10) } else { 1 };
    if lo <= hi { lo } else { hi }
}

/// Original row of current row `row` after undoing the deletes of cycles
/// `m - 1` down to 0 on a sheet that started with `base` rows.
pub open spec fn origin_row(row: nat, base: nat, m: nat) -> nat
    decreases m,
{
    if m == 0 {
        row
    } else {
        let k = (m - 1) as nat;
        let start = delete_start(sat_sub(base, 10 * k), k);
        origin_row(if row >= start { row + 10 } else { row }, base, k)
    }
}

pub open spec fn s033_invariants(base: nat, phase: ScenarioPhase) -> Seq<InvariantView> {
    let c = spec_completed_cycles(phase);
    sheet1_no_error() + if spec_has_evaluated(phase) {
        Seq::new(sat_sub(base, 10 * c), |i: int| InvariantView::CellEquals("Sheet1"@, (i + 1) as nat, 2, (origin_row((i + 1) as nat, base, c) * 2) as int))
    } else {
        Seq::empty()
    }
}

/// First row to delete in cycle `cycle` when the sheet has `current_rows`
/// rows.
pub fn delete_start_row(current_rows: u32, cycle: usize) -> (s: u32)
    ensures
        s == delete_start(current_rows as nat, cycle as nat),
        1 <= s,
{
    let i = cycle % 5;
    let divisor: u32 = if i == 0 { 5 } else if i == 1 { 4 } else if i == 2 { 3 } else if i == 3 { 2 } else { 6 };
    let q = current_rows / divisor;
    let lo = if q >= 1 { q } else { 1 };
    let sub = if current_rows >= DELETE_ROWS { current_rows - DELETE_ROWS } else { 0 };
    let hi = if sub >= 1 { sub } else { 1 };
    if lo <= hi { lo } else { hi }
}

/// Original row of current row `row` after `cycles` deletes.
pub fn current_row_origin_after_deletes(row: u32, base_rows: u32, cycles: usize) -> (r: u32)
    requires
        row + 10 * cycles <= u32::MAX,
    ensures
        r == origin_row(row as nat, base_rows as nat, cycles as nat),
{
    let mut current = row;
    let mut m = cycles;
    while m > 0
        invariant
            0 <= m <= cycles,
            current + 10 * m <= u32::MAX,
            origin_row(row as nat, base_rows as nat, cycles as nat) == origin_row(current as nat, base_rows as nat, m as nat),
        decreases m,
    {
        let k = m - 1;
        let before: u32 = if (base_rows as u128) >= 10 * (k as u128) { base_rows - 10 * (k as u32) } else { 0 };
        let start = delete_start_row(before, k);
        if current >= start {
            current = current + DELETE_ROWS;
        }
        m = k;
    }
    current
}

impl S033FamilyWithRowDeleteCycles {
    pub closed spec fn spec_scale(&self) -> Option<ScenarioScale> {
        self.scale.spec_scale()
    }

    pub fn new() -> (s: Self)
        ensures
            s.spec_scale() is None,
    {
        S033FamilyWithRowDeleteCycles { scale: ScaleState::new() }
    }

    pub fn rows(scale: ScenarioScale) -> (r: u32)
        ensures
            r == standard_rows(scale),
    {
        standard_row_count(scale)
    }

    pub fn id(&self) -> (s: &'static str)
        ensures
            s@ == "s033-family-with-row-delete-cycles"@,
    {
        "s033-family-with-row-delete-cycles"
    }

    /// Records the scale and plans the family with its 100-row buffer.
    pub fn build_fixture(&mut self, ctx: &ScenarioBuildCtx) -> (f: ScenarioFixture)
        ensures
            final(self).spec_scale() == Some(ctx.scale),
            f.path@ == spec_fixture_path(ctx.fixture_dir@, ctx.label@, "s033-family-with-row-delete-cycles"@, ctx.scale),
            f.metadata == (FixtureMetadata { rows: (standard_rows(ctx.scale) + 100) as u32, cols: 2, sheets: 1, formula_cells: (standard_rows(ctx.scale) + 100) as u32, value_cells: (standard_rows(ctx.scale) + 100) as u32, has_named_ranges: false, has_tables: false }),
    {
        self.scale.set(ctx.scale);
        let rows = Self::rows(ctx.scale) + BUFFER_ROWS;
        let path = fixture_path(ctx, self.id());
        ScenarioFixture {
            path,
            metadata: FixtureMetadata { rows, cols: 2, sheets: 1, formula_cells: rows, value_cells: rows, has_named_ranges: false, has_tables: false },
        }
    }

    pub fn edit_plan(&self) -> (p: EditPlan)
        ensures
            p.cycles == 5,
    {
        EditPlan { cycles: 5 }
    }

    /// Cycle `cycle` deletes ten rows at `delete_start_row`, the sheet's row
    /// count taken as its reported dimension (11 when unknown), at least 11.
    pub fn edit(cycle: usize, dimension_rows: Option<u32>) -> (r: (StructuralEdit, &'static str))
        ensures
            structural_view(r.0) == StructuralEditView::DeleteRows("Sheet1"@, delete_start(
                match dimension_rows { Some(n) => if n >= 11 { n as nat } else { 11 }, None => 11 }, cycle as nat), 10),
            r.1@ == "delete_rows_10"@,
    {
        let reported = match dimension_rows {
            Some(n) => n,
            None => DELETE_ROWS + 1,
        };
        let rows = if reported >= DELETE_ROWS + 1 { reported } else { DELETE_ROWS + 1 };
        let start = delete_start_row(rows, cycle);
        (StructuralEdit::DeleteRows { sheet: owned("Sheet1"), start, count: DELETE_ROWS }, "delete_rows_10")
    }

    /// No errors; once evaluated every remaining row shows twice the row it
    /// started as. The deleted-row count `10 * cycles` must fit in 32 bits.
    pub fn invariants(&self, phase: ScenarioPhase, global: Option<ScenarioScale>) -> (v: Vec<ScenarioInvariant>)
        requires
            phase_ok(phase),
            spec_completed_cycles(phase) <= 429_496_729,
        ensures
            invariants_match(v@, s033_invariants((standard_rows(resolved_scale(self.spec_scale(), global)) + 100) as nat, phase)),
    {
        let base_rows = Self::rows(self.scale.get_or_small(global)) + BUFFER_ROWS;
        let ghost spec = s033_invariants(base_rows as nat, phase);
        let mut v: Vec<ScenarioInvariant> = Vec::new();
        push_no_error(&mut v, "Sheet1");
        assert(spec.subrange(0, 1) =~= sheet1_no_error());
        if has_evaluated_formulas(phase) {
            let cycles = completed_cycles(phase);
            let rows: u32 = if (base_rows as u128) >= 10 * (cycles as u128) { base_rows - 10 * (cycles as u32) } else { 0 };
            let mut row: u32 = 1;
            while row <= rows
                invariant
                    1 <= row <= rows + 1,
                    rows <= base_rows <= 50_100,
                    rows == sat_sub(base_rows as nat, 10 * cycles as nat),
                    spec_has_evaluated(phase),
                    cycles as nat == spec_completed_cycles(phase),
                    cycles <= 429_496_729,
                    spec == s033_invariants(base_rows as nat, phase),
                    invariants_match(v@, spec.subrange(0, row as int)),
                decreases rows + 1 - row,
            {
                let origin = current_row_origin_after_deletes(row, base_rows, cycles);
                push_cell_equals(&mut v, "Sheet1", row, 2, origin as i128 * 2);
                assert(spec[row as int] == InvariantView::CellEquals("Sheet1"@, row as nat, 2, origin * 2));
                row = row + 1;
            }
            assert(spec.subrange(0, row as int) =~= spec);
        } else {
            assert(spec.subrange(0, 1) =~= spec);
        }
        v
    }
}

/// Six formula columns and five zero buffer columns; each cycle deletes one
/// buffer column.
pub struct S035FamilyWithColumnDelete {
    scale: ScaleState,
}

/// Value of column `col` in `row` while only buffer columns have been
/// deleted: `A`, `A+1`, `2A`, `A-3`, `2A+1`, `3A-3`, then zeros.
pub open spec fn s035_value(row: nat, col: nat) -> int {
    let a = row as int;
    if col == 1 { a } else if col == 2 { a + 1 } else if col == 3 { a * 2 } else if col == 4 { a - 3 }
    else if col == 5 { a * 2 + 1 } else if col == 6 { a * 3 - 3 } else { 0 }
}

pub open spec fn s035_cols(c: nat) -> nat {
    sat_sub(11, c)
}

pub open spec fn s035_invariants(rows: nat, phase: ScenarioPhase) -> Seq<InvariantView> {
    let c = spec_completed_cycles(phase);
    let cols = s035_cols(c);
    sheet1_no_error() + if spec_has_evaluated(phase) {
        Seq::new(rows * cols, |i: int| InvariantView::CellEquals("Sheet1"@, (i / cols as int + 1) as nat, (i % cols as int + 1) as nat,
            s035_value((i / cols as int + 1) as nat, (i % cols as int + 1) as nat)))
    } else {
        Seq::empty()
    }
}

impl S035FamilyWithColumnDelete {
    pub closed spec fn spec_scale(&self) -> Option<ScenarioScale> {
        self.scale.spec_scale()
    }

    pub fn new() -> (s: Self)
        ensures
            s.spec_scale() is None,
    {
        S035FamilyWithColumnDelete { scale: ScaleState::new() }
    }

    pub fn rows(scale: ScenarioScale) -> (r: u32)
        ensures
            r == standard_rows(scale),
    {
        standard_row_count(scale)
    }

    pub fn id(&self) -> (s: &'static str)
        ensures
            s@ == "s035-family-with-column-delete"@,
    {
        "s035-family-with-column-delete"
    }

    /// Records the scale and plans the six columns and five buffer columns.
    pub fn build_fixture(&mut self, ctx: &ScenarioBuildCtx) -> (f: ScenarioFixture)
        ensures
            final(self).spec_scale() == Some(ctx.scale),
            f.path@ == spec_fixture_path(ctx.fixture_dir@, ctx.label@, "s035-family-with-column-delete"@, ctx.scale),
            f.metadata == (FixtureMetadata { rows: standard_rows(ctx.scale), cols: 11, sheets: 1, formula_cells: (standard_rows(ctx.scale) * 5) as u32, value_cells: (standard_rows(ctx.scale) * 6) as u32, has_named_ranges: false, has_tables: false }),
    {
        self.scale.set(ctx.scale);
        let rows = Self::rows(ctx.scale);
        let path = fixture_path(ctx, self.id());
        ScenarioFixture {
            path,
            metadata: FixtureMetadata { rows, cols: 11, sheets: 1, formula_cells: rows * 5, value_cells: rows * 6, has_named_ranges: false, has_tables: false },
        }
    }

    pub fn edit_plan(&self) -> (p: EditPlan)
        ensures
            p.cycles == 5,
    {
        EditPlan { cycles: 5 }
    }

    /// Every cycle deletes column G (the first buffer column).
    pub fn edit(cycle: usize) -> (r: (StructuralEdit, &'static str))
        ensures
            structural_view(r.0) == StructuralEditView::DeleteColumns("Sheet1"@, 7, 1),
            r.1@ == "delete_buffer_column_1"@,
    {
        (StructuralEdit::DeleteColumns { sheet: owned("Sheet1"), start: 7, count: 1 }, "delete_buffer_column_1")
    }

    /// Value of column `col` in `row`.
    pub fn expected_value_after_buffer_deletes(row: u32, col: u32) -> (v: i128)
        ensures
            v == s035_value(row as nat, col as nat),
    {
        let a = row as i128;
        if col == 1 { a } else if col == 2 { a + 1 } else if col == 3 { a * 2 } else if col == 4 { a - 3 }
        else if col == 5 { a * 2 + 1 } else if col == 6 { a * 3 - 3 } else { 0 }
    }

    /// No errors; once evaluated every remaining cell shows its value.
    pub fn invariants(&self, phase: ScenarioPhase, global: Option<ScenarioScale>) -> (v: Vec<ScenarioInvariant>)
        requires
            phase_ok(phase),
        ensures
            invariants_match(v@, s035_invariants(standard_rows(resolved_scale(self.spec_scale(), global)) as nat, phase)),
    {
        let rows = Self::rows(self.scale.get_or_small(global));
        let ghost spec = s035_invariants(rows as nat, phase);
        let mut v: Vec<ScenarioInvariant> = Vec::new();
        push_no_error(&mut v, "Sheet1");
        assert(spec.subrange(0, 1) =~= sheet1_no_error());
        if has_evaluated_formulas(phase) {
            let cycles = completed_cycles(phase);
            let cols: u32 = if cycles < 11 { 11 - cycles as u32 } else { 0 };
            let mut row: u32 = 1;
            while row <= rows
                invariant
                    1 <= row <= rows + 1,
                    0 < rows <= 50_000,
                    cols <= 11,
                    cols == s035_cols(cycles as nat),
                    spec_has_evaluated(phase),
                    cycles as nat == spec_completed_cycles(phase),
                    spec == s035_invariants(rows as nat, phase),
                    invariants_match(v@, spec.subrange(0, (row - 1) * cols + 1)),
                decreases rows + 1 - row,
            {
                let mut col: u32 = 1;
                while col <= cols
                    invariant
                        1 <= col <= cols + 1,
                        1 <= row <= rows,
                        0 < rows <= 50_000,
                        cols <= 11,
                        cols == s035_cols(cycles as nat),
                        spec_has_evaluated(phase),
                        cycles as nat == spec_completed_cycles(phase),
                        spec == s035_invariants(rows as nat, phase),
                        invariants_match(v@, spec.subrange(0, (row - 1) * cols + col)),
                    decreases cols + 1 - col,
                {
                    let value = Self::expected_value_after_buffer_deletes(row, col);
                    push_cell_equals(&mut v, "Sheet1", row, col, value);
                    proof {
                        let i = (row - 1) * cols + col - 1;
                        assert(i / (cols as int) == row - 1 && i % (cols as int) == col - 1) by (nonlinear_arith)
                            requires i == (row - 1) * cols + col - 1, 1 <= col <= cols, row >= 1;
                        assert(0 <= i < rows * cols) by (nonlinear_arith)
                            requires i == (row - 1) * cols + col - 1, 1 <= col <= cols, 1 <= row <= rows;
                        assert(spec[i + 1] == InvariantView::CellEquals("Sheet1"@, row as nat, col as nat, value as int));
                    }
                    col = col + 1;
                }
                proof {
                    assert((row - 1) * cols + cols == row * cols) by (nonlinear_arith);
                }
                row = row + 1;
            }
            proof {
                assert((row - 1) * cols == rows * cols);
            }
            assert(spec.subrange(0, (row - 1) * cols + 1) =~= spec);
        } else {
            assert(spec.subrange(0, 1) =~= spec);
        }
        v
    }
}

/// Data rows of S036.
pub const S036_DATA_ROWS: u32 = 1_000;

/// Sheet1 adds two data tabs while the data tabs are renamed away and back.
pub struct S036MultiSheetWithSheetRename {
    scale: ScaleState,
}

/// Row of DataA rewritten by the fifth cycle.
pub open spec fn s036_edited_row() -> nat {
    (4 * 37) % 1_000 + 1
}

pub open spec fn s036_data_a(row: nat, c: nat) -> int {
    if row > 1_000 { 0 } else if c > 4 && row == s036_edited_row() { 10_000 } else { row as int }
}

pub open spec fn s036_data_b(row: nat) -> int {
    if row > 1_000 { 0 } else { 2 * row as int }
}

pub open spec fn s036_sheet1(row: nat, c: nat) -> int {
    s036_data_a(row, c) + s036_data_b(row)
}

pub open spec fn s036_invariants(rows: nat, phase: ScenarioPhase) -> Seq<InvariantView> {
    let c = spec_completed_cycles(phase);
    sheet1_no_error() + if spec_has_evaluated(phase) {
        Seq::new(rows, |i: int| InvariantView::CellEquals("Sheet1"@, (i + 1) as nat, 1, s036_sheet1((i + 1) as nat, c)))
    } else {
        Seq::empty()
    }
}

/// Renames of the first four cycles and the label of each cycle.
pub open spec fn s036_renames(k: nat) -> Seq<StructuralEditView> {
    if k == 0 { seq![StructuralEditView::RenameSheet("DataA"@, "DataAA"@)] }
    else if k == 1 { seq![StructuralEditView::RenameSheet("DataAA"@, "DataA"@)] }
    else if k == 2 { seq![StructuralEditView::RenameSheet("DataB"@, "DataBB"@)] }
    else if k == 3 { seq![StructuralEditView::RenameSheet("DataBB"@, "DataB"@)] }
    else { Seq::empty() }
}

pub open spec fn s036_label(k: nat) -> Seq<char> {
    if k == 0 { "rename_data_a_forward"@ }
    else if k == 1 { "rename_data_a_back"@ }
    else if k == 2 { "rename_data_b_forward"@ }
    else if k == 3 { "rename_data_b_back"@ }
    else if k == 4 { "data_a_value"@ }
    else { "noop"@ }
}

impl S036MultiSheetWithSheetRename {
    pub closed spec fn spec_scale(&self) -> Option<ScenarioScale> {
        self.scale.spec_scale()
    }

    pub fn new() -> (s: Self)
        ensures
            s.spec_scale() is None,
    {
        S036MultiSheetWithSheetRename { scale: ScaleState::new() }
    }

    pub fn rows(scale: ScenarioScale) -> (r: u32)
        ensures
            r == standard_rows(scale),
    {
        standard_row_count(scale)
    }

    pub fn id(&self) -> (s: &'static str)
        ensures
            s@ == "s036-multi-sheet-with-sheet-rename"@,
    {
        "s036-multi-sheet-with-sheet-rename"
    }

    /// Records the scale and plans the two data tabs and the Sheet1 family.
    pub fn build_fixture(&mut self, ctx: &ScenarioBuildCtx) -> (f: ScenarioFixture)
        ensures
            final(self).spec_scale() == Some(ctx.scale),
            f.path@ == spec_fixture_path(ctx.fixture_dir@, ctx.label@, "s036-multi-sheet-with-sheet-rename"@, ctx.scale),
            f.metadata == (FixtureMetadata { rows: standard_rows(ctx.scale), cols: 1, sheets: 3, formula_cells: standard_rows(ctx.scale), value_cells: 2_000, has_named_ranges: false, has_tables: false }),
    {
        self.scale.set(ctx.scale);
        let rows = Self::rows(ctx.scale);
        let path = fixture_path(ctx, self.id());
        ScenarioFixture {
            path,
            metadata: FixtureMetadata {
                rows: if rows >= S036_DATA_ROWS { rows } else { S036_DATA_ROWS },
                cols: 1, sheets: 3, formula_cells: rows, value_cells: S036_DATA_ROWS * 2, has_named_ranges: false, has_tables: false,
            },
        }
    }

    pub fn edit_plan(&self) -> (p: EditPlan)
        ensures
            p.cycles == 5,
    {
        EditPlan { cycles: 5 }
    }

    /// Cycles 0 to 3 rename DataA away and back, then DataB; cycle 4 writes
    /// 10000 into DataA row 149; later cycles do nothing.
    pub fn edit(cycle: usize) -> (r: (Vec<StructuralEdit>, Vec<CellWrite>, &'static str))
        ensures
            r.0@.len() == s036_renames(cycle as nat).len(),
            forall|i: int| 0 <= i < r.0@.len() ==> structural_view(#[trigger] r.0@[i]) == s036_renames(cycle as nat)[i],
            writes_match(r.1@, if cycle == 4 { seq![CellWriteView { sheet: "DataA"@, row: s036_edited_row(), col: 1, value: 10_000 }] } else { Seq::empty() }),
            r.2@ == s036_label(cycle as nat),
    {
        let mut edits: Vec<StructuralEdit> = Vec::new();
        let mut writes: Vec<CellWrite> = Vec::new();
        if cycle == 0 {
            edits.push(StructuralEdit::RenameSheet { from: owned("DataA"), to: owned("DataAA") });
            (edits, writes, "rename_data_a_forward")
        } else if cycle == 1 {
            edits.push(StructuralEdit::RenameSheet { from: owned("DataAA"), to: owned("DataA") });
            (edits, writes, "rename_data_a_back")
        } else if cycle == 2 {
            edits.push(StructuralEdit::RenameSheet { from: owned("DataB"), to: owned("DataBB") });
            (edits, writes, "rename_data_b_forward")
        } else if cycle == 3 {
            edits.push(StructuralEdit::RenameSheet { from: owned("DataBB"), to: owned("DataB") });
            (edits, writes, "rename_data_b_back")
        } else if cycle == 4 {
            push_write(&mut writes, "DataA", (4 * 37) % S036_DATA_ROWS + 1, 1, 10_000);
            (edits, writes, "data_a_value")
        } else {
            (edits, writes, "noop")
        }
    }

    /// Sheet1 value of `row` after `completed_cycles` cycles.
    pub fn sheet1_value(row: u32, completed_cycles: usize) -> (v: i128)
        ensures
            v == s036_sheet1(row as nat, completed_cycles as nat),
    {
        let a: i128 = if row > S036_DATA_ROWS {
            0
        } else if completed_cycles > 4 && row == (4 * 37) % S036_DATA_ROWS + 1 {
            10_000
        } else {
            row as i128
        };
        let b: i128 = if row > S036_DATA_ROWS { 0 } else { 2 * row as i128 };
        a + b
    }

    /// No errors; once evaluated every row shows DataA plus DataB.
    pub fn invariants(&self, phase: ScenarioPhase, global: Option<ScenarioScale>) -> (v: Vec<ScenarioInvariant>)
        requires
            phase_ok(phase),
        ensures
            invariants_match(v@, s036_invariants(standard_rows(resolved_scale(self.spec_scale(), global)) as nat, phase)),
    {
        let rows = Self::rows(self.scale.get_or_small(global));
        let ghost spec = s036_invariants(rows as nat, phase);
        let mut v: Vec<ScenarioInvariant> = Vec::new();
        push_no_error(&mut v, "Sheet1");
        assert(spec.subrange(0, 1) =~= sheet1_no_error());
        if has_evaluated_formulas(phase) {
            let cycles = completed_cycles(phase);
            let mut row: u32 = 1;
            while row <= rows
                invariant
                    1 <= row <= rows + 1,
                    0 < rows <= 50_000,
                    spec_has_evaluated(phase),
                    cycles as nat == spec_completed_cycles(phase),
                    spec == s036_invariants(rows as nat, phase),
                    invariants_match(v@, spec.subrange(0, row as int)),
                decreases rows + 1 - row,
            {
                let value = Self::sheet1_value(row, cycles);
                push_cell_equals(&mut v, "Sheet1", row, 1, value);
                assert(spec[row as int] == InvariantView::CellEquals("Sheet1"@, row as nat, 1, value as int));
                row = row + 1;
            }
            assert(spec.subrange(0, row as int) =~= spec);
        } else {
            assert(spec.subrange(0, 1) =~= spec);
        }
        v
    }
}

/// Data rows of S037.
pub const S037_DATA_ROWS: u32 = 1_000;

/// A workbook name redefined each cycle and a family scaling its SUM by the
/// row number.
pub struct S037NamedRangeUpdateCycles {
    scale: ScaleState,
}

/// Rows `(start, end)` the name covers after `c` cycles.
pub open spec fn s037_range(c: nat) -> (nat, nat) {
    if c == 0 { (1, 100) } else if c == 1 { (1, 200) } else if c == 2 { (50, 150) }
    else if c == 3 { (100, 300) } else if c == 4 { (10, 400) } else { (250, 500) }
}

/// Sum of the rows the name covers (each data row holds its number).
pub open spec fn s037_term(start: nat) -> spec_fn(nat) -> int {
    |i: nat| (start + i) as int
}

pub open spec fn s037_sum(c: nat) -> int {
    sum_to(s037_term(s037_range(c).0), (s037_range(c).1 - s037_range(c).0 + 1) as nat)
}

pub open spec fn s037_sample(rows: nat) -> Seq<nat> {
    seq![1nat, if rows / 2 >= 1 { rows / 2 } else { 1 }, if rows >= 1 { rows } else { 1 }]
}

pub open spec fn s037_invariants(rows: nat, phase: ScenarioPhase) -> Seq<InvariantView> {
    let c = spec_completed_cycles(phase);
    sheet1_no_error() + if spec_has_evaluated(phase) {
        Seq::new(3, |i: int| InvariantView::CellEquals("Sheet1"@, s037_sample(rows)[i], 1, s037_sum(c) * s037_sample(rows)[i]))
    } else {
        Seq::empty()
    }
}

impl S037NamedRangeUpdateCycles {
    pub closed spec fn spec_scale(&self) -> Option<ScenarioScale> {
        self.scale.spec_scale()
    }

    pub fn new() -> (s: Self)
        ensures
            s.spec_scale() is None,
    {
        S037NamedRangeUpdateCycles { scale: ScaleState::new() }
    }

    pub fn rows(scale: ScenarioScale) -> (r: u32)
        ensures
            r == standard_rows(scale),
    {
        standard_row_count(scale)
    }

    pub fn id(&self) -> (s: &'static str)
        ensures
            s@ == "s037-named-range-update-cycles"@,
    {
        "s037-named-range-update-cycles"
    }

    /// Records the scale and plans the data tab, the name and the family.
    pub fn build_fixture(&mut self, ctx: &ScenarioBuildCtx) -> (f: ScenarioFixture)
        ensures
            final(self).spec_scale() == Some(ctx.scale),
            f.path@ == spec_fixture_path(ctx.fixture_dir@, ctx.label@, "s037-named-range-update-cycles"@, ctx.scale),
            f.metadata == (FixtureMetadata { rows: standard_rows(ctx.scale), cols: 1, sheets: 2, formula_cells: standard_rows(ctx.scale), value_cells: 1_000, has_named_ranges: true, has_tables: false }),
    {
        self.scale.set(ctx.scale);
        let rows = Self::rows(ctx.scale);
        let path = fixture_path(ctx, self.id());
        ScenarioFixture {
            path,
            metadata: FixtureMetadata {
                rows: if rows >= S037_DATA_ROWS { rows } else { S037_DATA_ROWS },
                cols: 1, sheets: 2, formula_cells: rows, value_cells: S037_DATA_ROWS, has_named_ranges: true, has_tables: false,
            },
        }
    }

    /// Formula of Sheet1 row `row`: the name's SUM times the row number.
    pub fn row_formula(row: u32) -> (s: String)
        ensures
            s@ == "=SUM(DataRange) * "@ + dec(row as nat),
    {
        let mut v = chars_of("=SUM(DataRange) * ");
        push_chars(&mut v, &dec_chars(row as u64));
        string_of(&v)
    }

    pub fn edit_plan(&self) -> (p: EditPlan)
        ensures
            p.cycles == 5,
    {
        EditPlan { cycles: 5 }
    }

    /// Rows covered by the name after `completed_cycles` cycles.
    pub fn range_for_cycle(completed_cycles: usize) -> (r: (u32, u32))
        ensures
            (r.0 as nat, r.1 as nat) == s037_range(completed_cycles as nat),
    {
        match completed_cycles {
            0 => (1, 100),
            1 => (1, 200),
            2 => (50, 150),
            3 => (100, 300),
            4 => (10, 400),
            _ => (250, 500),
        }
    }

    /// Cycle `cycle` redefines the name over Data rows of
    /// `range_for_cycle(cycle + 1)`; the fifth cycle also rewrites Data rows
    /// 1 to 10 with their own numbers.
    pub fn edit(cycle: usize) -> (r: (StructuralEdit, Vec<CellWrite>, &'static str))
        requires
            cycle < usize::MAX,
        ensures
            structural_view(r.0) == StructuralEditView::UpdateNamedRange("DataRange"@, "Data"@,
                s037_range(cycle as nat + 1).0, 1, s037_range(cycle as nat + 1).1, 1),
            writes_match(r.1@, if cycle == 4 {
                Seq::new(10, |i: int| CellWriteView { sheet: "Data"@, row: (i + 1) as nat, col: 1, value: i + 1 })
            } else {
                Seq::empty()
            }),
            r.2@ == "update_named_range"@,
    {
        let (start, end) = Self::range_for_cycle(cycle + 1);
        let edit = StructuralEdit::UpdateNamedRange { name: owned("DataRange"), sheet: owned("Data"), start_row: start, start_col: 1, end_row: end, end_col: 1 };
        let mut writes: Vec<CellWrite> = Vec::new();
        if cycle == 4 {
            let ghost spec = Seq::new(10, |i: int| CellWriteView { sheet: "Data"@, row: (i + 1) as nat, col: 1, value: i + 1 });
            let mut row: u32 = 1;
            while row <= 10
                invariant
                    1 <= row <= 11,
                    spec == Seq::new(10, |i: int| CellWriteView { sheet: "Data"@, row: (i + 1) as nat, col: 1, value: i + 1 }),
                    writes_match(writes@, spec.subrange(0, row - 1)),
                decreases 11 - row,
            {
                push_write(&mut writes, "Data", row, 1, row as i128);
                row = row + 1;
            }
            assert(spec.subrange(0, 10) =~= spec);
        }
        (edit, writes, "update_named_range")
    }

    /// Sum of the rows covered after `completed_cycles` cycles.
    pub fn current_range_sum(completed_cycles: usize) -> (v: i128)
        ensures
            v == s037_sum(completed_cycles as nat),
    {
        let (start, end) = Self::range_for_cycle(completed_cycles);
        let ghost f = s037_term(start as nat);
        let mut total: i128 = 0;
        let mut row: u32 = start;
        while row <= end
            invariant
                start <= row <= end + 1,
                1 <= start <= end <= 500,
                f == s037_term(start as nat),
                total == sum_to(f, (row - start) as nat),
                0 <= total <= (row - start) * 500,
            decreases end + 1 - row,
        {
            total = total + row as i128;
            row = row + 1;
        }
        total
    }

    /// No errors; once evaluated the first, middle and last rows show the
    /// name's sum times their row number.
    pub fn invariants(&self, phase: ScenarioPhase, global: Option<ScenarioScale>) -> (v: Vec<ScenarioInvariant>)
        requires
            phase_ok(phase),
        ensures
            invariants_match(v@, s037_invariants(standard_rows(resolved_scale(self.spec_scale(), global)) as nat, phase)),
    {
        let rows = Self::rows(self.scale.get_or_small(global));
        let ghost spec = s037_invariants(rows as nat, phase);
        let mut v: Vec<ScenarioInvariant> = Vec::new();
        push_no_error(&mut v, "Sheet1");
        assert(spec.subrange(0, 1) =~= sheet1_no_error());
        if has_evaluated_formulas(phase) {
            let sum = Self::current_range_sum(completed_cycles(phase));
            assert(0 <= sum <= 500 * 500) by {
                let c = spec_completed_cycles(phase);
                let (start, end) = s037_range(c);
                crate::scenarios::common::lemma_sum_to_bounds(s037_term(start), (end - start + 1) as nat, 500);
            }
            let sample = sample_rows(rows);
            let mut j: usize = 0;
            while j < 3
                invariant
                    0 <= j <= 3,
                    0 <= sum <= 500 * 500,
                    0 < rows <= 50_000,
                    spec_has_evaluated(phase),
                    sum == s037_sum(spec_completed_cycles(phase)),
                    sample@ == seq![1u32, if rows / 2 >= 1 { rows / 2 } else { 1 }, if rows >= 1 { rows } else { 1 }],
                    spec == s037_invariants(rows as nat, phase),
                    invariants_match(v@, spec.subrange(0, j + 1)),
                decreases 3 - j,
            {
                let row = sample[j];
                assert(row <= 50_000);
                assert(0 <= sum * row <= 500 * 500 * 50_000) by (nonlinear_arith)
                    requires 0 <= sum <= 500 * 500, row <= 50_000;
                push_cell_equals(&mut v, "Sheet1", row, 1, sum * row as i128);
                assert(s037_sample(rows as nat)[j as int] == row);
                assert(spec[j + 1] == InvariantView::CellEquals("Sheet1"@, row as nat, 1, sum * row));
                j = j + 1;
            }
            assert(spec.subrange(0, 4) =~= spec);
        } else {
            assert(spec.subrange(0, 1) =~= spec);
        }
        v
    }
}

/* -------------------------------- tags -------------------------------- */

impl S033FamilyWithRowDeleteCycles {
    pub fn tags(&self) -> (v: Vec<ScenarioTag>)
        ensures
            v@ == seq![ScenarioTag::SingleColumnFamily, ScenarioTag::DeleteRows],
    {
        let v = vec![ScenarioTag::SingleColumnFamily, ScenarioTag::DeleteRows];
        assert(v@ =~= seq![ScenarioTag::SingleColumnFamily, ScenarioTag::DeleteRows]);
        v
    }
}

impl S035FamilyWithColumnDelete {
    pub fn tags(&self) -> (v: Vec<ScenarioTag>)
        ensures
            v@ == seq![ScenarioTag::MultiColumnFamily, ScenarioTag::DeleteColumns],
    {
        let v = vec![ScenarioTag::MultiColumnFamily, ScenarioTag::DeleteColumns];
        assert(v@ =~= seq![ScenarioTag::MultiColumnFamily, ScenarioTag::DeleteColumns]);
        v
    }
}

impl S036MultiSheetWithSheetRename {
    pub fn tags(&self) -> (v: Vec<ScenarioTag>)
        ensures
            v@ == seq![ScenarioTag::MultiSheet, ScenarioTag::CrossSheet, ScenarioTag::SheetRename, ScenarioTag::SingleCellEdit],
    {
        let v = vec![ScenarioTag::MultiSheet, ScenarioTag::CrossSheet, ScenarioTag::SheetRename, ScenarioTag::SingleCellEdit];
        assert(v@ =~= seq![ScenarioTag::MultiSheet, ScenarioTag::CrossSheet, ScenarioTag::SheetRename, ScenarioTag::SingleCellEdit]);
        v
    }
}

impl S037NamedRangeUpdateCycles {
    pub fn tags(&self) -> (v: Vec<ScenarioTag>)
        ensures
            v@ == seq![ScenarioTag::NamedRanges, ScenarioTag::BulkEdit],
    {
        let v = vec![ScenarioTag::NamedRanges, ScenarioTag::BulkEdit];
        assert(v@ =~= seq![ScenarioTag::NamedRanges, ScenarioTag::BulkEdit]);
        v
    }
}

} // verus!
