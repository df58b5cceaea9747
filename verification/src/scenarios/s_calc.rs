//! Scenarios with a calc tab of complex formulas over a data tab.

use vstd::prelude::*;
use crate::text::{dec, dec_chars, chars_of, push_chars, push_str, string_of};
use crate::scenarios::common::{ScenarioTag, 
    ScaleState, ScenarioBuildCtx, ScenarioFixture, FixtureMetadata, ScenarioPhase, ScenarioScale,
    ScenarioInvariant, InvariantView, CellWrite, CellWriteView, EditPlan, fixture_path,
    spec_fixture_path, push_no_error, push_cell_equals, push_write, invariants_match, writes_match,
    standard_rows, standard_row_count, resolved_scale, spec_has_evaluated, has_evaluated_formulas,
    spec_completed_cycles, completed_cycles, phase_ok, sum_to,
};
use crate::scenarios::s_simple::row_37;
use crate::scenarios::s_tables::{edited_value, s019_type};

verus! {

proof fn lemma_type_labels_differ()
    ensures
        "Type0"@ != "Type1"@,
        "Type0"@ != "Type2"@,
        "Type1"@ != "Type2"@,
{
    reveal_strlit("Type0");
    reveal_strlit("Type1");
    reveal_strlit("Type2");
    assert("Type0"@[4] != "Type1"@[4]);
    assert("Type0"@[4] != "Type2"@[4]);
    assert("Type1"@[4] != "Type2"@[4]);
}

fn replay(init: i128, row: u32, n: u32, completed_cycles: usize) -> (v: i128)
    requires
        n > 0,
        0 <= init <= 0x1_0000_0000_0000,
        completed_cycles < 0x1_0000_0000,
    ensures
        v == edited_value(init as int, row as nat, n as nat, 10_000, completed_cycles as nat),
        0 <= v <= 0x1_0000_0000_0000,
{
    let mut value = init;
    let mut cycle: usize = 0;
    while cycle < completed_cycles
        invariant
            0 <= cycle <= completed_cycles < 0x1_0000_0000,
            n > 0,
            0 <= value <= 0x1_0000_0000_0000,
            value == edited_value(init as int, row as nat, n as nat, 10_000, cycle as nat),
        decreases completed_cycles - cycle,
    {
        if row as u128 == ((cycle as u128) * 37) % (n as u128) + 1 {
            value = 10_000 + cycle as i128;
        }
        cycle = cycle + 1;
    }
    value
}

/// Data rows of S029.
pub const S029_DATA_ROWS: u32 = 1_000;
/// Calc rows of S029 (fixed at every scale).
pub const S029_CALC_ROWS: u32 = 200;

/// A data tab and 200 calc cells combining lookups, conditional sums and
/// counts, a branch and a text length.
pub struct S029CalcTab200ComplexCells {
    scale: ScaleState,
}

/// Data value of `row` after `c` cycles (`10 row + 5` until edited).
pub open spec fn s029_data(row: nat, c: nat) -> int {
    edited_value(10 * row as int + 5, row, 1_000, 10_000, c)
}

pub open spec fn s029_sum_type0(c: nat) -> int {
    sum_to(|i: nat| if s019_type(i + 1) == "Type0"@ { s029_data(i + 1, c) } else { 0 }, 1_000)
}

pub open spec fn s029_count_type1() -> int {
    sum_to(|i: nat| if s019_type(i + 1) == "Type1"@ { 1int } else { 0int }, 1_000)
}

/// Value of calc row 1: its two lookups, the `Type0` sum, the `Type1`
/// count, the odd-row branch (200) and the length of `row-1` (5).
pub open spec fn s029_calc1(c: nat) -> int {
    s029_data(1, c) + s029_data(7, c) + s029_sum_type0(c) + s029_count_type1() + 200 + 5
}

pub open spec fn s029_invariants(phase: ScenarioPhase) -> Seq<InvariantView> {
    seq![InvariantView::NoErrorCells("Calc"@)] + if spec_has_evaluated(phase) {
        seq![InvariantView::CellEquals("Calc"@, 1, 1, s029_calc1(spec_completed_cycles(phase)))]
    } else {
        Seq::empty()
    }
}

/// Formula of calc row `r`.
pub open spec fn s029_formula(r: nat) -> Seq<char> {
    "=VLOOKUP("@ + dec(r) + ", Data!$A$1:$B$1000, 2, FALSE) + IFERROR(VLOOKUP("@ + dec(7 * r)
        + ", Data!$A$1:$B$1000, 2, FALSE), 0) + SUMIFS(Data!$B$1:$B$1000, Data!$C$1:$C$1000, \"Type0\") + COUNTIFS(Data!$C$1:$C$1000, \"Type1\") + IF(MOD("@
        + dec(r) + ", 2) = 0, 100, 200) + LEN(\"row-\" & "@ + dec(r) + ")"@
}

impl S029CalcTab200ComplexCells {
    pub closed spec fn spec_scale(&self) -> Option<ScenarioScale> {
        self.scale.spec_scale()
    }

    pub fn new() -> (s: Self)
        ensures
            s.spec_scale() is None,
    {
        S029CalcTab200ComplexCells { scale: ScaleState::new() }
    }

    pub fn id(&self) -> (s: &'static str)
        ensures
            s@ == "s029-calc-tab-200-complex-cells"@,
    {
        "s029-calc-tab-200-complex-cells"
    }

    /// Records the scale and plans the data tab and the 200 calc cells.
    pub fn build_fixture(&mut self, ctx: &ScenarioBuildCtx) -> (f: ScenarioFixture)
        ensures
            final(self).spec_scale() == Some(ctx.scale),
            f.path@ == spec_fixture_path(ctx.fixture_dir@, ctx.label@, "s029-calc-tab-200-complex-cells"@, ctx.scale),
            f.metadata == (FixtureMetadata { rows: 1_000, cols: 3, sheets: 2, formula_cells: 200, value_cells: 3_000, has_named_ranges: false, has_tables: false }),
    {
        self.scale.set(ctx.scale);
        let path = fixture_path(ctx, self.id());
        ScenarioFixture {
            path,
            metadata: FixtureMetadata { rows: S029_DATA_ROWS, cols: 3, sheets: 2, formula_cells: S029_CALC_ROWS, value_cells: S029_DATA_ROWS * 3, has_named_ranges: false, has_tables: false },
        }
    }

    /// Formula of calc row `r`.
    pub fn calc_formula(r: u32) -> (s: String)
        requires
            r <= 1_000_000,
        ensures
            s@ == s029_formula(r as nat),
    {
        let d = dec_chars(r as u64);
        let mut v = chars_of("=VLOOKUP(");
        push_chars(&mut v, &d);
        push_str(&mut v, ", Data!$A$1:$B$1000, 2, FALSE) + IFERROR(VLOOKUP(");
        push_chars(&mut v, &dec_chars((r * 7) as u64));
        push_str(&mut v, ", Data!$A$1:$B$1000, 2, FALSE), 0) + SUMIFS(Data!$B$1:$B$1000, Data!$C$1:$C$1000, \"Type0\") + COUNTIFS(Data!$C$1:$C$1000, \"Type1\") + IF(MOD(");
        push_chars(&mut v, &d);
        push_str(&mut v, ", 2) = 0, 100, 200) + LEN(\"row-\" & ");
        push_chars(&mut v, &d);
        push_str(&mut v, ")");
        string_of(&v)
    }

    pub fn edit_plan(&self) -> (p: EditPlan)
        ensures
            p.cycles == 5,
    {
        EditPlan { cycles: 5 }
    }

    /// Cycle `cycle` writes `10000 + cycle` into the data value of row
    /// `37 cycle mod 1000 + 1`.
    pub fn edit_writes(cycle: usize) -> (r: (Vec<CellWrite>, &'static str))
        ensures
            writes_match(r.0@, seq![CellWriteView { sheet: "Data"@, row: row_37(cycle as nat, 1_000), col: 2, value: 10_000 + cycle as int }]),
            r.1@ == "data_value"@,
    {
        let mut v: Vec<CellWrite> = Vec::new();
        let row = (((cycle as u128) * 37) % 1_000) as u32 + 1;
        push_write(&mut v, "Data", row, 2, 10_000 + cycle as i128);
        (v, "data_value")
    }

    /// Data value of `row` after `completed_cycles` cycles.
    pub fn data_value(row: u32, completed_cycles: usize) -> (v: i128)
        requires
            row <= 1_000,
            completed_cycles < 0x1_0000_0000,
        ensures
            v == s029_data(row as nat, completed_cycles as nat),
            0 <= v <= 0x1_0000_0000_0000,
    {
        replay(10 * row as i128 + 5, row, S029_DATA_ROWS, completed_cycles)
    }

    /// Sum of the data values of `Type0` rows.
    pub fn sum_type0(completed_cycles: usize) -> (v: i128)
        requires
            completed_cycles < 0x1_0000_0000,
        ensures
            v == s029_sum_type0(completed_cycles as nat),
            0 <= v <= 1_000 * 0x1_0000_0000_0000,
    {
        proof {
            lemma_type_labels_differ();
        }
        let ghost f = |i: nat| if s019_type(i + 1) == "Type0"@ { s029_data(i + 1, completed_cycles as nat) } else { 0 };
        let mut total: i128 = 0;
        let mut row: u32 = 1;
        while row <= S029_DATA_ROWS
            invariant
                1 <= row <= 1_001,
                completed_cycles < 0x1_0000_0000,
                f == (|i: nat| if s019_type(i + 1) == "Type0"@ { s029_data(i + 1, completed_cycles as nat) } else { 0 }),
                total == sum_to(f, (row - 1) as nat),
                0 <= total <= (row - 1) * 0x1_0000_0000_0000,
            decreases 1_001 - row,
        {
            proof {
                lemma_type_labels_differ();
            }
            if row % 3 == 0 {
                total = total + Self::data_value(row, completed_cycles);
            }
            row = row + 1;
        }
        total
    }

    /// Number of `Type1` rows.
    pub fn count_type1() -> (v: i128)
        ensures
            v == s029_count_type1(),
            0 <= v <= 1_000,
    {
        proof {
            lemma_type_labels_differ();
        }
        let ghost f = |i: nat| if s019_type(i + 1) == "Type1"@ { 1int } else { 0int };
        let mut count: i128 = 0;
        let mut row: u32 = 1;
        while row <= S029_DATA_ROWS
            invariant
                1 <= row <= 1_001,
                f == (|i: nat| if s019_type(i + 1) == "Type1"@ { 1int } else { 0int }),
                count == sum_to(f, (row - 1) as nat),
                0 <= count <= row - 1,
            decreases 1_001 - row,
        {
            proof {
                lemma_type_labels_differ();
            }
            if row % 3 == 1 {
                count = count + 1;
            }
            row = row + 1;
        }
        count
    }

    /// Value of calc row 1 after `completed_cycles` cycles.
    pub fn calc_value_for_row1(completed_cycles: usize) -> (v: i128)
        requires
            completed_cycles < 0x1_0000_0000,
        ensures
            v == s029_calc1(completed_cycles as nat),
    {
        Self::data_value(1, completed_cycles) + Self::data_value(7, completed_cycles)
            + Self::sum_type0(completed_cycles) + Self::count_type1() + 200 + 5
    }

    /// No errors on the calc tab; once evaluated calc row 1 shows its value.
    pub fn invariants(&self, phase: ScenarioPhase) -> (v: Vec<ScenarioInvariant>)
        requires
            phase_ok(phase),
            spec_completed_cycles(phase) < 0x1_0000_0000,
        ensures
            invariants_match(v@, s029_invariants(phase)),
    {
        let mut v: Vec<ScenarioInvariant> = Vec::new();
        push_no_error(&mut v, "Calc");
        if has_evaluated_formulas(phase) {
            push_cell_equals(&mut v, "Calc", 1, 1, Self::calc_value_for_row1(completed_cycles(phase)));
        }
        assert(invariants_match(v@, s029_invariants(phase)));
        v
    }
}

/// Data rows of S030.
pub const S030_DATA_ROWS: u32 = 2_000;
/// Calc rows of S030.
pub const S030_CALC_ROWS: u32 = 200;

/// A data tab, a formula family over it, and 200 calc cells mixing a
/// lookup, a conditional sum and a branch.
pub struct S030CalcAndDataTabsMixed {
    scale: ScaleState,
}

/// Data column A of `row` (zero past the data rows).
pub open spec fn s030_a(row: nat) -> int {
    if row <= 2_000 { row as int } else { 0 }
}

/// Data column B of `row` after `c` cycles (`2 row` until edited; zero past
/// the data rows).
pub open spec fn s030_b(row: nat, c: nat) -> int {
    if row > 2_000 { 0 } else { edited_value(2 * row as int, row, 2_000, 10_000, c) }
}

pub open spec fn s030_family(row: nat, c: nat) -> int {
    s030_a(row) * 2 + s030_b(row, c)
}

pub open spec fn s030_sum_type0(c: nat) -> int {
    sum_to(|i: nat| if s019_type(i + 1) == "Type0"@ { s030_b(i + 1, c) } else { 0 }, 2_000)
}

pub open spec fn s030_calc1(c: nat) -> int {
    s030_b(1, c) + s030_sum_type0(c)
}

pub open spec fn s030_invariants(rows: nat, phase: ScenarioPhase) -> Seq<InvariantView> {
    let c = spec_completed_cycles(phase);
    seq![
        InvariantView::NoErrorCells("Data"@),
        InvariantView::NoErrorCells("Family"@),
        InvariantView::NoErrorCells("Calc"@),
    ] + if spec_has_evaluated(phase) {
        Seq::new(rows, |i: int| InvariantView::CellEquals("Family"@, (i + 1) as nat, 1, s030_family((i + 1) as nat, c)))
            .push(InvariantView::CellEquals("Calc"@, 1, 1, s030_calc1(c)))
    } else {
        Seq::empty()
    }
}

/// Formula of calc row `r`.
pub open spec fn s030_formula(r: nat) -> Seq<char> {
    "=VLOOKUP("@ + dec(r) + ", Data!$A$1:$B$2000, 2, FALSE) + IFERROR(SUMIFS(Data!$B$1:$B$2000, Data!$C$1:$C$2000, \"Type0\"), 0) + IF("@
        + dec(r) + " > 100, 1000, 0)"@
}

impl S030CalcAndDataTabsMixed {
    pub closed spec fn spec_scale(&self) -> Option<ScenarioScale> {
        self.scale.spec_scale()
    }

    pub fn new() -> (s: Self)
        ensures
            s.spec_scale() is None,
    {
        S030CalcAndDataTabsMixed { scale: ScaleState::new() }
    }

    pub fn rows(scale: ScenarioScale) -> (r: u32)
        ensures
            r == standard_rows(scale),
    {
        standard_row_count(scale)
    }

    pub fn id(&self) -> (s: &'static str)
        ensures
            s@ == "s030-calc-and-data-tabs-mixed"@,
    {
        "s030-calc-and-data-tabs-mixed"
    }

    /// Records the scale and plans the data tab, the family and the calc tab.
    pub fn build_fixture(&mut self, ctx: &ScenarioBuildCtx) -> (f: ScenarioFixture)
        ensures
            final(self).spec_scale() == Some(ctx.scale),
            f.path@ == spec_fixture_path(ctx.fixture_dir@, ctx.label@, "s030-calc-and-data-tabs-mixed"@, ctx.scale),
            f.metadata == (FixtureMetadata {
                rows: if standard_rows(ctx.scale) >= 2_000 { standard_rows(ctx.scale) } else { 2_000 },
                cols: 3, sheets: 3, formula_cells: (standard_rows(ctx.scale) + 200) as u32, value_cells: 6_000, has_named_ranges: false, has_tables: false,
            }),
    {
        self.scale.set(ctx.scale);
        let rows = Self::rows(ctx.scale);
        let path = fixture_path(ctx, self.id());
        ScenarioFixture {
            path,
            metadata: FixtureMetadata {
                rows: if rows >= S030_DATA_ROWS { rows } else { S030_DATA_ROWS },
                cols: 3, sheets: 3, formula_cells: rows + S030_CALC_ROWS, value_cells: S030_DATA_ROWS * 3, has_named_ranges: false, has_tables: false,
            },
        }
    }

    /// Formula of calc row `r`.
    pub fn calc_formula(r: u32) -> (s: String)
        ensures
            s@ == s030_formula(r as nat),
    {
        let d = dec_chars(r as u64);
        let mut v = chars_of("=VLOOKUP(");
        push_chars(&mut v, &d);
        push_str(&mut v, ", Data!$A$1:$B$2000, 2, FALSE) + IFERROR(SUMIFS(Data!$B$1:$B$2000, Data!$C$1:$C$2000, \"Type0\"), 0) + IF(");
        push_chars(&mut v, &d);
        push_str(&mut v, " > 100, 1000, 0)");
        string_of(&v)
    }

    pub fn edit_plan(&self) -> (p: EditPlan)
        ensures
            p.cycles == 5,
    {
        EditPlan { cycles: 5 }
    }

    /// Cycle `cycle` writes `10000 + cycle` into data column B at row
    /// `37 cycle mod 2000 + 1`.
    pub fn edit_writes(cycle: usize) -> (r: (Vec<CellWrite>, &'static str))
        ensures
            writes_match(r.0@, seq![CellWriteView { sheet: "Data"@, row: row_37(cycle as nat, 2_000), col: 2, value: 10_000 + cycle as int }]),
            r.1@ == "data_b_value"@,
    {
        let mut v: Vec<CellWrite> = Vec::new();
        let row = (((cycle as u128) * 37) % 2_000) as u32 + 1;
        push_write(&mut v, "Data", row, 2, 10_000 + cycle as i128);
        (v, "data_b_value")
    }

    /// Data column A of `row`.
    pub fn data_a(row: u32) -> (v: i128)
        ensures
            v == s030_a(row as nat),
    {
        if row <= S030_DATA_ROWS { row as i128 } else { 0 }
    }

    /// Data column B of `row` after `completed_cycles` cycles.
    pub fn data_b(row: u32, completed_cycles: usize) -> (v: i128)
        requires
            completed_cycles < 0x1_0000_0000,
        ensures
            v == s030_b(row as nat, completed_cycles as nat),
            0 <= v <= 0x1_0000_0000_0000,
    {
        if row > S030_DATA_ROWS {
            return 0;
        }
        replay(2 * row as i128, row, S030_DATA_ROWS, completed_cycles)
    }

    /// Family value of `row`: twice column A plus column B.
    pub fn family_value(row: u32, completed_cycles: usize) -> (v: i128)
        requires
            completed_cycles < 0x1_0000_0000,
        ensures
            v == s030_family(row as nat, completed_cycles as nat),
    {
        Self::data_a(row) * 2 + Self::data_b(row, completed_cycles)
    }

    /// Sum of column B over `Type0` rows.
    pub fn sum_type0(completed_cycles: usize) -> (v: i128)
        requires
            completed_cycles < 0x1_0000_0000,
        ensures
            v == s030_sum_type0(completed_cycles as nat),
            0 <= v <= 2_000 * 0x1_0000_0000_0000,
    {
        proof {
            lemma_type_labels_differ();
        }
        let ghost f = |i: nat| if s019_type(i + 1) == "Type0"@ { s030_b(i + 1, completed_cycles as nat) } else { 0 };
        let mut total: i128 = 0;
        let mut row: u32 = 1;
        while row <= S030_DATA_ROWS
            invariant
                1 <= row <= 2_001,
                completed_cycles < 0x1_0000_0000,
                f == (|i: nat| if s019_type(i + 1) == "Type0"@ { s030_b(i + 1, completed_cycles as nat) } else { 0 }),
                total == sum_to(f, (row - 1) as nat),
                0 <= total <= (row - 1) * 0x1_0000_0000_0000,
            decreases 2_001 - row,
        {
            proof {
                lemma_type_labels_differ();
            }
            if row % 3 == 0 {
                total = total + Self::data_b(row, completed_cycles);
            }
            row = row + 1;
        }
        total
    }

    /// Value of calc row 1 after `completed_cycles` cycles.
    pub fn calc_value_for_row1(completed_cycles: usize) -> (v: i128)
        requires
            completed_cycles < 0x1_0000_0000,
        ensures
            v == s030_calc1(completed_cycles as nat),
    {
        Self::data_b(1, completed_cycles) + Self::sum_type0(completed_cycles)
    }

    /// No errors on any tab; once evaluated every family row and calc row 1
    /// show their values.
    pub fn invariants(&self, phase: ScenarioPhase, global: Option<ScenarioScale>) -> (v: Vec<ScenarioInvariant>)
        requires
            phase_ok(phase),
            spec_completed_cycles(phase) < 0x1_0000_0000,
        ensures
            invariants_match(v@, s030_invariants(standard_rows(resolved_scale(self.spec_scale(), global)) as nat, phase)),
    {
        let rows = Self::rows(self.scale.get_or_small(global));
        let ghost spec = s030_invariants(rows as nat, phase);
        let mut v: Vec<ScenarioInvariant> = Vec::new();
        push_no_error(&mut v, "Data");
        push_no_error(&mut v, "Family");
        push_no_error(&mut v, "Calc");
        assert(invariants_match(v@, spec.subrange(0, 3)));
        if has_evaluated_formulas(phase) {
            let cycles = completed_cycles(phase);
            let mut row: u32 = 1;
            while row <= rows
                invariant
                    1 <= row <= rows + 1,
                    0 < rows <= 50_000,
                    spec_has_evaluated(phase),
                    cycles as nat == spec_completed_cycles(phase),
                    cycles < 0x1_0000_0000,
                    spec == s030_invariants(rows as nat, phase),
                    invariants_match(v@, spec.subrange(0, row + 2)),
                decreases rows + 1 - row,
            {
                let value = Self::family_value(row, cycles);
                push_cell_equals(&mut v, "Family", row, 1, value);
                assert(spec[row + 2] == InvariantView::CellEquals("Family"@, row as nat, 1, value as int));
                row = row + 1;
            }
            let calc = Self::calc_value_for_row1(cycles);
            push_cell_equals(&mut v, "Calc", 1, 1, calc);
            assert(spec[rows + 3] == InvariantView::CellEquals("Calc"@, 1, 1, calc as int));
            assert(spec.subrange(0, rows + 4) =~= spec);
        } else {
            assert(spec.subrange(0, 3) =~= spec);
        }
        v
    }
}

/* -------------------------------- tags -------------------------------- */

impl S029CalcTab200ComplexCells {
    pub fn tags(&self) -> (v: Vec<ScenarioTag>)
        ensures
            v@ == seq![ScenarioTag::Mixed, ScenarioTag::MultiSheet, ScenarioTag::CrossSheet, ScenarioTag::SingleCellEdit],
    {
        let v = vec![ScenarioTag::Mixed, ScenarioTag::MultiSheet, ScenarioTag::CrossSheet, ScenarioTag::SingleCellEdit];
        assert(v@ =~= seq![ScenarioTag::Mixed, ScenarioTag::MultiSheet, ScenarioTag::CrossSheet, ScenarioTag::SingleCellEdit]);
        v
    }
}

impl S030CalcAndDataTabsMixed {
    pub fn tags(&self) -> (v: Vec<ScenarioTag>)
        ensures
            v@ == seq![ScenarioTag::Mixed, ScenarioTag::MultiSheet, ScenarioTag::CrossSheet, ScenarioTag::SpanPromotable, ScenarioTag::SingleCellEdit],
    {
        let v = vec![ScenarioTag::Mixed, ScenarioTag::MultiSheet, ScenarioTag::CrossSheet, ScenarioTag::SpanPromotable, ScenarioTag::SingleCellEdit];
        assert(v@ =~= seq![ScenarioTag::Mixed, ScenarioTag::MultiSheet, ScenarioTag::CrossSheet, ScenarioTag::SpanPromotable, ScenarioTag::SingleCellEdit]);
        v
    }
}

} // verus!
