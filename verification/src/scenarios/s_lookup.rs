//! Scenarios over lookup and data tabs: an INDEX/MATCH family against a
//! shared lookup table, and a five-tab cross-sheet chain.

use vstd::prelude::*;
use crate::text::{dec, dec_chars};
use crate::scenarios::common::{ScenarioTag, 
    ScaleState, ScenarioBuildCtx, ScenarioFixture, FixtureMetadata, ScenarioPhase, ScenarioScale,
    ScenarioInvariant, InvariantView, CellWrite, CellWriteView, EditPlan, fixture_path,
    spec_fixture_path, push_no_error, push_cell_equals, push_write, invariants_match, writes_match,
    sheet1_no_error, standard_rows, standard_row_count, resolved_scale, spec_has_evaluated,
    has_evaluated_formulas, spec_completed_cycles, completed_cycles, phase_ok, last_write,
    lemma_last_write_bounds, cycles_fit,
};
use crate::scenarios::s_simple::{row_37, row_37_of};

verus! {

/// Rows of the shared lookup table.
pub const LOOKUP_ROWS: u32 = 1_000;

/// INDEX/MATCH family over a 1000-row lookup table keyed 1..=1000.
pub struct S015IndexMatchChain {
    scale: ScaleState,
}

/// Key of `row` before any edit: rows cycle through the table's keys.
pub open spec fn s015_initial_key(row: nat) -> int {
    (((row - 1) as nat) % 1000 + 1) as int
}

/// Key written by cycle `k`.
pub open spec fn s015_edited_key(k: nat) -> int {
    ((k * 113 + 1) % 1000 + 1) as int
}

/// Key of `row` after `c` cycles.
pub open spec fn s015_key(row: nat, rows: nat, c: nat) -> int {
    last_write(s015_initial_key(row), row, c, |k: nat| row_37(k, rows), |k: nat| s015_edited_key(k))
}

/// Value the lookup table holds for a key.
pub open spec fn s015_lookup_value(key: int) -> int {
    key * 10 + 5
}

pub open spec fn s015_invariants(rows: nat, phase: ScenarioPhase) -> Seq<InvariantView> {
    let c = spec_completed_cycles(phase);
    sheet1_no_error() + if spec_has_evaluated(phase) {
        Seq::new(rows, |i: int| InvariantView::CellEquals("Sheet1"@, (i + 1) as nat, 2, s015_lookup_value(s015_key((i + 1) as nat, rows, c))))
    } else {
        Seq::empty()
    }
}

impl S015IndexMatchChain {
    pub closed spec fn spec_scale(&self) -> Option<ScenarioScale> {
        self.scale.spec_scale()
    }

    pub fn new() -> (s: Self)
        ensures
            s.spec_scale() is None,
    {
        S015IndexMatchChain { scale: ScaleState::new() }
    }

    pub fn rows(scale: ScenarioScale) -> (r: u32)
        ensures
            r == standard_rows(scale),
    {
        standard_row_count(scale)
    }

    pub fn id(&self) -> (s: &'static str)
        ensures
            s@ == "s015-index-match-chain"@,
    {
        "s015-index-match-chain"
    }

    /// Records the scale and plans the lookup tab and the INDEX/MATCH column.
    pub fn build_fixture(&mut self, ctx: &ScenarioBuildCtx) -> (f: ScenarioFixture)
        ensures
            final(self).spec_scale() == Some(ctx.scale),
            f.path@ == spec_fixture_path(ctx.fixture_dir@, ctx.label@, "s015-index-match-chain"@, ctx.scale),
            f.metadata == (FixtureMetadata { rows: standard_rows(ctx.scale), cols: 2, sheets: 2, formula_cells: standard_rows(ctx.scale), value_cells: (standard_rows(ctx.scale) + 2 * LOOKUP_ROWS) as u32, has_named_ranges: false, has_tables: false }),
    {
        self.scale.set(ctx.scale);
        let rows = Self::rows(ctx.scale);
        let path = fixture_path(ctx, self.id());
        ScenarioFixture {
            path,
            metadata: FixtureMetadata { rows, cols: 2, sheets: 2, formula_cells: rows, value_cells: rows + LOOKUP_ROWS * 2, has_named_ranges: false, has_tables: false },
        }
    }

    pub fn edit_plan(&self) -> (p: EditPlan)
        ensures
            p.cycles == 5,
    {
        EditPlan { cycles: 5 }
    }

    /// Key of `row` before any edit.
    pub fn initial_key(row: u32) -> (k: i128)
        requires
            row >= 1,
        ensures
            k == s015_initial_key(row as nat),
            1 <= k <= 1000,
    {
        (((row - 1) % LOOKUP_ROWS) + 1) as i128
    }

    /// Key written by cycle `cycle`.
    pub fn edited_key(cycle: usize) -> (k: i128)
        requires
            cycle * 113 + 1 <= u32::MAX,
        ensures
            k == s015_edited_key(cycle as nat),
            1 <= k <= 1000,
    {
        (((cycle as u32) * 113 + 1) % LOOKUP_ROWS + 1) as i128
    }

    /// Cycle `cycle` writes a new key into A at row `37 cycle mod rows + 1`,
    /// `rows` being the detected length of column A.
    pub fn edit_writes(cycle: usize, rows: usize) -> (r: (Vec<CellWrite>, &'static str))
        requires
            cycle * 113 + 1 <= u32::MAX,
            0 < rows <= u32::MAX,
        ensures
            writes_match(r.0@, seq![CellWriteView { sheet: "Sheet1"@, row: row_37(cycle as nat, rows as nat), col: 1, value: s015_edited_key(cycle as nat) }]),
            r.1@ == "lookup_key"@,
    {
        let mut v: Vec<CellWrite> = Vec::new();
        push_write(&mut v, "Sheet1", row_37_of(cycle, rows), 1, Self::edited_key(cycle));
        (v, "lookup_key")
    }

    /// Key of `row` after `completed_cycles` cycles.
    pub fn key_at(row: u32, rows: u32, completed_cycles: usize) -> (k: i128)
        requires
            row >= 1,
            rows > 0,
            completed_cycles * 113 + 1 <= u32::MAX,
        ensures
            k == s015_key(row as nat, rows as nat, completed_cycles as nat),
            1 <= k <= 1000,
    {
        let mut key = Self::initial_key(row);
        let mut cycle: usize = 0;
        while cycle < completed_cycles
            invariant
                0 <= cycle <= completed_cycles,
                rows > 0,
                row >= 1,
                completed_cycles * 113 + 1 <= u32::MAX,
                key == s015_key(row as nat, rows as nat, cycle as nat),
            decreases completed_cycles - cycle,
        {
            if row == row_37_of(cycle, rows as usize) {
                key = Self::edited_key(cycle);
            }
            cycle = cycle + 1;
        }
        proof {
            assert forall|k: nat| 1 <= #[trigger] s015_edited_key(k) <= 1000 by {}
            lemma_last_write_bounds(s015_initial_key(row as nat), row as nat, completed_cycles as nat, |k: nat| row_37(k, rows as nat), |k: nat| s015_edited_key(k), 1, 1000);
        }
        key
    }

    /// Value the lookup table holds for a key.
    pub fn lookup_value(key: i128) -> (v: i128)
        requires
            -1000_000 <= key <= 1000_000,
        ensures
            v == s015_lookup_value(key as int),
    {
        key * 10 + 5
    }

    /// No errors; once evaluated each row shows the table value of its
    /// current key (keys always stay within the table).
    pub fn invariants(&self, phase: ScenarioPhase, global: Option<ScenarioScale>) -> (v: Vec<ScenarioInvariant>)
        requires
            phase_ok(phase),
            spec_completed_cycles(phase) * 113 + 1 <= u32::MAX,
        ensures
            invariants_match(v@, s015_invariants(standard_rows(resolved_scale(self.spec_scale(), global)) as nat, phase)),
    {
        let rows = Self::rows(self.scale.get_or_small(global));
        let ghost spec = s015_invariants(rows as nat, phase);
        let mut v: Vec<ScenarioInvariant> = Vec::new();
        push_no_error(&mut v, "Sheet1");
        assert(spec.subrange(0, 1) =~= sheet1_no_error());
        if has_evaluated_formulas(phase) {
            let cycles = completed_cycles(phase);
            let mut row: u32 = 1;
            while row <= rows
                invariant
                    1 <= row <= rows + 1,
                    0 < rows <= 50_000,
                    spec_has_evaluated(phase),
                    cycles as nat == spec_completed_cycles(phase),
                    cycles * 113 + 1 <= u32::MAX,
                    spec == s015_invariants(rows as nat, phase),
                    invariants_match(v@, spec.subrange(0, row as int)),
                decreases rows + 1 - row,
            {
                let key = Self::key_at(row, rows, cycles);
                if 1 <= key && key <= LOOKUP_ROWS as i128 {
                    push_cell_equals(&mut v, "Sheet1", row, 2, Self::lookup_value(key));
                }
                assert(spec[row as int] == InvariantView::CellEquals("Sheet1"@, row as nat, 2, s015_lookup_value(key as int)));
                row = row + 1;
            }
            assert(spec.subrange(0, row as int) =~= spec);
        } else {
            assert(spec.subrange(0, 1) =~= spec);
        }
        v
    }
}

/// Rows of each data tab.
pub const S016_DATA_ROWS: u32 = 10_000;

/// Five tabs: numbers and texts, two calc tabs over them, and Sheet1 adding
/// the calc tabs up.
pub struct S016MultiSheet5Tabs {
    scale: ScaleState,
}

/// Data1 value of `row` after `c` cycles; zero past the data rows.
pub open spec fn s016_data1(row: nat, c: nat) -> int {
    if row > 10_000 {
        0
    } else {
        last_write(row as int, row, c, |k: nat| row_37(k, 10_000), |k: nat| 1000 + k as int)
    }
}

/// Length of the Data2 text `text-<row>`; zero past the data rows.
pub open spec fn s016_data2_len(row: nat) -> int {
    if row > 10_000 { 0 } else { 5 + dec(row).len() as int }
}

/// Sheet1 value of `row`: twice the Data1 value plus the Data2 text length.
pub open spec fn s016_sheet1(row: nat, c: nat) -> int {
    s016_data1(row, c) * 2 + s016_data2_len(row)
}

pub open spec fn s016_tabs() -> Seq<InvariantView> {
    seq![
        InvariantView::NoErrorCells("Data1"@),
        InvariantView::NoErrorCells("Data2"@),
        InvariantView::NoErrorCells("Calc1"@),
        InvariantView::NoErrorCells("Calc2"@),
        InvariantView::NoErrorCells("Sheet1"@),
    ]
}

pub open spec fn s016_invariants(rows: nat, phase: ScenarioPhase) -> Seq<InvariantView> {
    let c = spec_completed_cycles(phase);
    s016_tabs() + if spec_has_evaluated(phase) {
        Seq::new(rows, |i: int| InvariantView::CellEquals("Sheet1"@, (i + 1) as nat, 1, s016_sheet1((i + 1) as nat, c)))
    } else {
        Seq::empty()
    }
}

proof fn lemma_dec_len_bound(n: nat)
    requires
        n <= 10_000,
    ensures
        1 <= dec(n).len() <= 5,
{
    reveal_with_fuel(dec, 6);
}

impl S016MultiSheet5Tabs {
    pub closed spec fn spec_scale(&self) -> Option<ScenarioScale> {
        self.scale.spec_scale()
    }

    pub fn new() -> (s: Self)
        ensures
            s.spec_scale() is None,
    {
        S016MultiSheet5Tabs { scale: ScaleState::new() }
    }

    pub fn rows(scale: ScenarioScale) -> (r: u32)
        ensures
            r == standard_rows(scale),
    {
        standard_row_count(scale)
    }

    pub fn id(&self) -> (s: &'static str)
        ensures
            s@ == "s016-multi-sheet-5-tabs"@,
    {
        "s016-multi-sheet-5-tabs"
    }

    /// Records the scale and plans the two data tabs, two calc tabs and the
    /// Sheet1 column.
    pub fn build_fixture(&mut self, ctx: &ScenarioBuildCtx) -> (f: ScenarioFixture)
        ensures
            final(self).spec_scale() == Some(ctx.scale),
            f.path@ == spec_fixture_path(ctx.fixture_dir@, ctx.label@, "s016-multi-sheet-5-tabs"@, ctx.scale),
            f.metadata == (FixtureMetadata { rows: standard_rows(ctx.scale), cols: 1, sheets: 5, formula_cells: (standard_rows(ctx.scale) * 3) as u32, value_cells: 20_000, has_named_ranges: false, has_tables: false }),
    {
        self.scale.set(ctx.scale);
        let rows = Self::rows(ctx.scale);
        let path = fixture_path(ctx, self.id());
        ScenarioFixture {
            path,
            metadata: FixtureMetadata { rows, cols: 1, sheets: 5, formula_cells: rows * 3, value_cells: S016_DATA_ROWS * 2, has_named_ranges: false, has_tables: false },
        }
    }

    pub fn edit_plan(&self) -> (p: EditPlan)
        ensures
            p.cycles == 5,
    {
        EditPlan { cycles: 5 }
    }

    /// Cycle `cycle` writes `1000 + cycle` into Data1 at row
    /// `37 cycle mod 10000 + 1`.
    pub fn edit_writes(cycle: usize) -> (r: (Vec<CellWrite>, &'static str))
        requires
            cycle * 37 <= usize::MAX,
        ensures
            writes_match(r.0@, seq![CellWriteView { sheet: "Data1"@, row: row_37(cycle as nat, 10_000), col: 1, value: 1000 + cycle as int }]),
            r.1@ == "data1_value"@,
    {
        let mut v: Vec<CellWrite> = Vec::new();
        push_write(&mut v, "Data1", row_37_of(cycle, 10_000), 1, 1000 + cycle as i128);
        (v, "data1_value")
    }

    /// Data1 value of `row` after `completed_cycles` cycles.
    pub fn data1_value(row: u32, completed_cycles: usize) -> (v: i128)
        requires
            cycles_fit(completed_cycles as nat, 37),
        ensures
            v == s016_data1(row as nat, completed_cycles as nat),
            0 <= v <= 0x1_0000_0000_0000_0000_0000,
    {
        if row > S016_DATA_ROWS {
            return 0;
        }
        let mut value: i128 = row as i128;
        let mut cycle: usize = 0;
        while cycle < completed_cycles
            invariant
                0 <= cycle <= completed_cycles,
                row <= 10_000,
                cycles_fit(completed_cycles as nat, 37),
                value == last_write(row as int, row as nat, cycle as nat, |k: nat| row_37(k, 10_000), |k: nat| 1000 + k as int),
            decreases completed_cycles - cycle,
        {
            assert((cycle as nat * 37) <= usize::MAX);
            if row == row_37_of(cycle, 10_000) {
                value = 1000 + cycle as i128;
            }
            cycle = cycle + 1;
        }
        proof {
            lemma_last_write_bounds(row as int, row as nat, completed_cycles as nat, |k: nat| row_37(k, 10_000), |k: nat| 1000 + k as int, 0, 0x1_0000_0000_0000_0000_0000);
        }
        value
    }

    /// Length of the Data2 text of `row`.
    pub fn data2_len(row: u32) -> (v: i128)
        ensures
            v == s016_data2_len(row as nat),
            0 <= v <= 10,
    {
        if row > S016_DATA_ROWS {
            0
        } else {
            proof {
                lemma_dec_len_bound(row as nat);
            }
            5 + dec_chars(row as u64).len() as i128
        }
    }

    /// Sheet1 value of `row` after `completed_cycles` cycles.
    pub fn sheet1_value(row: u32, completed_cycles: usize) -> (v: i128)
        requires
            cycles_fit(completed_cycles as nat, 37),
        ensures
            v == s016_sheet1(row as nat, completed_cycles as nat),
    {
        Self::data1_value(row, completed_cycles) * 2 + Self::data2_len(row)
    }

    /// No errors on any tab; once evaluated each Sheet1 row shows twice its
    /// Data1 value plus its Data2 text length.
    pub fn invariants(&self, phase: ScenarioPhase, global: Option<ScenarioScale>) -> (v: Vec<ScenarioInvariant>)
        requires
            phase_ok(phase),
            cycles_fit(spec_completed_cycles(phase), 37),
        ensures
            invariants_match(v@, s016_invariants(standard_rows(resolved_scale(self.spec_scale(), global)) as nat, phase)),
    {
        let rows = Self::rows(self.scale.get_or_small(global));
        let ghost spec = s016_invariants(rows as nat, phase);
        let mut v: Vec<ScenarioInvariant> = Vec::new();
        push_no_error(&mut v, "Data1");
        push_no_error(&mut v, "Data2");
        push_no_error(&mut v, "Calc1");
        push_no_error(&mut v, "Calc2");
        push_no_error(&mut v, "Sheet1");
        assert(spec.subrange(0, 5) =~= s016_tabs());
        if has_evaluated_formulas(phase) {
            let cycles = completed_cycles(phase);
            let mut row: u32 = 1;
            while row <= rows
                invariant
                    1 <= row <= rows + 1,
                    0 < rows <= 50_000,
                    spec_has_evaluated(phase),
                    cycles as nat == spec_completed_cycles(phase),
                    cycles_fit(cycles as nat, 37),
                    spec == s016_invariants(rows as nat, phase),
                    invariants_match(v@, spec.subrange(0, row + 4)),
                decreases rows + 1 - row,
            {
                let value = Self::sheet1_value(row, cycles);
                push_cell_equals(&mut v, "Sheet1", row, 1, value);
                assert(spec[row + 4] == InvariantView::CellEquals("Sheet1"@, row as nat, 1, value as int));
                row = row + 1;
            }
            assert(spec.subrange(0, row + 4) =~= spec);
        } else {
            assert(spec.subrange(0, 5) =~= spec);
        }
        v
    }
}

/* -------------------------------- tags -------------------------------- */

impl S015IndexMatchChain {
    pub fn tags(&self) -> (v: Vec<ScenarioTag>)
        ensures
            v@ == seq![ScenarioTag::LookupHeavy, ScenarioTag::SingleCellEdit],
    {
        let v = vec![ScenarioTag::LookupHeavy, ScenarioTag::SingleCellEdit];
        assert(v@ =~= seq![ScenarioTag::LookupHeavy, ScenarioTag::SingleCellEdit]);
        v
    }
}

impl S016MultiSheet5Tabs {
    pub fn tags(&self) -> (v: Vec<ScenarioTag>)
        ensures
            v@ == seq![ScenarioTag::MultiSheet, ScenarioTag::CrossSheet, ScenarioTag::SpanPromotable, ScenarioTag::SingleCellEdit],
    {
        let v = vec![ScenarioTag::MultiSheet, ScenarioTag::CrossSheet, ScenarioTag::SpanPromotable, ScenarioTag::SingleCellEdit];
        assert(v@ =~= seq![ScenarioTag::MultiSheet, ScenarioTag::CrossSheet, ScenarioTag::SpanPromotable, ScenarioTag::SingleCellEdit]);
        v
    }
}

} // verus!
