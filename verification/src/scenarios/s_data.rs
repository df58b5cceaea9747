//! Scenarios over data tabs: conditional sums, lookups, cross-sheet chains.

use vstd::prelude::*;
use crate::text::str_eq;
use crate::text::{dec, dec_chars};
use crate::scenarios::common::{ScenarioTag, 
    ScaleState, ScenarioBuildCtx, ScenarioFixture, FixtureMetadata, ScenarioPhase, ScenarioScale,
    ScenarioInvariant, InvariantView, CellWrite, CellWriteView, EditPlan, fixture_path,
    spec_fixture_path, push_no_error, push_cell_equals, push_write, invariants_match, writes_match,
    sheet1_no_error, standard_rows, standard_row_count, resolved_scale, spec_has_evaluated,
    has_evaluated_formulas, spec_completed_cycles, completed_cycles, phase_ok, last_write,
    lemma_last_write_bounds, cycles_fit, sum_to, lemma_sum_to_point_update, lemma_sum_to_bounds,
    trunc_u32,
};
use crate::scenarios::s_simple::{row_37, row_37_of};

verus! {

/// A SUMIFS family whose every row uses the same literal criterion.
pub struct S013SumifsFamilyConstantCriteria {
    scale: ScaleState,
}

/// Type label of data row `row`.
pub open spec fn s013_type(row: nat) -> Seq<char> {
    if row % 3 == 0 {
        "Type1"@
    } else if row % 3 == 1 {
        "Type2"@
    } else {
        "Type3"@
    }
}

/// Data row edited by cycle `k`.
pub open spec fn row_67(k: nat) -> nat {
    ((k * 67) % 10_000 + 1) as nat
}

/// Amount of data row `row` after `c` cycles.
pub open spec fn s013_value(row: nat, c: nat) -> int {
    last_write(row as int, row, c, |k: nat| row_67(k), |k: nat| 20_000 + k as int)
}

/// Term `i` of the conditional sum: the amount of row `i + 1` if its type
/// matches.
pub open spec fn s013_term(crit: Seq<char>, c: nat) -> spec_fn(nat) -> int {
    |i: nat| if s013_type(i + 1) == crit { s013_value(i + 1, c) } else { 0 }
}

/// Sum of the current amounts of all 10000 data rows whose type is `crit`.
pub open spec fn s013_sum(crit: Seq<char>, c: nat) -> int {
    sum_to(s013_term(crit, c), 10_000)
}

pub open spec fn s013_invariants(rows: nat, phase: ScenarioPhase) -> Seq<InvariantView> {
    let total = s013_sum("Type1"@, spec_completed_cycles(phase));
    sheet1_no_error() + if spec_has_evaluated(phase) {
        Seq::new(rows, |i: int| InvariantView::CellEquals("Sheet1"@, (i + 1) as nat, 1, total))
    } else {
        Seq::empty()
    }
}

/// Data row `67 cycle mod 10000 + 1`.
pub fn row_67_of(cycle: usize) -> (r: u32)
    requires
        cycle * 67 <= usize::MAX,
    ensures
        r as nat == row_67(cycle as nat),
        1 <= r <= 10_000,
{
    ((cycle * 67) % 10_000) as u32 + 1
}

impl S013SumifsFamilyConstantCriteria {
    pub closed spec fn spec_scale(&self) -> Option<ScenarioScale> {
        self.scale.spec_scale()
    }

    pub fn new() -> (s: Self)
        ensures
            s.spec_scale() is None,
    {
        S013SumifsFamilyConstantCriteria { scale: ScaleState::new() }
    }

    pub fn rows(scale: ScenarioScale) -> (r: u32)
        ensures
            r == standard_rows(scale),
    {
        standard_row_count(scale)
    }

    pub fn id(&self) -> (s: &'static str)
        ensures
            s@ == "s013-sumifs-family-constant-criteria"@,
    {
        "s013-sumifs-family-constant-criteria"
    }

    /// Records the scale and plans the data tab and the SUMIFS column.
    pub fn build_fixture(&mut self, ctx: &ScenarioBuildCtx) -> (f: ScenarioFixture)
        ensures
            final(self).spec_scale() == Some(ctx.scale),
            f.path@ == spec_fixture_path(ctx.fixture_dir@, ctx.label@, "s013-sumifs-family-constant-criteria"@, ctx.scale),
            f.metadata == (FixtureMetadata { rows: standard_rows(ctx.scale), cols: 2, sheets: 2, formula_cells: standard_rows(ctx.scale), value_cells: 20_000, has_named_ranges: false, has_tables: false }),
    {
        self.scale.set(ctx.scale);
        let rows = Self::rows(ctx.scale);
        let path = fixture_path(ctx, self.id());
        ScenarioFixture {
            path,
            metadata: FixtureMetadata { rows, cols: 2, sheets: 2, formula_cells: rows, value_cells: 20_000, has_named_ranges: false, has_tables: false },
        }
    }

    pub fn edit_plan(&self) -> (p: EditPlan)
        ensures
            p.cycles == 5,
    {
        EditPlan { cycles: 5 }
    }

    /// Cycle `cycle` writes `20000 + cycle` into the amount of data row
    /// `67 cycle mod 10000 + 1`.
    pub fn edit_writes(cycle: usize) -> (r: (Vec<CellWrite>, &'static str))
        requires
            cycle * 67 <= usize::MAX,
        ensures
            writes_match(r.0@, seq![CellWriteView { sheet: "Data"@, row: row_67(cycle as nat), col: 2, value: 20_000 + cycle as int }]),
            r.1@ == "data_value"@,
    {
        let mut v: Vec<CellWrite> = Vec::new();
        push_write(&mut v, "Data", row_67_of(cycle), 2, 20_000 + cycle as i128);
        (v, "data_value")
    }

    /// Type label of a data row.
    pub fn data_type(row: u32) -> (s: &'static str)
        ensures
            s@ == s013_type(row as nat),
    {
        if row % 3 == 0 {
            "Type1"
        } else if row % 3 == 1 {
            "Type2"
        } else {
            "Type3"
        }
    }

    /// Amount of data row `row` before cycle `cycle` is applied.
    pub fn previous_data_value(row: u32, cycle: usize) -> (v: i128)
        requires
            cycles_fit(cycle as nat, 67),
        ensures
            v as int == s013_value(row as nat, cycle as nat),
            0 <= v <= 0x4_0000_0000_0000_0000,
    {
        let mut value: i128 = row as i128;
        let mut prev_cycle: usize = 0;
        while prev_cycle < cycle
            invariant
                0 <= prev_cycle <= cycle,
                cycles_fit(cycle as nat, 67),
                value as int == s013_value(row as nat, prev_cycle as nat),
            decreases cycle - prev_cycle,
        {
            assert((prev_cycle as nat * 67) <= usize::MAX);
            if row == row_67_of(prev_cycle) {
                value = 20_000 + prev_cycle as i128;
            }
            prev_cycle = prev_cycle + 1;
        }
        proof {
            lemma_last_write_bounds(row as int, row as nat, cycle as nat, |k: nat| row_67(k), |k: nat| 20_000 + k as int, 0, 0x4_0000_0000_0000_0000);
        }
        value
    }

    /// Sum of the amounts of the data rows whose type is `criteria`, after
    /// `completed_cycles` edits: the initial sum, adjusted by each edit that
    /// hit a matching row.
    pub fn sum_for_type(criteria: &str, completed_cycles: usize) -> (v: i128)
        requires
            cycles_fit(completed_cycles as nat, 67),
        ensures
            v as int == s013_sum(criteria@, completed_cycles as nat),
    {
        let ghost crit = criteria@;
        let mut total: i128 = 0;
        let mut row: u32 = 1;
        while row <= 10_000
            invariant
                1 <= row <= 10_001,
                crit == criteria@,
                total as int == sum_to(s013_term(crit, 0), (row - 1) as nat),
                0 <= total <= (row - 1) * 10_000,
            decreases 10_001 - row,
        {
            let ghost i = (row - 1) as nat;
            assert(s013_value(row as nat, 0) == row as int);
            if str_eq(Self::data_type(row), criteria) {
                total = total + row as i128;
            }
            assert(s013_term(crit, 0)(i) == if s013_type(row as nat) == crit { row as int } else { 0 });
            row = row + 1;
        }
        let mut cycle: usize = 0;
        while cycle < completed_cycles
            invariant
                0 <= cycle <= completed_cycles,
                crit == criteria@,
                cycles_fit(completed_cycles as nat, 67),
                total as int == s013_sum(crit, cycle as nat),
                0 <= total <= 10_000 * 0x4_0000_0000_0000_0000,
            decreases completed_cycles - cycle,
        {
            assert((cycle as nat * 67) <= usize::MAX);
            let edit_row = row_67_of(cycle);
            let ghost f = s013_term(crit, cycle as nat);
            let ghost g = s013_term(crit, (cycle + 1) as nat);
            if str_eq(Self::data_type(edit_row), criteria) {
                let prev = Self::previous_data_value(edit_row, cycle);
                total = total + (20_000 + cycle as i128) - prev;
            }
            proof {
                let p = (edit_row - 1) as nat;
                assert forall|i: nat| i < 10_000 && i != p implies #[trigger] g(i) == f(i) by {
                    assert(row_67(cycle as nat) != i + 1);
                }
                lemma_sum_to_point_update(f, g, 10_000, p);
                assert forall|i: nat| i < 10_000 implies 0 <= #[trigger] g(i) <= 0x4_0000_0000_0000_0000 by {
                    lemma_last_write_bounds((i + 1) as int, i + 1, (cycle + 1) as nat, |k: nat| row_67(k), |k: nat| 20_000 + k as int, 0, 0x4_0000_0000_0000_0000);
                }
                lemma_sum_to_bounds(g, 10_000, 0x4_0000_0000_0000_0000);
            }
            cycle = cycle + 1;
        }
        total
    }

    /// No errors; once evaluated every row shows the Type1 sum.
    pub fn invariants(&self, phase: ScenarioPhase, global: Option<ScenarioScale>) -> (v: Vec<ScenarioInvariant>)
        requires
            phase_ok(phase),
            cycles_fit(spec_completed_cycles(phase), 67),
        ensures
            invariants_match(v@, s013_invariants(standard_rows(resolved_scale(self.spec_scale(), global)) as nat, phase)),
    {
        let rows = Self::rows(self.scale.get_or_small(global));
        let ghost spec = s013_invariants(rows as nat, phase);
        let mut v: Vec<ScenarioInvariant> = Vec::new();
        push_no_error(&mut v, "Sheet1");
        assert(spec.subrange(0, 1) =~= sheet1_no_error());
        if has_evaluated_formulas(phase) {
            let expected = Self::sum_for_type("Type1", completed_cycles(phase));
            let mut row: u32 = 1;
            while row <= rows
                invariant
                    1 <= row <= rows + 1,
                    rows <= 50_000,
                    spec_has_evaluated(phase),
                    expected as int == s013_sum("Type1"@, spec_completed_cycles(phase)),
                    spec == s013_invariants(rows as nat, phase),
                    invariants_match(v@, spec.subrange(0, row as int)),
                decreases rows + 1 - row,
            {
                push_cell_equals(&mut v, "Sheet1", row, 1, expected);
                proof {
                    assert(spec[row as int] == InvariantView::CellEquals("Sheet1"@, row as nat, 1, expected as int));
                }
                row = row + 1;
            }
            assert(spec.subrange(0, row as int) =~= spec);
        } else {
            assert(spec.subrange(0, 1) =~= spec);
        }
        v
    }
}

/* -------------------------------- tags -------------------------------- */

impl S013SumifsFamilyConstantCriteria {
    pub fn tags(&self) -> (v: Vec<ScenarioTag>)
        ensures
            v@ == seq![ScenarioTag::AggregationHeavy, ScenarioTag::SingleCellEdit],
    {
        let v = vec![ScenarioTag::AggregationHeavy, ScenarioTag::SingleCellEdit];
        assert(v@ =~= seq![ScenarioTag::AggregationHeavy, ScenarioTag::SingleCellEdit]);
        v
    }
}

} // verus!
