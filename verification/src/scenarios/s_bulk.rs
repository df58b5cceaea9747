//! Scenarios with bulk and grouped edits, undo and redo, reciprocal error
//! masking and giant formulas, and the scenarios whose edits the workbook
//! cannot yet express.

use vstd::prelude::*;
use crate::text::{dec, dec_chars, chars_of, owned, push_chars, push_str, string_of};
use crate::scenarios::common::{ScenarioTag, 
    ScaleState, ScenarioBuildCtx, ScenarioFixture, FixtureMetadata, ScenarioPhase, ScenarioScale,
    ScenarioInvariant, InvariantView, CellWrite, CellWriteView, EditPlan, fixture_path,
    spec_fixture_path, push_no_error, push_cell_equals, push_cell_equals_ratio, push_write,
    invariants_match, writes_match, sheet1_no_error, standard_rows, standard_row_count,
    resolved_scale, spec_has_evaluated, has_evaluated_formulas, spec_completed_cycles,
    completed_cycles, phase_ok, last_write, last_in_cycle, last_write_multi,
    lemma_last_in_cycle_bounds, lemma_last_write_multi_bounds, sum_to,
};
use crate::scenarios::s_finance::{edit_len, cycle_cap};

verus! {

/// Number of bulk writes: fifty, or every row when there are fewer.
pub fn bulk_len(rows: u32) -> (r: usize)
    ensures
        r == edit_len(50, rows as nat),
        1 <= r <= 50,
{
    if rows == 0 {
        1
    } else if rows < 50 {
        rows as usize
    } else {
        50
    }
}

/// Row count a bulk edit uses: the sheet's reported rows, 1 when unknown,
/// at least 1.
pub open spec fn reported_rows(dimension_rows: Option<u32>) -> nat {
    match dimension_rows {
        Some(n) => if n >= 1 { n as nat } else { 1 },
        None => 1,
    }
}

fn reported_rows_of(dimension_rows: Option<u32>) -> (r: u32)
    ensures
        r == reported_rows(dimension_rows),
        r >= 1,
{
    match dimension_rows {
        Some(n) => if n >= 1 { n } else { 1 },
        None => 1,
    }
}

/// `A*2` family with fifty scattered inputs rewritten per cycle.
pub struct S038BulkEdit50CellsPerCycle {
    scale: ScaleState,
}

pub open spec fn s038_n(rows: nat) -> spec_fn(nat) -> nat {
    |k: nat| edit_len(50, rows)
}

pub open spec fn s038_at(rows: nat) -> spec_fn(nat, nat) -> nat {
    |k: nat, i: nat| ((k * 101 + i * 17) % rows + 1) as nat
}

pub open spec fn s038_val() -> spec_fn(nat, nat) -> int {
    |k: nat, i: nat| (1000 + 100 * k + i) as int
}

/// Input of `row` after `c` cycles.
pub open spec fn s038_input(row: nat, rows: nat, c: nat) -> int {
    last_write_multi(row as int, row, c, s038_n(rows), s038_at(rows), s038_val())
}

pub open spec fn s038_invariants(rows: nat, phase: ScenarioPhase) -> Seq<InvariantView> {
    let c = spec_completed_cycles(phase);
    sheet1_no_error() + if spec_has_evaluated(phase) {
        Seq::new(rows, |i: int| InvariantView::CellEquals("Sheet1"@, (i + 1) as nat, 2, s038_input((i + 1) as nat, rows, c) * 2))
    } else {
        Seq::empty()
    }
}

impl S038BulkEdit50CellsPerCycle {
    pub closed spec fn spec_scale(&self) -> Option<ScenarioScale> {
        self.scale.spec_scale()
    }

    pub fn new() -> (s: Self)
        ensures
            s.spec_scale() is None,
    {
        S038BulkEdit50CellsPerCycle { scale: ScaleState::new() }
    }

    pub fn rows(scale: ScenarioScale) -> (r: u32)
        ensures
            r == standard_rows(scale),
    {
        standard_row_count(scale)
    }

    pub fn id(&self) -> (s: &'static str)
        ensures
            s@ == "s038-bulk-edit-50-cells-per-cycle"@,
    {
        "s038-bulk-edit-50-cells-per-cycle"
    }

    /// Records the scale and plans the inputs and the `A*2` family.
    pub fn build_fixture(&mut self, ctx: &ScenarioBuildCtx) -> (f: ScenarioFixture)
        ensures
            final(self).spec_scale() == Some(ctx.scale),
            f.path@ == spec_fixture_path(ctx.fixture_dir@, ctx.label@, "s038-bulk-edit-50-cells-per-cycle"@, ctx.scale),
            f.metadata == (FixtureMetadata { rows: standard_rows(ctx.scale), cols: 2, sheets: 1, formula_cells: standard_rows(ctx.scale), value_cells: standard_rows(ctx.scale), has_named_ranges: false, has_tables: false }),
    {
        self.scale.set(ctx.scale);
        let rows = Self::rows(ctx.scale);
        let path = fixture_path(ctx, self.id());
        ScenarioFixture {
            path,
            metadata: FixtureMetadata { rows, cols: 2, sheets: 1, formula_cells: rows, value_cells: rows, has_named_ranges: false, has_tables: false },
        }
    }

    pub fn edit_plan(&self) -> (p: EditPlan)
        ensures
            p.cycles == 5,
    {
        EditPlan { cycles: 5 }
    }

    /// Cycle `cycle` writes `1000 + 100 cycle + i` into A at row
    /// `101 cycle + 17 i mod rows + 1` for each of the fifty bulk writes;
    /// `rows` is the sheet's reported row count.
    pub fn edit_writes(cycle: usize, dimension_rows: Option<u32>) -> (r: (Vec<CellWrite>, &'static str))
        requires
            cycle < cycle_cap(),
        ensures
            writes_match(r.0@, Seq::new(edit_len(50, reported_rows(dimension_rows)), |i: int| CellWriteView {
                sheet: "Sheet1"@, row: s038_at(reported_rows(dimension_rows))(cycle as nat, i as nat), col: 1, value: s038_val()(cycle as nat, i as nat) })),
            r.1@ == "bulk_a_50"@,
    {
        let rows = reported_rows_of(dimension_rows);
        let len = bulk_len(rows);
        let ghost spec = Seq::new(edit_len(50, rows as nat), |i: int| CellWriteView {
            sheet: "Sheet1"@, row: s038_at(rows as nat)(cycle as nat, i as nat), col: 1, value: s038_val()(cycle as nat, i as nat) });
        let mut v: Vec<CellWrite> = Vec::new();
        let mut idx: usize = 0;
        while idx < len
            invariant
                0 <= idx <= len <= 50,
                len == edit_len(50, rows as nat),
                rows >= 1,
                cycle < cycle_cap(),
                spec == Seq::new(edit_len(50, rows as nat), |i: int| CellWriteView {
                    sheet: "Sheet1"@, row: s038_at(rows as nat)(cycle as nat, i as nat), col: 1, value: s038_val()(cycle as nat, i as nat) }),
                writes_match(v@, spec.subrange(0, idx as int)),
            decreases len - idx,
        {
            let row = (((cycle as u128) * 101 + (idx as u128) * 17) % (rows as u128)) as u32 + 1;
            let value = 1000 + 100 * (cycle as i128) + idx as i128;
            push_write(&mut v, "Sheet1", row, 1, value);
            assert(spec[idx as int] == CellWriteView { sheet: "Sheet1"@, row: row as nat, col: 1, value: value as int });
            idx = idx + 1;
        }
        assert(spec.subrange(0, idx as int) =~= spec);
        (v, "bulk_a_50")
    }

    /// Input of `row` after `completed_cycles` cycles on a sheet of `rows`
    /// rows.
    pub fn input_value(row: u32, rows: u32, completed_cycles: usize) -> (v: i128)
        requires
            rows > 0,
            completed_cycles < cycle_cap(),
        ensures
            v == s038_input(row as nat, rows as nat, completed_cycles as nat),
            0 <= v <= 0x1_0000_0000_0000,
    {
        let mut value: i128 = row as i128;
        let len = bulk_len(rows);
        let mut cycle: usize = 0;
        while cycle < completed_cycles
            invariant
                0 <= cycle <= completed_cycles < cycle_cap(),
                rows > 0,
                len == edit_len(50, rows as nat),
                value == s038_input(row as nat, rows as nat, cycle as nat),
            decreases completed_cycles - cycle,
        {
            let ghost prev = value as int;
            let mut idx: usize = 0;
            while idx < len
                invariant
                    0 <= idx <= len <= 50,
                    len == edit_len(50, rows as nat),
                    cycle < cycle_cap(),
                    rows > 0,
                    value == last_in_cycle(prev, row as nat, cycle as nat, idx as nat, s038_at(rows as nat), s038_val()),
                decreases len - idx,
            {
                if row as u128 == (((cycle as u128) * 101 + (idx as u128) * 17) % (rows as u128)) + 1 {
                    value = 1000 + 100 * (cycle as i128) + idx as i128;
                }
                idx = idx + 1;
            }
            cycle = cycle + 1;
        }
        proof {
            assert forall|k: nat, i: nat| k < completed_cycles && i < s038_n(rows as nat)(k) implies 0 <= #[trigger] s038_val()(k, i) <= 0x1_0000_0000_0000 by {
                assert(100 * k <= 100 * 0x1_0000_0000) by (nonlinear_arith) requires k < 0x1_0000_0000;
            }
            lemma_last_write_multi_bounds(row as int, row as nat, completed_cycles as nat, s038_n(rows as nat), s038_at(rows as nat), s038_val(), 0, 0x1_0000_0000_0000);
        }
        value
    }

    /// No errors; once evaluated every row shows twice its current input.
    pub fn invariants(&self, phase: ScenarioPhase, global: Option<ScenarioScale>) -> (v: Vec<ScenarioInvariant>)
        requires
            phase_ok(phase),
            spec_completed_cycles(phase) < cycle_cap(),
        ensures
            invariants_match(v@, s038_invariants(standard_rows(resolved_scale(self.spec_scale(), global)) as nat, phase)),
    {
        let rows = Self::rows(self.scale.get_or_small(global));
        let ghost spec = s038_invariants(rows as nat, phase);
        let mut v: Vec<ScenarioInvariant> = Vec::new();
        push_no_error(&mut v, "Sheet1");
        assert(spec.subrange(0, 1) =~= sheet1_no_error());
        if has_evaluated_formulas(phase) {
            let cycles = completed_cycles(phase);
            let mut row: u32 = 1;
            while row <= rows
                invariant
                    1 <= row <= rows + 1,
                    0 < rows <= 50_000,
                    spec_has_evaluated(phase),
                    cycles as nat == spec_completed_cycles(phase),
                    cycles < cycle_cap(),
                    spec == s038_invariants(rows as nat, phase),
                    invariants_match(v@, spec.subrange(0, row as int)),
                decreases rows + 1 - row,
            {
                let value = Self::input_value(row, rows, cycles);
                push_cell_equals(&mut v, "Sheet1", row, 2, value * 2);
                assert(spec[row as int] == InvariantView::CellEquals("Sheet1"@, row as nat, 2, value * 2));
                row = row + 1;
            }
            assert(spec.subrange(0, row as int) =~= spec);
        } else {
            assert(spec.subrange(0, 1) =~= spec);
        }
        v
    }
}

/// `A*2` family where two grouped bulk edits are applied, undone and redone.
pub struct S039UndoRedoOfBulkEdit {
    scale: ScaleState,
}

/// Which grouped bulk edits are in effect.
#[derive(Clone, Copy, Debug, PartialEq, Eq, Structural)]
pub enum BulkState {
    Initial,
    First,
    FirstAndSecond,
}

/// The state in effect at a phase: after recalculating cycles 0 to 4 the
/// edits are first, none, first, both, first; at every other phase none.
pub open spec fn spec_state_after_phase(phase: ScenarioPhase) -> BulkState {
    match phase {
        ScenarioPhase::AfterRecalc { cycle } => {
            if cycle == 0 { BulkState::First }
            else if cycle == 1 { BulkState::Initial }
            else if cycle == 2 { BulkState::First }
            else if cycle == 3 { BulkState::FirstAndSecond }
            else if cycle == 4 { BulkState::First }
            else { BulkState::Initial }
        },
        _ => BulkState::Initial,
    }
}

pub open spec fn s039_at(rows: nat) -> spec_fn(nat, nat) -> nat {
    |set: nat, i: nat| ((set * 503 + i * 17) % rows + 1) as nat
}

pub open spec fn s039_val() -> spec_fn(nat, nat) -> int {
    |set: nat, i: nat| (1000 + 1000 * set + i) as int
}

/// Input of `row` in a state: each edit set in effect, first then second,
/// rewrites its rows.
pub open spec fn s039_input(row: nat, rows: nat, state: BulkState) -> int {
    let len = edit_len(50, rows);
    let after_first = last_in_cycle(row as int, row, 0, len, s039_at(rows), s039_val());
    match state {
        BulkState::Initial => row as int,
        BulkState::First => after_first,
        BulkState::FirstAndSecond => last_in_cycle(after_first, row, 1, len, s039_at(rows), s039_val()),
    }
}

pub open spec fn s039_invariants(rows: nat, phase: ScenarioPhase) -> Seq<InvariantView> {
    let state = spec_state_after_phase(phase);
    sheet1_no_error() + if spec_has_evaluated(phase) {
        Seq::new(rows, |i: int| InvariantView::CellEquals("Sheet1"@, (i + 1) as nat, 2, s039_input((i + 1) as nat, rows, state) * 2))
    } else {
        Seq::empty()
    }
}

/// What one cycle asks of the workbook.
#[derive(Clone, Debug)]
pub enum UndoRedoStep {
    /// One grouped action, under the given name, holding these writes.
    Grouped { action: String, writes: Vec<CellWrite> },
    Undo,
    Redo,
    Nothing,
}

/// The script of cycles 0 to 4: apply edit set 0, undo, redo, apply edit
/// set 1, undo; then nothing.
pub enum ScriptStep {
    Apply(nat),
    Undo,
    Redo,
    Nothing,
}

pub open spec fn s039_script(k: nat) -> ScriptStep {
    if k == 0 { ScriptStep::Apply(0) }
    else if k == 1 { ScriptStep::Undo }
    else if k == 2 { ScriptStep::Redo }
    else if k == 3 { ScriptStep::Apply(1) }
    else if k == 4 { ScriptStep::Undo }
    else { ScriptStep::Nothing }
}

/// Undo history: the applied edit sets (last on top) and the undone ones
/// (last undone on top).
pub struct History {
    pub done: Seq<nat>,
    pub undone: Seq<nat>,
}

/// History after one step: applying pushes and clears what was undone, undo
/// moves the top applied set to the undone stack, redo moves it back.
pub open spec fn history_step(h: History, s: ScriptStep) -> History {
    match s {
        ScriptStep::Apply(set) => History { done: h.done.push(set), undone: Seq::empty() },
        ScriptStep::Undo => if h.done.len() > 0 {
            History { done: h.done.drop_last(), undone: h.undone.push(h.done.last()) }
        } else { h },
        ScriptStep::Redo => if h.undone.len() > 0 {
            History { done: h.done.push(h.undone.last()), undone: h.undone.drop_last() }
        } else { h },
        ScriptStep::Nothing => h,
    }
}

/// History after the first `n` steps of the script.
pub open spec fn history_after(n: nat) -> History
    decreases n,
{
    if n == 0 {
        History { done: Seq::empty(), undone: Seq::empty() }
    } else {
        history_step(history_after((n - 1) as nat), s039_script((n - 1) as nat))
    }
}

/// The state a list of applied edit sets stands for.
pub open spec fn state_of_done(done: Seq<nat>) -> BulkState {
    if done == seq![0nat] { BulkState::First }
    else if done == seq![0nat, 1nat] { BulkState::FirstAndSecond }
    else { BulkState::Initial }
}

/// The state recorded for each recalculated cycle is the state that the
/// script's applies, undos and redos leave in effect: undo takes back the
/// latest applied edit and redo restores the latest undone one.
pub proof fn lemma_s039_states_follow_undo_redo(k: nat)
    requires
        k < 5,
    ensures
        spec_state_after_phase(ScenarioPhase::AfterRecalc { cycle: k as usize }) == state_of_done(history_after(k + 1).done),
{
    reveal_with_fuel(history_after, 6);
    assert(history_after(1).done =~= seq![0nat]);
    assert(history_after(2).done =~= Seq::<nat>::empty());
    assert(history_after(3).done =~= seq![0nat]);
    assert(history_after(4).done =~= seq![0nat, 1nat]);
    assert(history_after(5).done =~= seq![0nat]);
    assert(seq![0nat] != Seq::<nat>::empty());
    assert(seq![0nat] != seq![0nat, 1nat]);
}

pub open spec fn s039_label(k: nat) -> Seq<char> {
    if k == 0 { "bulk_edit_first"@ }
    else if k == 1 { "undo_first_bulk"@ }
    else if k == 2 { "redo_first_bulk"@ }
    else if k == 3 { "bulk_edit_second"@ }
    else if k == 4 { "undo_second_bulk"@ }
    else { "noop"@ }
}

/// Writes of edit set `set` on a sheet of `rows` rows.
pub open spec fn s039_writes(set: nat, rows: nat) -> Seq<CellWriteView> {
    Seq::new(edit_len(50, rows), |i: int| CellWriteView { sheet: "Sheet1"@, row: s039_at(rows)(set, i as nat), col: 1, value: s039_val()(set, i as nat) })
}

impl S039UndoRedoOfBulkEdit {
    pub closed spec fn spec_scale(&self) -> Option<ScenarioScale> {
        self.scale.spec_scale()
    }

    pub fn new() -> (s: Self)
        ensures
            s.spec_scale() is None,
    {
        S039UndoRedoOfBulkEdit { scale: ScaleState::new() }
    }

    pub fn rows(scale: ScenarioScale) -> (r: u32)
        ensures
            r == standard_rows(scale),
    {
        standard_row_count(scale)
    }

    pub fn id(&self) -> (s: &'static str)
        ensures
            s@ == "s039-undo-redo-of-bulk-edit"@,
    {
        "s039-undo-redo-of-bulk-edit"
    }

    /// Records the scale and plans the inputs and the `A*2` family.
    pub fn build_fixture(&mut self, ctx: &ScenarioBuildCtx) -> (f: ScenarioFixture)
        ensures
            final(self).spec_scale() == Some(ctx.scale),
            f.path@ == spec_fixture_path(ctx.fixture_dir@, ctx.label@, "s039-undo-redo-of-bulk-edit"@, ctx.scale),
            f.metadata == (FixtureMetadata { rows: standard_rows(ctx.scale), cols: 2, sheets: 1, formula_cells: standard_rows(ctx.scale), value_cells: standard_rows(ctx.scale), has_named_ranges: false, has_tables: false }),
    {
        self.scale.set(ctx.scale);
        let rows = Self::rows(ctx.scale);
        let path = fixture_path(ctx, self.id());
        ScenarioFixture {
            path,
            metadata: FixtureMetadata { rows, cols: 2, sheets: 1, formula_cells: rows, value_cells: rows, has_named_ranges: false, has_tables: false },
        }
    }

    pub fn edit_plan(&self) -> (p: EditPlan)
        ensures
            p.cycles == 5,
    {
        EditPlan { cycles: 5 }
    }

    /// The writes of edit set `set`.
    pub fn bulk_writes(set: usize, rows: u32) -> (v: Vec<CellWrite>)
        requires
            set <= 1,
            rows >= 1,
        ensures
            writes_match(v@, s039_writes(set as nat, rows as nat)),
    {
        let len = bulk_len(rows);
        let ghost spec = s039_writes(set as nat, rows as nat);
        let mut v: Vec<CellWrite> = Vec::new();
        let mut idx: usize = 0;
        while idx < len
            invariant
                0 <= idx <= len <= 50,
                len == edit_len(50, rows as nat),
                rows >= 1,
                set <= 1,
                spec == s039_writes(set as nat, rows as nat),
                writes_match(v@, spec.subrange(0, idx as int)),
            decreases len - idx,
        {
            let row = ((set as u64 * 503 + idx as u64 * 17) % rows as u64) as u32 + 1;
            let value = 1000 + 1000 * set as i128 + idx as i128;
            push_write(&mut v, "Sheet1", row, 1, value);
            assert(spec[idx as int] == CellWriteView { sheet: "Sheet1"@, row: row as nat, col: 1, value: value as int });
            idx = idx + 1;
        }
        assert(spec.subrange(0, idx as int) =~= spec);
        v
    }

    /// What cycle `cycle` does: grouped action `bulk edit 0`, undo, redo,
    /// grouped action `bulk edit 1`, undo; later cycles nothing.
    pub fn edit(cycle: usize, dimension_rows: Option<u32>) -> (r: (UndoRedoStep, &'static str))
        ensures
            r.1@ == s039_label(cycle as nat),
            cycle == 1 || cycle == 4 <==> r.0 is Undo,
            cycle == 2 <==> r.0 is Redo,
            cycle > 4 <==> r.0 is Nothing,
            cycle == 0 || cycle == 3 ==> (r.0 matches UndoRedoStep::Grouped { action, writes }
                && action@ == "bulk edit "@ + dec(if cycle == 0 { 0nat } else { 1nat })
                && writes_match(writes@, s039_writes(if cycle == 0 { 0nat } else { 1nat }, reported_rows(dimension_rows)))),
    {
        let rows = reported_rows_of(dimension_rows);
        if cycle == 0 || cycle == 3 {
            let set: usize = if cycle == 0 { 0 } else { 1 };
            let mut name = chars_of("bulk edit ");
            push_chars(&mut name, &dec_chars(set as u64));
            let writes = Self::bulk_writes(set, rows);
            let label = if cycle == 0 { "bulk_edit_first" } else { "bulk_edit_second" };
            (UndoRedoStep::Grouped { action: string_of(&name), writes }, label)
        } else if cycle == 1 {
            (UndoRedoStep::Undo, "undo_first_bulk")
        } else if cycle == 2 {
            (UndoRedoStep::Redo, "redo_first_bulk")
        } else if cycle == 4 {
            (UndoRedoStep::Undo, "undo_second_bulk")
        } else {
            (UndoRedoStep::Nothing, "noop")
        }
    }

    /// The edit sets in effect at a phase.
    pub fn state_after_phase(phase: ScenarioPhase) -> (s: BulkState)
        ensures
            s == spec_state_after_phase(phase),
    {
        match phase {
            ScenarioPhase::AfterRecalc { cycle } => {
                if cycle == 0 { BulkState::First }
                else if cycle == 1 { BulkState::Initial }
                else if cycle == 2 { BulkState::First }
                else if cycle == 3 { BulkState::FirstAndSecond }
                else if cycle == 4 { BulkState::First }
                else { BulkState::Initial }
            },
            _ => BulkState::Initial,
        }
    }

    /// Input of `row` in `state` on a sheet of `rows` rows.
    pub fn input_value(row: u32, rows: u32, state: BulkState) -> (v: i128)
        requires
            rows > 0,
        ensures
            v == s039_input(row as nat, rows as nat, state),
            0 <= v <= 0x1_0000_0000,
    {
        let len = bulk_len(rows);
        let mut value: i128 = row as i128;
        if state == BulkState::First || state == BulkState::FirstAndSecond {
            let mut idx: usize = 0;
            while idx < len
                invariant
                    0 <= idx <= len <= 50,
                    len == edit_len(50, rows as nat),
                    rows > 0,
                    value == last_in_cycle(row as int, row as nat, 0, idx as nat, s039_at(rows as nat), s039_val()),
                decreases len - idx,
            {
                if row as u64 == ((idx as u64 * 17) % rows as u64) + 1 {
                    value = 1000 + idx as i128;
                }
                idx = idx + 1;
            }
        }
        proof {
            lemma_last_in_cycle_bounds(row as int, row as nat, 0, len as nat, s039_at(rows as nat), s039_val(), 0, 0x1_0000_0000);
        }
        if state == BulkState::FirstAndSecond {
            let ghost first = value as int;
            let mut idx: usize = 0;
            while idx < len
                invariant
                    0 <= idx <= len <= 50,
                    len == edit_len(50, rows as nat),
                    rows > 0,
                    value == last_in_cycle(first, row as nat, 1, idx as nat, s039_at(rows as nat), s039_val()),
                decreases len - idx,
            {
                if row as u64 == ((503 + idx as u64 * 17) % rows as u64) + 1 {
                    value = 2000 + idx as i128;
                }
                idx = idx + 1;
            }
            proof {
                lemma_last_in_cycle_bounds(first, row as nat, 1, len as nat, s039_at(rows as nat), s039_val(), 0, 0x1_0000_0000);
            }
        }
        value
    }

    /// No errors; once evaluated every row shows twice its input in the
    /// state in effect.
    pub fn invariants(&self, phase: ScenarioPhase, global: Option<ScenarioScale>) -> (v: Vec<ScenarioInvariant>)
        requires
            phase_ok(phase),
        ensures
            invariants_match(v@, s039_invariants(standard_rows(resolved_scale(self.spec_scale(), global)) as nat, phase)),
    {
        let rows = Self::rows(self.scale.get_or_small(global));
        let ghost spec = s039_invariants(rows as nat, phase);
        let mut v: Vec<ScenarioInvariant> = Vec::new();
        push_no_error(&mut v, "Sheet1");
        assert(spec.subrange(0, 1) =~= sheet1_no_error());
        if has_evaluated_formulas(phase) {
            let state = Self::state_after_phase(phase);
            let mut row: u32 = 1;
            while row <= rows
                invariant
                    1 <= row <= rows + 1,
                    0 < rows <= 50_000,
                    spec_has_evaluated(phase),
                    state == spec_state_after_phase(phase),
                    spec == s039_invariants(rows as nat, phase),
                    invariants_match(v@, spec.subrange(0, row as int)),
                decreases rows + 1 - row,
            {
                let value = Self::input_value(row, rows, state);
                push_cell_equals(&mut v, "Sheet1", row, 2, value * 2);
                assert(spec[row as int] == InvariantView::CellEquals("Sheet1"@, row as nat, 2, value * 2));
                row = row + 1;
            }
            assert(spec.subrange(0, row as int) =~= spec);
        } else {
            assert(spec.subrange(0, 1) =~= spec);
        }
        v
    }
}

/// Row insert with undo and redo; the workbook offers no undoable row
/// insert, so every edit cycle is refused.
pub struct S040UndoRedoOfRowInsert {
    scale: ScaleState,
}

impl S040UndoRedoOfRowInsert {
    pub closed spec fn spec_scale(&self) -> Option<ScenarioScale> {
        self.scale.spec_scale()
    }

    pub fn new() -> (s: Self)
        ensures
            s.spec_scale() is None,
    {
        S040UndoRedoOfRowInsert { scale: ScaleState::new() }
    }

    pub fn rows(scale: ScenarioScale) -> (r: u32)
        ensures
            r == standard_rows(scale),
    {
        standard_row_count(scale)
    }

    pub fn id(&self) -> (s: &'static str)
        ensures
            s@ == "s040-undo-redo-of-row-insert"@,
    {
        "s040-undo-redo-of-row-insert"
    }

    /// Records the scale and plans the `A*2` family, with twenty rows of
    /// room for the inserts.
    pub fn build_fixture(&mut self, ctx: &ScenarioBuildCtx) -> (f: ScenarioFixture)
        ensures
            final(self).spec_scale() == Some(ctx.scale),
            f.path@ == spec_fixture_path(ctx.fixture_dir@, ctx.label@, "s040-undo-redo-of-row-insert"@, ctx.scale),
            f.metadata == (FixtureMetadata { rows: (standard_rows(ctx.scale) + 20) as u32, cols: 2, sheets: 1, formula_cells: standard_rows(ctx.scale), value_cells: standard_rows(ctx.scale), has_named_ranges: false, has_tables: false }),
    {
        self.scale.set(ctx.scale);
        let rows = Self::rows(ctx.scale);
        let path = fixture_path(ctx, self.id());
        ScenarioFixture {
            path,
            metadata: FixtureMetadata { rows: rows + 20, cols: 2, sheets: 1, formula_cells: rows, value_cells: rows, has_named_ranges: false, has_tables: false },
        }
    }

    pub fn edit_plan(&self) -> (p: EditPlan)
        ensures
            p.cycles == 5,
    {
        EditPlan { cycles: 5 }
    }

    /// Every cycle is refused with the reason.
    pub fn edit(cycle: usize) -> (r: Result<&'static str, &'static str>)
        ensures
            r matches Err(m) && m@ == "s040 requires undoable row inserts, but Workbook exposes only undo/redo and Engine::insert_rows via engine_mut(); WorkbookAction has no insert_rows method and using engine_mut() would not exercise Workbook undo/redo"@,
    {
        Err("s040 requires undoable row inserts, but Workbook exposes only undo/redo and Engine::insert_rows via engine_mut(); WorkbookAction has no insert_rows method and using engine_mut() would not exercise Workbook undo/redo")
    }

    /// No errors on Sheet1, at every phase.
    pub fn invariants(&self, phase: ScenarioPhase) -> (v: Vec<ScenarioInvariant>)
        ensures
            invariants_match(v@, sheet1_no_error()),
    {
        let mut v: Vec<ScenarioInvariant> = Vec::new();
        push_no_error(&mut v, "Sheet1");
        v
    }
}

/// Initial table rows of S041.
pub const S041_INITIAL_TABLE_ROWS: u32 = 100;

/// A table meant to grow by appended rows; the workbook offers no table
/// growth, so every edit cycle is refused and the total stays the initial
/// one.
pub struct S041TableGrowByRowAppend {
    scale: ScaleState,
}

/// Total of the initial amounts `10 id` for ids 1 to 100.
pub open spec fn s041_initial_total() -> int {
    sum_to(|i: nat| 10 * (i + 1) as int, 100)
}

impl S041TableGrowByRowAppend {
    pub closed spec fn spec_scale(&self) -> Option<ScenarioScale> {
        self.scale.spec_scale()
    }

    pub fn new() -> (s: Self)
        ensures
            s.spec_scale() is None,
    {
        S041TableGrowByRowAppend { scale: ScaleState::new() }
    }

    pub fn id(&self) -> (s: &'static str)
        ensures
            s@ == "s041-table-grow-by-row-append"@,
    {
        "s041-table-grow-by-row-append"
    }

    /// Records the scale and plans the table and its SUM.
    pub fn build_fixture(&mut self, ctx: &ScenarioBuildCtx) -> (f: ScenarioFixture)
        ensures
            final(self).spec_scale() == Some(ctx.scale),
            f.path@ == spec_fixture_path(ctx.fixture_dir@, ctx.label@, "s041-table-grow-by-row-append"@, ctx.scale),
            f.metadata == (FixtureMetadata { rows: 151, cols: 5, sheets: 1, formula_cells: 1, value_cells: 303, has_named_ranges: false, has_tables: true }),
    {
        self.scale.set(ctx.scale);
        let path = fixture_path(ctx, self.id());
        ScenarioFixture {
            path,
            metadata: FixtureMetadata { rows: S041_INITIAL_TABLE_ROWS + 51, cols: 5, sheets: 1, formula_cells: 1, value_cells: 3 + S041_INITIAL_TABLE_ROWS * 3, has_named_ranges: false, has_tables: true },
        }
    }

    pub fn edit_plan(&self) -> (p: EditPlan)
        ensures
            p.cycles == 5,
    {
        EditPlan { cycles: 5 }
    }

    /// Every cycle is refused with the reason.
    pub fn edit(cycle: usize) -> (r: Result<&'static str, &'static str>)
        ensures
            r matches Err(m) && m@ == "s041 requires extending native table metadata, but Workbook exposes no extend_table/update_table API; Engine has define_table only and graph update_table is not public through Workbook"@,
    {
        Err("s041 requires extending native table metadata, but Workbook exposes no extend_table/update_table API; Engine has define_table only and graph update_table is not public through Workbook")
    }

    /// Total of the initial amounts.
    pub fn initial_total_amount() -> (v: i128)
        ensures
            v == s041_initial_total(),
    {
        let ghost f = |i: nat| 10 * (i + 1) as int;
        let mut total: i128 = 0;
        let mut id: u32 = 1;
        while id <= S041_INITIAL_TABLE_ROWS
            invariant
                1 <= id <= 101,
                f == (|i: nat| 10 * (i + 1) as int),
                total == sum_to(f, (id - 1) as nat),
                0 <= total <= (id - 1) * 1000,
            decreases 101 - id,
        {
            total = total + 10 * id as i128;
            id = id + 1;
        }
        total
    }

    /// No errors; once evaluated E1 shows the initial total.
    pub fn invariants(&self, phase: ScenarioPhase) -> (v: Vec<ScenarioInvariant>)
        ensures
            invariants_match(v@, sheet1_no_error() + if spec_has_evaluated(phase) {
                seq![InvariantView::CellEquals("Sheet1"@, 1, 5, s041_initial_total())]
            } else {
                Seq::empty()
            }),
    {
        let mut v: Vec<ScenarioInvariant> = Vec::new();
        push_no_error(&mut v, "Sheet1");
        if has_evaluated_formulas(phase) {
            push_cell_equals(&mut v, "Sheet1", 1, 5, Self::initial_total_amount());
        }
        assert(invariants_match(v@, sheet1_no_error() + if spec_has_evaluated(phase) {
            seq![InvariantView::CellEquals("Sheet1"@, 1, 5, s041_initial_total())]
        } else {
            Seq::empty()
        }));
        v
    }
}

/// An external source bumped per cycle; fixtures cannot declare external
/// sources, so building the fixture and every edit cycle are refused.
pub struct S042ExternalSourceVersionBump {
    scale: ScaleState,
}

impl S042ExternalSourceVersionBump {
    pub closed spec fn spec_scale(&self) -> Option<ScenarioScale> {
        self.scale.spec_scale()
    }

    pub fn new() -> (s: Self)
        ensures
            s.spec_scale() is None,
    {
        S042ExternalSourceVersionBump { scale: ScaleState::new() }
    }

    pub fn rows(scale: ScenarioScale) -> (r: u32)
        ensures
            r == standard_rows(scale),
    {
        standard_row_count(scale)
    }

    pub fn id(&self) -> (s: &'static str)
        ensures
            s@ == "s042-external-source-version-bump"@,
    {
        "s042-external-source-version-bump"
    }

    /// Records the scale and refuses: no fixture can be written.
    pub fn build_fixture(&mut self, ctx: &ScenarioBuildCtx) -> (r: Result<ScenarioFixture, &'static str>)
        ensures
            final(self).spec_scale() == Some(ctx.scale),
            r matches Err(m) && m@ == "s042 cannot be implemented with the current public Workbook/XLSX path: Engine exposes define_source_scalar/table and set_source_*_version, and the JSON backend can declare sources, but probe-corpus always loads UmyaAdapter XLSX fixtures; Workbook/WBResolver expose no public API to declare/populate SourceA!A{r} values during fixture load"@,
    {
        self.scale.set(ctx.scale);
        Err("s042 cannot be implemented with the current public Workbook/XLSX path: Engine exposes define_source_scalar/table and set_source_*_version, and the JSON backend can declare sources, but probe-corpus always loads UmyaAdapter XLSX fixtures; Workbook/WBResolver expose no public API to declare/populate SourceA!A{r} values during fixture load")
    }

    pub fn edit_plan(&self) -> (p: EditPlan)
        ensures
            p.cycles == 5,
    {
        EditPlan { cycles: 5 }
    }

    /// Every cycle is refused with the reason.
    pub fn edit(cycle: usize) -> (r: Result<&'static str, &'static str>)
        ensures
            r matches Err(m) && m@ == "s042 edit cycle unavailable: no loaded external SourceA workbook source exists to version-bump"@,
    {
        Err("s042 edit cycle unavailable: no loaded external SourceA workbook source exists to version-bump")
    }

    /// No checks at any phase.
    pub fn invariants(&self, phase: ScenarioPhase) -> (v: Vec<ScenarioInvariant>)
        ensures
            v@.len() == 0,
    {
        Vec::new()
    }
}

/// Rows of S045.
pub const S045_ROWS: u32 = 10_000;

/// `IFERROR(1/A, 0)` over inputs cycling through 0, 1, -2, 4, -5, with
/// inputs rewritten to zero or to nonzero values.
pub struct S045IferrorMixedWithActualErrors {
    scale: ScaleState,
}

pub open spec fn s045_initial(row: nat) -> int {
    let m = row % 5;
    if m == 0 { 0 } else if m == 1 { 1 } else if m == 2 { -2 } else if m == 3 { 4 } else { -5 }
}

pub open spec fn s045_edited_row(k: nat) -> nat {
    ((k * 1_529) % 10_000 + 1) as nat
}

pub open spec fn s045_edited_value(k: nat) -> int {
    if k % 3 == 0 { 0 } else if k % 3 == 1 { 8 + k as int } else { -8 - k as int }
}

/// Input of `row` after `c` cycles.
pub open spec fn s045_a(row: nat, c: nat) -> int {
    last_write(s045_initial(row), row, c, |k: nat| s045_edited_row(k), |k: nat| s045_edited_value(k))
}

/// The check on `row` for input `a`: zero where the reciprocal errors,
/// else `1 / a`.
pub open spec fn s045_check(row: nat, a: int) -> InvariantView {
    if a == 0 {
        InvariantView::CellEquals("Sheet1"@, row, 2, 0)
    } else {
        InvariantView::CellEqualsRatio("Sheet1"@, row, 2, 1, a)
    }
}

pub open spec fn s045_invariants(phase: ScenarioPhase) -> Seq<InvariantView> {
    let c = spec_completed_cycles(phase);
    sheet1_no_error() + if spec_has_evaluated(phase) {
        seq![s045_check(1, s045_a(1, c)), s045_check(5_000, s045_a(5_000, c)), s045_check(10_000, s045_a(10_000, c))]
    } else {
        Seq::empty()
    }
}

impl S045IferrorMixedWithActualErrors {
    pub closed spec fn spec_scale(&self) -> Option<ScenarioScale> {
        self.scale.spec_scale()
    }

    pub fn new() -> (s: Self)
        ensures
            s.spec_scale() is None,
    {
        S045IferrorMixedWithActualErrors { scale: ScaleState::new() }
    }

    /// Ten thousand rows at every scale.
    pub fn rows(scale: ScenarioScale) -> (r: u32)
        ensures
            r == S045_ROWS,
    {
        S045_ROWS
    }

    pub fn id(&self) -> (s: &'static str)
        ensures
            s@ == "s045-iferror-mixed-with-actual-errors"@,
    {
        "s045-iferror-mixed-with-actual-errors"
    }

    /// Records the scale and plans the inputs and the IFERROR family.
    pub fn build_fixture(&mut self, ctx: &ScenarioBuildCtx) -> (f: ScenarioFixture)
        ensures
            final(self).spec_scale() == Some(ctx.scale),
            f.path@ == spec_fixture_path(ctx.fixture_dir@, ctx.label@, "s045-iferror-mixed-with-actual-errors"@, ctx.scale),
            f.metadata == (FixtureMetadata { rows: 10_000, cols: 2, sheets: 1, formula_cells: 10_000, value_cells: 10_000, has_named_ranges: false, has_tables: false }),
    {
        self.scale.set(ctx.scale);
        let rows = Self::rows(ctx.scale);
        let path = fixture_path(ctx, self.id());
        ScenarioFixture {
            path,
            metadata: FixtureMetadata { rows, cols: 2, sheets: 1, formula_cells: rows, value_cells: rows, has_named_ranges: false, has_tables: false },
        }
    }

    pub fn edit_plan(&self) -> (p: EditPlan)
        ensures
            p.cycles == 5,
    {
        EditPlan { cycles: 5 }
    }

    /// Input written by cycle `cycle`.
    pub fn edited_value(cycle: usize) -> (v: i128)
        ensures
            v == s045_edited_value(cycle as nat),
    {
        if cycle % 3 == 0 { 0 } else if cycle % 3 == 1 { 8 + cycle as i128 } else { -8 - cycle as i128 }
    }

    /// Row rewritten by cycle `cycle`.
    pub fn edited_row(cycle: usize) -> (r: u32)
        ensures
            r == s045_edited_row(cycle as nat),
    {
        (((cycle as u128) * 1_529) % 10_000) as u32 + 1
    }

    /// Cycle `cycle` rewrites the input of row `1529 cycle mod 10000 + 1`.
    pub fn edit_writes(cycle: usize) -> (r: (Vec<CellWrite>, &'static str))
        ensures
            writes_match(r.0@, seq![CellWriteView { sheet: "Sheet1"@, row: s045_edited_row(cycle as nat), col: 1, value: s045_edited_value(cycle as nat) }]),
            r.1@ == "reciprocal_input"@,
    {
        let mut v: Vec<CellWrite> = Vec::new();
        push_write(&mut v, "Sheet1", Self::edited_row(cycle), 1, Self::edited_value(cycle));
        (v, "reciprocal_input")
    }

    /// Input of `row` after `cycles` cycles: the latest write to it, else
    /// its initial value.
    pub fn a_at(row: u32, cycles: usize) -> (a: i128)
        ensures
            a == s045_a(row as nat, cycles as nat),
    {
        let mut m = cycles;
        while m > 0
            invariant
                0 <= m <= cycles,
                forall|k: nat| m <= k < cycles ==> s045_edited_row(k) != row,
                s045_a(row as nat, cycles as nat) == s045_a(row as nat, m as nat),
            decreases m,
        {
            let k = m - 1;
            if Self::edited_row(k) == row {
                return Self::edited_value(k);
            }
            m = k;
        }
        let r = row % 5;
        if r == 0 { 0 } else if r == 1 { 1 } else if r == 2 { -2 } else if r == 3 { 4 } else { -5 }
    }

    /// No errors; once evaluated rows 1, 5000 and 10000 show zero or the
    /// reciprocal of their input.
    pub fn invariants(&self, phase: ScenarioPhase) -> (v: Vec<ScenarioInvariant>)
        requires
            phase_ok(phase),
        ensures
            invariants_match(v@, s045_invariants(phase)),
    {
        let mut v: Vec<ScenarioInvariant> = Vec::new();
        push_no_error(&mut v, "Sheet1");
        if has_evaluated_formulas(phase) {
            let cycles = completed_cycles(phase);
            let rows: [u32; 3] = [1, S045_ROWS / 2, S045_ROWS];
            let mut j: usize = 0;
            while j < 3
                invariant
                    0 <= j <= 3,
                    spec_has_evaluated(phase),
                    cycles as nat == spec_completed_cycles(phase),
                    rows@ == seq![1u32, 5_000u32, 10_000u32],
                    invariants_match(v@, s045_invariants(phase).subrange(0, j + 1)),
                decreases 3 - j,
            {
                let row = rows[j];
                let a = Self::a_at(row, cycles);
                if a == 0 {
                    push_cell_equals(&mut v, "Sheet1", row, 2, 0);
                } else {
                    push_cell_equals_ratio(&mut v, "Sheet1", row, 2, 1, a);
                }
                assert(s045_invariants(phase)[j + 1] == s045_check(row as nat, a as int));
                j = j + 1;
            }
            assert(s045_invariants(phase).subrange(0, 4) =~= s045_invariants(phase));
        }
        assert(invariants_match(v@, s045_invariants(phase)));
        v
    }
}

/// Rows of inputs and of formulas in S046.
pub const S046_ROWS: u32 = 2_000;
pub const S046_FORMULA_ROWS: u32 = 100;

/// A hundred single-cell formulas with giant expression trees over 181
/// inputs, the first input edited per cycle.
pub struct S046GiantAstFormula200Deps {
    scale: ScaleState,
}

/// Input of `row` after `c` cycles: A1 holds `10000 + c - 1` once edited.
pub open spec fn s046_a(row: nat, c: nat) -> int {
    if row == 1 && c > 0 { 10_000 + c - 1 } else { row as int }
}

/// Sum of the inputs of rows `lo..=hi`.
pub open spec fn s046_term(lo: nat, c: nat) -> spec_fn(nat) -> int {
    |i: nat| s046_a(lo + i, c)
}

pub open spec fn s046_sum(lo: nat, hi: nat, c: nat) -> int {
    sum_to(s046_term(lo, c), (hi + 1 - lo) as nat)
}

/// Common denominator of the formula: 30 (the AVERAGE count) times A177
/// times A181.
pub open spec fn s046_den(c: nat) -> int {
    30 * s046_a(177, c) * s046_a(181, c)
}

/// Numerator over `s046_den` of the value of formula row `row`:
/// `sum(A1..A61) + sum(A62:A91) * average(A92:A121) + A123*A124
/// + sum(A127:A176) / A177 + A178*A179 - A180/A181 + row`.
pub open spec fn s046_num(row: nat, c: nat) -> int {
    let d = s046_den(c);
    (s046_sum(1, 61, c) + s046_a(123, c) * s046_a(124, c) + s046_a(178, c) * s046_a(179, c) + row as int) * d
        + s046_sum(62, 91, c) * s046_sum(92, 121, c) * (s046_a(177, c) * s046_a(181, c))
        + s046_sum(127, 176, c) * (30 * s046_a(181, c))
        - s046_a(180, c) * (30 * s046_a(177, c))
}

pub open spec fn s046_invariants(phase: ScenarioPhase) -> Seq<InvariantView> {
    let c = spec_completed_cycles(phase);
    sheet1_no_error() + if spec_has_evaluated(phase) {
        seq![
            InvariantView::CellEqualsRatio("Sheet1"@, 1, 2, s046_num(1, c), s046_den(c)),
            InvariantView::CellEqualsRatio("Sheet1"@, 50, 2, s046_num(50, c), s046_den(c)),
            InvariantView::CellEqualsRatio("Sheet1"@, 100, 2, s046_num(100, c), s046_den(c)),
        ]
    } else {
        Seq::empty()
    }
}

/// `A1+A2+...+An`.
pub open spec fn joined_terms(n: nat) -> Seq<char>
    decreases n,
{
    if n <= 1 { "A1"@ } else { joined_terms((n - 1) as nat) + "+A"@ + dec(n) }
}

/// Formula text of formula row `row`.
pub open spec fn s046_formula(row: nat) -> Seq<char> {
    "="@ + joined_terms(61)
        + "+SUM(A62:A91)*AVERAGE(A92:A121)+IF(A122>0,A123*A124,A125/A126)+SUM(A127:A176)/A177+A178*A179-A180/A181+"@
        + dec(row)
}

impl S046GiantAstFormula200Deps {
    pub closed spec fn spec_scale(&self) -> Option<ScenarioScale> {
        self.scale.spec_scale()
    }

    pub fn new() -> (s: Self)
        ensures
            s.spec_scale() is None,
    {
        S046GiantAstFormula200Deps { scale: ScaleState::new() }
    }

    pub fn id(&self) -> (s: &'static str)
        ensures
            s@ == "s046-giant-ast-formula-200-deps"@,
    {
        "s046-giant-ast-formula-200-deps"
    }

    /// Records the scale and plans the inputs and the hundred formulas.
    pub fn build_fixture(&mut self, ctx: &ScenarioBuildCtx) -> (f: ScenarioFixture)
        ensures
            final(self).spec_scale() == Some(ctx.scale),
            f.path@ == spec_fixture_path(ctx.fixture_dir@, ctx.label@, "s046-giant-ast-formula-200-deps"@, ctx.scale),
            f.metadata == (FixtureMetadata { rows: 2_000, cols: 2, sheets: 1, formula_cells: 100, value_cells: 2_000, has_named_ranges: false, has_tables: false }),
    {
        self.scale.set(ctx.scale);
        let path = fixture_path(ctx, self.id());
        ScenarioFixture {
            path,
            metadata: FixtureMetadata { rows: S046_ROWS, cols: 2, sheets: 1, formula_cells: S046_FORMULA_ROWS, value_cells: S046_ROWS, has_named_ranges: false, has_tables: false },
        }
    }

    /// Formula text of formula row `row`.
    pub fn giant_formula(row: u32) -> (s: String)
        ensures
            s@ == s046_formula(row as nat),
    {
        let mut v = chars_of("=");
        push_str(&mut v, "A1");
        let mut r: u32 = 2;
        while r <= 61
            invariant
                2 <= r <= 62,
                v@ == "="@ + joined_terms((r - 1) as nat),
            decreases 62 - r,
        {
            push_str(&mut v, "+A");
            push_chars(&mut v, &dec_chars(r as u64));
            r = r + 1;
        }
        push_str(&mut v, "+SUM(A62:A91)*AVERAGE(A92:A121)+IF(A122>0,A123*A124,A125/A126)+SUM(A127:A176)/A177+A178*A179-A180/A181+");
        push_chars(&mut v, &dec_chars(row as u64));
        string_of(&v)
    }

    pub fn edit_plan(&self) -> (p: EditPlan)
        ensures
            p.cycles == 3,
    {
        EditPlan { cycles: 3 }
    }

    /// Cycle `cycle` writes `10000 + cycle` into A1.
    pub fn edit_writes(cycle: usize) -> (r: (Vec<CellWrite>, &'static str))
        ensures
            writes_match(r.0@, seq![CellWriteView { sheet: "Sheet1"@, row: 1, col: 1, value: 10_000 + cycle as int }]),
            r.1@ == "giant_ast_precedent"@,
    {
        let mut v: Vec<CellWrite> = Vec::new();
        push_write(&mut v, "Sheet1", 1, 1, 10_000 + cycle as i128);
        (v, "giant_ast_precedent")
    }

    /// Input of `row` after `cycles` cycles.
    pub fn a_value(row: u32, cycles: usize) -> (v: i128)
        ensures
            v == s046_a(row as nat, cycles as nat),
            0 <= v <= 0x2_0000_0000_0000_0000,
    {
        if row == 1 && cycles > 0 { 10_000 + (cycles - 1) as i128 } else { row as i128 }
    }

    fn sum_range(lo: u32, hi: u32, cycles: usize) -> (v: i128)
        requires
            1 <= lo <= hi <= 200,
        ensures
            v == s046_sum(lo as nat, hi as nat, cycles as nat),
            0 <= v <= 200 * 0x2_0000_0000_0000_0000,
    {
        let ghost f = s046_term(lo as nat, cycles as nat);
        let mut total: i128 = 0;
        let mut r: u32 = lo;
        while r <= hi
            invariant
                lo <= r <= hi + 1,
                hi <= 200,
                f == s046_term(lo as nat, cycles as nat),
                total == sum_to(f, (r - lo) as nat),
                0 <= total <= (r - lo) * 0x2_0000_0000_0000_0000,
            decreases hi + 1 - r,
        {
            total = total + Self::a_value(r, cycles);
            r = r + 1;
        }
        total
    }

    /// The value of formula row `row` as numerator and denominator.
    pub fn expected(row: u32, cycles: usize) -> (v: (i128, i128))
        requires
            row <= 1_000,
        ensures
            v.0 == s046_num(row as nat, cycles as nat),
            v.1 == s046_den(cycles as nat),
    {
        let d: i128 = 30 * Self::a_value(177, cycles) * Self::a_value(181, cycles);
        let explicit = Self::sum_range(1, 61, cycles);
        let s62 = Self::sum_range(62, 91, cycles);
        let s92 = Self::sum_range(92, 121, cycles);
        let s127 = Self::sum_range(127, 176, cycles);
        assert(0 <= s62 <= 30 * 200) by {
            crate::scenarios::common::lemma_sum_to_bounds(s046_term(62, cycles as nat), 30, 200);
        }
        assert(0 <= s92 <= 30 * 200) by {
            crate::scenarios::common::lemma_sum_to_bounds(s046_term(92, cycles as nat), 30, 200);
        }
        assert(0 <= s127 <= 50 * 200) by {
            crate::scenarios::common::lemma_sum_to_bounds(s046_term(127, cycles as nat), 50, 200);
        }
        assert(0 <= explicit <= 61 * 0x2_0000_0000_0000_0000) by {
            crate::scenarios::common::lemma_sum_to_bounds(s046_term(1, cycles as nat), 61, 0x2_0000_0000_0000_0000);
        }
        assert(d == 30 * 177 * 181);
        let base = explicit + 123 * 124 + 178 * 179 + row as i128;
        assert(0 <= base * d <= (61 * 0x2_0000_0000_0000_0000 + 100_000) * (30 * 177 * 181)) by (nonlinear_arith)
            requires 0 <= base <= 61 * 0x2_0000_0000_0000_0000 + 100_000, d == 30 * 177 * 181;
        assert(0 <= s62 * s92 <= 6000 * 6000) by (nonlinear_arith)
            requires 0 <= s62 <= 6000, 0 <= s92 <= 6000;
        assert(0 <= s62 * s92 * (177 * 181) <= 6000 * 6000 * (177 * 181)) by (nonlinear_arith)
            requires 0 <= s62 * s92 <= 6000 * 6000;
        let bd = base * d;
        let p = s62 * s92;
        assert(0 <= p <= 36_000_000);
        assert(0 <= p * 32_037 <= 36_000_000 * 32_037) by (nonlinear_arith)
            requires 0 <= p <= 36_000_000;
        let q = p * 32_037;
        assert(0 <= s127 * 5_430 <= 10_000 * 5_430) by (nonlinear_arith)
            requires 0 <= s127 <= 10_000;
        let r = s127 * 5_430;
        let n: i128 = bd + q + r - 180 * (30 * 177);
        (n, d)
    }

    /// No errors; once evaluated formula rows 1, 50 and 100 show their exact
    /// values.
    pub fn invariants(&self, phase: ScenarioPhase) -> (v: Vec<ScenarioInvariant>)
        requires
            phase_ok(phase),
        ensures
            invariants_match(v@, s046_invariants(phase)),
    {
        let mut v: Vec<ScenarioInvariant> = Vec::new();
        push_no_error(&mut v, "Sheet1");
        if has_evaluated_formulas(phase) {
            let cycles = completed_cycles(phase);
            let (n1, d1) = Self::expected(1, cycles);
            push_cell_equals_ratio(&mut v, "Sheet1", 1, 2, n1, d1);
            let (n50, d50) = Self::expected(50, cycles);
            push_cell_equals_ratio(&mut v, "Sheet1", 50, 2, n50, d50);
            let (n100, d100) = Self::expected(100, cycles);
            push_cell_equals_ratio(&mut v, "Sheet1", 100, 2, n100, d100);
        }
        assert(invariants_match(v@, s046_invariants(phase)));
        v
    }
}

/* -------------------------------- tags -------------------------------- */

impl S038BulkEdit50CellsPerCycle {
    pub fn tags(&self) -> (v: Vec<ScenarioTag>)
        ensures
            v@ == seq![ScenarioTag::SingleColumnFamily, ScenarioTag::BulkEdit],
    {
        let v = vec![ScenarioTag::SingleColumnFamily, ScenarioTag::BulkEdit];
        assert(v@ =~= seq![ScenarioTag::SingleColumnFamily, ScenarioTag::BulkEdit]);
        v
    }
}

impl S039UndoRedoOfBulkEdit {
    pub fn tags(&self) -> (v: Vec<ScenarioTag>)
        ensures
            v@ == seq![ScenarioTag::SingleColumnFamily, ScenarioTag::BulkEdit, ScenarioTag::UndoRedo],
    {
        let v = vec![ScenarioTag::SingleColumnFamily, ScenarioTag::BulkEdit, ScenarioTag::UndoRedo];
        assert(v@ =~= seq![ScenarioTag::SingleColumnFamily, ScenarioTag::BulkEdit, ScenarioTag::UndoRedo]);
        v
    }
}

impl S040UndoRedoOfRowInsert {
    pub fn tags(&self) -> (v: Vec<ScenarioTag>)
        ensures
            v@ == seq![ScenarioTag::SingleColumnFamily, ScenarioTag::UndoRedo, ScenarioTag::InsertRows],
    {
        let v = vec![ScenarioTag::SingleColumnFamily, ScenarioTag::UndoRedo, ScenarioTag::InsertRows];
        assert(v@ =~= seq![ScenarioTag::SingleColumnFamily, ScenarioTag::UndoRedo, ScenarioTag::InsertRows]);
        v
    }
}

impl S041TableGrowByRowAppend {
    pub fn tags(&self) -> (v: Vec<ScenarioTag>)
        ensures
            v@ == seq![ScenarioTag::StructuredRefs, ScenarioTag::BulkEdit],
    {
        let v = vec![ScenarioTag::StructuredRefs, ScenarioTag::BulkEdit];
        assert(v@ =~= seq![ScenarioTag::StructuredRefs, ScenarioTag::BulkEdit]);
        v
    }
}

impl S042ExternalSourceVersionBump {
    pub fn tags(&self) -> (v: Vec<ScenarioTag>)
        ensures
            v@ == seq![ScenarioTag::Mixed],
    {
        let mut v: Vec<ScenarioTag> = Vec::new();
        v.push(ScenarioTag::Mixed);
        assert(v@ =~= seq![ScenarioTag::Mixed]);
        v
    }
}

impl S045IferrorMixedWithActualErrors {
    pub fn tags(&self) -> (v: Vec<ScenarioTag>)
        ensures
            v@ == seq![ScenarioTag::ShortCircuit, ScenarioTag::SpanPromotable, ScenarioTag::SingleCellEdit],
    {
        let v = vec![ScenarioTag::ShortCircuit, ScenarioTag::SpanPromotable, ScenarioTag::SingleCellEdit];
        assert(v@ =~= seq![ScenarioTag::ShortCircuit, ScenarioTag::SpanPromotable, ScenarioTag::SingleCellEdit]);
        v
    }
}

impl S046GiantAstFormula200Deps {
    pub fn tags(&self) -> (v: Vec<ScenarioTag>)
        ensures
            v@ == seq![ScenarioTag::AnchoredArithmetic, ScenarioTag::SingleCellEdit, ScenarioTag::GiantAst],
    {
        let v = vec![ScenarioTag::AnchoredArithmetic, ScenarioTag::SingleCellEdit, ScenarioTag::GiantAst];
        assert(v@ =~= seq![ScenarioTag::AnchoredArithmetic, ScenarioTag::SingleCellEdit, ScenarioTag::GiantAst]);
        v
    }
}

} // verus!
