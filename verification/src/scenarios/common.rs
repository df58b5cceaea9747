//! Types shared by all scenarios and the helpers they use for fixture names,
//! phases, scale bookkeeping and sample rows.

use vstd::prelude::*;
use crate::text::{chars_of, push_str, string_of};

verus! {

/// What a scenario exercises, for selecting scenarios by kind.
#[derive(Clone, Copy, Debug, PartialEq, Eq, Structural)]
pub enum ScenarioTag {
    NoFormulas,
    SingleColumnFamily,
    MultiColumnFamily,
    AnchoredArithmetic,
    Mixed,
    AggregationHeavy,
    LookupHeavy,
    MultiSheet,
    CrossSheet,
    NamedRanges,
    StructuredRefs,
    Dynamic,
    EmptyGaps,
    DeleteRows,
    DeleteColumns,
    InsertRows,
    SheetRename,
    UndoRedo,
    ShortCircuit,
    GiantAst,
    LongChain,
    SpanPromotable,
    SingleCellEdit,
    BulkEdit,
}

/// In which phases two engines may legitimately disagree.
#[derive(Clone, Copy, Debug, PartialEq, Eq, Structural)]
pub enum ExpectedDivergencePhase {
    Any,
}

/// What a comparison does where a divergence is expected.
#[derive(Clone, Copy, Debug, PartialEq, Eq, Structural)]
pub enum ExpectedDivergenceAction {
    /// Run the scenario and note the difference rather than fail.
    RunAndNote,
}

/// A difference between engines that a scenario expects.
#[derive(Clone, Copy, Debug)]
pub struct ExpectedDivergence {
    pub phase: ExpectedDivergencePhase,
    pub reason: &'static str,
    pub action: ExpectedDivergenceAction,
}

/// Workbook size class of a scenario run.
#[derive(Clone, Copy, Debug, PartialEq, Eq, Structural)]
pub enum ScenarioScale {
    Small,
    Medium,
    Large,
}

/// Lower-case name of a scale.
pub open spec fn scale_name(scale: ScenarioScale) -> Seq<char> {
    match scale {
        ScenarioScale::Small => "small"@,
        ScenarioScale::Medium => "medium"@,
        ScenarioScale::Large => "large"@,
    }
}

impl ScenarioScale {
    /// Lower-case name used in fixture file names and reports.
    pub fn as_str(&self) -> (s: &'static str)
        ensures
            s@ == scale_name(*self),
    {
        proof {
            reveal_strlit("small");
            reveal_strlit("medium");
            reveal_strlit("large");
        }
        match self {
            ScenarioScale::Small => "small",
            ScenarioScale::Medium => "medium",
            ScenarioScale::Large => "large",
        }
    }
}

/// The point of a scenario run at which invariants are checked.
#[derive(Clone, Copy, Debug, PartialEq, Eq, Structural)]
pub enum ScenarioPhase {
    AfterLoad,
    AfterFirstEval,
    AfterEdit { cycle: usize },
    AfterRecalc { cycle: usize },
}

/// Where and how fixtures of a run are written.
#[derive(Clone, Debug)]
pub struct ScenarioBuildCtx {
    pub fixture_dir: String,
    pub label: String,
    pub scale: ScenarioScale,
}

/// Shape of a written fixture.
#[derive(Clone, Copy, Debug, PartialEq, Eq, Structural)]
pub struct FixtureMetadata {
    pub rows: u32,
    pub cols: u32,
    pub sheets: u32,
    pub formula_cells: u32,
    pub value_cells: u32,
    pub has_named_ranges: bool,
    pub has_tables: bool,
}

/// A check on the workbook at some phase; numeric expectations are exact
/// integers.
#[derive(Clone, Debug)]
pub enum ScenarioInvariant {
    NoErrorCells { sheet: String },
    CellEquals { sheet: String, row: u32, col: u32, expected: i128 },
    /// The cell holds `numerator / denominator` (for values that are not
    /// whole numbers, such as halves).
    CellEqualsRatio { sheet: String, row: u32, col: u32, numerator: i128, denominator: i128 },
}

/// Mathematical content of an invariant.
pub enum InvariantView {
    NoErrorCells(Seq<char>),
    CellEquals(Seq<char>, nat, nat, int),
    CellEqualsRatio(Seq<char>, nat, nat, int, int),
}

pub open spec fn invariant_view(i: ScenarioInvariant) -> InvariantView {
    match i {
        ScenarioInvariant::NoErrorCells { sheet } => InvariantView::NoErrorCells(sheet@),
        ScenarioInvariant::CellEquals { sheet, row, col, expected } => InvariantView::CellEquals(sheet@, row as nat, col as nat, expected as int),
        ScenarioInvariant::CellEqualsRatio { sheet, row, col, numerator, denominator } =>
            InvariantView::CellEqualsRatio(sheet@, row as nat, col as nat, numerator as int, denominator as int),
    }
}

/// A numeric value written into one cell by an edit.
#[derive(Clone, Debug)]
pub struct CellWrite {
    pub sheet: String,
    pub row: u32,
    pub col: u32,
    pub value: i128,
}

/// Mathematical content of a cell write.
pub struct CellWriteView {
    pub sheet: Seq<char>,
    pub row: nat,
    pub col: nat,
    pub value: int,
}

pub open spec fn write_view(w: CellWrite) -> CellWriteView {
    CellWriteView { sheet: w.sheet@, row: w.row as nat, col: w.col as nat, value: w.value as int }
}

/// How many edit cycles a scenario runs.
#[derive(Clone, Copy, Debug)]
pub struct EditPlan {
    pub cycles: usize,
}

/// Appends a no-error check for `sheet`.
pub fn push_no_error(v: &mut Vec<ScenarioInvariant>, sheet: &str)
    ensures
        final(v)@.len() == old(v)@.len() + 1,
        forall|i: int| 0 <= i < old(v)@.len() ==> final(v)@[i] == old(v)@[i],
        invariant_view(final(v)@[old(v)@.len() as int]) == InvariantView::NoErrorCells(sheet@),
{
    let s = string_of(&chars_of(sheet));
    v.push(ScenarioInvariant::NoErrorCells { sheet: s });
}

/// Appends an exact-value check for one cell.
pub fn push_cell_equals(v: &mut Vec<ScenarioInvariant>, sheet: &str, row: u32, col: u32, expected: i128)
    ensures
        final(v)@.len() == old(v)@.len() + 1,
        forall|i: int| 0 <= i < old(v)@.len() ==> final(v)@[i] == old(v)@[i],
        invariant_view(final(v)@[old(v)@.len() as int]) == InvariantView::CellEquals(sheet@, row as nat, col as nat, expected as int),
{
    let s = string_of(&chars_of(sheet));
    v.push(ScenarioInvariant::CellEquals { sheet: s, row, col, expected });
}

/// Appends an exact-ratio check for one cell.
pub fn push_cell_equals_ratio(v: &mut Vec<ScenarioInvariant>, sheet: &str, row: u32, col: u32, numerator: i128, denominator: i128)
    ensures
        final(v)@.len() == old(v)@.len() + 1,
        forall|i: int| 0 <= i < old(v)@.len() ==> final(v)@[i] == old(v)@[i],
        invariant_view(final(v)@[old(v)@.len() as int]) == InvariantView::CellEqualsRatio(sheet@, row as nat, col as nat, numerator as int, denominator as int),
{
    let s = string_of(&chars_of(sheet));
    v.push(ScenarioInvariant::CellEqualsRatio { sheet: s, row, col, numerator, denominator });
}

/// Appends a numeric write to one cell.
pub fn push_write(v: &mut Vec<CellWrite>, sheet: &str, row: u32, col: u32, value: i128)
    ensures
        final(v)@.len() == old(v)@.len() + 1,
        forall|i: int| 0 <= i < old(v)@.len() ==> final(v)@[i] == old(v)@[i],
        write_view(final(v)@[old(v)@.len() as int]) == (CellWriteView { sheet: sheet@, row: row as nat, col: col as nat, value: value as int }),
{
    let s = string_of(&chars_of(sheet));
    v.push(CellWrite { sheet: s, row, col, value });
}

/// Sets the process-wide fallback scale held in `slot`.
pub fn set_invariant_scale(slot: &mut Option<ScenarioScale>, scale: ScenarioScale)
    ensures
        *final(slot) == Some(scale),
{
    *slot = Some(scale);
}

/// A file-name-safe label: ASCII letters, digits, `-` and `_` kept, every
/// other character replaced by `_`.
pub open spec fn sanitized(label: Seq<char>) -> Seq<char> {
    Seq::new(label.len(), |i: int| if keeps(label[i]) { label[i] } else { '_' })
}

pub open spec fn keeps(c: char) -> bool {
    ('a' <= c && c <= 'z') || ('A' <= c && c <= 'Z') || ('0' <= c && c <= '9') || c == '-' || c == '_'
}

/// File-name-safe version of a label.
pub fn sanitize(label: &str) -> (s: String)
    ensures
        s@ == sanitized(label@),
{
    let cs = chars_of(label);
    let mut out: Vec<char> = Vec::new();
    let mut i: usize = 0;
    while i < cs.len()
        invariant
            0 <= i <= cs@.len(),
            cs@ == label@,
            out@ =~= sanitized(label@).subrange(0, i as int),
        decreases cs.len() - i,
    {
        let c = cs[i];
        if ('a' <= c && c <= 'z') || ('A' <= c && c <= 'Z') || ('0' <= c && c <= '9') || c == '-' || c == '_' {
            out.push(c);
        } else {
            out.push('_');
        }
        i = i + 1;
    }
    string_of(&out)
}

/// The fixture file name `<label>-<scenario>-<scale>.xlsx` joined onto a
/// directory (with `/` unless the directory is empty or already ends in one).
pub open spec fn spec_fixture_path(dir: Seq<char>, label: Seq<char>, scenario_id: Seq<char>, scale: ScenarioScale) -> Seq<char> {
    let sep = if dir.len() == 0 || dir.last() == '/' { Seq::<char>::empty() } else { seq!['/'] };
    dir + sep + sanitized(label) + seq!['-'] + scenario_id + seq!['-'] + scale_name(scale) + ".xlsx"@
}

/// Path of the fixture a scenario writes for a run.
pub fn fixture_path(ctx: &ScenarioBuildCtx, scenario_id: &str) -> (p: String)
    ensures
        p@ == spec_fixture_path(ctx.fixture_dir@, ctx.label@, scenario_id@, ctx.scale),
{
    let mut v = chars_of(ctx.fixture_dir.as_str());
    if v.len() > 0 && v[v.len() - 1] != '/' {
        v.push('/');
    }
    let label = sanitize(ctx.label.as_str());
    push_str(&mut v, label.as_str());
    push_str(&mut v, "-");
    push_str(&mut v, scenario_id);
    push_str(&mut v, "-");
    push_str(&mut v, ctx.scale.as_str());
    push_str(&mut v, ".xlsx");
    proof {
        reveal_strlit("-");
    }
    assert(v@ =~= spec_fixture_path(ctx.fixture_dir@, ctx.label@, scenario_id@, ctx.scale));
    string_of(&v)
}

/// Whether formulas have been evaluated by this phase.
pub open spec fn spec_has_evaluated(phase: ScenarioPhase) -> bool {
    phase is AfterFirstEval || phase is AfterRecalc
}

/// Whether formula results can be checked at this phase.
pub fn has_evaluated_formulas(phase: ScenarioPhase) -> (r: bool)
    ensures
        r == spec_has_evaluated(phase),
{
    match phase {
        ScenarioPhase::AfterFirstEval => true,
        ScenarioPhase::AfterRecalc { .. } => true,
        _ => false,
    }
}

/// Edit cycles applied by this phase: none before editing, `cycle + 1`
/// once cycle `cycle` has been applied.
pub open spec fn spec_completed_cycles(phase: ScenarioPhase) -> nat {
    match phase {
        ScenarioPhase::AfterLoad => 0,
        ScenarioPhase::AfterFirstEval => 0,
        ScenarioPhase::AfterEdit { cycle } => cycle as nat + 1,
        ScenarioPhase::AfterRecalc { cycle } => cycle as nat + 1,
    }
}

/// A phase whose completed-cycle count fits in `usize`.
pub open spec fn phase_ok(phase: ScenarioPhase) -> bool {
    spec_completed_cycles(phase) <= usize::MAX
}

/// Number of edit cycles completed at a phase.
pub fn completed_cycles(phase: ScenarioPhase) -> (r: usize)
    requires
        phase_ok(phase),
    ensures
        r as nat == spec_completed_cycles(phase),
{
    match phase {
        ScenarioPhase::AfterLoad => 0,
        ScenarioPhase::AfterFirstEval => 0,
        ScenarioPhase::AfterEdit { cycle } => cycle + 1,
        ScenarioPhase::AfterRecalc { cycle } => cycle + 1,
    }
}

/// First, middle and last row of a block of `rows` rows (each at least 1).
pub fn sample_rows(rows: u32) -> (r: [u32; 3])
    ensures
        r@ == seq![1u32, if rows / 2 >= 1 { rows / 2 } else { 1 }, if rows >= 1 { rows } else { 1 }],
{
    let mid = if rows / 2 >= 1 { rows / 2 } else { 1 };
    let last = if rows >= 1 { rows } else { 1 };
    let r = [1u32, mid, last];
    assert(r@ =~= seq![1u32, mid, last]);
    r
}

/// The scale a scenario was last built at, if any.
#[derive(Clone, Copy, Debug)]
pub struct ScaleState {
    scale: Option<ScenarioScale>,
}

impl ScaleState {
    pub closed spec fn spec_scale(&self) -> Option<ScenarioScale> {
        self.scale
    }

    /// No scale recorded yet.
    pub fn new() -> (s: ScaleState)
        ensures
            s.spec_scale() is None,
    {
        ScaleState { scale: None }
    }

    /// Records the scale of the latest build.
    pub fn set(&mut self, scale: ScenarioScale)
        ensures
            final(self).spec_scale() == Some(scale),
    {
        self.scale = Some(scale);
    }

    /// The recorded scale, else the process-wide one, else `Small`.
    pub fn get_or_small(&self, global: Option<ScenarioScale>) -> (s: ScenarioScale)
        ensures
            s == resolved_scale(self.spec_scale(), global),
    {
        match self.scale {
            Some(x) => x,
            None => match global {
                Some(g) => g,
                None => ScenarioScale::Small,
            },
        }
    }
}

/// The scale a lookup resolves to: the recorded one, else the process-wide
/// one, else `Small`.
pub open spec fn resolved_scale(recorded: Option<ScenarioScale>, global: Option<ScenarioScale>) -> ScenarioScale {
    match recorded {
        Some(x) => x,
        None => match global {
            Some(g) => g,
            None => ScenarioScale::Small,
        },
    }
}

/// Once a build has recorded its scale, every later lookup resolves to it,
/// whatever the process-wide fallback holds.
pub proof fn lemma_scale_state_set_get(s: ScaleState, scale: ScenarioScale, global: Option<ScenarioScale>)
    requires
        s.spec_scale() == Some(scale),
    ensures
        resolved_scale(s.spec_scale(), global) == scale,
{
}

/// Rows of the usual three size classes: 1k, 10k and 50k.
pub open spec fn standard_rows(scale: ScenarioScale) -> u32 {
    match scale {
        ScenarioScale::Small => 1_000,
        ScenarioScale::Medium => 10_000,
        ScenarioScale::Large => 50_000,
    }
}

/// Row count of the usual three size classes.
pub fn standard_row_count(scale: ScenarioScale) -> (r: u32)
    ensures
        r == standard_rows(scale),
{
    match scale {
        ScenarioScale::Small => 1_000,
        ScenarioScale::Medium => 10_000,
        ScenarioScale::Large => 50_000,
    }
}

/// Value of a cell after `c` cycles when cycle `k` overwrites the cell at
/// `at(k)` with `val(k)`: the latest write to `row`, else `init`.
pub open spec fn last_write(init: int, row: nat, c: nat, at: spec_fn(nat) -> nat, val: spec_fn(nat) -> int) -> int
    decreases c,
{
    if c == 0 {
        init
    } else if at((c - 1) as nat) == row {
        val((c - 1) as nat)
    } else {
        last_write(init, row, (c - 1) as nat, at, val)
    }
}

/// Value after the first `m` writes of cycle `k`, starting from `prev`, when
/// write `idx` of cycle `k` puts `val(k, idx)` at `at(k, idx)`.
pub open spec fn last_in_cycle(prev: int, row: nat, k: nat, m: nat, at: spec_fn(nat, nat) -> nat, val: spec_fn(nat, nat) -> int) -> int
    decreases m,
{
    if m == 0 {
        prev
    } else if at(k, (m - 1) as nat) == row {
        val(k, (m - 1) as nat)
    } else {
        last_in_cycle(prev, row, k, (m - 1) as nat, at, val)
    }
}

/// Value of a cell after `c` cycles when cycle `k` makes `n(k)` writes, write
/// `idx` putting `val(k, idx)` at `at(k, idx)`: the latest write wins.
pub open spec fn last_write_multi(init: int, row: nat, c: nat, n: spec_fn(nat) -> nat, at: spec_fn(nat, nat) -> nat, val: spec_fn(nat, nat) -> int) -> int
    decreases c,
{
    if c == 0 {
        init
    } else {
        last_in_cycle(last_write_multi(init, row, (c - 1) as nat, n, at, val), row, (c - 1) as nat, n((c - 1) as nat), at, val)
    }
}

/// Low 32 bits of a machine word.
pub fn trunc_u32(x: usize) -> (r: u32)
    ensures
        r as int == x as int % 0x1_0000_0000,
{
    ((x as u64) % 0x1_0000_0000u64) as u32
}

/// Row edited by cycle `k` of the single-column family: `37 k + 1`, the
/// product taken to 32 bits.
pub open spec fn s002_edit_row(k: nat) -> nat {
    ((k * 37) % 0x1_0000_0000 + 1) as nat
}

/// Column-A value of `row` after `c` cycles of the single-column family.
pub open spec fn s002_a(row: nat, c: nat) -> int {
    last_write(row as int, row, c, |k: nat| s002_edit_row(k), |k: nat| 1000 + k as int)
}

/// Cycle counts whose edit rows are all computable: `37 k` fits a machine
/// word and its low 32 bits stay below `u32::MAX`.
pub open spec fn s002_cycles_ok(c: nat) -> bool {
    forall|k: nat| k < c ==> (#[trigger] (k * 37)) <= usize::MAX && (k * 37) % 0x1_0000_0000 < u32::MAX
}

/// Row edited by cycle `cycle` of the single-column family.
pub fn s002_edit_row_of(cycle: usize) -> (r: u32)
    requires
        cycle * 37 <= usize::MAX,
        (cycle * 37) % 0x1_0000_0000 < u32::MAX,
    ensures
        r as nat == s002_edit_row(cycle as nat),
{
    trunc_u32(cycle * 37) + 1
}

/// Column-A value of `row` in the single-column family at a phase: the row
/// number, or `1000 + k` if cycle `k` was the latest to edit it.
pub fn maybe_edited_s002_a(row: u32, phase: ScenarioPhase) -> (v: i128)
    requires
        phase_ok(phase),
        s002_cycles_ok(spec_completed_cycles(phase)),
    ensures
        v as int == s002_a(row as nat, spec_completed_cycles(phase)),
{
    let mut value: i128 = row as i128;
    let completed = completed_cycles(phase);
    let mut cycle: usize = 0;
    while cycle < completed
        invariant
            0 <= cycle <= completed,
            completed as nat == spec_completed_cycles(phase),
            s002_cycles_ok(completed as nat),
            value as int == s002_a(row as nat, cycle as nat),
        decreases completed - cycle,
    {
        assert((cycle as nat * 37) <= usize::MAX && (cycle as nat * 37) % 0x1_0000_0000 < u32::MAX);
        let edit_row = s002_edit_row_of(cycle);
        if row == edit_row {
            value = 1000 + cycle as i128;
        }
        cycle = cycle + 1;
    }
    value
}

/// A planned fixture: where it goes and its shape.
#[derive(Clone, Debug)]
pub struct ScenarioFixture {
    pub path: String,
    pub metadata: FixtureMetadata,
}

/// `v` holds exactly the invariants `s`, in order.
pub open spec fn invariants_match(v: Seq<ScenarioInvariant>, s: Seq<InvariantView>) -> bool {
    &&& v.len() == s.len()
    &&& forall|i: int| 0 <= i < v.len() ==> invariant_view(#[trigger] v[i]) == s[i]
}

/// `v` holds exactly the writes `s`, in order.
pub open spec fn writes_match(v: Seq<CellWrite>, s: Seq<CellWriteView>) -> bool {
    &&& v.len() == s.len()
    &&& forall|i: int| 0 <= i < v.len() ==> write_view(#[trigger] v[i]) == s[i]
}

/// The no-error check on `Sheet1` that every scenario starts with.
pub open spec fn sheet1_no_error() -> Seq<InvariantView> {
    seq![InvariantView::NoErrorCells("Sheet1"@)]
}

/// A bounded value stays within the bounds of its writes.
pub proof fn lemma_last_write_bounds(init: int, row: nat, c: nat, at: spec_fn(nat) -> nat, val: spec_fn(nat) -> int, lo: int, hi: int)
    requires
        lo <= init <= hi,
        forall|k: nat| k < c ==> lo <= #[trigger] val(k) <= hi,
    ensures
        lo <= last_write(init, row, c, at, val) <= hi,
    decreases c,
{
    if c > 0 {
        lemma_last_write_bounds(init, row, (c - 1) as nat, at, val, lo, hi);
    }
}

/// Bounds for `last_in_cycle`.
pub proof fn lemma_last_in_cycle_bounds(prev: int, row: nat, k: nat, m: nat, at: spec_fn(nat, nat) -> nat, val: spec_fn(nat, nat) -> int, lo: int, hi: int)
    requires
        lo <= prev <= hi,
        forall|i: nat| i < m ==> lo <= #[trigger] val(k, i) <= hi,
    ensures
        lo <= last_in_cycle(prev, row, k, m, at, val) <= hi,
    decreases m,
{
    if m > 0 {
        lemma_last_in_cycle_bounds(prev, row, k, (m - 1) as nat, at, val, lo, hi);
    }
}

/// Bounds for `last_write_multi`.
pub proof fn lemma_last_write_multi_bounds(init: int, row: nat, c: nat, n: spec_fn(nat) -> nat, at: spec_fn(nat, nat) -> nat, val: spec_fn(nat, nat) -> int, lo: int, hi: int)
    requires
        lo <= init <= hi,
        forall|k: nat, i: nat| k < c && i < n(k) ==> lo <= #[trigger] val(k, i) <= hi,
    ensures
        lo <= last_write_multi(init, row, c, n, at, val) <= hi,
    decreases c,
{
    if c > 0 {
        let k = (c - 1) as nat;
        lemma_last_write_multi_bounds(init, row, k, n, at, val, lo, hi);
        lemma_last_in_cycle_bounds(last_write_multi(init, row, k, n, at, val), row, k, n(k), at, val, lo, hi);
    }
}

/// Every cycle before `c` can compute `k * m` in a machine word.
pub open spec fn cycles_fit(c: nat, m: nat) -> bool {
    forall|k: nat| k < c ==> #[trigger] (k * m) <= usize::MAX
}

/// `f(0) + f(1) + ... + f(n - 1)`.
pub open spec fn sum_to(f: spec_fn(nat) -> int, n: nat) -> int
    decreases n,
{
    if n == 0 {
        0
    } else {
        sum_to(f, (n - 1) as nat) + f((n - 1) as nat)
    }
}

/// Changing one term changes the sum by the difference of that term.
pub proof fn lemma_sum_to_point_update(f: spec_fn(nat) -> int, g: spec_fn(nat) -> int, n: nat, p: nat)
    requires
        p < n,
        forall|i: nat| i < n && i != p ==> #[trigger] g(i) == f(i),
    ensures
        sum_to(g, n) == sum_to(f, n) - f(p) + g(p),
    decreases n,
{
    if n - 1 == p {
        lemma_sum_to_ext(f, g, p);
    } else {
        lemma_sum_to_point_update(f, g, (n - 1) as nat, p);
    }
}

/// Sums of functions that agree below `n` agree.
pub proof fn lemma_sum_to_ext(f: spec_fn(nat) -> int, g: spec_fn(nat) -> int, n: nat)
    requires
        forall|i: nat| i < n ==> #[trigger] g(i) == f(i),
    ensures
        sum_to(g, n) == sum_to(f, n),
    decreases n,
{
    if n > 0 {
        lemma_sum_to_ext(f, g, (n - 1) as nat);
    }
}

/// A sum of `n` terms in `[0, b]` lies in `[0, n * b]`.
pub proof fn lemma_sum_to_bounds(f: spec_fn(nat) -> int, n: nat, b: int)
    requires
        b >= 0,
        forall|i: nat| i < n ==> 0 <= #[trigger] f(i) <= b,
    ensures
        0 <= sum_to(f, n) <= n * b,
    decreases n,
{
    if n > 0 {
        lemma_sum_to_bounds(f, (n - 1) as nat, b);
        assert((n - 1) * b + b == n * b) by (nonlinear_arith);
    }
}

/// A workbook operation an edit cycle asks for, beyond plain value writes.
#[derive(Clone, Debug)]
pub enum StructuralEdit {
    RenameSheet { from: String, to: String },
    DeleteRows { sheet: String, start: u32, count: u32 },
    DeleteColumns { sheet: String, start: u32, count: u32 },
    UpdateNamedRange { name: String, sheet: String, start_row: u32, start_col: u32, end_row: u32, end_col: u32 },
    Undo,
    Redo,
}

/// Mathematical content of a structural edit.
pub enum StructuralEditView {
    RenameSheet(Seq<char>, Seq<char>),
    DeleteRows(Seq<char>, nat, nat),
    DeleteColumns(Seq<char>, nat, nat),
    UpdateNamedRange(Seq<char>, Seq<char>, nat, nat, nat, nat),
    Undo,
    Redo,
}

pub open spec fn structural_view(e: StructuralEdit) -> StructuralEditView {
    match e {
        StructuralEdit::RenameSheet { from, to } => StructuralEditView::RenameSheet(from@, to@),
        StructuralEdit::DeleteRows { sheet, start, count } => StructuralEditView::DeleteRows(sheet@, start as nat, count as nat),
        StructuralEdit::DeleteColumns { sheet, start, count } => StructuralEditView::DeleteColumns(sheet@, start as nat, count as nat),
        StructuralEdit::UpdateNamedRange { name, sheet, start_row, start_col, end_row, end_col } =>
            StructuralEditView::UpdateNamedRange(name@, sheet@, start_row as nat, start_col as nat, end_row as nat, end_col as nat),
        StructuralEdit::Undo => StructuralEditView::Undo,
        StructuralEdit::Redo => StructuralEditView::Redo,
    }
}

} // verus!
