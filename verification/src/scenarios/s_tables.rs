//! Scenarios over named ranges and tables: a hundred named ranges summed by
//! a formula family, a table read through structured references, and two
//! tables joined by SUMIFS.

use vstd::prelude::*;
use crate::text::{dec, dec_chars, chars_of, push_chars, push_str, string_of, str_eq};
use crate::scenarios::common::{ScenarioTag, 
    ScaleState, ScenarioBuildCtx, ScenarioFixture, FixtureMetadata, ScenarioPhase, ScenarioScale,
    ScenarioInvariant, InvariantView, CellWrite, CellWriteView, EditPlan, fixture_path,
    spec_fixture_path, push_no_error, push_cell_equals, push_write, invariants_match, writes_match,
    sheet1_no_error, standard_rows, standard_row_count, resolved_scale, spec_has_evaluated,
    has_evaluated_formulas, spec_completed_cycles, completed_cycles, phase_ok, last_write,
    lemma_last_write_bounds, sum_to, sample_rows,
};
use crate::scenarios::s_simple::row_37;

verus! {

/// Value of `row` of a column whose rows start at `init`, when cycle `k`
/// writes `base + k` into row `37 k mod n + 1`.
pub open spec fn edited_value(init: int, row: nat, n: nat, base: int, c: nat) -> int {
    last_write(init, row, c, |k: nat| row_37(k, n), |k: nat| base + k as int)
}

/// `edited_value` computed by replaying the cycles.
fn replay_value(init: i128, row: u32, n: u32, base: i128, completed_cycles: usize) -> (v: i128)
    requires
        n > 0,
        0 <= init <= 0x1_0000_0000_0000,
        0 <= base <= 0x1_0000_0000,
        completed_cycles < 0x1_0000_0000,
    ensures
        v == edited_value(init as int, row as nat, n as nat, base as int, completed_cycles as nat),
        0 <= v <= 0x1_0000_0000_0000,
{
    let mut value = init;
    let mut cycle: usize = 0;
    while cycle < completed_cycles
        invariant
            0 <= cycle <= completed_cycles < 0x1_0000_0000,
            n > 0,
            0 <= base <= 0x1_0000_0000,
            value == edited_value(init as int, row as nat, n as nat, base as int, cycle as nat),
        decreases completed_cycles - cycle,
    {
        if row as u128 == ((cycle as u128) * 37) % (n as u128) + 1 {
            value = base + cycle as i128;
        }
        cycle = cycle + 1;
    }
    proof {
        lemma_last_write_bounds(init as int, row as nat, completed_cycles as nat, |k: nat| row_37(k, n as nat), |k: nat| base + k as int, 0, 0x1_0000_0000_0000);
    }
    value
}

/// Row `37 cycle mod n + 1` (1-based).
fn row_37_u32(cycle: usize, n: u32) -> (r: u32)
    requires
        n > 0,
    ensures
        r as nat == row_37(cycle as nat, n as nat),
        1 <= r <= n,
{
    (((cycle as u128) * 37) % (n as u128)) as u32 + 1
}

/// Input rows of S018.
pub const S018_DATA_ROWS: u32 = 1_100;

/// A hundred ten-row named ranges over column A and a formula family each
/// summing one of them.
pub struct S018NamedRanges100 {
    scale: ScaleState,
}

/// Column-A value of `row` after `c` cycles.
pub open spec fn s018_data(row: nat, c: nat) -> int {
    edited_value(row as int, row, 1_100, 1000, c)
}

/// First row of the named range summed by formula row `fr`.
pub open spec fn s018_start(fr: nat) -> nat {
    (fr % 100 + 1) * 10
}

/// Sum of the named range used by formula row `fr`.
pub open spec fn s018_sum(fr: nat, c: nat) -> int {
    sum_to(|i: nat| s018_data(s018_start(fr) + i, c), 10)
}

pub open spec fn s018_sample(rows: nat) -> Seq<nat> {
    seq![1nat, if rows / 2 >= 1 { rows / 2 } else { 1 }, if rows >= 1 { rows } else { 1 }]
}

pub open spec fn s018_invariants(rows: nat, phase: ScenarioPhase) -> Seq<InvariantView> {
    let c = spec_completed_cycles(phase);
    sheet1_no_error() + if spec_has_evaluated(phase) {
        Seq::new(3, |i: int| InvariantView::CellEquals("Sheet1"@, s018_sample(rows)[i], 2, s018_sum(s018_sample(rows)[i], c)))
    } else {
        Seq::empty()
    }
}

/// Name and reference of named range `k` (1-based).
pub open spec fn s018_named_range(k: nat) -> (Seq<char>, Seq<char>) {
    ("NamedRange_"@ + dec(k), "Sheet1!$A$"@ + dec(10 * k) + ":$A$"@ + dec(10 * k + 9))
}

impl S018NamedRanges100 {
    pub closed spec fn spec_scale(&self) -> Option<ScenarioScale> {
        self.scale.spec_scale()
    }

    pub fn new() -> (s: Self)
        ensures
            s.spec_scale() is None,
    {
        S018NamedRanges100 { scale: ScaleState::new() }
    }

    pub fn rows(scale: ScenarioScale) -> (r: u32)
        ensures
            r == standard_rows(scale),
    {
        standard_row_count(scale)
    }

    pub fn id(&self) -> (s: &'static str)
        ensures
            s@ == "s018-named-ranges-100"@,
    {
        "s018-named-ranges-100"
    }

    /// Records the scale and plans the inputs, the named ranges and the SUM
    /// family.
    pub fn build_fixture(&mut self, ctx: &ScenarioBuildCtx) -> (f: ScenarioFixture)
        ensures
            final(self).spec_scale() == Some(ctx.scale),
            f.path@ == spec_fixture_path(ctx.fixture_dir@, ctx.label@, "s018-named-ranges-100"@, ctx.scale),
            f.metadata == (FixtureMetadata {
                rows: if standard_rows(ctx.scale) >= 1_100 { standard_rows(ctx.scale) } else { 1_100 },
                cols: 2, sheets: 1, formula_cells: standard_rows(ctx.scale), value_cells: 1_100, has_named_ranges: true, has_tables: false,
            }),
    {
        self.scale.set(ctx.scale);
        let rows = Self::rows(ctx.scale);
        let path = fixture_path(ctx, self.id());
        ScenarioFixture {
            path,
            metadata: FixtureMetadata {
                rows: if rows >= S018_DATA_ROWS { rows } else { S018_DATA_ROWS },
                cols: 2, sheets: 1, formula_cells: rows, value_cells: S018_DATA_ROWS, has_named_ranges: true, has_tables: false,
            },
        }
    }

    /// Names and references of the hundred named ranges: range `k` covers
    /// `A{10k}:A{10k+9}`.
    pub fn named_ranges() -> (v: Vec<(String, String)>)
        ensures
            v@.len() == 100,
            forall|i: int| 0 <= i < 100 ==> (#[trigger] v@[i].0@, v@[i].1@) == s018_named_range((i + 1) as nat),
    {
        let mut v: Vec<(String, String)> = Vec::new();
        let mut k: u32 = 1;
        while k <= 100
            invariant
                1 <= k <= 101,
                v@.len() == k - 1,
                forall|i: int| 0 <= i < k - 1 ==> (#[trigger] v@[i].0@, v@[i].1@) == s018_named_range((i + 1) as nat),
            decreases 101 - k,
        {
            let mut name = chars_of("NamedRange_");
            push_chars(&mut name, &dec_chars(k as u64));
            let mut target = chars_of("Sheet1!$A$");
            push_chars(&mut target, &dec_chars((k * 10) as u64));
            push_str(&mut target, ":$A$");
            push_chars(&mut target, &dec_chars((k * 10 + 9) as u64));
            v.push((string_of(&name), string_of(&target)));
            k = k + 1;
        }
        v
    }

    /// Formula of row `row`: the SUM of named range `row mod 100 + 1`.
    pub fn sum_formula(row: u32) -> (s: String)
        ensures
            s@ == "=SUM(NamedRange_"@ + dec((row % 100 + 1) as nat) + ")"@,
    {
        let mut v = chars_of("=SUM(NamedRange_");
        push_chars(&mut v, &dec_chars((row % 100 + 1) as u64));
        push_str(&mut v, ")");
        string_of(&v)
    }

    pub fn edit_plan(&self) -> (p: EditPlan)
        ensures
            p.cycles == 5,
    {
        EditPlan { cycles: 5 }
    }

    /// Cycle `cycle` writes `1000 + cycle` into A at row
    /// `37 cycle mod 1100 + 1`.
    pub fn edit_writes(cycle: usize) -> (r: (Vec<CellWrite>, &'static str))
        ensures
            writes_match(r.0@, seq![CellWriteView { sheet: "Sheet1"@, row: row_37(cycle as nat, 1_100), col: 1, value: 1000 + cycle as int }]),
            r.1@ == "named_range_input"@,
    {
        let mut v: Vec<CellWrite> = Vec::new();
        push_write(&mut v, "Sheet1", row_37_u32(cycle, S018_DATA_ROWS), 1, 1000 + cycle as i128);
        (v, "named_range_input")
    }

    /// Column-A value of `row` after `completed_cycles` cycles.
    pub fn data_value(row: u32, completed_cycles: usize) -> (v: i128)
        requires
            completed_cycles < 0x1_0000_0000,
        ensures
            v == s018_data(row as nat, completed_cycles as nat),
            0 <= v <= 0x1_0000_0000_0000,
    {
        replay_value(row as i128, row, S018_DATA_ROWS, 1000, completed_cycles)
    }

    /// Sum of the named range used by formula row `formula_row`.
    pub fn named_range_sum(formula_row: u32, completed_cycles: usize) -> (v: i128)
        requires
            completed_cycles < 0x1_0000_0000,
        ensures
            v == s018_sum(formula_row as nat, completed_cycles as nat),
    {
        let start = (formula_row % 100 + 1) * 10;
        let ghost f = |i: nat| s018_data(s018_start(formula_row as nat) + i, completed_cycles as nat);
        let mut total: i128 = 0;
        let mut i: u32 = 0;
        while i < 10
            invariant
                0 <= i <= 10,
                start == s018_start(formula_row as nat),
                completed_cycles < 0x1_0000_0000,
                f == (|i: nat| s018_data(s018_start(formula_row as nat) + i, completed_cycles as nat)),
                total == sum_to(f, i as nat),
                0 <= total <= i * 0x1_0000_0000_0000,
            decreases 10 - i,
        {
            let v = Self::data_value(start + i, completed_cycles);
            total = total + v;
            i = i + 1;
        }
        total
    }

    /// No errors; once evaluated the first, middle and last formula rows
    /// show the sums of their named ranges.
    pub fn invariants(&self, phase: ScenarioPhase, global: Option<ScenarioScale>) -> (v: Vec<ScenarioInvariant>)
        requires
            phase_ok(phase),
            spec_completed_cycles(phase) < 0x1_0000_0000,
        ensures
            invariants_match(v@, s018_invariants(standard_rows(resolved_scale(self.spec_scale(), global)) as nat, phase)),
    {
        let rows = Self::rows(self.scale.get_or_small(global));
        let ghost spec = s018_invariants(rows as nat, phase);
        let mut v: Vec<ScenarioInvariant> = Vec::new();
        push_no_error(&mut v, "Sheet1");
        assert(spec.subrange(0, 1) =~= sheet1_no_error());
        if has_evaluated_formulas(phase) {
            let cycles = completed_cycles(phase);
            let sample = sample_rows(rows);
            let mut j: usize = 0;
            while j < 3
                invariant
                    0 <= j <= 3,
                    spec_has_evaluated(phase),
                    cycles as nat == spec_completed_cycles(phase),
                    cycles < 0x1_0000_0000,
                    sample@ == seq![1u32, if rows / 2 >= 1 { rows / 2 } else { 1 }, if rows >= 1 { rows } else { 1 }],
                    spec == s018_invariants(rows as nat, phase),
                    invariants_match(v@, spec.subrange(0, j + 1)),
                decreases 3 - j,
            {
                let row = sample[j];
                let total = Self::named_range_sum(row, cycles);
                push_cell_equals(&mut v, "Sheet1", row, 2, total);
                assert(s018_sample(rows as nat)[j as int] == row);
                assert(spec[j + 1] == InvariantView::CellEquals("Sheet1"@, row as nat, 2, total as int));
                j = j + 1;
            }
            assert(spec.subrange(0, 4) =~= spec);
        } else {
            assert(spec.subrange(0, 1) =~= spec);
        }
        v
    }
}

/// Rows of the S019 table.
pub const S019_TABLE_ROWS: u32 = 1_000;

/// A 1000-row table read through structured references: a total, a COUNTIF
/// and a SUMIFS over its columns.
pub struct S019TableWithStructuredRefs {
    scale: ScaleState,
}

/// Type label of table id `id`: `Type` and `id mod 3`.
pub open spec fn s019_type(id: nat) -> Seq<char> {
    if id % 3 == 0 { "Type0"@ } else if id % 3 == 1 { "Type1"@ } else { "Type2"@ }
}

/// Amount of id `id` after `c` cycles (ten times the id until edited).
pub open spec fn s019_amount(id: nat, c: nat) -> int {
    edited_value(10 * id as int, id, 1_000, 10_000, c)
}

/// Sum of the amounts of all ids whose type is `crit`.
pub open spec fn s019_sum_for_type(crit: Seq<char>, c: nat) -> int {
    sum_to(|i: nat| if s019_type(i + 1) == crit { s019_amount(i + 1, c) } else { 0 }, 1_000)
}

/// Total of all amounts.
pub open spec fn s019_total(c: nat) -> int {
    sum_to(|i: nat| s019_amount(i + 1, c), 1_000)
}

/// Number of ids of type `Type0`.
pub open spec fn s019_type0_count() -> int {
    sum_to(|i: nat| if s019_type(i + 1) == "Type0"@ { 1int } else { 0int }, 1_000)
}

pub open spec fn s019_invariants(phase: ScenarioPhase) -> Seq<InvariantView> {
    let c = spec_completed_cycles(phase);
    sheet1_no_error() + if spec_has_evaluated(phase) {
        seq![
            InvariantView::CellEquals("Sheet1"@, 1, 5, s019_total(c)),
            InvariantView::CellEquals("Sheet1"@, 2, 5, s019_type0_count()),
            InvariantView::CellEquals("Sheet1"@, 3, 5, s019_sum_for_type("Type1"@, c)),
        ]
    } else {
        Seq::empty()
    }
}

impl S019TableWithStructuredRefs {
    pub closed spec fn spec_scale(&self) -> Option<ScenarioScale> {
        self.scale.spec_scale()
    }

    pub fn new() -> (s: Self)
        ensures
            s.spec_scale() is None,
    {
        S019TableWithStructuredRefs { scale: ScaleState::new() }
    }

    pub fn id(&self) -> (s: &'static str)
        ensures
            s@ == "s019-table-with-structured-refs"@,
    {
        "s019-table-with-structured-refs"
    }

    /// Records the scale and plans the table and the three summary formulas.
    pub fn build_fixture(&mut self, ctx: &ScenarioBuildCtx) -> (f: ScenarioFixture)
        ensures
            final(self).spec_scale() == Some(ctx.scale),
            f.path@ == spec_fixture_path(ctx.fixture_dir@, ctx.label@, "s019-table-with-structured-refs"@, ctx.scale),
            f.metadata == (FixtureMetadata { rows: 1_001, cols: 5, sheets: 1, formula_cells: 3, value_cells: 3_003, has_named_ranges: false, has_tables: true }),
    {
        self.scale.set(ctx.scale);
        let path = fixture_path(ctx, self.id());
        ScenarioFixture {
            path,
            metadata: FixtureMetadata { rows: S019_TABLE_ROWS + 1, cols: 5, sheets: 1, formula_cells: 3, value_cells: 3 + S019_TABLE_ROWS * 3, has_named_ranges: false, has_tables: true },
        }
    }

    pub fn edit_plan(&self) -> (p: EditPlan)
        ensures
            p.cycles == 5,
    {
        EditPlan { cycles: 5 }
    }

    /// Cycle `cycle` writes `10000 + cycle` into the amount of table id
    /// `37 cycle mod 1000 + 1` (sheet row one below it).
    pub fn edit_writes(cycle: usize) -> (r: (Vec<CellWrite>, &'static str))
        ensures
            writes_match(r.0@, seq![CellWriteView { sheet: "Sheet1"@, row: row_37(cycle as nat, 1_000) + 1, col: 2, value: 10_000 + cycle as int }]),
            r.1@ == "table_amount"@,
    {
        let mut v: Vec<CellWrite> = Vec::new();
        push_write(&mut v, "Sheet1", row_37_u32(cycle, S019_TABLE_ROWS) + 1, 2, 10_000 + cycle as i128);
        (v, "table_amount")
    }

    /// Type label of table id `id`.
    pub fn data_type_for_id(id: u32) -> (s: &'static str)
        ensures
            s@ == s019_type(id as nat),
    {
        if id % 3 == 0 {
            "Type0"
        } else if id % 3 == 1 {
            "Type1"
        } else {
            "Type2"
        }
    }

    /// Amount of table id `id` after `completed_cycles` cycles.
    pub fn amount_for_id(id: u32, completed_cycles: usize) -> (v: i128)
        requires
            id <= 1_000,
            completed_cycles < 0x1_0000_0000,
        ensures
            v == s019_amount(id as nat, completed_cycles as nat),
            0 <= v <= 0x1_0000_0000_0000,
    {
        replay_value(10 * id as i128, id, S019_TABLE_ROWS, 10_000, completed_cycles)
    }

    /// Total of all amounts.
    pub fn total_amount(completed_cycles: usize) -> (v: i128)
        requires
            completed_cycles < 0x1_0000_0000,
        ensures
            v == s019_total(completed_cycles as nat),
    {
        let ghost f = |i: nat| s019_amount(i + 1, completed_cycles as nat);
        let mut total: i128 = 0;
        let mut id: u32 = 1;
        while id <= S019_TABLE_ROWS
            invariant
                1 <= id <= 1_001,
                completed_cycles < 0x1_0000_0000,
                f == (|i: nat| s019_amount(i + 1, completed_cycles as nat)),
                total == sum_to(f, (id - 1) as nat),
                0 <= total <= (id - 1) * 0x1_0000_0000_0000,
            decreases 1_001 - id,
        {
            total = total + Self::amount_for_id(id, completed_cycles);
            id = id + 1;
        }
        total
    }

    /// Number of ids whose type is `Type0`.
    pub fn type0_count() -> (v: i128)
        ensures
            v == s019_type0_count(),
    {
        let ghost f = |i: nat| if s019_type(i + 1) == "Type0"@ { 1int } else { 0int };
        let mut count: i128 = 0;
        let mut id: u32 = 1;
        while id <= S019_TABLE_ROWS
            invariant
                1 <= id <= 1_001,
                f == (|i: nat| if s019_type(i + 1) == "Type0"@ { 1int } else { 0int }),
                count == sum_to(f, (id - 1) as nat),
                0 <= count <= id - 1,
            decreases 1_001 - id,
        {
            if str_eq(Self::data_type_for_id(id), "Type0") {
                count = count + 1;
            }
            id = id + 1;
        }
        count
    }

    /// Sum of the amounts of ids whose type is `criteria`.
    pub fn sum_for_type(criteria: &str, completed_cycles: usize) -> (v: i128)
        requires
            completed_cycles < 0x1_0000_0000,
        ensures
            v == s019_sum_for_type(criteria@, completed_cycles as nat),
    {
        let ghost f = |i: nat| if s019_type(i + 1) == criteria@ { s019_amount(i + 1, completed_cycles as nat) } else { 0 };
        let mut total: i128 = 0;
        let mut id: u32 = 1;
        while id <= S019_TABLE_ROWS
            invariant
                1 <= id <= 1_001,
                completed_cycles < 0x1_0000_0000,
                f == (|i: nat| if s019_type(i + 1) == criteria@ { s019_amount(i + 1, completed_cycles as nat) } else { 0 }),
                total == sum_to(f, (id - 1) as nat),
                0 <= total <= (id - 1) * 0x1_0000_0000_0000,
            decreases 1_001 - id,
        {
            if str_eq(Self::data_type_for_id(id), criteria) {
                total = total + Self::amount_for_id(id, completed_cycles);
            }
            id = id + 1;
        }
        total
    }

    /// No errors; once evaluated E1 shows the total, E2 the `Type0` count and
    /// E3 the `Type1` sum.
    pub fn invariants(&self, phase: ScenarioPhase) -> (v: Vec<ScenarioInvariant>)
        requires
            phase_ok(phase),
            spec_completed_cycles(phase) < 0x1_0000_0000,
        ensures
            invariants_match(v@, s019_invariants(phase)),
    {
        let ghost spec = s019_invariants(phase);
        let mut v: Vec<ScenarioInvariant> = Vec::new();
        push_no_error(&mut v, "Sheet1");
        if has_evaluated_formulas(phase) {
            let cycles = completed_cycles(phase);
            push_cell_equals(&mut v, "Sheet1", 1, 5, Self::total_amount(cycles));
            push_cell_equals(&mut v, "Sheet1", 2, 5, Self::type0_count());
            push_cell_equals(&mut v, "Sheet1", 3, 5, Self::sum_for_type("Type1", cycles));
        }
        assert(invariants_match(v@, spec));
        v
    }
}

/// Sales rows and product rows of S020.
pub const S020_SALES_ROWS: u32 = 1_000;
pub const S020_PRODUCT_ROWS: u32 = 100;

/// A sales table and a products table; Sheet1 sums the sales of each
/// product with SUMIFS.
pub struct S020MultiTableCrossReferences {
    scale: ScaleState,
}

/// Product of sale `s`: sales cycle through the hundred products.
pub open spec fn s020_product(s: nat) -> nat {
    (((s - 1) as nat) % 100 + 1) as nat
}

/// Amount of sale `s` after `c` cycles.
pub open spec fn s020_amount(s: nat, c: nat) -> int {
    edited_value(10 * s as int, s, 1_000, 10_000, c)
}

/// Sum of the amounts of the sales of product `p`.
pub open spec fn s020_sum_for_product(p: nat, c: nat) -> int {
    sum_to(|i: nat| if s020_product(i + 1) == p { s020_amount(i + 1, c) } else { 0 }, 1_000)
}

pub open spec fn s020_invariants(phase: ScenarioPhase) -> Seq<InvariantView> {
    let c = spec_completed_cycles(phase);
    seq![
        InvariantView::NoErrorCells("Sales"@),
        InvariantView::NoErrorCells("Products"@),
        InvariantView::NoErrorCells("Sheet1"@),
    ] + if spec_has_evaluated(phase) {
        seq![
            InvariantView::CellEquals("Sheet1"@, 1, 1, s020_sum_for_product(1, c)),
            InvariantView::CellEquals("Sheet1"@, 50, 1, s020_sum_for_product(50, c)),
            InvariantView::CellEquals("Sheet1"@, 100, 1, s020_sum_for_product(100, c)),
        ]
    } else {
        Seq::empty()
    }
}

impl S020MultiTableCrossReferences {
    pub closed spec fn spec_scale(&self) -> Option<ScenarioScale> {
        self.scale.spec_scale()
    }

    pub fn new() -> (s: Self)
        ensures
            s.spec_scale() is None,
    {
        S020MultiTableCrossReferences { scale: ScaleState::new() }
    }

    pub fn id(&self) -> (s: &'static str)
        ensures
            s@ == "s020-multi-table-cross-references"@,
    {
        "s020-multi-table-cross-references"
    }

    /// Records the scale and plans both tables and the per-product SUMIFS.
    pub fn build_fixture(&mut self, ctx: &ScenarioBuildCtx) -> (f: ScenarioFixture)
        ensures
            final(self).spec_scale() == Some(ctx.scale),
            f.path@ == spec_fixture_path(ctx.fixture_dir@, ctx.label@, "s020-multi-table-cross-references"@, ctx.scale),
            f.metadata == (FixtureMetadata { rows: 1_001, cols: 3, sheets: 3, formula_cells: 100, value_cells: 3_306, has_named_ranges: false, has_tables: true }),
    {
        self.scale.set(ctx.scale);
        let path = fixture_path(ctx, self.id());
        ScenarioFixture {
            path,
            metadata: FixtureMetadata {
                rows: S020_SALES_ROWS + 1, cols: 3, sheets: 3, formula_cells: S020_PRODUCT_ROWS,
                value_cells: 3 + S020_SALES_ROWS * 3 + 3 + S020_PRODUCT_ROWS * 3, has_named_ranges: false, has_tables: true,
            },
        }
    }

    /// Formula of Sheet1 row `p`: the SUMIFS of product `p`'s sales plus a
    /// zero-weighted COUNTIF over the products table.
    pub fn product_formula(p: u32) -> (s: String)
        ensures
            s@ == "=SUMIFS(SalesTable[Amount], SalesTable[ProductID], "@ + dec(p as nat)
                + ") + COUNTIF(ProductsTable[ProductID], "@ + dec(p as nat) + ") * 0"@,
    {
        let d = dec_chars(p as u64);
        let mut v = chars_of("=SUMIFS(SalesTable[Amount], SalesTable[ProductID], ");
        push_chars(&mut v, &d);
        push_str(&mut v, ") + COUNTIF(ProductsTable[ProductID], ");
        push_chars(&mut v, &d);
        push_str(&mut v, ") * 0");
        string_of(&v)
    }

    pub fn edit_plan(&self) -> (p: EditPlan)
        ensures
            p.cycles == 5,
    {
        EditPlan { cycles: 5 }
    }

    /// Cycle `cycle` writes `10000 + cycle` into the amount of sale
    /// `37 cycle mod 1000 + 1` (Sales row one below it).
    pub fn edit_writes(cycle: usize) -> (r: (Vec<CellWrite>, &'static str))
        ensures
            writes_match(r.0@, seq![CellWriteView { sheet: "Sales"@, row: row_37(cycle as nat, 1_000) + 1, col: 3, value: 10_000 + cycle as int }]),
            r.1@ == "sales_amount"@,
    {
        let mut v: Vec<CellWrite> = Vec::new();
        push_write(&mut v, "Sales", row_37_u32(cycle, S020_SALES_ROWS) + 1, 3, 10_000 + cycle as i128);
        (v, "sales_amount")
    }

    /// Product of sale `sale_id`.
    pub fn product_id_for_sale(sale_id: u32) -> (p: u32)
        requires
            sale_id >= 1,
        ensures
            p == s020_product(sale_id as nat),
    {
        (sale_id - 1) % S020_PRODUCT_ROWS + 1
    }

    /// Amount of sale `sale_id` after `completed_cycles` cycles.
    pub fn amount_for_sale(sale_id: u32, completed_cycles: usize) -> (v: i128)
        requires
            sale_id <= 1_000,
            completed_cycles < 0x1_0000_0000,
        ensures
            v == s020_amount(sale_id as nat, completed_cycles as nat),
            0 <= v <= 0x1_0000_0000_0000,
    {
        replay_value(10 * sale_id as i128, sale_id, S020_SALES_ROWS, 10_000, completed_cycles)
    }

    /// Sum of the amounts of product `product_id`'s sales.
    pub fn sum_for_product(product_id: u32, completed_cycles: usize) -> (v: i128)
        requires
            completed_cycles < 0x1_0000_0000,
        ensures
            v == s020_sum_for_product(product_id as nat, completed_cycles as nat),
    {
        let ghost f = |i: nat| if s020_product(i + 1) == product_id { s020_amount(i + 1, completed_cycles as nat) } else { 0 };
        let mut total: i128 = 0;
        let mut sale: u32 = 1;
        while sale <= S020_SALES_ROWS
            invariant
                1 <= sale <= 1_001,
                completed_cycles < 0x1_0000_0000,
                f == (|i: nat| if s020_product(i + 1) == product_id { s020_amount(i + 1, completed_cycles as nat) } else { 0 }),
                total == sum_to(f, (sale - 1) as nat),
                0 <= total <= (sale - 1) * 0x1_0000_0000_0000,
            decreases 1_001 - sale,
        {
            if Self::product_id_for_sale(sale) == product_id {
                total = total + Self::amount_for_sale(sale, completed_cycles);
            }
            sale = sale + 1;
        }
        total
    }

    /// No errors on any tab; once evaluated products 1, 50 and 100 show the
    /// sums of their sales.
    pub fn invariants(&self, phase: ScenarioPhase) -> (v: Vec<ScenarioInvariant>)
        requires
            phase_ok(phase),
            spec_completed_cycles(phase) < 0x1_0000_0000,
        ensures
            invariants_match(v@, s020_invariants(phase)),
    {
        let ghost spec = s020_invariants(phase);
        let mut v: Vec<ScenarioInvariant> = Vec::new();
        push_no_error(&mut v, "Sales");
        push_no_error(&mut v, "Products");
        push_no_error(&mut v, "Sheet1");
        if has_evaluated_formulas(phase) {
            let cycles = completed_cycles(phase);
            push_cell_equals(&mut v, "Sheet1", 1, 1, Self::sum_for_product(1, cycles));
            push_cell_equals(&mut v, "Sheet1", 50, 1, Self::sum_for_product(50, cycles));
            push_cell_equals(&mut v, "Sheet1", 100, 1, Self::sum_for_product(100, cycles));
        }
        assert(invariants_match(v@, spec));
        v
    }
}

/* -------------------------------- tags -------------------------------- */

impl S018NamedRanges100 {
    pub fn tags(&self) -> (v: Vec<ScenarioTag>)
        ensures
            v@ == seq![ScenarioTag::NamedRanges, ScenarioTag::SingleCellEdit],
    {
        let v = vec![ScenarioTag::NamedRanges, ScenarioTag::SingleCellEdit];
        assert(v@ =~= seq![ScenarioTag::NamedRanges, ScenarioTag::SingleCellEdit]);
        v
    }
}

impl S019TableWithStructuredRefs {
    pub fn tags(&self) -> (v: Vec<ScenarioTag>)
        ensures
            v@ == seq![ScenarioTag::StructuredRefs, ScenarioTag::SingleCellEdit],
    {
        let v = vec![ScenarioTag::StructuredRefs, ScenarioTag::SingleCellEdit];
        assert(v@ =~= seq![ScenarioTag::StructuredRefs, ScenarioTag::SingleCellEdit]);
        v
    }
}

impl S020MultiTableCrossReferences {
    pub fn tags(&self) -> (v: Vec<ScenarioTag>)
        ensures
            v@ == seq![ScenarioTag::StructuredRefs, ScenarioTag::CrossSheet, ScenarioTag::SingleCellEdit],
    {
        let v = vec![ScenarioTag::StructuredRefs, ScenarioTag::CrossSheet, ScenarioTag::SingleCellEdit];
        assert(v@ =~= seq![ScenarioTag::StructuredRefs, ScenarioTag::CrossSheet, ScenarioTag::SingleCellEdit]);
        v
    }
}

} // verus!
