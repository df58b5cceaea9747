//! The cells each scenario writes into its fixture workbook, in writing
//! order.

use vstd::prelude::*;
use crate::a1::{col_letter, col_letters};
use crate::plan::{
    CellView, Piece, PlannedCell, WorkbookPlan, cells_view, dec_cell, flat, formula_cell, lemma_flat_at, lemma_flat_next,
    names_view, num_cell, pieces_text, push_dec, push_formula, push_lit, push_num, push_pieces, push_text,
    sheet_names, table_plan, table_view, text_cell, TablePlan, TableView,
};
use crate::scenarios::s_calc::{S029CalcTab200ComplexCells, S030CalcAndDataTabsMixed, s029_formula, s030_formula};
use crate::scenarios::s_data::{S013SumifsFamilyConstantCriteria, s013_type};
use crate::scenarios::s_tables::{S018NamedRanges100, S019TableWithStructuredRefs, S020MultiTableCrossReferences, s018_named_range, s019_type, s020_product};
use crate::scenarios::s_simple::{s008_a1, s008_invariants};
use crate::scenarios::common::{InvariantView, ScenarioPhase, spec_completed_cycles, spec_has_evaluated};
use crate::scenarios::s_bulk::{S046GiantAstFormula200Deps, s045_initial, s046_formula};
use crate::text::{chars_of, dec, dec_chars, owned, push_chars, push_str, string_of, zero_pad};
use crate::corpus::zero_padded;

verus! {

/// A one-sheet plan.
pub open spec fn one_sheet() -> Seq<Seq<char>> {
    seq!["Sheet1"@]
}

/// `={col}{r}{tail}`.
pub open spec fn ref_then(col: &'static str, r: nat, tail: &'static str) -> Seq<char> {
    pieces_text(seq![Piece::Lit(col), Piece::Num(r as u64), Piece::Lit(tail)])
}

fn push_ref_then(cells: &mut Vec<PlannedCell>, sheet: usize, row: u32, col: u32, head: &'static str, r: u32, tail: &'static str)
    ensures
        cells_view(final(cells)@) == cells_view(old(cells)@).push(formula_cell(sheet as nat, row as nat, col as nat, ref_then(head, r as nat, tail))),
{
    push_pieces(cells, sheet, row, col, vec![Piece::Lit(head), Piece::Num(r as u64), Piece::Lit(tail)]);
}

/* -------------------------------- S001 -------------------------------- */

/// Grid row `i`: cell `(r, c)` holds `r / 1000 + c`.
pub open spec fn grid_step(cols: nat) -> spec_fn(nat) -> Seq<CellView> {
    |i: nat| Seq::new(cols, |j: int| dec_cell(0, i + 1, (j + 1) as nat, (i + 1) + 1000 * (j + 1), 3))
}

/// The static grid of `rows` by `cols` values.
pub fn s001_fixture(rows: u32, cols: u32) -> (p: WorkbookPlan)
    requires
        rows < u32::MAX,
        cols <= 1000,
    ensures
        names_view(p.sheets@) == one_sheet(),
        cells_view(p.cells@) == flat(rows as nat, grid_step(cols as nat)),
{
    let sheets = sheet_names(vec!["Sheet1"]);
    let mut cells: Vec<PlannedCell> = Vec::new();
    assert(cells_view(cells@) =~= flat(0, grid_step(cols as nat)));
    let mut i: u32 = 0;
    while i < rows
        invariant
            0 <= i <= rows < u32::MAX,
            cols <= 1000,
            cells_view(cells@) == flat(i as nat, grid_step(cols as nat)),
        decreases rows - i,
    {
        let ghost o = cells_view(cells@);
        let mut c: u32 = 0;
        while c < cols
            invariant
                0 <= c <= cols <= 1000,
                i < rows < u32::MAX,
                cells_view(cells@) == o + Seq::new(c as nat, |j: int| dec_cell(0, (i + 1) as nat, (j + 1) as nat, (i + 1) + 1000 * (j + 1), 3)),
            decreases cols - c,
        {
            push_dec(&mut cells, 0, i + 1, c + 1, (i + 1) as i64 + 1000 * (c + 1) as i64, 3);
            c = c + 1;
            assert(cells_view(cells@) =~= o + Seq::new(c as nat, |j: int| dec_cell(0, (i + 1) as nat, (j + 1) as nat, (i + 1) + 1000 * (j + 1), 3)));
        }
        proof {
            lemma_flat_next(i as nat, grid_step(cols as nat));
            assert(cells_view(cells@) =~= flat((i + 1) as nat, grid_step(cols as nat)));
        }
        i = i + 1;
    }
    WorkbookPlan { sheets, cells }
}

/* --------------------------- row families ---------------------------- */

/// Row `i` (row `r = i + 1`) of S002: `A = r`, `B = A * 2`.
/// S033 (with its buffer rows), S038, S039 and S040 write this family too.
pub open spec fn s002_step() -> spec_fn(nat) -> Seq<CellView> {
    |i: nat| seq![num_cell(0, i + 1, 1, (i + 1) as int), formula_cell(0, i + 1, 2, ref_then("=A", i + 1, "*2"))]
}

pub fn s002_fixture(rows: u32) -> (p: WorkbookPlan)
    requires
        rows < u32::MAX,
    ensures
        names_view(p.sheets@) == one_sheet(),
        cells_view(p.cells@) == flat(rows as nat, s002_step()),
{
    let sheets = sheet_names(vec!["Sheet1"]);
    let mut cells: Vec<PlannedCell> = Vec::new();
    assert(cells_view(cells@) =~= flat(0, s002_step()));
    let mut i: u32 = 0;
    while i < rows
        invariant
            0 <= i <= rows < u32::MAX,
            cells_view(cells@) == flat(i as nat, s002_step()),
        decreases rows - i,
    {
        let r = i + 1;
        push_num(&mut cells, 0, r, 1, r as i64);
        push_ref_then(&mut cells, 0, r, 2, "=A", r, "*2");
        proof {
            lemma_flat_next(i as nat, s002_step());
            assert(cells_view(cells@) =~= flat((i + 1) as nat, s002_step()));
        }
        i = i + 1;
    }
    WorkbookPlan { sheets, cells }
}

/// Row `i` of S003: units `r`, price `10 + i mod 17`, line
/// `A * B * $F$1`.
pub open spec fn s003_step() -> spec_fn(nat) -> Seq<CellView> {
    |i: nat| {
        let r = i + 1;
        seq![num_cell(0, r, 1, r as int), num_cell(0, r, 2, 10 + (i % 17) as int),
            formula_cell(0, r, 3, pieces_text(seq![Piece::Lit("=A"), Piece::Num(r as u64), Piece::Lit("*B"), Piece::Num(r as u64), Piece::Lit("*$F$1")]))]
    }
}

/// S003: the line family, the multiplier `F1 = 1` and the roll-up in `G1`.
pub open spec fn s003_cells(rows: nat) -> Seq<CellView> {
    flat(rows, s003_step()) + seq![num_cell(0, 1, 6, 1), formula_cell(0, 1, 7, ref_then("=SUM(C1:C", rows, ")"))]
}

pub fn s003_fixture(rows: u32) -> (p: WorkbookPlan)
    requires
        rows < u32::MAX,
    ensures
        names_view(p.sheets@) == one_sheet(),
        cells_view(p.cells@) == s003_cells(rows as nat),
{
    let sheets = sheet_names(vec!["Sheet1"]);
    let mut cells: Vec<PlannedCell> = Vec::new();
    assert(cells_view(cells@) =~= flat(0, s003_step()));
    let mut i: u32 = 0;
    while i < rows
        invariant
            0 <= i <= rows < u32::MAX,
            cells_view(cells@) == flat(i as nat, s003_step()),
        decreases rows - i,
    {
        let r = i + 1;
        push_num(&mut cells, 0, r, 1, r as i64);
        push_num(&mut cells, 0, r, 2, 10 + (i % 17) as i64);
        push_pieces(&mut cells, 0, r, 3, vec![Piece::Lit("=A"), Piece::Num(r as u64), Piece::Lit("*B"), Piece::Num(r as u64), Piece::Lit("*$F$1")]);
        proof {
            lemma_flat_next(i as nat, s003_step());
            assert(cells_view(cells@) =~= flat((i + 1) as nat, s003_step()));
        }
        i = i + 1;
    }
    push_num(&mut cells, 0, 1, 6, 1);
    push_ref_then(&mut cells, 0, 1, 7, "=SUM(C1:C", rows, ")");
    assert(cells_view(cells@) =~= s003_cells(rows as nat));
    WorkbookPlan { sheets, cells }
}

/// Row `i` of S004: `A = r` and five families over it.
pub open spec fn s004_step() -> spec_fn(nat) -> Seq<CellView> {
    |i: nat| {
        let r = i + 1;
        seq![num_cell(0, r, 1, r as int), formula_cell(0, r, 2, ref_then("=A", r, "+1")), formula_cell(0, r, 3, ref_then("=A", r, "*2")),
            formula_cell(0, r, 4, ref_then("=A", r, "-3")), formula_cell(0, r, 5, ref_then("=A", r, "/2")),
            formula_cell(0, r, 6, pieces_text(seq![Piece::Lit("=A"), Piece::Num(r as u64), Piece::Lit("+B"), Piece::Num(r as u64)]))]
    }
}

pub fn s004_fixture(rows: u32) -> (p: WorkbookPlan)
    requires
        rows < u32::MAX,
    ensures
        names_view(p.sheets@) == one_sheet(),
        cells_view(p.cells@) == flat(rows as nat, s004_step()),
{
    let sheets = sheet_names(vec!["Sheet1"]);
    let mut cells: Vec<PlannedCell> = Vec::new();
    assert(cells_view(cells@) =~= flat(0, s004_step()));
    let mut i: u32 = 0;
    while i < rows
        invariant
            0 <= i <= rows < u32::MAX,
            cells_view(cells@) == flat(i as nat, s004_step()),
        decreases rows - i,
    {
        let r = i + 1;
        push_num(&mut cells, 0, r, 1, r as i64);
        push_ref_then(&mut cells, 0, r, 2, "=A", r, "+1");
        push_ref_then(&mut cells, 0, r, 3, "=A", r, "*2");
        push_ref_then(&mut cells, 0, r, 4, "=A", r, "-3");
        push_ref_then(&mut cells, 0, r, 5, "=A", r, "/2");
        push_pieces(&mut cells, 0, r, 6, vec![Piece::Lit("=A"), Piece::Num(r as u64), Piece::Lit("+B"), Piece::Num(r as u64)]);
        proof {
            lemma_flat_next(i as nat, s004_step());
            assert(cells_view(cells@) =~= flat((i + 1) as nat, s004_step()));
        }
        i = i + 1;
    }
    WorkbookPlan { sheets, cells }
}

/// Row `i` of S008: two anchored formulas.
pub open spec fn s008_step() -> spec_fn(nat) -> Seq<CellView> {
    |i: nat| seq![formula_cell(0, i + 1, 2, "=$A$1+1"@), formula_cell(0, i + 1, 3, "=$A$1*2"@)]
}

/// S008: the anchor `A1 = 1`, then the two families over `rows` rows.
pub open spec fn s008_cells(rows: nat) -> Seq<CellView> {
    seq![num_cell(0, 1, 1, 1)] + flat(rows, s008_step())
}

pub fn s008_fixture(rows: u32) -> (p: WorkbookPlan)
    requires
        rows < u32::MAX,
    ensures
        names_view(p.sheets@) == one_sheet(),
        cells_view(p.cells@) == s008_cells(rows as nat),
{
    let sheets = sheet_names(vec!["Sheet1"]);
    let mut cells: Vec<PlannedCell> = Vec::new();
    push_num(&mut cells, 0, 1, 1, 1);
    let ghost h = cells_view(cells@);
    assert(cells_view(cells@) =~= h + flat(0, s008_step()));
    let mut i: u32 = 0;
    while i < rows
        invariant
            0 <= i <= rows < u32::MAX,
            cells_view(cells@) == h + flat(i as nat, s008_step()),
        decreases rows - i,
    {
        push_formula(&mut cells, 0, i + 1, 2, owned("=$A$1+1"));
        push_formula(&mut cells, 0, i + 1, 3, owned("=$A$1*2"));
        proof {
            lemma_flat_next(i as nat, s008_step());
            assert(cells_view(cells@) =~= h + flat((i + 1) as nat, s008_step()));
        }
        i = i + 1;
    }
    WorkbookPlan { sheets, cells }
}

/// Row `i` of S022: `A = r`, an OFFSET and an INDIRECT read of column A.
pub open spec fn s022_step() -> spec_fn(nat) -> Seq<CellView> {
    |i: nat| {
        let r = i + 1;
        seq![num_cell(0, r, 1, r as int), formula_cell(0, r, 2, ref_then("=OFFSET($A$1, ", i, ", 0) * 2")),
            formula_cell(0, r, 3, ref_then("=INDIRECT(\"A\" & ", r, ") + 100"))]
    }
}

pub fn s022_fixture(rows: u32) -> (p: WorkbookPlan)
    requires
        rows < u32::MAX,
    ensures
        names_view(p.sheets@) == one_sheet(),
        cells_view(p.cells@) == flat(rows as nat, s022_step()),
{
    let sheets = sheet_names(vec!["Sheet1"]);
    let mut cells: Vec<PlannedCell> = Vec::new();
    assert(cells_view(cells@) =~= flat(0, s022_step()));
    let mut i: u32 = 0;
    while i < rows
        invariant
            0 <= i <= rows < u32::MAX,
            cells_view(cells@) == flat(i as nat, s022_step()),
        decreases rows - i,
    {
        let r = i + 1;
        push_num(&mut cells, 0, r, 1, r as i64);
        push_ref_then(&mut cells, 0, r, 2, "=OFFSET($A$1, ", i, ", 0) * 2");
        push_ref_then(&mut cells, 0, r, 3, "=INDIRECT(\"A\" & ", r, ") + 100");
        proof {
            lemma_flat_next(i as nat, s022_step());
            assert(cells_view(cells@) =~= flat((i + 1) as nat, s022_step()));
        }
        i = i + 1;
    }
    WorkbookPlan { sheets, cells }
}

/// Row `i` of S023: every tenth input is left empty.
pub open spec fn s023_step() -> spec_fn(nat) -> Seq<CellView> {
    |i: nat| {
        let r = i + 1;
        if r % 10 != 0 {
            seq![num_cell(0, r, 1, r as int), formula_cell(0, r, 2, ref_then("=A", r, "*2"))]
        } else {
            seq![formula_cell(0, r, 2, ref_then("=A", r, "*2"))]
        }
    }
}

pub fn s023_fixture(rows: u32) -> (p: WorkbookPlan)
    requires
        rows < u32::MAX,
    ensures
        names_view(p.sheets@) == one_sheet(),
        cells_view(p.cells@) == flat(rows as nat, s023_step()),
{
    let sheets = sheet_names(vec!["Sheet1"]);
    let mut cells: Vec<PlannedCell> = Vec::new();
    assert(cells_view(cells@) =~= flat(0, s023_step()));
    let mut i: u32 = 0;
    while i < rows
        invariant
            0 <= i <= rows < u32::MAX,
            cells_view(cells@) == flat(i as nat, s023_step()),
        decreases rows - i,
    {
        let r = i + 1;
        if r % 10 != 0 {
            push_num(&mut cells, 0, r, 1, r as i64);
        }
        push_ref_then(&mut cells, 0, r, 2, "=A", r, "*2");
        proof {
            lemma_flat_next(i as nat, s023_step());
            assert(cells_view(cells@) =~= flat((i + 1) as nat, s023_step()));
        }
        i = i + 1;
    }
    WorkbookPlan { sheets, cells }
}

/// S047: a 2000-cell chain down column A from `A1 = 1`.
pub open spec fn s047_cells() -> Seq<CellView> {
    crate::corpus_gen::chain_cells(2_000)
}

pub fn s047_fixture() -> (p: WorkbookPlan)
    ensures
        names_view(p.sheets@) == one_sheet(),
        cells_view(p.cells@) == s047_cells(),
{
    crate::corpus_gen::chain_plan(2_000)
}

/* ---------------------------- data sheets ---------------------------- */

/// Data row `i` (row `r = i + 1`) of S013: the type and the value `r`.
pub open spec fn s013_data_step() -> spec_fn(nat) -> Seq<CellView> {
    |i: nat| seq![text_cell(1, i + 1, 1, s013_type(i + 1)), num_cell(1, i + 1, 2, (i + 1) as int)]
}

/// Formula row `i` of S013: the same SUMIFS over the data.
pub open spec fn s013_formula_step() -> spec_fn(nat) -> Seq<CellView> {
    |i: nat| seq![formula_cell(0, i + 1, 1, "=SUMIFS(Data!$B$1:$B$10000, Data!$A$1:$A$10000, \"Type1\")"@)]
}

pub fn s013_fixture(rows: u32) -> (p: WorkbookPlan)
    requires
        rows < u32::MAX,
    ensures
        names_view(p.sheets@) == seq!["Sheet1"@, "Data"@],
        cells_view(p.cells@) == flat(10_000, s013_data_step()) + flat(rows as nat, s013_formula_step()),
{
    let sheets = sheet_names(vec!["Sheet1", "Data"]);
    let mut cells: Vec<PlannedCell> = Vec::new();
    assert(cells_view(cells@) =~= flat(0, s013_data_step()));
    let mut i: u32 = 0;
    while i < 10_000
        invariant
            0 <= i <= 10_000,
            cells_view(cells@) == flat(i as nat, s013_data_step()),
        decreases 10_000 - i,
    {
        push_lit(&mut cells, 1, i + 1, 1, S013SumifsFamilyConstantCriteria::data_type(i + 1));
        push_num(&mut cells, 1, i + 1, 2, (i + 1) as i64);
        proof {
            lemma_flat_next(i as nat, s013_data_step());
            assert(cells_view(cells@) =~= flat((i + 1) as nat, s013_data_step()));
        }
        i = i + 1;
    }
    let ghost d = cells_view(cells@);
    assert(cells_view(cells@) =~= d + flat(0, s013_formula_step()));
    i = 0;
    while i < rows
        invariant
            0 <= i <= rows < u32::MAX,
            cells_view(cells@) == d + flat(i as nat, s013_formula_step()),
        decreases rows - i,
    {
        push_formula(&mut cells, 0, i + 1, 1, owned("=SUMIFS(Data!$B$1:$B$10000, Data!$A$1:$A$10000, \"Type1\")"));
        proof {
            lemma_flat_next(i as nat, s013_formula_step());
            assert(cells_view(cells@) =~= d + flat((i + 1) as nat, s013_formula_step()));
        }
        i = i + 1;
    }
    WorkbookPlan { sheets, cells }
}

/// Lookup row `i` of S015: key `r`, value `10 r + 5`.
pub open spec fn s015_lookup_step() -> spec_fn(nat) -> Seq<CellView> {
    |i: nat| seq![num_cell(1, i + 1, 1, (i + 1) as int), num_cell(1, i + 1, 2, (10 * (i + 1) + 5) as int)]
}

/// Query row `i` of S015: the key `(r - 1) mod 1000 + 1` and an
/// INDEX/MATCH over the lookup table.
pub open spec fn s015_query_step() -> spec_fn(nat) -> Seq<CellView> {
    |i: nat| seq![num_cell(0, i + 1, 1, ((i % 1_000) + 1) as int),
        formula_cell(0, i + 1, 2, ref_then("=INDEX(Lookup!$B$1:$B$1000, MATCH(A", i + 1, ", Lookup!$A$1:$A$1000, 0))"))]
}

pub fn s015_fixture(rows: u32) -> (p: WorkbookPlan)
    requires
        rows < u32::MAX,
    ensures
        names_view(p.sheets@) == seq!["Sheet1"@, "Lookup"@],
        cells_view(p.cells@) == flat(1_000, s015_lookup_step()) + flat(rows as nat, s015_query_step()),
{
    let sheets = sheet_names(vec!["Sheet1", "Lookup"]);
    let mut cells: Vec<PlannedCell> = Vec::new();
    assert(cells_view(cells@) =~= flat(0, s015_lookup_step()));
    let mut i: u32 = 0;
    while i < 1_000
        invariant
            0 <= i <= 1_000,
            cells_view(cells@) == flat(i as nat, s015_lookup_step()),
        decreases 1_000 - i,
    {
        push_num(&mut cells, 1, i + 1, 1, (i + 1) as i64);
        push_num(&mut cells, 1, i + 1, 2, 10 * (i + 1) as i64 + 5);
        proof {
            lemma_flat_next(i as nat, s015_lookup_step());
            assert(cells_view(cells@) =~= flat((i + 1) as nat, s015_lookup_step()));
        }
        i = i + 1;
    }
    let ghost d = cells_view(cells@);
    assert(cells_view(cells@) =~= d + flat(0, s015_query_step()));
    i = 0;
    while i < rows
        invariant
            0 <= i <= rows < u32::MAX,
            cells_view(cells@) == d + flat(i as nat, s015_query_step()),
        decreases rows - i,
    {
        push_num(&mut cells, 0, i + 1, 1, ((i % 1_000) + 1) as i64);
        push_ref_then(&mut cells, 0, i + 1, 2, "=INDEX(Lookup!$B$1:$B$1000, MATCH(A", i + 1, ", Lookup!$A$1:$A$1000, 0))");
        proof {
            lemma_flat_next(i as nat, s015_query_step());
            assert(cells_view(cells@) =~= d + flat((i + 1) as nat, s015_query_step()));
        }
        i = i + 1;
    }
    WorkbookPlan { sheets, cells }
}

/// Data rows of S016: numbers on `Data1`, texts `text-{r}` on `Data2`.
pub open spec fn s016_data1_step() -> spec_fn(nat) -> Seq<CellView> {
    |i: nat| seq![num_cell(1, i + 1, 1, (i + 1) as int)]
}

pub open spec fn s016_data2_step() -> spec_fn(nat) -> Seq<CellView> {
    |i: nat| seq![text_cell(2, i + 1, 1, pieces_text(seq![Piece::Lit("text-"), Piece::Num((i + 1) as u64)]))]
}

/// Formula rows of S016 on `Calc1`, `Calc2` and `Sheet1`.
pub open spec fn s016_calc1_step() -> spec_fn(nat) -> Seq<CellView> {
    |i: nat| seq![formula_cell(3, i + 1, 1, ref_then("=Data1!A", i + 1, " * 2"))]
}

pub open spec fn s016_calc2_step() -> spec_fn(nat) -> Seq<CellView> {
    |i: nat| seq![formula_cell(4, i + 1, 1, ref_then("=LEN(Data2!A", i + 1, ")"))]
}

pub open spec fn s016_sheet1_step() -> spec_fn(nat) -> Seq<CellView> {
    |i: nat| seq![formula_cell(0, i + 1, 1, pieces_text(seq![Piece::Lit("=Calc1!A"), Piece::Num((i + 1) as u64), Piece::Lit(" + Calc2!A"), Piece::Num((i + 1) as u64)]))]
}

pub open spec fn s016_cells(rows: nat) -> Seq<CellView> {
    flat(10_000, s016_data1_step()) + flat(10_000, s016_data2_step()) + flat(rows, s016_calc1_step())
        + flat(rows, s016_calc2_step()) + flat(rows, s016_sheet1_step())
}

pub fn s016_fixture(rows: u32) -> (p: WorkbookPlan)
    requires
        rows < u32::MAX,
    ensures
        names_view(p.sheets@) == seq!["Sheet1"@, "Data1"@, "Data2"@, "Calc1"@, "Calc2"@],
        cells_view(p.cells@) == s016_cells(rows as nat),
{
    let sheets = sheet_names(vec!["Sheet1", "Data1", "Data2", "Calc1", "Calc2"]);
    let mut cells: Vec<PlannedCell> = Vec::new();
    assert(cells_view(cells@) =~= flat(0, s016_data1_step()));
    let mut i: u32 = 0;
    while i < 10_000
        invariant
            0 <= i <= 10_000,
            cells_view(cells@) == flat(i as nat, s016_data1_step()),
        decreases 10_000 - i,
    {
        push_num(&mut cells, 1, i + 1, 1, (i + 1) as i64);
        proof {
            lemma_flat_next(i as nat, s016_data1_step());
            assert(cells_view(cells@) =~= flat((i + 1) as nat, s016_data1_step()));
        }
        i = i + 1;
    }
    let ghost a = cells_view(cells@);
    assert(cells_view(cells@) =~= a + flat(0, s016_data2_step()));
    i = 0;
    while i < 10_000
        invariant
            0 <= i <= 10_000,
            cells_view(cells@) == a + flat(i as nat, s016_data2_step()),
        decreases 10_000 - i,
    {
        push_text(&mut cells, 2, i + 1, 1, crate::plan::render(vec![Piece::Lit("text-"), Piece::Num((i + 1) as u64)]));
        proof {
            lemma_flat_next(i as nat, s016_data2_step());
            assert(cells_view(cells@) =~= a + flat((i + 1) as nat, s016_data2_step()));
        }
        i = i + 1;
    }
    let ghost b = cells_view(cells@);
    assert(cells_view(cells@) =~= b + flat(0, s016_calc1_step()));
    i = 0;
    while i < rows
        invariant
            0 <= i <= rows < u32::MAX,
            cells_view(cells@) == b + flat(i as nat, s016_calc1_step()),
        decreases rows - i,
    {
        push_ref_then(&mut cells, 3, i + 1, 1, "=Data1!A", i + 1, " * 2");
        proof {
            lemma_flat_next(i as nat, s016_calc1_step());
            assert(cells_view(cells@) =~= b + flat((i + 1) as nat, s016_calc1_step()));
        }
        i = i + 1;
    }
    let ghost c = cells_view(cells@);
    assert(cells_view(cells@) =~= c + flat(0, s016_calc2_step()));
    i = 0;
    while i < rows
        invariant
            0 <= i <= rows < u32::MAX,
            cells_view(cells@) == c + flat(i as nat, s016_calc2_step()),
        decreases rows - i,
    {
        push_ref_then(&mut cells, 4, i + 1, 1, "=LEN(Data2!A", i + 1, ")");
        proof {
            lemma_flat_next(i as nat, s016_calc2_step());
            assert(cells_view(cells@) =~= c + flat((i + 1) as nat, s016_calc2_step()));
        }
        i = i + 1;
    }
    let ghost d = cells_view(cells@);
    assert(cells_view(cells@) =~= d + flat(0, s016_sheet1_step()));
    i = 0;
    while i < rows
        invariant
            0 <= i <= rows < u32::MAX,
            cells_view(cells@) == d + flat(i as nat, s016_sheet1_step()),
        decreases rows - i,
    {
        push_pieces(&mut cells, 0, i + 1, 1, vec![Piece::Lit("=Calc1!A"), Piece::Num((i + 1) as u64), Piece::Lit(" + Calc2!A"), Piece::Num((i + 1) as u64)]);
        proof {
            lemma_flat_next(i as nat, s016_sheet1_step());
            assert(cells_view(cells@) =~= d + flat((i + 1) as nat, s016_sheet1_step()));
        }
        i = i + 1;
    }
    assert(cells_view(cells@) =~= s016_cells(rows as nat));
    WorkbookPlan { sheets, cells }
}

/// Data row `i` of S029 on the renamed first sheet `Data`: id, value
/// `10 r + 5`, type.
pub open spec fn s029_data_step() -> spec_fn(nat) -> Seq<CellView> {
    |i: nat| seq![num_cell(0, i + 1, 1, (i + 1) as int), num_cell(0, i + 1, 2, (10 * (i + 1) + 5) as int), text_cell(0, i + 1, 3, s019_type(i + 1))]
}

pub open spec fn s029_calc_step() -> spec_fn(nat) -> Seq<CellView> {
    |i: nat| seq![formula_cell(1, i + 1, 1, s029_formula(i + 1))]
}

pub fn s029_fixture() -> (p: WorkbookPlan)
    ensures
        names_view(p.sheets@) == seq!["Data"@, "Calc"@],
        cells_view(p.cells@) == flat(1_000, s029_data_step()) + flat(200, s029_calc_step()),
{
    let sheets = sheet_names(vec!["Data", "Calc"]);
    let mut cells: Vec<PlannedCell> = Vec::new();
    assert(cells_view(cells@) =~= flat(0, s029_data_step()));
    let mut i: u32 = 0;
    while i < 1_000
        invariant
            0 <= i <= 1_000,
            cells_view(cells@) == flat(i as nat, s029_data_step()),
        decreases 1_000 - i,
    {
        push_num(&mut cells, 0, i + 1, 1, (i + 1) as i64);
        push_num(&mut cells, 0, i + 1, 2, 10 * (i + 1) as i64 + 5);
        push_lit(&mut cells, 0, i + 1, 3, S019TableWithStructuredRefs::data_type_for_id(i + 1));
        proof {
            lemma_flat_next(i as nat, s029_data_step());
            assert(cells_view(cells@) =~= flat((i + 1) as nat, s029_data_step()));
        }
        i = i + 1;
    }
    let ghost d = cells_view(cells@);
    assert(cells_view(cells@) =~= d + flat(0, s029_calc_step()));
    i = 0;
    while i < 200
        invariant
            0 <= i <= 200,
            cells_view(cells@) == d + flat(i as nat, s029_calc_step()),
        decreases 200 - i,
    {
        push_formula(&mut cells, 1, i + 1, 1, S029CalcTab200ComplexCells::calc_formula(i + 1));
        proof {
            lemma_flat_next(i as nat, s029_calc_step());
            assert(cells_view(cells@) =~= d + flat((i + 1) as nat, s029_calc_step()));
        }
        i = i + 1;
    }
    WorkbookPlan { sheets, cells }
}

/// Data row `i` of S030: id, `2 r`, type.
pub open spec fn s030_data_step() -> spec_fn(nat) -> Seq<CellView> {
    |i: nat| seq![num_cell(0, i + 1, 1, (i + 1) as int), num_cell(0, i + 1, 2, (2 * (i + 1)) as int), text_cell(0, i + 1, 3, s019_type(i + 1))]
}

pub open spec fn s030_family_step() -> spec_fn(nat) -> Seq<CellView> {
    |i: nat| seq![formula_cell(1, i + 1, 1, pieces_text(seq![Piece::Lit("=Data!A"), Piece::Num((i + 1) as u64), Piece::Lit(" * 2 + Data!B"), Piece::Num((i + 1) as u64)]))]
}

pub open spec fn s030_calc_step() -> spec_fn(nat) -> Seq<CellView> {
    |i: nat| seq![formula_cell(2, i + 1, 1, s030_formula(i + 1))]
}

pub open spec fn s030_cells(rows: nat) -> Seq<CellView> {
    flat(2_000, s030_data_step()) + flat(rows, s030_family_step()) + flat(200, s030_calc_step())
}

pub fn s030_fixture(rows: u32) -> (p: WorkbookPlan)
    requires
        rows < u32::MAX,
    ensures
        names_view(p.sheets@) == seq!["Data"@, "Family"@, "Calc"@],
        cells_view(p.cells@) == s030_cells(rows as nat),
{
    let sheets = sheet_names(vec!["Data", "Family", "Calc"]);
    let mut cells: Vec<PlannedCell> = Vec::new();
    assert(cells_view(cells@) =~= flat(0, s030_data_step()));
    let mut i: u32 = 0;
    while i < 2_000
        invariant
            0 <= i <= 2_000,
            cells_view(cells@) == flat(i as nat, s030_data_step()),
        decreases 2_000 - i,
    {
        push_num(&mut cells, 0, i + 1, 1, (i + 1) as i64);
        push_num(&mut cells, 0, i + 1, 2, 2 * (i + 1) as i64);
        push_lit(&mut cells, 0, i + 1, 3, S019TableWithStructuredRefs::data_type_for_id(i + 1));
        proof {
            lemma_flat_next(i as nat, s030_data_step());
            assert(cells_view(cells@) =~= flat((i + 1) as nat, s030_data_step()));
        }
        i = i + 1;
    }
    let ghost d = cells_view(cells@);
    assert(cells_view(cells@) =~= d + flat(0, s030_family_step()));
    i = 0;
    while i < rows
        invariant
            0 <= i <= rows < u32::MAX,
            cells_view(cells@) == d + flat(i as nat, s030_family_step()),
        decreases rows - i,
    {
        push_pieces(&mut cells, 1, i + 1, 1, vec![Piece::Lit("=Data!A"), Piece::Num((i + 1) as u64), Piece::Lit(" * 2 + Data!B"), Piece::Num((i + 1) as u64)]);
        proof {
            lemma_flat_next(i as nat, s030_family_step());
            assert(cells_view(cells@) =~= d + flat((i + 1) as nat, s030_family_step()));
        }
        i = i + 1;
    }
    let ghost f = cells_view(cells@);
    assert(cells_view(cells@) =~= f + flat(0, s030_calc_step()));
    i = 0;
    while i < 200
        invariant
            0 <= i <= 200,
            cells_view(cells@) == f + flat(i as nat, s030_calc_step()),
        decreases 200 - i,
    {
        push_formula(&mut cells, 2, i + 1, 1, S030CalcAndDataTabsMixed::calc_formula(i + 1));
        proof {
            lemma_flat_next(i as nat, s030_calc_step());
            assert(cells_view(cells@) =~= f + flat((i + 1) as nat, s030_calc_step()));
        }
        i = i + 1;
    }
    assert(cells_view(cells@) =~= s030_cells(rows as nat));
    WorkbookPlan { sheets, cells }
}

/// Family `f` of S048: inputs `r + f` in column `2f + 1` and the formulas
/// `={input}{r}*{f + 2}` beside them, over 200 rows.
pub open spec fn s048_family_step() -> spec_fn(nat) -> Seq<CellView> {
    |f: nat| Seq::new(200 * 2, |k: int| {
        let r = (k / 2 + 1) as nat;
        if k % 2 == 0 {
            num_cell(0, r, 2 * f + 1, (r + f) as int)
        } else {
            formula_cell(0, r, 2 * f + 2, "="@ + col_letters(2 * f + 1) + dec(r) + "*"@ + dec(f + 2))
        }
    })
}

pub fn s048_fixture() -> (p: WorkbookPlan)
    ensures
        names_view(p.sheets@) == one_sheet(),
        cells_view(p.cells@) == flat(50, s048_family_step()),
{
    let sheets = sheet_names(vec!["Sheet1"]);
    let mut cells: Vec<PlannedCell> = Vec::new();
    assert(cells_view(cells@) =~= flat(0, s048_family_step()));
    let mut f: u32 = 0;
    while f < 50
        invariant
            0 <= f <= 50,
            cells_view(cells@) == flat(f as nat, s048_family_step()),
        decreases 50 - f,
    {
        let ghost o = cells_view(cells@);
        let ghost fam = s048_family_step()(f as nat);
        let in_col = f * 2 + 1;
        let name = chars_of(col_letter(in_col).as_str());
        let factor = dec_chars((f + 2) as u64);
        let mut r: u32 = 1;
        assert(cells_view(cells@) =~= o + fam.subrange(0, 0));
        while r <= 200
            invariant
                1 <= r <= 201,
                f < 50,
                in_col == 2 * f + 1,
                name@ == col_letters(in_col as nat),
                factor@ == dec((f + 2) as nat),
                fam == s048_family_step()(f as nat),
                fam.len() == 400,
                cells_view(cells@) == o + fam.subrange(0, 2 * (r - 1)),
            decreases 201 - r,
        {
            push_num(&mut cells, 0, r, in_col, (r + f) as i64);
            let mut text: Vec<char> = Vec::new();
            push_str(&mut text, "=");
            push_chars(&mut text, &name);
            push_chars(&mut text, &dec_chars(r as u64));
            push_str(&mut text, "*");
            push_chars(&mut text, &factor);
            push_formula(&mut cells, 0, r, in_col + 1, string_of(&text));
            proof {
                let k0 = 2 * (r - 1);
                assert(k0 / 2 + 1 == r && k0 % 2 == 0);
                assert((k0 + 1) / 2 + 1 == r && (k0 + 1) % 2 == 1);
                assert(fam[k0] == num_cell(0, r as nat, (2 * f + 1) as nat, (r + f) as int));
                assert(fam[k0 + 1] == formula_cell(0, r as nat, (2 * f + 2) as nat, "="@ + col_letters((2 * f + 1) as nat) + dec(r as nat) + "*"@ + dec((f + 2) as nat)));
                assert(cells_view(cells@) =~= o + fam.subrange(0, 2 * r));
            }
            r = r + 1;
        }
        proof {
            assert(fam.subrange(0, 400) =~= fam);
            lemma_flat_next(f as nat, s048_family_step());
            assert(cells_view(cells@) =~= flat((f + 1) as nat, s048_family_step()));
        }
        f = f + 1;
    }
    WorkbookPlan { sheets, cells }
}

/// Row `i` of S049: key `K{r}`, table value `3 r`, the formula row's key
/// `K{(r - 1) mod 50 + 1}` and its VLOOKUP.
pub open spec fn s049_step() -> spec_fn(nat) -> Seq<CellView> {
    |i: nat| {
        let r = i + 1;
        seq![
            text_cell(0, r, 1, "K"@ + zero_pad(r, 4)),
            num_cell(0, r, 2, (3 * r) as int),
            text_cell(0, r, 3, "K"@ + zero_pad((i % 50 + 1) as nat, 4)),
            formula_cell(0, r, 4, ref_then("=VLOOKUP(C", r, ", $A$1:$B$1000, 2, FALSE)")),
        ]
    }
}

fn k_key(n: u32) -> (s: String)
    ensures
        s@ == "K"@ + zero_pad(n as nat, 4),
{
    let mut v = chars_of("K");
    push_chars(&mut v, &zero_padded(n, 4));
    string_of(&v)
}

pub fn s049_fixture() -> (p: WorkbookPlan)
    ensures
        names_view(p.sheets@) == one_sheet(),
        cells_view(p.cells@) == flat(1_000, s049_step()),
{
    let sheets = sheet_names(vec!["Sheet1"]);
    let mut cells: Vec<PlannedCell> = Vec::new();
    assert(cells_view(cells@) =~= flat(0, s049_step()));
    let mut i: u32 = 0;
    while i < 1_000
        invariant
            0 <= i <= 1_000,
            cells_view(cells@) == flat(i as nat, s049_step()),
        decreases 1_000 - i,
    {
        let r = i + 1;
        push_text(&mut cells, 0, r, 1, k_key(r));
        push_num(&mut cells, 0, r, 2, 3 * r as i64);
        push_text(&mut cells, 0, r, 3, k_key(i % 50 + 1));
        push_ref_then(&mut cells, 0, r, 4, "=VLOOKUP(C", r, ", $A$1:$B$1000, 2, FALSE)");
        proof {
            lemma_flat_next(i as nat, s049_step());
            assert(cells_view(cells@) =~= flat((i + 1) as nat, s049_step()));
        }
        i = i + 1;
    }
    WorkbookPlan { sheets, cells }
}

/* ------------------------ families over inputs ------------------------ */

/// S031 writes the same workbook as S003.
pub fn s031_fixture(rows: u32) -> (p: WorkbookPlan)
    requires
        rows < u32::MAX,
    ensures
        names_view(p.sheets@) == one_sheet(),
        cells_view(p.cells@) == s003_cells(rows as nat),
{
    s003_fixture(rows)
}

/// Input row `i` on `sheet`: `A{r} = r`.
pub open spec fn index_step(sheet: nat) -> spec_fn(nat) -> Seq<CellView> {
    |i: nat| seq![num_cell(sheet, i + 1, 1, (i + 1) as int)]
}

/// Appends `A{r} = r` for `r` in `1..=n` on `sheet`.
fn push_index_column(cells: &mut Vec<PlannedCell>, sheet: usize, n: u32)
    requires
        n < u32::MAX,
    ensures
        cells_view(final(cells)@) == cells_view(old(cells)@) + flat(n as nat, index_step(sheet as nat)),
{
    let ghost o = cells_view(cells@);
    assert(cells_view(cells@) =~= o + flat(0, index_step(sheet as nat)));
    let mut i: u32 = 0;
    while i < n
        invariant
            0 <= i <= n < u32::MAX,
            o == cells_view(old(cells)@),
            cells_view(cells@) == o + flat(i as nat, index_step(sheet as nat)),
        decreases n - i,
    {
        push_num(cells, sheet, i + 1, 1, (i + 1) as i64);
        proof {
            lemma_flat_next(i as nat, index_step(sheet as nat));
            assert(cells_view(cells@) =~= o + flat((i + 1) as nat, index_step(sheet as nat)));
        }
        i = i + 1;
    }
}

/// Formula row `i` of S018: the SUM of named range `r mod 100 + 1`.
pub open spec fn s018_formula_step() -> spec_fn(nat) -> Seq<CellView> {
    |i: nat| seq![formula_cell(0, i + 1, 2, "=SUM(NamedRange_"@ + dec(((i + 1) % 100 + 1) as nat) + ")"@)]
}

/// S018: inputs in `A1:A1100`, the SUM family in column B, and the hundred
/// named ranges, all defined on the first sheet.
pub fn s018_fixture(rows: u32) -> (r: (WorkbookPlan, Vec<(String, String)>))
    requires
        rows < u32::MAX,
    ensures
        names_view(r.0.sheets@) == one_sheet(),
        cells_view(r.0.cells@) == flat(1_100, index_step(0)) + flat(rows as nat, s018_formula_step()),
        r.1@.len() == 100,
        forall|i: int| 0 <= i < 100 ==> (#[trigger] r.1@[i].0@, r.1@[i].1@) == s018_named_range((i + 1) as nat),
{
    let sheets = sheet_names(vec!["Sheet1"]);
    let mut cells: Vec<PlannedCell> = Vec::new();
    assert(cells_view(cells@) =~= Seq::<CellView>::empty());
    push_index_column(&mut cells, 0, 1_100);
    let ghost h = cells_view(cells@);
    assert(h =~= flat(1_100, index_step(0)));
    assert(cells_view(cells@) =~= h + flat(0, s018_formula_step()));
    let mut i: u32 = 0;
    while i < rows
        invariant
            0 <= i <= rows < u32::MAX,
            cells_view(cells@) == h + flat(i as nat, s018_formula_step()),
        decreases rows - i,
    {
        push_formula(&mut cells, 0, i + 1, 2, S018NamedRanges100::sum_formula(i + 1));
        proof {
            lemma_flat_next(i as nat, s018_formula_step());
            assert(cells_view(cells@) =~= h + flat((i + 1) as nat, s018_formula_step()));
        }
        i = i + 1;
    }
    (WorkbookPlan { sheets, cells }, S018NamedRanges100::named_ranges())
}

/// Formula row `i` of S037: `=SUM(DataRange) * {r}` on the second sheet.
pub open spec fn s037_formula_step() -> spec_fn(nat) -> Seq<CellView> {
    |i: nat| seq![formula_cell(1, i + 1, 1, ref_then("=SUM(DataRange) * ", i + 1, ""))]
}

/// S037: the first sheet renamed `Data` with inputs in `A1:A1000`, a new
/// `Sheet1` of scaled sums, and the name `DataRange` over `A1:A100`, defined
/// on the first sheet.
pub fn s037_fixture(rows: u32) -> (r: (WorkbookPlan, Vec<(String, String)>))
    requires
        rows < u32::MAX,
    ensures
        names_view(r.0.sheets@) == seq!["Data"@, "Sheet1"@],
        cells_view(r.0.cells@) == flat(1_000, index_step(0)) + flat(rows as nat, s037_formula_step()),
        r.1@.len() == 1,
        (r.1@[0].0@, r.1@[0].1@) == ("DataRange"@, "Data!$A$1:$A$100"@),
{
    let sheets = sheet_names(vec!["Data", "Sheet1"]);
    let mut cells: Vec<PlannedCell> = Vec::new();
    assert(cells_view(cells@) =~= Seq::<CellView>::empty());
    push_index_column(&mut cells, 0, 1_000);
    let ghost h = cells_view(cells@);
    assert(h =~= flat(1_000, index_step(0)));
    assert(cells_view(cells@) =~= h + flat(0, s037_formula_step()));
    let mut i: u32 = 0;
    while i < rows
        invariant
            0 <= i <= rows < u32::MAX,
            cells_view(cells@) == h + flat(i as nat, s037_formula_step()),
        decreases rows - i,
    {
        push_ref_then(&mut cells, 1, i + 1, 1, "=SUM(DataRange) * ", i + 1, "");
        proof {
            lemma_flat_next(i as nat, s037_formula_step());
            assert(cells_view(cells@) =~= h + flat((i + 1) as nat, s037_formula_step()));
        }
        i = i + 1;
    }
    let mut names: Vec<(String, String)> = Vec::new();
    names.push((owned("DataRange"), owned("Data!$A$1:$A$100")));
    (WorkbookPlan { sheets, cells }, names)
}

/// Row `i` of S035: `A = r`, five formula columns and zeros in `G:K`.
pub open spec fn s035_step() -> spec_fn(nat) -> Seq<CellView> {
    |i: nat| {
        let r = i + 1;
        seq![num_cell(0, r, 1, r as int), formula_cell(0, r, 2, ref_then("=A", r, "+1")), formula_cell(0, r, 3, ref_then("=A", r, "*2")),
            formula_cell(0, r, 4, ref_then("=A", r, "-3")),
            formula_cell(0, r, 5, pieces_text(seq![Piece::Lit("=A"), Piece::Num(r as u64), Piece::Lit("+B"), Piece::Num(r as u64)])),
            formula_cell(0, r, 6, pieces_text(seq![Piece::Lit("=C"), Piece::Num(r as u64), Piece::Lit("+D"), Piece::Num(r as u64)])),
            num_cell(0, r, 7, 0), num_cell(0, r, 8, 0), num_cell(0, r, 9, 0), num_cell(0, r, 10, 0), num_cell(0, r, 11, 0)]
    }
}

pub fn s035_fixture(rows: u32) -> (p: WorkbookPlan)
    requires
        rows < u32::MAX,
    ensures
        names_view(p.sheets@) == one_sheet(),
        cells_view(p.cells@) == flat(rows as nat, s035_step()),
{
    let sheets = sheet_names(vec!["Sheet1"]);
    let mut cells: Vec<PlannedCell> = Vec::new();
    assert(cells_view(cells@) =~= flat(0, s035_step()));
    let mut i: u32 = 0;
    while i < rows
        invariant
            0 <= i <= rows < u32::MAX,
            cells_view(cells@) == flat(i as nat, s035_step()),
        decreases rows - i,
    {
        let r = i + 1;
        push_num(&mut cells, 0, r, 1, r as i64);
        push_ref_then(&mut cells, 0, r, 2, "=A", r, "+1");
        push_ref_then(&mut cells, 0, r, 3, "=A", r, "*2");
        push_ref_then(&mut cells, 0, r, 4, "=A", r, "-3");
        push_pieces(&mut cells, 0, r, 5, vec![Piece::Lit("=A"), Piece::Num(r as u64), Piece::Lit("+B"), Piece::Num(r as u64)]);
        push_pieces(&mut cells, 0, r, 6, vec![Piece::Lit("=C"), Piece::Num(r as u64), Piece::Lit("+D"), Piece::Num(r as u64)]);
        push_num(&mut cells, 0, r, 7, 0);
        push_num(&mut cells, 0, r, 8, 0);
        push_num(&mut cells, 0, r, 9, 0);
        push_num(&mut cells, 0, r, 10, 0);
        push_num(&mut cells, 0, r, 11, 0);
        proof {
            lemma_flat_next(i as nat, s035_step());
            assert(cells_view(cells@) =~= flat((i + 1) as nat, s035_step()));
        }
        i = i + 1;
    }
    WorkbookPlan { sheets, cells }
}

/// Input row `i` of S036's second sheet: `A{r} = 2 r`.
pub open spec fn doubled_step() -> spec_fn(nat) -> Seq<CellView> {
    |i: nat| seq![num_cell(1, i + 1, 1, 2 * (i + 1) as int)]
}

/// Formula row `i` of S036: the sum of both data sheets' row `r`.
pub open spec fn s036_formula_step() -> spec_fn(nat) -> Seq<CellView> {
    |i: nat| seq![formula_cell(2, i + 1, 1, pieces_text(seq![Piece::Lit("=DataA!A"), Piece::Num((i + 1) as u64), Piece::Lit(" + DataB!A"), Piece::Num((i + 1) as u64)]))]
}

pub open spec fn s036_cells(rows: nat) -> Seq<CellView> {
    flat(1_000, index_step(0)) + flat(1_000, doubled_step()) + flat(rows, s036_formula_step())
}

/// S036: the first sheet renamed `DataA`, then `DataB` and a new `Sheet1`.
pub fn s036_fixture(rows: u32) -> (p: WorkbookPlan)
    requires
        rows < u32::MAX,
    ensures
        names_view(p.sheets@) == seq!["DataA"@, "DataB"@, "Sheet1"@],
        cells_view(p.cells@) == s036_cells(rows as nat),
{
    let sheets = sheet_names(vec!["DataA", "DataB", "Sheet1"]);
    let mut cells: Vec<PlannedCell> = Vec::new();
    assert(cells_view(cells@) =~= Seq::<CellView>::empty());
    push_index_column(&mut cells, 0, 1_000);
    let ghost a = cells_view(cells@);
    assert(a =~= flat(1_000, index_step(0)));
    assert(cells_view(cells@) =~= a + flat(0, doubled_step()));
    let mut i: u32 = 0;
    while i < 1_000
        invariant
            0 <= i <= 1_000,
            cells_view(cells@) == a + flat(i as nat, doubled_step()),
        decreases 1_000 - i,
    {
        push_num(&mut cells, 1, i + 1, 1, 2 * (i + 1) as i64);
        proof {
            lemma_flat_next(i as nat, doubled_step());
            assert(cells_view(cells@) =~= a + flat((i + 1) as nat, doubled_step()));
        }
        i = i + 1;
    }
    let ghost b = cells_view(cells@);
    assert(cells_view(cells@) =~= b + flat(0, s036_formula_step()));
    i = 0;
    while i < rows
        invariant
            0 <= i <= rows < u32::MAX,
            cells_view(cells@) == b + flat(i as nat, s036_formula_step()),
        decreases rows - i,
    {
        push_pieces(&mut cells, 2, i + 1, 1, vec![Piece::Lit("=DataA!A"), Piece::Num((i + 1) as u64), Piece::Lit(" + DataB!A"), Piece::Num((i + 1) as u64)]);
        proof {
            lemma_flat_next(i as nat, s036_formula_step());
            assert(cells_view(cells@) =~= b + flat((i + 1) as nat, s036_formula_step()));
        }
        i = i + 1;
    }
    assert(cells_view(cells@) =~= s036_cells(rows as nat));
    WorkbookPlan { sheets, cells }
}

/// Row `i` of S045: the cycling input and its guarded reciprocal.
pub open spec fn s045_step() -> spec_fn(nat) -> Seq<CellView> {
    |i: nat| {
        let r = i + 1;
        seq![num_cell(0, r, 1, s045_initial(r)), formula_cell(0, r, 2, ref_then("=IFERROR(1/A", r, ",0)"))]
    }
}

/// S045: ten thousand rows.
pub fn s045_fixture() -> (p: WorkbookPlan)
    ensures
        names_view(p.sheets@) == one_sheet(),
        cells_view(p.cells@) == flat(10_000, s045_step()),
{
    let sheets = sheet_names(vec!["Sheet1"]);
    let mut cells: Vec<PlannedCell> = Vec::new();
    assert(cells_view(cells@) =~= flat(0, s045_step()));
    let mut i: u32 = 0;
    while i < 10_000
        invariant
            0 <= i <= 10_000,
            cells_view(cells@) == flat(i as nat, s045_step()),
        decreases 10_000 - i,
    {
        let r = i + 1;
        let m = r % 5;
        let a: i64 = if m == 0 { 0 } else if m == 1 { 1 } else if m == 2 { -2 } else if m == 3 { 4 } else { -5 };
        push_num(&mut cells, 0, r, 1, a);
        push_ref_then(&mut cells, 0, r, 2, "=IFERROR(1/A", r, ",0)");
        proof {
            lemma_flat_next(i as nat, s045_step());
            assert(cells_view(cells@) =~= flat((i + 1) as nat, s045_step()));
        }
        i = i + 1;
    }
    WorkbookPlan { sheets, cells }
}

/// Formula row `i` of S046.
pub open spec fn s046_formula_step() -> spec_fn(nat) -> Seq<CellView> {
    |i: nat| seq![formula_cell(0, i + 1, 2, s046_formula(i + 1))]
}

/// S046: inputs in `A1:A2000` and the hundred giant formulas in column B.
pub fn s046_fixture() -> (p: WorkbookPlan)
    ensures
        names_view(p.sheets@) == one_sheet(),
        cells_view(p.cells@) == flat(2_000, index_step(0)) + flat(100, s046_formula_step()),
{
    let sheets = sheet_names(vec!["Sheet1"]);
    let mut cells: Vec<PlannedCell> = Vec::new();
    assert(cells_view(cells@) =~= Seq::<CellView>::empty());
    push_index_column(&mut cells, 0, 2_000);
    let ghost h = cells_view(cells@);
    assert(h =~= flat(2_000, index_step(0)));
    assert(cells_view(cells@) =~= h + flat(0, s046_formula_step()));
    let mut i: u32 = 0;
    while i < 100
        invariant
            0 <= i <= 100,
            cells_view(cells@) == h + flat(i as nat, s046_formula_step()),
        decreases 100 - i,
    {
        push_formula(&mut cells, 0, i + 1, 2, S046GiantAstFormula200Deps::giant_formula(i + 1));
        proof {
            lemma_flat_next(i as nat, s046_formula_step());
            assert(cells_view(cells@) =~= h + flat((i + 1) as nat, s046_formula_step()));
        }
        i = i + 1;
    }
    WorkbookPlan { sheets, cells }
}

/* ------------------------------- tables ------------------------------- */

/// Header of an id/amount/type table.
pub open spec fn id_table_header() -> Seq<CellView> {
    seq![text_cell(0, 1, 1, "ID"@), text_cell(0, 1, 2, "Amount"@), text_cell(0, 1, 3, "Type"@)]
}

/// Row `i` of an id/amount/type table, in sheet row `id + 1`: the id `i + 1`,
/// ten times the id and its type label.
pub open spec fn id_table_step() -> spec_fn(nat) -> Seq<CellView> {
    |i: nat| {
        let id = i + 1;
        seq![num_cell(0, id + 1, 1, id as int), num_cell(0, id + 1, 2, 10 * id as int), text_cell(0, id + 1, 3, s019_type(id))]
    }
}

/// The table `Table1` over `A1:{last}` with the id, amount and type columns.
pub open spec fn id_table(last: Seq<char>) -> TableView {
    TableView { sheet: 0, name: "Table1"@, first: "A1"@, last, columns: seq!["ID"@, "Amount"@, "Type"@] }
}

/// Appends the header and `n` rows of an id/amount/type table.
fn push_id_table(cells: &mut Vec<PlannedCell>, n: u32)
    requires
        n <= 1_000,
    ensures
        cells_view(final(cells)@) == cells_view(old(cells)@) + id_table_header() + flat(n as nat, id_table_step()),
{
    push_lit(cells, 0, 1, 1, "ID");
    push_lit(cells, 0, 1, 2, "Amount");
    push_lit(cells, 0, 1, 3, "Type");
    let ghost o = cells_view(cells@);
    assert(o =~= cells_view(old(cells)@) + id_table_header());
    assert(cells_view(cells@) =~= o + flat(0, id_table_step()));
    let mut i: u32 = 0;
    while i < n
        invariant
            0 <= i <= n <= 1_000,
            o == cells_view(old(cells)@) + id_table_header(),
            cells_view(cells@) == o + flat(i as nat, id_table_step()),
        decreases n - i,
    {
        let id = i + 1;
        push_num(cells, 0, id + 1, 1, id as i64);
        push_num(cells, 0, id + 1, 2, 10 * id as i64);
        push_lit(cells, 0, id + 1, 3, S019TableWithStructuredRefs::data_type_for_id(id));
        proof {
            lemma_flat_next(i as nat, id_table_step());
            assert(cells_view(cells@) =~= o + flat((i + 1) as nat, id_table_step()));
        }
        i = i + 1;
    }
}

/// The id/amount/type table literal.
fn id_table_plan(last: &'static str) -> (t: TablePlan)
    ensures
        table_view(t) == id_table(last@),
{
    let t = table_plan(0, "Table1", "A1", last, vec!["ID", "Amount", "Type"]);
    assert(table_view(t).columns =~= id_table(last@).columns);
    t
}

pub open spec fn s019_cells() -> Seq<CellView> {
    id_table_header() + flat(1_000, id_table_step()) + seq![
        formula_cell(0, 1, 5, "=SUM(Table1[Amount])"@),
        formula_cell(0, 2, 5, "=COUNTIF(Table1[Type], \"Type0\")"@),
        formula_cell(0, 3, 5, "=SUMIFS(Table1[Amount], Table1[Type], \"Type1\")"@),
    ]
}

/// S019: a thousand-row table and three structured-reference formulas.
pub fn s019_fixture() -> (r: (WorkbookPlan, Vec<TablePlan>))
    ensures
        names_view(r.0.sheets@) == one_sheet(),
        cells_view(r.0.cells@) == s019_cells(),
        r.1@.len() == 1,
        table_view(r.1@[0]) == id_table("C1001"@),
{
    let sheets = sheet_names(vec!["Sheet1"]);
    let mut cells: Vec<PlannedCell> = Vec::new();
    assert(cells_view(cells@) =~= Seq::<CellView>::empty());
    push_id_table(&mut cells, 1_000);
    push_formula(&mut cells, 0, 1, 5, owned("=SUM(Table1[Amount])"));
    push_formula(&mut cells, 0, 2, 5, owned("=COUNTIF(Table1[Type], \"Type0\")"));
    push_formula(&mut cells, 0, 3, 5, owned("=SUMIFS(Table1[Amount], Table1[Type], \"Type1\")"));
    assert(cells_view(cells@) =~= s019_cells());
    let mut tables: Vec<TablePlan> = Vec::new();
    tables.push(id_table_plan("C1001"));
    (WorkbookPlan { sheets, cells }, tables)
}

pub open spec fn s041_cells() -> Seq<CellView> {
    id_table_header() + flat(100, id_table_step()) + seq![formula_cell(0, 1, 5, "=SUM(Table1[Amount])"@)]
}

/// S041: a hundred-row table and its total.
pub fn s041_fixture() -> (r: (WorkbookPlan, Vec<TablePlan>))
    ensures
        names_view(r.0.sheets@) == one_sheet(),
        cells_view(r.0.cells@) == s041_cells(),
        r.1@.len() == 1,
        table_view(r.1@[0]) == id_table("C101"@),
{
    let sheets = sheet_names(vec!["Sheet1"]);
    let mut cells: Vec<PlannedCell> = Vec::new();
    assert(cells_view(cells@) =~= Seq::<CellView>::empty());
    push_id_table(&mut cells, 100);
    push_formula(&mut cells, 0, 1, 5, owned("=SUM(Table1[Amount])"));
    assert(cells_view(cells@) =~= s041_cells());
    let mut tables: Vec<TablePlan> = Vec::new();
    tables.push(id_table_plan("C101"));
    (WorkbookPlan { sheets, cells }, tables)
}

/// Sale row `i` of S020 (Sales row `s + 1`): the sale, its product and ten
/// times the sale.
pub open spec fn s020_sales_step() -> spec_fn(nat) -> Seq<CellView> {
    |i: nat| {
        let s = i + 1;
        seq![num_cell(1, s + 1, 1, s as int), num_cell(1, s + 1, 2, s020_product(s) as int), num_cell(1, s + 1, 3, 10 * s as int)]
    }
}

/// Product row `i` of S020 (Products row `p + 1`): the product, its name and
/// its category.
pub open spec fn s020_products_step() -> spec_fn(nat) -> Seq<CellView> {
    |i: nat| {
        let p = i + 1;
        seq![num_cell(2, p + 1, 1, p as int), text_cell(2, p + 1, 2, "Product"@ + dec(p)), text_cell(2, p + 1, 3, "Category"@ + dec(p % 5))]
    }
}

/// Formula row `i` of S020 on Sheet1: product `i + 1`'s sales total.
pub open spec fn s020_formula_step() -> spec_fn(nat) -> Seq<CellView> {
    |i: nat| {
        let p = i + 1;
        seq![formula_cell(0, p, 1, "=SUMIFS(SalesTable[Amount], SalesTable[ProductID], "@ + dec(p)
            + ") + COUNTIF(ProductsTable[ProductID], "@ + dec(p) + ") * 0"@)]
    }
}

pub open spec fn s020_sales_header() -> Seq<CellView> {
    seq![text_cell(1, 1, 1, "SaleID"@), text_cell(1, 1, 2, "ProductID"@), text_cell(1, 1, 3, "Amount"@)]
}

pub open spec fn s020_products_header() -> Seq<CellView> {
    seq![text_cell(2, 1, 1, "ProductID"@), text_cell(2, 1, 2, "ProductName"@), text_cell(2, 1, 3, "Category"@)]
}

pub open spec fn s020_cells() -> Seq<CellView> {
    s020_sales_header() + flat(1_000, s020_sales_step()) + s020_products_header() + flat(100, s020_products_step())
        + flat(100, s020_formula_step())
}

/// Appends the Sales sheet of S020.
fn push_s020_sales(cells: &mut Vec<PlannedCell>)
    ensures
        cells_view(final(cells)@) == cells_view(old(cells)@) + s020_sales_header() + flat(1_000, s020_sales_step()),
{
    push_lit(cells, 1, 1, 1, "SaleID");
    push_lit(cells, 1, 1, 2, "ProductID");
    push_lit(cells, 1, 1, 3, "Amount");
    let ghost o = cells_view(cells@);
    assert(o =~= cells_view(old(cells)@) + s020_sales_header());
    assert(cells_view(cells@) =~= o + flat(0, s020_sales_step()));
    let mut i: u32 = 0;
    while i < 1_000
        invariant
            0 <= i <= 1_000,
            o == cells_view(old(cells)@) + s020_sales_header(),
            cells_view(cells@) == o + flat(i as nat, s020_sales_step()),
        decreases 1_000 - i,
    {
        let s = i + 1;
        push_num(cells, 1, s + 1, 1, s as i64);
        push_num(cells, 1, s + 1, 2, S020MultiTableCrossReferences::product_id_for_sale(s) as i64);
        push_num(cells, 1, s + 1, 3, 10 * s as i64);
        proof {
            lemma_flat_next(i as nat, s020_sales_step());
            assert(cells_view(cells@) =~= o + flat((i + 1) as nat, s020_sales_step()));
        }
        i = i + 1;
    }
}

/// Appends the Products sheet of S020.
fn push_s020_products(cells: &mut Vec<PlannedCell>)
    ensures
        cells_view(final(cells)@) == cells_view(old(cells)@) + s020_products_header() + flat(100, s020_products_step()),
{
    push_lit(cells, 2, 1, 1, "ProductID");
    push_lit(cells, 2, 1, 2, "ProductName");
    push_lit(cells, 2, 1, 3, "Category");
    let ghost o = cells_view(cells@);
    assert(o =~= cells_view(old(cells)@) + s020_products_header());
    assert(cells_view(cells@) =~= o + flat(0, s020_products_step()));
    let mut i: u32 = 0;
    while i < 100
        invariant
            0 <= i <= 100,
            o == cells_view(old(cells)@) + s020_products_header(),
            cells_view(cells@) == o + flat(i as nat, s020_products_step()),
        decreases 100 - i,
    {
        let p = i + 1;
        push_num(cells, 2, p + 1, 1, p as i64);
        let mut name = chars_of("Product");
        push_chars(&mut name, &dec_chars(p as u64));
        push_text(cells, 2, p + 1, 2, string_of(&name));
        let mut category = chars_of("Category");
        push_chars(&mut category, &dec_chars((p % 5) as u64));
        push_text(cells, 2, p + 1, 3, string_of(&category));
        proof {
            lemma_flat_next(i as nat, s020_products_step());
            assert(cells_view(cells@) =~= o + flat((i + 1) as nat, s020_products_step()));
        }
        i = i + 1;
    }
}

/// The two tables of S020: sales on the second sheet, products on the third.
pub open spec fn s020_tables() -> Seq<TableView> {
    seq![
        TableView { sheet: 1, name: "SalesTable"@, first: "A1"@, last: "C1001"@, columns: seq!["SaleID"@, "ProductID"@, "Amount"@] },
        TableView { sheet: 2, name: "ProductsTable"@, first: "A1"@, last: "C101"@, columns: seq!["ProductID"@, "ProductName"@, "Category"@] },
    ]
}

/// S020: Sheet1 of per-product totals over the Sales and Products tables,
/// both added as new sheets.
pub fn s020_fixture() -> (r: (WorkbookPlan, Vec<TablePlan>))
    ensures
        names_view(r.0.sheets@) == seq!["Sheet1"@, "Sales"@, "Products"@],
        cells_view(r.0.cells@) == s020_cells(),
        r.1@.map_values(|t: TablePlan| table_view(t)) == s020_tables(),
{
    let sheets = sheet_names(vec!["Sheet1", "Sales", "Products"]);
    let mut cells: Vec<PlannedCell> = Vec::new();
    assert(cells_view(cells@) =~= Seq::<CellView>::empty());
    push_s020_sales(&mut cells);
    push_s020_products(&mut cells);
    let ghost h = cells_view(cells@);
    assert(cells_view(cells@) =~= h + flat(0, s020_formula_step()));
    let mut i: u32 = 0;
    while i < 100
        invariant
            0 <= i <= 100,
            cells_view(cells@) == h + flat(i as nat, s020_formula_step()),
        decreases 100 - i,
    {
        push_formula(&mut cells, 0, i + 1, 1, S020MultiTableCrossReferences::product_formula(i + 1));
        proof {
            lemma_flat_next(i as nat, s020_formula_step());
            assert(cells_view(cells@) =~= h + flat((i + 1) as nat, s020_formula_step()));
        }
        i = i + 1;
    }
    assert(cells_view(cells@) =~= s020_cells());
    let sales = table_plan(1, "SalesTable", "A1", "C1001", vec!["SaleID", "ProductID", "Amount"]);
    let products = table_plan(2, "ProductsTable", "A1", "C101", vec!["ProductID", "ProductName", "Category"]);
    let mut tables: Vec<TablePlan> = Vec::new();
    tables.push(sales);
    tables.push(products);
    assert(table_view(tables@[0]).columns =~= s020_tables()[0].columns);
    assert(table_view(tables@[1]).columns =~= s020_tables()[1].columns);
    assert(tables@.map_values(|t: TablePlan| table_view(t)) =~= s020_tables());
    (WorkbookPlan { sheets, cells }, tables)
}

/* ------------------------- fixtures and checks ------------------------ */

/// The S008 fixture and the S008 checks agree on what the two families
/// compute. The fixture writes the anchor `A1` as the value the checks
/// start from, and in every row column B adds some `n` to `$A$1` and column
/// C multiplies `$A$1` by some `m`; at every evaluated phase the checks
/// expect, in that row, the anchor's current value plus `n` in B and times
/// `m` in C.
pub proof fn lemma_s008_fixture_agrees_with_checks(rows: nat, phase: ScenarioPhase, r: nat)
    requires
        1 <= r <= rows,
        spec_has_evaluated(phase),
    ensures
        s008_cells(rows)[0] == num_cell(0, 1, 1, s008_a1(0)),
        exists|n: nat, m: nat| #![trigger dec(n), dec(m)] {
            let a = s008_a1(spec_completed_cycles(phase));
            &&& s008_cells(rows)[2 * r - 1] == formula_cell(0, r, 2, "=$A$1+"@ + dec(n))
            &&& s008_cells(rows)[(2 * r) as int] == formula_cell(0, r, 3, "=$A$1*"@ + dec(m))
            &&& s008_invariants(rows, phase)[2 * r - 1] == InvariantView::CellEquals("Sheet1"@, r, 2, a + n)
            &&& s008_invariants(rows, phase)[(2 * r) as int] == InvariantView::CellEquals("Sheet1"@, r, 3, a * m)
        },
{
    let cs = s008_cells(rows);
    let f = s008_step();
    lemma_flat_at(rows, f, 2, (r - 1) as nat, 0);
    lemma_flat_at(rows, f, 2, (r - 1) as nat, 1);
    assert(cs[2 * r - 1] == flat(rows, f)[(2 * (r - 1) + 0) as int]);
    assert(cs[(2 * r) as int] == flat(rows, f)[(2 * (r - 1) + 1) as int]);
    reveal_strlit("=$A$1+1");
    reveal_strlit("=$A$1+");
    reveal_strlit("=$A$1*2");
    reveal_strlit("=$A$1*");
    assert(dec(1) == seq!['1']);
    assert(dec(2) == seq!['2']);
    assert("=$A$1+1"@ =~= "=$A$1+"@ + dec(1));
    assert("=$A$1*2"@ =~= "=$A$1*"@ + dec(2));
    let inv = s008_invariants(rows, phase);
    assert(inv[2 * r - 1] == InvariantView::CellEquals("Sheet1"@, r, 2, s008_a1(spec_completed_cycles(phase)) + 1));
    assert(inv[(2 * r) as int] == InvariantView::CellEquals("Sheet1"@, r, 3, s008_a1(spec_completed_cycles(phase)) * 2));
    assert(cs[2 * r - 1] == formula_cell(0, r, 2, "=$A$1+"@ + dec(1)));
    assert(cs[(2 * r) as int] == formula_cell(0, r, 3, "=$A$1*"@ + dec(2)));
}

} // verus!
