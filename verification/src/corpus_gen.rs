//! The generated workbooks of the benchmark corpus, planned cell by cell.
//! Each generator states, in writing order, every cell it writes.

use vstd::prelude::*;
use crate::plan::{
    CellView, Piece, WorkbookPlan, cells_view, flat, formula_cell, header_cells, lemma_flat_all, lemma_flat_at,
    lemma_flat_len, lemma_flat_next,
    names_view, num_cell, pieces_text, push_formula, push_header, push_num, push_pieces, push_text,
    sheet_names, text_cell,
};
use crate::corpus::{
    fact_id, lookup_key, replace, replace_all, render_formula_template, spec_render_formula_template,
};
use crate::text::{dec, dec_string, owned, str_eq, zero_pad};
use crate::corpus::{cfg_str, cfg_u32};
use crate::corpus_models::{finance_cells, finance_model_plan, finance_sheets, ops_cells, ops_model_plan, ops_sheets};

verus! {

/// Row `i` of the chain after its seed: `A{i+2} = A{i+1} + 1`.
pub open spec fn chain_step() -> spec_fn(nat) -> Seq<CellView> {
    |i: nat| seq![formula_cell(0, i + 2, 1, pieces_text(seq![Piece::Lit("=A"), Piece::Num((i + 1) as u64), Piece::Lit("+1")]))]
}

/// A linear chain: `A1 = 1` and each later row adds one to the row above.
pub open spec fn chain_cells(rows: nat) -> Seq<CellView> {
    seq![num_cell(0, 1, 1, 1)] + flat(if rows >= 2 { (rows - 1) as nat } else { 0 }, chain_step())
}

/// Plans the chain workbook of `rows` rows on one sheet.
pub fn chain_plan(rows: u32) -> (p: WorkbookPlan)
    ensures
        names_view(p.sheets@) == seq!["Sheet1"@],
        cells_view(p.cells@) == chain_cells(rows as nat),
{
    let sheets = sheet_names(vec!["Sheet1"]);
    let mut cells = Vec::new();
    push_num(&mut cells, 0, 1, 1, 1);
    let n: u32 = if rows >= 2 { rows - 1 } else { 0 };
    let ghost head = seq![num_cell(0, 1, 1, 1)];
    assert(cells_view(cells@) =~= head + flat(0, chain_step()));
    let mut i: u32 = 0;
    while i < n
        invariant
            0 <= i <= n,
            n as nat == (if rows >= 2 { (rows - 1) as nat } else { 0 }),
            cells_view(cells@) == head + flat(i as nat, chain_step()),
        decreases n - i,
    {
        let ghost before = cells_view(cells@);
        push_pieces(&mut cells, 0, i + 2, 1, vec![Piece::Lit("=A"), Piece::Num((i + 1) as u64), Piece::Lit("+1")]);
        proof {
            lemma_flat_next(i as nat, chain_step());
            assert(cells_view(cells@) =~= head + flat((i + 1) as nat, chain_step()));
        }
        i = i + 1;
    }
    WorkbookPlan { sheets, cells }
}

/// A template with `{row}` replaced by the row number.
pub open spec fn fill_row(template: Seq<char>, row: nat) -> Seq<char> {
    replace_all(template, "{row}"@, dec(row))
}

fn fill_row_exec(template: &str, row: u32) -> (s: String)
    ensures
        s@ == fill_row(template@, row as nat),
{
    proof {
        reveal_strlit("{row}");
    }
    let t = dec_string(row as u64);
    replace(template, "{row}", t.as_str())
}

/// Row `i` of the fan-out column: `B{i+1} = A$1 * (i+1)`.
pub open spec fn fanout_step() -> spec_fn(nat) -> Seq<CellView> {
    |i: nat| seq![formula_cell(0, i + 1, 2, pieces_text(seq![Piece::Lit("=A$1*"), Piece::Num((i + 1) as u64)]))]
}

/// One input `A1 = 1` read by `rows` formulas.
pub open spec fn fanout_cells(rows: nat) -> Seq<CellView> {
    seq![num_cell(0, 1, 1, 1)] + flat(rows, fanout_step())
}

/// Plans the fan-out workbook.
pub fn fanout_plan(rows: u32) -> (p: WorkbookPlan)
    ensures
        names_view(p.sheets@) == seq!["Sheet1"@],
        cells_view(p.cells@) == fanout_cells(rows as nat),
{
    let sheets = sheet_names(vec!["Sheet1"]);
    let mut cells = Vec::new();
    push_num(&mut cells, 0, 1, 1, 1);
    let ghost head = seq![num_cell(0, 1, 1, 1)];
    assert(cells_view(cells@) =~= head + flat(0, fanout_step()));
    let mut i: u32 = 0;
    while i < rows
        invariant
            0 <= i <= rows,
            cells_view(cells@) == head + flat(i as nat, fanout_step()),
        decreases rows - i,
    {
        push_pieces(&mut cells, 0, i + 1, 2, vec![Piece::Lit("=A$1*"), Piece::Num((i + 1) as u64)]);
        proof {
            lemma_flat_next(i as nat, fanout_step());
            assert(cells_view(cells@) =~= head + flat((i + 1) as nat, fanout_step()));
        }
        i = i + 1;
    }
    WorkbookPlan { sheets, cells }
}

/// Input row `i` of the mesh (sheet `Inputs`): `r`, `2r`, `r mod 10 + 1`
/// for `r = i + 1`.
pub open spec fn mesh_inputs_step() -> spec_fn(nat) -> Seq<CellView> {
    |i: nat| {
        let r = i + 1;
        seq![num_cell(1, r, 1, r as int), num_cell(1, r, 2, (2 * r) as int), num_cell(1, r, 3, ((r % 10) + 1) as int)]
    }
}

/// Row `i` of `CalcA`: `Inputs!A{r} + Inputs!B{r}`.
pub open spec fn mesh_calc_a_step() -> spec_fn(nat) -> Seq<CellView> {
    |i: nat| seq![formula_cell(2, i + 1, 1, pieces_text(seq![
        Piece::Lit("=Inputs!A"), Piece::Num((i + 1) as u64), Piece::Lit("+Inputs!B"), Piece::Num((i + 1) as u64)]))]
}

/// Row `i` of `CalcB`: `CalcA!A{r} * Inputs!C{r}`.
pub open spec fn mesh_calc_b_step() -> spec_fn(nat) -> Seq<CellView> {
    |i: nat| seq![formula_cell(3, i + 1, 1, pieces_text(seq![
        Piece::Lit("=CalcA!A"), Piece::Num((i + 1) as u64), Piece::Lit("*Inputs!C"), Piece::Num((i + 1) as u64)]))]
}

/// Three sheets of `rows` rows each: inputs, then two calculation sheets
/// reading across sheets.
pub open spec fn mesh_cells(rows: nat) -> Seq<CellView> {
    flat(rows, mesh_inputs_step()) + flat(rows, mesh_calc_a_step()) + flat(rows, mesh_calc_b_step())
}

pub open spec fn mesh_sheets() -> Seq<Seq<char>> {
    seq!["Sheet1"@, "Inputs"@, "CalcA"@, "CalcB"@]
}

/// Plans the cross-sheet mesh workbook (`2 rows` must fit in 32 bits, as the
/// input values are computed in 32 bits).
pub fn cross_sheet_mesh_plan(rows: u32) -> (p: WorkbookPlan)
    requires
        2 * rows <= u32::MAX,
    ensures
        names_view(p.sheets@) == mesh_sheets(),
        cells_view(p.cells@) == mesh_cells(rows as nat),
{
    let sheets = sheet_names(vec!["Sheet1", "Inputs", "CalcA", "CalcB"]);
    let mut cells = Vec::new();
    assert(cells_view(cells@) =~= flat(0, mesh_inputs_step()));
    let mut i: u32 = 0;
    while i < rows
        invariant
            0 <= i <= rows,
            2 * rows <= u32::MAX,
            cells_view(cells@) == flat(i as nat, mesh_inputs_step()),
        decreases rows - i,
    {
        let r = i + 1;
        push_num(&mut cells, 1, r, 1, r as i64);
        push_num(&mut cells, 1, r, 2, (r * 2) as i64);
        push_num(&mut cells, 1, r, 3, (r % 10) as i64 + 1);
        proof {
            lemma_flat_next(i as nat, mesh_inputs_step());
            assert(cells_view(cells@) =~= flat((i + 1) as nat, mesh_inputs_step()));
        }
        i = i + 1;
    }
    let ghost a = cells_view(cells@);
    assert(cells_view(cells@) =~= a + flat(0, mesh_calc_a_step()));
    i = 0;
    while i < rows
        invariant
            0 <= i <= rows,
            cells_view(cells@) == a + flat(i as nat, mesh_calc_a_step()),
        decreases rows - i,
    {
        push_pieces(&mut cells, 2, i + 1, 1, vec![Piece::Lit("=Inputs!A"), Piece::Num((i + 1) as u64), Piece::Lit("+Inputs!B"), Piece::Num((i + 1) as u64)]);
        proof {
            lemma_flat_next(i as nat, mesh_calc_a_step());
            assert(cells_view(cells@) =~= a + flat((i + 1) as nat, mesh_calc_a_step()));
        }
        i = i + 1;
    }
    let ghost b = cells_view(cells@);
    assert(cells_view(cells@) =~= b + flat(0, mesh_calc_b_step()));
    i = 0;
    while i < rows
        invariant
            0 <= i <= rows,
            cells_view(cells@) == b + flat(i as nat, mesh_calc_b_step()),
        decreases rows - i,
    {
        push_pieces(&mut cells, 3, i + 1, 1, vec![Piece::Lit("=CalcA!A"), Piece::Num((i + 1) as u64), Piece::Lit("*Inputs!C"), Piece::Num((i + 1) as u64)]);
        proof {
            lemma_flat_next(i as nat, mesh_calc_b_step());
            assert(cells_view(cells@) =~= b + flat((i + 1) as nat, mesh_calc_b_step()));
        }
        i = i + 1;
    }
    WorkbookPlan { sheets, cells }
}

/// Start row of dirty block `k` of the sparse incremental workbook: one
/// block every 125,000 rows, from row 1.
pub open spec fn sparse_block_row(k: nat) -> nat {
    k * 125_000 + 1
}

/// Block `k`: a seed `10 (k + 1)` and three formulas on its row.
pub open spec fn sparse_block_step() -> spec_fn(nat) -> Seq<CellView> {
    |k: nat| {
        let row = sparse_block_row(k);
        seq![
            num_cell(0, row, 1, (10 * (k + 1)) as int),
            formula_cell(0, row, 2, pieces_text(seq![Piece::Lit("=A"), Piece::Num(row as u64), Piece::Lit("*2")])),
            formula_cell(0, row, 3, pieces_text(seq![Piece::Lit("=B"), Piece::Num(row as u64), Piece::Lit("+5")])),
            formula_cell(0, row, 4, pieces_text(seq![Piece::Lit("=SUM(B"), Piece::Num(row as u64), Piece::Lit(":C"), Piece::Num(row as u64), Piece::Lit(")")])),
        ]
    }
}

/// Eight dirty blocks, then a seed and a formula on the last row.
pub open spec fn sparse_dirty_cells(rows: nat) -> Seq<CellView> {
    flat(8, sparse_block_step()) + seq![
        num_cell(0, rows, 1, 3),
        formula_cell(0, rows, 2, pieces_text(seq![Piece::Lit("=A"), Piece::Num(rows as u64), Piece::Lit("+1")])),
    ]
}

/// Plans the sparse dirty-region workbook of `rows` rows.
pub fn sparse_dirty_region_plan(rows: u32) -> (p: WorkbookPlan)
    ensures
        names_view(p.sheets@) == seq!["Sheet1"@],
        cells_view(p.cells@) == sparse_dirty_cells(rows as nat),
{
    let sheets = sheet_names(vec!["Sheet1"]);
    let mut cells = Vec::new();
    assert(cells_view(cells@) =~= flat(0, sparse_block_step()));
    let mut k: u32 = 0;
    while k < 8
        invariant
            0 <= k <= 8,
            cells_view(cells@) == flat(k as nat, sparse_block_step()),
        decreases 8 - k,
    {
        let row = k * 125_000 + 1;
        push_num(&mut cells, 0, row, 1, ((k + 1) * 10) as i64);
        push_pieces(&mut cells, 0, row, 2, vec![Piece::Lit("=A"), Piece::Num(row as u64), Piece::Lit("*2")]);
        push_pieces(&mut cells, 0, row, 3, vec![Piece::Lit("=B"), Piece::Num(row as u64), Piece::Lit("+5")]);
        push_pieces(&mut cells, 0, row, 4, vec![Piece::Lit("=SUM(B"), Piece::Num(row as u64), Piece::Lit(":C"), Piece::Num(row as u64), Piece::Lit(")")]);
        proof {
            lemma_flat_next(k as nat, sparse_block_step());
            assert(cells_view(cells@) =~= flat((k + 1) as nat, sparse_block_step()));
        }
        k = k + 1;
    }
    let ghost blocks = cells_view(cells@);
    push_num(&mut cells, 0, rows, 1, 3);
    push_pieces(&mut cells, 0, rows, 2, vec![Piece::Lit("=A"), Piece::Num(rows as u64), Piece::Lit("+1")]);
    assert(cells_view(cells@) =~= sparse_dirty_cells(rows as nat));
    WorkbookPlan { sheets, cells }
}

/// How many rows `1, 1 + every, 1 + 2 every, ...` lie within `rows`.
pub open spec fn sparse_fill_count(rows: nat, every: nat) -> nat {
    if rows == 0 { 0 } else { ((rows - 1) as nat / every) + 1 }
}

/// Fill `k` of the sparse column: row `1 + k every` holds its row number.
pub open spec fn sparse_fill_step(every: nat) -> spec_fn(nat) -> Seq<CellView> {
    |k: nat| seq![num_cell(0, 1 + k * every, 1, (1 + k * every) as int)]
}

/// Every `every`-th row of column A holds its row number, and `C1` holds the
/// summary formula.
pub open spec fn sparse_column_cells(rows: nat, every: nat, summary: Seq<char>) -> Seq<CellView> {
    flat(sparse_fill_count(rows, every), sparse_fill_step(every)) + seq![formula_cell(0, 1, 3, summary)]
}

proof fn lemma_fill_count(rows: nat, every: nat, k: nat)
    requires
        every >= 1,
        k >= 1,
        1 + (k - 1) * every <= rows,
        rows < 1 + k * every,
    ensures
        k == sparse_fill_count(rows, every),
{
    let x = (rows - 1) as nat;
    let q = x / every;
    vstd::arithmetic::div_mod::lemma_fundamental_div_mod(x as int, every as int);
    assert(q == k - 1) by (nonlinear_arith)
        requires
            every >= 1,
            k >= 1,
            (k - 1) * every <= x,
            x < k * every,
            x == every * q + x % every,
            0 <= x % every < every,
    ;
}

/// Plans the sparse whole-column workbook. (At `rows == u32::MAX` the fill
/// could never pass the last row, so that size is left out.)
pub fn sparse_whole_column_plan(rows: u32, every: u32, summary_formula: String) -> (p: WorkbookPlan)
    requires
        every >= 1,
        rows < u32::MAX,
    ensures
        names_view(p.sheets@) == seq!["Sheet1"@],
        cells_view(p.cells@) == sparse_column_cells(rows as nat, every as nat, summary_formula@),
{
    let sheets = sheet_names(vec!["Sheet1"]);
    let mut cells = Vec::new();
    let mut r: u32 = 1;
    let mut go = rows >= 1;
    let ghost mut k: nat = 0;
    assert(cells_view(cells@) =~= flat(0, sparse_fill_step(every as nat)));
    while go
        invariant
            every >= 1,
            rows < u32::MAX,
            1 <= r <= rows + 1,
            go ==> r <= rows && r as nat == 1 + k * every,
            !go ==> 1 + k * every > rows,
            k >= 1 ==> 1 + (k - 1) * every <= rows,
            cells_view(cells@) == flat(k, sparse_fill_step(every as nat)),
        decreases rows + 1 - r + (if go { 1int } else { 0int }),
    {
        push_num(&mut cells, 0, r, 1, r as i64);
        proof {
            lemma_flat_next(k, sparse_fill_step(every as nat));
            assert(cells_view(cells@) =~= flat(k + 1, sparse_fill_step(every as nat)));
            assert((k + 1) * every == k * every + every) by (nonlinear_arith);
            assert((k + 1 - 1) * every == k * every);
            k = k + 1;
        }
        if every > rows || r > rows - every {
            go = false;
        } else {
            r = r + every;
        }
    }
    proof {
        if k >= 1 {
            lemma_fill_count(rows as nat, every as nat, k);
        }
    }
    push_formula(&mut cells, 0, 1, 3, summary_formula);
    WorkbookPlan { sheets, cells }
}

/// Labels of a header row given as literals.
pub open spec fn labels(ls: Seq<&'static str>) -> Seq<Seq<char>> {
    ls.map_values(|s: &'static str| s@)
}

/// Lookup key `index` with the given prefix: the prefix and six digits.
pub open spec fn key_text(prefix: Seq<char>, index: nat) -> Seq<char> {
    prefix + zero_pad(index, 6)
}

/// Lookup table row for `index = i + 1`, on row `index + 1`: key, value
/// `7 index + index mod 13`, checksum `11 index + index mod 17`.
pub open spec fn dense_lookup_step(prefix: Seq<char>) -> spec_fn(nat) -> Seq<CellView> {
    |i: nat| {
        let index = i + 1;
        let row = index + 1;
        seq![
            text_cell(1, row, 1, key_text(prefix, index)),
            num_cell(1, row, 2, (7 * index + index % 13) as int),
            num_cell(1, row, 3, (11 * index + index % 17) as int),
        ]
    }
}

/// The lookup index that query `i` (on row `i + 2`) asks for: two pinned
/// rows, else a stride walk over the table.
pub open spec fn dense_query_index(i: nat, lookup_rows: nat, stride: nat) -> nat {
    let row = i + 2;
    if row == 2 {
        40_000
    } else if row == 10_000 {
        123
    } else {
        ((i * stride) % lookup_rows) + 1
    }
}

/// Query row `i`: a key and two INDEX/MATCH formulas over the table, whose
/// last row is `last`.
pub open spec fn dense_query_step(prefix: Seq<char>, lookup_rows: nat, stride: nat) -> spec_fn(nat) -> Seq<CellView> {
    |i: nat| {
        let row = i + 2;
        let last = lookup_rows + 1;
        seq![
            text_cell(2, row, 1, key_text(prefix, dense_query_index(i, lookup_rows, stride))),
            formula_cell(2, row, 2, pieces_text(seq![
                Piece::Lit("=INDEX(Lookup!$B$2:$B$"), Piece::Num(last as u64), Piece::Lit(",MATCH(A"), Piece::Num(row as u64),
                Piece::Lit(",Lookup!$A$2:$A$"), Piece::Num(last as u64), Piece::Lit(",0))")])),
            formula_cell(2, row, 3, pieces_text(seq![
                Piece::Lit("=INDEX(Lookup!$C$2:$C$"), Piece::Num(last as u64), Piece::Lit(",MATCH(A"), Piece::Num(row as u64),
                Piece::Lit(",Lookup!$A$2:$A$"), Piece::Num(last as u64), Piece::Lit(",0))")])),
        ]
    }
}

pub open spec fn dense_header(sheet: nat) -> Seq<CellView> {
    header_cells(sheet, 1, labels(seq!["Key", "Value", "Checksum"]))
}

/// A keyed lookup table and a sheet of INDEX/MATCH queries into it.
pub open spec fn dense_lookup_cells(lookup_rows: nat, query_rows: nat, prefix: Seq<char>, stride: nat) -> Seq<CellView> {
    dense_header(1) + flat(lookup_rows, dense_lookup_step(prefix)) + dense_header(2)
        + flat(query_rows, dense_query_step(prefix, lookup_rows, stride))
}

/// Whether the dense lookup workbook's numbers fit in 32 bits, as the
/// generator computes them, and every query has a table to walk.
pub open spec fn dense_lookup_fits(lookup_rows: nat, query_rows: nat, stride: nat) -> bool {
    &&& 11 * lookup_rows + 16 <= u32::MAX
    &&& query_rows + 1 <= u32::MAX
    &&& query_rows >= 1 ==> lookup_rows >= 1 && (query_rows - 1) * stride <= u32::MAX
}

/// Plans the dense INDEX/MATCH lookup workbook.
pub fn dense_lookup_plan(lookup_rows: u32, query_rows: u32, key_prefix: &str, stride: u32) -> (p: WorkbookPlan)
    requires
        dense_lookup_fits(lookup_rows as nat, query_rows as nat, stride as nat),
    ensures
        names_view(p.sheets@) == seq!["Sheet1"@, "Lookup"@, "Queries"@],
        cells_view(p.cells@) == dense_lookup_cells(lookup_rows as nat, query_rows as nat, key_prefix@, stride as nat),
{
    let sheets = sheet_names(vec!["Sheet1", "Lookup", "Queries"]);
    let mut cells = Vec::new();
    let lookup_last_row = lookup_rows + 1;
    push_header(&mut cells, 1, 1, vec!["Key", "Value", "Checksum"]);
    let ghost h1 = cells_view(cells@);
    assert(cells_view(cells@) =~= h1 + flat(0, dense_lookup_step(key_prefix@)));
    let mut i: u32 = 0;
    while i < lookup_rows
        invariant
            0 <= i <= lookup_rows,
            11 * lookup_rows + 16 <= u32::MAX,
            cells_view(cells@) == h1 + flat(i as nat, dense_lookup_step(key_prefix@)),
        decreases lookup_rows - i,
    {
        let index = i + 1;
        let row = index + 1;
        push_text(&mut cells, 1, row, 1, lookup_key(key_prefix, index));
        push_num(&mut cells, 1, row, 2, (index * 7 + index % 13) as i64);
        push_num(&mut cells, 1, row, 3, (index * 11 + index % 17) as i64);
        proof {
            lemma_flat_next(i as nat, dense_lookup_step(key_prefix@));
            assert(cells_view(cells@) =~= h1 + flat((i + 1) as nat, dense_lookup_step(key_prefix@)));
        }
        i = i + 1;
    }
    push_header(&mut cells, 2, 1, vec!["Key", "Value", "Checksum"]);
    let ghost h2 = cells_view(cells@);
    assert(cells_view(cells@) =~= h2 + flat(0, dense_query_step(key_prefix@, lookup_rows as nat, stride as nat)));
    i = 0;
    while i < query_rows
        invariant
            0 <= i <= query_rows,
            lookup_last_row == lookup_rows + 1,
            dense_lookup_fits(lookup_rows as nat, query_rows as nat, stride as nat),
            cells_view(cells@) == h2 + flat(i as nat, dense_query_step(key_prefix@, lookup_rows as nat, stride as nat)),
        decreases query_rows - i,
    {
        let row = i + 2;
        assert(i * stride <= (query_rows - 1) * stride) by (nonlinear_arith)
            requires i <= query_rows - 1;
        let default_index = ((i * stride) % lookup_rows) + 1;
        let lookup_index = if row == 2 { 40_000 } else if row == 10_000 { 123 } else { default_index };
        push_text(&mut cells, 2, row, 1, lookup_key(key_prefix, lookup_index));
        push_pieces(&mut cells, 2, row, 2, vec![
            Piece::Lit("=INDEX(Lookup!$B$2:$B$"), Piece::Num(lookup_last_row as u64), Piece::Lit(",MATCH(A"), Piece::Num(row as u64),
            Piece::Lit(",Lookup!$A$2:$A$"), Piece::Num(lookup_last_row as u64), Piece::Lit(",0))")]);
        push_pieces(&mut cells, 2, row, 3, vec![
            Piece::Lit("=INDEX(Lookup!$C$2:$C$"), Piece::Num(lookup_last_row as u64), Piece::Lit(",MATCH(A"), Piece::Num(row as u64),
            Piece::Lit(",Lookup!$A$2:$A$"), Piece::Num(lookup_last_row as u64), Piece::Lit(",0))")]);
        proof {
            lemma_flat_next(i as nat, dense_query_step(key_prefix@, lookup_rows as nat, stride as nat));
            assert(cells_view(cells@) =~= h2 + flat((i + 1) as nat, dense_query_step(key_prefix@, lookup_rows as nat, stride as nat)));
        }
        i = i + 1;
    }
    assert(cells_view(cells@) =~= dense_lookup_cells(lookup_rows as nat, query_rows as nat, key_prefix@, stride as nat));
    WorkbookPlan { sheets, cells }
}

/// The six regions of the dimension/fact workbook with their weights.
pub open spec fn dim_regions() -> Seq<(&'static str, u32)> {
    seq![("North", 3u32), ("South", 5u32), ("East", 7u32), ("West", 11u32), ("Central", 13u32), ("Coastal", 17u32)]
}

/// The five products of the dimension/fact workbook with their factors.
pub open spec fn dim_products() -> Seq<(&'static str, u32)> {
    seq![("Alpha", 2u32), ("Beta", 4u32), ("Gamma", 6u32), ("Delta", 8u32), ("Epsilon", 10u32)]
}

/// A dimension row: key and number on row `k + 2`.
pub open spec fn dim_step(sheet: nat, entries: Seq<(&'static str, u32)>) -> spec_fn(nat) -> Seq<CellView> {
    |k: nat| seq![text_cell(sheet, k + 2, 1, entries[k as int].0@), num_cell(sheet, k + 2, 2, entries[k as int].1 as int)]
}

/// Fact row `i` (row `i + 2`): id, region and product cycling, quantity
/// `i mod 11 + 1`, price `i mod 19 + 10`, revenue formula.
pub open spec fn fact_step() -> spec_fn(nat) -> Seq<CellView> {
    |i: nat| {
        let row = i + 2;
        seq![
            text_cell(3, row, 1, "F"@ + zero_pad(i + 1, 6)),
            text_cell(3, row, 2, dim_regions()[(i % 6) as int].0@),
            text_cell(3, row, 3, dim_products()[((i / 6) % 5) as int].0@),
            num_cell(3, row, 4, ((i % 11) + 1) as int),
            num_cell(3, row, 5, ((i % 19) + 10) as int),
            formula_cell(3, row, 6, pieces_text(seq![Piece::Lit("=D"), Piece::Num(row as u64), Piece::Lit("*E"), Piece::Num(row as u64)])),
        ]
    }
}

/// The fact a report row looks up: two pinned rows, else a stride of 37.
pub open spec fn report_fact_index(i: nat, fact_rows: nat) -> nat {
    let row = i + 2;
    if row == 2 {
        12_345
    } else if row == 3 {
        12_351
    } else {
        ((i * 37) % fact_rows) + 1
    }
}

/// `=INDEX(Facts!${c}$2:${c}${last},MATCH(A{row},Facts!$A$2:$A${last},0))`
/// for a fact column `c` given by its two-letter range prefix.
pub open spec fn fact_lookup(col_range: &'static str, last: nat, row: nat) -> Seq<Piece> {
    seq![Piece::Lit(col_range), Piece::Num(last as u64), Piece::Lit(",MATCH(A"), Piece::Num(row as u64),
        Piece::Lit(",Facts!$A$2:$A$"), Piece::Num(last as u64), Piece::Lit(",0))")]
}

/// Report row `i`: a fact id, its revenue, keys, dimension weights and the
/// adjusted revenue.
pub open spec fn report_step(fact_rows: nat) -> spec_fn(nat) -> Seq<CellView> {
    |i: nat| {
        let row = i + 2;
        let last = fact_rows + 1;
        seq![
            text_cell(4, row, 1, "F"@ + zero_pad(report_fact_index(i, fact_rows), 6)),
            formula_cell(4, row, 2, pieces_text(fact_lookup("=INDEX(Facts!$D$2:$D$", last, row)
                + fact_lookup("*INDEX(Facts!$E$2:$E$", last, row))),
            formula_cell(4, row, 3, pieces_text(fact_lookup("=INDEX(Facts!$B$2:$B$", last, row))),
            formula_cell(4, row, 4, pieces_text(fact_lookup("=INDEX(Facts!$C$2:$C$", last, row))),
            formula_cell(4, row, 5, pieces_text(seq![Piece::Lit("=INDEX(RegionDim!$B$2:$B$7,MATCH(C"), Piece::Num(row as u64),
                Piece::Lit(",RegionDim!$A$2:$A$7,0))")])),
            formula_cell(4, row, 6, pieces_text(seq![Piece::Lit("=INDEX(ProductDim!$B$2:$B$6,MATCH(D"), Piece::Num(row as u64),
                Piece::Lit(",ProductDim!$A$2:$A$6,0))")])),
            formula_cell(4, row, 7, pieces_text(seq![Piece::Lit("=B"), Piece::Num(row as u64), Piece::Lit("*E"), Piece::Num(row as u64),
                Piece::Lit("*F"), Piece::Num(row as u64)])),
        ]
    }
}

/// Two dimension tables, a fact table and a report that joins them.
pub open spec fn dim_fact_cells(fact_rows: nat, report_rows: nat) -> Seq<CellView> {
    header_cells(1, 1, labels(seq!["RegionKey", "RegionWeight"])) + flat(6, dim_step(1, dim_regions()))
        + header_cells(2, 1, labels(seq!["ProductKey", "ProductFactor"])) + flat(5, dim_step(2, dim_products()))
        + header_cells(3, 1, labels(seq!["FactId", "RegionKey", "ProductKey", "Qty", "Price", "Revenue"]))
        + flat(fact_rows, fact_step())
        + header_cells(4, 1, labels(seq!["FactId", "Revenue", "RegionKey", "ProductKey", "RegionWeight", "ProductFactor", "AdjustedRevenue"]))
        + flat(report_rows, report_step(fact_rows))
}

pub open spec fn dim_fact_fits(fact_rows: nat, report_rows: nat) -> bool {
    &&& fact_rows + 1 <= u32::MAX
    &&& report_rows + 1 <= u32::MAX
    &&& report_rows >= 1 ==> fact_rows >= 1 && (report_rows - 1) * 37 <= u32::MAX
}

fn push_fact_lookup(ps: &mut Vec<Piece>, col_range: &'static str, last: u32, row: u32)
    ensures
        final(ps)@ == old(ps)@ + fact_lookup(col_range, last as nat, row as nat),
{
    ps.push(Piece::Lit(col_range));
    ps.push(Piece::Num(last as u64));
    ps.push(Piece::Lit(",MATCH(A"));
    ps.push(Piece::Num(row as u64));
    ps.push(Piece::Lit(",Facts!$A$2:$A$"));
    ps.push(Piece::Num(last as u64));
    ps.push(Piece::Lit(",0))"));
    assert(ps@ =~= old(ps)@ + fact_lookup(col_range, last as nat, row as nat));
}

fn push_dim_table(cells: &mut Vec<crate::plan::PlannedCell>, sheet: usize, entries: &Vec<(&'static str, u32)>)
    requires
        entries@.len() <= 16,
    ensures
        cells_view(final(cells)@) == cells_view(old(cells)@) + flat(entries@.len(), dim_step(sheet as nat, entries@)),
{
    let ghost start = cells_view(cells@);
    assert(cells_view(cells@) =~= start + flat(0, dim_step(sheet as nat, entries@)));
    let mut k: usize = 0;
    while k < entries.len()
        invariant
            0 <= k <= entries@.len(),
            entries@.len() <= 16,
            cells_view(cells@) == start + flat(k as nat, dim_step(sheet as nat, entries@)),
        decreases entries.len() - k,
    {
        let (name, n) = entries[k];
        crate::plan::push_lit(cells, sheet, (k + 2) as u32, 1, name);
        push_num(cells, sheet, (k + 2) as u32, 2, n as i64);
        proof {
            lemma_flat_next(k as nat, dim_step(sheet as nat, entries@));
            assert(cells_view(cells@) =~= start + flat((k + 1) as nat, dim_step(sheet as nat, entries@)));
        }
        k = k + 1;
    }
}

/// A key of a dimension table: column A of `sheet`, below the header row.
pub open spec fn is_key_cell(c: CellView, sheet: nat) -> bool {
    c.sheet == sheet && c.col == 1 && c.row >= 2
}

/// `last` is the row of the last key written on `sheet`: some key sits on
/// it and no key sits below it.
pub open spec fn last_key_row(cs: Seq<CellView>, sheet: nat, last: nat) -> bool {
    &&& exists|k: int| 0 <= k < cs.len() && is_key_cell(#[trigger] cs[k], sheet) && cs[k].row == last
    &&& forall|k: int| 0 <= k < cs.len() && is_key_cell(#[trigger] cs[k], sheet) ==> cs[k].row <= last
}

/// The product-factor lookup of report row `row` over ProductDim rows
/// `2..=last`.
pub open spec fn product_factor_lookup(last: nat, row: nat) -> Seq<char> {
    "=INDEX(ProductDim!$B$2:$B$"@ + dec(last) + ",MATCH(D"@ + dec(row) + ",ProductDim!$A$2:$A$"@ + dec(last) + ",0))"@
}

/// The product-factor formula of a report row, as the report writes it.
proof fn lemma_product_factor_text(row: nat)
    requires
        row <= u64::MAX,
    ensures
        pieces_text(seq![Piece::Lit("=INDEX(ProductDim!$B$2:$B$6,MATCH(D"), Piece::Num(row as u64),
            Piece::Lit(",ProductDim!$A$2:$A$6,0))")]) == product_factor_lookup(6, row),
{
    reveal_with_fuel(pieces_text, 4);
    reveal_strlit("=INDEX(ProductDim!$B$2:$B$6,MATCH(D");
    reveal_strlit(",ProductDim!$A$2:$A$6,0))");
    reveal_strlit("=INDEX(ProductDim!$B$2:$B$");
    reveal_strlit(",MATCH(D");
    reveal_strlit(",ProductDim!$A$2:$A$");
    reveal_strlit(",0))");
    assert(dec(6) == seq!['6']);
    let ps = seq![Piece::Lit("=INDEX(ProductDim!$B$2:$B$6,MATCH(D"), Piece::Num(row as u64), Piece::Lit(",ProductDim!$A$2:$A$6,0))")];
    assert(ps.drop_last().drop_last().drop_last() =~= Seq::<Piece>::empty());
    assert(ps.drop_last().drop_last().last() == Piece::Lit("=INDEX(ProductDim!$B$2:$B$6,MATCH(D"));
    assert(ps.drop_last().last() == Piece::Num(row as u64));
    assert(ps.last() == Piece::Lit(",ProductDim!$A$2:$A$6,0))"));
    assert("=INDEX(ProductDim!$B$2:$B$6,MATCH(D"@ =~= "=INDEX(ProductDim!$B$2:$B$"@ + dec(6) + ",MATCH(D"@);
    assert(",ProductDim!$A$2:$A$6,0))"@ =~= ",ProductDim!$A$2:$A$"@ + dec(6) + ",0))"@);
    assert(pieces_text(ps) =~= product_factor_lookup(6, row));
}

/// No key of ProductDim sits below row 6, and the Epsilon key sits on it.
proof fn lemma_product_keys_end_at_six(fact_rows: nat, report_rows: nat)
    ensures
        last_key_row(dim_fact_cells(fact_rows, report_rows), 2, 6),
{
    let s1 = header_cells(1, 1, labels(seq!["RegionKey", "RegionWeight"]));
    let s2 = flat(6, dim_step(1, dim_regions()));
    let s3 = header_cells(2, 1, labels(seq!["ProductKey", "ProductFactor"]));
    let s4 = flat(5, dim_step(2, dim_products()));
    let s5 = header_cells(3, 1, labels(seq!["FactId", "RegionKey", "ProductKey", "Qty", "Price", "Revenue"]));
    let s6 = flat(fact_rows, fact_step());
    let s7 = header_cells(4, 1, labels(seq!["FactId", "Revenue", "RegionKey", "ProductKey", "RegionWeight", "ProductFactor", "AdjustedRevenue"]));
    let s8 = flat(report_rows, report_step(fact_rows));
    let cs = dim_fact_cells(fact_rows, report_rows);
    assert(cs == s1 + s2 + s3 + s4 + s5 + s6 + s7 + s8);
    let p = |c: CellView| !is_key_cell(c, 2) || c.row <= 6;
    assert forall|i: nat, j: int| i < 6 && 0 <= j < dim_step(1, dim_regions())(i).len() implies p(#[trigger] dim_step(1, dim_regions())(i)[j]) by {}
    lemma_flat_all(6, dim_step(1, dim_regions()), p);
    assert forall|i: nat, j: int| i < 5 && 0 <= j < dim_step(2, dim_products())(i).len() implies p(#[trigger] dim_step(2, dim_products())(i)[j]) by {}
    lemma_flat_all(5, dim_step(2, dim_products()), p);
    assert forall|i: nat, j: int| 0 <= j < fact_step()(i).len() implies p(#[trigger] fact_step()(i)[j]) by {}
    lemma_flat_all(fact_rows, fact_step(), p);
    assert forall|i: nat, j: int| 0 <= j < report_step(fact_rows)(i).len() implies p(#[trigger] report_step(fact_rows)(i)[j]) by {}
    lemma_flat_all(report_rows, report_step(fact_rows), p);
    let t1 = s1 + s2;
    let t2 = t1 + s3;
    let t3 = t2 + s4;
    let t4 = t3 + s5;
    let t5 = t4 + s6;
    let t6 = t5 + s7;
    assert forall|k: int| 0 <= k < t1.len() implies p(#[trigger] t1[k]) by {
        if k >= s1.len() { assert(t1[k] == s2[k - s1.len()]); }
    }
    assert forall|k: int| 0 <= k < t2.len() implies p(#[trigger] t2[k]) by {
        if k >= t1.len() { assert(t2[k] == s3[k - t1.len()]); } else { assert(t2[k] == t1[k]); }
    }
    assert forall|k: int| 0 <= k < t3.len() implies p(#[trigger] t3[k]) by {
        if k >= t2.len() { assert(t3[k] == s4[k - t2.len()]); } else { assert(t3[k] == t2[k]); }
    }
    assert forall|k: int| 0 <= k < t4.len() implies p(#[trigger] t4[k]) by {
        if k >= t3.len() { assert(t4[k] == s5[k - t3.len()]); } else { assert(t4[k] == t3[k]); }
    }
    assert forall|k: int| 0 <= k < t5.len() implies p(#[trigger] t5[k]) by {
        if k >= t4.len() { assert(t5[k] == s6[k - t4.len()]); } else { assert(t5[k] == t4[k]); }
    }
    assert forall|k: int| 0 <= k < t6.len() implies p(#[trigger] t6[k]) by {
        if k >= t5.len() { assert(t6[k] == s7[k - t5.len()]); } else { assert(t6[k] == t5[k]); }
    }
    assert forall|k: int| 0 <= k < cs.len() && is_key_cell(#[trigger] cs[k], 2) implies cs[k].row <= 6 by {
        if k >= t6.len() { assert(cs[k] == s8[k - t6.len()]); } else { assert(cs[k] == t6[k]); }
        assert(p(cs[k]));
    }
    lemma_flat_at(5, dim_step(2, dim_products()), 2, 4, 0);
    lemma_flat_len(6, dim_step(1, dim_regions()), 2);
    assert(s4[8] == text_cell(2, 6, 1, "Epsilon"@));
    assert(t3[24] == s4[8]);
    assert(cs[24] == t3[24]);
    assert(is_key_cell(cs[24], 2) && cs[24].row == 6);
}

/// Every product key written on ProductDim lies inside the lookup range of
/// every report row: the product-factor formula of each report row looks up
/// ProductDim rows 2 through the row of the last product key written.
pub proof fn lemma_dim_fact_product_lookup_covers_table(fact_rows: nat, report_rows: nat, i: nat)
    requires
        dim_fact_fits(fact_rows, report_rows),
        i < report_rows,
    ensures
        exists|last: nat| #![trigger dec(last)] {
            &&& last_key_row(dim_fact_cells(fact_rows, report_rows), 2, last)
            &&& dim_fact_cells(fact_rows, report_rows).contains(formula_cell(4, i + 2, 6, product_factor_lookup(last, i + 2)))
        },
{
    lemma_product_keys_end_at_six(fact_rows, report_rows);
    lemma_product_factor_text(i + 2);
    let cs = dim_fact_cells(fact_rows, report_rows);
    let s8 = flat(report_rows, report_step(fact_rows));
    let pre = header_cells(1, 1, labels(seq!["RegionKey", "RegionWeight"])) + flat(6, dim_step(1, dim_regions()))
        + header_cells(2, 1, labels(seq!["ProductKey", "ProductFactor"])) + flat(5, dim_step(2, dim_products()))
        + header_cells(3, 1, labels(seq!["FactId", "RegionKey", "ProductKey", "Qty", "Price", "Revenue"]))
        + flat(fact_rows, fact_step())
        + header_cells(4, 1, labels(seq!["FactId", "Revenue", "RegionKey", "ProductKey", "RegionWeight", "ProductFactor", "AdjustedRevenue"]));
    assert(cs == pre + s8);
    assert forall|k: nat| k < report_rows implies #[trigger] report_step(fact_rows)(k).len() == 7 by {}
    lemma_flat_at(report_rows, report_step(fact_rows), 7, i, 5);
    let x = formula_cell(4, i + 2, 6, product_factor_lookup(6, i + 2));
    assert(s8[(i * 7 + 5) as int] == x);
    assert(cs[(pre.len() + i * 7 + 5) as int] == x);
    assert(cs.contains(x));
    assert(dec(6) == dec(6));
}

/// Plans the cross-sheet dimension/fact lookup workbook.
pub fn dim_fact_plan(fact_rows: u32, report_rows: u32) -> (p: WorkbookPlan)
    requires
        dim_fact_fits(fact_rows as nat, report_rows as nat),
    ensures
        names_view(p.sheets@) == seq!["Sheet1"@, "RegionDim"@, "ProductDim"@, "Facts"@, "Report"@],
        cells_view(p.cells@) == dim_fact_cells(fact_rows as nat, report_rows as nat),
{
    let sheets = sheet_names(vec!["Sheet1", "RegionDim", "ProductDim", "Facts", "Report"]);
    let regions: Vec<(&'static str, u32)> = vec![("North", 3), ("South", 5), ("East", 7), ("West", 11), ("Central", 13), ("Coastal", 17)];
    let products: Vec<(&'static str, u32)> = vec![("Alpha", 2), ("Beta", 4), ("Gamma", 6), ("Delta", 8), ("Epsilon", 10)];
    assert(regions@ =~= dim_regions());
    assert(products@ =~= dim_products());
    let fact_last_row = fact_rows + 1;
    let mut cells = Vec::new();
    push_header(&mut cells, 1, 1, vec!["RegionKey", "RegionWeight"]);
    push_dim_table(&mut cells, 1, &regions);
    push_header(&mut cells, 2, 1, vec!["ProductKey", "ProductFactor"]);
    push_dim_table(&mut cells, 2, &products);
    push_header(&mut cells, 3, 1, vec!["FactId", "RegionKey", "ProductKey", "Qty", "Price", "Revenue"]);
    let ghost h = cells_view(cells@);
    assert(h =~= header_cells(1, 1, labels(seq!["RegionKey", "RegionWeight"])) + flat(6, dim_step(1, dim_regions()))
        + header_cells(2, 1, labels(seq!["ProductKey", "ProductFactor"])) + flat(5, dim_step(2, dim_products()))
        + header_cells(3, 1, labels(seq!["FactId", "RegionKey", "ProductKey", "Qty", "Price", "Revenue"])));
    assert(cells_view(cells@) =~= h + flat(0, fact_step()));
    let mut i: u32 = 0;
    while i < fact_rows
        invariant
            0 <= i <= fact_rows,
            fact_rows + 1 <= u32::MAX,
            regions@ == dim_regions(),
            products@ == dim_products(),
            cells_view(cells@) == h + flat(i as nat, fact_step()),
        decreases fact_rows - i,
    {
        let row = i + 2;
        push_text(&mut cells, 3, row, 1, fact_id(i + 1));
        crate::plan::push_lit(&mut cells, 3, row, 2, regions[(i % 6) as usize].0);
        crate::plan::push_lit(&mut cells, 3, row, 3, products[((i / 6) % 5) as usize].0);
        push_num(&mut cells, 3, row, 4, ((i % 11) + 1) as i64);
        push_num(&mut cells, 3, row, 5, ((i % 19) + 10) as i64);
        push_pieces(&mut cells, 3, row, 6, vec![Piece::Lit("=D"), Piece::Num(row as u64), Piece::Lit("*E"), Piece::Num(row as u64)]);
        proof {
            lemma_flat_next(i as nat, fact_step());
            assert(cells_view(cells@) =~= h + flat((i + 1) as nat, fact_step()));
        }
        i = i + 1;
    }
    push_header(&mut cells, 4, 1, vec!["FactId", "Revenue", "RegionKey", "ProductKey", "RegionWeight", "ProductFactor", "AdjustedRevenue"]);
    let ghost h4 = cells_view(cells@);
    assert(cells_view(cells@) =~= h4 + flat(0, report_step(fact_rows as nat)));
    i = 0;
    while i < report_rows
        invariant
            0 <= i <= report_rows,
            fact_last_row == fact_rows + 1,
            dim_fact_fits(fact_rows as nat, report_rows as nat),
            cells_view(cells@) == h4 + flat(i as nat, report_step(fact_rows as nat)),
        decreases report_rows - i,
    {
        let row = i + 2;
        assert(i * 37 <= (report_rows - 1) * 37) by (nonlinear_arith)
            requires i <= report_rows - 1;
        let default_index = ((i * 37) % fact_rows) + 1;
        let fact_index = if row == 2 { 12_345 } else if row == 3 { 12_351 } else { default_index };
        push_text(&mut cells, 4, row, 1, fact_id(fact_index));
        let mut revenue: Vec<Piece> = Vec::new();
        push_fact_lookup(&mut revenue, "=INDEX(Facts!$D$2:$D$", fact_last_row, row);
        push_fact_lookup(&mut revenue, "*INDEX(Facts!$E$2:$E$", fact_last_row, row);
        assert(revenue@ =~= fact_lookup("=INDEX(Facts!$D$2:$D$", fact_last_row as nat, row as nat)
            + fact_lookup("*INDEX(Facts!$E$2:$E$", fact_last_row as nat, row as nat));
        push_pieces(&mut cells, 4, row, 2, revenue);
        let mut region_key: Vec<Piece> = Vec::new();
        push_fact_lookup(&mut region_key, "=INDEX(Facts!$B$2:$B$", fact_last_row, row);
        assert(region_key@ =~= fact_lookup("=INDEX(Facts!$B$2:$B$", fact_last_row as nat, row as nat));
        push_pieces(&mut cells, 4, row, 3, region_key);
        let mut product_key: Vec<Piece> = Vec::new();
        push_fact_lookup(&mut product_key, "=INDEX(Facts!$C$2:$C$", fact_last_row, row);
        assert(product_key@ =~= fact_lookup("=INDEX(Facts!$C$2:$C$", fact_last_row as nat, row as nat));
        push_pieces(&mut cells, 4, row, 4, product_key);
        push_pieces(&mut cells, 4, row, 5, vec![Piece::Lit("=INDEX(RegionDim!$B$2:$B$7,MATCH(C"), Piece::Num(row as u64),
            Piece::Lit(",RegionDim!$A$2:$A$7,0))")]);
        push_pieces(&mut cells, 4, row, 6, vec![Piece::Lit("=INDEX(ProductDim!$B$2:$B$6,MATCH(D"), Piece::Num(row as u64),
            Piece::Lit(",ProductDim!$A$2:$A$6,0))")]);
        push_pieces(&mut cells, 4, row, 7, vec![Piece::Lit("=B"), Piece::Num(row as u64), Piece::Lit("*E"), Piece::Num(row as u64),
            Piece::Lit("*F"), Piece::Num(row as u64)]);
        proof {
            lemma_flat_next(i as nat, report_step(fact_rows as nat));
            assert(cells_view(cells@) =~= h4 + flat((i + 1) as nat, report_step(fact_rows as nat)));
        }
        i = i + 1;
    }
    assert(cells_view(cells@) =~= dim_fact_cells(fact_rows as nat, report_rows as nat));
    WorkbookPlan { sheets, cells }
}

pub open spec fn regions4() -> Seq<&'static str> {
    seq!["North", "South", "East", "West"]
}

pub open spec fn products5() -> Seq<&'static str> {
    seq!["A", "B", "C", "D", "E"]
}

pub open spec fn channels3() -> Seq<&'static str> {
    seq!["Online", "Retail", "Partner"]
}

pub open spec fn statuses4() -> Seq<&'static str> {
    seq!["Open", "Closed", "Pending", "Escalated"]
}

pub open spec fn quarters4() -> Seq<&'static str> {
    seq!["Q1", "Q2", "Q3", "Q4"]
}

/// Region, product and channel of fact or report index `i`: region fastest,
/// then product, then channel.
pub open spec fn rpc_cells(sheet: nat, row: nat, i: nat) -> Seq<CellView> {
    seq![
        text_cell(sheet, row, 1, regions4()[(i % 4) as int]@),
        text_cell(sheet, row, 2, products5()[((i / 4) % 5) as int]@),
        text_cell(sheet, row, 3, channels3()[((i / 20) % 3) as int]@),
    ]
}

/// Fact row `i` of the SUMIFS workbook: keys, quantity `i mod 17 + 1`, price
/// `i mod 23 + 10` and the revenue template.
pub open spec fn sumifs_fact_step(revenue: Seq<char>) -> spec_fn(nat) -> Seq<CellView> {
    |i: nat| {
        let r = i + 2;
        rpc_cells(1, r, i) + seq![
            num_cell(1, r, 4, ((i % 17) + 1) as int),
            num_cell(1, r, 5, ((i % 23) + 10) as int),
            formula_cell(1, r, 6, fill_row(revenue, r)),
        ]
    }
}

/// Report row `i` of the SUMIFS workbook: keys and the SUMIFS template.
pub open spec fn sumifs_report_step(sumifs: Seq<char>) -> spec_fn(nat) -> Seq<CellView> {
    |i: nat| rpc_cells(2, i + 2, i) + seq![formula_cell(2, i + 2, 4, fill_row(sumifs, i + 2))]
}

/// A fact table and a report of SUMIFS over whole columns.
pub open spec fn sumifs_cells(fact_rows: nat, report_rows: nat, revenue: Seq<char>, sumifs: Seq<char>) -> Seq<CellView> {
    header_cells(1, 1, labels(seq!["Region", "Product", "Channel", "Qty", "Price", "Revenue"]))
        + flat(fact_rows, sumifs_fact_step(revenue))
        + header_cells(2, 1, labels(seq!["Region", "Product", "Channel", "Revenue"]))
        + flat(report_rows, sumifs_report_step(sumifs))
}

fn name_list(names: Vec<&'static str>) -> (v: Vec<&'static str>)
    ensures
        v@ == names@,
{
    names
}

fn push_rpc(cells: &mut Vec<crate::plan::PlannedCell>, sheet: usize, row: u32, i: u32,
    regions: &Vec<&'static str>, products: &Vec<&'static str>, channels: &Vec<&'static str>)
    requires
        regions@ == regions4(),
        products@ == products5(),
        channels@ == channels3(),
    ensures
        cells_view(final(cells)@) == cells_view(old(cells)@) + rpc_cells(sheet as nat, row as nat, i as nat),
{
    crate::plan::push_lit(cells, sheet, row, 1, regions[(i % 4) as usize]);
    crate::plan::push_lit(cells, sheet, row, 2, products[((i / 4) % 5) as usize]);
    crate::plan::push_lit(cells, sheet, row, 3, channels[((i / 20) % 3) as usize]);
    assert(cells_view(cells@) =~= cells_view(old(cells)@) + rpc_cells(sheet as nat, row as nat, i as nat));
}

/// Plans the SUMIFS fact-table workbook.
pub fn sumifs_fact_table_plan(fact_rows: u32, report_rows: u32, revenue: &str, sumifs: &str) -> (p: WorkbookPlan)
    requires
        fact_rows + 1 <= u32::MAX,
        report_rows + 1 <= u32::MAX,
    ensures
        names_view(p.sheets@) == seq!["Sheet1"@, "Facts"@, "Report"@],
        cells_view(p.cells@) == sumifs_cells(fact_rows as nat, report_rows as nat, revenue@, sumifs@),
{
    let sheets = sheet_names(vec!["Sheet1", "Facts", "Report"]);
    let regions = name_list(vec!["North", "South", "East", "West"]);
    let products = name_list(vec!["A", "B", "C", "D", "E"]);
    let channels = name_list(vec!["Online", "Retail", "Partner"]);
    let mut cells = Vec::new();
    push_header(&mut cells, 1, 1, vec!["Region", "Product", "Channel", "Qty", "Price", "Revenue"]);
    let ghost h = cells_view(cells@);
    assert(cells_view(cells@) =~= h + flat(0, sumifs_fact_step(revenue@)));
    let mut i: u32 = 0;
    while i < fact_rows
        invariant
            0 <= i <= fact_rows,
            fact_rows + 1 <= u32::MAX,
            regions@ == regions4(),
            products@ == products5(),
            channels@ == channels3(),
            cells_view(cells@) == h + flat(i as nat, sumifs_fact_step(revenue@)),
        decreases fact_rows - i,
    {
        let r = i + 2;
        push_rpc(&mut cells, 1, r, i, &regions, &products, &channels);
        push_num(&mut cells, 1, r, 4, ((i % 17) + 1) as i64);
        push_num(&mut cells, 1, r, 5, ((i % 23) + 10) as i64);
        push_formula(&mut cells, 1, r, 6, fill_row_exec(revenue, r));
        proof {
            lemma_flat_next(i as nat, sumifs_fact_step(revenue@));
            assert(cells_view(cells@) =~= h + flat((i + 1) as nat, sumifs_fact_step(revenue@)));
        }
        i = i + 1;
    }
    push_header(&mut cells, 2, 1, vec!["Region", "Product", "Channel", "Revenue"]);
    let ghost h2 = cells_view(cells@);
    assert(cells_view(cells@) =~= h2 + flat(0, sumifs_report_step(sumifs@)));
    i = 0;
    while i < report_rows
        invariant
            0 <= i <= report_rows,
            report_rows + 1 <= u32::MAX,
            regions@ == regions4(),
            products@ == products5(),
            channels@ == channels3(),
            cells_view(cells@) == h2 + flat(i as nat, sumifs_report_step(sumifs@)),
        decreases report_rows - i,
    {
        let r = i + 2;
        push_rpc(&mut cells, 2, r, i, &regions, &products, &channels);
        push_formula(&mut cells, 2, r, 4, fill_row_exec(sumifs, r));
        proof {
            lemma_flat_next(i as nat, sumifs_report_step(sumifs@));
            assert(cells_view(cells@) =~= h2 + flat((i + 1) as nat, sumifs_report_step(sumifs@)));
        }
        i = i + 1;
    }
    WorkbookPlan { sheets, cells }
}

/// Fact row `i` of the COUNTIFS workbook: keys, status cycling every 60
/// rows and quantity `(i / 240) mod 12 + 1`.
pub open spec fn countifs_fact_step() -> spec_fn(nat) -> Seq<CellView> {
    |i: nat| {
        let r = i + 2;
        rpc_cells(1, r, i) + seq![
            text_cell(1, r, 4, statuses4()[((i / 60) % 4) as int]@),
            num_cell(1, r, 5, (((i / 240) % 12) + 1) as int),
        ]
    }
}

/// Minimum quantity of report row `i`: 3, 6, 9, 12 in turn.
pub open spec fn min_qty(i: nat) -> nat {
    3 * ((i % 4) + 1)
}

/// Report row `i` of the COUNTIFS workbook.
pub open spec fn countifs_report_step(countifs: Seq<char>, fact_last_row: nat) -> spec_fn(nat) -> Seq<CellView> {
    |i: nat| {
        let r = i + 2;
        rpc_cells(2, r, i) + seq![
            text_cell(2, r, 4, statuses4()[((i / 60) % 4) as int]@),
            num_cell(2, r, 5, min_qty(i) as int),
            formula_cell(2, r, 6, spec_render_formula_template(countifs, r, Some(fact_last_row))),
        ]
    }
}

/// A fact table and a report of multi-criteria COUNTIFS.
pub open spec fn countifs_cells(fact_rows: nat, report_rows: nat, countifs: Seq<char>) -> Seq<CellView> {
    header_cells(1, 1, labels(seq!["Region", "Product", "Channel", "Status", "Qty"]))
        + flat(fact_rows, countifs_fact_step())
        + header_cells(2, 1, labels(seq!["Region", "Product", "Channel", "Status", "MinQty", "Count"]))
        + flat(report_rows, countifs_report_step(countifs, fact_rows + 1))
}

/// Plans the multi-criteria COUNTIFS workbook.
pub fn countifs_plan(fact_rows: u32, report_rows: u32, countifs: &str) -> (p: WorkbookPlan)
    requires
        fact_rows + 1 <= u32::MAX,
        report_rows + 1 <= u32::MAX,
    ensures
        names_view(p.sheets@) == seq!["Sheet1"@, "Facts"@, "Report"@],
        cells_view(p.cells@) == countifs_cells(fact_rows as nat, report_rows as nat, countifs@),
{
    let sheets = sheet_names(vec!["Sheet1", "Facts", "Report"]);
    let regions = name_list(vec!["North", "South", "East", "West"]);
    let products = name_list(vec!["A", "B", "C", "D", "E"]);
    let channels = name_list(vec!["Online", "Retail", "Partner"]);
    let statuses = name_list(vec!["Open", "Closed", "Pending", "Escalated"]);
    let fact_last_row = fact_rows + 1;
    let mut cells = Vec::new();
    push_header(&mut cells, 1, 1, vec!["Region", "Product", "Channel", "Status", "Qty"]);
    let ghost h = cells_view(cells@);
    assert(cells_view(cells@) =~= h + flat(0, countifs_fact_step()));
    let mut i: u32 = 0;
    while i < fact_rows
        invariant
            0 <= i <= fact_rows,
            fact_rows + 1 <= u32::MAX,
            regions@ == regions4(),
            products@ == products5(),
            channels@ == channels3(),
            statuses@ == statuses4(),
            cells_view(cells@) == h + flat(i as nat, countifs_fact_step()),
        decreases fact_rows - i,
    {
        let r = i + 2;
        push_rpc(&mut cells, 1, r, i, &regions, &products, &channels);
        crate::plan::push_lit(&mut cells, 1, r, 4, statuses[((i / 60) % 4) as usize]);
        push_num(&mut cells, 1, r, 5, (((i / 240) % 12) + 1) as i64);
        proof {
            lemma_flat_next(i as nat, countifs_fact_step());
            assert(cells_view(cells@) =~= h + flat((i + 1) as nat, countifs_fact_step()));
        }
        i = i + 1;
    }
    push_header(&mut cells, 2, 1, vec!["Region", "Product", "Channel", "Status", "MinQty", "Count"]);
    let ghost h2 = cells_view(cells@);
    assert(cells_view(cells@) =~= h2 + flat(0, countifs_report_step(countifs@, fact_last_row as nat)));
    i = 0;
    while i < report_rows
        invariant
            0 <= i <= report_rows,
            report_rows + 1 <= u32::MAX,
            fact_last_row == fact_rows + 1,
            regions@ == regions4(),
            products@ == products5(),
            channels@ == channels3(),
            statuses@ == statuses4(),
            cells_view(cells@) == h2 + flat(i as nat, countifs_report_step(countifs@, fact_last_row as nat)),
        decreases report_rows - i,
    {
        let r = i + 2;
        push_rpc(&mut cells, 2, r, i, &regions, &products, &channels);
        crate::plan::push_lit(&mut cells, 2, r, 4, statuses[((i / 60) % 4) as usize]);
        push_num(&mut cells, 2, r, 5, (3 * ((i % 4) + 1)) as i64);
        push_formula(&mut cells, 2, r, 6, render_formula_template(countifs, r, Some(fact_last_row)));
        proof {
            lemma_flat_next(i as nat, countifs_report_step(countifs@, fact_last_row as nat));
            assert(cells_view(cells@) =~= h2 + flat((i + 1) as nat, countifs_report_step(countifs@, fact_last_row as nat)));
        }
        i = i + 1;
    }
    WorkbookPlan { sheets, cells }
}

/// Fact row `i` of the mixed roll-up workbook: keys, quarter, units
/// `(i / 240) mod 9 + 1 + region`, price
/// `(i / 2160) mod 15 + 10 + product + quarter`, revenue template.
pub open spec fn rollup_fact_step(revenue: Seq<char>) -> spec_fn(nat) -> Seq<CellView> {
    |i: nat| {
        let r = i + 2;
        let region = i % 4;
        let product = (i / 4) % 5;
        let quarter = (i / 60) % 4;
        rpc_cells(1, r, i) + seq![
            text_cell(1, r, 4, quarters4()[quarter as int]@),
            num_cell(1, r, 5, (((i / 240) % 9) + 1 + region) as int),
            num_cell(1, r, 6, (((i / 2_160) % 15) + 10 + product + quarter) as int),
            formula_cell(1, r, 7, spec_render_formula_template(revenue, r, None)),
        ]
    }
}

/// The four report formula templates of the roll-up workbook.
#[derive(Clone, Debug)]
pub struct RollupFormulas {
    pub units: String,
    pub orders: String,
    pub average_price: String,
    pub price_total: String,
}

/// Report row `i` of the roll-up workbook: keys, quarter and four
/// aggregations.
pub open spec fn rollup_report_step(f: Seq<Seq<char>>, fact_last_row: nat) -> spec_fn(nat) -> Seq<CellView> {
    |i: nat| {
        let r = i + 2;
        rpc_cells(2, r, i) + seq![
            text_cell(2, r, 4, quarters4()[((i / 60) % 4) as int]@),
            formula_cell(2, r, 5, spec_render_formula_template(f[0], r, Some(fact_last_row))),
            formula_cell(2, r, 6, spec_render_formula_template(f[1], r, Some(fact_last_row))),
            formula_cell(2, r, 7, spec_render_formula_template(f[2], r, Some(fact_last_row))),
            formula_cell(2, r, 8, spec_render_formula_template(f[3], r, Some(fact_last_row))),
        ]
    }
}

pub open spec fn rollup_formulas_view(f: RollupFormulas) -> Seq<Seq<char>> {
    seq![f.units@, f.orders@, f.average_price@, f.price_total@]
}

/// A fact table and a grid of SUMIFS, COUNTIFS and AVERAGEIFS reports.
pub open spec fn rollup_cells(fact_rows: nat, report_rows: nat, revenue: Seq<char>, f: Seq<Seq<char>>) -> Seq<CellView> {
    header_cells(1, 1, labels(seq!["Region", "Product", "Channel", "Quarter", "Units", "Price", "Revenue"]))
        + flat(fact_rows, rollup_fact_step(revenue))
        + header_cells(2, 1, labels(seq!["Region", "Product", "Channel", "Quarter", "Units", "Orders", "AvgPrice", "PriceTotal"]))
        + flat(report_rows, rollup_report_step(f, fact_rows + 1))
}

/// Plans the mixed roll-up workbook.
pub fn rollup_plan(fact_rows: u32, report_rows: u32, revenue: &str, f: &RollupFormulas) -> (p: WorkbookPlan)
    requires
        fact_rows + 1 <= u32::MAX,
        report_rows + 1 <= u32::MAX,
    ensures
        names_view(p.sheets@) == seq!["Sheet1"@, "Facts"@, "Report"@],
        cells_view(p.cells@) == rollup_cells(fact_rows as nat, report_rows as nat, revenue@, rollup_formulas_view(*f)),
{
    let sheets = sheet_names(vec!["Sheet1", "Facts", "Report"]);
    let regions = name_list(vec!["North", "South", "East", "West"]);
    let products = name_list(vec!["A", "B", "C", "D", "E"]);
    let channels = name_list(vec!["Online", "Retail", "Partner"]);
    let quarters = name_list(vec!["Q1", "Q2", "Q3", "Q4"]);
    let fact_last_row = fact_rows + 1;
    let mut cells = Vec::new();
    push_header(&mut cells, 1, 1, vec!["Region", "Product", "Channel", "Quarter", "Units", "Price", "Revenue"]);
    let ghost h = cells_view(cells@);
    assert(cells_view(cells@) =~= h + flat(0, rollup_fact_step(revenue@)));
    let mut i: u32 = 0;
    while i < fact_rows
        invariant
            0 <= i <= fact_rows,
            fact_rows + 1 <= u32::MAX,
            regions@ == regions4(),
            products@ == products5(),
            channels@ == channels3(),
            quarters@ == quarters4(),
            cells_view(cells@) == h + flat(i as nat, rollup_fact_step(revenue@)),
        decreases fact_rows - i,
    {
        let r = i + 2;
        let region = i % 4;
        let product = (i / 4) % 5;
        let quarter = (i / 60) % 4;
        push_rpc(&mut cells, 1, r, i, &regions, &products, &channels);
        crate::plan::push_lit(&mut cells, 1, r, 4, quarters[quarter as usize]);
        push_num(&mut cells, 1, r, 5, (((i / 240) % 9) + 1 + region) as i64);
        push_num(&mut cells, 1, r, 6, (((i / 2_160) % 15) + 10 + product + quarter) as i64);
        push_formula(&mut cells, 1, r, 7, render_formula_template(revenue, r, None));
        proof {
            lemma_flat_next(i as nat, rollup_fact_step(revenue@));
            assert(cells_view(cells@) =~= h + flat((i + 1) as nat, rollup_fact_step(revenue@)));
        }
        i = i + 1;
    }
    push_header(&mut cells, 2, 1, vec!["Region", "Product", "Channel", "Quarter", "Units", "Orders", "AvgPrice", "PriceTotal"]);
    let ghost h2 = cells_view(cells@);
    let ghost fv = rollup_formulas_view(*f);
    assert(cells_view(cells@) =~= h2 + flat(0, rollup_report_step(fv, fact_last_row as nat)));
    i = 0;
    while i < report_rows
        invariant
            0 <= i <= report_rows,
            report_rows + 1 <= u32::MAX,
            fact_last_row == fact_rows + 1,
            fv == rollup_formulas_view(*f),
            regions@ == regions4(),
            products@ == products5(),
            channels@ == channels3(),
            quarters@ == quarters4(),
            cells_view(cells@) == h2 + flat(i as nat, rollup_report_step(fv, fact_last_row as nat)),
        decreases report_rows - i,
    {
        let r = i + 2;
        push_rpc(&mut cells, 2, r, i, &regions, &products, &channels);
        crate::plan::push_lit(&mut cells, 2, r, 4, quarters[((i / 60) % 4) as usize]);
        push_formula(&mut cells, 2, r, 5, render_formula_template(f.units.as_str(), r, Some(fact_last_row)));
        push_formula(&mut cells, 2, r, 6, render_formula_template(f.orders.as_str(), r, Some(fact_last_row)));
        push_formula(&mut cells, 2, r, 7, render_formula_template(f.average_price.as_str(), r, Some(fact_last_row)));
        push_formula(&mut cells, 2, r, 8, render_formula_template(f.price_total.as_str(), r, Some(fact_last_row)));
        proof {
            lemma_flat_next(i as nat, rollup_report_step(fv, fact_last_row as nat));
            assert(cells_view(cells@) =~= h2 + flat((i + 1) as nat, rollup_report_step(fv, fact_last_row as nat)));
        }
        i = i + 1;
    }
    WorkbookPlan { sheets, cells }
}

/// Row `i` (row `r = i + 1`): the value `r` and the pattern formula.
pub open spec fn row_insert_step(pattern: Seq<char>) -> spec_fn(nat) -> Seq<CellView> {
    |i: nat| seq![num_cell(0, i + 1, 1, (i + 1) as int), formula_cell(0, i + 1, 2, fill_row(pattern, i + 1))]
}

/// A value column, a formula per row and a roll-up in `C1`.
pub open spec fn row_insert_cells(rows: nat, pattern: Seq<char>, rollup: Seq<char>) -> Seq<CellView> {
    flat(rows, row_insert_step(pattern)) + seq![formula_cell(0, 1, 3, rollup)]
}

/// Plans the row-insert workbook of `rows` rows.
pub fn row_insert_plan(rows: u32, pattern: &str, rollup: String) -> (p: WorkbookPlan)
    ensures
        names_view(p.sheets@) == seq!["Sheet1"@],
        cells_view(p.cells@) == row_insert_cells(rows as nat, pattern@, rollup@),
{
    let sheets = sheet_names(vec!["Sheet1"]);
    let mut cells = Vec::new();
    assert(cells_view(cells@) =~= flat(0, row_insert_step(pattern@)));
    let mut i: u32 = 0;
    while i < rows
        invariant
            0 <= i <= rows,
            cells_view(cells@) == flat(i as nat, row_insert_step(pattern@)),
        decreases rows - i,
    {
        push_num(&mut cells, 0, i + 1, 1, (i + 1) as i64);
        push_formula(&mut cells, 0, i + 1, 2, fill_row_exec(pattern, i + 1));
        proof {
            lemma_flat_next(i as nat, row_insert_step(pattern@));
            assert(cells_view(cells@) =~= flat((i + 1) as nat, row_insert_step(pattern@)));
        }
        i = i + 1;
    }
    push_formula(&mut cells, 0, 1, 3, rollup);
    WorkbookPlan { sheets, cells }
}

/// Input row `i` of the rename workbook: `Inputs!A{r} = r`.
pub open spec fn rename_input_step() -> spec_fn(nat) -> Seq<CellView> {
    |i: nat| seq![num_cell(1, i + 1, 1, (i + 1) as int)]
}

/// Summary row `i`: the pattern formula.
pub open spec fn rename_summary_step(pattern: Seq<char>) -> spec_fn(nat) -> Seq<CellView> {
    |i: nat| seq![formula_cell(2, i + 1, 1, fill_row(pattern, i + 1))]
}

/// The four configurable formulas of the sheet-rename workbook.
#[derive(Clone, Debug)]
pub struct RenameFormulas {
    pub summary_pattern: String,
    pub summary_rollup: String,
    pub direct_rollup: String,
    pub rebind_probe: String,
}

/// Inputs, a summary that reads them across sheets, and three probes whose
/// references must follow a rename of `Inputs`.
pub open spec fn rename_cells(input_rows: nat, summary_rows: nat, f: RenameFormulas) -> Seq<CellView> {
    flat(input_rows, rename_input_step()) + flat(summary_rows, rename_summary_step(f.summary_pattern@)) + seq![
        formula_cell(2, 1, 2, f.summary_rollup@),
        formula_cell(2, 2, 2, f.rebind_probe@),
        formula_cell(2, 1, 3, f.direct_rollup@),
    ]
}

/// Plans the sheet-rename workbook.
pub fn sheet_rename_plan(input_rows: u32, summary_rows: u32, f: RenameFormulas) -> (p: WorkbookPlan)
    ensures
        names_view(p.sheets@) == seq!["Sheet1"@, "Inputs"@, "Summary"@],
        cells_view(p.cells@) == rename_cells(input_rows as nat, summary_rows as nat, f),
{
    let sheets = sheet_names(vec!["Sheet1", "Inputs", "Summary"]);
    let mut cells = Vec::new();
    assert(cells_view(cells@) =~= flat(0, rename_input_step()));
    let mut i: u32 = 0;
    while i < input_rows
        invariant
            0 <= i <= input_rows,
            cells_view(cells@) == flat(i as nat, rename_input_step()),
        decreases input_rows - i,
    {
        push_num(&mut cells, 1, i + 1, 1, (i + 1) as i64);
        proof {
            lemma_flat_next(i as nat, rename_input_step());
            assert(cells_view(cells@) =~= flat((i + 1) as nat, rename_input_step()));
        }
        i = i + 1;
    }
    let ghost a = cells_view(cells@);
    assert(cells_view(cells@) =~= a + flat(0, rename_summary_step(f.summary_pattern@)));
    i = 0;
    while i < summary_rows
        invariant
            0 <= i <= summary_rows,
            cells_view(cells@) == a + flat(i as nat, rename_summary_step(f.summary_pattern@)),
        decreases summary_rows - i,
    {
        push_formula(&mut cells, 2, i + 1, 1, fill_row_exec(f.summary_pattern.as_str(), i + 1));
        proof {
            lemma_flat_next(i as nat, rename_summary_step(f.summary_pattern@));
            assert(cells_view(cells@) =~= a + flat((i + 1) as nat, rename_summary_step(f.summary_pattern@)));
        }
        i = i + 1;
    }
    let RenameFormulas { summary_pattern, summary_rollup, direct_rollup, rebind_probe } = f;
    push_formula(&mut cells, 2, 1, 2, summary_rollup);
    push_formula(&mut cells, 2, 2, 2, rebind_probe);
    push_formula(&mut cells, 2, 1, 3, direct_rollup);
    WorkbookPlan { sheets, cells }
}

/// `Sheet1!A1` reads `Sheet2!A1`, which holds 10.
pub open spec fn recovery_cells() -> Seq<CellView> {
    seq![formula_cell(0, 1, 1, "=Sheet2!A1"@), num_cell(1, 1, 1, 10)]
}

/// Plans the sheet-recovery workbook.
pub fn sheet_recovery_plan() -> (p: WorkbookPlan)
    ensures
        names_view(p.sheets@) == seq!["Sheet1"@, "Sheet2"@],
        cells_view(p.cells@) == recovery_cells(),
{
    let sheets = sheet_names(vec!["Sheet1", "Sheet2"]);
    let mut cells = Vec::new();
    push_formula(&mut cells, 0, 1, 1, crate::text::owned("=Sheet2!A1"));
    push_num(&mut cells, 1, 1, 1, 10);
    assert(cells_view(cells@) =~= recovery_cells());
    WorkbookPlan { sheets, cells }
}

/// Configuration values a scenario may give for its generator, each taken
/// from the scenario's source configuration at the JSON pointer named in
/// its comment (`None` where absent or of another type).
#[derive(Clone, Debug)]
pub struct GeneratorConfig {
    /// `/sheets/0/rows`
    pub sheet0_rows: Option<u64>,
    /// `/sheets/1/rows`
    pub sheet1_rows: Option<u64>,
    /// `/layout/lookup_rows`
    pub lookup_rows: Option<u64>,
    /// `/layout/query_rows`
    pub query_rows: Option<u64>,
    /// `/layout/key_prefix`
    pub key_prefix: Option<String>,
    /// `/layout/query_key_stride`
    pub query_key_stride: Option<u64>,
    /// `/layout/fact_rows`
    pub fact_rows: Option<u64>,
    /// `/layout/report_rows`
    pub report_rows: Option<u64>,
    /// `/layout/sparse_fill/every_n_rows`
    pub every_n_rows: Option<u64>,
    /// `/layout/summary_formula`
    pub summary_formula: Option<String>,
    /// `/layout/formulas/facts_revenue_formula`
    pub facts_revenue_formula: Option<String>,
    /// `/layout/formulas/report_sumifs_formula`
    pub report_sumifs_formula: Option<String>,
    /// `/layout/formulas/report_countifs_formula`
    pub report_countifs_formula: Option<String>,
    /// `/layout/formulas/report_units_formula`
    pub report_units_formula: Option<String>,
    /// `/layout/formulas/report_averageifs_formula`
    pub report_averageifs_formula: Option<String>,
    /// `/layout/formulas/report_price_total_formula`
    pub report_price_total_formula: Option<String>,
    /// `/layout/formula_pattern`
    pub formula_pattern: Option<String>,
    /// `/layout/rollup_formula`
    pub rollup_formula: Option<String>,
    /// `/layout/summary_formula_pattern`
    pub summary_formula_pattern: Option<String>,
    /// `/layout/summary_rollup_formula`
    pub summary_rollup_formula: Option<String>,
    /// `/layout/direct_cross_sheet_rollup_formula`
    pub direct_cross_sheet_rollup_formula: Option<String>,
    /// `/layout/rebind_probe_formula`
    pub rebind_probe_formula: Option<String>,
}

/// A configured number: the value when it fits in 32 bits, else the default.
pub open spec fn num_or(found: Option<u64>, default: u32) -> u32 {
    match found {
        Some(n) => if n <= u32::MAX { n as u32 } else { default },
        None => default,
    }
}

/// A configured text: the value when given, else the default.
pub open spec fn text_or(found: Option<String>, default: Seq<char>) -> Seq<char> {
    match found {
        Some(s) => s@,
        None => default,
    }
}

/// At least one.
pub open spec fn at_least_one(n: u32) -> u32 {
    if n >= 1 { n } else { 1 }
}

/// The generator a corpus scenario uses, with its settings resolved.
#[derive(Clone, Debug)]
pub enum GeneratorChoice {
    /// The headline single-edit workbook, built by the corpus module of the
    /// scenario runner rather than by a plan.
    Headline { rows: u32 },
    Chain { rows: u32 },
    Fanout { rows: u32 },
    CrossSheetMesh { rows: u32 },
    SparseDirtyRegion { rows: u32 },
    DenseLookup { lookup_rows: u32, query_rows: u32, key_prefix: String, stride: u32 },
    DimFact { fact_rows: u32, report_rows: u32 },
    SparseColumn { rows: u32, every: u32, summary: String },
    SumifsFactTable { fact_rows: u32, report_rows: u32, revenue: String, sumifs: String },
    Countifs { fact_rows: u32, report_rows: u32, countifs: String },
    Rollup { fact_rows: u32, report_rows: u32, revenue: String, formulas: RollupFormulas },
    RowInsert { rows: u32, pattern: String, rollup: String },
    SheetRename { input_rows: u32, summary_rows: u32, formulas: RenameFormulas },
    SheetRecovery,
    FinanceModel,
    OpsModel,
}

/// A scenario id with no generator.
#[derive(Clone, Copy, Debug, PartialEq, Eq, Structural)]
pub enum GeneratorError {
    NoGenerator,
}

/// Mathematical content of a generator choice.
pub enum ChoiceView {
    Headline(nat),
    Chain(nat),
    Fanout(nat),
    CrossSheetMesh(nat),
    SparseDirtyRegion(nat),
    DenseLookup(nat, nat, Seq<char>, nat),
    DimFact(nat, nat),
    SparseColumn(nat, nat, Seq<char>),
    SumifsFactTable(nat, nat, Seq<char>, Seq<char>),
    Countifs(nat, nat, Seq<char>),
    Rollup(nat, nat, Seq<char>, Seq<Seq<char>>),
    RowInsert(nat, Seq<char>, Seq<char>),
    SheetRename(nat, nat, Seq<Seq<char>>),
    SheetRecovery,
    FinanceModel,
    OpsModel,
}

pub open spec fn rename_formulas_view(f: RenameFormulas) -> Seq<Seq<char>> {
    seq![f.summary_pattern@, f.summary_rollup@, f.direct_rollup@, f.rebind_probe@]
}

pub open spec fn choice_view(c: GeneratorChoice) -> ChoiceView {
    match c {
        GeneratorChoice::Headline { rows } => ChoiceView::Headline(rows as nat),
        GeneratorChoice::Chain { rows } => ChoiceView::Chain(rows as nat),
        GeneratorChoice::Fanout { rows } => ChoiceView::Fanout(rows as nat),
        GeneratorChoice::CrossSheetMesh { rows } => ChoiceView::CrossSheetMesh(rows as nat),
        GeneratorChoice::SparseDirtyRegion { rows } => ChoiceView::SparseDirtyRegion(rows as nat),
        GeneratorChoice::DenseLookup { lookup_rows, query_rows, key_prefix, stride } =>
            ChoiceView::DenseLookup(lookup_rows as nat, query_rows as nat, key_prefix@, stride as nat),
        GeneratorChoice::DimFact { fact_rows, report_rows } => ChoiceView::DimFact(fact_rows as nat, report_rows as nat),
        GeneratorChoice::SparseColumn { rows, every, summary } => ChoiceView::SparseColumn(rows as nat, every as nat, summary@),
        GeneratorChoice::SumifsFactTable { fact_rows, report_rows, revenue, sumifs } =>
            ChoiceView::SumifsFactTable(fact_rows as nat, report_rows as nat, revenue@, sumifs@),
        GeneratorChoice::Countifs { fact_rows, report_rows, countifs } => ChoiceView::Countifs(fact_rows as nat, report_rows as nat, countifs@),
        GeneratorChoice::Rollup { fact_rows, report_rows, revenue, formulas } =>
            ChoiceView::Rollup(fact_rows as nat, report_rows as nat, revenue@, rollup_formulas_view(formulas)),
        GeneratorChoice::RowInsert { rows, pattern, rollup } => ChoiceView::RowInsert(rows as nat, pattern@, rollup@),
        GeneratorChoice::SheetRename { input_rows, summary_rows, formulas } =>
            ChoiceView::SheetRename(input_rows as nat, summary_rows as nat, rename_formulas_view(formulas)),
        GeneratorChoice::SheetRecovery => ChoiceView::SheetRecovery,
        GeneratorChoice::FinanceModel => ChoiceView::FinanceModel,
        GeneratorChoice::OpsModel => ChoiceView::OpsModel,
    }
}

pub open spec fn default_countifs() -> Seq<char> {
    "=COUNTIFS(Facts!$A$2:$A${fact_last_row},A{row},Facts!$B$2:$B${fact_last_row},B{row},Facts!$C$2:$C${fact_last_row},C{row},Facts!$D$2:$D${fact_last_row},D{row},Facts!$E$2:$E${fact_last_row},\">=\"&E{row})"@
}

pub open spec fn default_rollup_units() -> Seq<char> {
    "=SUMIFS(Facts!$E$2:$E${fact_last_row},Facts!$A$2:$A${fact_last_row},A{row},Facts!$B$2:$B${fact_last_row},B{row},Facts!$C$2:$C${fact_last_row},C{row},Facts!$D$2:$D${fact_last_row},D{row})"@
}

pub open spec fn default_rollup_orders() -> Seq<char> {
    "=COUNTIFS(Facts!$A$2:$A${fact_last_row},A{row},Facts!$B$2:$B${fact_last_row},B{row},Facts!$C$2:$C${fact_last_row},C{row},Facts!$D$2:$D${fact_last_row},D{row})"@
}

pub open spec fn default_rollup_average() -> Seq<char> {
    "=AVERAGEIFS(Facts!$F$2:$F${fact_last_row},Facts!$A$2:$A${fact_last_row},A{row},Facts!$B$2:$B${fact_last_row},B{row},Facts!$C$2:$C${fact_last_row},C{row},Facts!$D$2:$D${fact_last_row},D{row})"@
}

pub open spec fn default_rollup_price_total() -> Seq<char> {
    "=SUMIFS(Facts!$F$2:$F${fact_last_row},Facts!$A$2:$A${fact_last_row},A{row},Facts!$B$2:$B${fact_last_row},B{row},Facts!$C$2:$C${fact_last_row},C{row},Facts!$D$2:$D${fact_last_row},D{row})"@
}

/// The generator of each corpus scenario id, with its configuration
/// resolved against the defaults.
pub open spec fn spec_choose_generator(id: Seq<char>, c: GeneratorConfig) -> Result<ChoiceView, GeneratorError> {
    if id == "headline_100k_single_edit"@ {
        Ok(ChoiceView::Headline(num_or(c.sheet0_rows, 100_000) as nat))
    } else if id == "chain_100k"@ {
        Ok(ChoiceView::Chain(num_or(c.sheet0_rows, 100_000) as nat))
    } else if id == "fanout_100k"@ {
        Ok(ChoiceView::Fanout(num_or(c.sheet0_rows, 100_000) as nat))
    } else if id == "cross_sheet_mesh"@ || id == "inc_cross_sheet_mesh_3x25k"@ {
        Ok(ChoiceView::CrossSheetMesh(num_or(c.sheet0_rows, 25_000) as nat))
    } else if id == "inc_sparse_dirty_region_1m"@ {
        Ok(ChoiceView::SparseDirtyRegion(num_or(c.sheet0_rows, 1_000_000) as nat))
    } else if id == "lookup_index_match_dense_50k"@ {
        Ok(ChoiceView::DenseLookup(num_or(c.lookup_rows, 50_000) as nat, num_or(c.query_rows, 20_000) as nat,
            text_or(c.key_prefix, "K"@), at_least_one(num_or(c.query_key_stride, 7_919)) as nat))
    } else if id == "lookup_cross_sheet_dim_fact"@ {
        Ok(ChoiceView::DimFact(num_or(c.fact_rows, 50_000) as nat, num_or(c.report_rows, 5_000) as nat))
    } else if id == "sparse_whole_column_refs"@ {
        Ok(ChoiceView::SparseColumn(num_or(c.sheet0_rows, 1_000_000) as nat, at_least_one(num_or(c.every_n_rows, 1_000)) as nat,
            text_or(c.summary_formula, "=SUM(A:A)"@)))
    } else if id == "sumifs_fact_table_100k"@ {
        Ok(ChoiceView::SumifsFactTable(num_or(c.sheet0_rows, 100_000) as nat, num_or(c.report_rows, 1_000) as nat,
            text_or(c.facts_revenue_formula, "=D{row}*E{row}"@),
            text_or(c.report_sumifs_formula, "=SUMIFS(Facts!$F:$F,Facts!$A:$A,A{row},Facts!$B:$B,B{row},Facts!$C:$C,C{row})"@)))
    } else if id == "agg_countifs_multi_criteria_100k"@ {
        Ok(ChoiceView::Countifs(num_or(c.sheet0_rows, 100_000) as nat, num_or(c.report_rows, 1_000) as nat,
            text_or(c.report_countifs_formula, default_countifs())))
    } else if id == "agg_mixed_rollup_grid_2k_reports"@ {
        Ok(ChoiceView::Rollup(num_or(c.sheet0_rows, 10_000) as nat, num_or(c.report_rows, 500) as nat,
            text_or(c.facts_revenue_formula, "=E{row}*F{row}"@),
            seq![text_or(c.report_units_formula, default_rollup_units()), text_or(c.report_countifs_formula, default_rollup_orders()),
                text_or(c.report_averageifs_formula, default_rollup_average()), text_or(c.report_price_total_formula, default_rollup_price_total())]))
    } else if id == "struct_row_insert_middle_50k_refs"@ {
        Ok(ChoiceView::RowInsert(num_or(c.sheet0_rows, 50_000) as nat, text_or(c.formula_pattern, "=A{row}*2"@),
            text_or(c.rollup_formula, "=SUM(B1:B50000)"@)))
    } else if id == "struct_sheet_rename_rebind"@ {
        let input_rows = num_or(c.sheet0_rows, 25_000);
        Ok(ChoiceView::SheetRename(input_rows as nat, num_or(c.sheet1_rows, input_rows) as nat, seq![
            text_or(c.summary_formula_pattern, "=Inputs!A{row}*3"@),
            text_or(c.summary_rollup_formula, "=SUM(A1:A25000)"@),
            text_or(c.direct_cross_sheet_rollup_formula, "=SUM(Inputs!A1:A25000)"@),
            text_or(c.rebind_probe_formula, "=Inputs!A12345+A12345"@)]))
    } else if id == "structural_sheet_recovery"@ {
        Ok(ChoiceView::SheetRecovery)
    } else if id == "real_finance_model_v1"@ {
        Ok(ChoiceView::FinanceModel)
    } else if id == "real_ops_model_v1"@ {
        Ok(ChoiceView::OpsModel)
    } else {
        Err(GeneratorError::NoGenerator)
    }
}

fn text_cfg(found: &Option<String>, default: &str) -> (s: String)
    ensures
        s@ == text_or(*found, default@),
{
    match found {
        Some(t) => cfg_str(Some(t.as_str()), default),
        None => cfg_str(None, default),
    }
}

/// Picks the generator of a corpus scenario and resolves its settings.
pub fn choose_generator(id: &str, c: &GeneratorConfig) -> (r: Result<GeneratorChoice, GeneratorError>)
    ensures
        match r {
            Ok(g) => spec_choose_generator(id@, *c) == Ok::<ChoiceView, GeneratorError>(choice_view(g)),
            Err(e) => spec_choose_generator(id@, *c) == Err::<ChoiceView, GeneratorError>(e),
        },
{
    if str_eq(id, "headline_100k_single_edit") {
        Ok(GeneratorChoice::Headline { rows: cfg_u32(c.sheet0_rows, 100_000) })
    } else if str_eq(id, "chain_100k") {
        Ok(GeneratorChoice::Chain { rows: cfg_u32(c.sheet0_rows, 100_000) })
    } else if str_eq(id, "fanout_100k") {
        Ok(GeneratorChoice::Fanout { rows: cfg_u32(c.sheet0_rows, 100_000) })
    } else if str_eq(id, "cross_sheet_mesh") || str_eq(id, "inc_cross_sheet_mesh_3x25k") {
        Ok(GeneratorChoice::CrossSheetMesh { rows: cfg_u32(c.sheet0_rows, 25_000) })
    } else if str_eq(id, "inc_sparse_dirty_region_1m") {
        Ok(GeneratorChoice::SparseDirtyRegion { rows: cfg_u32(c.sheet0_rows, 1_000_000) })
    } else if str_eq(id, "lookup_index_match_dense_50k") {
        let stride = cfg_u32(c.query_key_stride, 7_919);
        Ok(GeneratorChoice::DenseLookup {
            lookup_rows: cfg_u32(c.lookup_rows, 50_000),
            query_rows: cfg_u32(c.query_rows, 20_000),
            key_prefix: text_cfg(&c.key_prefix, "K"),
            stride: if stride >= 1 { stride } else { 1 },
        })
    } else if str_eq(id, "lookup_cross_sheet_dim_fact") {
        Ok(GeneratorChoice::DimFact { fact_rows: cfg_u32(c.fact_rows, 50_000), report_rows: cfg_u32(c.report_rows, 5_000) })
    } else if str_eq(id, "sparse_whole_column_refs") {
        let every = cfg_u32(c.every_n_rows, 1_000);
        Ok(GeneratorChoice::SparseColumn {
            rows: cfg_u32(c.sheet0_rows, 1_000_000),
            every: if every >= 1 { every } else { 1 },
            summary: text_cfg(&c.summary_formula, "=SUM(A:A)"),
        })
    } else if str_eq(id, "sumifs_fact_table_100k") {
        Ok(GeneratorChoice::SumifsFactTable {
            fact_rows: cfg_u32(c.sheet0_rows, 100_000),
            report_rows: cfg_u32(c.report_rows, 1_000),
            revenue: text_cfg(&c.facts_revenue_formula, "=D{row}*E{row}"),
            sumifs: text_cfg(&c.report_sumifs_formula, "=SUMIFS(Facts!$F:$F,Facts!$A:$A,A{row},Facts!$B:$B,B{row},Facts!$C:$C,C{row})"),
        })
    } else if str_eq(id, "agg_countifs_multi_criteria_100k") {
        Ok(GeneratorChoice::Countifs {
            fact_rows: cfg_u32(c.sheet0_rows, 100_000),
            report_rows: cfg_u32(c.report_rows, 1_000),
            countifs: text_cfg(&c.report_countifs_formula,
                "=COUNTIFS(Facts!$A$2:$A${fact_last_row},A{row},Facts!$B$2:$B${fact_last_row},B{row},Facts!$C$2:$C${fact_last_row},C{row},Facts!$D$2:$D${fact_last_row},D{row},Facts!$E$2:$E${fact_last_row},\">=\"&E{row})"),
        })
    } else if str_eq(id, "agg_mixed_rollup_grid_2k_reports") {
        Ok(GeneratorChoice::Rollup {
            fact_rows: cfg_u32(c.sheet0_rows, 10_000),
            report_rows: cfg_u32(c.report_rows, 500),
            revenue: text_cfg(&c.facts_revenue_formula, "=E{row}*F{row}"),
            formulas: RollupFormulas {
                units: text_cfg(&c.report_units_formula,
                    "=SUMIFS(Facts!$E$2:$E${fact_last_row},Facts!$A$2:$A${fact_last_row},A{row},Facts!$B$2:$B${fact_last_row},B{row},Facts!$C$2:$C${fact_last_row},C{row},Facts!$D$2:$D${fact_last_row},D{row})"),
                orders: text_cfg(&c.report_countifs_formula,
                    "=COUNTIFS(Facts!$A$2:$A${fact_last_row},A{row},Facts!$B$2:$B${fact_last_row},B{row},Facts!$C$2:$C${fact_last_row},C{row},Facts!$D$2:$D${fact_last_row},D{row})"),
                average_price: text_cfg(&c.report_averageifs_formula,
                    "=AVERAGEIFS(Facts!$F$2:$F${fact_last_row},Facts!$A$2:$A${fact_last_row},A{row},Facts!$B$2:$B${fact_last_row},B{row},Facts!$C$2:$C${fact_last_row},C{row},Facts!$D$2:$D${fact_last_row},D{row})"),
                price_total: text_cfg(&c.report_price_total_formula,
                    "=SUMIFS(Facts!$F$2:$F${fact_last_row},Facts!$A$2:$A${fact_last_row},A{row},Facts!$B$2:$B${fact_last_row},B{row},Facts!$C$2:$C${fact_last_row},C{row},Facts!$D$2:$D${fact_last_row},D{row})"),
            },
        })
    } else if str_eq(id, "struct_row_insert_middle_50k_refs") {
        Ok(GeneratorChoice::RowInsert {
            rows: cfg_u32(c.sheet0_rows, 50_000),
            pattern: text_cfg(&c.formula_pattern, "=A{row}*2"),
            rollup: text_cfg(&c.rollup_formula, "=SUM(B1:B50000)"),
        })
    } else if str_eq(id, "struct_sheet_rename_rebind") {
        let input_rows = cfg_u32(c.sheet0_rows, 25_000);
        Ok(GeneratorChoice::SheetRename {
            input_rows,
            summary_rows: cfg_u32(c.sheet1_rows, input_rows),
            formulas: RenameFormulas {
                summary_pattern: text_cfg(&c.summary_formula_pattern, "=Inputs!A{row}*3"),
                summary_rollup: text_cfg(&c.summary_rollup_formula, "=SUM(A1:A25000)"),
                direct_rollup: text_cfg(&c.direct_cross_sheet_rollup_formula, "=SUM(Inputs!A1:A25000)"),
                rebind_probe: text_cfg(&c.rebind_probe_formula, "=Inputs!A12345+A12345"),
            },
        })
    } else if str_eq(id, "structural_sheet_recovery") {
        Ok(GeneratorChoice::SheetRecovery)
    } else if str_eq(id, "real_finance_model_v1") {
        Ok(GeneratorChoice::FinanceModel)
    } else if str_eq(id, "real_ops_model_v1") {
        Ok(GeneratorChoice::OpsModel)
    } else {
        Err(GeneratorError::NoGenerator)
    }
}

/// Whether a generator's arithmetic stays within 32 bits and its loops
/// end, so that its plan can be made here. The headline workbook is not
/// planned here.
pub open spec fn choice_fits(v: ChoiceView) -> bool {
    match v {
        ChoiceView::Headline(_) => false,
        ChoiceView::CrossSheetMesh(rows) => 2 * rows <= u32::MAX,
        ChoiceView::DenseLookup(lookup_rows, query_rows, _, stride) => dense_lookup_fits(lookup_rows, query_rows, stride),
        ChoiceView::DimFact(fact_rows, report_rows) => dim_fact_fits(fact_rows, report_rows),
        ChoiceView::SparseColumn(rows, every, _) => rows < u32::MAX && every >= 1,
        ChoiceView::SumifsFactTable(fact_rows, report_rows, _, _) => fact_rows + 1 <= u32::MAX && report_rows + 1 <= u32::MAX,
        ChoiceView::Countifs(fact_rows, report_rows, _) => fact_rows + 1 <= u32::MAX && report_rows + 1 <= u32::MAX,
        ChoiceView::Rollup(fact_rows, report_rows, _, _) => fact_rows + 1 <= u32::MAX && report_rows + 1 <= u32::MAX,
        _ => true,
    }
}

/// Sheets of the workbook a generator plans.
pub open spec fn choice_sheets(v: ChoiceView) -> Seq<Seq<char>> {
    match v {
        ChoiceView::CrossSheetMesh(_) => mesh_sheets(),
        ChoiceView::DenseLookup(..) => seq!["Sheet1"@, "Lookup"@, "Queries"@],
        ChoiceView::DimFact(..) => seq!["Sheet1"@, "RegionDim"@, "ProductDim"@, "Facts"@, "Report"@],
        ChoiceView::SumifsFactTable(..) => seq!["Sheet1"@, "Facts"@, "Report"@],
        ChoiceView::Countifs(..) => seq!["Sheet1"@, "Facts"@, "Report"@],
        ChoiceView::Rollup(..) => seq!["Sheet1"@, "Facts"@, "Report"@],
        ChoiceView::SheetRename(..) => seq!["Sheet1"@, "Inputs"@, "Summary"@],
        ChoiceView::SheetRecovery => seq!["Sheet1"@, "Sheet2"@],
        ChoiceView::FinanceModel => finance_sheets(),
        ChoiceView::OpsModel => ops_sheets(),
        _ => seq!["Sheet1"@],
    }
}

/// Cell writes of the workbook a generator plans.
pub open spec fn choice_cells(v: ChoiceView) -> Seq<CellView> {
    match v {
        ChoiceView::Headline(_) => Seq::empty(),
        ChoiceView::Chain(rows) => chain_cells(rows),
        ChoiceView::Fanout(rows) => fanout_cells(rows),
        ChoiceView::CrossSheetMesh(rows) => mesh_cells(rows),
        ChoiceView::SparseDirtyRegion(rows) => sparse_dirty_cells(rows),
        ChoiceView::DenseLookup(lookup_rows, query_rows, prefix, stride) => dense_lookup_cells(lookup_rows, query_rows, prefix, stride),
        ChoiceView::DimFact(fact_rows, report_rows) => dim_fact_cells(fact_rows, report_rows),
        ChoiceView::SparseColumn(rows, every, summary) => sparse_column_cells(rows, every, summary),
        ChoiceView::SumifsFactTable(fact_rows, report_rows, revenue, sumifs) => sumifs_cells(fact_rows, report_rows, revenue, sumifs),
        ChoiceView::Countifs(fact_rows, report_rows, countifs) => countifs_cells(fact_rows, report_rows, countifs),
        ChoiceView::Rollup(fact_rows, report_rows, revenue, f) => rollup_cells(fact_rows, report_rows, revenue, f),
        ChoiceView::RowInsert(rows, pattern, rollup) => row_insert_cells(rows, pattern, rollup),
        ChoiceView::SheetRename(input_rows, summary_rows, f) =>
            flat(input_rows, rename_input_step()) + flat(summary_rows, rename_summary_step(f[0])) + seq![
                formula_cell(2, 1, 2, f[1]),
                formula_cell(2, 2, 2, f[3]),
                formula_cell(2, 1, 3, f[2]),
            ],
        ChoiceView::SheetRecovery => recovery_cells(),
        ChoiceView::FinanceModel => finance_cells(),
        ChoiceView::OpsModel => ops_cells(),
    }
}

impl GeneratorChoice {
    /// Whether this generator can be planned (see `choice_fits`).
    pub fn fits(&self) -> (b: bool)
        ensures
            b == choice_fits(choice_view(*self)),
    {
        match self {
            GeneratorChoice::Headline { .. } => false,
            GeneratorChoice::CrossSheetMesh { rows } => *rows <= u32::MAX / 2,
            GeneratorChoice::DenseLookup { lookup_rows, query_rows, stride, .. } => {
                if *query_rows == 0 {
                    (*lookup_rows as u64) * 11 + 16 <= u32::MAX as u64
                } else {
                    let q = (*query_rows - 1) as u64;
                    let st = *stride as u64;
                    assert(q * st <= u32::MAX * u32::MAX) by (nonlinear_arith)
                        requires q <= u32::MAX, st <= u32::MAX;
                    (*lookup_rows as u64) * 11 + 16 <= u32::MAX as u64
                        && *query_rows < u32::MAX
                        && *lookup_rows >= 1 && q * st <= u32::MAX as u64
                }
            },
            GeneratorChoice::DimFact { fact_rows, report_rows } => {
                *fact_rows < u32::MAX && *report_rows < u32::MAX
                    && (*report_rows == 0 || (*fact_rows >= 1 && ((*report_rows - 1) as u64) * 37 <= u32::MAX as u64))
            },
            GeneratorChoice::SparseColumn { rows, every, .. } => *rows < u32::MAX && *every >= 1,
            GeneratorChoice::SumifsFactTable { fact_rows, report_rows, .. } => *fact_rows < u32::MAX && *report_rows < u32::MAX,
            GeneratorChoice::Countifs { fact_rows, report_rows, .. } => *fact_rows < u32::MAX && *report_rows < u32::MAX,
            GeneratorChoice::Rollup { fact_rows, report_rows, .. } => *fact_rows < u32::MAX && *report_rows < u32::MAX,
            _ => true,
        }
    }
}

/// Plans the workbook of a generator whose arithmetic fits.
#[verifier::spinoff_prover]
#[verifier::rlimit(60)]
pub fn plan_workbook(g: GeneratorChoice) -> (p: WorkbookPlan)
    requires
        choice_fits(choice_view(g)),
    ensures
        names_view(p.sheets@) == choice_sheets(choice_view(g)),
        cells_view(p.cells@) == choice_cells(choice_view(g)),
{
    match g {
        GeneratorChoice::Headline { .. } => WorkbookPlan { sheets: Vec::new(), cells: Vec::new() },
        GeneratorChoice::Chain { rows } => chain_plan(rows),
        GeneratorChoice::Fanout { rows } => fanout_plan(rows),
        GeneratorChoice::CrossSheetMesh { rows } => cross_sheet_mesh_plan(rows),
        GeneratorChoice::SparseDirtyRegion { rows } => sparse_dirty_region_plan(rows),
        GeneratorChoice::DenseLookup { lookup_rows, query_rows, key_prefix, stride } =>
            dense_lookup_plan(lookup_rows, query_rows, key_prefix.as_str(), stride),
        GeneratorChoice::DimFact { fact_rows, report_rows } => dim_fact_plan(fact_rows, report_rows),
        GeneratorChoice::SparseColumn { rows, every, summary } => sparse_whole_column_plan(rows, every, summary),
        GeneratorChoice::SumifsFactTable { fact_rows, report_rows, revenue, sumifs } =>
            sumifs_fact_table_plan(fact_rows, report_rows, revenue.as_str(), sumifs.as_str()),
        GeneratorChoice::Countifs { fact_rows, report_rows, countifs } => countifs_plan(fact_rows, report_rows, countifs.as_str()),
        GeneratorChoice::Rollup { fact_rows, report_rows, revenue, formulas } =>
            rollup_plan(fact_rows, report_rows, revenue.as_str(), &formulas),
        GeneratorChoice::RowInsert { rows, pattern, rollup } => row_insert_plan(rows, pattern.as_str(), rollup),
        GeneratorChoice::SheetRename { input_rows, summary_rows, formulas } => sheet_rename_plan(input_rows, summary_rows, formulas),
        GeneratorChoice::SheetRecovery => sheet_recovery_plan(),
        GeneratorChoice::FinanceModel => finance_model_plan(),
        GeneratorChoice::OpsModel => ops_model_plan(),
    }
}

/// Where the three-cell chain reproduction workbook is written.
pub fn repro_chain3_path() -> (s: &'static str)
    ensures
        s@ == "benchmarks/corpus/synthetic/repro_chain3.xlsx"@,
{
    "benchmarks/corpus/synthetic/repro_chain3.xlsx"
}

/// The three-cell chain: `A1 = 1`, `A2 = A1 + 1`, `A3 = A2 + 1`.
pub open spec fn repro_chain3_cells() -> Seq<CellView> {
    seq![num_cell(0, 1, 1, 1), formula_cell(0, 2, 1, "=A1+1"@), formula_cell(0, 3, 1, "=A2+1"@)]
}

/// Plans the three-cell chain reproduction workbook.
pub fn repro_chain3_plan() -> (p: WorkbookPlan)
    ensures
        names_view(p.sheets@) == seq!["Sheet1"@],
        cells_view(p.cells@) == repro_chain3_cells(),
{
    let sheets = sheet_names(vec!["Sheet1"]);
    let mut cells = Vec::new();
    push_num(&mut cells, 0, 1, 1, 1);
    push_formula(&mut cells, 0, 2, 1, owned("=A1+1"));
    push_formula(&mut cells, 0, 3, 1, owned("=A2+1"));
    assert(cells_view(cells@) =~= repro_chain3_cells());
    WorkbookPlan { sheets, cells }
}

} // verus!
