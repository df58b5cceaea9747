//! The two hand-shaped corpus workbooks: a two-year finance forecast and an
//! operations work-order model, planned cell by cell.

use vstd::prelude::*;
use crate::plan::{
    CellView, Piece, PlannedCell, WorkbookPlan, cells_view, dec_cell, flat, formula_cell, header_cells,
    lemma_flat_next, names_view, num_cell, pieces_text, push_dec, push_formula, push_header, push_lit,
    push_num, push_pieces, push_text, sheet_names, text_cell, lit_num,
};
use crate::text::{owned, string_of, chars_of, push_chars, zero_pad};
use crate::corpus::zero_padded;

verus! {

pub open spec fn labels(ls: Seq<&'static str>) -> Seq<Seq<char>> {
    ls.map_values(|s: &'static str| s@)
}

/// A label in column A and its value in column C of the finance
/// assumptions sheet.
pub open spec fn driver(row: nat, label: &'static str, units: int, decimals: nat) -> Seq<CellView> {
    seq![text_cell(1, row, 1, label@), dec_cell(1, row, 3, units, decimals)]
}

/// The finance assumptions: scalar drivers in column C and a segment table
/// from row 16.
pub open spec fn finance_assumptions() -> Seq<CellView> {
    seq![text_cell(1, 2, 1, "Driver"@), text_cell(1, 2, 3, "Value"@)]
        + driver(4, "TaxRate", 24, 2)
        + driver(5, "OpexRatio", 18, 2)
        + driver(6, "CapexRatio", 5, 2)
        + driver(7, "WorkingCapitalRatio", 2, 2)
        + driver(8, "StartingCash", 150_000, 0)
        + driver(9, "DebtPrincipal", 600_000, 0)
        + driver(10, "AnnualInterestRate", 6, 2)
        + driver(11, "MonthlyPrincipalPaydown", 25_000, 0)
        + driver(12, "Year2PriceUplift", 15, 3)
        + header_cells(1, 15, labels(seq!["Segment", "BaseUnits", "MonthlyUnitAdd", "UnitPrice", "CostPct"]))
        + segment_row(16, "Enterprise", 120, 5, 2_500, 34)
        + segment_row(17, "SMB", 420, 12, 950, 46)
        + segment_row(18, "Services", 60, 2, 4_200, 58)
}

/// A segment: base units, monthly unit add, unit price and cost share in
/// hundredths.
pub open spec fn segment_row(row: nat, name: &'static str, base: int, add: int, price: int, cost_pct: int) -> Seq<CellView> {
    seq![
        text_cell(1, row, 1, name@),
        num_cell(1, row, 2, base),
        num_cell(1, row, 3, add),
        num_cell(1, row, 4, price),
        dec_cell(1, row, 5, cost_pct, 2),
    ]
}

pub open spec fn forecast_labels() -> Seq<&'static str> {
    seq![
        "Month", "FiscalYear", "Quarter", "Enterprise", "EnterpriseRevenue", "EnterpriseGrossProfit",
        "SMB", "SMBRevenue", "SMBGrossProfit", "Services", "ServicesRevenue", "ServicesGrossProfit",
        "TotalRevenue", "GrossProfit", "Opex", "EBITDA", "Capex", "WorkingCapital", "Interest",
        "Principal", "EndingDebt", "PretaxCash", "Taxes", "NetCash", "EndingCash",
    ]
}

/// The three segment column groups: units column, revenue column, gross
/// profit column, and the letters of the units and revenue columns.
pub open spec fn segment_groups() -> Seq<(u32, &'static str, &'static str)> {
    seq![(4u32, "D", "E"), (7u32, "G", "H"), (10u32, "J", "K")]
}

/// Units, revenue and gross profit of one segment group in a month.
pub open spec fn segment_month(month: nat, g: (u32, &'static str, &'static str)) -> Seq<CellView> {
    let row = month + 1;
    let (units_col, seg, rev) = g;
    let units = if month == 1 {
        seq![Piece::Lit("=INDEX(Assumptions!$B$16:$B$18,MATCH("), Piece::Lit(seg), Piece::Lit("$1,Assumptions!$A$16:$A$18,0))")]
    } else {
        seq![Piece::Lit("="), Piece::Lit(seg), Piece::Num((row - 1) as u64),
            Piece::Lit("+INDEX(Assumptions!$C$16:$C$18,MATCH("), Piece::Lit(seg), Piece::Lit("$1,Assumptions!$A$16:$A$18,0))")]
    };
    seq![
        formula_cell(2, row, units_col as nat, pieces_text(units)),
        formula_cell(2, row, units_col as nat + 1, pieces_text(seq![Piece::Lit("="), Piece::Lit(seg), Piece::Num(row as u64),
            Piece::Lit("*INDEX(Assumptions!$D$16:$D$18,MATCH("), Piece::Lit(seg), Piece::Lit("$1,Assumptions!$A$16:$A$18,0))*IF($B"),
            Piece::Num(row as u64), Piece::Lit("=2026,1,1+Assumptions!$C$12)")])),
        formula_cell(2, row, units_col as nat + 2, pieces_text(seq![Piece::Lit("="), Piece::Lit(rev), Piece::Num(row as u64),
            Piece::Lit("*(1-INDEX(Assumptions!$E$16:$E$18,MATCH("), Piece::Lit(seg), Piece::Lit("$1,Assumptions!$A$16:$A$18,0)))")])),
    ]
}

/// Literal parts each followed by the row number: `{p0}{row}{p1}{row}...`.
pub open spec fn row_pieces(parts: Seq<&'static str>, row: nat) -> Seq<Piece>
    decreases parts.len(),
{
    if parts.len() == 0 {
        Seq::empty()
    } else {
        row_pieces(parts.drop_last(), row) + seq![Piece::Lit(parts.last()), Piece::Num(row as u64)]
    }
}

/// A formula over same-row cells: the parts with the row number after each,
/// then the tail.
pub open spec fn row_formula(parts: Seq<&'static str>, row: nat, tail: &'static str) -> Seq<Piece> {
    row_pieces(parts, row) + seq![Piece::Lit(tail)]
}

fn push_row_formula(cells: &mut Vec<PlannedCell>, sheet: usize, row: u32, col: u32, parts: Vec<&'static str>, tail: &'static str)
    ensures
        cells_view(final(cells)@) == cells_view(old(cells)@).push(
            formula_cell(sheet as nat, row as nat, col as nat, pieces_text(row_formula(parts@, row as nat, tail)))),
{
    let mut ps: Vec<Piece> = Vec::new();
    let mut j: usize = 0;
    while j < parts.len()
        invariant
            0 <= j <= parts@.len(),
            ps@ == row_pieces(parts@.subrange(0, j as int), row as nat),
        decreases parts.len() - j,
    {
        assert(parts@.subrange(0, j + 1).drop_last() =~= parts@.subrange(0, j as int));
        ps.push(Piece::Lit(parts[j]));
        ps.push(Piece::Num(row as u64));
        j = j + 1;
        assert(ps@ =~= row_pieces(parts@.subrange(0, j as int), row as nat));
    }
    assert(parts@.subrange(0, parts@.len() as int) =~= parts@);
    ps.push(Piece::Lit(tail));
    assert(ps@ =~= row_formula(parts@, row as nat, tail));
    push_pieces(cells, sheet, row, col, ps);
}

/// Debt and cash cells of a month: opening month from the assumptions,
/// later months from the month before.
pub open spec fn debt_cash_month(month: nat) -> Seq<CellView> {
    let row = month + 1;
    let prev = (row - 1) as nat;
    if month == 1 {
        seq![
            formula_cell(2, row, 19, "=Assumptions!$C$9*Assumptions!$C$10/12"@),
            formula_cell(2, row, 20, "=MIN(Assumptions!$C$11,Assumptions!$C$9)"@),
            formula_cell(2, row, 21, "=Assumptions!$C$9-T2"@),
            formula_cell(2, row, 25, "=Assumptions!$C$8+X2"@),
        ]
    } else {
        seq![
            formula_cell(2, row, 19, pieces_text(seq![Piece::Lit("=U"), Piece::Num(prev as u64), Piece::Lit("*Assumptions!$C$10/12")])),
            formula_cell(2, row, 20, pieces_text(seq![Piece::Lit("=MIN(Assumptions!$C$11,U"), Piece::Num(prev as u64), Piece::Lit(")")])),
            formula_cell(2, row, 21, pieces_text(seq![Piece::Lit("=U"), Piece::Num(prev as u64), Piece::Lit("-T"), Piece::Num(row as u64), Piece::Lit("")])),
            formula_cell(2, row, 25, pieces_text(seq![Piece::Lit("=Y"), Piece::Num(prev as u64), Piece::Lit("+X"), Piece::Num(row as u64), Piece::Lit("")])),
        ]
    }
}

/// Forecast month `m + 1` (row `m + 2`).
pub open spec fn forecast_month_step() -> spec_fn(nat) -> Seq<CellView> {
    |m: nat| forecast_month(m + 1)
}

/// The month's date columns.
pub open spec fn month_dates(month: nat) -> Seq<CellView> {
    let row = month + 1;
    let fy: int = if month <= 12 { 2026 } else { 2027 };
    seq![
        num_cell(2, row, 1, month as int),
        num_cell(2, row, 2, fy),
        text_cell(2, row, 3, pieces_text(seq![Piece::Lit("Q"), Piece::Num(((((month - 1) as nat) % 12) / 3 + 1) as u64)])),
    ]
}

/// The month's totals, opex and capital lines.
pub open spec fn month_totals(row: nat) -> Seq<CellView> {
    seq![
        formula_cell(2, row, 13, pieces_text(row_formula(seq!["=SUM(E", ",H", ",K"], row, ")"))),
        formula_cell(2, row, 14, pieces_text(row_formula(seq!["=SUM(F", ",I", ",L"], row, ")"))),
        formula_cell(2, row, 15, pieces_text(row_formula(seq!["=M"], row, "*Assumptions!$C$5"))),
        formula_cell(2, row, 16, pieces_text(row_formula(seq!["=N", "-O"], row, ""))),
        formula_cell(2, row, 17, pieces_text(row_formula(seq!["=M"], row, "*Assumptions!$C$6"))),
        formula_cell(2, row, 18, pieces_text(row_formula(seq!["=M"], row, "*Assumptions!$C$7"))),
    ]
}

/// The month's pretax cash, taxes and net cash.
pub open spec fn month_cash(row: nat) -> Seq<CellView> {
    seq![
        formula_cell(2, row, 22, pieces_text(row_formula(seq!["=P", "-Q", "-R", "-S"], row, ""))),
        formula_cell(2, row, 23, pieces_text(row_formula(seq!["=IF(V", ">0,V"], row, "*Assumptions!$C$4,0)"))),
        formula_cell(2, row, 24, pieces_text(row_formula(seq!["=V", "-W", "-T"], row, ""))),
    ]
}

/// Every forecast cell of a month, in writing order.
pub open spec fn forecast_month(month: nat) -> Seq<CellView> {
    month_dates(month)
        + segment_month(month, segment_groups()[0])
        + segment_month(month, segment_groups()[1])
        + segment_month(month, segment_groups()[2])
        + month_totals(month + 1)
        + debt_cash_month(month)
        + month_cash(month + 1)
}


/// Labels down a column: `labels[k]` on row `first_row + k`.
pub open spec fn column_labels(sheet: nat, col: nat, first_row: nat, labels: Seq<Seq<char>>) -> Seq<CellView> {
    Seq::new(labels.len(), |k: int| text_cell(sheet, (first_row + k) as nat, col, labels[k]))
}

pub open spec fn metric_labels() -> Seq<&'static str> {
    seq!["Revenue", "GrossProfit", "EBITDA", "Taxes", "NetCash", "EndingCash", "DSCR", "CovenantPass", "EndingDebt", "CashConversion"]
}

/// `SUMIFS` of a forecast column over one fiscal year, whose year is in row 1
/// of the summary column `yc`.
pub open spec fn year_sum(col: &'static str, yc: &'static str) -> Seq<Piece> {
    seq![Piece::Lit("SUMIFS(Forecast!$"), Piece::Lit(col), Piece::Lit("$2:$"), Piece::Lit(col),
        Piece::Lit("$25,Forecast!$B$2:$B$25,"), Piece::Lit(yc), Piece::Lit("$1)")]
}

/// One fiscal-year column of the finance summary.
pub open spec fn summary_year(col: nat, yc: &'static str, last: &'static str) -> Seq<CellView> {
    seq![
        formula_cell(3, 2, col, pieces_text(seq![Piece::Lit("=")] + year_sum("M", yc))),
        formula_cell(3, 3, col, pieces_text(seq![Piece::Lit("=")] + year_sum("N", yc))),
        formula_cell(3, 4, col, pieces_text(seq![Piece::Lit("=")] + year_sum("P", yc))),
        formula_cell(3, 5, col, pieces_text(seq![Piece::Lit("=")] + year_sum("W", yc))),
        formula_cell(3, 6, col, pieces_text(seq![Piece::Lit("=")] + year_sum("X", yc))),
        formula_cell(3, 7, col, pieces_text(seq![Piece::Lit("=Forecast!Y"), Piece::Lit(last)])),
        formula_cell(3, 8, col, pieces_text(seq![Piece::Lit("=")] + year_sum("P", yc) + seq![Piece::Lit("/(")]
            + year_sum("S", yc) + seq![Piece::Lit("+")] + year_sum("T", yc) + seq![Piece::Lit(")")])),
        formula_cell(3, 9, col, pieces_text(seq![Piece::Lit("=IF("), Piece::Lit(yc), Piece::Lit("8>1.5,TRUE,FALSE)")])),
        formula_cell(3, 10, col, pieces_text(seq![Piece::Lit("=Forecast!U"), Piece::Lit(last)])),
        formula_cell(3, 11, col, pieces_text(seq![Piece::Lit("="), Piece::Lit(yc), Piece::Lit("6/"), Piece::Lit(yc), Piece::Lit("4")])),
    ]
}

/// The finance summary: metric names, the two fiscal years and their
/// roll-ups.
pub open spec fn finance_summary() -> Seq<CellView> {
    seq![text_cell(3, 1, 1, "Metric"@), num_cell(3, 1, 2, 2026), num_cell(3, 1, 3, 2027)]
        + column_labels(3, 1, 2, labels(metric_labels()))
        + summary_year(2, "B", "13")
        + summary_year(3, "C", "25")
}

/// The whole finance workbook.
pub open spec fn finance_cells() -> Seq<CellView> {
    finance_assumptions() + header_cells(2, 1, labels(forecast_labels())) + flat(24, forecast_month_step()) + finance_summary()
}

pub open spec fn finance_sheets() -> Seq<Seq<char>> {
    seq!["Sheet1"@, "Assumptions"@, "Forecast"@, "Summary"@]
}

fn push_driver(cells: &mut Vec<PlannedCell>, row: u32, label: &'static str, units: i64, decimals: u32)
    ensures
        cells_view(final(cells)@) == cells_view(old(cells)@) + driver(row as nat, label, units as int, decimals as nat),
{
    push_lit(cells, 1, row, 1, label);
    push_dec(cells, 1, row, 3, units, decimals);
    assert(cells_view(cells@) =~= cells_view(old(cells)@) + driver(row as nat, label, units as int, decimals as nat));
}

fn push_segment(cells: &mut Vec<PlannedCell>, row: u32, name: &'static str, base: i64, add: i64, price: i64, cost_pct: i64)
    ensures
        cells_view(final(cells)@) == cells_view(old(cells)@) + segment_row(row as nat, name, base as int, add as int, price as int, cost_pct as int),
{
    push_lit(cells, 1, row, 1, name);
    push_num(cells, 1, row, 2, base);
    push_num(cells, 1, row, 3, add);
    push_num(cells, 1, row, 4, price);
    push_dec(cells, 1, row, 5, cost_pct, 2);
    assert(cells_view(cells@) =~= cells_view(old(cells)@) + segment_row(row as nat, name, base as int, add as int, price as int, cost_pct as int));
}

fn push_segment_month(cells: &mut Vec<PlannedCell>, month: u32, g: (u32, &'static str, &'static str))
    requires
        1 <= month <= 24,
        g.0 <= 10,
    ensures
        cells_view(final(cells)@) == cells_view(old(cells)@) + segment_month(month as nat, g),
{
    let row = month + 1;
    let (units_col, seg, rev) = g;
    if month == 1 {
        push_pieces(cells, 2, row, units_col, vec![Piece::Lit("=INDEX(Assumptions!$B$16:$B$18,MATCH("), Piece::Lit(seg), Piece::Lit("$1,Assumptions!$A$16:$A$18,0))")]);
    } else {
        push_pieces(cells, 2, row, units_col, vec![Piece::Lit("="), Piece::Lit(seg), Piece::Num((row - 1) as u64),
            Piece::Lit("+INDEX(Assumptions!$C$16:$C$18,MATCH("), Piece::Lit(seg), Piece::Lit("$1,Assumptions!$A$16:$A$18,0))")]);
    }
    push_pieces(cells, 2, row, units_col + 1, vec![Piece::Lit("="), Piece::Lit(seg), Piece::Num(row as u64),
        Piece::Lit("*INDEX(Assumptions!$D$16:$D$18,MATCH("), Piece::Lit(seg), Piece::Lit("$1,Assumptions!$A$16:$A$18,0))*IF($B"),
        Piece::Num(row as u64), Piece::Lit("=2026,1,1+Assumptions!$C$12)")]);
    push_pieces(cells, 2, row, units_col + 2, vec![Piece::Lit("="), Piece::Lit(rev), Piece::Num(row as u64),
        Piece::Lit("*(1-INDEX(Assumptions!$E$16:$E$18,MATCH("), Piece::Lit(seg), Piece::Lit("$1,Assumptions!$A$16:$A$18,0)))")]);
    assert(cells_view(cells@) =~= cells_view(old(cells)@) + segment_month(month as nat, g));
}

fn push_debt_cash(cells: &mut Vec<PlannedCell>, month: u32)
    requires
        1 <= month <= 24,
    ensures
        cells_view(final(cells)@) == cells_view(old(cells)@) + debt_cash_month(month as nat),
{
    let row = month + 1;
    if month == 1 {
        push_formula(cells, 2, row, 19, owned("=Assumptions!$C$9*Assumptions!$C$10/12"));
        push_formula(cells, 2, row, 20, owned("=MIN(Assumptions!$C$11,Assumptions!$C$9)"));
        push_formula(cells, 2, row, 21, owned("=Assumptions!$C$9-T2"));
        push_formula(cells, 2, row, 25, owned("=Assumptions!$C$8+X2"));
    } else {
        let prev = row - 1;
        push_pieces(cells, 2, row, 19, vec![Piece::Lit("=U"), Piece::Num(prev as u64), Piece::Lit("*Assumptions!$C$10/12")]);
        push_pieces(cells, 2, row, 20, vec![Piece::Lit("=MIN(Assumptions!$C$11,U"), Piece::Num(prev as u64), Piece::Lit(")")]);
        push_pieces(cells, 2, row, 21, vec![Piece::Lit("=U"), Piece::Num(prev as u64), Piece::Lit("-T"), Piece::Num(row as u64), Piece::Lit("")]);
        push_pieces(cells, 2, row, 25, vec![Piece::Lit("=Y"), Piece::Num(prev as u64), Piece::Lit("+X"), Piece::Num(row as u64), Piece::Lit("")]);
    }
    assert(cells_view(cells@) =~= cells_view(old(cells)@) + debt_cash_month(month as nat));
}

fn push_forecast_month(cells: &mut Vec<PlannedCell>, month: u32, groups: &Vec<(u32, &'static str, &'static str)>)
    requires
        1 <= month <= 24,
        groups@ == segment_groups(),
    ensures
        cells_view(final(cells)@) == cells_view(old(cells)@) + forecast_month(month as nat),
{
    let row = month + 1;
    let fy: i64 = if month <= 12 { 2026 } else { 2027 };
    let ghost o = cells_view(cells@);
    push_num(cells, 2, row, 1, month as i64);
    push_num(cells, 2, row, 2, fy);
    push_text(cells, 2, row, 3, lit_num("Q", (((month - 1) % 12) / 3 + 1) as u64));
    assert(cells_view(cells@) =~= o + month_dates(month as nat));
    let ghost a = cells_view(cells@);
    push_segment_month(cells, month, groups[0]);
    push_segment_month(cells, month, groups[1]);
    push_segment_month(cells, month, groups[2]);
    let ghost b = cells_view(cells@);
    push_month_totals(cells, row);
    let ghost c = cells_view(cells@);
    push_debt_cash(cells, month);
    let ghost d = cells_view(cells@);
    push_row_formula(cells, 2, row, 22, vec!["=P", "-Q", "-R", "-S"], "");
    push_row_formula(cells, 2, row, 23, vec!["=IF(V", ">0,V"], "*Assumptions!$C$4,0)");
    push_row_formula(cells, 2, row, 24, vec!["=V", "-W", "-T"], "");
    assert(cells_view(cells@) =~= d + month_cash(row as nat));
    assert(cells_view(cells@) =~= o + forecast_month(month as nat));
}

fn push_month_totals(cells: &mut Vec<PlannedCell>, row: u32)
    ensures
        cells_view(final(cells)@) == cells_view(old(cells)@) + month_totals(row as nat),
{
    let ghost o = cells_view(cells@);
    push_row_formula(cells, 2, row, 13, vec!["=SUM(E", ",H", ",K"], ")");
    assert(cells_view(cells@) =~= o + month_totals(row as nat).subrange(0, 1));
    push_row_formula(cells, 2, row, 14, vec!["=SUM(F", ",I", ",L"], ")");
    assert(cells_view(cells@) =~= o + month_totals(row as nat).subrange(0, 2));
    let m_part: Vec<&'static str> = vec!["=M"];
    assert(m_part@ =~= seq!["=M"]);
    push_row_formula(cells, 2, row, 15, m_part, "*Assumptions!$C$5");
    assert(cells_view(cells@) =~= o + month_totals(row as nat).subrange(0, 3));
    push_row_formula(cells, 2, row, 16, vec!["=N", "-O"], "");
    assert(cells_view(cells@) =~= o + month_totals(row as nat).subrange(0, 4));
    let m_part: Vec<&'static str> = vec!["=M"];
    assert(m_part@ =~= seq!["=M"]);
    push_row_formula(cells, 2, row, 17, m_part, "*Assumptions!$C$6");
    assert(cells_view(cells@) =~= o + month_totals(row as nat).subrange(0, 5));
    let m_part: Vec<&'static str> = vec!["=M"];
    assert(m_part@ =~= seq!["=M"]);
    push_row_formula(cells, 2, row, 18, m_part, "*Assumptions!$C$7");
    assert(cells_view(cells@) =~= o + month_totals(row as nat).subrange(0, 6));
    assert(month_totals(row as nat).subrange(0, 6) =~= month_totals(row as nat));
}

fn push_year_sum(ps: &mut Vec<Piece>, col: &'static str, yc: &'static str)
    ensures
        final(ps)@ == old(ps)@ + year_sum(col, yc),
{
    ps.push(Piece::Lit("SUMIFS(Forecast!$"));
    ps.push(Piece::Lit(col));
    ps.push(Piece::Lit("$2:$"));
    ps.push(Piece::Lit(col));
    ps.push(Piece::Lit("$25,Forecast!$B$2:$B$25,"));
    ps.push(Piece::Lit(yc));
    ps.push(Piece::Lit("$1)"));
    assert(ps@ =~= old(ps)@ + year_sum(col, yc));
}

fn push_year_total(cells: &mut Vec<PlannedCell>, row: u32, col: u32, letter: &'static str, yc: &'static str)
    ensures
        cells_view(final(cells)@) == cells_view(old(cells)@).push(
            formula_cell(3, row as nat, col as nat, pieces_text(seq![Piece::Lit("=")] + year_sum(letter, yc)))),
{
    let mut ps: Vec<Piece> = Vec::new();
    ps.push(Piece::Lit("="));
    assert(ps@ =~= seq![Piece::Lit("=")]);
    push_year_sum(&mut ps, letter, yc);
    push_pieces(cells, 3, row, col, ps);
}

fn push_summary_year(cells: &mut Vec<PlannedCell>, col: u32, yc: &'static str, last: &'static str)
    ensures
        cells_view(final(cells)@) == cells_view(old(cells)@) + summary_year(col as nat, yc, last),
{
    push_year_total(cells, 2, col, "M", yc);
    push_year_total(cells, 3, col, "N", yc);
    push_year_total(cells, 4, col, "P", yc);
    push_year_total(cells, 5, col, "W", yc);
    push_year_total(cells, 6, col, "X", yc);
    push_pieces(cells, 3, 7, col, vec![Piece::Lit("=Forecast!Y"), Piece::Lit(last)]);
    let mut ps: Vec<Piece> = Vec::new();
    ps.push(Piece::Lit("="));
    assert(ps@ =~= seq![Piece::Lit("=")]);
    push_year_sum(&mut ps, "P", yc);
    ps.push(Piece::Lit("/("));
    push_year_sum(&mut ps, "S", yc);
    ps.push(Piece::Lit("+"));
    push_year_sum(&mut ps, "T", yc);
    ps.push(Piece::Lit(")"));
    assert(ps@ =~= seq![Piece::Lit("=")] + year_sum("P", yc) + seq![Piece::Lit("/(")]
        + year_sum("S", yc) + seq![Piece::Lit("+")] + year_sum("T", yc) + seq![Piece::Lit(")")]);
    push_pieces(cells, 3, 8, col, ps);
    push_pieces(cells, 3, 9, col, vec![Piece::Lit("=IF("), Piece::Lit(yc), Piece::Lit("8>1.5,TRUE,FALSE)")]);
    push_pieces(cells, 3, 10, col, vec![Piece::Lit("=Forecast!U"), Piece::Lit(last)]);
    push_pieces(cells, 3, 11, col, vec![Piece::Lit("="), Piece::Lit(yc), Piece::Lit("6/"), Piece::Lit(yc), Piece::Lit("4")]);
    assert(cells_view(cells@) =~= cells_view(old(cells)@) + summary_year(col as nat, yc, last));
}

fn push_column_labels(cells: &mut Vec<PlannedCell>, sheet: usize, col: u32, first_row: u32, ls: Vec<&'static str>)
    requires
        first_row + ls@.len() <= u32::MAX,
    ensures
        cells_view(final(cells)@) == cells_view(old(cells)@) + column_labels(sheet as nat, col as nat, first_row as nat, labels(ls@)),
{
    let ghost start = cells_view(cells@);
    let ghost names = labels(ls@);
    let mut k: usize = 0;
    while k < ls.len()
        invariant
            0 <= k <= ls@.len(),
            first_row + ls@.len() <= u32::MAX,
            names == labels(ls@),
            cells_view(cells@) == start + column_labels(sheet as nat, col as nat, first_row as nat, names.subrange(0, k as int)),
        decreases ls.len() - k,
    {
        push_lit(cells, sheet, first_row + k as u32, col, ls[k]);
        assert(column_labels(sheet as nat, col as nat, first_row as nat, names.subrange(0, k + 1)) =~=
            column_labels(sheet as nat, col as nat, first_row as nat, names.subrange(0, k as int)).push(
                text_cell(sheet as nat, (first_row + k) as nat, col as nat, ls@[k as int]@)));
        k = k + 1;
    }
    assert(names.subrange(0, ls@.len() as int) =~= names);
}

/// Plans the two-year finance forecast workbook.
pub fn finance_model_plan() -> (p: WorkbookPlan)
    ensures
        names_view(p.sheets@) == finance_sheets(),
        cells_view(p.cells@) == finance_cells(),
{
    let sheets = sheet_names(vec!["Sheet1", "Assumptions", "Forecast", "Summary"]);
    let mut cells = Vec::new();
    push_assumptions(&mut cells);
    push_forecast(&mut cells);
    push_finance_summary(&mut cells);
    assert(cells_view(cells@) =~= finance_cells());
    WorkbookPlan { sheets, cells }
}

fn push_forecast(cells: &mut Vec<PlannedCell>)
    ensures
        cells_view(final(cells)@) == cells_view(old(cells)@) + header_cells(2, 1, labels(forecast_labels())) + flat(24, forecast_month_step()),
{
    let ghost o = cells_view(cells@);
    push_header(cells, 2, 1, vec![
        "Month", "FiscalYear", "Quarter", "Enterprise", "EnterpriseRevenue", "EnterpriseGrossProfit",
        "SMB", "SMBRevenue", "SMBGrossProfit", "Services", "ServicesRevenue", "ServicesGrossProfit",
        "TotalRevenue", "GrossProfit", "Opex", "EBITDA", "Capex", "WorkingCapital", "Interest",
        "Principal", "EndingDebt", "PretaxCash", "Taxes", "NetCash", "EndingCash",
    ]);
    let ghost h = cells_view(cells@);
    assert(h =~= o + header_cells(2, 1, labels(forecast_labels())));
    let groups: Vec<(u32, &'static str, &'static str)> = vec![(4, "D", "E"), (7, "G", "H"), (10, "J", "K")];
    assert(groups@ =~= segment_groups());
    assert(cells_view(cells@) =~= h + flat(0, forecast_month_step()));
    let mut m: u32 = 0;
    while m < 24
        invariant
            0 <= m <= 24,
            groups@ == segment_groups(),
            cells_view(cells@) == h + flat(m as nat, forecast_month_step()),
        decreases 24 - m,
    {
        push_forecast_month(cells, m + 1, &groups);
        proof {
            lemma_flat_next(m as nat, forecast_month_step());
            assert(cells_view(cells@) =~= h + flat((m + 1) as nat, forecast_month_step()));
        }
        m = m + 1;
    }
}

fn push_finance_summary(cells: &mut Vec<PlannedCell>)
    ensures
        cells_view(final(cells)@) == cells_view(old(cells)@) + finance_summary(),
{
    push_lit(cells, 3, 1, 1, "Metric");
    push_num(cells, 3, 1, 2, 2026);
    push_num(cells, 3, 1, 3, 2027);
    push_column_labels(cells, 3, 1, 2, vec!["Revenue", "GrossProfit", "EBITDA", "Taxes", "NetCash", "EndingCash", "DSCR", "CovenantPass", "EndingDebt", "CashConversion"]);
    push_summary_year(cells, 2, "B", "13");
    push_summary_year(cells, 3, "C", "25");
    assert(cells_view(cells@) =~= cells_view(old(cells)@) + finance_summary());
}

fn push_assumptions(cells: &mut Vec<PlannedCell>)
    requires
        old(cells)@.len() == 0,
    ensures
        cells_view(final(cells)@) == finance_assumptions(),
{
    push_lit(cells, 1, 2, 1, "Driver");
    push_lit(cells, 1, 2, 3, "Value");
    push_driver(cells, 4, "TaxRate", 24, 2);
    push_driver(cells, 5, "OpexRatio", 18, 2);
    push_driver(cells, 6, "CapexRatio", 5, 2);
    push_driver(cells, 7, "WorkingCapitalRatio", 2, 2);
    push_driver(cells, 8, "StartingCash", 150_000, 0);
    push_driver(cells, 9, "DebtPrincipal", 600_000, 0);
    push_driver(cells, 10, "AnnualInterestRate", 6, 2);
    push_driver(cells, 11, "MonthlyPrincipalPaydown", 25_000, 0);
    push_driver(cells, 12, "Year2PriceUplift", 15, 3);
    push_header(cells, 1, 15, vec!["Segment", "BaseUnits", "MonthlyUnitAdd", "UnitPrice", "CostPct"]);
    push_segment(cells, 16, "Enterprise", 120, 5, 2_500, 34);
    push_segment(cells, 17, "SMB", 420, 12, 950, 46);
    push_segment(cells, 18, "Services", 60, 2, 4_200, 58);
    assert(cells_view(cells@) =~= finance_assumptions());
}

/// A label in column A and its value in column C of the operations
/// assumptions sheet.
pub open spec fn ops_driver(row: nat, label: &'static str, units: int, decimals: nat) -> Seq<CellView> {
    seq![text_cell(1, row, 1, label@), dec_cell(1, row, 3, units, decimals)]
}

/// The service queues: name, team, bill rate, labor rate, weekly capacity.
pub open spec fn ops_queues() -> Seq<(&'static str, &'static str, u32, u32, u32)> {
    seq![
        ("Install", "Field", 185u32, 92u32, 240u32),
        ("BreakFix", "Rapid", 210u32, 110u32, 200u32),
        ("Audit", "Compliance", 165u32, 80u32, 160u32),
        ("Depot", "Bench", 140u32, 70u32, 180u32),
    ]
}

/// Priorities: name, response hours, labor multiplier in hundredths.
pub open spec fn ops_priorities() -> Seq<(&'static str, u32, u32)> {
    seq![("Critical", 4u32, 135u32), ("Expedited", 8u32, 115u32), ("Standard", 24u32, 100u32)]
}

pub open spec fn ops_sites() -> Seq<&'static str> {
    seq!["Denver", "Phoenix", "Austin", "Boise"]
}

pub open spec fn ops_statuses() -> Seq<&'static str> {
    seq!["Open", "Scheduled", "Closed"]
}

pub open spec fn queue_step() -> spec_fn(nat) -> Seq<CellView> {
    |k: nat| {
        let q = ops_queues()[k as int];
        let row = k + 10;
        seq![text_cell(2, row, 1, q.0@), text_cell(2, row, 2, q.1@), num_cell(2, row, 3, q.2 as int),
            num_cell(2, row, 4, q.3 as int), num_cell(2, row, 5, q.4 as int)]
    }
}

pub open spec fn priority_step() -> spec_fn(nat) -> Seq<CellView> {
    |k: nat| {
        let p = ops_priorities()[k as int];
        let row = k + 18;
        seq![text_cell(3, row, 1, p.0@), num_cell(3, row, 2, p.1 as int), dec_cell(3, row, 3, p.2 as int, 2)]
    }
}

/// `=INDEX({range}{row}{rest}`: a lookup keyed by a cell of the row.
pub open spec fn keyed(head: &'static str, row: nat, rest: &'static str) -> Seq<char> {
    pieces_text(seq![Piece::Lit(head), Piece::Num(row as u64), Piece::Lit(rest)])
}

/// Work order `i` (row `i + 2`): keys cycling over sites, queues,
/// priorities and statuses; hours and material cost from `i`; and the
/// lookups and money formulas.
pub open spec fn order_step() -> spec_fn(nat) -> Seq<CellView> {
    |i: nat| {
        let row = i + 2;
        let queue = (i / 4) % 4;
        seq![
            text_cell(4, row, 1, "WO"@ + zero_pad(i + 1, 5)),
            text_cell(4, row, 2, ops_sites()[(i % 4) as int]@),
            text_cell(4, row, 3, ops_queues()[queue as int].0@),
            text_cell(4, row, 4, ops_priorities()[((i / 16) % 3) as int].0@),
            text_cell(4, row, 5, ops_statuses()[((i / 48) % 3) as int]@),
            num_cell(4, row, 6, (2 + (i % 8) * 2 + queue) as int),
            num_cell(4, row, 7, (40 + (i % 9) * 15 + (i % 4) * 5) as int),
            formula_cell(4, row, 8, keyed("=INDEX(QueueConfig!$C$10:$C$13,MATCH(C", row, ",QueueConfig!$A$10:$A$13,0))")),
            formula_cell(4, row, 9, keyed("=INDEX(QueueConfig!$D$10:$D$13,MATCH(C", row, ",QueueConfig!$A$10:$A$13,0))")),
            formula_cell(4, row, 10, keyed("=INDEX(PriorityConfig!$C$18:$C$20,MATCH(D", row, ",PriorityConfig!$A$18:$A$20,0))*Assumptions!$C$6")),
            formula_cell(4, row, 11, keyed("=INDEX(PriorityConfig!$B$18:$B$20,MATCH(D", row, ",PriorityConfig!$A$18:$A$20,0))")),
            formula_cell(4, row, 12, pieces_text(row_formula(seq!["=F", "*H"], row, ""))),
            formula_cell(4, row, 13, pieces_text(row_formula(seq!["=F", "*I", "*J"], row, ""))),
            formula_cell(4, row, 14, pieces_text(row_formula(seq!["=L", "-M", "-G"], row, ""))),
            formula_cell(4, row, 15, pieces_text(row_formula(seq!["=IF(F", ">K"], row, ",1,0)"))),
            formula_cell(4, row, 16, pieces_text(row_formula(seq!["=IF(E", "=\"Closed\",0,F"], row, ")"))),
            formula_cell(4, row, 17, keyed("=INDEX(QueueConfig!$B$10:$B$13,MATCH(C", row, ",QueueConfig!$A$10:$A$13,0))")),
        ]
    }
}

/// Dashboard row `k`: site `k / 4` and queue `k mod 4` with their roll-ups.
pub open spec fn dashboard_step() -> spec_fn(nat) -> Seq<CellView> {
    |k: nat| {
        let r = k + 2;
        seq![
            text_cell(5, r, 1, ops_sites()[(k / 4) as int]@),
            text_cell(5, r, 2, ops_queues()[(k % 4) as int].0@),
            formula_cell(5, r, 3, pieces_text(row_formula(seq!["=SUMIFS(WorkOrders!$P$2:$P$1501,WorkOrders!$B$2:$B$1501,A", ",WorkOrders!$C$2:$C$1501,B"], r, ")"))),
            formula_cell(5, r, 4, pieces_text(row_formula(seq!["=COUNTIFS(WorkOrders!$B$2:$B$1501,A", ",WorkOrders!$C$2:$C$1501,B"], r, ",WorkOrders!$E$2:$E$1501,\"<>Closed\")"))),
            formula_cell(5, r, 5, pieces_text(row_formula(seq!["=SUMIFS(WorkOrders!$N$2:$N$1501,WorkOrders!$B$2:$B$1501,A", ",WorkOrders!$C$2:$C$1501,B"], r, ")"))),
            formula_cell(5, r, 6, pieces_text(row_formula(seq!["=SUMIFS(WorkOrders!$O$2:$O$1501,WorkOrders!$B$2:$B$1501,A", ",WorkOrders!$C$2:$C$1501,B"], r, ",WorkOrders!$E$2:$E$1501,\"<>Closed\")"))),
            formula_cell(5, r, 7, keyed("=INDEX(QueueConfig!$E$10:$E$13,MATCH(B", r, ",QueueConfig!$A$10:$A$13,0))")),
            formula_cell(5, r, 8, pieces_text(row_formula(seq!["=C", "-G"], r, ""))),
        ]
    }
}

pub open spec fn ops_summary() -> Seq<CellView> {
    seq![
        text_cell(6, 2, 1, "TotalBacklog"@), formula_cell(6, 2, 2, "=SUM(Dashboard!C2:C17)"@),
        text_cell(6, 3, 1, "TotalMargin"@), formula_cell(6, 3, 2, "=SUM(Dashboard!E2:E17)"@),
        text_cell(6, 4, 1, "TotalRisk"@), formula_cell(6, 4, 2, "=SUM(Dashboard!F2:F17)"@),
        text_cell(6, 5, 1, "WorstGap"@), formula_cell(6, 5, 2, "=MAX(Dashboard!H2:H17)"@),
        text_cell(6, 6, 1, "DenverInstallBacklog"@), formula_cell(6, 6, 2, "=Dashboard!C2"@),
        text_cell(6, 7, 1, "DenverDepotMargin"@), formula_cell(6, 7, 2, "=Dashboard!E5"@),
    ]
}

pub open spec fn ops_order_labels() -> Seq<&'static str> {
    seq!["OrderId", "Site", "Queue", "Priority", "Status", "EstHours", "MaterialCost", "BillRate", "LaborRate",
        "LaborMultiplier", "ResponseHours", "BillableValue", "LaborCost", "GrossMargin", "SLARisk", "BacklogHours", "Team"]
}

pub open spec fn ops_dashboard_labels() -> Seq<&'static str> {
    seq!["Site", "Queue", "BacklogHours", "OpenOrders", "GrossMargin", "SLARiskCount", "Capacity", "StaffingGap"]
}

/// The operations workbook: drivers, queue and priority tables, 1,500 work
/// orders, a site-by-queue dashboard and a summary.
pub open spec fn ops_cells() -> Seq<CellView> {
    ops_driver(4, "BacklogTargetHours", 160, 0) + ops_driver(5, "EscalationThreshold", 9, 1) + ops_driver(6, "LaborCostInflator", 108, 2)
        + header_cells(2, 9, labels(seq!["Queue", "Team", "BillRate", "LaborRate", "WeeklyCapacity"]))
        + flat(4, queue_step())
        + header_cells(3, 17, labels(seq!["Priority", "ResponseHours", "LaborMultiplier"]))
        + flat(3, priority_step())
        + header_cells(4, 1, labels(ops_order_labels()))
        + flat(1_500, order_step())
        + header_cells(5, 1, labels(ops_dashboard_labels()))
        + flat(16, dashboard_step())
        + ops_summary()
}

pub open spec fn ops_sheets() -> Seq<Seq<char>> {
    seq!["Sheet1"@, "Assumptions"@, "QueueConfig"@, "PriorityConfig"@, "WorkOrders"@, "Dashboard"@, "Summary"@]
}

fn push_keyed(cells: &mut Vec<PlannedCell>, sheet: usize, row: u32, col: u32, head: &'static str, rest: &'static str)
    ensures
        cells_view(final(cells)@) == cells_view(old(cells)@).push(formula_cell(sheet as nat, row as nat, col as nat, keyed(head, row as nat, rest))),
{
    push_pieces(cells, sheet, row, col, vec![Piece::Lit(head), Piece::Num(row as u64), Piece::Lit(rest)]);
}

fn push_ops_tables(cells: &mut Vec<PlannedCell>)
    ensures
        cells_view(final(cells)@) == cells_view(old(cells)@)
            + header_cells(2, 9, labels(seq!["Queue", "Team", "BillRate", "LaborRate", "WeeklyCapacity"]))
            + flat(4, queue_step())
            + header_cells(3, 17, labels(seq!["Priority", "ResponseHours", "LaborMultiplier"]))
            + flat(3, priority_step()),
{
    let ghost o = cells_view(cells@);
    push_header(cells, 2, 9, vec!["Queue", "Team", "BillRate", "LaborRate", "WeeklyCapacity"]);
    let queues: Vec<(&'static str, &'static str, u32, u32, u32)> = vec![
        ("Install", "Field", 185, 92, 240),
        ("BreakFix", "Rapid", 210, 110, 200),
        ("Audit", "Compliance", 165, 80, 160),
        ("Depot", "Bench", 140, 70, 180),
    ];
    assert(queues@ =~= ops_queues());
    let ghost a = cells_view(cells@);
    assert(cells_view(cells@) =~= a + flat(0, queue_step()));
    let mut k: usize = 0;
    while k < 4
        invariant
            0 <= k <= 4,
            queues@ == ops_queues(),
            cells_view(cells@) == a + flat(k as nat, queue_step()),
        decreases 4 - k,
    {
        let (q, team, bill, labor, cap) = queues[k];
        let row = (k + 10) as u32;
        push_lit(cells, 2, row, 1, q);
        push_lit(cells, 2, row, 2, team);
        push_num(cells, 2, row, 3, bill as i64);
        push_num(cells, 2, row, 4, labor as i64);
        push_num(cells, 2, row, 5, cap as i64);
        proof {
            lemma_flat_next(k as nat, queue_step());
            assert(cells_view(cells@) =~= a + flat((k + 1) as nat, queue_step()));
        }
        k = k + 1;
    }
    push_header(cells, 3, 17, vec!["Priority", "ResponseHours", "LaborMultiplier"]);
    let priorities: Vec<(&'static str, u32, u32)> = vec![("Critical", 4, 135), ("Expedited", 8, 115), ("Standard", 24, 100)];
    assert(priorities@ =~= ops_priorities());
    let ghost b = cells_view(cells@);
    assert(cells_view(cells@) =~= b + flat(0, priority_step()));
    k = 0;
    while k < 3
        invariant
            0 <= k <= 3,
            priorities@ == ops_priorities(),
            cells_view(cells@) == b + flat(k as nat, priority_step()),
        decreases 3 - k,
    {
        let (name, hours, mult) = priorities[k];
        let row = (k + 18) as u32;
        push_lit(cells, 3, row, 1, name);
        push_num(cells, 3, row, 2, hours as i64);
        push_dec(cells, 3, row, 3, mult as i64, 2);
        proof {
            lemma_flat_next(k as nat, priority_step());
            assert(cells_view(cells@) =~= b + flat((k + 1) as nat, priority_step()));
        }
        k = k + 1;
    }
    assert(cells_view(cells@) =~= o
            + header_cells(2, 9, labels(seq!["Queue", "Team", "BillRate", "LaborRate", "WeeklyCapacity"]))
            + flat(4, queue_step())
            + header_cells(3, 17, labels(seq!["Priority", "ResponseHours", "LaborMultiplier"]))
            + flat(3, priority_step()));
}

fn order_id(n: u32) -> (s: String)
    ensures
        s@ == "WO"@ + zero_pad(n as nat, 5),
{
    let mut v = chars_of("WO");
    push_chars(&mut v, &zero_padded(n, 5));
    string_of(&v)
}

fn push_order(cells: &mut Vec<PlannedCell>, i: u32, sites: &Vec<&'static str>, queues: &Vec<&'static str>,
    priorities: &Vec<&'static str>, statuses: &Vec<&'static str>)
    requires
        i < 1_500,
        sites@ == ops_sites(),
        queues@ == ops_queues().map_values(|q: (&'static str, &'static str, u32, u32, u32)| q.0),
        priorities@ == ops_priorities().map_values(|p: (&'static str, u32, u32)| p.0),
        statuses@ == ops_statuses(),
    ensures
        cells_view(final(cells)@) == cells_view(old(cells)@) + order_step()(i as nat),
{
    let row = i + 2;
    let queue = (i / 4) % 4;
    let ghost o = cells_view(cells@);
    push_text(cells, 4, row, 1, order_id(i + 1));
    push_lit(cells, 4, row, 2, sites[(i % 4) as usize]);
    push_lit(cells, 4, row, 3, queues[queue as usize]);
    push_lit(cells, 4, row, 4, priorities[((i / 16) % 3) as usize]);
    push_lit(cells, 4, row, 5, statuses[((i / 48) % 3) as usize]);
    push_num(cells, 4, row, 6, (2 + (i % 8) * 2 + queue) as i64);
    push_num(cells, 4, row, 7, (40 + (i % 9) * 15 + (i % 4) * 5) as i64);
    assert(cells_view(cells@) =~= o + order_step()(i as nat).subrange(0, 7));
    let ghost a = cells_view(cells@);
    push_keyed(cells, 4, row, 8, "=INDEX(QueueConfig!$C$10:$C$13,MATCH(C", ",QueueConfig!$A$10:$A$13,0))");
    push_keyed(cells, 4, row, 9, "=INDEX(QueueConfig!$D$10:$D$13,MATCH(C", ",QueueConfig!$A$10:$A$13,0))");
    push_keyed(cells, 4, row, 10, "=INDEX(PriorityConfig!$C$18:$C$20,MATCH(D", ",PriorityConfig!$A$18:$A$20,0))*Assumptions!$C$6");
    push_keyed(cells, 4, row, 11, "=INDEX(PriorityConfig!$B$18:$B$20,MATCH(D", ",PriorityConfig!$A$18:$A$20,0))");
    assert(cells_view(cells@) =~= a + order_step()(i as nat).subrange(7, 11));
    let ghost b = cells_view(cells@);
    push_row_formula(cells, 4, row, 12, vec!["=F", "*H"], "");
    push_row_formula(cells, 4, row, 13, vec!["=F", "*I", "*J"], "");
    push_row_formula(cells, 4, row, 14, vec!["=L", "-M", "-G"], "");
    push_row_formula(cells, 4, row, 15, vec!["=IF(F", ">K"], ",1,0)");
    push_row_formula(cells, 4, row, 16, vec!["=IF(E", "=\"Closed\",0,F"], ")");
    push_keyed(cells, 4, row, 17, "=INDEX(QueueConfig!$B$10:$B$13,MATCH(C", ",QueueConfig!$A$10:$A$13,0))");
    assert(cells_view(cells@) =~= b + order_step()(i as nat).subrange(11, 17));
    assert(order_step()(i as nat) =~= order_step()(i as nat).subrange(0, 7) + order_step()(i as nat).subrange(7, 11)
        + order_step()(i as nat).subrange(11, 17));
}

fn push_dashboard_row(cells: &mut Vec<PlannedCell>, k: u32, sites: &Vec<&'static str>, queues: &Vec<&'static str>)
    requires
        k < 16,
        sites@ == ops_sites(),
        queues@ == ops_queues().map_values(|q: (&'static str, &'static str, u32, u32, u32)| q.0),
    ensures
        cells_view(final(cells)@) == cells_view(old(cells)@) + dashboard_step()(k as nat),
{
    let r = k + 2;
    let ghost o = cells_view(cells@);
    push_lit(cells, 5, r, 1, sites[(k / 4) as usize]);
    push_lit(cells, 5, r, 2, queues[(k % 4) as usize]);
    push_row_formula(cells, 5, r, 3, vec!["=SUMIFS(WorkOrders!$P$2:$P$1501,WorkOrders!$B$2:$B$1501,A", ",WorkOrders!$C$2:$C$1501,B"], ")");
    push_row_formula(cells, 5, r, 4, vec!["=COUNTIFS(WorkOrders!$B$2:$B$1501,A", ",WorkOrders!$C$2:$C$1501,B"], ",WorkOrders!$E$2:$E$1501,\"<>Closed\")");
    push_row_formula(cells, 5, r, 5, vec!["=SUMIFS(WorkOrders!$N$2:$N$1501,WorkOrders!$B$2:$B$1501,A", ",WorkOrders!$C$2:$C$1501,B"], ")");
    push_row_formula(cells, 5, r, 6, vec!["=SUMIFS(WorkOrders!$O$2:$O$1501,WorkOrders!$B$2:$B$1501,A", ",WorkOrders!$C$2:$C$1501,B"], ",WorkOrders!$E$2:$E$1501,\"<>Closed\")");
    push_keyed(cells, 5, r, 7, "=INDEX(QueueConfig!$E$10:$E$13,MATCH(B", ",QueueConfig!$A$10:$A$13,0))");
    push_row_formula(cells, 5, r, 8, vec!["=C", "-G"], "");
    assert(cells_view(cells@) =~= o + dashboard_step()(k as nat));
}

fn push_ops_summary(cells: &mut Vec<PlannedCell>)
    ensures
        cells_view(final(cells)@) == cells_view(old(cells)@) + ops_summary(),
{
    push_lit(cells, 6, 2, 1, "TotalBacklog");
    push_formula(cells, 6, 2, 2, owned("=SUM(Dashboard!C2:C17)"));
    push_lit(cells, 6, 3, 1, "TotalMargin");
    push_formula(cells, 6, 3, 2, owned("=SUM(Dashboard!E2:E17)"));
    push_lit(cells, 6, 4, 1, "TotalRisk");
    push_formula(cells, 6, 4, 2, owned("=SUM(Dashboard!F2:F17)"));
    push_lit(cells, 6, 5, 1, "WorstGap");
    push_formula(cells, 6, 5, 2, owned("=MAX(Dashboard!H2:H17)"));
    push_lit(cells, 6, 6, 1, "DenverInstallBacklog");
    push_formula(cells, 6, 6, 2, owned("=Dashboard!C2"));
    push_lit(cells, 6, 7, 1, "DenverDepotMargin");
    push_formula(cells, 6, 7, 2, owned("=Dashboard!E5"));
    assert(cells_view(cells@) =~= cells_view(old(cells)@) + ops_summary());
}

fn push_orders_and_dashboard(cells: &mut Vec<PlannedCell>)
    ensures
        cells_view(final(cells)@) == cells_view(old(cells)@)
            + header_cells(4, 1, labels(ops_order_labels()))
            + flat(1_500, order_step())
            + header_cells(5, 1, labels(ops_dashboard_labels()))
            + flat(16, dashboard_step()),
{
    let ghost o = cells_view(cells@);
    let sites: Vec<&'static str> = vec!["Denver", "Phoenix", "Austin", "Boise"];
    let queues: Vec<&'static str> = vec!["Install", "BreakFix", "Audit", "Depot"];
    let priorities: Vec<&'static str> = vec!["Critical", "Expedited", "Standard"];
    let statuses: Vec<&'static str> = vec!["Open", "Scheduled", "Closed"];
    assert(sites@ =~= ops_sites());
    assert(queues@ =~= ops_queues().map_values(|q: (&'static str, &'static str, u32, u32, u32)| q.0));
    assert(priorities@ =~= ops_priorities().map_values(|p: (&'static str, u32, u32)| p.0));
    assert(statuses@ =~= ops_statuses());
    push_header(cells, 4, 1, vec!["OrderId", "Site", "Queue", "Priority", "Status", "EstHours", "MaterialCost", "BillRate", "LaborRate",
        "LaborMultiplier", "ResponseHours", "BillableValue", "LaborCost", "GrossMargin", "SLARisk", "BacklogHours", "Team"]);
    let ghost a = cells_view(cells@);
    assert(cells_view(cells@) =~= a + flat(0, order_step()));
    let mut i: u32 = 0;
    while i < 1_500
        invariant
            0 <= i <= 1_500,
            sites@ == ops_sites(),
            queues@ == ops_queues().map_values(|q: (&'static str, &'static str, u32, u32, u32)| q.0),
            priorities@ == ops_priorities().map_values(|p: (&'static str, u32, u32)| p.0),
            statuses@ == ops_statuses(),
            cells_view(cells@) == a + flat(i as nat, order_step()),
        decreases 1_500 - i,
    {
        push_order(cells, i, &sites, &queues, &priorities, &statuses);
        proof {
            lemma_flat_next(i as nat, order_step());
            assert(cells_view(cells@) =~= a + flat((i + 1) as nat, order_step()));
        }
        i = i + 1;
    }
    push_header(cells, 5, 1, vec!["Site", "Queue", "BacklogHours", "OpenOrders", "GrossMargin", "SLARiskCount", "Capacity", "StaffingGap"]);
    let ghost b = cells_view(cells@);
    assert(cells_view(cells@) =~= b + flat(0, dashboard_step()));
    let mut k: u32 = 0;
    while k < 16
        invariant
            0 <= k <= 16,
            sites@ == ops_sites(),
            queues@ == ops_queues().map_values(|q: (&'static str, &'static str, u32, u32, u32)| q.0),
            cells_view(cells@) == b + flat(k as nat, dashboard_step()),
        decreases 16 - k,
    {
        push_dashboard_row(cells, k, &sites, &queues);
        proof {
            lemma_flat_next(k as nat, dashboard_step());
            assert(cells_view(cells@) =~= b + flat((k + 1) as nat, dashboard_step()));
        }
        k = k + 1;
    }
    assert(cells_view(cells@) =~= o
            + header_cells(4, 1, labels(ops_order_labels()))
            + flat(1_500, order_step())
            + header_cells(5, 1, labels(ops_dashboard_labels()))
            + flat(16, dashboard_step()));
}

/// Plans the operations work-order workbook.
pub fn ops_model_plan() -> (p: WorkbookPlan)
    ensures
        names_view(p.sheets@) == ops_sheets(),
        cells_view(p.cells@) == ops_cells(),
{
    let sheets = sheet_names(vec!["Sheet1", "Assumptions", "QueueConfig", "PriorityConfig", "WorkOrders", "Dashboard", "Summary"]);
    let mut cells: Vec<PlannedCell> = Vec::new();
    push_lit(&mut cells, 1, 4, 1, "BacklogTargetHours");
    push_dec(&mut cells, 1, 4, 3, 160, 0);
    push_lit(&mut cells, 1, 5, 1, "EscalationThreshold");
    push_dec(&mut cells, 1, 5, 3, 9, 1);
    push_lit(&mut cells, 1, 6, 1, "LaborCostInflator");
    push_dec(&mut cells, 1, 6, 3, 108, 2);
    let ghost d = cells_view(cells@);
    assert(d =~= ops_driver(4, "BacklogTargetHours", 160, 0) + ops_driver(5, "EscalationThreshold", 9, 1) + ops_driver(6, "LaborCostInflator", 108, 2));
    push_ops_tables(&mut cells);
    push_orders_and_dashboard(&mut cells);
    push_ops_summary(&mut cells);
    assert(cells_view(cells@) =~= ops_cells());
    WorkbookPlan { sheets, cells }
}

} // verus!
