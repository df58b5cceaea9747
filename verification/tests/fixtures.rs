use formualizer_bench_core::scenarios::common::{ExpectedDivergenceAction, ExpectedDivergencePhase, ScenarioTag};
use formualizer_bench_core::scenarios::s_calc::S030CalcAndDataTabsMixed;
use formualizer_bench_core::scenarios::s_simple::{S001NoFormulasStaticGrid, S022DynamicFunctionsOffsetIndirect};
use formualizer_bench_core::plan::{CellContent, PlannedCell, WorkbookPlan};
use formualizer_bench_core::scenarios::fixtures::{
    s001_fixture, s002_fixture, s003_fixture, s013_fixture, s016_fixture, s018_fixture, s019_fixture, s020_fixture,
    s022_fixture, s023_fixture, s031_fixture, s035_fixture, s036_fixture, s037_fixture, s041_fixture, s045_fixture,
    s046_fixture, s047_fixture, s048_fixture, s049_fixture,
};

fn num(sheet: usize, row: u32, col: u32, n: i64) -> PlannedCell {
    PlannedCell { sheet, row, col, content: CellContent::Number { units: n, decimals: 0 } }
}

fn formula(sheet: usize, row: u32, col: u32, f: &str) -> PlannedCell {
    PlannedCell { sheet, row, col, content: CellContent::Formula(f.to_string()) }
}

fn text(sheet: usize, row: u32, col: u32, t: &str) -> PlannedCell {
    PlannedCell { sheet, row, col, content: CellContent::Text(t.to_string()) }
}

fn cell_at(p: &WorkbookPlan, sheet: usize, row: u32, col: u32) -> Option<CellContent> {
    p.cells.iter().rev().find(|c| c.sheet == sheet && c.row == row && c.col == col).map(|c| c.content.clone())
}

fn names(v: &[&str]) -> Vec<String> {
    v.iter().map(|s| s.to_string()).collect()
}

#[test]
fn static_grid_holds_row_thousandths_plus_column() {
    let p = s001_fixture(2, 3);
    assert_eq!(p.sheets, names(&["Sheet1"]));
    assert_eq!(p.cells.len(), 6);
    assert_eq!(cell_at(&p, 0, 2, 3), Some(CellContent::Number { units: 3_002, decimals: 3 }));
}

#[test]
fn trivial_family_doubles_its_input() {
    let p = s002_fixture(3);
    assert_eq!(
        p.cells,
        vec![num(0, 1, 1, 1), formula(0, 1, 2, "=A1*2"), num(0, 2, 1, 2), formula(0, 2, 2, "=A2*2"), num(0, 3, 1, 3), formula(0, 3, 2, "=A3*2")]
    );
}

#[test]
fn finance_family_ends_with_multiplier_and_rollup() {
    let p = s003_fixture(20);
    assert_eq!(cell_at(&p, 0, 18, 2), Some(CellContent::Number { units: 10, decimals: 0 }));
    assert_eq!(cell_at(&p, 0, 17, 2), Some(CellContent::Number { units: 26, decimals: 0 }));
    assert_eq!(cell_at(&p, 0, 4, 3), Some(CellContent::Formula("=A4*B4*$F$1".to_string())));
    assert_eq!(p.cells[p.cells.len() - 2], num(0, 1, 6, 1));
    assert_eq!(p.cells[p.cells.len() - 1], formula(0, 1, 7, "=SUM(C1:C20)"));
    assert_eq!(s031_fixture(20).cells, p.cells);
}

#[test]
fn sumifs_and_multi_sheet_fixtures_name_their_sheets() {
    let p = s016_fixture(10);
    assert_eq!(p.sheets, names(&["Sheet1", "Data1", "Data2", "Calc1", "Calc2"]));
    let q = s013_fixture(10);
    assert_eq!(q.sheets[0], "Sheet1");
}

#[test]
fn dynamic_functions_offset_from_the_first_row() {
    let p = s022_fixture(2);
    assert_eq!(cell_at(&p, 0, 2, 2), Some(CellContent::Formula("=OFFSET($A$1, 1, 0) * 2".to_string())));
    assert_eq!(cell_at(&p, 0, 2, 3), Some(CellContent::Formula("=INDIRECT(\"A\" & 2) + 100".to_string())));
}

#[test]
fn gaps_leave_every_tenth_input_empty() {
    let p = s023_fixture(20);
    assert_eq!(cell_at(&p, 0, 10, 1), None);
    assert_eq!(cell_at(&p, 0, 11, 1), Some(CellContent::Number { units: 11, decimals: 0 }));
    assert_eq!(cell_at(&p, 0, 10, 2), Some(CellContent::Formula("=A10*2".to_string())));
    assert_eq!(p.cells.len(), 38);
}

#[test]
fn deep_chain_and_disjoint_families() {
    let p = s047_fixture();
    assert_eq!(p.cells.len(), 2_000);
    assert_eq!(cell_at(&p, 0, 2_000, 1), Some(CellContent::Formula("=A1999+1".to_string())));
    let q = s048_fixture();
    assert_eq!(q.cells.len(), 20_000);
    assert_eq!(q.cells[400], num(0, 1, 3, 2));
    assert_eq!(q.cells[401], formula(0, 1, 4, "=C1*3"));
    assert_eq!(cell_at(&q, 0, 200, 100), Some(CellContent::Formula("=CU200*51".to_string())));
}

#[test]
fn vlookup_keys_cycle_through_fifty() {
    let p = s049_fixture();
    assert_eq!(cell_at(&p, 0, 51, 3), Some(CellContent::Text("K0001".to_string())));
    assert_eq!(cell_at(&p, 0, 51, 4), Some(CellContent::Formula("=VLOOKUP(C51, $A$1:$B$1000, 2, FALSE)".to_string())));
}

#[test]
fn named_ranges_cover_ten_rows_each() {
    let (p, ranges) = s018_fixture(3);
    assert_eq!(ranges.len(), 100);
    assert_eq!(ranges[0], ("NamedRange_1".to_string(), "Sheet1!$A$10:$A$19".to_string()));
    assert_eq!(ranges[99], ("NamedRange_100".to_string(), "Sheet1!$A$1000:$A$1009".to_string()));
    assert_eq!(p.cells.len(), 1_103);
    assert_eq!(p.cells[1_100], formula(0, 1, 2, "=SUM(NamedRange_2)"));
    assert_eq!(p.cells[1_102], formula(0, 3, 2, "=SUM(NamedRange_4)"));
}

#[test]
fn named_range_fixture_renames_the_first_sheet() {
    let (p, ranges) = s037_fixture(3);
    assert_eq!(p.sheets, names(&["Data", "Sheet1"]));
    assert_eq!(ranges, vec![("DataRange".to_string(), "Data!$A$1:$A$100".to_string())]);
    assert_eq!(p.cells[1_002], formula(1, 3, 1, "=SUM(DataRange) * 3"));
}

#[test]
fn table_fixtures_write_header_rows_and_tables() {
    let (p, tables) = s019_fixture();
    assert_eq!(&p.cells[0..3], &[text(0, 1, 1, "ID"), text(0, 1, 2, "Amount"), text(0, 1, 3, "Type")]);
    assert_eq!(&p.cells[3..6], &[num(0, 2, 1, 1), num(0, 2, 2, 10), text(0, 2, 3, "Type1")]);
    assert_eq!(cell_at(&p, 0, 3, 5), Some(CellContent::Formula("=SUMIFS(Table1[Amount], Table1[Type], \"Type1\")".to_string())));
    assert_eq!(tables.len(), 1);
    assert_eq!((tables[0].name.as_str(), tables[0].first.as_str(), tables[0].last.as_str()), ("Table1", "A1", "C1001"));
    assert_eq!(tables[0].columns, names(&["ID", "Amount", "Type"]));
    let (q, grow) = s041_fixture();
    assert_eq!(q.cells.len(), 3 + 300 + 1);
    assert_eq!(grow[0].last, "C101");
}

#[test]
fn cross_table_fixture_spreads_over_three_sheets() {
    let (p, tables) = s020_fixture();
    assert_eq!(p.sheets, names(&["Sheet1", "Sales", "Products"]));
    assert_eq!(cell_at(&p, 1, 102, 2), Some(CellContent::Number { units: 1, decimals: 0 }));
    assert_eq!(cell_at(&p, 2, 8, 2), Some(CellContent::Text("Product7".to_string())));
    assert_eq!(cell_at(&p, 2, 8, 3), Some(CellContent::Text("Category2".to_string())));
    assert_eq!(
        cell_at(&p, 0, 7, 1),
        Some(CellContent::Formula("=SUMIFS(SalesTable[Amount], SalesTable[ProductID], 7) + COUNTIF(ProductsTable[ProductID], 7) * 0".to_string()))
    );
    assert_eq!(tables.len(), 2);
    assert_eq!((tables[0].sheet, tables[0].name.as_str(), tables[0].last.as_str()), (1, "SalesTable", "C1001"));
    assert_eq!((tables[1].sheet, tables[1].name.as_str(), tables[1].last.as_str()), (2, "ProductsTable", "C101"));
}

#[test]
fn column_delete_and_rename_fixtures() {
    let p = s035_fixture(1);
    assert_eq!(p.cells.len(), 11);
    assert_eq!(p.cells[5], formula(0, 1, 6, "=C1+D1"));
    assert_eq!(p.cells[10], num(0, 1, 11, 0));
    let q = s036_fixture(2);
    assert_eq!(q.sheets, names(&["DataA", "DataB", "Sheet1"]));
    assert_eq!(q.cells[1_004], num(1, 5, 1, 10));
    assert_eq!(q.cells[2_001], formula(2, 2, 1, "=DataA!A2 + DataB!A2"));
}

#[test]
fn iferror_inputs_cycle_and_giant_formulas_close_with_their_row() {
    let p = s045_fixture();
    assert_eq!(p.cells.len(), 20_000);
    assert_eq!(&p.cells[0..2], &[num(0, 1, 1, 1), formula(0, 1, 2, "=IFERROR(1/A1,0)")]);
    assert_eq!(cell_at(&p, 0, 2, 1), Some(CellContent::Number { units: -2, decimals: 0 }));
    assert_eq!(cell_at(&p, 0, 5, 1), Some(CellContent::Number { units: 0, decimals: 0 }));
    let q = s046_fixture();
    assert_eq!(q.cells.len(), 2_100);
    match &q.cells[2_000].content {
        CellContent::Formula(f) => {
            assert!(f.starts_with("=A1+A2+A3+"));
            assert!(f.ends_with("+A178*A179-A180/A181+1"));
        }
        other => panic!("unexpected {:?}", other),
    }
}

#[test]
fn scenarios_carry_their_tags_and_divergences() {
    assert_eq!(S001NoFormulasStaticGrid::new().tags(), vec![ScenarioTag::NoFormulas, ScenarioTag::SingleCellEdit]);
    assert_eq!(
        S030CalcAndDataTabsMixed::new().tags(),
        vec![ScenarioTag::Mixed, ScenarioTag::MultiSheet, ScenarioTag::CrossSheet, ScenarioTag::SpanPromotable, ScenarioTag::SingleCellEdit]
    );
    let d = S022DynamicFunctionsOffsetIndirect::new().expected_divergences();
    assert_eq!(d.len(), 1);
    assert_eq!(d[0].phase, ExpectedDivergencePhase::Any);
    assert_eq!(d[0].action, ExpectedDivergenceAction::RunAndNote);
    assert!(d[0].reason.starts_with("OFFSET and INDIRECT"));
}
