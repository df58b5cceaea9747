use formualizer_bench_core::corpus_gen::{
    choose_generator, plan_workbook, repro_chain3_path, repro_chain3_plan, GeneratorChoice, GeneratorConfig,
    GeneratorError,
};
use formualizer_bench_core::corpus_models::{finance_model_plan, ops_model_plan};
use formualizer_bench_core::plan::{CellContent, PlannedCell, WorkbookPlan};

fn empty_config() -> GeneratorConfig {
    GeneratorConfig {
        sheet0_rows: None,
        sheet1_rows: None,
        lookup_rows: None,
        query_rows: None,
        key_prefix: None,
        query_key_stride: None,
        fact_rows: None,
        report_rows: None,
        every_n_rows: None,
        summary_formula: None,
        facts_revenue_formula: None,
        report_sumifs_formula: None,
        report_countifs_formula: None,
        report_units_formula: None,
        report_averageifs_formula: None,
        report_price_total_formula: None,
        formula_pattern: None,
        rollup_formula: None,
        summary_formula_pattern: None,
        summary_rollup_formula: None,
        direct_cross_sheet_rollup_formula: None,
        rebind_probe_formula: None,
    }
}

fn num(sheet: usize, row: u32, col: u32, n: i64) -> PlannedCell {
    PlannedCell { sheet, row, col, content: CellContent::Number { units: n, decimals: 0 } }
}

fn formula(sheet: usize, row: u32, col: u32, f: &str) -> PlannedCell {
    PlannedCell { sheet, row, col, content: CellContent::Formula(f.to_string()) }
}

fn text(sheet: usize, row: u32, col: u32, t: &str) -> PlannedCell {
    PlannedCell { sheet, row, col, content: CellContent::Text(t.to_string()) }
}

fn cell_at(p: &WorkbookPlan, sheet: usize, row: u32, col: u32) -> Option<CellContent> {
    p.cells.iter().rev().find(|c| c.sheet == sheet && c.row == row && c.col == col).map(|c| c.content.clone())
}

fn plan_for(id: &str, c: GeneratorConfig) -> WorkbookPlan {
    let g = choose_generator(id, &c).unwrap();
    assert!(g.fits());
    plan_workbook(g)
}

#[test]
fn chain_plan_links_each_row_to_the_one_above() {
    let mut c = empty_config();
    c.sheet0_rows = Some(5);
    let p = plan_for("chain_100k", c);
    assert_eq!(p.sheets, vec!["Sheet1".to_string()]);
    assert_eq!(
        p.cells,
        vec![
            num(0, 1, 1, 1),
            formula(0, 2, 1, "=A1+1"),
            formula(0, 3, 1, "=A2+1"),
            formula(0, 4, 1, "=A3+1"),
            formula(0, 5, 1, "=A4+1"),
        ]
    );
}

#[test]
fn default_configuration_sizes_follow_the_scenarios() {
    let c = empty_config();
    assert!(matches!(choose_generator("chain_100k", &c), Ok(GeneratorChoice::Chain { rows: 100_000 })));
    assert!(matches!(choose_generator("fanout_100k", &c), Ok(GeneratorChoice::Fanout { rows: 100_000 })));
    assert!(matches!(choose_generator("inc_cross_sheet_mesh_3x25k", &c), Ok(GeneratorChoice::CrossSheetMesh { rows: 25_000 })));
    assert!(matches!(choose_generator("headline_100k_single_edit", &c), Ok(GeneratorChoice::Headline { rows: 100_000 })));
    assert!(matches!(choose_generator("no_such_scenario", &c), Err(GeneratorError::NoGenerator)));
    let mut big = empty_config();
    big.sheet0_rows = Some(u64::MAX);
    assert!(matches!(choose_generator("chain_100k", &big), Ok(GeneratorChoice::Chain { rows: 100_000 })));
    match choose_generator("lookup_index_match_dense_50k", &c) {
        Ok(GeneratorChoice::DenseLookup { lookup_rows, query_rows, key_prefix, stride }) => {
            assert_eq!((lookup_rows, query_rows, key_prefix.as_str(), stride), (50_000, 20_000, "K", 7_919));
        }
        _ => panic!("dense lookup expected"),
    }
    let mut zero = empty_config();
    zero.query_key_stride = Some(0);
    zero.every_n_rows = Some(0);
    assert!(matches!(choose_generator("lookup_index_match_dense_50k", &zero), Ok(GeneratorChoice::DenseLookup { stride: 1, .. })));
    assert!(matches!(choose_generator("sparse_whole_column_refs", &zero), Ok(GeneratorChoice::SparseColumn { every: 1, .. })));
    let g = choose_generator("headline_100k_single_edit", &c).unwrap();
    assert!(!g.fits());
}

#[test]
fn fanout_and_mesh_plans() {
    let mut c = empty_config();
    c.sheet0_rows = Some(2);
    let p = plan_for("fanout_100k", c.clone());
    assert_eq!(p.cells, vec![num(0, 1, 1, 1), formula(0, 1, 2, "=A$1*1"), formula(0, 2, 2, "=A$1*2")]);
    let m = plan_for("cross_sheet_mesh", c);
    assert_eq!(m.sheets, vec!["Sheet1", "Inputs", "CalcA", "CalcB"]);
    assert_eq!(
        m.cells,
        vec![
            num(1, 1, 1, 1), num(1, 1, 2, 2), num(1, 1, 3, 2),
            num(1, 2, 1, 2), num(1, 2, 2, 4), num(1, 2, 3, 3),
            formula(2, 1, 1, "=Inputs!A1+Inputs!B1"), formula(2, 2, 1, "=Inputs!A2+Inputs!B2"),
            formula(3, 1, 1, "=CalcA!A1*Inputs!C1"), formula(3, 2, 1, "=CalcA!A2*Inputs!C2"),
        ]
    );
}

#[test]
fn sparse_dirty_region_blocks_and_tail() {
    let mut c = empty_config();
    c.sheet0_rows = Some(1_000_000);
    let p = plan_for("inc_sparse_dirty_region_1m", c);
    assert_eq!(p.cells.len(), 8 * 4 + 2);
    assert_eq!(cell_at(&p, 0, 125_001, 1), Some(CellContent::Number { units: 20, decimals: 0 }));
    assert_eq!(cell_at(&p, 0, 875_001, 4), Some(CellContent::Formula("=SUM(B875001:C875001)".into())));
    assert_eq!(cell_at(&p, 0, 1_000_000, 2), Some(CellContent::Formula("=A1000000+1".into())));
}

#[test]
fn sparse_whole_column_fills_every_nth_row() {
    let mut c = empty_config();
    c.sheet0_rows = Some(10);
    c.every_n_rows = Some(3);
    let p = plan_for("sparse_whole_column_refs", c);
    assert_eq!(
        p.cells,
        vec![num(0, 1, 1, 1), num(0, 4, 1, 4), num(0, 7, 1, 7), num(0, 10, 1, 10), formula(0, 1, 3, "=SUM(A:A)")]
    );
}

#[test]
fn dense_lookup_keys_values_and_queries() {
    let mut c = empty_config();
    c.lookup_rows = Some(3);
    c.query_rows = Some(2);
    c.query_key_stride = Some(7);
    let p = plan_for("lookup_index_match_dense_50k", c);
    assert_eq!(p.sheets, vec!["Sheet1", "Lookup", "Queries"]);
    assert_eq!(cell_at(&p, 1, 2, 1), Some(CellContent::Text("K000001".into())));
    assert_eq!(cell_at(&p, 1, 3, 2), Some(CellContent::Number { units: 16, decimals: 0 }));
    assert_eq!(cell_at(&p, 1, 4, 3), Some(CellContent::Number { units: 36, decimals: 0 }));
    assert_eq!(cell_at(&p, 2, 2, 1), Some(CellContent::Text("K040000".into())));
    assert_eq!(cell_at(&p, 2, 3, 1), Some(CellContent::Text("K000002".into())));
    assert_eq!(
        cell_at(&p, 2, 2, 2),
        Some(CellContent::Formula("=INDEX(Lookup!$B$2:$B$4,MATCH(A2,Lookup!$A$2:$A$4,0))".into()))
    );
}

#[test]
fn dim_fact_report_joins_facts_and_dimensions() {
    let mut c = empty_config();
    c.fact_rows = Some(20_000);
    c.report_rows = Some(3);
    let p = plan_for("lookup_cross_sheet_dim_fact", c);
    assert_eq!(cell_at(&p, 1, 7, 1), Some(CellContent::Text("Coastal".into())));
    assert_eq!(cell_at(&p, 2, 6, 2), Some(CellContent::Number { units: 10, decimals: 0 }));
    assert_eq!(cell_at(&p, 3, 8, 3), Some(CellContent::Text("Beta".into())));
    assert_eq!(cell_at(&p, 3, 13, 4), Some(CellContent::Number { units: 1, decimals: 0 }));
    assert_eq!(cell_at(&p, 4, 2, 1), Some(CellContent::Text("F012345".into())));
    assert_eq!(cell_at(&p, 4, 4, 1), Some(CellContent::Text("F000075".into())));
    assert_eq!(cell_at(&p, 4, 2, 7), Some(CellContent::Formula("=B2*E2*F2".into())));
    assert_eq!(
        cell_at(&p, 4, 2, 2),
        Some(CellContent::Formula("=INDEX(Facts!$D$2:$D$20001,MATCH(A2,Facts!$A$2:$A$20001,0))*INDEX(Facts!$E$2:$E$20001,MATCH(A2,Facts!$A$2:$A$20001,0))".into()))
    );
}

#[test]
fn sumifs_countifs_and_rollup_rows() {
    let mut c = empty_config();
    c.sheet0_rows = Some(300);
    c.report_rows = Some(2);
    let s = plan_for("sumifs_fact_table_100k", c.clone());
    assert_eq!(cell_at(&s, 1, 23, 3), Some(CellContent::Text("Retail".into())));
    assert_eq!(cell_at(&s, 1, 23, 6), Some(CellContent::Formula("=D23*E23".into())));
    assert_eq!(
        cell_at(&s, 2, 3, 4),
        Some(CellContent::Formula("=SUMIFS(Facts!$F:$F,Facts!$A:$A,A3,Facts!$B:$B,B3,Facts!$C:$C,C3)".into()))
    );
    let k = plan_for("agg_countifs_multi_criteria_100k", c.clone());
    assert_eq!(cell_at(&k, 1, 62, 4), Some(CellContent::Text("Closed".into())));
    assert_eq!(cell_at(&k, 1, 242, 5), Some(CellContent::Number { units: 2, decimals: 0 }));
    assert_eq!(cell_at(&k, 2, 3, 5), Some(CellContent::Number { units: 6, decimals: 0 }));
    assert_eq!(
        cell_at(&k, 2, 2, 6),
        Some(CellContent::Formula("=COUNTIFS(Facts!$A$2:$A$301,A2,Facts!$B$2:$B$301,B2,Facts!$C$2:$C$301,C2,Facts!$D$2:$D$301,D2,Facts!$E$2:$E$301,\">=\"&E2)".into()))
    );
    let r = plan_for("agg_mixed_rollup_grid_2k_reports", c);
    assert_eq!(cell_at(&r, 1, 2, 5), Some(CellContent::Number { units: 1, decimals: 0 }));
    assert_eq!(cell_at(&r, 1, 243, 5), Some(CellContent::Number { units: 3, decimals: 0 }));
    assert_eq!(cell_at(&r, 1, 243, 6), Some(CellContent::Number { units: 10, decimals: 0 }));
    assert_eq!(cell_at(&r, 1, 2, 7), Some(CellContent::Formula("=E2*F2".into())));
}

#[test]
fn structural_scenarios_plans() {
    let mut c = empty_config();
    c.sheet0_rows = Some(2);
    let p = plan_for("struct_row_insert_middle_50k_refs", c.clone());
    assert_eq!(
        p.cells,
        vec![num(0, 1, 1, 1), formula(0, 1, 2, "=A1*2"), num(0, 2, 1, 2), formula(0, 2, 2, "=A2*2"), formula(0, 1, 3, "=SUM(B1:B50000)")]
    );
    let r = plan_for("struct_sheet_rename_rebind", c);
    assert_eq!(
        r.cells,
        vec![
            num(1, 1, 1, 1), num(1, 2, 1, 2),
            formula(2, 1, 1, "=Inputs!A1*3"), formula(2, 2, 1, "=Inputs!A2*3"),
            formula(2, 1, 2, "=SUM(A1:A25000)"), formula(2, 2, 2, "=Inputs!A12345+A12345"), formula(2, 1, 3, "=SUM(Inputs!A1:A25000)"),
        ]
    );
    let s = plan_for("structural_sheet_recovery", empty_config());
    assert_eq!(s.sheets, vec!["Sheet1", "Sheet2"]);
    assert_eq!(s.cells, vec![formula(0, 1, 1, "=Sheet2!A1"), num(1, 1, 1, 10)]);
}

#[test]
fn finance_model_drivers_and_forecast() {
    let p = finance_model_plan();
    assert_eq!(p.sheets, vec!["Sheet1", "Assumptions", "Forecast", "Summary"]);
    assert_eq!(cell_at(&p, 1, 4, 3), Some(CellContent::Number { units: 24, decimals: 2 }));
    assert_eq!(cell_at(&p, 1, 12, 3), Some(CellContent::Number { units: 15, decimals: 3 }));
    assert_eq!(cell_at(&p, 1, 17, 4), Some(CellContent::Number { units: 950, decimals: 0 }));
    assert_eq!(cell_at(&p, 2, 1, 25), Some(CellContent::Text("EndingCash".into())));
    assert_eq!(
        cell_at(&p, 2, 2, 4),
        Some(CellContent::Formula("=INDEX(Assumptions!$B$16:$B$18,MATCH(D$1,Assumptions!$A$16:$A$18,0))".into()))
    );
    assert_eq!(
        cell_at(&p, 2, 3, 7),
        Some(CellContent::Formula("=G2+INDEX(Assumptions!$C$16:$C$18,MATCH(G$1,Assumptions!$A$16:$A$18,0))".into()))
    );
    assert_eq!(cell_at(&p, 2, 14, 3), Some(CellContent::Text("Q1".into())));
    assert_eq!(cell_at(&p, 2, 14, 2), Some(CellContent::Number { units: 2027, decimals: 0 }));
    assert_eq!(cell_at(&p, 2, 8, 3), Some(CellContent::Text("Q3".into())));
    assert_eq!(cell_at(&p, 2, 3, 21), Some(CellContent::Formula("=U2-T3".into())));
    assert_eq!(cell_at(&p, 2, 2, 21), Some(CellContent::Formula("=Assumptions!$C$9-T2".into())));
    assert_eq!(cell_at(&p, 3, 9, 3), Some(CellContent::Formula("=IF(C8>1.5,TRUE,FALSE)".into())));
    assert_eq!(cell_at(&p, 3, 7, 2), Some(CellContent::Formula("=Forecast!Y13".into())));
    assert_eq!(
        cell_at(&p, 3, 8, 2),
        Some(CellContent::Formula("=SUMIFS(Forecast!$P$2:$P$25,Forecast!$B$2:$B$25,B$1)/(SUMIFS(Forecast!$S$2:$S$25,Forecast!$B$2:$B$25,B$1)+SUMIFS(Forecast!$T$2:$T$25,Forecast!$B$2:$B$25,B$1))".into()))
    );
}

#[test]
fn ops_model_orders_and_dashboard() {
    let p = ops_model_plan();
    assert_eq!(p.sheets.len(), 7);
    assert_eq!(cell_at(&p, 1, 5, 3), Some(CellContent::Number { units: 9, decimals: 1 }));
    assert_eq!(cell_at(&p, 3, 20, 3), Some(CellContent::Number { units: 100, decimals: 2 }));
    assert_eq!(cell_at(&p, 4, 2, 1), Some(CellContent::Text("WO00001".into())));
    assert_eq!(cell_at(&p, 4, 1501, 1), Some(CellContent::Text("WO01500".into())));
    assert_eq!(cell_at(&p, 4, 1501, 2), Some(CellContent::Text("Boise".into())));
    assert_eq!(cell_at(&p, 4, 1501, 3), Some(CellContent::Text("Audit".into())));
    assert_eq!(cell_at(&p, 4, 1501, 4), Some(CellContent::Text("Critical".into())));
    assert_eq!(cell_at(&p, 4, 1501, 5), Some(CellContent::Text("Scheduled".into())));
    assert_eq!(cell_at(&p, 4, 1501, 6), Some(CellContent::Number { units: 10, decimals: 0 }));
    assert_eq!(cell_at(&p, 4, 1501, 7), Some(CellContent::Number { units: 130, decimals: 0 }));
    assert_eq!(cell_at(&p, 4, 2, 16), Some(CellContent::Formula("=IF(E2=\"Closed\",0,F2)".into())));
    assert_eq!(cell_at(&p, 5, 17, 1), Some(CellContent::Text("Boise".into())));
    assert_eq!(cell_at(&p, 5, 17, 2), Some(CellContent::Text("Depot".into())));
    assert_eq!(cell_at(&p, 5, 5, 8), Some(CellContent::Formula("=C5-G5".into())));
    assert_eq!(cell_at(&p, 6, 7, 2), Some(CellContent::Formula("=Dashboard!E5".into())));
}

#[test]
fn repro_chain3_is_three_cells() {
    let p = repro_chain3_plan();
    assert_eq!(repro_chain3_path(), "benchmarks/corpus/synthetic/repro_chain3.xlsx");
    assert_eq!(p.cells, vec![num(0, 1, 1, 1), formula(0, 2, 1, "=A1+1"), formula(0, 3, 1, "=A2+1")]);
    let _ = text(0, 1, 1, "x");
}
