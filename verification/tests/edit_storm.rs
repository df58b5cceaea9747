use formualizer_bench_core::edit_storm::{
    arm_names, build_storm, changelog_modes, parse_k_list, storm_expectations, StormArgError, StormFixture,
};
use formualizer_bench_core::plan::CellContent;

fn formula_at(cells: &[formualizer_bench_core::plan::PlannedCell], row: u32, col: u32) -> Option<String> {
    cells.iter().find(|c| c.row == row && c.col == col).and_then(|c| match &c.content {
        CellContent::Formula(f) => Some(f.clone()),
        _ => None,
    })
}

#[test]
fn rollup_tree_and_chain_for_forty_inputs() {
    let (cells, fx) = build_storm(40);
    assert_eq!(fx, StormFixture { k: 40, chain_col: 4, chain_len: 40, root_col: 3, component_formulas: 43 });
    assert_eq!(formula_at(&cells, 1, 2).as_deref(), Some("=SUM(A1:A32)"));
    assert_eq!(formula_at(&cells, 2, 2).as_deref(), Some("=SUM(A33:A40)"));
    assert_eq!(formula_at(&cells, 1, 3).as_deref(), Some("=SUM(B1:B2)"));
    assert_eq!(formula_at(&cells, 1, 4).as_deref(), Some("=C1+0"));
    assert_eq!(formula_at(&cells, 40, 4).as_deref(), Some("=D39+1"));
    assert_eq!(storm_expectations(2, &fx), (80, 119));
}

#[test]
fn larger_trees_have_more_levels() {
    let (cells, fx) = build_storm(1000);
    assert_eq!(fx.root_col, 3);
    assert_eq!(fx.component_formulas, 32 + 1 + 1000);
    assert_eq!(cells.len(), fx.component_formulas);
    assert_eq!(formula_at(&cells, 32, 2).as_deref(), Some("=SUM(A993:A1000)"));
    assert_eq!(formula_at(&cells, 1, 3).as_deref(), Some("=SUM(B1:B32)"));
    assert_eq!(formula_at(&cells, 1, 4).as_deref(), Some("=C1+0"));
}

#[test]
fn k_list_parsing() {
    assert_eq!(parse_k_list("1000,5000,20000"), Ok(vec![1000, 5000, 20000]));
    assert_eq!(parse_k_list(" 32 , 64"), Ok(vec![32, 64]));
    assert_eq!(parse_k_list("10"), Err(StormArgError::KTooSmall));
    assert_eq!(parse_k_list("a,5"), Err(StormArgError::BadK("a".into())));
    assert_eq!(parse_k_list("100,"), Err(StormArgError::BadK("".into())));
}

#[test]
fn changelog_and_arms() {
    assert_eq!(changelog_modes("off"), Ok(vec![false]));
    assert_eq!(changelog_modes("on"), Ok(vec![true]));
    assert_eq!(changelog_modes("both"), Ok(vec![false, true]));
    assert_eq!(changelog_modes("maybe"), Err(StormArgError::BadChangelog("maybe".into())));
    assert_eq!(arm_names(false), vec!["per_cell", "batch"]);
    assert_eq!(arm_names(true), vec!["batch"]);
}
