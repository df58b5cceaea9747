use formualizer_bench_core::fp_probes::{
    edit_targets, only_names, radical_edit, radical_sample_rows, shape_selected, span_end, structural_plan,
    validate_structural, FpShape, Op, RowEdit, StructuralArgError,
};
use formualizer_bench_core::plan::CellContent;

#[test]
fn structural_ops_and_span() {
    assert_eq!(span_end(200_000), 200_001);
    let names: Vec<&str> = Op::all().iter().map(|o| o.name()).collect();
    assert_eq!(names, vec!["insert_mid_span", "insert_above_span", "insert_below_span", "delete_mid_span"]);
    assert_eq!(Op::InsertMid.row_edit(10), RowEdit::Insert { before: 7 });
    assert_eq!(Op::InsertAbove.row_edit(10), RowEdit::Insert { before: 2 });
    assert_eq!(Op::InsertBelow.row_edit(10), RowEdit::Insert { before: 13 });
    assert_eq!(Op::DeleteMid.row_edit(11), RowEdit::Delete { at: 7 });
    assert_eq!(validate_structural(9, 3), Err(StructuralArgError::TooFewRows));
    assert_eq!(validate_structural(10, 0), Err(StructuralArgError::NoRuns));
    assert_eq!(validate_structural(10, 1), Ok(()));
    assert_eq!(StructuralArgError::NoRuns.message(), "--runs must be at least 1");
}

#[test]
fn structural_workbook_cells() {
    let p = structural_plan(2);
    assert_eq!(p.cells.len(), 1 + 4 + 2 + 1);
    assert_eq!(p.cells[0].content, CellContent::Number { units: 3, decimals: 0 });
    assert_eq!((p.cells[0].row, p.cells[0].col), (1, 6));
    assert_eq!(p.cells[2].content, CellContent::Number { units: 4, decimals: 0 });
    assert_eq!(p.cells[5].content, CellContent::Formula("=A2*B2*$F$1".into()));
    assert_eq!(p.cells[7].content, CellContent::Formula("=SUM(C2:C3)".into()));
}

#[test]
fn shapes_and_their_workbooks() {
    let all = FpShape::all();
    assert_eq!(all.len(), 9);
    assert_eq!(all[0].name(), "two-trivial-families");
    assert_eq!(FpShape::RectFamily10Cols.formula_count(100), 1000);
    assert_eq!(FpShape::FiveFamilies.formula_count(3), 15);
    let u = FpShape::AllUniqueSingletons.plan(4);
    let f: Vec<String> = u.cells.iter().filter_map(|c| match &c.content { CellContent::Formula(s) => Some(s.clone()), _ => None }).collect();
    assert_eq!(f, vec!["=A1*1", "=A2-2", "=A3/(3+1)", "=A4+4"]);
    let chain = FpShape::LongChainFamily.plan(3);
    let f: Vec<String> = chain.cells.iter().filter_map(|c| match &c.content { CellContent::Formula(s) => Some(s.clone()), _ => None }).collect();
    assert_eq!(f, vec!["=A1", "=B1+A2", "=B2+A3"]);
    let rect = FpShape::RectFamily10Cols.plan(1);
    assert_eq!(rect.cells.len(), 11);
    assert_eq!(rect.cells[10].content, CellContent::Formula("=$A$1+11".into()));
    let heavy = FpShape::HeavyArithFamily.plan(1);
    assert_eq!(heavy.cells[1].content, CellContent::Formula("=A1+A1*2-A1/3+A1*A1".into()));
    let anchor = FpShape::FixedAnchorFamily.plan(2);
    assert_eq!(anchor.cells[0].content, CellContent::Number { units: 42, decimals: 0 });
    assert_eq!(anchor.cells.len(), 3);
}

#[test]
fn only_filter_and_edits() {
    assert_eq!(only_names("  "), Vec::<String>::new());
    assert_eq!(only_names("five-families, long-chain-family"), vec!["five-families", "long-chain-family"]);
    let names = only_names("five-families");
    assert!(shape_selected(&names, FpShape::FiveFamilies));
    assert!(!shape_selected(&names, FpShape::SingleTrivialFamily));
    assert!(shape_selected(&Vec::new(), FpShape::SingleTrivialFamily));
    assert_eq!(edit_targets(5, 3), vec![(1, 1), (2, 1), (3, 1), (1, 1), (2, 1)]);
    assert_eq!(radical_edit(0, 100), (1, 10));
    assert_eq!(radical_edit(105, 100), (6, 60));
    assert_eq!(radical_sample_rows(100_000), (50_000, 100_000));
    assert_eq!(radical_sample_rows(1), (1, 1));
    assert_eq!(radical_sample_rows(0), (1, 1));
}
