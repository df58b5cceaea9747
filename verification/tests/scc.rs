use formualizer_bench_core::plan::CellContent;
use formualizer_bench_core::scc::{
    apply_flips, check_iterate_telemetry, check_phantom_initial, flip_plan, initial_guards,
    iterate_default_workbook_path, iterate_pairs_plan, members_and_sccs, pair_row, pair_value,
    pairs_small_edit_formula, parse_status_kb, phantom_default_workbook_path, phantom_fixture_plan,
    phantom_sample_indices, ring_member_formula, ring_plan, sample_indices, validate_iterate,
    validate_phantom_pairs, IterateCheckError, PhantomCheckError, PhantomMode, ProbeArgError, Workload,
};

#[test]
fn status_kb_reads_the_first_token() {
    assert_eq!(parse_status_kb("   123456 kB"), Some(123_456));
    assert_eq!(parse_status_kb("\t42\tkB"), Some(42));
    assert_eq!(parse_status_kb("+7 kB"), Some(7));
    assert_eq!(parse_status_kb("kB 12"), None);
    assert_eq!(parse_status_kb("   "), None);
    assert_eq!(parse_status_kb("99999999999999999999 kB"), None);
}

#[test]
fn pairs_sit_one_per_row() {
    assert_eq!(pair_row(0), 1);
    assert_eq!(pair_row(41), 42);
    assert_eq!(pair_value(true), 100);
    assert_eq!(pair_value(false), 999);
    assert_eq!(initial_guards(5), vec![true, false, true, false, true]);
}

#[test]
fn phantom_fixture_rows() {
    let p = phantom_fixture_plan(&vec![true, false]);
    assert_eq!(p.cells.len(), 8);
    assert_eq!(p.cells[0].content, CellContent::Bool(true));
    assert_eq!(p.cells[1].content, CellContent::Formula("=IF(A1,100,C1)".into()));
    assert_eq!(p.cells[2].content, CellContent::Formula("=IF(A1,B1,999)".into()));
    assert_eq!(p.cells[3].content, CellContent::Formula("=B1+C1".into()));
    assert_eq!(p.cells[4].content, CellContent::Bool(false));
    assert_eq!((p.cells[6].row, p.cells[6].col), (2, 3));
}

#[test]
fn fixture_paths_use_a_safe_label() {
    assert_eq!(phantom_default_workbook_path("phase candidate/1", 10_000), "target/scc-phantom-fixtures/phase_candidate_1-10000.xlsx");
    assert_eq!(
        iterate_default_workbook_path("phase-candidate", Workload::Pairs, 10_000, 1000, false, 0),
        "target/scc-iterate-fixtures/phase-candidate-pairs-10000.xlsx"
    );
    assert_eq!(
        iterate_default_workbook_path("x", Workload::BigScc, 1, 1000, true, 4),
        "target/scc-iterate-fixtures/x-big-scc-1000-div-r4.xlsx"
    );
    assert_eq!(
        iterate_default_workbook_path("x", Workload::BigScc, 1, 1000, false, 0),
        "target/scc-iterate-fixtures/x-big-scc-1000-conv.xlsx"
    );
}

#[test]
fn flip_rounds_stride_and_rotate() {
    assert_eq!(flip_plan(10, 0, 3), vec![0, 3, 6]);
    assert_eq!(flip_plan(10, 1, 3), vec![1, 4, 7]);
    assert_eq!(flip_plan(10, 2, 4), vec![0, 2, 4, 6]);
    assert_eq!(flip_plan(5, 0, 10), vec![0, 1, 2, 3, 4]);
    assert_eq!(flip_plan(0, 0, 3), Vec::<usize>::new());
    assert_eq!(flip_plan(10, 0, 0), Vec::<usize>::new());
    assert_eq!(flip_plan(10, 5, 1), vec![5]);
}

#[test]
fn flipping_twice_restores_the_guards() {
    let start = initial_guards(10);
    let plan = flip_plan(10, 1, 3);
    let mut g = start.clone();
    apply_flips(&mut g, &plan);
    assert_eq!(g, vec![true, true, true, false, false, false, true, true, true, false]);
    apply_flips(&mut g, &plan);
    assert_eq!(g, start);
}

#[test]
fn sampling_steps_through_the_pairs() {
    assert_eq!(phantom_sample_indices(10, 3), vec![0, 3, 6, 9]);
    assert_eq!(phantom_sample_indices(10, 64), (0..10).collect::<Vec<usize>>());
    assert_eq!(phantom_sample_indices(10, 0), vec![0]);
    assert_eq!(sample_indices(0, 64), Vec::<usize>::new());
    assert_eq!(sample_indices(1000, 64), (0..1000).step_by(15).collect::<Vec<usize>>());
}

#[test]
fn initial_checks_follow_the_mode() {
    assert_eq!(check_phantom_initial(PhantomMode::Static, 3, 6, 9, 0), Ok(()));
    assert_eq!(check_phantom_initial(PhantomMode::Static, 3, 5, 0, 0), Err(PhantomCheckError::StaticCircCount));
    assert_eq!(check_phantom_initial(PhantomMode::Runtime, 3, 0, 0, 3), Ok(()));
    assert_eq!(check_phantom_initial(PhantomMode::Runtime, 3, 1, 0, 3), Err(PhantomCheckError::RuntimeCircCells));
    assert_eq!(check_phantom_initial(PhantomMode::Runtime, 3, 0, 2, 3), Err(PhantomCheckError::RuntimeCycleErrors));
    assert_eq!(check_phantom_initial(PhantomMode::Runtime, 3, 0, 0, 2), Err(PhantomCheckError::RuntimePhantomCount));
    assert_eq!(PhantomMode::Runtime.as_str(), "runtime");
}

#[test]
fn options_and_telemetry_checks() {
    assert_eq!(validate_phantom_pairs(0), Err(ProbeArgError::NoPairs));
    assert_eq!(validate_phantom_pairs(1), Ok(()));
    assert_eq!(validate_iterate(Workload::BigScc, 0, 1), Err(ProbeArgError::RingTooSmall));
    assert_eq!(validate_iterate(Workload::BigScc, 0, 2), Ok(()));
    assert_eq!(validate_iterate(Workload::Pairs, 0, 5), Err(ProbeArgError::NoPairs));
    assert_eq!(ProbeArgError::NoPairs.message(), "--pairs must be > 0");
    assert_eq!(members_and_sccs(Workload::Pairs, 10, 3), (20, 10));
    assert_eq!(members_and_sccs(Workload::BigScc, 10, 3), (3, 1));
    assert_eq!(check_iterate_telemetry(Workload::Pairs, false, 4, 4, 4, 0), Ok(()));
    assert_eq!(check_iterate_telemetry(Workload::Pairs, false, 4, 3, 3, 0), Err(IterateCheckError::IteratedCount));
    assert_eq!(check_iterate_telemetry(Workload::Pairs, false, 4, 4, 3, 1), Err(IterateCheckError::PairsNotConverged));
    assert_eq!(check_iterate_telemetry(Workload::BigScc, true, 1, 1, 0, 1), Ok(()));
    assert_eq!(check_iterate_telemetry(Workload::BigScc, true, 1, 1, 1, 0), Err(IterateCheckError::RingNotCapped));
    assert_eq!(check_iterate_telemetry(Workload::BigScc, false, 1, 1, 0, 1), Err(IterateCheckError::RingNotConverged));
    assert_eq!(Workload::BigScc.label(), "big-scc");
}

#[test]
fn iterate_fixtures() {
    let p = iterate_pairs_plan(2);
    assert_eq!(p.cells[0].content, CellContent::Formula("=0.5*B1+10".into()));
    assert_eq!(p.cells[1].content, CellContent::Formula("=0.5*A1+10".into()));
    assert_eq!(p.cells[5].content, CellContent::Formula("=A2+B2".into()));
    assert_eq!(pairs_small_edit_formula(), "=0.5*B1+10");
    assert_eq!(ring_member_formula("0.9", 0, 5, 0), "=0.9*A5+1");
    assert_eq!(ring_member_formula("0.9", 2, 5, 0), "=0.9*A2+1");
    assert_eq!(ring_member_formula("0.9", 0, 5, 2), "=0.9*A5+1+0.0001*SUM(A1:A2)");
    assert_eq!(ring_member_formula("0.9", 4, 5, 3), "=0.9*A4+1+0.0001*SUM(A5:A5)");
    let r = ring_plan("0.9", 3, 0);
    assert_eq!(r.cells.len(), 4);
    assert_eq!(r.cells[3].content, CellContent::Formula("=SUM(A1:A3)".into()));
    assert_eq!((r.cells[3].row, r.cells[3].col), (1, 2));
}
