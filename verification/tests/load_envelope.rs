use formualizer_bench_core::load_envelope::{
    cases_for_preset, default_output_dir, env_summary, log_path, logical_cells, matrix_runs, or_fallback,
    probe_args, probe_binary_path, failure_outcome, FailedChild, probe_features, sample_count, workbook_path, BackendKind, EnvelopeScenario,
    FormulaPlaneProbeMode, Preset, ProbeOptions,
};

#[test]
fn smoke_preset_and_paths() {
    let cases = cases_for_preset(Preset::Smoke);
    assert_eq!(cases.len(), 3);
    assert_eq!(cases[0].scenario, EnvelopeScenario::LinearRollup);
    assert_eq!((cases[1].rows, cases[1].logical_cols, cases[1].report_rows, cases[1].active_cols), (10_000, 20, 32, 4));
    assert_eq!(workbook_path("out", cases[1]), "out/sumifs-report-10000x20.xlsx");
    assert_eq!(
        log_path("out/", BackendKind::Calamine, FormulaPlaneProbeMode::Shadow, cases[2], 3, "eval"),
        "out/calamine-shadow-whole-column-summary-10000x20-sample3-eval.log"
    );
    assert_eq!(default_output_dir("/r"), "/r/scratch/load-eval-envelope");
    assert_eq!(probe_binary_path("target", false), "target/release/probe-load-envelope");
    assert_eq!(probe_binary_path("target", true), "target/release/probe-load-envelope.exe");
    assert_eq!(probe_features(true), "formualizer_runner,perf_instrumentation");
    assert_eq!(probe_features(false), "formualizer_runner");
    assert_eq!(logical_cells(cases[0]), 200_000);
}

#[test]
fn runs_repeat_each_case_per_sample() {
    assert_eq!(sample_count(0), 1);
    let runs = matrix_runs(Preset::Smoke, 2);
    assert_eq!(runs.len(), 6);
    assert_eq!(runs[1].1, 2);
    assert_eq!(runs[2].0.scenario, EnvelopeScenario::SumifsReport);
    assert_eq!(runs[2].1, 1);
}

#[test]
fn probe_arguments() {
    let case = cases_for_preset(Preset::Smoke)[0];
    let o = ProbeOptions {
        backend: BackendKind::Umya,
        formula_plane_mode: FormulaPlaneProbeMode::Authoritative,
        logical_cell_budget: 1_000_000,
        sparse_sheet_threshold: 10,
        max_sparse_ratio: 4,
        timeout_seconds: 60,
        keep_workbooks: true,
    };
    let args = probe_args(case, &o, "w.xlsx", true);
    assert_eq!(
        args,
        vec![
            "--scenario", "linear-rollup", "--backend", "umya", "--formula-plane-mode", "authoritative", "--rows", "10000",
            "--logical-cols", "20", "--report-rows", "0", "--active-cols", "4", "--logical-cell-budget", "1000000",
            "--sparse-sheet-threshold", "10", "--max-sparse-ratio", "4", "--timeout-seconds", "60", "--output", "w.xlsx",
            "--generate-only", "--keep-workbook",
        ]
    );
    let read = probe_args(case, &o, "w.xlsx", false);
    assert_eq!(&read[read.len() - 2..], &["--input".to_string(), "w.xlsx".to_string()]);
    assert_eq!(env_summary(true, false, true), "FZ_DEBUG_LOAD=1 FZ_UMYA_LAZY_READ=0 PERF_INSTRUMENTATION=1");
    assert_eq!(or_fallback(String::new(), "n/a"), "n/a");
    assert_eq!(or_fallback("x".into(), "n/a"), "x");
}

#[test]
fn failed_children_get_their_status() {
    assert_eq!(failure_outcome(FailedChild::Generation), ("generation_timeout", None));
    assert_eq!(failure_outcome(FailedChild::Measurement), ("timeout", Some(false)));
}
