use formualizer_bench_core::native_runner::{
    choose_incremental_path, invalidate_cached_plan, mode_requests_recalc_plan, parse_native_op,
    rename_pair, span_evaluation_requested, status_label, BackendMode, IncrementalPath, NativeOp,
    PlanStats,
};

#[test]
fn detects_cached_plan_modes() {
    assert!(mode_requests_recalc_plan("native_best_cached_plan"));
    assert!(mode_requests_recalc_plan("runtime_parity_cached_plan"));
    assert!(!mode_requests_recalc_plan("native_best"));
}

#[test]
fn only_records_invalidation_when_a_plan_exists() {
    let mut cached_plan = Some(42u32);
    let mut notes = Vec::new();
    let mut invalidations = 0u64;

    invalidate_cached_plan(&mut cached_plan, &mut notes, &mut invalidations, "insert_rows");
    assert!(cached_plan.is_none());
    assert_eq!(invalidations, 1);
    assert_eq!(notes, vec!["recalc_plan_invalidated:insert_rows"]);

    invalidate_cached_plan(&mut cached_plan, &mut notes, &mut invalidations, "rename_sheet");
    assert_eq!(invalidations, 1);
    assert_eq!(notes.len(), 1);
}

#[test]
fn suffix_alone_is_not_a_cached_plan_mode_prefix() {
    assert!(mode_requests_recalc_plan("_cached_plan"));
    assert!(!mode_requests_recalc_plan("cached_plan"));
    assert!(!mode_requests_recalc_plan("native_best_cached_plan_v2"));
}

#[test]
fn span_evaluation_follows_flag_or_mode_name() {
    assert!(span_evaluation_requested(true, "native_best"));
    assert!(span_evaluation_requested(false, "native_span_eval"));
    assert!(span_evaluation_requested(false, "formula_plane_on"));
    assert!(!span_evaluation_requested(false, "native_best"));
    assert!(!span_evaluation_requested(false, "formula_plan"));
}

#[test]
fn incremental_path_depends_on_cached_plan() {
    assert_eq!(choose_incremental_path(false, Some(false)), IncrementalPath::Plain);
    assert_eq!(choose_incremental_path(true, Some(false)), IncrementalPath::ReusePlan);
    assert_eq!(choose_incremental_path(true, Some(true)), IncrementalPath::FallbackDynamicRefs);
    assert_eq!(choose_incremental_path(true, None), IncrementalPath::FallbackNoCachedPlan);
}

#[test]
fn plan_stats_count_reuses_fallbacks_and_builds() {
    let mut stats = PlanStats::new();
    let mut notes = Vec::new();
    stats.record_build(7, false);
    assert!(!stats.record_incremental(IncrementalPath::ReusePlan, &mut notes));
    assert!(stats.record_incremental(IncrementalPath::FallbackNoCachedPlan, &mut notes));
    assert!(stats.record_incremental(IncrementalPath::FallbackDynamicRefs, &mut notes));
    assert!(!stats.record_incremental(IncrementalPath::Plain, &mut notes));
    assert_eq!(stats.builds, 1);
    assert_eq!(stats.reuses, 1);
    assert_eq!(stats.fallbacks, 2);
    assert_eq!(stats.layer_count, Some(7));
    assert_eq!(
        notes,
        vec![
            "recalc_plan_fallback:evaluate_all(no_cached_plan)",
            "recalc_plan_fallback:evaluate_all(dynamic_refs_present)",
        ]
    );
}

#[test]
fn ops_parse_and_name_their_invalidation() {
    assert_eq!(parse_native_op("insert_rows"), Some(NativeOp::InsertRows));
    assert_eq!(parse_native_op("evaluate_incremental"), Some(NativeOp::EvaluateIncremental));
    assert_eq!(parse_native_op("delete_rows"), None);
    assert_eq!(NativeOp::InsertRows.invalidation_reason(), Some("insert_rows"));
    assert_eq!(NativeOp::EditSetValue.invalidation_reason(), None);
    assert_eq!(NativeOp::RenameSheet.invalidation_reason(), Some("rename_sheet"));
}

#[test]
fn rename_prefers_old_then_sheet() {
    let s = |x: &str| Some(x.to_string());
    assert_eq!(rename_pair(s("A"), s("B"), s("C")), Some(("A".to_string(), "C".to_string())));
    assert_eq!(rename_pair(None, s("B"), s("C")), Some(("B".to_string(), "C".to_string())));
    assert_eq!(rename_pair(s("A"), s("B"), None), None);
}

#[test]
fn labels_of_backend_and_status() {
    assert_eq!(BackendMode::Umya.as_str(), "umya");
    assert_eq!(BackendMode::Calamine.as_str(), "calamine");
    assert_eq!(status_label(true), "ok");
    assert_eq!(status_label(false), "invalid");
}
