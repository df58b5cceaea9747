use std::io::{Cursor, Read};

use formualizer_bench_core::family_fixture::{fixture_sha256, generate_xlsx, sheet_xml, FixtureError};
use formualizer_bench_core::family_ingest::{
    check_child_counters, child_args, child_disposition, child_modes, disposition_order, disposition_samples,
    fixture_path, is_deferred_fragmented_gate_run, is_nested_load_gate_run, parse_max_rss,
    position_of, storage_kind, validate_matrix_options, ChildCheckError, ChildCounters,
    GraphBuild, MatrixOptions, MatrixOptionsError, PlaneMode, ProbeMode, Scenario,
};

fn options(scenario: Scenario, mode: ProbeMode, graph_build: GraphBuild, members: u32, exclusions: u32) -> MatrixOptions {
    MatrixOptions {
        scenario,
        mode,
        graph_build,
        members,
        exclusions,
        input: None,
        fixture_out: None,
        generate_only: false,
        samples: 5,
        child: false,
    }
}

#[test]
fn fixture_generation_is_deterministic_and_contains_shared_ooxml() {
    let first = generate_xlsx(Scenario::LargeFamily, 100, 0).unwrap();
    let second = generate_xlsx(Scenario::LargeFamily, 100, 0).unwrap();
    assert_eq!(first, second);
    let mut archive = zip::ZipArchive::new(Cursor::new(first)).unwrap();
    let mut xml = String::new();
    archive
        .by_name("xl/worksheets/sheet1.xml")
        .unwrap()
        .read_to_string(&mut xml)
        .unwrap();
    assert!(xml.contains("t=\"shared\""));
    assert!(xml.contains("ref=\"B1:B100\""));
}

#[test]
fn nested_function_fixture_is_one_genuine_shared_family() {
    let xml = sheet_xml(Scenario::NestedFunctionFamily, 100, 0).unwrap();
    assert!(xml.contains("ROUND(ABS(A1)+SUM(A1:A1)+COUNTIF"));
    assert!(xml.contains("VLOOKUP(A1,A1:A1,1,FALSE)"));
    assert_eq!(xml.matches("t=\"shared\"").count(), 100);
    assert_eq!(xml.matches("ref=\"B1:B100\"").count(), 1);
}

#[test]
fn pathological_fixture_declares_full_sheet_without_materializing_it() {
    let xml = sheet_xml(Scenario::FullSheetTwoPoint, 2, 0).unwrap();
    assert!(xml.contains("ref=\"B1:B1048576\""));
    assert_eq!(xml.matches("<row ").count(), 2);
}

#[test]
fn fragmented_fixture_places_requested_ordinary_exceptions() {
    let xml = sheet_xml(Scenario::HoleException, 100_000, 64).unwrap();
    assert_eq!(xml.matches("<f>A").count(), 64);
    assert_eq!(xml.matches("t=\"shared\"").count(), 100_000 - 64);
    assert_eq!(xml.matches("ref=\"B1:B100000\"").count(), 1);

    let dense = sheet_xml(Scenario::HoleException, 100, 64).unwrap();
    assert_eq!(dense.matches("<f>A").count(), 64);
    assert_eq!(dense.matches("t=\"shared\"").count(), 100 - 64);
    assert_eq!(dense.matches("ref=\"B1:B100\"").count(), 1);
    assert!(dense.contains("<f t=\"shared\" si=\"1\" ref=\"B1:B100\">A1+1</f>"));
}

#[test]
fn nested_load_gate_applies_only_to_required_100k_measurements() {
    let cli = |members| options(Scenario::NestedFunctionFamily, ProbeMode::Authoritative, GraphBuild::Eager, members, 1);
    assert!(!is_nested_load_gate_run(&cli(100)));
    assert!(is_nested_load_gate_run(&cli(100_000)));
}

#[test]
fn deferred_fragmented_gate_requires_the_cold_100k_matrix() {
    let cli = |exclusions, graph_build, mode| options(Scenario::HoleException, mode, graph_build, 100_000, exclusions);
    assert!(is_deferred_fragmented_gate_run(&cli(1, GraphBuild::Deferred, ProbeMode::All)));
    assert!(is_deferred_fragmented_gate_run(&cli(8, GraphBuild::Deferred, ProbeMode::All)));
    assert!(is_deferred_fragmented_gate_run(&cli(64, GraphBuild::Deferred, ProbeMode::All)));
    assert!(!is_deferred_fragmented_gate_run(&cli(2, GraphBuild::Deferred, ProbeMode::All)));
    assert!(!is_deferred_fragmented_gate_run(&cli(1, GraphBuild::Eager, ProbeMode::All)));
    assert!(!is_deferred_fragmented_gate_run(&cli(1, GraphBuild::Deferred, ProbeMode::Authoritative)));
}

#[test]
fn parses_gnu_time_maximum_rss_without_combining_children() {
    let output = "\tMaximum resident set size (kbytes): 123456\n";
    assert_eq!(parse_max_rss(output), Some(123_456));
    assert_eq!(parse_max_rss("elapsed 1.0"), None);
}

#[test]
fn max_rss_takes_first_readable_line() {
    let output = "Maximum resident set size (kbytes): n/a\r\nother\n  Maximum resident set size (kbytes): +77 \r\nMaximum resident set size (kbytes): 5\n";
    assert_eq!(parse_max_rss(output), Some(77));
    assert_eq!(parse_max_rss("Maximum resident set size (kbytes): 18446744073709551616"), None);
    assert_eq!(parse_max_rss("Maximum resident set size (kbytes): 18446744073709551615"), Some(u64::MAX));
    assert_eq!(parse_max_rss(""), None);
}

#[test]
fn matrix_options_are_checked_in_order() {
    let mut o = options(Scenario::HoleException, ProbeMode::All, GraphBuild::Deferred, 0, 1);
    assert_eq!(validate_matrix_options(&o), Err(MatrixOptionsError::MembersZero));
    o.members = 10;
    o.samples = 0;
    assert_eq!(validate_matrix_options(&o), Err(MatrixOptionsError::SamplesZero));
    o.samples = 1;
    o.exclusions = 9;
    assert_eq!(validate_matrix_options(&o), Err(MatrixOptionsError::ExclusionsOutOfRange));
    o.exclusions = 8;
    assert_eq!(validate_matrix_options(&o), Ok(()));
    o.members = 100_000;
    assert_eq!(validate_matrix_options(&o), Err(MatrixOptionsError::DeferredGateNeedsFiveSamples));
    let n = options(Scenario::NestedFunctionFamily, ProbeMode::All, GraphBuild::Eager, 100_000, 0);
    let n = MatrixOptions { samples: 4, ..n };
    assert_eq!(validate_matrix_options(&n), Err(MatrixOptionsError::NestedGateNeedsFiveSamples));
    assert_eq!(MatrixOptionsError::MembersZero.message(), "--members must be at least 1");
}

#[test]
fn default_fixture_path_names_scenario_members_and_exclusions() {
    let o = options(Scenario::HoleException, ProbeMode::All, GraphBuild::Eager, 100, 3);
    assert_eq!(fixture_path(&o), "scratch/formula-family-anchor-once-bench/hole_exception-100-exclusions-3.xlsx");
    let o = options(Scenario::LargeFamily, ProbeMode::All, GraphBuild::Eager, 100, 3);
    assert_eq!(fixture_path(&o), "scratch/formula-family-anchor-once-bench/large_family-100.xlsx");
    let o = MatrixOptions { fixture_out: Some("out.xlsx".to_string()), ..o };
    assert_eq!(fixture_path(&o), "out.xlsx");
    let o = MatrixOptions { input: Some("in.xlsx".to_string()), ..o };
    assert_eq!(fixture_path(&o), "in.xlsx");
}

#[test]
fn children_and_their_arguments() {
    assert_eq!(child_modes(ProbeMode::All), vec![ProbeMode::Off, ProbeMode::Shadow, ProbeMode::Authoritative, ProbeMode::ForcedReplay]);
    assert_eq!(child_modes(ProbeMode::Shadow), vec![ProbeMode::Shadow]);
    let args = child_args("f.xlsx", Scenario::ManyTinyFamilies, GraphBuild::Deferred, 12, 3, ProbeMode::ForcedReplay);
    assert_eq!(
        args,
        vec![
            "--child", "--input", "f.xlsx", "--scenario", "many-tiny-families", "--graph-build",
            "deferred", "--members", "12", "--exclusions", "3", "--mode", "forced-replay",
        ]
    );
    assert_eq!(child_disposition(ProbeMode::All), None);
    let d = child_disposition(ProbeMode::ForcedReplay).unwrap();
    assert_eq!(d.plane_mode, PlaneMode::AuthoritativeExperimental);
    assert!(d.forced_replay);
}

#[test]
fn child_counter_checks() {
    let d = child_disposition(ProbeMode::Authoritative).unwrap();
    let good = ChildCounters {
        active_spans: 2,
        graph_formula_vertices: 1,
        formula_cells_seen: 10,
        graph_formula_cells_materialized: 1,
        family_promoted: 1,
        family_promoted_cells: 9,
        family_fallback: 0,
    };
    assert_eq!(check_child_counters(d, GraphBuild::Deferred, Scenario::HoleException, 100_000, 1, good), Ok(()));
    let bad = ChildCounters { family_promoted_cells: 8, ..good };
    assert_eq!(check_child_counters(d, GraphBuild::Eager, Scenario::LargeFamily, 10, 0, bad), Err(ChildCheckError::PromotionNotReconciled));
    assert_eq!(
        check_child_counters(d, GraphBuild::Deferred, Scenario::HoleException, 100_000, 2, good),
        Err(ChildCheckError::DeferredFragmentedMissedAuthority)
    );
    let forced = child_disposition(ProbeMode::ForcedReplay).unwrap();
    assert_eq!(check_child_counters(forced, GraphBuild::Eager, Scenario::LargeFamily, 10, 0, good), Err(ChildCheckError::ForcedReplayNotMaterialized));
}

#[test]
fn dispositions_keep_first_appearance_order() {
    let labels: Vec<String> = ["off", "shadow", "off", "authoritative", "shadow"].iter().map(|s| s.to_string()).collect();
    assert_eq!(disposition_order(&labels), vec!["off", "shadow", "authoritative"]);
    assert_eq!(position_of(&labels, "authoritative"), Some(3));
    assert_eq!(position_of(&labels, "forced_replay"), None);
}

#[test]
fn storage_kind_prefers_spill() {
    assert_eq!(storage_kind(1, 5), "native_file");
    assert_eq!(storage_kind(0, 5), "memory");
    assert_eq!(storage_kind(0, 0), "none");
}

#[test]
fn many_tiny_families_are_four_rows_wide() {
    let xml = sheet_xml(Scenario::ManyTinyFamilies, 6, 0).unwrap();
    assert!(xml.contains("<f t=\"shared\" si=\"0\" ref=\"B1:B4\">A1+1</f>"));
    assert!(xml.contains("<f t=\"shared\" si=\"1\" ref=\"B5:B6\">A5+1</f>"));
    assert_eq!(xml.matches("<f t=\"shared\" si=\"0\"/>").count(), 3);
}

#[test]
fn oversized_fixture_is_refused() {
    assert_eq!(sheet_xml(Scenario::LargeFamily, 1_048_577, 0), Err(FixtureError::TooManyRows));
    assert!(sheet_xml(Scenario::FullSheetTwoPoint, 2_000_000, 0).is_ok());
}

#[test]
fn fixture_digest_is_lower_hex_sha256() {
    assert_eq!(
        fixture_sha256(&b"abc".to_vec()),
        "ba7816bf8f01cfea414140de5dae2223b00361a396177a9cb410ff61f20015ad"
    );
}

#[test]
fn disposition_samples_count_each_label() {
    let labels: Vec<String> = ["eager", "deferred", "eager", "eager"].iter().map(|s| s.to_string()).collect();
    assert_eq!(disposition_samples(&labels, "eager"), 3);
    assert_eq!(disposition_samples(&labels, "deferred"), 1);
    assert_eq!(disposition_samples(&labels, "spilled"), 0);
}

#[test]
fn fixtures_within_the_row_limit_are_always_packaged() {
    for scenario in [Scenario::LargeFamily, Scenario::NestedFunctionFamily, Scenario::ManyTinyFamilies, Scenario::ForwardAnchor, Scenario::FullSheetTwoPoint] {
        assert!(generate_xlsx(scenario, 10, 0).is_ok());
    }
    assert!(generate_xlsx(Scenario::HoleException, 10, 2).is_ok());
    assert_eq!(generate_xlsx(Scenario::LargeFamily, 1_048_577, 0), Err(FixtureError::TooManyRows));
}
