use formualizer_bench_core::parity::{
    default_fixture_dir, default_output_dir, glob_to_regex, render_summary, select_ids, GlobMatcher, ParityOutcome,
    PhaseOutcome,
};

#[test]
fn globs_become_anchored_regexes() {
    assert_eq!(glob_to_regex("*"), "^.*$");
    assert_eq!(glob_to_regex("s0?3-*"), "^s0.3\\-.*$");
    assert_eq!(glob_to_regex("a.b"), "^a\\.b$");
}

#[test]
fn glob_matcher_selects_ids() {
    let all = GlobMatcher::new("*").unwrap();
    let none_given = GlobMatcher::new(" , ").unwrap();
    let some = GlobMatcher::new("s00*, s1?-x").unwrap();
    assert!(all.matches("s001-anything"));
    assert!(none_given.matches("whatever"));
    assert!(some.matches("s001"));
    assert!(some.matches("s12-x"));
    assert!(!some.matches("s2"));
    assert!(!some.matches("xs001"));
    let ids: Vec<String> = vec!["s001".into(), "s002".into(), "s120-x".into(), "s12-x".into()];
    let exclude = Some(GlobMatcher::new("s002").unwrap());
    assert_eq!(select_ids(&ids, &some, &exclude), vec![0, 3]);
    assert_eq!(select_ids(&ids, &all, &None), vec![0, 1, 2, 3]);
}

#[test]
fn default_places() {
    assert_eq!(default_output_dir("parity"), "target/scenario-corpus/parity/parity");
    assert_eq!(default_fixture_dir("out"), "out/fixtures");
}

fn report(id: &str, skipped: bool, unexpected: bool, total: usize, failed: usize, expected: bool, phases: Vec<PhaseOutcome>) -> ParityOutcome {
    ParityOutcome {
        scenario_id: id.into(),
        skipped,
        unexpected_failure: unexpected,
        total_divergences: total,
        phases_failed: failed,
        expected_divergence: expected,
        phases,
    }
}

#[test]
fn summary_counts_and_failure_lines() {
    let phases = vec![
        PhaseOutcome { phase: "after_load".into(), divergences: 0, error: None, timed_out: false },
        PhaseOutcome { phase: "after_edit_1".into(), divergences: 2, error: None, timed_out: false },
        PhaseOutcome { phase: "after_edit_2".into(), divergences: 0, error: Some("boom".into()), timed_out: false },
    ];
    let reports = vec![
        report("s001", false, false, 0, 0, false, vec![]),
        report("s002", true, false, 0, 0, true, vec![]),
        report("s003", false, true, 2, 2, false, phases),
        report("s004", false, false, 3, 1, true, vec![]),
    ];
    let text = render_summary(&reports);
    let expected = format!(
        "\n=== PARITY SUMMARY ===\nScenarios run:      3\nScenarios passed:   1\nScenarios failed:   1\nScenarios skipped:  1 (expected divergence)\nScenarios expected: 1 (run-and-noted)\nTotal divergences:  5\n\nFailures:\n  {:40} {:35} 2 divergences\n  {:40} {:35} 0 divergences error=boom\n",
        "s003", "after_edit_1", "s003", "after_edit_2"
    );
    assert_eq!(text, expected);
    let clean = render_summary(&vec![report("s001", false, false, 0, 0, false, vec![])]);
    assert!(!clean.contains("Failures"));
}
