//! The load/eval envelope matrix: its presets of workbook shapes, the file
//! names of generated workbooks and logs, the arguments handed to each probe
//! process, and the order in which cases are run.

use vstd::prelude::*;
use crate::text::{dec, dec_chars, chars_of, owned, push_chars, push_str, string_of};

verus! {

/// Size class of a matrix run.
#[derive(Clone, Copy, Debug, PartialEq, Eq, Structural)]
pub enum Preset {
    Smoke,
    Iteration,
    Targeted,
    Envelope,
}

/// Workbook reader measured.
#[derive(Clone, Copy, Debug, PartialEq, Eq, Structural)]
pub enum BackendKind {
    Umya,
    Calamine,
}

pub open spec fn backend_kind_label(b: BackendKind) -> Seq<char> {
    match b {
        BackendKind::Umya => "umya"@,
        BackendKind::Calamine => "calamine"@,
    }
}

impl BackendKind {
    pub fn label(self) -> (s: &'static str)
        ensures
            s@ == backend_kind_label(self),
    {
        match self {
            BackendKind::Umya => "umya",
            BackendKind::Calamine => "calamine",
        }
    }
}

/// Formula-plane mode of the probe.
#[derive(Clone, Copy, Debug, PartialEq, Eq, Structural)]
pub enum FormulaPlaneProbeMode {
    Off,
    Shadow,
    Authoritative,
}

pub open spec fn plane_mode_label(m: FormulaPlaneProbeMode) -> Seq<char> {
    match m {
        FormulaPlaneProbeMode::Off => "off"@,
        FormulaPlaneProbeMode::Shadow => "shadow"@,
        FormulaPlaneProbeMode::Authoritative => "authoritative"@,
    }
}

impl FormulaPlaneProbeMode {
    pub fn label(self) -> (s: &'static str)
        ensures
            s@ == plane_mode_label(self),
    {
        match self {
            FormulaPlaneProbeMode::Off => "off",
            FormulaPlaneProbeMode::Shadow => "shadow",
            FormulaPlaneProbeMode::Authoritative => "authoritative",
        }
    }
}

/// Workbook shapes a probe generates.
#[derive(Clone, Copy, Debug, PartialEq, Eq, Structural)]
pub enum EnvelopeScenario {
    LinearRollup,
    SumifsReport,
    WholeColumnSummary,
}

pub open spec fn envelope_scenario_name(s: EnvelopeScenario) -> Seq<char> {
    match s {
        EnvelopeScenario::LinearRollup => "linear-rollup"@,
        EnvelopeScenario::SumifsReport => "sumifs-report"@,
        EnvelopeScenario::WholeColumnSummary => "whole-column-summary"@,
    }
}

impl EnvelopeScenario {
    pub fn name(self) -> (s: &'static str)
        ensures
            s@ == envelope_scenario_name(self),
    {
        match self {
            EnvelopeScenario::LinearRollup => "linear-rollup",
            EnvelopeScenario::SumifsReport => "sumifs-report",
            EnvelopeScenario::WholeColumnSummary => "whole-column-summary",
        }
    }
}

/// One workbook shape of a preset.
#[derive(Clone, Copy, Debug, PartialEq, Eq, Structural)]
pub struct Case {
    pub scenario: EnvelopeScenario,
    pub rows: u32,
    pub logical_cols: u32,
    pub report_rows: u32,
    pub active_cols: u32,
}

pub open spec fn case_of(scenario: EnvelopeScenario, rows: u32, logical_cols: u32, report_rows: u32) -> Case {
    Case { scenario, rows, logical_cols, report_rows, active_cols: 4 }
}

/// The cases of each preset, in run order.
pub open spec fn preset_cases(p: Preset) -> Seq<Case> {
    match p {
        Preset::Smoke => seq![
            case_of(EnvelopeScenario::LinearRollup, 10_000, 20, 0),
            case_of(EnvelopeScenario::SumifsReport, 10_000, 20, 32),
            case_of(EnvelopeScenario::WholeColumnSummary, 10_000, 20, 16),
        ],
        Preset::Iteration => seq![
            case_of(EnvelopeScenario::LinearRollup, 25_000, 20, 0),
            case_of(EnvelopeScenario::LinearRollup, 50_000, 20, 0),
        ],
        Preset::Targeted => seq![
            case_of(EnvelopeScenario::LinearRollup, 700_000, 20, 0),
            case_of(EnvelopeScenario::SumifsReport, 100_000, 20, 256),
            case_of(EnvelopeScenario::SumifsReport, 250_000, 50, 256),
            case_of(EnvelopeScenario::WholeColumnSummary, 1_000_000, 50, 64),
        ],
        Preset::Envelope => seq![
            case_of(EnvelopeScenario::LinearRollup, 700_000, 20, 0),
            case_of(EnvelopeScenario::LinearRollup, 1_000_000, 50, 0),
            case_of(EnvelopeScenario::LinearRollup, 1_000_000, 128, 0),
            case_of(EnvelopeScenario::LinearRollup, 1_000_000, 256, 0),
            case_of(EnvelopeScenario::SumifsReport, 100_000, 20, 256),
            case_of(EnvelopeScenario::SumifsReport, 250_000, 50, 256),
            case_of(EnvelopeScenario::SumifsReport, 500_000, 128, 256),
            case_of(EnvelopeScenario::SumifsReport, 1_000_000, 256, 256),
            case_of(EnvelopeScenario::WholeColumnSummary, 700_000, 20, 64),
            case_of(EnvelopeScenario::WholeColumnSummary, 1_000_000, 50, 64),
            case_of(EnvelopeScenario::WholeColumnSummary, 1_000_000, 128, 64),
            case_of(EnvelopeScenario::WholeColumnSummary, 1_000_000, 256, 64),
        ],
    }
}

fn case(scenario: EnvelopeScenario, rows: u32, logical_cols: u32, report_rows: u32) -> (c: Case)
    ensures
        c == case_of(scenario, rows, logical_cols, report_rows),
{
    Case { scenario, rows, logical_cols, report_rows, active_cols: 4 }
}

/// The cases of a preset, in run order: a smoke set of three small shapes,
/// two iteration shapes, four targeted shapes, or the full twelve-shape
/// envelope.
pub fn cases_for_preset(preset: Preset) -> (v: Vec<Case>)
    ensures
        v@ == preset_cases(preset),
{
    let mut v: Vec<Case> = Vec::new();
    match preset {
        Preset::Smoke => {
            v.push(case(EnvelopeScenario::LinearRollup, 10_000, 20, 0));
            v.push(case(EnvelopeScenario::SumifsReport, 10_000, 20, 32));
            v.push(case(EnvelopeScenario::WholeColumnSummary, 10_000, 20, 16));
        },
        Preset::Iteration => {
            v.push(case(EnvelopeScenario::LinearRollup, 25_000, 20, 0));
            v.push(case(EnvelopeScenario::LinearRollup, 50_000, 20, 0));
        },
        Preset::Targeted => {
            v.push(case(EnvelopeScenario::LinearRollup, 700_000, 20, 0));
            v.push(case(EnvelopeScenario::SumifsReport, 100_000, 20, 256));
            v.push(case(EnvelopeScenario::SumifsReport, 250_000, 50, 256));
            v.push(case(EnvelopeScenario::WholeColumnSummary, 1_000_000, 50, 64));
        },
        Preset::Envelope => {
            v.push(case(EnvelopeScenario::LinearRollup, 700_000, 20, 0));
            v.push(case(EnvelopeScenario::LinearRollup, 1_000_000, 50, 0));
            v.push(case(EnvelopeScenario::LinearRollup, 1_000_000, 128, 0));
            v.push(case(EnvelopeScenario::LinearRollup, 1_000_000, 256, 0));
            v.push(case(EnvelopeScenario::SumifsReport, 100_000, 20, 256));
            v.push(case(EnvelopeScenario::SumifsReport, 250_000, 50, 256));
            v.push(case(EnvelopeScenario::SumifsReport, 500_000, 128, 256));
            v.push(case(EnvelopeScenario::SumifsReport, 1_000_000, 256, 256));
            v.push(case(EnvelopeScenario::WholeColumnSummary, 700_000, 20, 64));
            v.push(case(EnvelopeScenario::WholeColumnSummary, 1_000_000, 50, 64));
            v.push(case(EnvelopeScenario::WholeColumnSummary, 1_000_000, 128, 64));
            v.push(case(EnvelopeScenario::WholeColumnSummary, 1_000_000, 256, 64));
        },
    }
    assert(v@ =~= preset_cases(preset));
    v
}

/// `dir` joined with a relative name: a `/` in between unless `dir` is
/// empty or already ends in one.
pub open spec fn join_path(dir: Seq<char>, name: Seq<char>) -> Seq<char> {
    if dir.len() == 0 || dir.last() == '/' { dir + name } else { dir + seq!['/'] + name }
}

/// Joins a relative name onto a directory.
pub fn join(dir: &str, name: &Vec<char>) -> (s: String)
    ensures
        s@ == join_path(dir@, name@),
{
    let mut v = chars_of(dir);
    if v.len() > 0 && v[v.len() - 1] != '/' {
        v.push('/');
    }
    push_chars(&mut v, name);
    string_of(&v)
}

/// File name `<scenario>-<rows>x<cols>.xlsx` of a case's workbook.
pub open spec fn workbook_name(c: Case) -> Seq<char> {
    envelope_scenario_name(c.scenario) + "-"@ + dec(c.rows as nat) + "x"@ + dec(c.logical_cols as nat) + ".xlsx"@
}

fn push_shape(v: &mut Vec<char>, c: Case)
    ensures
        final(v)@ == old(v)@ + envelope_scenario_name(c.scenario) + "-"@ + dec(c.rows as nat) + "x"@ + dec(c.logical_cols as nat),
{
    push_str(v, c.scenario.name());
    push_str(v, "-");
    push_chars(v, &dec_chars(c.rows as u64));
    push_str(v, "x");
    push_chars(v, &dec_chars(c.logical_cols as u64));
}

/// Path of a case's workbook in the output directory.
pub fn workbook_path(output_dir: &str, c: Case) -> (s: String)
    ensures
        s@ == join_path(output_dir@, workbook_name(c)),
{
    let mut name: Vec<char> = Vec::new();
    push_shape(&mut name, c);
    push_str(&mut name, ".xlsx");
    assert(name@ =~= workbook_name(c));
    join(output_dir, &name)
}

/// Log file name
/// `<backend>-<mode>-<scenario>-<rows>x<cols>-sample<n>-<phase>.log`.
pub open spec fn log_name(backend: BackendKind, mode: FormulaPlaneProbeMode, c: Case, sample: nat, phase: Seq<char>) -> Seq<char> {
    backend_kind_label(backend) + "-"@ + plane_mode_label(mode) + "-"@ + envelope_scenario_name(c.scenario) + "-"@
        + dec(c.rows as nat) + "x"@ + dec(c.logical_cols as nat) + "-sample"@ + dec(sample) + "-"@ + phase + ".log"@
}

/// Path of the log of one phase of one sample of a case.
pub fn log_path(output_dir: &str, backend: BackendKind, mode: FormulaPlaneProbeMode, c: Case, sample: usize, phase: &str) -> (s: String)
    ensures
        s@ == join_path(output_dir@, log_name(backend, mode, c, sample as nat, phase@)),
{
    let mut name = chars_of(backend.label());
    push_str(&mut name, "-");
    push_str(&mut name, mode.label());
    push_str(&mut name, "-");
    push_shape(&mut name, c);
    push_str(&mut name, "-sample");
    push_chars(&mut name, &dec_chars(sample as u64));
    push_str(&mut name, "-");
    push_str(&mut name, phase);
    push_str(&mut name, ".log");
    assert(name@ =~= log_name(backend, mode, c, sample as nat, phase@));
    join(output_dir, &name)
}

/// Default output directory: `<root>/scratch/load-eval-envelope`.
pub fn default_output_dir(root: &str) -> (s: String)
    ensures
        s@ == join_path(join_path(root@, "scratch"@), "load-eval-envelope"@),
{
    let scratch = join(root, &chars_of("scratch"));
    join(scratch.as_str(), &chars_of("load-eval-envelope"))
}

/// File name of the probe binary for the platform.
pub fn probe_binary_name(windows: bool) -> (s: &'static str)
    ensures
        s@ == (if windows { "probe-load-envelope.exe"@ } else { "probe-load-envelope"@ }),
{
    if windows {
        "probe-load-envelope.exe"
    } else {
        "probe-load-envelope"
    }
}

/// Path of the release probe binary in a target directory.
pub fn probe_binary_path(target_dir: &str, windows: bool) -> (s: String)
    ensures
        s@ == join_path(join_path(target_dir@, "release"@), if windows { "probe-load-envelope.exe"@ } else { "probe-load-envelope"@ }),
{
    let release = join(target_dir, &chars_of("release"));
    join(release.as_str(), &chars_of(probe_binary_name(windows)))
}

/// Cargo features the probe is built with.
pub fn probe_features(perf_instrumentation: bool) -> (s: String)
    ensures
        s@ == "formualizer_runner"@ + (if perf_instrumentation { ",perf_instrumentation"@ } else { Seq::empty() }),
{
    let mut v = chars_of("formualizer_runner");
    if perf_instrumentation {
        push_str(&mut v, ",perf_instrumentation");
    } else {
        assert(v@ + Seq::<char>::empty() =~= v@);
    }
    string_of(&v)
}

/// Options of a matrix run that reach the probe.
#[derive(Clone, Copy, Debug)]
pub struct ProbeOptions {
    pub backend: BackendKind,
    pub formula_plane_mode: FormulaPlaneProbeMode,
    pub logical_cell_budget: u64,
    pub sparse_sheet_threshold: u64,
    pub max_sparse_ratio: u64,
    pub timeout_seconds: u64,
    pub keep_workbooks: bool,
}

/// Arguments of a probe process: the case's shape and the budgets, then
/// either the output path and `--generate-only` (and `--keep-workbook`
/// when workbooks are kept) or the input path.
pub open spec fn spec_probe_args(c: Case, o: ProbeOptions, workbook: Seq<char>, generate_only: bool) -> Seq<Seq<char>> {
    seq![
        "--scenario"@, envelope_scenario_name(c.scenario),
        "--backend"@, backend_kind_label(o.backend),
        "--formula-plane-mode"@, plane_mode_label(o.formula_plane_mode),
        "--rows"@, dec(c.rows as nat),
        "--logical-cols"@, dec(c.logical_cols as nat),
        "--report-rows"@, dec(c.report_rows as nat),
        "--active-cols"@, dec(c.active_cols as nat),
        "--logical-cell-budget"@, dec(o.logical_cell_budget as nat),
        "--sparse-sheet-threshold"@, dec(o.sparse_sheet_threshold as nat),
        "--max-sparse-ratio"@, dec(o.max_sparse_ratio as nat),
        "--timeout-seconds"@, dec(o.timeout_seconds as nat),
    ] + if generate_only {
        seq!["--output"@, workbook, "--generate-only"@] + if o.keep_workbooks { seq!["--keep-workbook"@] } else { Seq::empty() }
    } else {
        seq!["--input"@, workbook]
    }
}

pub open spec fn views(v: Seq<String>) -> Seq<Seq<char>> {
    v.map_values(|s: String| s@)
}

fn push_owned(v: &mut Vec<String>, s: &str)
    ensures
        views(final(v)@) == views(old(v)@).push(s@),
{
    let ghost before = v@;
    v.push(owned(s));
    assert(views(v@) =~= views(before).push(s@));
}

fn push_dec(v: &mut Vec<String>, n: u64)
    ensures
        views(final(v)@) == views(old(v)@).push(dec(n as nat)),
{
    let ghost before = v@;
    v.push(string_of(&dec_chars(n)));
    assert(views(v@) =~= views(before).push(dec(n as nat)));
}

/// The arguments of a generate or measure probe for a case.
pub fn probe_args(c: Case, o: &ProbeOptions, workbook: &str, generate_only: bool) -> (v: Vec<String>)
    ensures
        views(v@) == spec_probe_args(c, *o, workbook@, generate_only),
{
    let mut v: Vec<String> = Vec::new();
    push_owned(&mut v, "--scenario");
    push_owned(&mut v, c.scenario.name());
    push_owned(&mut v, "--backend");
    push_owned(&mut v, o.backend.label());
    push_owned(&mut v, "--formula-plane-mode");
    push_owned(&mut v, o.formula_plane_mode.label());
    push_owned(&mut v, "--rows");
    push_dec(&mut v, c.rows as u64);
    push_owned(&mut v, "--logical-cols");
    push_dec(&mut v, c.logical_cols as u64);
    push_owned(&mut v, "--report-rows");
    push_dec(&mut v, c.report_rows as u64);
    push_owned(&mut v, "--active-cols");
    push_dec(&mut v, c.active_cols as u64);
    push_owned(&mut v, "--logical-cell-budget");
    push_dec(&mut v, o.logical_cell_budget);
    push_owned(&mut v, "--sparse-sheet-threshold");
    push_dec(&mut v, o.sparse_sheet_threshold);
    push_owned(&mut v, "--max-sparse-ratio");
    push_dec(&mut v, o.max_sparse_ratio);
    push_owned(&mut v, "--timeout-seconds");
    push_dec(&mut v, o.timeout_seconds);
    if generate_only {
        push_owned(&mut v, "--output");
        push_owned(&mut v, workbook);
        push_owned(&mut v, "--generate-only");
        if o.keep_workbooks {
            push_owned(&mut v, "--keep-workbook");
        }
    } else {
        push_owned(&mut v, "--input");
        push_owned(&mut v, workbook);
    }
    assert(views(v@) =~= spec_probe_args(c, *o, workbook@, generate_only));
    v
}

/// Number of samples per case: as requested, at least one.
pub fn sample_count(samples: usize) -> (n: usize)
    ensures
        n == (if samples >= 1 { samples } else { 1 }),
{
    if samples >= 1 { samples } else { 1 }
}

/// The (case, sample) pairs of a run, in run order: each case of the preset
/// with samples `1..=n`.
pub open spec fn run_order(cases: Seq<Case>, n: nat) -> Seq<(Case, nat)> {
    Seq::new(cases.len() * n, |i: int| (cases[i / n as int], (i % n as int + 1) as nat))
}

/// Every run of a matrix, in order.
pub fn matrix_runs(preset: Preset, samples: usize) -> (v: Vec<(Case, usize)>)
    ensures
        v@.len() == preset_cases(preset).len() * (if samples >= 1 { samples } else { 1 }),
        forall|i: int| 0 <= i < v@.len() ==> (#[trigger] v@[i].0, v@[i].1 as nat)
            == run_order(preset_cases(preset), (if samples >= 1 { samples } else { 1 }) as nat)[i],
{
    let cases = cases_for_preset(preset);
    let n = sample_count(samples);
    let mut v: Vec<(Case, usize)> = Vec::new();
    let mut i: usize = 0;
    while i < cases.len()
        invariant
            0 <= i <= cases@.len(),
            cases@ == preset_cases(preset),
            cases@.len() <= 12,
            n >= 1,
            n == (if samples >= 1 { samples } else { 1 }),
            v@.len() == i * n,
            forall|j: int| 0 <= j < v@.len() ==> (#[trigger] v@[j].0, v@[j].1 as nat) == run_order(cases@, n as nat)[j],
        decreases cases.len() - i,
    {
        let mut t: usize = 0;
        while t < n
            invariant
                0 <= t <= n,
                0 <= i < cases@.len(),
                cases@.len() <= 12,
                n >= 1,
                v@.len() == i * n + t,
                forall|j: int| 0 <= j < v@.len() ==> (#[trigger] v@[j].0, v@[j].1 as nat) == run_order(cases@, n as nat)[j],
            decreases n - t,
        {
            proof {
                let j = i * n + t;
                assert(j / (n as int) == i && j % (n as int) == t) by (nonlinear_arith)
                    requires j == i * n + t, 0 <= t < n;
                assert(j < cases@.len() * n) by (nonlinear_arith)
                    requires j == i * n + t, 0 <= t < n, i < cases@.len();
            }
            v.push((cases[i], t + 1));
            t = t + 1;
        }
        proof {
            assert(i * n + n == (i + 1) * n) by (nonlinear_arith);
        }
        i = i + 1;
    }
    v
}

/// Environment summary written to each probe log.
pub fn env_summary(debug_load: bool, umya_lazy_read: bool, perf_instrumentation: bool) -> (s: String)
    ensures
        s@ == "FZ_DEBUG_LOAD="@ + (if debug_load { "1"@ } else { "0"@ })
            + " FZ_UMYA_LAZY_READ="@ + (if umya_lazy_read { "1"@ } else { "0"@ })
            + " PERF_INSTRUMENTATION="@ + (if perf_instrumentation { "1"@ } else { "0"@ }),
{
    let mut v = chars_of("FZ_DEBUG_LOAD=");
    push_str(&mut v, if debug_load { "1" } else { "0" });
    push_str(&mut v, " FZ_UMYA_LAZY_READ=");
    push_str(&mut v, if umya_lazy_read { "1" } else { "0" });
    push_str(&mut v, " PERF_INSTRUMENTATION=");
    push_str(&mut v, if perf_instrumentation { "1" } else { "0" });
    string_of(&v)
}

/// Logical cell count of a case.
pub fn logical_cells(c: Case) -> (n: u64)
    ensures
        n == c.rows as nat * c.logical_cols as nat,
{
    proof {
        assert(c.rows as nat * c.logical_cols as nat <= u32::MAX as nat * u32::MAX as nat) by (nonlinear_arith);
    }
    c.rows as u64 * c.logical_cols as u64
}

/// Reported text, or the fallback when the report left it empty.
pub fn or_fallback(reported: String, fallback: &str) -> (s: String)
    ensures
        s@ == (if reported@.len() == 0 { fallback@ } else { reported@ }),
{
    if crate::text::chars_of(reported.as_str()).len() == 0 {
        owned(fallback)
    } else {
        reported
    }
}

/// Which child of a case failed: the one that generates the workbook or the
/// one that measures it.
#[derive(Clone, Copy, Debug, PartialEq, Eq, Structural)]
pub enum FailedChild {
    Generation,
    Measurement,
}

/// Status and budget flags of a case whose child failed: a failed
/// generation is a `generation_timeout` with no budget verdict; a failed
/// measurement is a `timeout` that is within neither budget.
pub fn failure_outcome(failed: FailedChild) -> (r: (&'static str, Option<bool>))
    ensures
        failed == FailedChild::Generation ==> r.0@ == "generation_timeout"@ && r.1 is None,
        failed == FailedChild::Measurement ==> r.0@ == "timeout"@ && r.1 == Some(false),
{
    match failed {
        FailedChild::Generation => ("generation_timeout", None),
        FailedChild::Measurement => ("timeout", Some(false)),
    }
}

} // verus!
