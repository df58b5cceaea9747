//! The cold-process formula-family ingest matrix: its options, the checks it
//! makes before running, the children it launches, how a child's output is
//! read, and the consistency checks a child applies to its own counters.

use vstd::prelude::*;
use crate::text::{dec, dec_chars, owned, push_chars, push_str, string_of, chars_of, str_eq};
use crate::parse::{
    first_occurrence, trim, spec_parse_u64, find_in, trim_range, parse_u64_range,
};

verus! {

/// Which engine disposition a run measures; `All` runs every disposition.
#[derive(Clone, Copy, Debug, PartialEq, Eq, Structural)]
pub enum ProbeMode {
    All,
    Off,
    Shadow,
    Authoritative,
    ForcedReplay,
}

/// Whether formulas are built into the graph while loading or staged for a
/// later explicit build.
#[derive(Clone, Copy, Debug, PartialEq, Eq, Structural)]
pub enum GraphBuild {
    Eager,
    Deferred,
}

pub open spec fn graph_build_label(g: GraphBuild) -> Seq<char> {
    match g {
        GraphBuild::Eager => "eager"@,
        GraphBuild::Deferred => "deferred"@,
    }
}

impl GraphBuild {
    /// Lower-case name, as reported and passed on the command line.
    pub fn label(self) -> (s: &'static str)
        ensures
            s@ == graph_build_label(self),
    {
        match self {
            GraphBuild::Eager => "eager",
            GraphBuild::Deferred => "deferred",
        }
    }
}

/// Shape of the generated single-sheet fixture.
#[derive(Clone, Copy, Debug, PartialEq, Eq, Structural)]
pub enum Scenario {
    LargeFamily,
    NestedFunctionFamily,
    ManyTinyFamilies,
    ForwardAnchor,
    HoleException,
    FullSheetTwoPoint,
}

pub open spec fn scenario_label(s: Scenario) -> Seq<char> {
    match s {
        Scenario::LargeFamily => "large_family"@,
        Scenario::NestedFunctionFamily => "nested_function_family"@,
        Scenario::ManyTinyFamilies => "many_tiny_families"@,
        Scenario::ForwardAnchor => "forward_anchor"@,
        Scenario::HoleException => "hole_exception"@,
        Scenario::FullSheetTwoPoint => "full_sheet_two_point"@,
    }
}

pub open spec fn scenario_arg(s: Scenario) -> Seq<char> {
    match s {
        Scenario::LargeFamily => "large-family"@,
        Scenario::NestedFunctionFamily => "nested-function-family"@,
        Scenario::ManyTinyFamilies => "many-tiny-families"@,
        Scenario::ForwardAnchor => "forward-anchor"@,
        Scenario::HoleException => "hole-exception"@,
        Scenario::FullSheetTwoPoint => "full-sheet-two-point"@,
    }
}

impl Scenario {
    /// Snake-case name used in reports and fixture names.
    pub fn label(self) -> (s: &'static str)
        ensures
            s@ == scenario_label(self),
    {
        match self {
            Scenario::LargeFamily => "large_family",
            Scenario::NestedFunctionFamily => "nested_function_family",
            Scenario::ManyTinyFamilies => "many_tiny_families",
            Scenario::ForwardAnchor => "forward_anchor",
            Scenario::HoleException => "hole_exception",
            Scenario::FullSheetTwoPoint => "full_sheet_two_point",
        }
    }

    /// Kebab-case name used on the command line.
    pub fn arg(self) -> (s: &'static str)
        ensures
            s@ == scenario_arg(self),
    {
        match self {
            Scenario::LargeFamily => "large-family",
            Scenario::NestedFunctionFamily => "nested-function-family",
            Scenario::ManyTinyFamilies => "many-tiny-families",
            Scenario::ForwardAnchor => "forward-anchor",
            Scenario::HoleException => "hole-exception",
            Scenario::FullSheetTwoPoint => "full-sheet-two-point",
        }
    }
}

/// Options of one invocation of the matrix (or of one child).
#[derive(Clone, Debug)]
pub struct MatrixOptions {
    pub scenario: Scenario,
    pub mode: ProbeMode,
    pub graph_build: GraphBuild,
    pub members: u32,
    pub exclusions: u32,
    pub input: Option<String>,
    pub fixture_out: Option<String>,
    pub generate_only: bool,
    pub samples: usize,
    pub child: bool,
}

/// Smallest member count at which the nested-function load gate applies.
pub const NESTED_LOAD_GATE_MIN_MEMBERS: u32 = 100_000;

/// The nested-function load gate runs for 100k-member nested families
/// measured authoritatively (alone or in the full matrix), unless only the
/// fixture is generated.
pub open spec fn spec_is_nested_load_gate_run(o: MatrixOptions) -> bool {
    o.scenario == Scenario::NestedFunctionFamily
        && o.members >= NESTED_LOAD_GATE_MIN_MEMBERS
        && (o.mode == ProbeMode::All || o.mode == ProbeMode::Authoritative)
        && !o.generate_only
}

pub fn is_nested_load_gate_run(o: &MatrixOptions) -> (r: bool)
    ensures
        r == spec_is_nested_load_gate_run(*o),
{
    o.scenario == Scenario::NestedFunctionFamily
        && o.members >= NESTED_LOAD_GATE_MIN_MEMBERS
        && (o.mode == ProbeMode::All || o.mode == ProbeMode::Authoritative)
        && !o.generate_only
}

/// The deferred fragmented gates run for the full matrix of a deferred
/// 100k-member hole-exception fixture with 1, 8 or 64 exceptions, unless
/// only the fixture is generated.
pub open spec fn spec_is_deferred_fragmented_gate_run(o: MatrixOptions) -> bool {
    o.scenario == Scenario::HoleException
        && o.graph_build == GraphBuild::Deferred
        && o.members >= 100_000
        && (o.exclusions == 1 || o.exclusions == 8 || o.exclusions == 64)
        && o.mode == ProbeMode::All
        && !o.generate_only
}

pub fn is_deferred_fragmented_gate_run(o: &MatrixOptions) -> (r: bool)
    ensures
        r == spec_is_deferred_fragmented_gate_run(*o),
{
    o.scenario == Scenario::HoleException
        && o.graph_build == GraphBuild::Deferred
        && o.members >= 100_000
        && (o.exclusions == 1 || o.exclusions == 8 || o.exclusions == 64)
        && o.mode == ProbeMode::All
        && !o.generate_only
}

/// Why the options of a matrix run are refused.
#[derive(Clone, Copy, Debug, PartialEq, Eq, Structural)]
pub enum MatrixOptionsError {
    MembersZero,
    SamplesZero,
    ExclusionsOutOfRange,
    NestedGateNeedsFiveSamples,
    DeferredGateNeedsFiveSamples,
}

/// The first rule the options break, checked in this order: at least one
/// member, at least one sample, `1 <= exclusions < members - 1` for
/// hole-exception fixtures, and five samples for either gate run.
pub open spec fn spec_validate(o: MatrixOptions) -> Result<(), MatrixOptionsError> {
    if o.members == 0 {
        Err(MatrixOptionsError::MembersZero)
    } else if o.samples == 0 {
        Err(MatrixOptionsError::SamplesZero)
    } else if o.scenario == Scenario::HoleException && (o.exclusions == 0 || o.exclusions >= o.members - 1) {
        Err(MatrixOptionsError::ExclusionsOutOfRange)
    } else if spec_is_nested_load_gate_run(o) && o.samples < 5 {
        Err(MatrixOptionsError::NestedGateNeedsFiveSamples)
    } else if spec_is_deferred_fragmented_gate_run(o) && o.samples < 5 {
        Err(MatrixOptionsError::DeferredGateNeedsFiveSamples)
    } else {
        Ok(())
    }
}

/// Checks the options of a matrix run before anything is generated.
pub fn validate_matrix_options(o: &MatrixOptions) -> (r: Result<(), MatrixOptionsError>)
    ensures
        r == spec_validate(*o),
{
    if o.members == 0 {
        Err(MatrixOptionsError::MembersZero)
    } else if o.samples == 0 {
        Err(MatrixOptionsError::SamplesZero)
    } else if o.scenario == Scenario::HoleException && (o.exclusions == 0 || o.exclusions >= o.members - 1) {
        Err(MatrixOptionsError::ExclusionsOutOfRange)
    } else if is_nested_load_gate_run(o) && o.samples < 5 {
        Err(MatrixOptionsError::NestedGateNeedsFiveSamples)
    } else if is_deferred_fragmented_gate_run(o) && o.samples < 5 {
        Err(MatrixOptionsError::DeferredGateNeedsFiveSamples)
    } else {
        Ok(())
    }
}

pub open spec fn options_error_message(e: MatrixOptionsError) -> Seq<char> {
    match e {
        MatrixOptionsError::MembersZero => "--members must be at least 1"@,
        MatrixOptionsError::SamplesZero => "--samples must be at least 1"@,
        MatrixOptionsError::ExclusionsOutOfRange => "hole-exception requires 1 <= --exclusions < --members - 1"@,
        MatrixOptionsError::NestedGateNeedsFiveSamples => "nested-function-family 100k gate runs require at least five cold samples"@,
        MatrixOptionsError::DeferredGateNeedsFiveSamples => "deferred fragmented 100k gate runs require at least five cold samples"@,
    }
}

impl MatrixOptionsError {
    /// The message the run stops with.
    pub fn message(self) -> (s: &'static str)
        ensures
            s@ == options_error_message(self),
    {
        match self {
            MatrixOptionsError::MembersZero => "--members must be at least 1",
            MatrixOptionsError::SamplesZero => "--samples must be at least 1",
            MatrixOptionsError::ExclusionsOutOfRange => "hole-exception requires 1 <= --exclusions < --members - 1",
            MatrixOptionsError::NestedGateNeedsFiveSamples => "nested-function-family 100k gate runs require at least five cold samples",
            MatrixOptionsError::DeferredGateNeedsFiveSamples => "deferred fragmented 100k gate runs require at least five cold samples",
        }
    }
}

/// Directory of generated fixtures when no path is given.
pub open spec fn default_fixture_dir() -> Seq<char> {
    "scratch/formula-family-anchor-once-bench"@
}

/// Default fixture path: `<dir>/<label>-<members>[-exclusions-<n>].xlsx`,
/// the exclusion suffix only for hole-exception fixtures.
pub open spec fn default_fixture_path(scenario: Scenario, members: nat, exclusions: nat) -> Seq<char> {
    default_fixture_dir() + "/"@ + scenario_label(scenario) + "-"@ + dec(members)
        + (if scenario == Scenario::HoleException { "-exclusions-"@ + dec(exclusions) } else { Seq::empty() })
        + ".xlsx"@
}

pub open spec fn spec_fixture_path(o: MatrixOptions) -> Seq<char> {
    match o.input {
        Some(p) => p@,
        None => match o.fixture_out {
            Some(p) => p@,
            None => default_fixture_path(o.scenario, o.members as nat, o.exclusions as nat),
        },
    }
}

/// Where the fixture is read from: the input if given, else the requested
/// output path, else the default path.
pub fn fixture_path(o: &MatrixOptions) -> (p: String)
    ensures
        p@ == spec_fixture_path(*o),
{
    match &o.input {
        Some(p) => owned(p.as_str()),
        None => match &o.fixture_out {
            Some(p) => owned(p.as_str()),
            None => {
                let mut cs: Vec<char> = chars_of("scratch/formula-family-anchor-once-bench");
                push_str(&mut cs, "/");
                push_str(&mut cs, o.scenario.label());
                push_str(&mut cs, "-");
                let m = dec_chars(o.members as u64);
                push_chars(&mut cs, &m);
                if o.scenario == Scenario::HoleException {
                    push_str(&mut cs, "-exclusions-");
                    let e = dec_chars(o.exclusions as u64);
                    push_chars(&mut cs, &e);
                } else {
                    assert(cs@ + Seq::<char>::empty() =~= cs@);
                }
                push_str(&mut cs, ".xlsx");
                string_of(&cs)
            },
        },
    }
}

/// Exclusion count reported for a run: zero unless the fixture is a
/// hole-exception one.
pub fn reported_exclusions(scenario: Scenario, exclusions: u32) -> (r: u32)
    ensures
        r == (if scenario == Scenario::HoleException { exclusions } else { 0 }),
{
    if scenario == Scenario::HoleException {
        exclusions
    } else {
        0
    }
}

/// The dispositions measured, in order, for a requested mode.
pub open spec fn spec_child_modes(mode: ProbeMode) -> Seq<ProbeMode> {
    let all = seq![ProbeMode::Off, ProbeMode::Shadow, ProbeMode::Authoritative, ProbeMode::ForcedReplay];
    all.filter(|m: ProbeMode| mode == ProbeMode::All || mode == m)
}

/// The dispositions a matrix run launches children for, in launch order.
pub fn child_modes(mode: ProbeMode) -> (v: Vec<ProbeMode>)
    ensures
        v@ == (if mode == ProbeMode::All {
            seq![ProbeMode::Off, ProbeMode::Shadow, ProbeMode::Authoritative, ProbeMode::ForcedReplay]
        } else {
            seq![mode]
        }),
{
    let mut v: Vec<ProbeMode> = Vec::new();
    if mode == ProbeMode::All || mode == ProbeMode::Off {
        v.push(ProbeMode::Off);
    }
    if mode == ProbeMode::All || mode == ProbeMode::Shadow {
        v.push(ProbeMode::Shadow);
    }
    if mode == ProbeMode::All || mode == ProbeMode::Authoritative {
        v.push(ProbeMode::Authoritative);
    }
    if mode == ProbeMode::All || mode == ProbeMode::ForcedReplay {
        v.push(ProbeMode::ForcedReplay);
    }
    v
}

pub open spec fn spec_mode_arg(mode: ProbeMode) -> Seq<char> {
    match mode {
        ProbeMode::Off => "off"@,
        ProbeMode::Shadow => "shadow"@,
        ProbeMode::Authoritative => "authoritative"@,
        ProbeMode::ForcedReplay => "forced-replay"@,
        ProbeMode::All => Seq::empty(),
    }
}

/// Command-line name of a single disposition.
pub fn mode_arg(mode: ProbeMode) -> (s: &'static str)
    requires
        mode != ProbeMode::All,
    ensures
        s@ == spec_mode_arg(mode),
{
    match mode {
        ProbeMode::Off => "off",
        ProbeMode::Shadow => "shadow",
        ProbeMode::Authoritative => "authoritative",
        ProbeMode::ForcedReplay => "forced-replay",
        ProbeMode::All => "",
    }
}

/// Arguments handed to a child, after the program path.
pub open spec fn spec_child_args(fixture: Seq<char>, scenario: Scenario, graph_build: GraphBuild, members: nat, exclusions: nat, mode: ProbeMode) -> Seq<Seq<char>> {
    seq![
        "--child"@, "--input"@, fixture,
        "--scenario"@, scenario_arg(scenario),
        "--graph-build"@, graph_build_label(graph_build),
        "--members"@, dec(members),
        "--exclusions"@, dec(exclusions),
        "--mode"@, spec_mode_arg(mode),
    ]
}

/// The arguments with which a cold child is launched for one disposition.
pub fn child_args(fixture: &str, scenario: Scenario, graph_build: GraphBuild, members: u32, exclusions: u32, mode: ProbeMode) -> (v: Vec<String>)
    requires
        mode != ProbeMode::All,
    ensures
        v@.len() == 13,
        forall|i: int| 0 <= i < 13 ==> #[trigger] v@[i]@ == spec_child_args(fixture@, scenario, graph_build, members as nat, exclusions as nat, mode)[i],
{
    let mut v: Vec<String> = Vec::new();
    v.push(owned("--child"));
    v.push(owned("--input"));
    v.push(owned(fixture));
    v.push(owned("--scenario"));
    v.push(owned(scenario.arg()));
    v.push(owned("--graph-build"));
    v.push(owned(graph_build.label()));
    v.push(owned("--members"));
    v.push(string_of(&dec_chars(members as u64)));
    v.push(owned("--exclusions"));
    v.push(string_of(&dec_chars(exclusions as u64)));
    v.push(owned("--mode"));
    v.push(owned(mode_arg(mode)));
    v
}

/// The marker before the peak resident set size in `/usr/bin/time -v` output.
pub open spec fn rss_marker() -> Seq<char> {
    "Maximum resident set size (kbytes):"@
}

/// The value a line reports: the trimmed text after the first marker, read
/// as an unsigned number.
pub open spec fn line_rss(line: Seq<char>) -> Option<u64> {
    match first_occurrence(line, rss_marker()) {
        Some(k) => spec_parse_u64(trim(line.subrange(k + rss_marker().len(), line.len() as int))),
        None => None,
    }
}

/// Position of the first line feed at or after `i`, or the length.
pub open spec fn next_newline(s: Seq<char>, i: int) -> int
    decreases s.len() - i,
{
    if i >= s.len() {
        s.len() as int
    } else if s[i] == '\n' {
        i
    } else {
        next_newline(s, i + 1)
    }
}

/// The first value reported by a line starting at or after `i`.
pub open spec fn rss_from(s: Seq<char>, i: int) -> Option<u64>
    decreases s.len() - i,
{
    if i < 0 || i > s.len() {
        None
    } else {
        let j = next_newline(s, i);
        match line_rss(s.subrange(i, j)) {
            Some(v) => Some(v),
            None => if j >= s.len() || j < i { None } else { rss_from(s, j + 1) },
        }
    }
}

proof fn lemma_next_newline_bounds(s: Seq<char>, i: int)
    requires
        0 <= i <= s.len(),
    ensures
        i <= next_newline(s, i) <= s.len(),
        next_newline(s, i) < s.len() ==> s[next_newline(s, i)] == '\n',
        forall|k: int| i <= k < next_newline(s, i) ==> s[k] != '\n',
    decreases s.len() - i,
{
    if i < s.len() && s[i] != '\n' {
        lemma_next_newline_bounds(s, i + 1);
    }
}

/// Peak resident set size, in KiB, from the first line of `time -v` output
/// that reports it readably; `None` when no line does.
pub fn parse_max_rss(s: &str) -> (r: Option<u64>)
    ensures
        r == rss_from(s@, 0),
{
    let x = chars_of(s);
    let marker = chars_of("Maximum resident set size (kbytes):");
    let mut i: usize = 0;
    loop
        invariant
            0 <= i <= x@.len(),
            x@ == s@,
            marker@ == rss_marker(),
            rss_from(s@, 0) == rss_from(s@, i as int),
        decreases x@.len() - i,
    {
        let mut j = i;
        while j < x.len() && x[j] != '\n'
            invariant
                i <= j <= x@.len(),
                next_newline(x@, i as int) == next_newline(x@, j as int),
            decreases x@.len() - j,
        {
            j = j + 1;
        }
        proof {
            lemma_next_newline_bounds(x@, i as int);
        }
        let ghost line = x@.subrange(i as int, j as int);
        let found = find_in(&x, i, j, &marker);
        match found {
            Some(k) => {
                let start = k + marker.len();
                let (a, b) = trim_range(&x, start, j);
                let v = parse_u64_range(&x, a, b);
                proof {
                    assert(line.subrange(k - i + rss_marker().len(), line.len() as int) =~= x@.subrange(start as int, j as int));
                }
                if v.is_some() {
                    return v;
                }
            },
            None => {},
        }
        if j >= x.len() {
            return None;
        }
        i = j + 1;
    }
}

/// How the fixture's formulas were stored during ingest: spilled to a file,
/// spooled in memory, or not spooled at all.
pub fn storage_kind(spilled_bytes: u64, records_spooled: u64) -> (s: &'static str)
    ensures
        s@ == (if spilled_bytes > 0 { "native_file"@ } else if records_spooled > 0 { "memory"@ } else { "none"@ }),
{
    if spilled_bytes > 0 {
        "native_file"
    } else if records_spooled > 0 {
        "memory"
    } else {
        "none"
    }
}

/// Formula-plane mode an engine is configured with for a disposition.
#[derive(Clone, Copy, Debug, PartialEq, Eq, Structural)]
pub enum PlaneMode {
    Off,
    Shadow,
    AuthoritativeExperimental,
}

/// Engine configuration and report label of a child's disposition.
#[derive(Clone, Copy, Debug, PartialEq, Eq, Structural)]
pub struct ChildDisposition {
    pub plane_mode: PlaneMode,
    pub forced_replay: bool,
}

pub open spec fn spec_child_disposition(mode: ProbeMode) -> Option<ChildDisposition> {
    match mode {
        ProbeMode::Off => Some(ChildDisposition { plane_mode: PlaneMode::Off, forced_replay: false }),
        ProbeMode::Shadow => Some(ChildDisposition { plane_mode: PlaneMode::Shadow, forced_replay: false }),
        ProbeMode::Authoritative => Some(ChildDisposition { plane_mode: PlaneMode::AuthoritativeExperimental, forced_replay: false }),
        ProbeMode::ForcedReplay => Some(ChildDisposition { plane_mode: PlaneMode::AuthoritativeExperimental, forced_replay: true }),
        ProbeMode::All => None,
    }
}

/// The configuration a child runs with; `None` for `All`, which a child
/// refuses.
pub fn child_disposition(mode: ProbeMode) -> (r: Option<ChildDisposition>)
    ensures
        r == spec_child_disposition(mode),
{
    match mode {
        ProbeMode::Off => Some(ChildDisposition { plane_mode: PlaneMode::Off, forced_replay: false }),
        ProbeMode::Shadow => Some(ChildDisposition { plane_mode: PlaneMode::Shadow, forced_replay: false }),
        ProbeMode::Authoritative => Some(ChildDisposition { plane_mode: PlaneMode::AuthoritativeExperimental, forced_replay: false }),
        ProbeMode::ForcedReplay => Some(ChildDisposition { plane_mode: PlaneMode::AuthoritativeExperimental, forced_replay: true }),
        ProbeMode::All => None,
    }
}

pub open spec fn spec_child_label(mode: ProbeMode) -> Seq<char> {
    match mode {
        ProbeMode::Off => "off"@,
        ProbeMode::Shadow => "shadow"@,
        ProbeMode::Authoritative => "authoritative"@,
        ProbeMode::ForcedReplay => "forced_replay"@,
        ProbeMode::All => Seq::empty(),
    }
}

/// The disposition label a child reports.
pub fn child_label(mode: ProbeMode) -> (s: &'static str)
    requires
        mode != ProbeMode::All,
    ensures
        s@ == spec_child_label(mode),
{
    match mode {
        ProbeMode::Off => "off",
        ProbeMode::Shadow => "shadow",
        ProbeMode::Authoritative => "authoritative",
        ProbeMode::ForcedReplay => "forced_replay",
        ProbeMode::All => "",
    }
}

/// Counters a child checks after loading and evaluating.
#[derive(Clone, Copy, Debug, PartialEq, Eq, Structural)]
pub struct ChildCounters {
    pub active_spans: u64,
    pub graph_formula_vertices: u64,
    pub formula_cells_seen: u64,
    pub graph_formula_cells_materialized: u64,
    pub family_promoted: u64,
    pub family_promoted_cells: u64,
    pub family_fallback: u64,
}

/// Which consistency rule a child's counters break.
#[derive(Clone, Copy, Debug, PartialEq, Eq, Structural)]
pub enum ChildCheckError {
    /// Forced replay left spans, or not every formula became a vertex.
    ForcedReplayNotMaterialized,
    /// Authoritative promotion did not account for every formula.
    PromotionNotReconciled,
    /// A deferred fragmented run did not take the authority path.
    DeferredFragmentedMissedAuthority,
}

/// The first consistency rule the counters break, in the order the child
/// checks them.
pub open spec fn spec_check_child(d: ChildDisposition, graph_build: GraphBuild, scenario: Scenario, members: u32, exclusions: u32, c: ChildCounters) -> Result<(), ChildCheckError> {
    if d.forced_replay && (c.active_spans != 0 || c.graph_formula_vertices != c.formula_cells_seen) {
        Err(ChildCheckError::ForcedReplayNotMaterialized)
    } else if !d.forced_replay && d.plane_mode == PlaneMode::AuthoritativeExperimental && c.family_promoted > 0
        && (c.active_spans == 0 || c.graph_formula_cells_materialized + c.family_promoted_cells != c.formula_cells_seen) {
        Err(ChildCheckError::PromotionNotReconciled)
    } else if !d.forced_replay && d.plane_mode == PlaneMode::AuthoritativeExperimental && graph_build == GraphBuild::Deferred
        && scenario == Scenario::HoleException && members >= 100_000 && exclusions <= 64
        && (c.family_promoted != 1 || c.family_fallback != 0 || c.graph_formula_cells_materialized != exclusions
            || c.graph_formula_vertices != exclusions || c.active_spans != exclusions + 1) {
        Err(ChildCheckError::DeferredFragmentedMissedAuthority)
    } else {
        Ok(())
    }
}

/// Checks a child's counters against the rules of its disposition.
pub fn check_child_counters(d: ChildDisposition, graph_build: GraphBuild, scenario: Scenario, members: u32, exclusions: u32, c: ChildCounters) -> (r: Result<(), ChildCheckError>)
    ensures
        r == spec_check_child(d, graph_build, scenario, members, exclusions, c),
{
    if d.forced_replay && (c.active_spans != 0 || c.graph_formula_vertices != c.formula_cells_seen) {
        return Err(ChildCheckError::ForcedReplayNotMaterialized);
    }
    if !d.forced_replay && d.plane_mode == PlaneMode::AuthoritativeExperimental && c.family_promoted > 0
        && (c.active_spans == 0 || c.graph_formula_cells_materialized as u128 + c.family_promoted_cells as u128 != c.formula_cells_seen as u128) {
        return Err(ChildCheckError::PromotionNotReconciled);
    }
    if !d.forced_replay && d.plane_mode == PlaneMode::AuthoritativeExperimental && graph_build == GraphBuild::Deferred
        && scenario == Scenario::HoleException && members >= 100_000 && exclusions <= 64 {
        let expected = exclusions as u64;
        if c.family_promoted != 1 || c.family_fallback != 0 || c.graph_formula_cells_materialized != expected
            || c.graph_formula_vertices != expected || c.active_spans != expected + 1 {
            return Err(ChildCheckError::DeferredFragmentedMissedAuthority);
        }
    }
    Ok(())
}

/// Whether any gate that ran failed: the nested load gate, or either of the
/// deferred fragmented gates.
pub fn any_gate_failed(nested_passed: Option<bool>, deferred_passed: Option<(bool, bool)>) -> (r: bool)
    ensures
        r == ((nested_passed matches Some(p) && !p) || (deferred_passed matches Some((a, b)) && (!a || !b))),
{
    let nested_failed = match nested_passed {
        Some(p) => !p,
        None => false,
    };
    let deferred_failed = match deferred_passed {
        Some((a, b)) => !a || !b,
        None => false,
    };
    nested_failed || deferred_failed
}

/// The distinct labels of `s`, in order of first appearance.
pub open spec fn distinct_in_order(s: Seq<Seq<char>>) -> Seq<Seq<char>>
    decreases s.len(),
{
    if s.len() == 0 {
        Seq::empty()
    } else {
        let r = distinct_in_order(s.drop_last());
        if r.contains(s.last()) { r } else { r.push(s.last()) }
    }
}

/// Views of a vector of strings.
pub open spec fn views(v: Seq<String>) -> Seq<Seq<char>> {
    v.map_values(|s: String| s@)
}

fn contains_label(v: &Vec<String>, s: &str) -> (r: bool)
    ensures
        r == views(v@).contains(s@),
{
    let mut i: usize = 0;
    while i < v.len()
        invariant
            0 <= i <= v@.len(),
            forall|j: int| 0 <= j < i ==> v@[j]@ != s@,
        decreases v.len() - i,
    {
        if str_eq(v[i].as_str(), s) {
            assert(views(v@)[i as int] == s@);
            return true;
        }
        i = i + 1;
    }
    assert forall|j: int| 0 <= j < views(v@).len() implies views(v@)[j] != s@ by {}
    false
}

/// The dispositions of the measured children, each once, in the order they
/// first ran; a summary is made for each.
pub fn disposition_order(labels: &Vec<String>) -> (r: Vec<String>)
    ensures
        views(r@) == distinct_in_order(views(labels@)),
{
    let mut out: Vec<String> = Vec::new();
    let mut i: usize = 0;
    while i < labels.len()
        invariant
            0 <= i <= labels@.len(),
            views(out@) == distinct_in_order(views(labels@).subrange(0, i as int)),
        decreases labels.len() - i,
    {
        let s = labels[i].as_str();
        proof {
            assert(views(labels@).subrange(0, i + 1).drop_last() =~= views(labels@).subrange(0, i as int));
        }
        if !contains_label(&out, s) {
            let ghost before = out@;
            out.push(owned(s));
            proof {
                assert(views(out@) =~= views(before).push(s@));
            }
        }
        i = i + 1;
    }
    assert(views(labels@).subrange(0, labels@.len() as int) =~= views(labels@));
    out
}

/// Index of the first entry with the given label.
pub fn position_of(labels: &Vec<String>, label: &str) -> (r: Option<usize>)
    ensures
        match r {
            Some(i) => i < labels@.len() && labels@[i as int]@ == label@
                && forall|j: int| 0 <= j < i ==> labels@[j]@ != label@,
            None => forall|j: int| 0 <= j < labels@.len() ==> labels@[j]@ != label@,
        },
{
    let mut i: usize = 0;
    while i < labels.len()
        invariant
            0 <= i <= labels@.len(),
            forall|j: int| 0 <= j < i ==> labels@[j]@ != label@,
        decreases labels.len() - i,
    {
        if str_eq(labels[i].as_str(), label) {
            return Some(i);
        }
        i = i + 1;
    }
    None
}

/// How many times `label` occurs in `s`.
pub open spec fn occurrences(s: Seq<Seq<char>>, label: Seq<char>) -> nat
    decreases s.len(),
{
    if s.len() == 0 {
        0
    } else {
        occurrences(s.drop_last(), label) + if s.last() == label { 1nat } else { 0nat }
    }
}

/// The number of measured children with the given disposition: the sample
/// count of that disposition's summary.
pub fn disposition_samples(labels: &Vec<String>, label: &str) -> (n: usize)
    ensures
        n == occurrences(views(labels@), label@),
{
    let mut n: usize = 0;
    let mut i: usize = 0;
    while i < labels.len()
        invariant
            0 <= i <= labels@.len(),
            n <= i,
            n == occurrences(views(labels@).subrange(0, i as int), label@),
        decreases labels.len() - i,
    {
        proof {
            assert(views(labels@).subrange(0, i + 1).drop_last() =~= views(labels@).subrange(0, i as int));
        }
        if str_eq(labels[i].as_str(), label) {
            n = n + 1;
        }
        i = i + 1;
    }
    assert(views(labels@).subrange(0, labels@.len() as int) =~= views(labels@));
    n
}

} // verus!
