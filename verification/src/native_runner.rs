//! Decisions of the native benchmark runner: which run modes reuse a cached
//! recalculation plan, when a cached plan is dropped, which evaluation path an
//! incremental step takes, and the plan counters reported with the result.
//! The engine calls themselves are made by the program that drives a run.

use vstd::prelude::*;
use crate::text::{
    contains, contains_seq, ends_with, has_suffix, owned, push_str, str_eq, string_of,
};

verus! {

/// Workbook reader used to load a scenario.
#[derive(Clone, Copy, Debug, PartialEq, Eq, Structural)]
pub enum BackendMode {
    Umya,
    Calamine,
}

/// Name of a backend as reported in metrics.
pub open spec fn backend_name(b: BackendMode) -> Seq<char> {
    match b {
        BackendMode::Umya => "umya"@,
        BackendMode::Calamine => "calamine"@,
    }
}

impl BackendMode {
    /// Name of the backend as reported in metrics.
    pub fn as_str(self) -> (s: &'static str)
        ensures
            s@ == backend_name(self),
    {
        match self {
            BackendMode::Umya => "umya",
            BackendMode::Calamine => "calamine",
        }
    }
}

/// A mode asks for plan reuse when it is `native_best_cached_plan` or ends
/// in `_cached_plan`.
pub open spec fn spec_mode_requests_recalc_plan(mode: Seq<char>) -> bool {
    mode == "native_best_cached_plan"@ || has_suffix(mode, "_cached_plan"@)
}

/// Whether a run mode asks for the recalculation plan to be cached and
/// reused.
pub fn mode_requests_recalc_plan(mode: &str) -> (r: bool)
    ensures
        r == spec_mode_requests_recalc_plan(mode@),
{
    str_eq(mode, "native_best_cached_plan") || ends_with(mode, "_cached_plan")
}

/// Span evaluation is on when asked for explicitly or when the mode names
/// spans or the formula plane.
pub open spec fn spec_span_evaluation(flag: bool, mode: Seq<char>) -> bool {
    flag || contains_seq(mode, "span"@) || contains_seq(mode, "formula_plane"@)
}

/// Whether the workbook is configured for span evaluation.
pub fn span_evaluation_requested(flag: bool, mode: &str) -> (r: bool)
    ensures
        r == spec_span_evaluation(flag, mode@),
{
    flag || contains(mode, "span") || contains(mode, "formula_plane")
}

/// Plan reuse is on when asked for by flag or by mode.
pub fn recalc_plan_requested(flag: bool, mode: &str) -> (r: bool)
    ensures
        r == (flag || spec_mode_requests_recalc_plan(mode@)),
{
    flag || mode_requests_recalc_plan(mode)
}

/// The note recorded when a cached plan is dropped for `reason`.
pub open spec fn invalidation_note(reason: Seq<char>) -> Seq<char> {
    "recalc_plan_invalidated:"@ + reason
}

/// Drops the cached plan, if there is one, and then counts the invalidation
/// and records a note naming the reason; with no cached plan nothing changes.
pub fn invalidate_cached_plan<T>(
    cached_plan: &mut Option<T>,
    notes: &mut Vec<String>,
    invalidation_count: &mut u64,
    reason: &str,
)
    requires
        old(cached_plan).is_some() ==> *old(invalidation_count) < u64::MAX,
    ensures
        final(cached_plan).is_none(),
        old(cached_plan).is_some() ==> {
            &&& *final(invalidation_count) == *old(invalidation_count) + 1
            &&& final(notes)@.len() == old(notes)@.len() + 1
            &&& forall|i: int| 0 <= i < old(notes)@.len() ==> final(notes)@[i] == old(notes)@[i]
            &&& final(notes)@[old(notes)@.len() as int]@ == invalidation_note(reason@)
        },
        old(cached_plan).is_none() ==> {
            &&& *final(invalidation_count) == *old(invalidation_count)
            &&& final(notes)@ == old(notes)@
        },
{
    if cached_plan.take().is_some() {
        *invalidation_count = *invalidation_count + 1;
        let mut cs: Vec<char> = Vec::new();
        push_str(&mut cs, "recalc_plan_invalidated:");
        push_str(&mut cs, reason);
        notes.push(string_of(&cs));
    }
}

/// An operation of a scenario script.
#[derive(Clone, Copy, Debug, PartialEq, Eq, Structural)]
pub enum NativeOp {
    Load,
    EvaluateAll,
    EvaluateIncremental,
    EditSetValue,
    EditSetFormula,
    AddSheet,
    RemoveSheet,
    InsertRows,
    RenameSheet,
    ReadCells,
}

/// The operation an op name stands for, if the runner supports it.
pub open spec fn spec_native_op(name: Seq<char>) -> Option<NativeOp> {
    if name == "load"@ {
        Some(NativeOp::Load)
    } else if name == "evaluate_all"@ {
        Some(NativeOp::EvaluateAll)
    } else if name == "evaluate_incremental"@ {
        Some(NativeOp::EvaluateIncremental)
    } else if name == "edit_set_value"@ {
        Some(NativeOp::EditSetValue)
    } else if name == "edit_set_formula"@ {
        Some(NativeOp::EditSetFormula)
    } else if name == "add_sheet"@ {
        Some(NativeOp::AddSheet)
    } else if name == "remove_sheet"@ {
        Some(NativeOp::RemoveSheet)
    } else if name == "insert_rows"@ {
        Some(NativeOp::InsertRows)
    } else if name == "rename_sheet"@ {
        Some(NativeOp::RenameSheet)
    } else if name == "read_cells"@ {
        Some(NativeOp::ReadCells)
    } else {
        None
    }
}

/// Reads an op name; unsupported names give `None`.
pub fn parse_native_op(name: &str) -> (r: Option<NativeOp>)
    ensures
        r == spec_native_op(name@),
{
    if str_eq(name, "load") {
        Some(NativeOp::Load)
    } else if str_eq(name, "evaluate_all") {
        Some(NativeOp::EvaluateAll)
    } else if str_eq(name, "evaluate_incremental") {
        Some(NativeOp::EvaluateIncremental)
    } else if str_eq(name, "edit_set_value") {
        Some(NativeOp::EditSetValue)
    } else if str_eq(name, "edit_set_formula") {
        Some(NativeOp::EditSetFormula)
    } else if str_eq(name, "add_sheet") {
        Some(NativeOp::AddSheet)
    } else if str_eq(name, "remove_sheet") {
        Some(NativeOp::RemoveSheet)
    } else if str_eq(name, "insert_rows") {
        Some(NativeOp::InsertRows)
    } else if str_eq(name, "rename_sheet") {
        Some(NativeOp::RenameSheet)
    } else if str_eq(name, "read_cells") {
        Some(NativeOp::ReadCells)
    } else {
        None
    }
}

/// The reason under which an operation drops a cached plan: every edit that
/// changes formulas or the sheet layout does; value edits, evaluations and
/// reads do not.
pub open spec fn spec_invalidation_reason(op: NativeOp) -> Option<Seq<char>> {
    match op {
        NativeOp::EditSetFormula => Some("edit_set_formula"@),
        NativeOp::AddSheet => Some("add_sheet"@),
        NativeOp::RemoveSheet => Some("remove_sheet"@),
        NativeOp::InsertRows => Some("insert_rows"@),
        NativeOp::RenameSheet => Some("rename_sheet"@),
        _ => None,
    }
}

impl NativeOp {
    /// The reason under which this operation drops a cached plan, if it does.
    pub fn invalidation_reason(self) -> (r: Option<&'static str>)
        ensures
            r is None <==> spec_invalidation_reason(self) is None,
            r is Some ==> r->0@ == spec_invalidation_reason(self)->0,
    {
        match self {
            NativeOp::EditSetFormula => Some("edit_set_formula"),
            NativeOp::AddSheet => Some("add_sheet"),
            NativeOp::RemoveSheet => Some("remove_sheet"),
            NativeOp::InsertRows => Some("insert_rows"),
            NativeOp::RenameSheet => Some("rename_sheet"),
            _ => None,
        }
    }
}

/// How an incremental evaluation step is carried out.
#[derive(Clone, Copy, Debug, PartialEq, Eq, Structural)]
pub enum IncrementalPath {
    /// Plan reuse is off: evaluate everything.
    Plain,
    /// Evaluate with the cached plan.
    ReusePlan,
    /// The cached plan has dynamic references: evaluate everything.
    FallbackDynamicRefs,
    /// No plan is cached: evaluate everything.
    FallbackNoCachedPlan,
}

/// The path for an incremental step, given whether plan reuse is on and,
/// when a plan is cached, whether it has dynamic references.
pub open spec fn spec_incremental_path(use_recalc_plan: bool, cached_has_dynamic_refs: Option<bool>) -> IncrementalPath {
    if !use_recalc_plan {
        IncrementalPath::Plain
    } else {
        match cached_has_dynamic_refs {
            Some(true) => IncrementalPath::FallbackDynamicRefs,
            Some(false) => IncrementalPath::ReusePlan,
            None => IncrementalPath::FallbackNoCachedPlan,
        }
    }
}

/// Chooses how an incremental step evaluates.
pub fn choose_incremental_path(use_recalc_plan: bool, cached_has_dynamic_refs: Option<bool>) -> (p: IncrementalPath)
    ensures
        p == spec_incremental_path(use_recalc_plan, cached_has_dynamic_refs),
{
    if !use_recalc_plan {
        IncrementalPath::Plain
    } else {
        match cached_has_dynamic_refs {
            Some(true) => IncrementalPath::FallbackDynamicRefs,
            Some(false) => IncrementalPath::ReusePlan,
            None => IncrementalPath::FallbackNoCachedPlan,
        }
    }
}

/// Counters of plan use over a run, and what the last built plan looked like.
#[derive(Clone, Copy, Debug, PartialEq, Eq, Structural)]
pub struct PlanStats {
    pub builds: u64,
    pub reuses: u64,
    pub fallbacks: u64,
    pub invalidations: u64,
    pub layer_count: Option<u64>,
    pub last_has_dynamic_refs: bool,
}

/// The note recorded for a fallback path.
pub open spec fn fallback_note(p: IncrementalPath) -> Option<Seq<char>> {
    match p {
        IncrementalPath::FallbackDynamicRefs => Some("recalc_plan_fallback:evaluate_all(dynamic_refs_present)"@),
        IncrementalPath::FallbackNoCachedPlan => Some("recalc_plan_fallback:evaluate_all(no_cached_plan)"@),
        _ => None,
    }
}

/// Whether the path counts as a fallback.
pub open spec fn is_fallback(p: IncrementalPath) -> bool {
    p == IncrementalPath::FallbackDynamicRefs || p == IncrementalPath::FallbackNoCachedPlan
}

impl PlanStats {
    /// No plan built, reused, fallen back from or dropped yet.
    pub fn new() -> (s: Self)
        ensures
            s == (PlanStats {
                builds: 0,
                reuses: 0,
                fallbacks: 0,
                invalidations: 0,
                layer_count: None,
                last_has_dynamic_refs: false,
            }),
    {
        PlanStats {
            builds: 0,
            reuses: 0,
            fallbacks: 0,
            invalidations: 0,
            layer_count: None,
            last_has_dynamic_refs: false,
        }
    }

    /// Records that a plan was built with the given shape.
    pub fn record_build(&mut self, layer_count: u64, has_dynamic_refs: bool)
        requires
            old(self).builds < u64::MAX,
        ensures
            *final(self) == (PlanStats {
                builds: (old(self).builds + 1) as u64,
                layer_count: Some(layer_count),
                last_has_dynamic_refs: has_dynamic_refs,
                ..*old(self)
            }),
    {
        self.builds = self.builds + 1;
        self.layer_count = Some(layer_count);
        self.last_has_dynamic_refs = has_dynamic_refs;
    }

    /// Records the path an incremental step took: a reuse or a fallback is
    /// counted, and a fallback leaves its note. Returns whether a new plan
    /// must be built afterwards (plan reuse is on and the cached plan was not
    /// used).
    pub fn record_incremental(&mut self, path: IncrementalPath, notes: &mut Vec<String>) -> (rebuild: bool)
        requires
            old(self).reuses < u64::MAX,
            old(self).fallbacks < u64::MAX,
        ensures
            rebuild == is_fallback(path),
            final(self).reuses == old(self).reuses + (if path == IncrementalPath::ReusePlan { 1int } else { 0int }),
            final(self).fallbacks == old(self).fallbacks + (if is_fallback(path) { 1int } else { 0int }),
            final(self).builds == old(self).builds,
            final(self).invalidations == old(self).invalidations,
            final(self).layer_count == old(self).layer_count,
            final(self).last_has_dynamic_refs == old(self).last_has_dynamic_refs,
            fallback_note(path) is None ==> final(notes)@ == old(notes)@,
            fallback_note(path) is Some ==> {
                &&& final(notes)@.len() == old(notes)@.len() + 1
                &&& forall|i: int| 0 <= i < old(notes)@.len() ==> final(notes)@[i] == old(notes)@[i]
                &&& final(notes)@[old(notes)@.len() as int]@ == fallback_note(path)->0
            },
    {
        match path {
            IncrementalPath::Plain => false,
            IncrementalPath::ReusePlan => {
                self.reuses = self.reuses + 1;
                false
            },
            IncrementalPath::FallbackDynamicRefs => {
                notes.push(owned("recalc_plan_fallback:evaluate_all(dynamic_refs_present)"));
                self.fallbacks = self.fallbacks + 1;
                true
            },
            IncrementalPath::FallbackNoCachedPlan => {
                notes.push(owned("recalc_plan_fallback:evaluate_all(no_cached_plan)"));
                self.fallbacks = self.fallbacks + 1;
                true
            },
        }
    }
}

/// Outcome label of a run.
pub fn status_label(passed: bool) -> (s: &'static str)
    ensures
        s@ == (if passed { "ok"@ } else { "invalid"@ }),
{
    if passed {
        "ok"
    } else {
        "invalid"
    }
}

/// The two argument spellings a rename accepts: `old` and `new`, or else
/// `sheet` and `new`.
pub open spec fn spec_rename_pair(old_name: Option<Seq<char>>, sheet: Option<Seq<char>>, new_name: Option<Seq<char>>) -> Option<(Seq<char>, Seq<char>)> {
    match (old_name, new_name) {
        (Some(o), Some(n)) => Some((o, n)),
        _ => match (sheet, new_name) {
            (Some(s), Some(n)) => Some((s, n)),
            _ => None,
        },
    }
}

/// Picks the sheet to rename and its new name from the op's arguments;
/// `None` when neither spelling is complete.
pub fn rename_pair(old_name: Option<String>, sheet: Option<String>, new_name: Option<String>) -> (r: Option<(String, String)>)
    ensures
        match r {
            Some((a, b)) => spec_rename_pair(
                match old_name { Some(x) => Some(x@), None => None },
                match sheet { Some(x) => Some(x@), None => None },
                match new_name { Some(x) => Some(x@), None => None },
            ) == Some((a@, b@)),
            None => spec_rename_pair(
                match old_name { Some(x) => Some(x@), None => None },
                match sheet { Some(x) => Some(x@), None => None },
                match new_name { Some(x) => Some(x@), None => None },
            ) is None,
        },
{
    match (old_name, new_name) {
        (Some(o), Some(n)) => Some((o, n)),
        (_, new_name) => match (sheet, new_name) {
            (Some(s), Some(n)) => Some((s, n)),
            _ => None,
        },
    }
}

} // verus!
