//! Per-phase measurement records: allocation counting around a phase and the
//! engine figures reported with it.

pub mod dhat;

use vstd::prelude::*;
use crate::instrumentation::dhat::{AllocationSnapshot, snapshot, delta, spec_opt_delta};
use crate::text::owned;

verus! {

/// Engine size figures attached to a phase report; each is absent when the
/// engine exposes no accessor for it.
#[derive(Clone, Copy, Debug, PartialEq, Eq, Structural)]
pub struct EngineIntrospection {
    pub arena_node_count: Option<u64>,
    pub arena_node_bytes: Option<u64>,
    pub graph_vertex_count: Option<u64>,
    pub graph_edge_count: Option<u64>,
    pub graph_name_count: Option<u64>,
    pub plane_span_count: Option<u64>,
    pub plane_template_count: Option<u64>,
    pub plane_active_span_cells: Option<u64>,
    pub computed_overlay_cells: Option<u64>,
    pub delta_overlay_cells: Option<u64>,
    pub fragments_emitted: Option<u64>,
}

/// The introspection with every figure absent.
pub open spec fn empty_introspection() -> EngineIntrospection {
    EngineIntrospection {
        arena_node_count: None,
        arena_node_bytes: None,
        graph_vertex_count: None,
        graph_edge_count: None,
        graph_name_count: None,
        plane_span_count: None,
        plane_template_count: None,
        plane_active_span_cells: None,
        computed_overlay_cells: None,
        delta_overlay_cells: None,
        fragments_emitted: None,
    }
}

impl Default for EngineIntrospection {
    fn default() -> (e: Self)
        ensures
            e == empty_introspection(),
    {
        EngineIntrospection {
            arena_node_count: None,
            arena_node_bytes: None,
            graph_vertex_count: None,
            graph_edge_count: None,
            graph_name_count: None,
            plane_span_count: None,
            plane_template_count: None,
            plane_active_span_cells: None,
            computed_overlay_cells: None,
            delta_overlay_cells: None,
            fragments_emitted: None,
        }
    }
}

/// Introspection built from the engine's public baseline statistics: the
/// formula AST node count stands for the arena node count, and only the
/// figures those statistics carry are present.
pub fn introspection_from_baseline(
    formula_ast_node_count: u64,
    graph_vertex_count: u64,
    graph_edge_count: u64,
    formula_plane_active_span_count: u64,
) -> (e: EngineIntrospection)
    ensures
        e == (EngineIntrospection {
            arena_node_count: Some(formula_ast_node_count),
            graph_vertex_count: Some(graph_vertex_count),
            graph_edge_count: Some(graph_edge_count),
            plane_span_count: Some(formula_plane_active_span_count),
            ..empty_introspection()
        }),
{
    EngineIntrospection {
        arena_node_count: Some(formula_ast_node_count),
        arena_node_bytes: None,
        graph_vertex_count: Some(graph_vertex_count),
        graph_edge_count: Some(graph_edge_count),
        graph_name_count: None,
        plane_span_count: Some(formula_plane_active_span_count),
        plane_template_count: None,
        plane_active_span_cells: None,
        computed_overlay_cells: None,
        delta_overlay_cells: None,
        fragments_emitted: None,
    }
}

/// Names of the figures that are always reported as absent.
pub open spec fn unreported_fields() -> Seq<Seq<char>> {
    seq![
        "arena_node_bytes"@,
        "graph_name_count"@,
        "plane_template_count"@,
        "plane_active_span_cells"@,
        "computed_overlay_cells"@,
        "delta_overlay_cells"@,
        "fragments_emitted"@,
    ]
}

/// The note explaining why a figure is reported as absent.
pub open spec fn unreported_note(field: Seq<char>) -> Seq<char> {
    field + ": no public/pub(crate) bench-core-accessible accessor exposed; reported as null"@
}

fn push_note(v: &mut Vec<String>, field: &str)
    ensures
        final(v)@.len() == old(v)@.len() + 1,
        forall|i: int| 0 <= i < old(v)@.len() ==> final(v)@[i] == old(v)@[i],
        final(v)@[old(v)@.len() as int]@ == unreported_note(field@),
{
    let mut cs = crate::text::chars_of(field);
    crate::text::push_str(&mut cs, ": no public/pub(crate) bench-core-accessible accessor exposed; reported as null");
    v.push(crate::text::string_of(&cs));
}

/// One note per figure that is always reported as absent, in field order.
pub fn introspection_notes() -> (v: Vec<String>)
    ensures
        v@.len() == unreported_fields().len(),
        forall|i: int| 0 <= i < v@.len() ==> #[trigger] v@[i]@ == unreported_note(unreported_fields()[i]),
{
    let mut v: Vec<String> = Vec::new();
    push_note(&mut v, "arena_node_bytes");
    push_note(&mut v, "graph_name_count");
    push_note(&mut v, "plane_template_count");
    push_note(&mut v, "plane_active_span_cells");
    push_note(&mut v, "computed_overlay_cells");
    push_note(&mut v, "delta_overlay_cells");
    push_note(&mut v, "fragments_emitted");
    v
}

/// Counts allocations from its start to its stop.
pub struct AllocationCounter {
    start: AllocationSnapshot,
}

impl AllocationCounter {
    /// The snapshot taken when counting started.
    pub closed spec fn started_at(&self) -> AllocationSnapshot {
        self.start
    }

    /// Starts counting from the current snapshot.
    pub fn start() -> (c: Self)
        ensures
            c.started_at().allocs_count is None,
            c.started_at().allocs_bytes is None,
            c.started_at().allocs_max_bytes is None,
    {
        AllocationCounter { start: snapshot() }
    }

    /// What was allocated since the start: the delta from the starting
    /// snapshot to the current one.
    pub fn stop(self) -> (d: AllocationSnapshot)
        ensures
            d.allocs_count == spec_opt_delta(self.started_at().allocs_count, None),
            d.allocs_bytes == spec_opt_delta(self.started_at().allocs_bytes, None),
            d.allocs_max_bytes is None,
    {
        delta(self.start, snapshot())
    }
}

/// Writes reports to disk (the writing itself is done by the program around
/// the library).
pub struct Reporter;

} // verus!
