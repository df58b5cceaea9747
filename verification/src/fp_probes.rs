//! The FormulaPlane probes: the structural row-op workload with its four
//! operations, the catalogue of workbook shapes compared with span
//! evaluation on and off, and the two-family cut-over workload.

use vstd::prelude::*;
use crate::edit_storm::{comma_pieces, split_commas};
use crate::parse::{trim, trim_range};
use crate::plan::{
    CellView, Piece, PlannedCell, WorkbookPlan, cells_view, flat, formula_cell, lemma_flat_next,
    names_view, num_cell, pieces_text, push_formula, push_num, push_pieces, sheet_names,
};
use crate::text::{chars_of, owned, slice_chars, string_of};

verus! {

/* ---------------------------- structural ops ---------------------------- */

/// First row of the span; row 1 holds the scalar `$F$1`.
pub const SPAN_START: u32 = 2;

/// Last row of a span of `rows` rows.
pub fn span_end(rows: u32) -> (r: u32)
    requires
        1 <= rows <= u32::MAX - 2,
    ensures
        r == rows + 1,
{
    SPAN_START + rows - 1
}

/// A structural operation of the probe.
#[derive(Clone, Copy, Debug, PartialEq, Eq, Structural)]
pub enum Op {
    InsertMid,
    InsertAbove,
    InsertBelow,
    DeleteMid,
}

/// Whether an operation inserts or deletes one row, and where.
#[derive(Clone, Copy, Debug, PartialEq, Eq, Structural)]
pub enum RowEdit {
    Insert { before: u32 },
    Delete { at: u32 },
}

pub open spec fn op_name(op: Op) -> Seq<char> {
    match op {
        Op::InsertMid => "insert_mid_span"@,
        Op::InsertAbove => "insert_above_span"@,
        Op::InsertBelow => "insert_below_span"@,
        Op::DeleteMid => "delete_mid_span"@,
    }
}

impl Op {
    /// The four operations in the order they are measured.
    pub fn all() -> (v: [Op; 4])
        ensures
            v@ == seq![Op::InsertMid, Op::InsertAbove, Op::InsertBelow, Op::DeleteMid],
    {
        let v = [Op::InsertMid, Op::InsertAbove, Op::InsertBelow, Op::DeleteMid];
        assert(v@ =~= seq![Op::InsertMid, Op::InsertAbove, Op::InsertBelow, Op::DeleteMid]);
        v
    }

    pub fn name(self) -> (s: &'static str)
        ensures
            s@ == op_name(self),
    {
        match self {
            Op::InsertMid => "insert_mid_span",
            Op::InsertAbove => "insert_above_span",
            Op::InsertBelow => "insert_below_span",
            Op::DeleteMid => "delete_mid_span",
        }
    }

    /// The row edit of this operation on a span of `rows` rows: one row
    /// inserted at the middle of the span, before its first row, or two rows
    /// past its last; or the middle row deleted.
    pub fn row_edit(self, rows: u32) -> (e: RowEdit)
        requires
            1 <= rows <= u32::MAX - 4,
        ensures
            e == (match self {
                Op::InsertMid => RowEdit::Insert { before: (2 + rows / 2) as u32 },
                Op::InsertAbove => RowEdit::Insert { before: 2 },
                Op::InsertBelow => RowEdit::Insert { before: (rows + 3) as u32 },
                Op::DeleteMid => RowEdit::Delete { at: (2 + rows / 2) as u32 },
            }),
    {
        let end = span_end(rows);
        match self {
            Op::InsertMid => RowEdit::Insert { before: SPAN_START + rows / 2 },
            Op::InsertAbove => RowEdit::Insert { before: SPAN_START },
            Op::InsertBelow => RowEdit::Insert { before: end + 2 },
            Op::DeleteMid => RowEdit::Delete { at: SPAN_START + rows / 2 },
        }
    }
}

/// Why the structural probe's options are refused.
#[derive(Clone, Copy, Debug, PartialEq, Eq, Structural)]
pub enum StructuralArgError {
    TooFewRows,
    NoRuns,
}

impl StructuralArgError {
    pub fn message(&self) -> (s: &'static str)
        ensures
            s@ == (match *self {
                StructuralArgError::TooFewRows => "--rows must be at least 10"@,
                StructuralArgError::NoRuns => "--runs must be at least 1"@,
            }),
    {
        match self {
            StructuralArgError::TooFewRows => "--rows must be at least 10",
            StructuralArgError::NoRuns => "--runs must be at least 1",
        }
    }
}

/// The probe needs at least ten rows and one run.
pub fn validate_structural(rows: u32, runs: u32) -> (r: Result<(), StructuralArgError>)
    ensures
        r == (if rows < 10 {
            Err::<(), StructuralArgError>(StructuralArgError::TooFewRows)
        } else if runs == 0 {
            Err::<(), StructuralArgError>(StructuralArgError::NoRuns)
        } else {
            Ok(())
        }),
{
    if rows < 10 {
        Err(StructuralArgError::TooFewRows)
    } else if runs == 0 {
        Err(StructuralArgError::NoRuns)
    } else {
        Ok(())
    }
}

/// Span row `i` (row `r = i + 2`): inputs `A{r} = r`, `B{r} = 2r`.
pub open spec fn span_input_step() -> spec_fn(nat) -> Seq<CellView> {
    |i: nat| seq![num_cell(0, i + 2, 1, (i + 2) as int), num_cell(0, i + 2, 2, (2 * (i + 2)) as int)]
}

/// Span row `i`: the family formula `C{r} = A{r} * B{r} * $F$1`.
pub open spec fn span_formula_step() -> spec_fn(nat) -> Seq<CellView> {
    |i: nat| seq![formula_cell(0, i + 2, 3, pieces_text(seq![
        Piece::Lit("=A"), Piece::Num((i + 2) as u64), Piece::Lit("*B"), Piece::Num((i + 2) as u64), Piece::Lit("*$F$1")]))]
}

/// The structural workbook: `F1 = 3`, the span inputs, the span formulas
/// and a tail `E1 = SUM(C2:C{end})`.
pub open spec fn structural_cells(rows: nat) -> Seq<CellView> {
    seq![num_cell(0, 1, 6, 3)] + flat(rows, span_input_step()) + flat(rows, span_formula_step())
        + seq![formula_cell(0, 1, 5, pieces_text(seq![Piece::Lit("=SUM(C2:C"), Piece::Num((rows + 1) as u64), Piece::Lit(")")]))]
}

/// Plans the structural workbook of a span of `rows` rows.
pub fn structural_plan(rows: u32) -> (p: WorkbookPlan)
    requires
        1 <= rows,
        2 * (rows + 1) <= u32::MAX,
    ensures
        names_view(p.sheets@) == seq!["Sheet1"@],
        cells_view(p.cells@) == structural_cells(rows as nat),
{
    let sheets = sheet_names(vec!["Sheet1"]);
    let mut cells: Vec<PlannedCell> = Vec::new();
    push_num(&mut cells, 0, 1, 6, 3);
    let ghost a = cells_view(cells@);
    assert(cells_view(cells@) =~= a + flat(0, span_input_step()));
    let mut i: u32 = 0;
    while i < rows
        invariant
            0 <= i <= rows,
            2 * (rows + 1) <= u32::MAX,
            cells_view(cells@) == a + flat(i as nat, span_input_step()),
        decreases rows - i,
    {
        let r = i + 2;
        push_num(&mut cells, 0, r, 1, r as i64);
        push_num(&mut cells, 0, r, 2, (r * 2) as i64);
        proof {
            lemma_flat_next(i as nat, span_input_step());
            assert(cells_view(cells@) =~= a + flat((i + 1) as nat, span_input_step()));
        }
        i = i + 1;
    }
    let ghost b = cells_view(cells@);
    assert(cells_view(cells@) =~= b + flat(0, span_formula_step()));
    i = 0;
    while i < rows
        invariant
            0 <= i <= rows,
            2 * (rows + 1) <= u32::MAX,
            cells_view(cells@) == b + flat(i as nat, span_formula_step()),
        decreases rows - i,
    {
        let r = i + 2;
        push_pieces(&mut cells, 0, r, 3, vec![Piece::Lit("=A"), Piece::Num(r as u64), Piece::Lit("*B"), Piece::Num(r as u64), Piece::Lit("*$F$1")]);
        proof {
            lemma_flat_next(i as nat, span_formula_step());
            assert(cells_view(cells@) =~= b + flat((i + 1) as nat, span_formula_step()));
        }
        i = i + 1;
    }
    push_pieces(&mut cells, 0, 1, 5, vec![Piece::Lit("=SUM(C2:C"), Piece::Num(span_end(rows) as u64), Piece::Lit(")")]);
    assert(cells_view(cells@) =~= structural_cells(rows as nat));
    WorkbookPlan { sheets, cells }
}

/* ---------------------------- workbook shapes ---------------------------- */

/// The workbook shapes compared with span evaluation off and on.
#[derive(Clone, Copy, Debug, PartialEq, Eq, Structural)]
pub enum FpShape {
    TwoTrivialFamilies,
    SingleTrivialFamily,
    FixedAnchorFamily,
    FiveFamilies,
    HeavyArithFamily,
    AllUniqueSingletons,
    LongChainFamily,
    RectFamily10Cols,
    TwoAnchoredFamilies,
}

pub open spec fn shape_name(s: FpShape) -> Seq<char> {
    match s {
        FpShape::TwoTrivialFamilies => "two-trivial-families"@,
        FpShape::SingleTrivialFamily => "single-trivial-family"@,
        FpShape::FixedAnchorFamily => "fixed-anchor-family"@,
        FpShape::FiveFamilies => "five-families"@,
        FpShape::HeavyArithFamily => "heavy-arith-family"@,
        FpShape::AllUniqueSingletons => "all-unique-singletons"@,
        FpShape::LongChainFamily => "long-chain-family"@,
        FpShape::RectFamily10Cols => "rect-family-10cols"@,
        FpShape::TwoAnchoredFamilies => "two-anchored-families"@,
    }
}

/// Formulas per row of a shape.
pub open spec fn formulas_per_row(s: FpShape) -> nat {
    match s {
        FpShape::TwoTrivialFamilies => 2,
        FpShape::FiveFamilies => 5,
        FpShape::RectFamily10Cols => 10,
        FpShape::TwoAnchoredFamilies => 2,
        _ => 1,
    }
}

pub open spec fn all_shapes() -> Seq<FpShape> {
    seq![FpShape::TwoTrivialFamilies, FpShape::SingleTrivialFamily, FpShape::FixedAnchorFamily, FpShape::FiveFamilies,
        FpShape::HeavyArithFamily, FpShape::AllUniqueSingletons, FpShape::LongChainFamily, FpShape::RectFamily10Cols,
        FpShape::TwoAnchoredFamilies]
}

/// `=A{r}` followed by a literal tail.
pub open spec fn a_then(r: nat, tail: &'static str) -> Seq<char> {
    pieces_text(seq![Piece::Lit("=A"), Piece::Num(r as u64), Piece::Lit(tail)])
}

/// The structurally unique formula of row `r`: the operator and constant
/// vary with `r mod 4`.
pub open spec fn unique_formula(r: nat) -> Seq<char> {
    let n = Piece::Num(r as u64);
    if r % 4 == 0 {
        pieces_text(seq![Piece::Lit("=A"), n, Piece::Lit("+"), n])
    } else if r % 4 == 1 {
        pieces_text(seq![Piece::Lit("=A"), n, Piece::Lit("*"), n])
    } else if r % 4 == 2 {
        pieces_text(seq![Piece::Lit("=A"), n, Piece::Lit("-"), n])
    } else {
        pieces_text(seq![Piece::Lit("=A"), n, Piece::Lit("/("), n, Piece::Lit("+1)")])
    }
}

/// Row `i` (row `r = i + 1`) of a shape; rows that hold inputs hold
/// `A{r} = r`.
pub open spec fn shape_row(s: FpShape) -> spec_fn(nat) -> Seq<CellView> {
    |i: nat| {
        let r = i + 1;
        let a = num_cell(0, r, 1, r as int);
        match s {
            FpShape::TwoTrivialFamilies => seq![a, formula_cell(0, r, 2, a_then(r, "+1")),
                formula_cell(0, r, 3, pieces_text(seq![Piece::Lit("=B"), Piece::Num(r as u64), Piece::Lit("*2")]))],
            FpShape::SingleTrivialFamily => seq![a, formula_cell(0, r, 2, a_then(r, "+1"))],
            FpShape::FixedAnchorFamily => seq![formula_cell(0, r, 2, "=$A$1+1"@)],
            FpShape::FiveFamilies => seq![a, formula_cell(0, r, 2, a_then(r, "+1")), formula_cell(0, r, 3, a_then(r, "*2")),
                formula_cell(0, r, 4, a_then(r, "-1")), formula_cell(0, r, 5, a_then(r, "/2")),
                formula_cell(0, r, 6, pieces_text(seq![Piece::Lit("=A"), Piece::Num(r as u64), Piece::Lit("+A"), Piece::Num(r as u64)]))],
            FpShape::HeavyArithFamily => seq![a, formula_cell(0, r, 2, pieces_text(seq![
                Piece::Lit("=A"), Piece::Num(r as u64), Piece::Lit("+A"), Piece::Num(r as u64), Piece::Lit("*2-A"), Piece::Num(r as u64),
                Piece::Lit("/3+A"), Piece::Num(r as u64), Piece::Lit("*A"), Piece::Num(r as u64)]))],
            FpShape::AllUniqueSingletons => seq![a, formula_cell(0, r, 2, unique_formula(r))],
            FpShape::LongChainFamily => seq![a],
            FpShape::RectFamily10Cols => Seq::new(10, |k: int| formula_cell(0, r, (k + 2) as nat,
                pieces_text(seq![Piece::Lit("=$A$1+"), Piece::Num((k + 2) as u64)]))),
            FpShape::TwoAnchoredFamilies => seq![formula_cell(0, r, 2, "=$A$1+1"@), formula_cell(0, r, 3, "=$A$1*2"@)],
        }
    }
}

/// Chain row `i` (row `r = i + 2`): `B{r} = B{r-1} + A{r}`.
pub open spec fn chain_link() -> spec_fn(nat) -> Seq<CellView> {
    |i: nat| seq![formula_cell(0, i + 2, 2, pieces_text(seq![Piece::Lit("=B"), Piece::Num((i + 1) as u64), Piece::Lit("+A"), Piece::Num((i + 2) as u64)]))]
}

/// All writes of a shape over `rows` rows.
pub open spec fn shape_cells(s: FpShape, rows: nat) -> Seq<CellView> {
    match s {
        FpShape::FixedAnchorFamily => seq![num_cell(0, 1, 1, 42)] + flat(rows, shape_row(s)),
        FpShape::RectFamily10Cols => seq![num_cell(0, 1, 1, 1)] + flat(rows, shape_row(s)),
        FpShape::TwoAnchoredFamilies => seq![num_cell(0, 1, 1, 1)] + flat(rows, shape_row(s)),
        FpShape::LongChainFamily => flat(rows, shape_row(s)) + seq![formula_cell(0, 1, 2, "=A1"@)]
            + flat(if rows >= 2 { (rows - 1) as nat } else { 0 }, chain_link()),
        _ => flat(rows, shape_row(s)),
    }
}

/// One-line description of a shape.
pub open spec fn shape_description(shape: FpShape) -> Seq<char> {
    match shape {
        FpShape::TwoTrivialFamilies => "B=A+1 anchored, C=B*2 anchored. The original probe."@,
        FpShape::SingleTrivialFamily => "Single family B=A+1. Tightest FP best case."@,
        FpShape::FixedAnchorFamily => "B=$A$1+1 over N rows. Same anchor, identical template."@,
        FpShape::FiveFamilies => "Five offset families: B=A+1, C=A*2, D=A-1, E=A/2, F=A+A."@,
        FpShape::HeavyArithFamily => "B=A+A*2-A/3+A*A. Heavier per-cell arithmetic."@,
        FpShape::AllUniqueSingletons => "Every formula is unique, e.g. =A1+1, =A2*2, =A3-3 ... no families. Pure legacy path under FP."@,
        FpShape::LongChainFamily => "Sequential dependency: B1=A1, B2=B1+A2, B3=B2+A3 ... internal-dep family. Likely fallback."@,
        FpShape::RectFamily10Cols => "Rect family across 10 columns \u{d7} N rows: =$A$1+col_offset (anchored)."@,
        FpShape::TwoAnchoredFamilies => "B=$A$1+1, C=$A$1*2 over N rows. Anchored, two spans."@,
    }
}

impl FpShape {
    /// The shapes in the order they are run.
    pub fn all() -> (v: Vec<FpShape>)
        ensures
            v@ == all_shapes(),
    {
        let v = vec![FpShape::TwoTrivialFamilies, FpShape::SingleTrivialFamily, FpShape::FixedAnchorFamily, FpShape::FiveFamilies,
            FpShape::HeavyArithFamily, FpShape::AllUniqueSingletons, FpShape::LongChainFamily, FpShape::RectFamily10Cols,
            FpShape::TwoAnchoredFamilies];
        assert(v@ =~= all_shapes());
        v
    }

    pub fn name(self) -> (s: &'static str)
        ensures
            s@ == shape_name(self),
    {
        match self {
            FpShape::TwoTrivialFamilies => "two-trivial-families",
            FpShape::SingleTrivialFamily => "single-trivial-family",
            FpShape::FixedAnchorFamily => "fixed-anchor-family",
            FpShape::FiveFamilies => "five-families",
            FpShape::HeavyArithFamily => "heavy-arith-family",
            FpShape::AllUniqueSingletons => "all-unique-singletons",
            FpShape::LongChainFamily => "long-chain-family",
            FpShape::RectFamily10Cols => "rect-family-10cols",
            FpShape::TwoAnchoredFamilies => "two-anchored-families",
        }
    }

    /// One-line description printed before the shape runs.
    pub fn description(self) -> (s: &'static str)
        ensures
            s@ == shape_description(self),
    {
        match self {
            FpShape::TwoTrivialFamilies => "B=A+1 anchored, C=B*2 anchored. The original probe.",
            FpShape::SingleTrivialFamily => "Single family B=A+1. Tightest FP best case.",
            FpShape::FixedAnchorFamily => "B=$A$1+1 over N rows. Same anchor, identical template.",
            FpShape::FiveFamilies => "Five offset families: B=A+1, C=A*2, D=A-1, E=A/2, F=A+A.",
            FpShape::HeavyArithFamily => "B=A+A*2-A/3+A*A. Heavier per-cell arithmetic.",
            FpShape::AllUniqueSingletons => "Every formula is unique, e.g. =A1+1, =A2*2, =A3-3 ... no families. Pure legacy path under FP.",
            FpShape::LongChainFamily => "Sequential dependency: B1=A1, B2=B1+A2, B3=B2+A3 ... internal-dep family. Likely fallback.",
            FpShape::RectFamily10Cols => "Rect family across 10 columns \u{d7} N rows: =$A$1+col_offset (anchored).",
            FpShape::TwoAnchoredFamilies => "B=$A$1+1, C=$A$1*2 over N rows. Anchored, two spans.",
        }
    }

    /// Formulas of the shape over `rows` rows.
    pub fn formula_count(self, rows: u32) -> (n: u32)
        requires
            rows * formulas_per_row(self) <= u32::MAX,
        ensures
            n == rows * formulas_per_row(self),
    {
        match self {
            FpShape::TwoTrivialFamilies => rows * 2,
            FpShape::FiveFamilies => rows * 5,
            FpShape::RectFamily10Cols => rows * 10,
            FpShape::TwoAnchoredFamilies => rows * 2,
            _ => rows,
        }
    }

    /// Plans the shape's workbook over `rows` rows.
    pub fn plan(self, rows: u32) -> (p: WorkbookPlan)
        requires
            rows < u32::MAX,
        ensures
            names_view(p.sheets@) == seq!["Sheet1"@],
            cells_view(p.cells@) == shape_cells(self, rows as nat),
    {
        let sheets = sheet_names(vec!["Sheet1"]);
        let mut cells: Vec<PlannedCell> = Vec::new();
        match self {
            FpShape::FixedAnchorFamily => push_num(&mut cells, 0, 1, 1, 42),
            FpShape::RectFamily10Cols => push_num(&mut cells, 0, 1, 1, 1),
            FpShape::TwoAnchoredFamilies => push_num(&mut cells, 0, 1, 1, 1),
            _ => {},
        }
        let ghost head = cells_view(cells@);
        assert(cells_view(cells@) =~= head + flat(0, shape_row(self)));
        let mut i: u32 = 0;
        while i < rows
            invariant
                0 <= i <= rows,
                rows < u32::MAX,
                cells_view(cells@) == head + flat(i as nat, shape_row(self)),
            decreases rows - i,
        {
            push_shape_row(&mut cells, self, i + 1);
            proof {
                lemma_flat_next(i as nat, shape_row(self));
                assert(cells_view(cells@) =~= head + flat((i + 1) as nat, shape_row(self)));
            }
            i = i + 1;
        }
        if self == FpShape::LongChainFamily {
            push_formula(&mut cells, 0, 1, 2, owned("=A1"));
            let ghost with_head = cells_view(cells@);
            let n: u32 = if rows >= 2 { rows - 1 } else { 0 };
            assert(cells_view(cells@) =~= with_head + flat(0, chain_link()));
            let mut j: u32 = 0;
            while j < n
                invariant
                    0 <= j <= n,
                    n < u32::MAX,
                    cells_view(cells@) == with_head + flat(j as nat, chain_link()),
                decreases n - j,
            {
                push_pieces(&mut cells, 0, j + 2, 2, vec![Piece::Lit("=B"), Piece::Num((j + 1) as u64), Piece::Lit("+A"), Piece::Num((j + 2) as u64)]);
                proof {
                    lemma_flat_next(j as nat, chain_link());
                    assert(cells_view(cells@) =~= with_head + flat((j + 1) as nat, chain_link()));
                }
                j = j + 1;
            }
            assert(cells_view(cells@) =~= shape_cells(self, rows as nat));
        } else {
            assert(cells_view(cells@) =~= shape_cells(self, rows as nat));
        }
        WorkbookPlan { sheets, cells }
    }
}

fn push_a_then(cells: &mut Vec<PlannedCell>, r: u32, col: u32, tail: &'static str)
    ensures
        cells_view(final(cells)@) == cells_view(old(cells)@).push(formula_cell(0, r as nat, col as nat, a_then(r as nat, tail))),
{
    push_pieces(cells, 0, r, col, vec![Piece::Lit("=A"), Piece::Num(r as u64), Piece::Lit(tail)]);
}

fn push_shape_row(cells: &mut Vec<PlannedCell>, s: FpShape, r: u32)
    requires
        1 <= r,
    ensures
        cells_view(final(cells)@) == cells_view(old(cells)@) + shape_row(s)((r - 1) as nat),
{
    let ghost o = cells_view(cells@);
    let n = r as u64;
    match s {
        FpShape::TwoTrivialFamilies => {
            push_num(cells, 0, r, 1, r as i64);
            push_a_then(cells, r, 2, "+1");
            push_pieces(cells, 0, r, 3, vec![Piece::Lit("=B"), Piece::Num(n), Piece::Lit("*2")]);
        },
        FpShape::SingleTrivialFamily => {
            push_num(cells, 0, r, 1, r as i64);
            push_a_then(cells, r, 2, "+1");
        },
        FpShape::FixedAnchorFamily => {
            push_formula(cells, 0, r, 2, owned("=$A$1+1"));
        },
        FpShape::FiveFamilies => {
            push_num(cells, 0, r, 1, r as i64);
            push_a_then(cells, r, 2, "+1");
            push_a_then(cells, r, 3, "*2");
            push_a_then(cells, r, 4, "-1");
            push_a_then(cells, r, 5, "/2");
            push_pieces(cells, 0, r, 6, vec![Piece::Lit("=A"), Piece::Num(n), Piece::Lit("+A"), Piece::Num(n)]);
        },
        FpShape::HeavyArithFamily => {
            push_num(cells, 0, r, 1, r as i64);
            push_pieces(cells, 0, r, 2, vec![Piece::Lit("=A"), Piece::Num(n), Piece::Lit("+A"), Piece::Num(n), Piece::Lit("*2-A"), Piece::Num(n),
                Piece::Lit("/3+A"), Piece::Num(n), Piece::Lit("*A"), Piece::Num(n)]);
        },
        FpShape::AllUniqueSingletons => {
            push_num(cells, 0, r, 1, r as i64);
            if r % 4 == 0 {
                push_pieces(cells, 0, r, 2, vec![Piece::Lit("=A"), Piece::Num(n), Piece::Lit("+"), Piece::Num(n)]);
            } else if r % 4 == 1 {
                push_pieces(cells, 0, r, 2, vec![Piece::Lit("=A"), Piece::Num(n), Piece::Lit("*"), Piece::Num(n)]);
            } else if r % 4 == 2 {
                push_pieces(cells, 0, r, 2, vec![Piece::Lit("=A"), Piece::Num(n), Piece::Lit("-"), Piece::Num(n)]);
            } else {
                push_pieces(cells, 0, r, 2, vec![Piece::Lit("=A"), Piece::Num(n), Piece::Lit("/("), Piece::Num(n), Piece::Lit("+1)")]);
            }
        },
        FpShape::LongChainFamily => {
            push_num(cells, 0, r, 1, r as i64);
        },
        FpShape::RectFamily10Cols => {
            let mut c: u32 = 2;
            while c <= 11
                invariant
                    2 <= c <= 12,
                    cells_view(cells@) == o + Seq::new((c - 2) as nat, |k: int| formula_cell(0, r as nat, (k + 2) as nat,
                        pieces_text(seq![Piece::Lit("=$A$1+"), Piece::Num((k + 2) as u64)]))),
                decreases 12 - c,
            {
                push_pieces(cells, 0, r, c, vec![Piece::Lit("=$A$1+"), Piece::Num(c as u64)]);
                c = c + 1;
                assert(cells_view(cells@) =~= o + Seq::new((c - 2) as nat, |k: int| formula_cell(0, r as nat, (k + 2) as nat,
                    pieces_text(seq![Piece::Lit("=$A$1+"), Piece::Num((k + 2) as u64)]))));
            }
        },
        FpShape::TwoAnchoredFamilies => {
            push_formula(cells, 0, r, 2, owned("=$A$1+1"));
            push_formula(cells, 0, r, 3, owned("=$A$1*2"));
        },
    }
    assert(cells_view(cells@) =~= o + shape_row(s)((r - 1) as nat));
}

/// The names of `--only`: none when it is blank, else every
/// comma-separated piece trimmed.
pub open spec fn spec_only_names(only: Seq<char>) -> Seq<Seq<char>> {
    if trim(only).len() == 0 { Seq::empty() } else { comma_pieces(only).map_values(|p: Seq<char>| trim(p)) }
}

pub fn only_names(only: &str) -> (v: Vec<String>)
    ensures
        v@.map_values(|s: String| s@) == spec_only_names(only@),
{
    let x = chars_of(only);
    let (a, b) = trim_range(&x, 0, x.len());
    assert(x@.subrange(0, x@.len() as int) =~= only@);
    let mut v: Vec<String> = Vec::new();
    if a == b {
        assert(v@.map_values(|s: String| s@) =~= spec_only_names(only@));
        return v;
    }
    let ranges = split_commas(&x);
    let ghost pieces = comma_pieces(only@);
    assert(comma_pieces(x@) == pieces);
    let mut i: usize = 0;
    assert(v@.map_values(|s: String| s@) =~= pieces.subrange(0, 0).map_values(|p: Seq<char>| trim(p)));
    while i < ranges.len()
        invariant
            0 <= i <= ranges@.len(),
            x@ == only@,
            pieces == comma_pieces(only@),
            ranges@.len() == pieces.len(),
            forall|j: int| #![trigger ranges@[j]] 0 <= j < ranges@.len() ==> ranges@[j].0 <= ranges@[j].1 <= x@.len()
                && x@.subrange(ranges@[j].0 as int, ranges@[j].1 as int) == pieces[j],
            v@.map_values(|s: String| s@) == pieces.subrange(0, i as int).map_values(|p: Seq<char>| trim(p)),
        decreases ranges.len() - i,
    {
        let (lo, hi) = ranges[i];
        let (c, d) = trim_range(&x, lo, hi);
        assert(x@.subrange(c as int, d as int) == trim(pieces[i as int]));
        let ghost before = v@;
        let t = string_of(&slice_chars(&x, c, d));
        v.push(t);
        assert(v@.map_values(|s: String| s@) =~= before.map_values(|s: String| s@).push(trim(pieces[i as int])));
        assert(pieces.subrange(0, i + 1).map_values(|p: Seq<char>| trim(p)) =~= pieces.subrange(0, i as int).map_values(|p: Seq<char>| trim(p)).push(trim(pieces[i as int])));
        i = i + 1;
    }
    assert(pieces.subrange(0, pieces.len() as int) =~= pieces);
    v
}

/// Whether a shape runs: every shape when no names are given, else the
/// named ones.
pub fn shape_selected(names: &Vec<String>, shape: FpShape) -> (r: bool)
    ensures
        r == (names@.len() == 0 || exists|i: int| 0 <= i < names@.len() && #[trigger] names@[i]@ == shape_name(shape)),
{
    if names.len() == 0 {
        return true;
    }
    let mut i: usize = 0;
    while i < names.len()
        invariant
            0 <= i <= names@.len(),
            forall|k: int| 0 <= k < i ==> #[trigger] names@[k]@ != shape_name(shape),
        decreases names.len() - i,
    {
        if crate::text::str_eq(names[i].as_str(), shape.name()) {
            return true;
        }
        i = i + 1;
    }
    false
}

/// The cells edited by the edit cycles: column A, rows `1 + (i mod rows)`.
pub fn edit_targets(edit_cycles: u32, rows: u32) -> (v: Vec<(u32, u32)>)
    requires
        edit_cycles > 0 ==> rows > 0,
    ensures
        v@.len() == edit_cycles,
        forall|i: int| 0 <= i < edit_cycles ==> #[trigger] v@[i] == ((1 + i % (rows as int)) as u32, 1u32),
{
    let mut v: Vec<(u32, u32)> = Vec::new();
    let mut i: u32 = 0;
    while i < edit_cycles
        invariant
            0 <= i <= edit_cycles,
            edit_cycles > 0 ==> rows > 0,
            v@.len() == i,
            forall|k: int| 0 <= k < i ==> #[trigger] v@[k] == ((1 + k % (rows as int)) as u32, 1u32),
        decreases edit_cycles - i,
    {
        v.push((1 + i % rows, 1));
        i = i + 1;
    }
    v
}

/// The cut-over probe edits column A of row `1 + (cycle mod rows)` to ten
/// times the row number.
pub fn radical_edit(cycle: u32, rows: u32) -> (r: (u32, u64))
    requires
        rows > 0,
    ensures
        r.0 == 1 + cycle % rows,
        r.1 == 10 * r.0,
{
    let row = 1 + cycle % rows;
    (row, 10 * row as u64)
}

/// The rows the cut-over probe samples: the middle and the last row, each
/// at least row 1.
pub fn radical_sample_rows(rows: u32) -> (r: (u32, u32))
    ensures
        r.0 == (if rows / 2 >= 1 { rows / 2 } else { 1 }),
        r.1 == (if rows >= 1 { rows } else { 1 }),
{
    let mid = if rows / 2 >= 1 { rows / 2 } else { 1 };
    let last = if rows >= 1 { rows } else { 1 };
    (mid, last)
}

} // verus!
