//! Workbook plans: the cells a generator writes, in writing order, as plain
//! values that a writer turns into a spreadsheet file. Later writes to the
//! same cell replace earlier ones, as they would in the written workbook.

use vstd::prelude::*;
use crate::text::{dec, dec_chars, push_chars, push_str, string_of};

verus! {

/// One piece of a rendered text: a literal or a decimal numeral.
#[derive(Clone, Copy, Debug)]
pub enum Piece {
    Lit(&'static str),
    Num(u64),
}

/// Text of one piece.
pub open spec fn piece_text(p: Piece) -> Seq<char> {
    match p {
        Piece::Lit(s) => s@,
        Piece::Num(n) => dec(n as nat),
    }
}

/// Text of pieces written one after another.
pub open spec fn pieces_text(ps: Seq<Piece>) -> Seq<char>
    decreases ps.len(),
{
    if ps.len() == 0 {
        Seq::empty()
    } else {
        pieces_text(ps.drop_last()) + piece_text(ps.last())
    }
}

/// Renders pieces into a string.
pub fn render(ps: Vec<Piece>) -> (s: String)
    ensures
        s@ == pieces_text(ps@),
{
    let mut out: Vec<char> = Vec::new();
    let mut i: usize = 0;
    while i < ps.len()
        invariant
            0 <= i <= ps@.len(),
            out@ == pieces_text(ps@.subrange(0, i as int)),
        decreases ps.len() - i,
    {
        assert(ps@.subrange(0, i + 1).drop_last() =~= ps@.subrange(0, i as int));
        match ps[i] {
            Piece::Lit(t) => push_str(&mut out, t),
            Piece::Num(n) => {
                let d = dec_chars(n);
                push_chars(&mut out, &d);
            },
        }
        i = i + 1;
    }
    assert(ps@.subrange(0, ps@.len() as int) =~= ps@);
    string_of(&out)
}

/// What a planned cell receives. A number is `units / 10^decimals`, so
/// decimal constants such as 0.24 are held exactly.
#[derive(Clone, Debug, PartialEq)]
pub enum CellContent {
    Number { units: i64, decimals: u32 },
    Text(String),
    Bool(bool),
    Formula(String),
}

/// Mathematical content of a planned cell.
pub enum ContentView {
    Number(int, nat),
    Text(Seq<char>),
    Bool(bool),
    Formula(Seq<char>),
}

pub open spec fn content_view(c: CellContent) -> ContentView {
    match c {
        CellContent::Number { units, decimals } => ContentView::Number(units as int, decimals as nat),
        CellContent::Text(s) => ContentView::Text(s@),
        CellContent::Bool(b) => ContentView::Bool(b),
        CellContent::Formula(s) => ContentView::Formula(s@),
    }
}

/// A cell write: the sheet (by its index in the plan's sheet list), the
/// 1-based row and column, and the content.
#[derive(Clone, Debug, PartialEq)]
pub struct PlannedCell {
    pub sheet: usize,
    pub row: u32,
    pub col: u32,
    pub content: CellContent,
}

pub struct CellView {
    pub sheet: nat,
    pub row: nat,
    pub col: nat,
    pub content: ContentView,
}

pub open spec fn cell_view(c: PlannedCell) -> CellView {
    CellView { sheet: c.sheet as nat, row: c.row as nat, col: c.col as nat, content: content_view(c.content) }
}

pub open spec fn cells_view(cs: Seq<PlannedCell>) -> Seq<CellView> {
    cs.map_values(|c: PlannedCell| cell_view(c))
}

/// A workbook to write: its sheet names in order (the first is the sheet a
/// new workbook starts with) and the cell writes in order.
#[derive(Clone, Debug)]
pub struct WorkbookPlan {
    pub sheets: Vec<String>,
    pub cells: Vec<PlannedCell>,
}

pub open spec fn num_cell(sheet: nat, row: nat, col: nat, n: int) -> CellView {
    CellView { sheet, row, col, content: ContentView::Number(n, 0) }
}

pub open spec fn dec_cell(sheet: nat, row: nat, col: nat, units: int, decimals: nat) -> CellView {
    CellView { sheet, row, col, content: ContentView::Number(units, decimals) }
}

pub open spec fn text_cell(sheet: nat, row: nat, col: nat, t: Seq<char>) -> CellView {
    CellView { sheet, row, col, content: ContentView::Text(t) }
}

pub open spec fn bool_cell(sheet: nat, row: nat, col: nat, b: bool) -> CellView {
    CellView { sheet, row, col, content: ContentView::Bool(b) }
}

pub open spec fn formula_cell(sheet: nat, row: nat, col: nat, f: Seq<char>) -> CellView {
    CellView { sheet, row, col, content: ContentView::Formula(f) }
}

/// `f(0) + f(1) + ... + f(n - 1)`: the writes of `n` rows of a block, one
/// row after another.
pub open spec fn flat(n: nat, f: spec_fn(nat) -> Seq<CellView>) -> Seq<CellView>
    decreases n,
{
    if n == 0 {
        Seq::empty()
    } else {
        flat((n - 1) as nat, f) + f((n - 1) as nat)
    }
}

/// Appends a cell write.
pub fn push_cell(cells: &mut Vec<PlannedCell>, sheet: usize, row: u32, col: u32, content: CellContent)
    ensures
        cells_view(final(cells)@) == cells_view(old(cells)@).push(
            CellView { sheet: sheet as nat, row: row as nat, col: col as nat, content: content_view(content) }),
{
    let ghost before = cells@;
    cells.push(PlannedCell { sheet, row, col, content });
    assert(cells_view(cells@) =~= cells_view(before).push(
        CellView { sheet: sheet as nat, row: row as nat, col: col as nat, content: content_view(content) }));
}

/// Appends a whole-number write.
pub fn push_num(cells: &mut Vec<PlannedCell>, sheet: usize, row: u32, col: u32, n: i64)
    ensures
        cells_view(final(cells)@) == cells_view(old(cells)@).push(num_cell(sheet as nat, row as nat, col as nat, n as int)),
{
    push_cell(cells, sheet, row, col, CellContent::Number { units: n, decimals: 0 });
}

/// Appends a decimal write of `units / 10^decimals`.
pub fn push_dec(cells: &mut Vec<PlannedCell>, sheet: usize, row: u32, col: u32, units: i64, decimals: u32)
    ensures
        cells_view(final(cells)@) == cells_view(old(cells)@).push(dec_cell(sheet as nat, row as nat, col as nat, units as int, decimals as nat)),
{
    push_cell(cells, sheet, row, col, CellContent::Number { units, decimals });
}

/// Appends a text write.
pub fn push_text(cells: &mut Vec<PlannedCell>, sheet: usize, row: u32, col: u32, t: String)
    ensures
        cells_view(final(cells)@) == cells_view(old(cells)@).push(text_cell(sheet as nat, row as nat, col as nat, t@)),
{
    push_cell(cells, sheet, row, col, CellContent::Text(t));
}

/// Appends a text write of a literal.
pub fn push_lit(cells: &mut Vec<PlannedCell>, sheet: usize, row: u32, col: u32, t: &str)
    ensures
        cells_view(final(cells)@) == cells_view(old(cells)@).push(text_cell(sheet as nat, row as nat, col as nat, t@)),
{
    push_cell(cells, sheet, row, col, CellContent::Text(crate::text::owned(t)));
}

/// Appends a boolean write.
pub fn push_bool(cells: &mut Vec<PlannedCell>, sheet: usize, row: u32, col: u32, b: bool)
    ensures
        cells_view(final(cells)@) == cells_view(old(cells)@).push(bool_cell(sheet as nat, row as nat, col as nat, b)),
{
    push_cell(cells, sheet, row, col, CellContent::Bool(b));
}

/// Appends a formula write.
pub fn push_formula(cells: &mut Vec<PlannedCell>, sheet: usize, row: u32, col: u32, f: String)
    ensures
        cells_view(final(cells)@) == cells_view(old(cells)@).push(formula_cell(sheet as nat, row as nat, col as nat, f@)),
{
    push_cell(cells, sheet, row, col, CellContent::Formula(f));
}

/// Appends a formula write rendered from pieces.
pub fn push_pieces(cells: &mut Vec<PlannedCell>, sheet: usize, row: u32, col: u32, ps: Vec<Piece>)
    ensures
        cells_view(final(cells)@) == cells_view(old(cells)@).push(formula_cell(sheet as nat, row as nat, col as nat, pieces_text(ps@))),
{
    let f = render(ps);
    push_formula(cells, sheet, row, col, f);
}

/// The texts of a list of names.
pub open spec fn names_view(v: Seq<String>) -> Seq<Seq<char>> {
    v.map_values(|s: String| s@)
}

/// Sheet names from literals, in order.
pub fn sheet_names(names: Vec<&'static str>) -> (v: Vec<String>)
    ensures
        names_view(v@) == names@.map_values(|s: &'static str| s@),
{
    let mut v: Vec<String> = Vec::new();
    let mut i: usize = 0;
    while i < names.len()
        invariant
            0 <= i <= names@.len(),
            v@.len() == i,
            forall|k: int| 0 <= k < i ==> #[trigger] v@[k]@ == names@[k]@,
        decreases names.len() - i,
    {
        v.push(crate::text::owned(names[i]));
        i = i + 1;
    }
    assert(names_view(v@) =~= names@.map_values(|s: &'static str| s@));
    v
}

/// A header row: `labels[j]` in column `j + 1`.
pub open spec fn header_cells(sheet: nat, row: nat, labels: Seq<Seq<char>>) -> Seq<CellView> {
    Seq::new(labels.len(), |j: int| text_cell(sheet, row, (j + 1) as nat, labels[j]))
}

/// Appends a header row of literal labels from column 1 on.
pub fn push_header(cells: &mut Vec<PlannedCell>, sheet: usize, row: u32, labels: Vec<&'static str>)
    requires
        labels@.len() < u32::MAX,
    ensures
        cells_view(final(cells)@) == cells_view(old(cells)@) + header_cells(sheet as nat, row as nat, labels@.map_values(|s: &'static str| s@)),
{
    let ghost start = cells_view(cells@);
    let ghost names = labels@.map_values(|s: &'static str| s@);
    let mut j: usize = 0;
    while j < labels.len()
        invariant
            0 <= j <= labels@.len(),
            labels@.len() < u32::MAX,
            names == labels@.map_values(|s: &'static str| s@),
            cells_view(cells@) == start + header_cells(sheet as nat, row as nat, names.subrange(0, j as int)),
        decreases labels.len() - j,
    {
        push_lit(cells, sheet, row, (j + 1) as u32, labels[j]);
        assert(header_cells(sheet as nat, row as nat, names.subrange(0, j + 1)) =~= header_cells(sheet as nat, row as nat, names.subrange(0, j as int)).push(text_cell(sheet as nat, row as nat, (j + 1) as nat, labels@[j as int]@)));
        j = j + 1;
    }
    assert(names.subrange(0, labels@.len() as int) =~= names);
}

/// A text of a literal and a numeral.
pub fn lit_num(a: &'static str, n: u64) -> (s: String)
    ensures
        s@ == pieces_text(seq![Piece::Lit(a), Piece::Num(n)]),
{
    render(vec![Piece::Lit(a), Piece::Num(n)])
}

/// Whether extending a block by one row appends that row's writes.
pub proof fn lemma_flat_next(n: nat, f: spec_fn(nat) -> Seq<CellView>)
    ensures
        flat(n + 1, f) == flat(n, f) + f(n),
{
}

/// A block whose rows all have `w` writes has `n * w` writes.
pub proof fn lemma_flat_len(n: nat, f: spec_fn(nat) -> Seq<CellView>, w: nat)
    requires
        forall|i: nat| i < n ==> #[trigger] f(i).len() == w,
    ensures
        flat(n, f).len() == n * w,
    decreases n,
{
    if n > 0 {
        lemma_flat_len((n - 1) as nat, f, w);
        assert(f((n - 1) as nat).len() == w);
        assert(n * w == (n - 1) * w + w) by (nonlinear_arith);
    } else {
        assert(n * w == 0) by (nonlinear_arith) requires n == 0;
    }
}

/// In a block whose rows all have `w` writes, write `j` of row `i` is at
/// position `i * w + j`.
pub proof fn lemma_flat_at(n: nat, f: spec_fn(nat) -> Seq<CellView>, w: nat, i: nat, j: nat)
    requires
        forall|k: nat| k < n ==> #[trigger] f(k).len() == w,
        i < n,
        j < w,
    ensures
        flat(n, f).len() == n * w,
        i * w + j < n * w,
        flat(n, f)[(i * w + j) as int] == f(i)[j as int],
    decreases n,
{
    lemma_flat_len(n, f, w);
    lemma_flat_len((n - 1) as nat, f, w);
    assert(n * w == (n - 1) * w + w) by (nonlinear_arith);
    if i + 1 == n {
        assert(i * w == (n - 1) * w);
    } else {
        lemma_flat_at((n - 1) as nat, f, w, i, j);
    }
}

/// A property of every write of every row holds of every write of the
/// block.
pub proof fn lemma_flat_all(n: nat, f: spec_fn(nat) -> Seq<CellView>, p: spec_fn(CellView) -> bool)
    requires
        forall|i: nat, j: int| i < n && 0 <= j < f(i).len() ==> p(#[trigger] f(i)[j]),
    ensures
        forall|k: int| 0 <= k < flat(n, f).len() ==> p(#[trigger] flat(n, f)[k]),
    decreases n,
{
    if n > 0 {
        lemma_flat_all((n - 1) as nat, f, p);
        let a = flat((n - 1) as nat, f);
        let b = f((n - 1) as nat);
        assert forall|k: int| 0 <= k < flat(n, f).len() implies p(#[trigger] flat(n, f)[k]) by {
            if k >= a.len() {
                assert(flat(n, f)[k] == b[k - a.len()]);
            } else {
                assert(flat(n, f)[k] == a[k]);
            }
        }
    }
}

/// A table over a block of one sheet: its name, the corner cells of its
/// range and its column headers.
#[derive(Clone, Debug)]
pub struct TablePlan {
    pub sheet: usize,
    pub name: String,
    pub first: String,
    pub last: String,
    pub columns: Vec<String>,
}

pub struct TableView {
    pub sheet: nat,
    pub name: Seq<char>,
    pub first: Seq<char>,
    pub last: Seq<char>,
    pub columns: Seq<Seq<char>>,
}

pub open spec fn table_view(t: TablePlan) -> TableView {
    TableView { sheet: t.sheet as nat, name: t.name@, first: t.first@, last: t.last@, columns: names_view(t.columns@) }
}

/// A table from literals.
pub fn table_plan(sheet: usize, name: &'static str, first: &'static str, last: &'static str, columns: Vec<&'static str>) -> (t: TablePlan)
    ensures
        table_view(t) == (TableView { sheet: sheet as nat, name: name@, first: first@, last: last@, columns: columns@.map_values(|s: &'static str| s@) }),
{
    TablePlan { sheet, name: crate::text::owned(name), first: crate::text::owned(first), last: crate::text::owned(last), columns: sheet_names(columns) }
}

} // verus!
