//! A rectangular cell reference with optional sheet and `$` anchors, and the
//! token record handed to script hosts.

use vstd::prelude::*;
use crate::a1::{col_letters, col_letters_vec};
use crate::text::{dec, dec_chars, push_chars, push_str, string_of};

verus! {

/// A cell or range reference: 1-based corners, each coordinate optionally
/// anchored with `$`.
#[derive(Clone, Debug)]
pub struct Reference {
    sheet: Option<String>,
    row_start: usize,
    col_start: usize,
    row_end: usize,
    col_end: usize,
    row_abs_start: bool,
    col_abs_start: bool,
    row_abs_end: bool,
    col_abs_end: bool,
}

/// `$` when anchored, nothing otherwise.
pub open spec fn anchor(abs: bool) -> Seq<char> {
    if abs {
        seq!['$']
    } else {
        Seq::empty()
    }
}

/// One corner written as `[$]letters[$]row`.
pub open spec fn corner_text(col_abs: bool, col: nat, row_abs: bool, row: nat) -> Seq<char> {
    anchor(col_abs) + col_letters(col) + anchor(row_abs) + dec(row)
}

impl Reference {
    pub closed spec fn spec_sheet(&self) -> Option<Seq<char>> {
        match self.sheet {
            Some(s) => Some(s@),
            None => None,
        }
    }

    pub closed spec fn spec_row_start(&self) -> nat {
        self.row_start as nat
    }

    pub closed spec fn spec_col_start(&self) -> nat {
        self.col_start as nat
    }

    pub closed spec fn spec_row_end(&self) -> nat {
        self.row_end as nat
    }

    pub closed spec fn spec_col_end(&self) -> nat {
        self.col_end as nat
    }

    pub closed spec fn spec_row_abs_start(&self) -> bool {
        self.row_abs_start
    }

    pub closed spec fn spec_col_abs_start(&self) -> bool {
        self.col_abs_start
    }

    pub closed spec fn spec_row_abs_end(&self) -> bool {
        self.row_abs_end
    }

    pub closed spec fn spec_col_abs_end(&self) -> bool {
        self.col_abs_end
    }

    /// Both corners coincide.
    pub open spec fn spec_is_single_cell(&self) -> bool {
        self.spec_row_start() == self.spec_row_end() && self.spec_col_start() == self.spec_col_end()
    }

    /// The reference as A1 text: `Sheet!` when there is a sheet, the start
    /// corner, and `:` with the end corner unless it is a single cell.
    pub open spec fn spec_text(&self) -> Seq<char> {
        let prefix = match self.spec_sheet() {
            Some(s) => s + seq!['!'],
            None => Seq::empty(),
        };
        let start = corner_text(self.spec_col_abs_start(), self.spec_col_start(), self.spec_row_abs_start(), self.spec_row_start());
        if self.spec_is_single_cell() {
            prefix + start
        } else {
            prefix + start + seq![':'] + corner_text(self.spec_col_abs_end(), self.spec_col_end(), self.spec_row_abs_end(), self.spec_row_end())
        }
    }

    pub fn new(
        sheet: Option<String>,
        row_start: usize,
        col_start: usize,
        row_end: usize,
        col_end: usize,
        row_abs_start: bool,
        col_abs_start: bool,
        row_abs_end: bool,
        col_abs_end: bool,
    ) -> (r: Reference)
        ensures
            r.spec_sheet() == (match sheet { Some(s) => Some(s@), None => None::<Seq<char>> }),
            r.spec_row_start() == row_start,
            r.spec_col_start() == col_start,
            r.spec_row_end() == row_end,
            r.spec_col_end() == col_end,
            r.spec_row_abs_start() == row_abs_start,
            r.spec_col_abs_start() == col_abs_start,
            r.spec_row_abs_end() == row_abs_end,
            r.spec_col_abs_end() == col_abs_end,
    {
        Reference {
            sheet,
            row_start,
            col_start,
            row_end,
            col_end,
            row_abs_start,
            col_abs_start,
            row_abs_end,
            col_abs_end,
        }
    }

    pub fn sheet(&self) -> (r: Option<String>)
        ensures
            (match r { Some(s) => Some(s@), None => None::<Seq<char>> }) == self.spec_sheet(),
    {
        match &self.sheet {
            Some(s) => Some(s.clone()),
            None => None,
        }
    }

    pub fn row_start(&self) -> (r: usize)
        ensures
            r == self.spec_row_start(),
    {
        self.row_start
    }

    pub fn col_start(&self) -> (r: usize)
        ensures
            r == self.spec_col_start(),
    {
        self.col_start
    }

    pub fn row_end(&self) -> (r: usize)
        ensures
            r == self.spec_row_end(),
    {
        self.row_end
    }

    pub fn col_end(&self) -> (r: usize)
        ensures
            r == self.spec_col_end(),
    {
        self.col_end
    }

    pub fn row_abs_start(&self) -> (r: bool)
        ensures
            r == self.spec_row_abs_start(),
    {
        self.row_abs_start
    }

    pub fn col_abs_start(&self) -> (r: bool)
        ensures
            r == self.spec_col_abs_start(),
    {
        self.col_abs_start
    }

    pub fn row_abs_end(&self) -> (r: bool)
        ensures
            r == self.spec_row_abs_end(),
    {
        self.row_abs_end
    }

    pub fn col_abs_end(&self) -> (r: bool)
        ensures
            r == self.spec_col_abs_end(),
    {
        self.col_abs_end
    }

    /// Both corners are the same cell.
    pub fn is_single_cell(&self) -> (r: bool)
        ensures
            r == self.spec_is_single_cell(),
    {
        self.row_start == self.row_end && self.col_start == self.col_end
    }

    /// The corners differ.
    pub fn is_range(&self) -> (r: bool)
        ensures
            r == !self.spec_is_single_cell(),
    {
        !self.is_single_cell()
    }

    /// Column letters of a 1-based column.
    pub fn col_to_letters(col: usize) -> (s: String)
        requires
            col >= 1,
        ensures
            s@ == col_letters(col as nat),
    {
        let v = col_letters_vec(col as u64);
        string_of(&v)
    }

    /// One corner as `[$]letters[$]row`.
    fn corner(col_abs: bool, col: usize, row_abs: bool, row: usize) -> (v: Vec<char>)
        requires
            col >= 1,
        ensures
            v@ == corner_text(col_abs, col as nat, row_abs, row as nat),
    {
        let mut v: Vec<char> = Vec::new();
        if col_abs {
            push_str(&mut v, "$");
        }
        let letters = col_letters_vec(col as u64);
        push_chars(&mut v, &letters);
        if row_abs {
            push_str(&mut v, "$");
        }
        let digits = dec_chars(row as u64);
        push_chars(&mut v, &digits);
        proof {
            reveal_strlit("$");
        }
        assert(v@ =~= corner_text(col_abs, col as nat, row_abs, row as nat));
        v
    }

    /// The reference in A1 notation, e.g. `Sheet1!$A$1:B10`.
    pub fn to_string(&self) -> (s: String)
        requires
            self.spec_col_start() >= 1,
            self.spec_col_end() >= 1,
        ensures
            s@ == self.spec_text(),
    {
        let mut v: Vec<char> = Vec::new();
        match &self.sheet {
            Some(name) => {
                push_str(&mut v, name.as_str());
                push_str(&mut v, "!");
            },
            None => {},
        }
        proof {
            reveal_strlit("!");
            reveal_strlit(":");
        }
        let ghost prefix = v@;
        let start = Self::corner(self.col_abs_start, self.col_start, self.row_abs_start, self.row_start);
        let end = Self::corner(self.col_abs_end, self.col_end, self.row_abs_end, self.row_end);
        push_chars(&mut v, &start);
        if !self.is_single_cell() {
            push_str(&mut v, ":");
            push_chars(&mut v, &end);
        }
        assert(v@ =~= self.spec_text());
        string_of(&v)
    }
}

} // verus!
