//! A1-style cell reference text: column letters, decimal row numbers and
//! parsing of `Sheet!A1` references.

use vstd::prelude::*;
use crate::text::{chars_of, string_of, push_str, digits_value, is_digit, dec, digit_char};

verus! {

/// Bijective base-26 column letters of a 1-based column index
/// (1 -> "A", 26 -> "Z", 27 -> "AA"); column 0 has no letters.
pub open spec fn col_letters(col: nat) -> Seq<char>
    decreases col,
{
    if col == 0 {
        Seq::empty()
    } else {
        col_letters(((col - 1) / 26) as nat).push(letter(((col - 1) % 26) as nat))
    }
}

/// The capital letter with the given 0-based alphabet index.
pub open spec fn letter(i: nat) -> char {
    (('A' as nat) + i) as char
}

pub open spec fn is_upper(c: char) -> bool {
    'A' <= c && c <= 'Z'
}

pub open spec fn is_lower(c: char) -> bool {
    'a' <= c && c <= 'z'
}

pub open spec fn is_alpha(c: char) -> bool {
    is_upper(c) || is_lower(c)
}

/// 1-based alphabet position of an ASCII letter, either case.
pub open spec fn letter_num(c: char) -> nat {
    if is_lower(c) {
        ((c as nat) - ('a' as nat) + 1) as nat
    } else {
        ((c as nat) - ('A' as nat) + 1) as nat
    }
}

/// Column number spelled by the ASCII letters of `s`, read left to right in
/// base 26; every other character is skipped.
pub open spec fn letters_value(s: Seq<char>) -> nat
    decreases s.len(),
{
    if s.len() == 0 {
        0
    } else if is_alpha(s.last()) {
        letters_value(s.drop_last()) * 26 + letter_num(s.last())
    } else {
        letters_value(s.drop_last())
    }
}

/// The ASCII digits of `s`, in order.
pub open spec fn digits_of(s: Seq<char>) -> Seq<char>
    decreases s.len(),
{
    if s.len() == 0 {
        Seq::empty()
    } else if is_digit(s.last()) {
        digits_of(s.drop_last()).push(s.last())
    } else {
        digits_of(s.drop_last())
    }
}

/// Index of the first `c` in `s`, if any.
pub open spec fn first_index_of(s: Seq<char>, c: char) -> Option<int>
    decreases s.len(),
{
    if s.len() == 0 {
        None
    } else if s[0] == c {
        Some(0)
    } else {
        match first_index_of(s.drop_first(), c) {
            Some(i) => Some(i + 1),
            None => None,
        }
    }
}

/// Why a cell reference was refused; each variant carries the reference.
#[derive(Clone, Debug, PartialEq, Eq)]
pub enum CellRefError {
    /// The digits do not form a row number that fits in 32 bits (or there are none).
    InvalidRow(String),
    /// The row or the column is zero.
    InvalidRef(String),
}

/// The kinds of refusal, for contracts.
pub enum CellRefErrorKind {
    InvalidRow,
    InvalidRef,
}

/// The sheet part of a reference: text before the first `!`, else "Sheet1".
pub open spec fn ref_sheet(s: Seq<char>) -> Seq<char> {
    match first_index_of(s, '!') {
        Some(i) => s.subrange(0, i),
        None => "Sheet1"@,
    }
}

/// The cell part of a reference: text after the first `!`, else all of it.
pub open spec fn ref_cell(s: Seq<char>) -> Seq<char> {
    match first_index_of(s, '!') {
        Some(i) => s.subrange(i + 1, s.len() as int),
        None => s,
    }
}

/// What `parse_cell_ref` gives for a reference: sheet, row and column, or
/// the kind of refusal.
pub open spec fn spec_parse_cell_ref(s: Seq<char>) -> Result<(Seq<char>, nat, nat), CellRefErrorKind> {
    let cell = ref_cell(s);
    let digits = digits_of(cell);
    let col = letters_value(cell);
    if digits.len() == 0 || digits_value(digits) > u32::MAX {
        Err(CellRefErrorKind::InvalidRow)
    } else if digits_value(digits) == 0 || col == 0 {
        Err(CellRefErrorKind::InvalidRef)
    } else {
        Ok((ref_sheet(s), digits_value(digits), col))
    }
}

/// Column letters computed into a vector of characters.
pub(crate) fn col_letters_vec(col: u64) -> (v: Vec<char>)
    ensures
        v@ == col_letters(col as nat),
    decreases col,
{
    if col == 0 {
        Vec::new()
    } else {
        let mut v = col_letters_vec((col - 1) / 26);
        let r: u8 = ((col - 1) % 26) as u8;
        let c = (65u8 + r) as char;
        assert(c == letter(((col - 1) % 26) as nat));
        v.push(c);
        v
    }
}

/// Spreadsheet column name of a 1-based column (empty for column 0).
pub fn col_name(col: u32) -> (s: String)
    ensures
        s@ == col_letters(col as nat),
{
    let v = col_letters_vec(col as u64);
    string_of(&v)
}

/// Spreadsheet column letters of a 1-based column (empty for column 0).
pub fn col_letter(col: u32) -> (s: String)
    ensures
        s@ == col_letters(col as nat),
{
    let v = col_letters_vec(col as u64);
    string_of(&v)
}

/// `letters_value` after one more character.
proof fn lemma_letters_value_push(s: Seq<char>, c: char)
    ensures
        letters_value(s.push(c)) == if is_alpha(c) {
            letters_value(s) * 26 + letter_num(c)
        } else {
            letters_value(s)
        },
{
    assert(s.push(c).drop_last() =~= s);
}

proof fn lemma_digits_of_push(s: Seq<char>, c: char)
    ensures
        digits_of(s.push(c)) == if is_digit(c) {
            digits_of(s).push(c)
        } else {
            digits_of(s)
        },
{
    assert(s.push(c).drop_last() =~= s);
}

pub(crate) proof fn lemma_digits_value_push(s: Seq<char>, c: char)
    ensures
        digits_value(s.push(c)) == digits_value(s) * 10 + ((c as nat) - ('0' as nat)) as nat,
{
    assert(s.push(c).drop_last() =~= s);
}

/// Unsigned 32-bit value of a decimal digit sequence, if it has a digit
/// and fits.
fn parse_row_digits(d: &Vec<char>) -> (r: Option<u32>)
    requires
        forall|i: int| 0 <= i < d@.len() ==> is_digit(#[trigger] d@[i]),
    ensures
        r is Some <==> (d@.len() > 0 && digits_value(d@) <= u32::MAX),
        r matches Some(v) ==> v as nat == digits_value(d@),
{
    if d.len() == 0 {
        return None;
    }
    let mut acc: u64 = 0;
    let mut i: usize = 0;
    while i < d.len()
        invariant
            0 <= i <= d@.len(),
            forall|j: int| 0 <= j < d@.len() ==> is_digit(#[trigger] d@[j]),
            acc as nat == digits_value(d@.subrange(0, i as int)),
            acc <= u32::MAX,
        decreases d.len() - i,
    {
        let c = d[i];
        let dv = (c as u32 - '0' as u32) as u64;
        proof {
            assert(d@.subrange(0, i + 1) =~= d@.subrange(0, i as int).push(c));
            lemma_digits_value_push(d@.subrange(0, i as int), c);
        }
        let next = acc * 10 + dv;
        if next > u32::MAX as u64 {
            proof {
                lemma_digits_value_prefix_mono(d@, i + 1);
            }
            return None;
        }
        acc = next;
        i = i + 1;
    }
    assert(d@.subrange(0, d@.len() as int) =~= d@);
    Some(acc as u32)
}

/// A digit sequence is worth at least as much as any of its prefixes.
pub(crate) proof fn lemma_digits_value_prefix_mono(s: Seq<char>, k: int)
    requires
        0 <= k <= s.len(),
    ensures
        digits_value(s.subrange(0, k)) <= digits_value(s),
    decreases s.len() - k,
{
    if k < s.len() {
        lemma_digits_value_prefix_mono(s, k + 1);
        assert(s.subrange(0, k + 1) =~= s.subrange(0, k).push(s[k]));
        lemma_digits_value_push(s.subrange(0, k), s[k]);
    } else {
        assert(s.subrange(0, k) =~= s);
    }
}

/// A letter sequence is worth at least as much as any of its prefixes.
proof fn lemma_letters_value_prefix_mono(s: Seq<char>, k: int)
    requires
        0 <= k <= s.len(),
    ensures
        letters_value(s.subrange(0, k)) <= letters_value(s),
    decreases s.len() - k,
{
    if k < s.len() {
        lemma_letters_value_prefix_mono(s, k + 1);
        assert(s.subrange(0, k + 1) =~= s.subrange(0, k).push(s[k]));
        lemma_letters_value_push(s.subrange(0, k), s[k]);
    } else {
        assert(s.subrange(0, k) =~= s);
    }
}

/// Position of the first `c` in `v`.
fn find_char(v: &Vec<char>, c: char) -> (r: Option<usize>)
    ensures
        r matches Some(i) ==> first_index_of(v@, c) == Some(i as int) && i < v@.len(),
        r is None ==> first_index_of(v@, c) is None,
{
    let mut i: usize = 0;
    while i < v.len()
        invariant
            0 <= i <= v@.len(),
            forall|j: int| 0 <= j < i ==> v@[j] != c,
        decreases v.len() - i,
    {
        if v[i] == c {
            proof {
                lemma_first_index_of_found(v@, c, i as int);
            }
            return Some(i);
        }
        i = i + 1;
    }
    proof {
        lemma_first_index_of_absent(v@, c);
    }
    None
}

/// `first_index_of` finds the earliest occurrence.
pub proof fn lemma_first_index_of_found(s: Seq<char>, c: char, i: int)
    requires
        0 <= i < s.len(),
        s[i] == c,
        forall|j: int| 0 <= j < i ==> s[j] != c,
    ensures
        first_index_of(s, c) == Some(i),
    decreases i,
{
    if i > 0 {
        lemma_first_index_of_found(s.drop_first(), c, i - 1);
    }
}

/// `first_index_of` finds nothing in a sequence without `c`.
pub proof fn lemma_first_index_of_absent(s: Seq<char>, c: char)
    requires
        forall|j: int| 0 <= j < s.len() ==> s[j] != c,
    ensures
        first_index_of(s, c) is None,
    decreases s.len(),
{
    if s.len() > 0 {
        lemma_first_index_of_absent(s.drop_first(), c);
    }
}

/// Splits `Sheet!A1` (or bare `A1`, on "Sheet1") into sheet, 1-based row and
/// 1-based column. Letters anywhere in the cell part make up the column,
/// digits anywhere make up the row; other characters are ignored.
pub fn parse_cell_ref(cell_ref: &str) -> (r: Result<(String, u32, u32), CellRefError>)
    requires
        letters_value(ref_cell(cell_ref@)) <= u32::MAX,
    ensures
        match (r, spec_parse_cell_ref(cell_ref@)) {
            (Ok((sheet, row, col)), Ok((s, rr, cc))) => sheet@ == s && row == rr && col == cc,
            (Err(CellRefError::InvalidRow(t)), Err(CellRefErrorKind::InvalidRow)) => t@ == cell_ref@,
            (Err(CellRefError::InvalidRef(t)), Err(CellRefErrorKind::InvalidRef)) => t@ == cell_ref@,
            _ => false,
        },
{
    let all = chars_of(cell_ref);
    let bang = find_char(&all, '!');
    let mut sheet: Vec<char> = Vec::new();
    let mut cell: Vec<char> = Vec::new();
    match bang {
        Some(p) => {
            let mut i: usize = 0;
            while i < p
                invariant
                    p < all@.len(),
                    0 <= i <= p,
                    sheet@ =~= all@.subrange(0, i as int),
                decreases p - i,
            {
                sheet.push(all[i]);
                i = i + 1;
            }
            assert(p < all.len());
            let mut j: usize = p + 1;
            while j < all.len()
                invariant
                    p < all@.len(),
                    p + 1 <= j <= all@.len(),
                    cell@ =~= all@.subrange(p + 1, j as int),
                decreases all.len() - j,
            {
                cell.push(all[j]);
                j = j + 1;
            }
        },
        None => {
            push_str(&mut sheet, "Sheet1");
            let mut j: usize = 0;
            while j < all.len()
                invariant
                    0 <= j <= all@.len(),
                    cell@ =~= all@.subrange(0, j as int),
                decreases all.len() - j,
            {
                cell.push(all[j]);
                j = j + 1;
            }
            assert(cell@ =~= all@);
        },
    }
    proof {
        reveal_strlit("Sheet1");
    }
    assert(sheet@ == ref_sheet(cell_ref@));
    assert(cell@ == ref_cell(cell_ref@));
    let mut col: u32 = 0;
    let mut digits: Vec<char> = Vec::new();
    let mut k: usize = 0;
    while k < cell.len()
        invariant
            0 <= k <= cell@.len(),
            cell@ == ref_cell(cell_ref@),
            letters_value(cell@) <= u32::MAX,
            col as nat == letters_value(cell@.subrange(0, k as int)),
            digits@ == digits_of(cell@.subrange(0, k as int)),
            forall|i: int| 0 <= i < digits@.len() ==> is_digit(#[trigger] digits@[i]),
        decreases cell.len() - k,
    {
        let ch = cell[k];
        proof {
            assert(cell@.subrange(0, k + 1) =~= cell@.subrange(0, k as int).push(ch));
            lemma_letters_value_push(cell@.subrange(0, k as int), ch);
            lemma_digits_of_push(cell@.subrange(0, k as int), ch);
            lemma_letters_value_prefix_mono(cell@, k + 1);
        }
        if 'a' <= ch && ch <= 'z' {
            let n = ch as u32 - 'a' as u32 + 1;
            col = col * 26 + n;
        } else if 'A' <= ch && ch <= 'Z' {
            let n = ch as u32 - 'A' as u32 + 1;
            col = col * 26 + n;
        } else if '0' <= ch && ch <= '9' {
            digits.push(ch);
        }
        k = k + 1;
    }
    assert(cell@.subrange(0, cell@.len() as int) =~= cell@);
    let row = match parse_row_digits(&digits) {
        Some(v) => v,
        None => {
            return Err(CellRefError::InvalidRow(string_of(&all)));
        },
    };
    if row == 0 || col == 0 {
        return Err(CellRefError::InvalidRef(string_of(&all)));
    }
    Ok((string_of(&sheet), row, col))
}

/// Every character of a column name is a capital letter.
proof fn lemma_col_letters_upper(col: nat)
    ensures
        forall|i: int| 0 <= i < col_letters(col).len() ==> is_upper(#[trigger] col_letters(col)[i]),
    decreases col,
{
    if col > 0 {
        let r = ((col - 1) % 26) as nat;
        lemma_col_letters_upper(((col - 1) / 26) as nat);
        let prev = col_letters(((col - 1) / 26) as nat);
        assert(letter(r) as nat == 65 + r);
        assert(col_letters(col) == prev.push(letter(r)));
        assert forall|i: int| 0 <= i < col_letters(col).len() implies is_upper(#[trigger] col_letters(col)[i]) by {
            if i < prev.len() {
                assert(col_letters(col)[i] == prev[i]);
            }
        }
    }
}

/// Reading a column name back gives the column.
proof fn lemma_letters_value_col_letters(col: nat)
    ensures
        letters_value(col_letters(col)) == col,
    decreases col,
{
    if col > 0 {
        let q = ((col - 1) / 26) as nat;
        let r = ((col - 1) % 26) as nat;
        lemma_letters_value_col_letters(q);
        lemma_letters_value_push(col_letters(q), letter(r));
        assert(q * 26 + r + 1 == col) by (nonlinear_arith)
            requires q == (col - 1) / 26, r == (col - 1) % 26, col > 0;
    }
}

/// Every character of a decimal numeral is a digit.
proof fn lemma_dec_digits(n: nat)
    ensures
        forall|i: int| 0 <= i < dec(n).len() ==> is_digit(#[trigger] dec(n)[i]),
    decreases n,
{
    if n >= 10 {
        lemma_dec_digits(n / 10);
        let prev = dec(n / 10);
        assert(digit_char(n % 10) as nat == 48 + n % 10);
        assert(dec(n) == prev.push(digit_char(n % 10)));
        assert forall|i: int| 0 <= i < dec(n).len() implies is_digit(#[trigger] dec(n)[i]) by {
            if i < prev.len() {
                assert(dec(n)[i] == prev[i]);
            }
        }
    } else {
        assert(digit_char(n) as nat == 48 + n);
        assert(dec(n) =~= seq![digit_char(n)]);
    }
}

/// Reading a decimal numeral back gives the number.
proof fn lemma_digits_value_dec(n: nat)
    ensures
        digits_value(dec(n)) == n,
    decreases n,
{
    if n >= 10 {
        lemma_digits_value_dec(n / 10);
        assert(dec(n).drop_last() =~= dec(n / 10));
        assert(n / 10 * 10 + n % 10 == n) by (nonlinear_arith);
        assert(digit_char(n % 10) as nat == 48 + n % 10);
        assert(dec(n).last() == digit_char(n % 10));
        assert('0' as nat == 48);
        assert(digits_value(dec(n)) == digits_value(dec(n).drop_last()) * 10 + ((dec(n).last() as nat) - ('0' as nat)) as nat);
    } else {
        assert(dec(n).drop_last() =~= Seq::<char>::empty());
        assert(digit_char(n) as nat == 48 + n);
        assert(dec(n).last() == digit_char(n));
        assert('0' as nat == 48);
        assert(digits_value(dec(n)) == digits_value(dec(n).drop_last()) * 10 + ((dec(n).last() as nat) - ('0' as nat)) as nat);
    }
}

/// Characters without letters leave the column value alone.
proof fn lemma_letters_value_append_nonalpha(a: Seq<char>, b: Seq<char>)
    requires
        forall|i: int| 0 <= i < b.len() ==> !is_alpha(#[trigger] b[i]),
    ensures
        letters_value(a + b) == letters_value(a),
    decreases b.len(),
{
    if b.len() > 0 {
        lemma_letters_value_append_nonalpha(a, b.drop_last());
        assert((a + b).drop_last() =~= a + b.drop_last());
    } else {
        assert(a + b =~= a);
    }
}

/// The digits of a letters-then-digits sequence are its digits.
proof fn lemma_digits_of_append(a: Seq<char>, b: Seq<char>)
    requires
        forall|i: int| 0 <= i < a.len() ==> !is_digit(#[trigger] a[i]),
        forall|i: int| 0 <= i < b.len() ==> is_digit(#[trigger] b[i]),
    ensures
        digits_of(a + b) == b,
    decreases a.len() + b.len(),
{
    if b.len() > 0 {
        lemma_digits_of_append(a, b.drop_last());
        assert((a + b).drop_last() =~= a + b.drop_last());
        assert(b.drop_last().push(b.last()) =~= b);
    } else if a.len() > 0 {
        lemma_digits_of_append(a.drop_last(), b);
        assert((a + b) =~= a);
        assert((a.drop_last() + b) =~= a.drop_last());
    } else {
        assert(a + b =~= Seq::<char>::empty());
    }
}

/// The text `Sheet!<letters><digits>` for a sheet, a row and a column.
pub open spec fn format_cell_ref(sheet: Seq<char>, row: nat, col: nat) -> Seq<char> {
    sheet + seq!['!'] + col_letters(col) + dec(row)
}

/// Parsing a reference written from a sheet without `!`, a row in
/// `1..=u32::MAX` and a column of at least 1 gives back that sheet, row and
/// column.
pub proof fn lemma_parse_format_round_trip(sheet: Seq<char>, row: nat, col: nat)
    requires
        forall|i: int| 0 <= i < sheet.len() ==> sheet[i] != '!',
        1 <= row <= u32::MAX,
        1 <= col,
    ensures
        spec_parse_cell_ref(format_cell_ref(sheet, row, col)) == Ok::<(Seq<char>, nat, nat), CellRefErrorKind>((sheet, row, col)),
{
    let s = format_cell_ref(sheet, row, col);
    let l = col_letters(col);
    let d = dec(row);
    lemma_first_index_of_found(s, '!', sheet.len() as int);
    assert(s.subrange(0, sheet.len() as int) =~= sheet);
    assert(s.subrange(sheet.len() as int + 1, s.len() as int) =~= l + d);
    lemma_col_letters_upper(col);
    lemma_dec_digits(row);
    assert forall|i: int| 0 <= i < d.len() implies !is_alpha(#[trigger] d[i]) by {
        assert(is_digit(d[i]));
    }
    assert forall|i: int| 0 <= i < l.len() implies !is_digit(#[trigger] l[i]) by {
        assert(is_upper(l[i]));
    }
    lemma_letters_value_append_nonalpha(l, d);
    lemma_letters_value_col_letters(col);
    lemma_digits_of_append(l, d);
    lemma_digits_value_dec(row);
    lemma_dec_len(row);
}

proof fn lemma_dec_len(n: nat)
    ensures
        dec(n).len() >= 1,
    decreases n,
{
    if n >= 10 {
        lemma_dec_len(n / 10);
    }
}

} // verus!
