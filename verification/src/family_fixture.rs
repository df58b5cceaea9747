//! The single-sheet workbook measured by the family ingest matrix: its
//! worksheet XML, the archive that packages it, and the digest reported for
//! it.

use vstd::prelude::*;
use std::collections::BTreeSet;
use crate::text::{dec, dec_chars, chars_of, owned, push_chars, push_str, string_of};
use crate::family_ingest::Scenario;

verus! {

broadcast use vstd::std_specs::btree::group_btree_axioms;

/// The largest row number a worksheet can have.
pub const XLSX_MAX_ROWS: u32 = 1_048_576;

/// Number of rows written: two for the full-sheet fixture, else one per
/// family member.
pub open spec fn fixture_rows(scenario: Scenario, members: nat) -> nat {
    if scenario == Scenario::FullSheetTwoPoint { 2 } else { members }
}

/// Row of the `k`-th of `exclusions` evenly spaced ordinary exceptions.
pub open spec fn exception_row(k: nat, rows: nat, exclusions: nat) -> nat {
    (1 + (k * ((rows - 1) as nat)) / (exclusions + 1)) as nat
}

/// Rows of a hole-exception fixture holding an ordinary formula.
pub open spec fn exception_rows(rows: nat, exclusions: nat) -> Set<u32> {
    Set::new(|r: u32| exists|k: nat| 1 <= k <= exclusions && r as nat == #[trigger] exception_row(k, rows, exclusions))
}

pub open spec fn is_exception(scenario: Scenario, rows: nat, exclusions: nat, row: nat) -> bool {
    scenario == Scenario::HoleException && exists|k: nat| 1 <= k <= exclusions && row == #[trigger] exception_row(k, rows, exclusions)
}

pub open spec fn xml_header() -> Seq<char> {
    "<?xml version=\"1.0\" encoding=\"UTF-8\" standalone=\"yes\"?><worksheet xmlns=\"http://schemas.openxmlformats.org/spreadsheetml/2006/main\">"@
}

pub open spec fn dimension_xml(end: nat) -> Seq<char> {
    "<dimension ref=\"A1:B"@ + dec(end) + "\"/><sheetData>"@
}

/// The formula of every family member: the row's A cell plus one.
pub open spec fn formula_text(row: nat) -> Seq<char> {
    "A"@ + dec(row) + "+1"@
}

/// A shared-formula follower in group `si`.
pub open spec fn shared_follower(si: nat) -> Seq<char> {
    "<f t=\"shared\" si=\""@ + dec(si) + "\"/>"@
}

/// A shared-formula anchor in group `si` covering column B rows
/// `start..=end`, with its formula text.
pub open spec fn shared_anchor(si: nat, start: nat, end: nat, body: Seq<char>) -> Seq<char> {
    "<f t=\"shared\" si=\""@ + dec(si) + "\" ref=\"B"@ + dec(start) + ":B"@ + dec(end) + "\">"@ + body + "</f>"@
}

/// The formula of the nested-function family anchor.
pub open spec fn nested_formula() -> Seq<char> {
    "ROUND(ABS(A1)+SUM(A1:A1)+COUNTIF(A1:A1,\"&gt;0\")+VLOOKUP(A1,A1:A1,1,FALSE),0)"@
}

/// Width of each family in the many-tiny-families fixture.
pub open spec fn tiny_width() -> nat {
    4
}

/// The formula element of column B in `row`.
pub open spec fn formula_xml(scenario: Scenario, rows: nat, exception: bool, row: nat) -> Seq<char> {
    match scenario {
        Scenario::ManyTinyFamilies => {
            let si = ((row - 1) as nat) / tiny_width();
            let start = si * tiny_width() + 1;
            let end = if start + tiny_width() - 1 <= rows { (start + tiny_width() - 1) as nat } else { rows };
            if row == start { shared_anchor(si, start, end, formula_text(row)) } else { shared_follower(si) }
        },
        Scenario::ForwardAnchor => {
            if rows == 1 || row == 2 { shared_anchor(1, 1, rows, formula_text(row)) } else { shared_follower(1) }
        },
        Scenario::NestedFunctionFamily => {
            if row == 1 { shared_anchor(1, 1, rows, nested_formula()) } else { shared_follower(1) }
        },
        Scenario::HoleException => {
            if exception {
                "<f>"@ + formula_text(row) + "</f>"@
            } else if row == 1 {
                shared_anchor(1, 1, rows, formula_text(row))
            } else {
                shared_follower(1)
            }
        },
        Scenario::LargeFamily => {
            if row == 1 { shared_anchor(1, 1, rows, formula_text(row)) } else { shared_follower(1) }
        },
        Scenario::FullSheetTwoPoint => {
            if row == 1 { shared_anchor(1, 1, XLSX_MAX_ROWS as nat, formula_text(row)) } else { shared_follower(1) }
        },
    }
}

/// One worksheet row: the row number as a value in A and the formula in B.
pub open spec fn row_xml(scenario: Scenario, rows: nat, exception: bool, row: nat) -> Seq<char> {
    "<row r=\""@ + dec(row) + "\"><c r=\"A"@ + dec(row) + "\"><v>"@ + dec(row) + "</v></c><c r=\"B"@ + dec(row)
        + "\">"@ + formula_xml(scenario, rows, exception, row) + "<v/></c></row>"@
}

/// Rows `1..=n`.
pub open spec fn rows_xml(scenario: Scenario, rows: nat, exclusions: nat, n: nat) -> Seq<char>
    decreases n,
{
    if n == 0 {
        Seq::empty()
    } else {
        rows_xml(scenario, rows, exclusions, (n - 1) as nat)
            + row_xml(scenario, rows, is_exception(scenario, rows, exclusions, n), n)
    }
}

/// The complete worksheet XML of a fixture.
pub open spec fn spec_sheet_xml(scenario: Scenario, members: nat, exclusions: nat) -> Seq<char> {
    let rows = fixture_rows(scenario, members);
    let dimension_end = if scenario == Scenario::FullSheetTwoPoint { XLSX_MAX_ROWS as nat } else { rows };
    xml_header() + dimension_xml(dimension_end) + rows_xml(scenario, rows, exclusions, rows)
        + "</sheetData></worksheet>"@
}

/// Why a fixture could not be produced.
#[derive(Clone, Copy, Debug, PartialEq, Eq, Structural)]
pub enum FixtureError {
    /// More rows than a worksheet holds.
    TooManyRows,
    /// The archive writer failed.
    Archive,
}

/// The exception rows of a hole-exception fixture, as a set.
fn exception_row_set(rows: u32, exclusions: u32) -> (s: BTreeSet<u32>)
    requires
        exclusions >= 1 ==> rows >= 1,
    ensures
        s@ == exception_rows(rows as nat, exclusions as nat),
{
    let mut s: BTreeSet<u32> = BTreeSet::new();
    let mut index: u64 = 1;
    while index <= exclusions as u64
        invariant
            1 <= index,
            exclusions >= 1 ==> rows >= 1,
            index <= exclusions + 1,
            s@ == Set::new(|r: u32| exists|k: nat| 1 <= k < index && r as nat == #[trigger] exception_row(k, rows as nat, exclusions as nat)),
        decreases exclusions + 1 - index,
    {
        let span: u64 = (rows - 1) as u64;
        let denominator: u64 = exclusions as u64 + 1;
        proof {
            assert(index * span <= (u32::MAX as u64) * (u32::MAX as u64)) by (nonlinear_arith)
                requires index <= u32::MAX, span <= u32::MAX;
            assert(((index as int) * (span as int)) / (denominator as int) <= span as int) by (nonlinear_arith)
                requires index <= exclusions, denominator == exclusions + 1, exclusions >= 1, span >= 0;
        }
        let offset: u64 = (index * span) / denominator;
        let r: u32 = 1 + offset as u32;
        assert(r as nat == exception_row(index as nat, rows as nat, exclusions as nat));
        let ghost before = s@;
        s.insert(r);
        proof {
            assert forall|x: u32| s@.contains(x) <==> (exists|k: nat| 1 <= k < index + 1 && x as nat == #[trigger] exception_row(k, rows as nat, exclusions as nat)) by {
                if x == r {
                    assert(1 <= index as nat && (index as nat) < index + 1 && x as nat == exception_row(index as nat, rows as nat, exclusions as nat));
                }
                if exists|k: nat| 1 <= k < index + 1 && x as nat == #[trigger] exception_row(k, rows as nat, exclusions as nat) {
                    let k = choose|k: nat| 1 <= k < index + 1 && x as nat == #[trigger] exception_row(k, rows as nat, exclusions as nat);
                    if k < index {
                        assert(before.contains(x));
                    } else {
                        assert(x == r);
                    }
                }
            }
            assert(s@ =~= Set::new(|r: u32| exists|k: nat| 1 <= k < index + 1 && r as nat == #[trigger] exception_row(k, rows as nat, exclusions as nat)));
        }
        index = index + 1;
    }
    assert(s@ =~= exception_rows(rows as nat, exclusions as nat));
    s
}

fn push_dec(v: &mut Vec<char>, n: u32)
    ensures
        final(v)@ == old(v)@ + dec(n as nat),
{
    let d = dec_chars(n as u64);
    push_chars(v, &d);
}

fn shared_follower_chars(si: u32) -> (v: Vec<char>)
    ensures
        v@ == shared_follower(si as nat),
{
    let mut v = chars_of("<f t=\"shared\" si=\"");
    push_dec(&mut v, si);
    push_str(&mut v, "\"/>");
    v
}

fn shared_anchor_chars(si: u32, start: u32, end: u32, body: &Vec<char>) -> (v: Vec<char>)
    ensures
        v@ == shared_anchor(si as nat, start as nat, end as nat, body@),
{
    let mut v = chars_of("<f t=\"shared\" si=\"");
    push_dec(&mut v, si);
    push_str(&mut v, "\" ref=\"B");
    push_dec(&mut v, start);
    push_str(&mut v, ":B");
    push_dec(&mut v, end);
    push_str(&mut v, "\">");
    push_chars(&mut v, body);
    push_str(&mut v, "</f>");
    v
}

fn formula_text_chars(row: u32) -> (v: Vec<char>)
    ensures
        v@ == formula_text(row as nat),
{
    let mut v = chars_of("A");
    push_dec(&mut v, row);
    push_str(&mut v, "+1");
    v
}

fn formula_xml_chars(scenario: Scenario, rows: u32, exception: bool, row: u32) -> (v: Vec<char>)
    requires
        1 <= row <= rows <= XLSX_MAX_ROWS,
    ensures
        v@ == formula_xml(scenario, rows as nat, exception, row as nat),
{
    match scenario {
        Scenario::ManyTinyFamilies => {
            let si = (row - 1) / 4;
            let start = si * 4 + 1;
            let end = if start + 3 <= rows { start + 3 } else { rows };
            if row == start {
                shared_anchor_chars(si, start, end, &formula_text_chars(row))
            } else {
                shared_follower_chars(si)
            }
        },
        Scenario::ForwardAnchor => {
            if rows == 1 || row == 2 {
                shared_anchor_chars(1, 1, rows, &formula_text_chars(row))
            } else {
                shared_follower_chars(1)
            }
        },
        Scenario::NestedFunctionFamily => {
            if row == 1 {
                let body = chars_of("ROUND(ABS(A1)+SUM(A1:A1)+COUNTIF(A1:A1,\"&gt;0\")+VLOOKUP(A1,A1:A1,1,FALSE),0)");
                shared_anchor_chars(1, 1, rows, &body)
            } else {
                shared_follower_chars(1)
            }
        },
        Scenario::HoleException => {
            if exception {
                let mut v = chars_of("<f>");
                let f = formula_text_chars(row);
                push_chars(&mut v, &f);
                push_str(&mut v, "</f>");
                v
            } else if row == 1 {
                shared_anchor_chars(1, 1, rows, &formula_text_chars(row))
            } else {
                shared_follower_chars(1)
            }
        },
        Scenario::LargeFamily => {
            if row == 1 {
                shared_anchor_chars(1, 1, rows, &formula_text_chars(row))
            } else {
                shared_follower_chars(1)
            }
        },
        Scenario::FullSheetTwoPoint => {
            if row == 1 {
                shared_anchor_chars(1, 1, XLSX_MAX_ROWS, &formula_text_chars(row))
            } else {
                shared_follower_chars(1)
            }
        },
    }
}

fn row_xml_chars(scenario: Scenario, rows: u32, exception: bool, row: u32) -> (v: Vec<char>)
    requires
        1 <= row <= rows <= XLSX_MAX_ROWS,
    ensures
        v@ == row_xml(scenario, rows as nat, exception, row as nat),
{
    let mut v = chars_of("<row r=\"");
    push_dec(&mut v, row);
    push_str(&mut v, "\"><c r=\"A");
    push_dec(&mut v, row);
    push_str(&mut v, "\"><v>");
    push_dec(&mut v, row);
    push_str(&mut v, "</v></c><c r=\"B");
    push_dec(&mut v, row);
    push_str(&mut v, "\">");
    let f = formula_xml_chars(scenario, rows, exception, row);
    push_chars(&mut v, &f);
    push_str(&mut v, "<v/></c></row>");
    v
}

/// Worksheet XML of a fixture: every member in column B as one shared
/// formula family (many four-row families, a forward anchor, a nested
/// function anchor, or a family with evenly spaced ordinary exceptions),
/// each row's number as the value in column A. Refused when the rows exceed
/// the worksheet limit.
pub fn sheet_xml(scenario: Scenario, members: u32, exclusions: u32) -> (r: Result<String, FixtureError>)
    requires
        scenario == Scenario::HoleException && exclusions >= 1 ==> members >= 1,
    ensures
        r is Err <==> fixture_rows(scenario, members as nat) > XLSX_MAX_ROWS,
        r matches Err(e) ==> e == FixtureError::TooManyRows,
        r matches Ok(s) ==> s@ == spec_sheet_xml(scenario, members as nat, exclusions as nat),
{
    let rows: u32 = if scenario == Scenario::FullSheetTwoPoint { 2 } else { members };
    let exceptions: BTreeSet<u32> = if scenario == Scenario::HoleException {
        exception_row_set(rows, exclusions)
    } else {
        BTreeSet::new()
    };
    if rows > XLSX_MAX_ROWS {
        return Err(FixtureError::TooManyRows);
    }
    let mut xml = chars_of("<?xml version=\"1.0\" encoding=\"UTF-8\" standalone=\"yes\"?><worksheet xmlns=\"http://schemas.openxmlformats.org/spreadsheetml/2006/main\">");
    let dimension_end: u32 = if scenario == Scenario::FullSheetTwoPoint { XLSX_MAX_ROWS } else { rows };
    push_str(&mut xml, "<dimension ref=\"A1:B");
    push_dec(&mut xml, dimension_end);
    push_str(&mut xml, "\"/><sheetData>");
    let ghost head = xml@;
    assert(head == xml_header() + dimension_xml(dimension_end as nat));
    let mut row: u32 = 1;
    while row <= rows
        invariant
            1 <= row <= rows + 1,
            rows <= XLSX_MAX_ROWS,
            scenario == Scenario::HoleException ==> exceptions@ == exception_rows(rows as nat, exclusions as nat),
            xml@ == head + rows_xml(scenario, rows as nat, exclusions as nat, (row - 1) as nat),
        decreases rows + 1 - row,
    {
        let exception = scenario == Scenario::HoleException && exceptions.contains(&row);
        proof {
            if scenario == Scenario::HoleException {
                assert(exception == exception_rows(rows as nat, exclusions as nat).contains(row));
                if exception {
                    let k = choose|k: nat| 1 <= k <= exclusions && row as nat == #[trigger] exception_row(k, rows as nat, exclusions as nat);
                    assert(is_exception(scenario, rows as nat, exclusions as nat, row as nat));
                }
                if is_exception(scenario, rows as nat, exclusions as nat, row as nat) {
                    let k = choose|k: nat| 1 <= k <= exclusions && row as nat == #[trigger] exception_row(k, rows as nat, exclusions as nat);
                    assert(exception_rows(rows as nat, exclusions as nat).contains(row));
                }
            }
            assert(exception == is_exception(scenario, rows as nat, exclusions as nat, row as nat));
        }
        let line = row_xml_chars(scenario, rows, exception, row);
        push_chars(&mut xml, &line);
        proof {
            assert(head + rows_xml(scenario, rows as nat, exclusions as nat, row as nat) =~= head + rows_xml(scenario, rows as nat, exclusions as nat, (row - 1) as nat) + line@);
        }
        row = row + 1;
    }
    push_str(&mut xml, "</sheetData></worksheet>");
    Ok(string_of(&xml))
}

/// `[Content_Types].xml` of the fixture package.
pub const CONTENT_TYPES: &'static str = "<?xml version=\"1.0\" encoding=\"UTF-8\" standalone=\"yes\"?><Types xmlns=\"http://schemas.openxmlformats.org/package/2006/content-types\"><Default Extension=\"rels\" ContentType=\"application/vnd.openxmlformats-package.relationships+xml\"/><Default Extension=\"xml\" ContentType=\"application/xml\"/><Override PartName=\"/xl/workbook.xml\" ContentType=\"application/vnd.openxmlformats-officedocument.spreadsheetml.sheet.main+xml\"/><Override PartName=\"/xl/worksheets/sheet1.xml\" ContentType=\"application/vnd.openxmlformats-officedocument.spreadsheetml.worksheet+xml\"/></Types>";

/// `_rels/.rels` of the fixture package.
pub const ROOT_RELS: &'static str = "<?xml version=\"1.0\" encoding=\"UTF-8\" standalone=\"yes\"?><Relationships xmlns=\"http://schemas.openxmlformats.org/package/2006/relationships\"><Relationship Id=\"rId1\" Type=\"http://schemas.openxmlformats.org/officeDocument/2006/relationships/officeDocument\" Target=\"xl/workbook.xml\"/></Relationships>";

/// `xl/workbook.xml` of the fixture package: one sheet named Sheet1.
pub const WORKBOOK: &'static str = "<?xml version=\"1.0\" encoding=\"UTF-8\" standalone=\"yes\"?><workbook xmlns=\"http://schemas.openxmlformats.org/spreadsheetml/2006/main\" xmlns:r=\"http://schemas.openxmlformats.org/officeDocument/2006/relationships\"><sheets><sheet name=\"Sheet1\" sheetId=\"1\" r:id=\"rId1\"/></sheets></workbook>";

/// `xl/_rels/workbook.xml.rels` of the fixture package.
pub const WORKBOOK_RELS: &'static str = "<?xml version=\"1.0\" encoding=\"UTF-8\" standalone=\"yes\"?><Relationships xmlns=\"http://schemas.openxmlformats.org/package/2006/relationships\"><Relationship Id=\"rId1\" Type=\"http://schemas.openxmlformats.org/officeDocument/2006/relationships/worksheet\" Target=\"worksheets/sheet1.xml\"/></Relationships>";

#[verifier::external_type_specification]
#[verifier::external_body]
pub struct ExZipError(zip::result::ZipError);

/// The bytes `zip::ZipWriter` produces over an in-memory buffer when the
/// entries, each a file name and its text, are written in order, deflated,
/// with the default file options (whose timestamp is a constant without the
/// crate's `time` feature).
pub uninterp spec fn deflated_zip_bytes(entries: Seq<(Seq<char>, Seq<char>)>) -> Seq<u8>;

/// Views of (name, text) entries.
pub open spec fn entry_views(v: Seq<(String, String)>) -> Seq<(Seq<char>, Seq<char>)> {
    v.map_values(|e: (String, String)| (e.0@, e.1@))
}

/// No two entries share a name.
pub open spec fn names_distinct(es: Seq<(Seq<char>, Seq<char>)>) -> bool {
    forall|i: int, j: int| 0 <= i < j < es.len() ==> #[trigger] es[i].0 != #[trigger] es[j].0
}

/// Every text stays below the writer's 4 GiB limit for an entry written
/// without the large-file option: under `0x3000_0000` characters is under
/// 3 GiB of UTF-8, which leaves room for deflate's few bytes of overhead.
pub open spec fn texts_fit(es: Seq<(Seq<char>, Seq<char>)>) -> bool {
    forall|i: int| 0 <= i < es.len() ==> #[trigger] es[i].1.len() < 0x3000_0000
}

/// Writes the entries with `zip::ZipWriter` (`start_file` with deflate
/// compression, `write_all` of the text, `finish`) into a vector. On success
/// the bytes are the archive named by `deflated_zip_bytes`. Writing into
/// memory fails only on a repeated file name or on an entry that passes the
/// 4 GiB limit without the large-file option, so entries with distinct names
/// and texts that fit are always written. A name longer than 65 535 bytes
/// makes the writer panic, so names are held to 16 383 characters.
#[verifier::external_body]
fn write_deflated_zip(entries: &Vec<(String, String)>) -> (r: Result<Vec<u8>, zip::result::ZipError>)
    requires
        forall|i: int| 0 <= i < entries@.len() ==> (#[trigger] entries@[i]).0@.len() <= 16_383,
    ensures
        r matches Ok(b) ==> b@ == deflated_zip_bytes(entry_views(entries@)),
        names_distinct(entry_views(entries@)) && texts_fit(entry_views(entries@)) ==> r is Ok,
{
    let mut zip = zip::ZipWriter::new(std::io::Cursor::new(Vec::new()));
    let options = zip::write::SimpleFileOptions::default().compression_method(zip::CompressionMethod::Deflated);
    for (name, body) in entries.iter() {
        zip.start_file(name.as_str(), options)?;
        std::io::Write::write_all(&mut zip, body.as_bytes())?;
    }
    Ok(zip.finish()?.into_inner())
}

/// The four fixed parts are short.
proof fn lemma_fixed_parts_short()
    ensures
        CONTENT_TYPES@.len() < 1_000,
        ROOT_RELS@.len() < 1_000,
        WORKBOOK@.len() < 1_000,
        WORKBOOK_RELS@.len() < 1_000,
{
    reveal_strlit("<?xml version=\"1.0\" encoding=\"UTF-8\" standalone=\"yes\"?><Types xmlns=\"http://schemas.openxmlformats.org/package/2006/content-types\"><Default Extension=\"rels\" ContentType=\"application/vnd.openxmlformats-package.relationships+xml\"/><Default Extension=\"xml\" ContentType=\"application/xml\"/><Override PartName=\"/xl/workbook.xml\" ContentType=\"application/vnd.openxmlformats-officedocument.spreadsheetml.sheet.main+xml\"/><Override PartName=\"/xl/worksheets/sheet1.xml\" ContentType=\"application/vnd.openxmlformats-officedocument.spreadsheetml.worksheet+xml\"/></Types>");
    reveal_strlit("<?xml version=\"1.0\" encoding=\"UTF-8\" standalone=\"yes\"?><Relationships xmlns=\"http://schemas.openxmlformats.org/package/2006/relationships\"><Relationship Id=\"rId1\" Type=\"http://schemas.openxmlformats.org/officeDocument/2006/relationships/officeDocument\" Target=\"xl/workbook.xml\"/></Relationships>");
    reveal_strlit("<?xml version=\"1.0\" encoding=\"UTF-8\" standalone=\"yes\"?><workbook xmlns=\"http://schemas.openxmlformats.org/spreadsheetml/2006/main\" xmlns:r=\"http://schemas.openxmlformats.org/officeDocument/2006/relationships\"><sheets><sheet name=\"Sheet1\" sheetId=\"1\" r:id=\"rId1\"/></sheets></workbook>");
    reveal_strlit("<?xml version=\"1.0\" encoding=\"UTF-8\" standalone=\"yes\"?><Relationships xmlns=\"http://schemas.openxmlformats.org/package/2006/relationships\"><Relationship Id=\"rId1\" Type=\"http://schemas.openxmlformats.org/officeDocument/2006/relationships/worksheet\" Target=\"worksheets/sheet1.xml\"/></Relationships>");
}

/// Below ten million a numeral has at most seven digits.
proof fn lemma_dec_short(n: nat)
    requires
        n < 10_000_000,
    ensures
        dec(n).len() <= 7,
{
    reveal_with_fuel(dec, 8);
}

/// A formula element is at most 140 characters.
proof fn lemma_formula_xml_len(scenario: Scenario, rows: nat, exception: bool, row: nat)
    requires
        1 <= row <= rows <= XLSX_MAX_ROWS,
    ensures
        formula_xml(scenario, rows, exception, row).len() <= 140,
{
    reveal_strlit("<f t=\"shared\" si=\"");
    reveal_strlit("\"/>");
    reveal_strlit("\" ref=\"B");
    reveal_strlit(":B");
    reveal_strlit("\">");
    reveal_strlit("</f>");
    reveal_strlit("<f>");
    reveal_strlit("A");
    reveal_strlit("+1");
    reveal_strlit("ROUND(ABS(A1)+SUM(A1:A1)+COUNTIF(A1:A1,\"&gt;0\")+VLOOKUP(A1,A1:A1,1,FALSE),0)");
    lemma_dec_short(row);
    lemma_dec_short(rows);
    lemma_dec_short(1);
    lemma_dec_short(XLSX_MAX_ROWS as nat);
    let si = ((row - 1) as nat) / tiny_width();
    let start = si * tiny_width() + 1;
    let end = if start + tiny_width() - 1 <= rows { (start + tiny_width() - 1) as nat } else { rows };
    lemma_dec_short(si);
    lemma_dec_short(start);
    lemma_dec_short(end);
}

/// A worksheet row is at most 300 characters.
proof fn lemma_row_xml_len(scenario: Scenario, rows: nat, exception: bool, row: nat)
    requires
        1 <= row <= rows <= XLSX_MAX_ROWS,
    ensures
        row_xml(scenario, rows, exception, row).len() <= 300,
{
    reveal_strlit("<row r=\"");
    reveal_strlit("\"><c r=\"A");
    reveal_strlit("\"><v>");
    reveal_strlit("</v></c><c r=\"B");
    reveal_strlit("\">");
    reveal_strlit("<v/></c></row>");
    lemma_dec_short(row);
    lemma_formula_xml_len(scenario, rows, exception, row);
}

/// Rows `1..=n` take at most 300 characters each.
proof fn lemma_rows_xml_len(scenario: Scenario, rows: nat, exclusions: nat, n: nat)
    requires
        n <= rows <= XLSX_MAX_ROWS,
    ensures
        rows_xml(scenario, rows, exclusions, n).len() <= 300 * n,
    decreases n,
{
    if n > 0 {
        lemma_rows_xml_len(scenario, rows, exclusions, (n - 1) as nat);
        lemma_row_xml_len(scenario, rows, is_exception(scenario, rows, exclusions, n), n);
    }
}

/// A worksheet within the row limit fits the archive writer.
proof fn lemma_sheet_xml_fits(scenario: Scenario, members: nat, exclusions: nat)
    requires
        fixture_rows(scenario, members) <= XLSX_MAX_ROWS,
    ensures
        spec_sheet_xml(scenario, members, exclusions).len() < 0x3000_0000,
{
    let rows = fixture_rows(scenario, members);
    reveal_strlit("<?xml version=\"1.0\" encoding=\"UTF-8\" standalone=\"yes\"?><worksheet xmlns=\"http://schemas.openxmlformats.org/spreadsheetml/2006/main\">");
    reveal_strlit("<dimension ref=\"A1:B");
    reveal_strlit("\"/><sheetData>");
    reveal_strlit("</sheetData></worksheet>");
    lemma_dec_short(rows);
    lemma_dec_short(XLSX_MAX_ROWS as nat);
    lemma_rows_xml_len(scenario, rows, exclusions, rows);
}

/// The package of a worksheet that fits: five distinct names, every text
/// short enough.
proof fn lemma_package_fits(sheet: Seq<char>)
    requires
        sheet.len() < 0x3000_0000,
    ensures
        names_distinct(package_entries(sheet)),
        texts_fit(package_entries(sheet)),
        forall|i: int| 0 <= i < package_entries(sheet).len() ==> (#[trigger] package_entries(sheet)[i]).0.len() <= 16_383,
{
    reveal_strlit("[Content_Types].xml");
    reveal_strlit("_rels/.rels");
    reveal_strlit("xl/workbook.xml");
    reveal_strlit("xl/_rels/workbook.xml.rels");
    reveal_strlit("xl/worksheets/sheet1.xml");
    lemma_fixed_parts_short();
    let es = package_entries(sheet);
    assert forall|i: int, j: int| 0 <= i < j < es.len() implies #[trigger] es[i].0 != #[trigger] es[j].0 by {
        assert(es[i].0.len() != es[j].0.len());
    }
}

/// Names and texts of the fixture package, worksheet last.
pub open spec fn package_entries(sheet: Seq<char>) -> Seq<(Seq<char>, Seq<char>)> {
    seq![
        ("[Content_Types].xml"@, CONTENT_TYPES@),
        ("_rels/.rels"@, ROOT_RELS@),
        ("xl/workbook.xml"@, WORKBOOK@),
        ("xl/_rels/workbook.xml.rels"@, WORKBOOK_RELS@),
        ("xl/worksheets/sheet1.xml"@, sheet),
    ]
}

/// The fixture as an XLSX package: the four fixed parts and the worksheet of
/// `sheet_xml`, deflated into one archive.
pub fn generate_xlsx(scenario: Scenario, members: u32, exclusions: u32) -> (r: Result<Vec<u8>, FixtureError>)
    requires
        scenario == Scenario::HoleException && exclusions >= 1 ==> members >= 1,
    ensures
        fixture_rows(scenario, members as nat) > XLSX_MAX_ROWS ==> r == Err::<Vec<u8>, FixtureError>(FixtureError::TooManyRows),
        fixture_rows(scenario, members as nat) <= XLSX_MAX_ROWS ==> r is Ok,
        r matches Ok(b) ==> b@ == deflated_zip_bytes(package_entries(spec_sheet_xml(scenario, members as nat, exclusions as nat))),
        r matches Err(e) ==> (e == FixtureError::TooManyRows <==> fixture_rows(scenario, members as nat) > XLSX_MAX_ROWS),
{
    let sheet = match sheet_xml(scenario, members, exclusions) {
        Ok(s) => s,
        Err(e) => return Err(e),
    };
    let ghost sheet_view = sheet@;
    let mut entries: Vec<(String, String)> = Vec::new();
    entries.push((owned("[Content_Types].xml"), owned(CONTENT_TYPES)));
    entries.push((owned("_rels/.rels"), owned(ROOT_RELS)));
    entries.push((owned("xl/workbook.xml"), owned(WORKBOOK)));
    entries.push((owned("xl/_rels/workbook.xml.rels"), owned(WORKBOOK_RELS)));
    entries.push((owned("xl/worksheets/sheet1.xml"), sheet));
    assert(entry_views(entries@) =~= package_entries(sheet_view));
    proof {
        lemma_sheet_xml_fits(scenario, members as nat, exclusions as nat);
        lemma_package_fits(sheet_view);
        assert forall|i: int| 0 <= i < entries@.len() implies (#[trigger] entries@[i]).0@.len() <= 16_383 by {
            assert(entry_views(entries@)[i].0 == entries@[i].0@);
        }
    }
    match write_deflated_zip(&entries) {
        Ok(b) => Ok(b),
        Err(_) => Err(FixtureError::Archive),
    }
}

/// SHA-256 of a byte sequence (32 bytes).
pub uninterp spec fn sha256(bytes: Seq<u8>) -> Seq<u8>;

/// `sha2::Sha256::digest` of the bytes; its output is the 32-byte SHA-256
/// digest.
#[verifier::external_body]
fn sha256_digest(bytes: &Vec<u8>) -> (d: Vec<u8>)
    ensures
        d@ == sha256(bytes@),
        d@.len() == 32,
{
    <sha2::Sha256 as sha2::Digest>::digest(bytes.as_slice()).to_vec()
}

/// Lower-case hexadecimal digit of a value below sixteen.
pub open spec fn hex_digit(n: nat) -> char {
    if n < 10 { (('0' as nat) + n) as char } else { (('a' as nat) + n - 10) as char }
}

/// Two lower-case hexadecimal digits per byte, high nibble first.
pub open spec fn lower_hex(s: Seq<u8>) -> Seq<char>
    decreases s.len(),
{
    if s.len() == 0 {
        Seq::empty()
    } else {
        lower_hex(s.drop_last()) + seq![hex_digit((s.last() / 16) as nat), hex_digit((s.last() % 16) as nat)]
    }
}

fn hex_char(n: u8) -> (c: char)
    requires
        n < 16,
    ensures
        c == hex_digit(n as nat),
{
    if n < 10 {
        let c = (48u8 + n) as char;
        assert(c == hex_digit(n as nat));
        c
    } else {
        let c = (87u8 + n) as char;
        assert(c == hex_digit(n as nat));
        c
    }
}

/// Lower-case hexadecimal text of the bytes.
pub fn to_lower_hex(bytes: &Vec<u8>) -> (s: String)
    ensures
        s@ == lower_hex(bytes@),
{
    let mut v: Vec<char> = Vec::new();
    let mut i: usize = 0;
    while i < bytes.len()
        invariant
            0 <= i <= bytes@.len(),
            v@ == lower_hex(bytes@.subrange(0, i as int)),
        decreases bytes.len() - i,
    {
        let b = bytes[i];
        v.push(hex_char(b / 16));
        v.push(hex_char(b % 16));
        proof {
            let p = bytes@.subrange(0, i + 1);
            assert(p.drop_last() =~= bytes@.subrange(0, i as int));
            assert(v@ =~= lower_hex(p));
        }
        i = i + 1;
    }
    assert(bytes@.subrange(0, bytes@.len() as int) =~= bytes@);
    string_of(&v)
}

/// The fixture digest as reported: the SHA-256 of its bytes in lower-case
/// hexadecimal.
pub fn fixture_sha256(bytes: &Vec<u8>) -> (s: String)
    ensures
        s@ == lower_hex(sha256(bytes@)),
{
    let d = sha256_digest(bytes);
    to_lower_hex(&d)
}

} // verus!
