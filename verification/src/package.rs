//! Normalizing a written workbook package: every entry read from the
//! archive, the style part and (when asked) the worksheets rewritten, and
//! the archive written again with each entry's name, compression method and
//! order kept.

use vstd::prelude::*;
use vstd::string::*;
use crate::corpus::{
    NormalizeError, bytes_result, is_worksheet_part, normalize_styles_xml, normalize_worksheet_formulas_xml,
    spec_normalize_formulas_bytes, spec_normalize_styles_bytes, starts_with,
};
use crate::text::{ends_with, str_eq, utf8_of};
use vstd::utf8::*;

verus! {

/// Which parts of a package are normalized.
#[derive(Clone, Copy, Debug, PartialEq, Eq, Structural)]
pub enum Normalize {
    /// The style part only.
    Styles,
    /// The style part and every worksheet.
    StylesAndWorksheets,
}

/// One entry of a package: its name, its compression method (the zip
/// method number: 0 stored, 8 deflated) and its uncompressed bytes.
#[derive(Clone, Debug)]
pub struct PackageEntry {
    pub name: String,
    pub method: u16,
    pub data: Vec<u8>,
}

/// Name, method and bytes of an entry.
pub open spec fn entry_view(e: PackageEntry) -> (Seq<char>, u16, Seq<u8>) {
    (e.name@, e.method, e.data@)
}

pub open spec fn entry_views(es: Seq<PackageEntry>) -> Seq<(Seq<char>, u16, Seq<u8>)> {
    es.map_values(|e: PackageEntry| entry_view(e))
}

/// No two entries share a name.
pub open spec fn distinct_names(es: Seq<(Seq<char>, u16, Seq<u8>)>) -> bool {
    forall|i: int, j: int| 0 <= i < j < es.len() ==> #[trigger] es[i].0 != #[trigger] es[j].0
}

/// Every entry is stored (0) or deflated (8).
pub open spec fn supported_methods(es: Seq<(Seq<char>, u16, Seq<u8>)>) -> bool {
    forall|i: int| 0 <= i < es.len() ==> (#[trigger] es[i]).1 == 0 || es[i].1 == 8
}

/// Every name's UTF-8 encoding fits the archive's 16-bit name length.
pub open spec fn names_fit(es: Seq<(Seq<char>, u16, Seq<u8>)>) -> bool {
    forall|i: int| 0 <= i < es.len() ==> encode_utf8((#[trigger] es[i]).0).len() <= 65_535
}

/// Every entry is under 3 GiB, below the writer's 4 GiB limit for entries
/// written without the large-file option, with room for deflate's overhead.
pub open spec fn sizes_fit(es: Seq<(Seq<char>, u16, Seq<u8>)>) -> bool {
    forall|i: int| 0 <= i < es.len() ==> (#[trigger] es[i]).2.len() < 0xC000_0000
}

/// The entries `zip::ZipArchive` reads from an in-memory archive, in index
/// order, each with its name, method number and uncompressed bytes; `None`
/// when opening the archive or reading any entry fails.
pub uninterp spec fn zip_entries(bytes: Seq<u8>) -> Option<Seq<(Seq<char>, u16, Seq<u8>)>>;

/// The bytes `zip::ZipWriter` produces over an in-memory buffer when the
/// entries are written in order, each with its own compression method and
/// otherwise the default file options (whose timestamp is a constant
/// without the crate's `time` feature).
pub uninterp spec fn zip_package(entries: Seq<(Seq<char>, u16, Seq<u8>)>) -> Seq<u8>;

/// Reads every entry of an archive with `zip::ZipArchive` (`new`, then
/// `by_index`, `name`, `compression` and `read_to_end` for each index).
/// Reading succeeds or fails by the bytes alone and gives the entries named
/// by `zip_entries`. The archive keys its entries by name, so the names are
/// distinct, and with only the deflate feature built every entry read has
/// method 0 or 8 (any other method is refused when the entry is opened).
#[verifier::external_body]
#[allow(deprecated)]
fn read_zip_entries(bytes: &Vec<u8>) -> (r: Result<Vec<PackageEntry>, zip::result::ZipError>)
    ensures
        r is Ok <==> zip_entries(bytes@) is Some,
        r matches Ok(es) ==> zip_entries(bytes@) == Some(entry_views(es@)),
        r matches Ok(es) ==> distinct_names(entry_views(es@)) && supported_methods(entry_views(es@)),
{
    let mut archive = zip::ZipArchive::new(std::io::Cursor::new(bytes.as_slice()))?;
    let mut out = Vec::new();
    for index in 0..archive.len() {
        let mut entry = archive.by_index(index)?;
        let mut data = Vec::new();
        std::io::Read::read_to_end(&mut entry, &mut data)?;
        out.push(PackageEntry { name: entry.name().to_string(), method: entry.compression().to_u16(), data });
    }
    Ok(out)
}

/// Writes the entries with `zip::ZipWriter` (`start_file` with the entry's
/// method, `write_all` of its bytes, `finish`) into a vector. On success the
/// bytes are the archive named by `zip_package`. Writing into memory fails
/// only on a repeated name, a method this build cannot write, or an entry
/// past 4 GiB without the large-file option, so distinct names, methods 0
/// or 8 and entries that fit are always written. A name over 65 535 bytes
/// makes the writer panic, so names must fit.
#[verifier::external_body]
#[allow(deprecated)]
fn write_zip_entries(entries: &Vec<PackageEntry>) -> (r: Result<Vec<u8>, zip::result::ZipError>)
    requires
        names_fit(entry_views(entries@)),
    ensures
        r matches Ok(b) ==> b@ == zip_package(entry_views(entries@)),
        distinct_names(entry_views(entries@)) && supported_methods(entry_views(entries@)) && sizes_fit(entry_views(entries@))
            ==> r is Ok,
{
    let mut zip = zip::ZipWriter::new(std::io::Cursor::new(Vec::new()));
    for e in entries.iter() {
        let options = zip::write::SimpleFileOptions::default().compression_method(zip::CompressionMethod::from_u16(e.method));
        zip.start_file(e.name.as_str(), options)?;
        std::io::Write::write_all(&mut zip, &e.data)?;
    }
    Ok(zip.finish()?.into_inner())
}

/// The bytes of an entry after normalization: the style part always, the
/// worksheets when asked, every other entry as it is.
pub open spec fn spec_normalized_data(which: Normalize, name: Seq<char>, data: Seq<u8>) -> Result<Seq<u8>, NormalizeError> {
    if name == "xl/styles.xml"@ {
        spec_normalize_styles_bytes(data)
    } else if which == Normalize::StylesAndWorksheets && is_worksheet_part(name) {
        spec_normalize_formulas_bytes(data)
    } else {
        Ok(data)
    }
}

/// Entries `0..n` normalized in order, stopping at the first refusal; name
/// and method are kept.
pub open spec fn spec_normalize_entries(which: Normalize, es: Seq<(Seq<char>, u16, Seq<u8>)>) -> Result<Seq<(Seq<char>, u16, Seq<u8>)>, NormalizeError>
    decreases es.len(),
{
    if es.len() == 0 {
        Ok(Seq::empty())
    } else {
        match spec_normalize_entries(which, es.drop_last()) {
            Err(e) => Err(e),
            Ok(done) => match spec_normalized_data(which, es.last().0, es.last().2) {
                Err(e) => Err(e),
                Ok(d) => Ok(done.push((es.last().0, es.last().1, d))),
            },
        }
    }
}

/// The bytes of one entry after normalization.
fn normalized_data(which: Normalize, name: &str, data: &Vec<u8>) -> (r: Result<Vec<u8>, NormalizeError>)
    ensures
        bytes_result(r, spec_normalized_data(which, name@, data@)),
{
    if str_eq(name, "xl/styles.xml") {
        normalize_styles_xml(data.as_slice())
    } else if which == Normalize::StylesAndWorksheets && starts_with(name, "xl/worksheets/sheet") && ends_with(name, ".xml") {
        normalize_worksheet_formulas_xml(data.as_slice())
    } else {
        Ok(data.clone())
    }
}

/// The entries with the style part (and, when asked, the worksheets)
/// normalized, in order; the first part that cannot be normalized is the
/// error.
pub fn normalize_entries(entries: &Vec<PackageEntry>, which: Normalize) -> (r: Result<Vec<PackageEntry>, NormalizeError>)
    ensures
        match spec_normalize_entries(which, entry_views(entries@)) {
            Ok(es) => r matches Ok(v) && entry_views(v@) == es,
            Err(e) => r matches Err(x) && x == e,
        },
{
    let ghost es = entry_views(entries@);
    let mut out: Vec<PackageEntry> = Vec::new();
    let mut i: usize = 0;
    assert(entry_views(out@) =~= Seq::<(Seq<char>, u16, Seq<u8>)>::empty());
    assert(es.subrange(0, 0) =~= Seq::<(Seq<char>, u16, Seq<u8>)>::empty());
    while i < entries.len()
        invariant
            0 <= i <= entries@.len(),
            out@.len() == i,
            es == entry_views(entries@),
            spec_normalize_entries(which, es.subrange(0, i as int)) == Ok::<Seq<(Seq<char>, u16, Seq<u8>)>, NormalizeError>(entry_views(out@)),
        decreases entries.len() - i,
    {
        let e = &entries[i];
        proof {
            assert(es.subrange(0, i + 1).drop_last() =~= es.subrange(0, i as int));
            assert(es.subrange(0, i + 1).last() == entry_view(entries@[i as int]));
        }
        match normalized_data(which, e.name.as_str(), &e.data) {
            Err(x) => {
                proof {
                    lemma_normalize_prefix_error(which, es, (i + 1) as nat);
                }
                return Err(x);
            },
            Ok(d) => {
                let ghost before = out@;
                out.push(PackageEntry { name: e.name.clone(), method: e.method, data: d });
                proof {
                    assert(entry_views(out@) =~= entry_views(before).push(entry_view(out@[i as int])));
                }
            },
        }
        i = i + 1;
    }
    assert(es.subrange(0, entries@.len() as int) =~= es);
    Ok(out)
}

/// Once a prefix is refused, every longer prefix is refused the same way.
proof fn lemma_normalize_prefix_error(which: Normalize, es: Seq<(Seq<char>, u16, Seq<u8>)>, n: nat)
    requires
        n <= es.len(),
        spec_normalize_entries(which, es.subrange(0, n as int)) is Err,
    ensures
        spec_normalize_entries(which, es) == spec_normalize_entries(which, es.subrange(0, n as int)),
    decreases es.len() - n,
{
    if n < es.len() {
        assert(es.subrange(0, (n + 1) as int).drop_last() =~= es.subrange(0, n as int));
        lemma_normalize_prefix_error(which, es, n + 1);
    } else {
        assert(es.subrange(0, n as int) =~= es);
    }
}

/// Why a package could not be normalized.
#[derive(Clone, Copy, Debug, PartialEq, Eq, Structural)]
pub enum PackageError {
    /// The archive could not be read.
    Read,
    /// A part could not be normalized.
    Part(NormalizeError),
    /// An entry name is too long for the archive's name field.
    NameTooLong,
    /// The archive could not be written.
    Write,
}

/// Whether every name fits, checked in order.
fn all_names_fit(entries: &Vec<PackageEntry>) -> (r: bool)
    ensures
        r == names_fit(entry_views(entries@)),
{
    let mut i: usize = 0;
    while i < entries.len()
        invariant
            0 <= i <= entries@.len(),
            forall|j: int| 0 <= j < i ==> encode_utf8((#[trigger] entries@[j]).name@).len() <= 65_535,
        decreases entries.len() - i,
    {
        if utf8_of(entries[i].name.as_str()).len() > 65_535 {
            assert(entry_views(entries@)[i as int].0 == entries@[i as int].name@);
            return false;
        }
        i = i + 1;
    }
    assert forall|j: int| 0 <= j < entry_views(entries@).len() implies encode_utf8((#[trigger] entry_views(entries@)[j]).0).len() <= 65_535 by {
        assert(entry_views(entries@)[j].0 == entries@[j].name@);
    }
    true
}

/// Normalizing keeps each entry's name and method, in order.
proof fn lemma_normalize_keeps_names(which: Normalize, es: Seq<(Seq<char>, u16, Seq<u8>)>)
    requires
        spec_normalize_entries(which, es) is Ok,
    ensures
        spec_normalize_entries(which, es)->Ok_0.len() == es.len(),
        forall|i: int| 0 <= i < es.len() ==> (#[trigger] spec_normalize_entries(which, es)->Ok_0[i]).0 == es[i].0
            && spec_normalize_entries(which, es)->Ok_0[i].1 == es[i].1,
    decreases es.len(),
{
    if es.len() > 0 {
        lemma_normalize_keeps_names(which, es.drop_last());
    }
}

/// Rewrites a written package: reads its entries, normalizes the style part
/// (and, for `StylesAndWorksheets`, every worksheet), and writes the entries
/// back with their names, methods and order.
pub fn normalize_package(bytes: &Vec<u8>, which: Normalize) -> (r: Result<Vec<u8>, PackageError>)
    ensures
        match zip_entries(bytes@) {
            None => r == Err::<Vec<u8>, PackageError>(PackageError::Read),
            Some(es) => match spec_normalize_entries(which, es) {
                Err(e) => r == Err::<Vec<u8>, PackageError>(PackageError::Part(e)),
                Ok(ns) => if !names_fit(ns) {
                    r == Err::<Vec<u8>, PackageError>(PackageError::NameTooLong)
                } else {
                    &&& r matches Ok(out) ==> out@ == zip_package(ns)
                    &&& r matches Err(e) ==> e == PackageError::Write
                    &&& sizes_fit(ns) ==> r is Ok
                },
            },
        },
{
    let entries = match read_zip_entries(bytes) {
        Ok(es) => es,
        Err(_) => return Err(PackageError::Read),
    };
    let normalized = match normalize_entries(&entries, which) {
        Ok(ns) => ns,
        Err(e) => return Err(PackageError::Part(e)),
    };
    if !all_names_fit(&normalized) {
        return Err(PackageError::NameTooLong);
    }
    proof {
        let es = entry_views(entries@);
        let ns = entry_views(normalized@);
        lemma_normalize_keeps_names(which, es);
        assert forall|i: int, j: int| 0 <= i < j < ns.len() implies #[trigger] ns[i].0 != #[trigger] ns[j].0 by {
            assert(es[i].0 != es[j].0);
        }
        assert forall|i: int| 0 <= i < ns.len() implies (#[trigger] ns[i]).1 == 0 || ns[i].1 == 8 by {
            assert(es[i].1 == 0 || es[i].1 == 8);
        }
    }
    match write_zip_entries(&normalized) {
        Ok(out) => Ok(out),
        Err(_) => Err(PackageError::Write),
    }
}

} // verus!
