use std::io::{Cursor, Read, Write};

use formualizer_bench_core::corpus::NormalizeError;
use formualizer_bench_core::package::{normalize_package, Normalize, PackageError};

fn package(entries: &[(&str, zip::CompressionMethod, &[u8])]) -> Vec<u8> {
    let mut w = zip::ZipWriter::new(Cursor::new(Vec::new()));
    for (name, method, data) in entries {
        w.start_file(*name, zip::write::SimpleFileOptions::default().compression_method(*method)).unwrap();
        w.write_all(data).unwrap();
    }
    w.finish().unwrap().into_inner()
}

fn entries(bytes: &[u8]) -> Vec<(String, zip::CompressionMethod, String)> {
    let mut a = zip::ZipArchive::new(Cursor::new(bytes)).unwrap();
    let mut out = Vec::new();
    for i in 0..a.len() {
        let mut e = a.by_index(i).unwrap();
        let mut s = String::new();
        e.read_to_string(&mut s).unwrap();
        out.push((e.name().to_string(), e.compression(), s));
    }
    out
}

const STYLES: &str = "<styleSheet><cellXfs count=\"1\"><xf/></cellXfs></styleSheet>";

fn sample() -> Vec<u8> {
    package(&[
        ("xl/styles.xml", zip::CompressionMethod::Deflated, STYLES.as_bytes()),
        ("xl/worksheets/sheet1.xml", zip::CompressionMethod::Stored, b"<c><f>=A1+1</f></c>"),
        ("xl/workbook.xml", zip::CompressionMethod::Deflated, b"<f>=1</f>"),
    ])
}

#[test]
fn package_normalization_rewrites_styles_and_worksheets_only() {
    let out = entries(&normalize_package(&sample(), Normalize::StylesAndWorksheets).unwrap());
    assert_eq!(out.len(), 3);
    assert_eq!((out[0].0.as_str(), out[0].1), ("xl/styles.xml", zip::CompressionMethod::Deflated));
    assert!(out[0].2.contains("<numFmts") && out[0].2.contains("<cellStyleXfs") && out[0].2.contains("<cellStyles"));
    assert_eq!((out[1].0.as_str(), out[1].1, out[1].2.as_str()), ("xl/worksheets/sheet1.xml", zip::CompressionMethod::Stored, "<c><f>A1+1</f></c>"));
    assert_eq!((out[2].0.as_str(), out[2].2.as_str()), ("xl/workbook.xml", "<f>=1</f>"));
}

#[test]
fn styles_only_normalization_keeps_worksheets() {
    let out = entries(&normalize_package(&sample(), Normalize::Styles).unwrap());
    assert!(out[0].2.contains("<numFmts"));
    assert_eq!(out[1].2, "<c><f>=A1+1</f></c>");
}

#[test]
fn unreadable_packages_and_parts_are_refused() {
    assert_eq!(normalize_package(&b"not a zip".to_vec(), Normalize::Styles), Err(PackageError::Read));
    let bad = package(&[("xl/styles.xml", zip::CompressionMethod::Stored, &[0xff, 0x00])]);
    assert_eq!(normalize_package(&bad, Normalize::Styles), Err(PackageError::Part(NormalizeError::NotUtf8)));
    let binary = package(&[("xl/media/image1.png", zip::CompressionMethod::Stored, &[0xff, 0x00])]);
    assert!(normalize_package(&binary, Normalize::StylesAndWorksheets).is_ok());
}
