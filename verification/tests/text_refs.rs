use formualizer_bench_core::a1::{col_letter, col_name, parse_cell_ref, CellRefError};
use formualizer_bench_core::corpus::{
    cfg_str, cfg_u32, dense_lookup_checksum, dense_lookup_value, fact_id, insert_after_marker_or_stylesheet_open,
    insert_after_stylesheet_open, insert_before_marker_or_stylesheet_end, lookup_key,
    normalize_styles_xml, normalize_worksheet_formulas_xml, render_formula_template, replace, resolve_output_path,
    NormalizeError, StylesError,
};
use formualizer_bench_core::reference::Reference;

#[test]
fn column_letters_are_bijective_base_26() {
    assert_eq!(col_letter(1), "A");
    assert_eq!(col_letter(26), "Z");
    assert_eq!(col_letter(27), "AA");
    assert_eq!(col_letter(52), "AZ");
    assert_eq!(col_letter(703), "AAA");
    assert_eq!(col_name(0), "");
    assert_eq!(Reference::col_to_letters(28), "AB");
}

#[test]
fn cell_references_parse_and_round_trip() {
    assert_eq!(parse_cell_ref("Data!C12"), Ok(("Data".to_string(), 12, 3)));
    assert_eq!(parse_cell_ref("AB7"), Ok(("Sheet1".to_string(), 7, 28)));
    assert_eq!(parse_cell_ref("Sheet1!A"), Err(CellRefError::InvalidRow("Sheet1!A".to_string())));
    assert_eq!(parse_cell_ref("Sheet1!A0"), Err(CellRefError::InvalidRef("Sheet1!A0".to_string())));
    assert_eq!(parse_cell_ref("7"), Err(CellRefError::InvalidRef("7".to_string())));
    let formatted = format!("Calc!{}{}", col_letter(731), 99);
    assert_eq!(parse_cell_ref(&formatted), Ok(("Calc".to_string(), 99, 731)));
}

#[test]
fn references_render_with_anchors() {
    let single = Reference::new(Some("Sheet1".into()), 3, 2, 3, 2, false, false, false, false);
    assert!(single.is_single_cell());
    assert_eq!(single.to_string(), "Sheet1!B3");
    let range = Reference::new(None, 1, 1, 10, 27, true, true, false, true);
    assert!(range.is_range());
    assert_eq!(range.to_string(), "$A$1:$AA10");
    assert_eq!(range.row_end(), 10);
    assert_eq!(range.sheet(), None);
}

#[test]
fn corpus_text_helpers() {
    assert_eq!(resolve_output_path("/repo", "bench/x.xlsx"), "/repo/bench/x.xlsx");
    assert_eq!(resolve_output_path("/repo/", "/abs/x.xlsx"), "/abs/x.xlsx");
    assert_eq!(cfg_u32(Some(12), 5), 12);
    assert_eq!(cfg_u32(Some(u64::from(u32::MAX) + 1), 5), 5);
    assert_eq!(cfg_u32(None, 5), 5);
    assert_eq!(cfg_str(Some("K"), "Z"), "K");
    assert_eq!(cfg_str(None, "Z"), "Z");
    assert_eq!(replace("a{row}b{row}", "{row}", "7"), "a7b7");
    assert_eq!(replace("aaa", "aa", "b"), "ba");
    assert_eq!(render_formula_template("=SUM(A2:A{fact_last_row})+B{row}", 5, Some(101)), "=SUM(A2:A101)+B5");
    assert_eq!(render_formula_template("=A{row}+{fact_last_row}", 5, None), "=A5+{fact_last_row}");
    assert_eq!(lookup_key("K", 42), "K000042");
    assert_eq!(lookup_key("Key-", 1234567), "Key-1234567");
    assert_eq!(fact_id(7), "F000007");
    assert_eq!(dense_lookup_value(20), 147);
    assert_eq!(dense_lookup_checksum(20), 223);
}

fn text(r: Result<Vec<u8>, NormalizeError>) -> Result<String, NormalizeError> {
    r.map(|b| String::from_utf8(b).unwrap())
}

#[test]
fn styles_normalization_adds_missing_parts_once() {
    let xml = "<?xml version=\"1.0\"?><styleSheet xmlns=\"x\"><fonts/><cellXfs count=\"1\"><xf/></cellXfs></styleSheet>";
    let once = text(normalize_styles_xml(xml.as_bytes())).unwrap();
    assert_eq!(
        once,
        "<?xml version=\"1.0\"?><styleSheet xmlns=\"x\"><numFmts count=\"0\"/><fonts/><cellStyleXfs count=\"1\"><xf numFmtId=\"0\" fontId=\"0\" fillId=\"0\" borderId=\"0\"/></cellStyleXfs><cellXfs count=\"1\"><xf/></cellXfs><cellStyles count=\"1\"><cellStyle name=\"Normal\" xfId=\"0\" builtinId=\"0\"/></cellStyles></styleSheet>"
    );
    assert_eq!(text(normalize_styles_xml(once.as_bytes())).unwrap(), once);
    assert_eq!(text(normalize_styles_xml(b"<root/>")), Err(NormalizeError::Styles(StylesError::MissingStyleSheet)));
    assert_eq!(text(normalize_styles_xml(b"<styleSheet")), Err(NormalizeError::Styles(StylesError::MalformedStyleSheetOpen)));
    assert_eq!(text(normalize_styles_xml(&[0xff, 0xfe])), Err(NormalizeError::NotUtf8));
}

#[test]
fn worksheet_formulas_lose_their_equals_sign() {
    let xml = "<c r=\"B1\"><f>=A1+1</f></c><c><f t=\"shared\" si=\"0\">=A2</f></c>";
    assert_eq!(
        text(normalize_worksheet_formulas_xml(xml.as_bytes())).unwrap(),
        "<c r=\"B1\"><f>A1+1</f></c><c><f t=\"shared\" si=\"0\">A2</f></c>"
    );
    assert_eq!(text(normalize_worksheet_formulas_xml(&[0xc3])), Err(NormalizeError::NotUtf8));
}

#[test]
fn normalized_styles_hold_all_three_parts() {
    let xml = "<styleSheet xmlns=\"x\"><cellXfs count=\"1\"/></styleSheet>";
    let out = text(normalize_styles_xml(xml.as_bytes())).unwrap();
    assert!(out.contains("<numFmts"));
    assert!(out.contains("<cellStyleXfs"));
    assert!(out.contains("<cellStyles"));
    let complete = "<styleSheet><numFmts/><cellStyleXfs/><cellXfs/><cellStyles/></styleSheet>";
    assert_eq!(text(normalize_styles_xml(complete.as_bytes())).unwrap(), complete);
}

#[test]
fn style_inserts_edit_the_text_in_place() {
    let mut xml = String::from("<styleSheet a=\"1\"><cellXfs/></styleSheet>");
    insert_after_stylesheet_open(&mut xml, "<numFmts/>").unwrap();
    assert_eq!(xml, "<styleSheet a=\"1\"><numFmts/><cellXfs/></styleSheet>");
    insert_before_marker_or_stylesheet_end(&mut xml, "<cellXfs", "<cellStyleXfs/>").unwrap();
    assert_eq!(xml, "<styleSheet a=\"1\"><numFmts/><cellStyleXfs/><cellXfs/></styleSheet>");
    insert_after_marker_or_stylesheet_open(&mut xml, "</cellXfs>", "<cellStyles/>").unwrap();
    assert_eq!(xml, "<styleSheet a=\"1\"><cellStyles/><numFmts/><cellStyleXfs/><cellXfs/></styleSheet>");
    let mut bad = String::from("<root/>");
    assert_eq!(insert_after_stylesheet_open(&mut bad, "<x/>"), Err(StylesError::MissingStyleSheet));
    assert_eq!(bad, "<root/>");
}
