use iqrah_core::import::footnotes::extract_footnotes;

#[test]
fn test_extract_footnotes() {
    let text = "In the name of Allāh,[[Footnote 1]] the Merciful.[[Footnote 2]]";
    let (main, footnotes) = extract_footnotes(text);

    assert_eq!(main, "In the name of Allāh, the Merciful.");
    assert!(footnotes.is_some());

    let footnotes_vec: Vec<String> = serde_json::from_str(&footnotes.unwrap()).unwrap();
    assert_eq!(footnotes_vec.len(), 2);
    assert_eq!(footnotes_vec[0], "Footnote 1");
    assert_eq!(footnotes_vec[1], "Footnote 2");
}

#[test]
fn test_extract_no_footnotes() {
    let text = "Simple translation text.";
    let (main, footnotes) = extract_footnotes(text);

    assert_eq!(main, "Simple translation text.");
    assert!(footnotes.is_none());
}
