use yahoo_finance::page::{embedded_store, store_range};

#[test]
fn finds_the_marked_line() {
    let page = "<html>\n<script>\n  root.App.main = {\"context\":{}};  \r\n</script>\n";
    assert_eq!(embedded_store(page), Some("{\"context\":{}}".to_string()));
}

#[test]
fn first_marked_line_wins() {
    let page = "root.App.main={\"a\":1};\nroot.App.main = {\"b\":2};";
    assert_eq!(embedded_store(page), Some("{\"a\":1}".to_string()));
}

#[test]
fn marker_must_start_the_line() {
    let page = "var x = root.App.main;\nnothing here";
    assert_eq!(embedded_store(page), None);
    assert_eq!(embedded_store(""), None);
}

#[test]
fn trailing_semicolons_and_assignment_are_removed() {
    let page = "\t root.App.main  ==  [1, 2];;; ";
    assert_eq!(embedded_store(page), Some("[1, 2]".to_string()));
    assert_eq!(store_range(page.as_bytes()), Some((21, 27)));
}

#[test]
fn non_ascii_text_is_kept() {
    let page = "root.App.main = {\"name\":\"Soci\u{e9}t\u{e9} G\u{e9}n\u{e9}rale\"};\n";
    assert_eq!(
        embedded_store(page),
        Some("{\"name\":\"Soci\u{e9}t\u{e9} G\u{e9}n\u{e9}rale\"}".to_string())
    );
}
