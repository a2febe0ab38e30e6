use mse_history::securities::{contains_numeric, list_securities, securities_from_options};

#[test]
fn options_with_digits_are_not_securities() {
    let page = "<html><body><select>\
<option>ADIN</option><option>ALK</option><option>MBI10</option><option>KMB</option>\
<option>OMB 2024</option></select></body></html>";
    assert_eq!(list_securities(page), vec!["ADIN", "ALK", "KMB"]);
}

#[test]
fn page_without_options_lists_nothing() {
    assert!(list_securities("<html></html>").is_empty());
}

#[test]
fn numeric_characters_are_found() {
    assert!(contains_numeric("MBI10"));
    assert!(contains_numeric("x½"));
    assert!(!contains_numeric("TEL"));
    assert!(!contains_numeric(""));
    let texts = vec!["A1".to_string(), "B".to_string(), "".to_string()];
    assert_eq!(securities_from_options(texts), vec!["B".to_string(), "".to_string()]);
}
