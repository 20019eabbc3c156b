use fletcher::extract::{extract, is_evaluable, normalize_query, ParsedDocument};

const EXAMPLE: &str = "<!doctype html>\n<html>\n<head>\n    <title>Example Domain</title>\n    <meta charset=\"utf-8\" />\n</head>\n<body>\n<div>\n    <h1>Example Domain</h1>\n    <p>This domain is for use in illustrative examples in documents.</p>\n    <p><a href=\"https://www.iana.org/domains/example\">More information...</a></p>\n</div>\n</body>\n</html>\n";

fn texts(list: &[&str]) -> Option<Vec<String>> {
    Some(list.iter().map(|s| s.to_string()).collect())
}

#[test]
fn single_heading() {
    let res = extract("<html><body><h1>Example Domain</h1></body></html>", &["descendant::h1"]);
    assert_eq!(res, Ok(vec![texts(&["Example Domain"])]));
}

#[test]
fn relative_and_absolute_form_agree() {
    let res = extract(EXAMPLE, &["descendant::h1", "/descendant::h1", "descendant::p", "/descendant::p"]).unwrap();
    assert_eq!(res[0], res[1]);
    assert_eq!(res[0], texts(&["Example Domain"]));
    assert_eq!(res[2], res[3]);
    assert_eq!(res[2].as_ref().unwrap().len(), 2);
}

#[test]
fn queries_are_normalized_exactly() {
    assert_eq!(normalize_query("descendant::h1"), "/descendant::h1");
    assert_eq!(normalize_query("/descendant::h1"), "/descendant::h1");
    assert_eq!(normalize_query("//h1"), "//h1");
    assert_eq!(normalize_query(""), "/");
    assert_eq!(normalize_query("/"), "/");
    assert_eq!(normalize_query(" /html"), "/ /html");
    assert_eq!(normalize_query("\u{e4}/b"), "/\u{e4}/b");
    assert_eq!(normalize_query("html/body"), "/html/body");
}

#[test]
fn a_query_with_a_zero_byte_is_not_evaluable() {
    assert!(is_evaluable("/descendant::h1"));
    assert!(is_evaluable(""));
    assert!(is_evaluable("/\u{e4}\u{4e16}"));
    assert!(!is_evaluable("/descendant::h1\u{0}"));
    assert!(!is_evaluable("\u{0}"));
    let res = extract(EXAMPLE, &["descendant::h1\u{0}", "descendant::h1"]);
    assert_eq!(res, Ok(vec![None, texts(&["Example Domain"])]));
}

#[test]
fn a_failing_query_leaves_the_others_alone() {
    let queries = ["descendant::h1", "descendant::h1[", "descendant::title", "///", "descendant::nothing"];
    let res = extract(EXAMPLE, &queries).unwrap();
    assert_eq!(res.len(), queries.len());
    assert_eq!(res[0], texts(&["Example Domain"]));
    assert_eq!(res[1], None);
    assert_eq!(res[2], texts(&["Example Domain"]));
    assert_eq!(res[3], None);
    assert_eq!(res[4], texts(&[]));
    let alone = extract(EXAMPLE, &["descendant::title"]).unwrap();
    assert_eq!(alone[0], res[2]);
}

#[test]
fn a_failing_query_first_and_last() {
    let res = extract(EXAMPLE, &["]", "descendant::h1", "descendant::h1", "("]).unwrap();
    assert_eq!(res, vec![None, texts(&["Example Domain"]), texts(&["Example Domain"]), None]);
}

#[test]
fn no_queries_give_no_results() {
    assert_eq!(extract(EXAMPLE, &[]), Ok(Vec::new()));
}

#[test]
fn matches_come_in_document_order_with_duplicates() {
    let html = "<html><body><ul><li>b</li><li>a</li><li>b</li><li></li><li>c <b>d</b></li></ul></body></html>";
    let res = extract(html, &["descendant::li", "descendant::li", "//li/b"]).unwrap();
    assert_eq!(res[0], texts(&["b", "a", "b", "", "c d"]));
    assert_eq!(res[1], res[0]);
    assert_eq!(res[2], texts(&["d"]));
}

#[test]
fn malformed_markup_is_parsed_leniently() {
    let html = "<html><body><h1>Open<p>un<b>closed<div></span><h1>Second</h1>";
    let res = extract(html, &["descendant::h1"]).unwrap();
    let found = res[0].as_ref().unwrap();
    assert_eq!(found.len(), 2);
    assert_eq!(found[1], "Second");
}

#[test]
fn text_beyond_ascii_is_kept() {
    let html = "<html><head><meta charset=\"utf-8\"></head><body><h1>Gr\u{fc}\u{df}e \u{4e16}\u{754c}</h1></body></html>";
    let res = extract(html, &["descendant::h1"]).unwrap();
    assert_eq!(res[0], texts(&["Gr\u{fc}\u{df}e \u{4e16}\u{754c}"]));
}

#[test]
fn a_parsed_document_answers_one_query_at_a_time() {
    let page = match ParsedDocument::parse(EXAMPLE) {
        Ok(page) => page,
        Err(e) => panic!("no document: {:?}", e),
    };
    assert_eq!(page.query("descendant::h1"), texts(&["Example Domain"]));
    assert_eq!(page.query("/descendant::h1"), texts(&["Example Domain"]));
    assert_eq!(page.query("descendant::h1["), None);
    assert_eq!(page.query("descendant::h2"), texts(&[]));
    assert_eq!(page.query("descendant::h1"), texts(&["Example Domain"]));
    assert_eq!(page.query_all(&["descendant::h1", "!", "descendant::a"]), vec![texts(&["Example Domain"]), None, texts(&["More information..."])]);
}

#[test]
fn a_query_that_selects_no_nodes_gives_an_empty_list() {
    let res = extract(EXAMPLE, &["descendant::table", "/html = 1", "/html/body/h1"]).unwrap();
    assert_eq!(res, vec![texts(&[]), texts(&[]), texts(&[])]);
}

#[test]
fn a_function_call_cannot_follow_the_root() {
    // in absolute form these read `/count(//p)` and `/string(//h1)`
    let res = extract(EXAMPLE, &["count(//p)", "string(//h1)", "descendant::h1"]).unwrap();
    assert_eq!(res, vec![None, None, texts(&["Example Domain"])]);
}
