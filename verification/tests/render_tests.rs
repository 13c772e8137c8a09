use chat_relay::payload::{Citation, Suggestion};
use chat_relay::render::{decimal_string, render};

fn citation(name: &str, url: &str) -> Citation {
    Citation { name: name.to_string(), url: url.to_string() }
}

fn suggestion(text: &str) -> Suggestion {
    Suggestion { text: text.to_string() }
}

#[test]
fn decimal_of_zero() {
    assert_eq!(decimal_string(0), "0");
}

#[test]
fn decimal_of_single_digit() {
    assert_eq!(decimal_string(7), "7");
}

#[test]
fn decimal_of_round_number() {
    assert_eq!(decimal_string(10), "10");
}

#[test]
fn decimal_of_many_digits() {
    assert_eq!(decimal_string(1203), "1203");
}

#[test]
fn decimal_of_largest_value() {
    assert_eq!(decimal_string(u64::MAX), "18446744073709551615");
}

#[test]
fn render_plain_is_identity() {
    let out = render(&"An answer.".to_string(), None, None);
    assert_eq!(out, "An answer.");
}

#[test]
fn render_empty_lists_is_identity() {
    let cits: Vec<Citation> = Vec::new();
    let sugs: Vec<Suggestion> = Vec::new();
    let out = render(&"X".to_string(), Some(&cits), Some(&sugs));
    assert_eq!(out, "X");
}

#[test]
fn render_empty_text_is_empty() {
    let out = render(&String::new(), None, None);
    assert_eq!(out, "");
}

#[test]
fn render_two_citations_exactly() {
    let cits = vec![citation("A", "http://a"), citation("B", "http://b")];
    let out = render(&"X".to_string(), Some(&cits), None);
    assert_eq!(out, "X\n\nLearn more:\n1: [A](http://a)\n2: [B](http://b)");
}

#[test]
fn render_one_citation_has_no_trailing_newline() {
    let cits = vec![citation("Site", "https://s")];
    let out = render(&"Y".to_string(), Some(&cits), None);
    assert_eq!(out, "Y\n\nLearn more:\n1: [Site](https://s)");
}

#[test]
fn render_suggestions_exactly() {
    let sugs = vec![suggestion("more?"), suggestion("why?")];
    let out = render(&"Z".to_string(), None, Some(&sugs));
    assert_eq!(out, "Z\n\n_Suggested responses:_\n_1: more?_\n_2: why?_");
}

#[test]
fn render_citations_then_suggestions() {
    let cits = vec![citation("A", "http://a")];
    let sugs = vec![suggestion("next")];
    let out = render(&"T".to_string(), Some(&cits), Some(&sugs));
    assert_eq!(
        out,
        "T\n\nLearn more:\n1: [A](http://a)\n\n_Suggested responses:_\n_1: next_"
    );
}

#[test]
fn render_keeps_backend_order() {
    let cits = vec![citation("Z", "http://z"), citation("A", "http://a"), citation("Z", "http://z")];
    let out = render(&"o".to_string(), Some(&cits), None);
    assert_eq!(
        out,
        "o\n\nLearn more:\n1: [Z](http://z)\n2: [A](http://a)\n3: [Z](http://z)"
    );
}

#[test]
fn render_ten_plus_entries_index_correctly() {
    let cits: Vec<Citation> = (1..=11).map(|i| citation("n", &format!("u{i}"))).collect();
    let out = render(&String::from("h"), Some(&cits), None);
    assert!(out.ends_with("11: [n](u11)"));
}
