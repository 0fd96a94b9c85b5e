use cnctd_ai::util::{contains_text, json_candidates, parse_json, starts_with_text, strip_fences};
use serde_json::Value;

fn value(s: &str) -> Value {
    serde_json::from_str::<Value>(s).unwrap()
}

#[test]
fn parse_raw_json() {
    assert_eq!(parse_json("{\"a\":1}"), Ok(value("{\"a\": 1}")));
    assert_eq!(parse_json(" [1, 2] "), Ok(value("[1,2]")));
}

#[test]
fn parse_brace_span_inside_prose() {
    let r = parse_json("Sure! Here it is: {\"a\": {\"b\": 2}} hope that helps");
    assert_eq!(r, Ok(value("{\"a\":{\"b\":2}}")));
}

#[test]
fn parse_code_fenced_json() {
    let r = parse_json("```json\n[1,2,3]\n```");
    assert_eq!(r, Ok(value("[1,2,3]")));
    let r = parse_json("  ```\n\"x\"\n```  ");
    assert_eq!(r, Ok(value("\"x\"")));
}

#[test]
fn parse_invalid_json_fails() {
    assert!(parse_json("not json at all").is_err());
    assert!(parse_json("} and {").is_err());
    assert!(parse_json("").is_err());
}

#[test]
fn candidates_in_order() {
    let c = json_candidates("x {\"a\":1} y");
    assert_eq!(c, vec!["x {\"a\":1} y".to_string(), "{\"a\":1}".to_string(), "x {\"a\":1} y".to_string()]);
    let c = json_candidates("}{");
    assert_eq!(c, vec!["}{".to_string(), "}{".to_string()]);
    let c = json_candidates("no braces");
    assert_eq!(c.len(), 2);
}

#[test]
fn fences_and_white_space_removed() {
    assert_eq!(strip_fences("\n```json```json\n{}\n``````\n"), "{}");
    assert_eq!(strip_fences("\u{a0}\t plain \u{3000}"), "plain");
    assert_eq!(strip_fences(""), "");
    assert_eq!(strip_fences("```"), "");
}

#[test]
fn substring_search() {
    assert!(contains_text("http 401 unauthorized", "401"));
    assert!(!contains_text("40", "401"));
    assert!(contains_text("abc", ""));
    assert!(contains_text("429", "429"));
}

#[test]
fn parse_error_is_last_candidate_error() {
    let expected = serde_json::from_str::<Value>("not json at all").unwrap_err().to_string();
    assert_eq!(parse_json("not json at all"), Err(expected));
    let expected = serde_json::from_str::<Value>("{oops}").unwrap_err().to_string();
    assert_eq!(parse_json("```json\n{oops}\n```"), Err(expected));
}

#[test]
fn prefix_check() {
    assert!(starts_with_text("Unauthorized. x", "Unauthorized"));
    assert!(!starts_with_text("Unauth", "Unauthorized"));
    assert!(starts_with_text("", ""));
}
