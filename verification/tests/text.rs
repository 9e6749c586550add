use sp_engine::text::{
    extract_json_block, find_sub, has_visible_char, str_eq, strip_newlines, strip_trailing, trim,
};

#[test]
fn compares_strings() {
    assert!(str_eq("retStatus", "retStatus"));
    assert!(!str_eq("retStatus", "retstatus"));
    assert!(str_eq("", ""));
}

#[test]
fn finds_substrings() {
    assert_eq!(find_sub("hello```json{}", "```json"), Some(5));
    assert_eq!(find_sub("abc", "```json"), None);
    assert_eq!(find_sub("aaa", "aa"), Some(0));
    assert_eq!(find_sub("abc", ""), Some(0));
    assert_eq!(find_sub("ab", "abc"), None);
}

#[test]
fn strips_line_breaks() {
    assert_eq!(strip_newlines("a\nb\r\nc"), "abc");
    assert_eq!(strip_newlines("plain"), "plain");
}

#[test]
fn trims_white_space() {
    assert_eq!(trim("  a b  "), "a b");
    assert_eq!(trim("\t\n x \u{a0}"), "x");
    assert_eq!(trim("   "), "");
    assert_eq!(trim(""), "");
}

#[test]
fn sees_visible_characters() {
    assert!(has_visible_char(" a "));
    assert!(!has_visible_char(" \t\n\u{a0}"));
    assert!(!has_visible_char(""));
}

#[test]
fn strips_trailing_slashes() {
    assert_eq!(strip_trailing("https://e///", '/'), "https://e");
    assert_eq!(strip_trailing("no-slash", '/'), "no-slash");
    assert_eq!(strip_trailing("///", '/'), "");
}

#[test]
fn extracts_fenced_json() {
    let reply = "Here you go:\n```json\n{\"bank\": \"X\"}\n```\nthanks";
    assert_eq!(extract_json_block(reply), Some("{\"bank\": \"X\"}".to_string()));
}

#[test]
fn extraction_needs_an_opening_fence() {
    assert_eq!(extract_json_block("no fences here"), None);
    assert_eq!(extract_json_block("``` not json ```"), None);
}

#[test]
fn extraction_stops_at_the_next_fence() {
    assert_eq!(extract_json_block("```json A ``` B ```"), Some("A".to_string()));
    assert_eq!(extract_json_block("```jsonA```jsonB"), Some("A".to_string()));
}

#[test]
fn extraction_takes_the_rest_without_a_closing_fence() {
    assert_eq!(extract_json_block("```json {\"a\":1} "), Some("{\"a\":1}".to_string()));
}

#[test]
fn extraction_flattens_multiline_json() {
    let reply = "```json\n{\r\n \"a\": 1\r\n}\n```";
    assert_eq!(extract_json_block(reply), Some("{ \"a\": 1}".to_string()));
}
