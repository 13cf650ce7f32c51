use mcp::text::{chars_of, join, join3, decimal_text};
use mcp::uri_template::template_uri_matches;
use mcp::Error;

#[test]
fn literal_template_matches_itself_only() {
    assert!(template_uri_matches("history://x", "history://x"));
    assert!(!template_uri_matches("history://x", "history://y"));
    assert!(!template_uri_matches("history://x", "history://"));
    assert!(!template_uri_matches("history://x", "history://xx"));
    assert!(template_uri_matches("", ""));
    assert!(!template_uri_matches("", "a"));
}

#[test]
fn simple_variable_matches_unreserved_text() {
    assert!(template_uri_matches("users://{id}", "users://42"));
    assert!(template_uri_matches("users://{id}", "users://alice-b_c.d~e"));
    assert!(template_uri_matches("users://{id}", "users://a%20b"));
    assert!(template_uri_matches("users://{id}", "users://"));
    assert!(!template_uri_matches("users://{id}", "users://a/b"));
    assert!(!template_uri_matches("users://{id}", "user://a"));
    assert!(!template_uri_matches("users://{id}", "users://a,b"));
}

#[test]
fn variable_between_literals() {
    assert!(template_uri_matches("file:///{dir}/{name}.txt", "file:///docs/readme.txt"));
    assert!(template_uri_matches("file:///{dir}/{name}.txt", "file:///docs/a.b.txt"));
    assert!(!template_uri_matches("file:///{dir}/{name}.txt", "file:///docs/readme.md"));
    assert!(!template_uri_matches("file:///{dir}/{name}.txt", "file:///a/b/c.txt"));
    assert!(template_uri_matches("a{x}b{y}c", "abc"));
    assert!(template_uri_matches("a{x}b{y}c", "a1b2c"));
    assert!(template_uri_matches("a{x}b{y}c", "abbbc"));
    assert!(!template_uri_matches("a{x}b{y}c", "a1c"));
}

#[test]
fn variable_list_allows_one_comma_per_further_variable() {
    assert!(template_uri_matches("p:{x,y}", "p:1,2"));
    assert!(template_uri_matches("p:{x,y}", "p:1"));
    assert!(template_uri_matches("p:{x,y}", "p:"));
    assert!(!template_uri_matches("p:{x,y}", "p:1,2,3"));
    assert!(template_uri_matches("p:{x,y,z}", "p:1,2,3"));
    assert!(!template_uri_matches("p:{x}", "p:1,2"));
}

#[test]
fn reserved_expansion_passes_delimiters() {
    assert!(template_uri_matches("file://{+path}", "file:///usr/local/bin?x=1"));
    assert!(template_uri_matches("file://{+path}", "file://"));
    assert!(!template_uri_matches("file://{+path}", "file://a b"));
    assert!(!template_uri_matches("file://{+path}", "fil://a"));
}

#[test]
fn fragment_expansion_starts_with_hash() {
    assert!(template_uri_matches("doc{#section}", "doc#intro"));
    assert!(template_uri_matches("doc{#section}", "doc#a/b"));
    assert!(template_uri_matches("doc{#section}", "doc"));
    assert!(template_uri_matches("doc{#section}", "doc#"));
    assert!(!template_uri_matches("doc{#section}", "docintro"));
}

#[test]
fn label_and_path_expansions() {
    assert!(template_uri_matches("www{.dom}", "www.example.com"));
    assert!(template_uri_matches("www{.dom}", "www"));
    assert!(!template_uri_matches("www{.dom}", "wwwexample"));
    assert!(template_uri_matches("repo{/owner,name}", "repo/rust/cargo"));
    assert!(template_uri_matches("repo{/owner,name}", "repo/rust"));
    assert!(template_uri_matches("repo{/owner,name}", "repo"));
    assert!(!template_uri_matches("repo{/owner,name}", "repo/a/b/c"));
    assert!(!template_uri_matches("repo{/owner}", "repo/a/b"));
}

#[test]
fn malformed_template_matches_nothing() {
    assert!(!template_uri_matches("a{x", "a"));
    assert!(!template_uri_matches("a{x", "a{x"));
    assert!(!template_uri_matches("a}x", "a}x"));
    assert!(!template_uri_matches("a{}", "a"));
    assert!(!template_uri_matches("a{?q}", "a?q=1"));
    assert!(!template_uri_matches("a{;q}", "a;q=1"));
    assert!(!template_uri_matches("a{&q}", "a&q=1"));
    assert!(!template_uri_matches("a{x:3}", "aabc"));
    assert!(!template_uri_matches("a{x*}", "aabc"));
    assert!(!template_uri_matches("a{,x}", "a1"));
    assert!(!template_uri_matches("a{x,}", "a1"));
    assert!(!template_uri_matches("a{x,,y}", "a1"));
    assert!(!template_uri_matches("a{+}", "a"));
    assert!(!template_uri_matches("a{{x}}", "a"));
}

#[test]
fn dotted_variable_names_are_names() {
    assert!(template_uri_matches("a/{user.id}", "a/7"));
    assert!(!template_uri_matches("a/{user..id}", "a/7"));
    assert!(!template_uri_matches("a/{user.}", "a/7"));
}

#[test]
fn non_ascii_address_is_no_expansion_of_a_variable() {
    assert!(!template_uri_matches("a/{x}", "a/é"));
    assert!(template_uri_matches("a/é", "a/é"));
}

#[test]
fn strings_are_put_together_in_order() {
    assert_eq!(join("ab", "cd"), "abcd");
    assert_eq!(join3("a", "", "c"), "ac");
    assert_eq!(chars_of("héllo"), vec!['h', 'é', 'l', 'l', 'o']);
    assert_eq!(chars_of(""), Vec::<char>::new());
}

#[test]
fn decimal_text_of_integers() {
    assert_eq!(decimal_text(0), "0");
    assert_eq!(decimal_text(7), "7");
    assert_eq!(decimal_text(10), "10");
    assert_eq!(decimal_text(404), "404");
    assert_eq!(decimal_text(-32601), "-32601");
    assert_eq!(decimal_text(i32::MAX), "2147483647");
    assert_eq!(decimal_text(i32::MIN), "-2147483648");
}

#[test]
fn error_describes_itself_with_code_and_message() {
    let e = Error::new(404, "Tool 'nope' not found");
    assert_eq!(e.describe(), "Error 404: Tool 'nope' not found");
    assert_eq!(Error::not_found("Tool", "nope"), e);
    assert_eq!(
        Error::bad_arguments("missing field `message`"),
        Error::new(400, "Failed to deserialize arguments: missing field `message`")
    );
    assert_eq!(Error::construction("missing uri"), Error::new(500, "missing uri"));
    assert_eq!(Error::not_implemented(), Error::new(501, "not implemented"));
    assert_eq!(Error::not_implemented().describe(), "Error 501: not implemented");
}
