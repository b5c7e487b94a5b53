use templating::errors::{ErrorKind, ServiceError};
use templating::messages::{InputValue, TemplateInput};
use templating::service::compose::{compose, merge_inputs};
use templating::service::guard::{is_taken, MAX_DEPTH};

fn input(name: &str, default_value: &str) -> TemplateInput {
    TemplateInput { name: name.to_string(), default_value: default_value.to_string() }
}

fn value(name: &str, value: &str) -> InputValue {
    InputValue { name: name.to_string(), value: value.to_string() }
}

fn pairs(merged: Vec<InputValue>) -> Vec<(String, String)> {
    merged.into_iter().map(|v| (v.name, v.value)).collect()
}

fn pair(name: &str, value: &str) -> (String, String) {
    (name.to_string(), value.to_string())
}

fn assert_render_failure(result: Result<String, ServiceError>) {
    let error = result.unwrap_err();
    assert_eq!(error.kind(), ErrorKind::Internal);
    assert_eq!(error.message(), "Failed to render template");
    assert!(matches!(error, ServiceError::InternalServerErrorWithContext(_)));
}

#[test]
fn compose_uses_default_without_override() {
    let text = compose("hi {{x}}", &vec![input("x", "dv")], &vec![]).unwrap();
    assert_eq!(text, "hi dv");
}

#[test]
fn compose_prefers_override() {
    let text = compose("hi {{x}}", &vec![input("x", "dv")], &vec![value("x", "ov")]).unwrap();
    assert_eq!(text, "hi ov");
}

#[test]
fn compose_accepts_override_without_default() {
    let text = compose("{{a}}-{{b}}", &vec![input("a", "1")], &vec![value("b", "2")]).unwrap();
    assert_eq!(text, "1-2");
}

#[test]
fn compose_renders_unknown_placeholder_as_empty() {
    let text = compose("[{{missing}}]", &vec![input("x", "dv")], &vec![]).unwrap();
    assert_eq!(text, "[]");
}

#[test]
fn compose_renders_empty_default() {
    let text = compose("[{{x}}]", &vec![input("x", "")], &vec![]).unwrap();
    assert_eq!(text, "[]");
}

#[test]
fn compose_escapes_values_for_html() {
    let text = compose("<p>{{x}}</p>", &vec![input("x", "a<b & \"c\"")], &vec![]).unwrap();
    assert_eq!(text, "<p>a&lt;b &amp; &quot;c&quot;</p>");
    let raw = compose("<p>{{{x}}}</p>", &vec![input("x", "a<b")], &vec![]).unwrap();
    assert_eq!(raw, "<p>a<b</p>");
}

#[test]
fn compose_leaves_plain_text_alone() {
    let text = compose("template body {input_name} > x", &vec![input("input_name", "v")], &vec![])
        .unwrap();
    assert_eq!(text, "template body {input_name} > x");
}

#[test]
fn compose_reports_malformed_body() {
    assert_render_failure(compose("hi {{x", &vec![input("x", "dv")], &vec![]));
    assert_render_failure(compose("{{#if x}}never closed", &vec![input("x", "dv")], &vec![]));
}

#[test]
fn merge_keeps_one_entry_per_name() {
    let merged = merge_inputs(
        &vec![input("a", "1"), input("b", "2"), input("a", "3")],
        &vec![value("b", "4"), value("c", "5")],
    );
    assert_eq!(pairs(merged), vec![pair("a", "3"), pair("b", "4"), pair("c", "5")]);
}

#[test]
fn merge_last_override_wins() {
    let merged = merge_inputs(&vec![input("x", "dv")], &vec![value("x", "1"), value("x", "2")]);
    assert_eq!(pairs(merged), vec![pair("x", "2")]);
    let text =
        compose("{{x}}", &vec![input("x", "dv")], &vec![value("x", "1"), value("x", "2")]).unwrap();
    assert_eq!(text, "2");
}

#[test]
fn merge_of_nothing_is_empty() {
    assert_eq!(pairs(merge_inputs(&vec![], &vec![])), vec![]);
}

fn nested_blocks(depth: usize) -> String {
    "{{#if a}}".repeat(depth) + "x" + &"{{/if}}".repeat(depth)
}

fn nested_subexpressions(depth: usize) -> String {
    "{{not ".to_string() + &"(not ".repeat(depth) + "a" + &")".repeat(depth) + "}}"
}

fn nested_arrays(depth: usize) -> String {
    "{{len ".to_string() + &"[".repeat(depth) + &"]".repeat(depth) + "}}"
}

fn nested_objects(depth: usize) -> String {
    "{{len ".to_string() + &"{\"k\":".repeat(depth) + "1" + &"}".repeat(depth) + "}}"
}

#[test]
fn nesting_up_to_the_limit_is_rendered() {
    let a = vec![input("a", "1")];
    assert_eq!(compose(&nested_blocks(MAX_DEPTH), &a, &vec![]).unwrap(), "x");
    // An even number of negations of a value that counts as true.
    assert_eq!(compose(&nested_subexpressions(MAX_DEPTH), &a, &vec![]).unwrap(), "false");
    assert_eq!(compose(&nested_subexpressions(MAX_DEPTH - 1), &a, &vec![]).unwrap(), "true");
    assert!(compose(&nested_objects(MAX_DEPTH), &a, &vec![]).is_ok());
}

#[test]
fn nesting_at_the_limit_in_every_way_at_once_is_rendered() {
    let tag = "{{#if ".to_string() + &"(not ".repeat(MAX_DEPTH) + "a" + &")".repeat(MAX_DEPTH) + "}}";
    let inner = tag.repeat(MAX_DEPTH - 1) + "x" + &"{{/if}}".repeat(MAX_DEPTH - 1);
    let body = "{{#*inline \"p\"}}".to_string()
        + &inner
        + "{{/inline}}"
        + &tag.repeat(MAX_DEPTH)
        + "{{> p}}"
        + &"{{/if}}".repeat(MAX_DEPTH);
    assert!(is_taken(&body));
    assert_eq!(compose(&body, &vec![input("a", "1")], &vec![]).unwrap(), "x");
}

#[test]
fn nesting_past_the_limit_is_refused() {
    let a = vec![input("a", "1")];
    assert_render_failure(compose(&nested_blocks(MAX_DEPTH + 1), &a, &vec![]));
    assert_render_failure(compose(&nested_subexpressions(MAX_DEPTH + 1), &a, &vec![]));
    assert_render_failure(compose(&nested_arrays(MAX_DEPTH + 1), &a, &vec![]));
    assert_render_failure(compose(&nested_objects(MAX_DEPTH + 1), &a, &vec![]));
    assert_render_failure(compose(&nested_blocks(300), &a, &vec![]));
    assert_render_failure(compose(&nested_blocks(1000), &a, &vec![]));
    assert_render_failure(compose(&nested_subexpressions(300), &a, &vec![]));
    assert_render_failure(compose(&nested_subexpressions(100000), &a, &vec![]));
    assert_render_failure(compose(&nested_arrays(100000), &a, &vec![]));
    assert_render_failure(compose(&nested_objects(100000), &a, &vec![]));
}

#[test]
fn blocks_side_by_side_are_rendered() {
    let a = vec![input("a", "1")];
    assert_eq!(compose(&"{{#if a}}x{{/if}}".repeat(500), &a, &vec![]).unwrap(), "x".repeat(500));
    let pairs = nested_blocks(MAX_DEPTH).repeat(20);
    assert_eq!(compose(&pairs, &a, &vec![]).unwrap(), "x".repeat(20));
}

#[test]
fn brackets_in_text_and_in_strings_do_not_count() {
    let a = vec![input("a", "b")];
    let body = "{{#if (eq a \"b\")}}yes{{/if}}".to_string() + &" (see below)".repeat(500);
    assert_eq!(compose(&body, &a, &vec![]).unwrap(), "yes".to_string() + &" (see below)".repeat(500));
    let body = "{{eq a \"((((}}{{/if}}[[[\"}}".repeat(200);
    assert_eq!(compose(&body, &a, &vec![]).unwrap(), "false".repeat(200));
    let body = "{{not (not a)}} a { color: rgb(0, 0, 0); } [x] ".repeat(500);
    assert!(compose(&body, &a, &vec![]).is_ok());
}

#[test]
fn inline_partials_are_rendered() {
    let a = vec![input("a", "1"), input("x", "v")];
    let body = "{{#*inline \"row\"}}<{{x}}>{{/inline}}{{> row}}{{#if a}}{{> row}}{{/if}}";
    assert_eq!(compose(body, &a, &vec![]).unwrap(), "<v><v>");
    assert_eq!(compose("{{#> row}}fallback{{/row}}", &a, &vec![]).unwrap(), "fallback");
    assert_eq!(compose("[{{> missing}}]", &a, &vec![]).unwrap(), "[]");
}

#[test]
fn partials_that_call_partials_are_refused() {
    assert_render_failure(compose(
        "{{#*inline \"p\"}}a{{> p}}{{/inline}}{{> p}}",
        &vec![],
        &vec![],
    ));
    assert_render_failure(compose(
        "{{#*inline \"p\"}}{{> q}}{{/inline}}{{#*inline \"q\"}}{{> p}}{{/inline}}{{> p}}",
        &vec![],
        &vec![],
    ));
    assert!(!is_taken("{{#> p}}x{{> @partial-block}}{{/p}}"));
    assert!(!is_taken("{{#*inline \"p\"}}{{#if a}}{{~> p}}{{/if}}{{/inline}}"));
    assert!(!is_taken("{{#> p}}{{#> q}}{{/q}}{{/p}}"));
    assert!(is_taken("{{#*inline \"p\"}}x{{/inline}}{{> p}}{{> p}}"));
    assert!(is_taken("{{#> p}}x{{/p}}{{#> q}}y{{/q}}"));
}

#[test]
fn what_the_scan_does_not_follow_counts_on() {
    let blocks = "{{#if a}}x{{/if}}".repeat(MAX_DEPTH + 1);
    assert!(is_taken(&blocks));
    assert!(is_taken(&("{{! a comment }}".to_string() + &blocks)));
    assert!(is_taken(&("{{eq a \"{{{{\"}}".to_string() + &blocks)));
    assert!(!is_taken(&("\\{{a}}".to_string() + &blocks)));
    assert!(!is_taken(&("{{{{raw}}}}x{{{{/raw}}}}".to_string() + &blocks)));
    assert!(!is_taken(&("{{!-- a comment --}}".to_string() + &blocks)));
    assert!(!is_taken(&("{{a.[key]}}".to_string() + &blocks)));
    assert!(!is_taken(&("{{#if a}}x{{/'if'}}".to_string() + &blocks)));
    assert!(is_taken(&("\\{{a}}".to_string() + &"{{#if a}}x{{/if}}".repeat(MAX_DEPTH))));
    assert!(!is_taken("{{a.[key]}}{{> p}}"));
    assert!(!is_taken("\\{{a}} {{ # > p}}x{{/p}}"));
    let brackets = " (x) [y] {z}".repeat(MAX_DEPTH);
    assert!(is_taken(&("{{a}}".to_string() + &brackets)));
    assert!(!is_taken(&("{{a.[key]}}".to_string() + &brackets)));
}

#[test]
fn a_body_with_quotes_outside_tags_is_rendered() {
    let body = "<a href=\"{{link}}\" style='color: rgb(1, 2, 3)'>{{label}} (new)</a>".repeat(200);
    let text = compose(&body, &vec![input("link", "l"), input("label", "b")], &vec![]).unwrap();
    assert_eq!(text, "<a href=\"l\" style='color: rgb(1, 2, 3)'>b (new)</a>".repeat(200));
}
