use fallible::interpolate::interpolate;

fn args(texts: &[&str]) -> Vec<String> {
    texts.iter().map(|t| String::from(*t)).collect()
}

#[test]
fn empty_template_yields_empty_string() {
    assert_eq!(interpolate("", &args(&[])), "");
}

#[test]
fn template_without_placeholders_is_unchanged() {
    assert_eq!(interpolate("nothing to fill", &args(&[])), "nothing to fill");
}

#[test]
fn single_placeholder_is_replaced() {
    assert_eq!(interpolate("a{}c", &args(&["b"])), "abc");
}

#[test]
fn placeholders_are_filled_in_order() {
    assert_eq!(interpolate("expected {} got {}", &args(&["i32", "f64"])), "expected i32 got f64");
}

#[test]
fn adjacent_placeholders_work() {
    assert_eq!(interpolate("{}{}", &args(&["x", "y"])), "xy");
}

#[test]
fn placeholder_at_start_and_end() {
    assert_eq!(interpolate("{} middle {}", &args(&["start", "end"])), "start middle end");
}

#[test]
fn placeholder_without_argument_stays_literal() {
    assert_eq!(interpolate("{} and {}", &args(&["only"])), "only and {}");
}

#[test]
fn extra_arguments_are_ignored() {
    assert_eq!(interpolate("just {}", &args(&["one", "two"])), "just one");
}

#[test]
fn lone_braces_stay_literal() {
    assert_eq!(interpolate("a { b } c", &args(&["unused"])), "a { b } c");
}

#[test]
fn named_brace_content_stays_literal() {
    assert_eq!(interpolate("a{b}", &args(&["x"])), "a{b}");
}

#[test]
fn matches_standard_formatting_on_simple_cases() {
    assert_eq!(interpolate("sum of {} and {}", &args(&["2", "3"])), format!(
        "sum of {} and {}",
        "2", "3"
    ));
}

#[test]
fn handles_multibyte_characters() {
    assert_eq!(interpolate("caf\u{e9} {} th\u{e9}", &args(&["au"])), "caf\u{e9} au th\u{e9}");
    assert_eq!(interpolate("{}", &args(&["\u{1F980}"])), "\u{1F980}");
}

#[test]
fn empty_argument_is_substituted_as_nothing() {
    assert_eq!(interpolate("a{}b", &args(&[""])), "ab");
}
