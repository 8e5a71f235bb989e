use fallible::Error;
use fallible::ErrorVariant;
use fallible::ExplainUnwrap;

#[test]
fn unwrap_assert_returns_contained_option_value() {
    let value: Option<u32> = Some(5);
    assert_eq!(value.unwrap_assert("constructed as Some just above"), 5);
}

#[test]
fn unwrap_test_returns_contained_option_value() {
    let value: Option<String> = Some(String::from("payload"));
    assert_eq!(value.unwrap_test(), "payload");
}

#[test]
fn unwrap_assert_returns_contained_result_value() {
    let value: Result<u8, Error> = Ok(7);
    assert_eq!(value.unwrap_assert("constructed as Ok just above"), 7);
}

#[test]
fn unwrap_test_returns_contained_result_value() {
    let value: Result<&str, Error> = Ok("payload");
    assert_eq!(value.unwrap_test(), "payload");
}

#[test]
fn unwrap_helpers_preserve_compound_values() {
    let original = vec![1u64, 2, 3];
    let value: Result<Vec<u64>, ErrorVariant> = Ok(original.clone());
    assert_eq!(value.unwrap_test(), original);
    let optional: Option<Vec<u64>> = Some(original.clone());
    assert_eq!(optional.unwrap_assert("constructed as Some just above"), original);
}
