use graphql_containers::array::TryFromInputValueError;
use graphql_containers::ast::InputValue;
use graphql_containers::ast::ScalarValue;
use graphql_containers::resolve::FromInputValue;
use graphql_containers::scalar::ScalarDecodeError;
use graphql_containers::value::IntoFieldError;

#[test]
fn is_null_message() {
    let e: TryFromInputValueError<ScalarDecodeError> = TryFromInputValueError::IsNull;
    assert_eq!(
        e.into_field_error().message,
        "Failed to convert into exact-size array: Value cannot be null"
    );
}

#[test]
fn wrong_count_message_carries_both_counts() {
    let e: TryFromInputValueError<ScalarDecodeError> = TryFromInputValueError::WrongCount {
        actual: 2,
        expected: 3,
    };
    assert_eq!(
        e.into_field_error().message,
        "Failed to convert into exact-size array: wrong elements count: 2 instead of 3"
    );
}

#[test]
fn wrong_count_message_with_multi_digit_counts() {
    let e: TryFromInputValueError<ScalarDecodeError> = TryFromInputValueError::WrongCount {
        actual: 0,
        expected: 12345,
    };
    assert_eq!(
        e.into_field_error().message,
        "Failed to convert into exact-size array: wrong elements count: 0 instead of 12345"
    );
    let e2: TryFromInputValueError<ScalarDecodeError> = TryFromInputValueError::WrongCount {
        actual: 100,
        expected: 10,
    };
    assert_eq!(
        e2.into_field_error().message,
        "Failed to convert into exact-size array: wrong elements count: 100 instead of 10"
    );
}

#[test]
fn item_error_message_is_delegated_unmodified() {
    let e: TryFromInputValueError<ScalarDecodeError> =
        TryFromInputValueError::Item(ScalarDecodeError::ExpectedInt);
    assert_eq!(e.into_field_error().message, "Expected `Int` input value");
}

#[test]
fn scalar_error_messages() {
    assert_eq!(
        ScalarDecodeError::ExpectedInt.into_field_error().message,
        "Expected `Int` input value"
    );
    assert_eq!(
        ScalarDecodeError::ExpectedBoolean.into_field_error().message,
        "Expected `Boolean` input value"
    );
    assert_eq!(
        ScalarDecodeError::ExpectedStr.into_field_error().message,
        "Expected `String` input value"
    );
}

#[test]
fn scalar_decode_success_and_failure() {
    let int_ok = <i64 as FromInputValue>::try_from_input_value(&InputValue::Scalar(
        ScalarValue::Int(-7),
    ));
    assert_eq!(int_ok.unwrap(), -7);

    let bool_ok = <bool as FromInputValue>::try_from_input_value(&InputValue::Scalar(
        ScalarValue::Boolean(true),
    ));
    assert_eq!(bool_ok.unwrap(), true);

    let string_ok = <String as FromInputValue>::try_from_input_value(&InputValue::Scalar(
        ScalarValue::Str("hi".to_string()),
    ));
    assert_eq!(string_ok.unwrap(), "hi".to_string());

    let bool_err = <bool as FromInputValue>::try_from_input_value(&InputValue::Scalar(
        ScalarValue::Int(1),
    ));
    assert_eq!(bool_err.unwrap_err(), ScalarDecodeError::ExpectedBoolean);

    let string_err = <String as FromInputValue>::try_from_input_value(&InputValue::Null);
    assert_eq!(string_err.unwrap_err(), ScalarDecodeError::ExpectedStr);
}
