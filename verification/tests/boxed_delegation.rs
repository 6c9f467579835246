use graphql_containers::array::ExactSizeArray;
use graphql_containers::array::TryFromInputValueError;
use graphql_containers::ast::InputValue;
use graphql_containers::ast::ScalarValue;
use graphql_containers::ast::Spanning;
use graphql_containers::meta::MetaType;
use graphql_containers::meta::ScalarKind;
use graphql_containers::resolve::Bindable;
use graphql_containers::resolve::FromInputValue;
use graphql_containers::resolve::ResolveValue;
use graphql_containers::resolve::ToInputValue;
use graphql_containers::scalar::ScalarDecodeError;
use graphql_containers::value::OutputValue;

#[test]
fn boxed_to_input_value_equals_inner() {
    let inner: i64 = 5;
    let boxed: Box<i64> = Box::new(5);
    assert_eq!(boxed.to_input_value(), inner.to_input_value());
}

#[test]
fn boxed_decode_equals_inner_decode_then_wrap() {
    let v = InputValue::Scalar(ScalarValue::Int(9));
    let direct = <i64 as FromInputValue>::try_from_input_value(&v).unwrap();
    let boxed = <Box<i64> as FromInputValue>::try_from_input_value(&v).unwrap();
    assert_eq!(*boxed, direct);
}

#[test]
fn boxed_decode_forwards_error() {
    let v = InputValue::Scalar(ScalarValue::Boolean(false));
    let r = <Box<i64> as FromInputValue>::try_from_input_value(&v);
    assert_eq!(r.unwrap_err(), ScalarDecodeError::ExpectedInt);
}

#[test]
fn boxed_implicit_null_forwards() {
    let r = <Box<i64> as FromInputValue>::try_from_implicit_null();
    assert_eq!(r.unwrap_err(), ScalarDecodeError::ExpectedInt);
}

#[test]
fn boxed_meta_is_inner_meta() {
    assert_eq!(<Box<bool> as Bindable>::meta(), MetaType::Scalar(ScalarKind::Boolean));
    assert_eq!(<Box<bool> as Bindable>::meta(), <bool as Bindable>::meta());
}

#[test]
fn boxed_resolve_forwards() {
    let boxed: Box<bool> = Box::new(true);
    let out = boxed.resolve_value().unwrap();
    assert_eq!(out, OutputValue::Scalar(ScalarValue::Boolean(true)));
}

#[test]
fn array_of_boxed_elements_round_trips() {
    let entries = vec![
        Spanning::unlocated(InputValue::Scalar(ScalarValue::Int(1))),
        Spanning::unlocated(InputValue::Scalar(ScalarValue::Int(2))),
    ];
    let v = InputValue::list(entries);
    let arr = ExactSizeArray::<Box<i64>, 2>::try_from_input_value(&v).unwrap();
    let encoded = arr.to_input_value();
    assert_eq!(encoded, v);
    let unboxed: Vec<i64> = arr.into_vec().into_iter().map(|b| *b).collect();
    assert_eq!(unboxed, vec![1, 2]);
}

#[test]
fn boxed_array_decodes_null_to_is_null() {
    let r = <Box<ExactSizeArray<i64, 2>> as FromInputValue>::try_from_input_value(
        &InputValue::Null,
    );
    assert_eq!(r.unwrap_err(), TryFromInputValueError::IsNull);
}
