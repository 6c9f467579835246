use graphql_containers::array::ExactSizeArray;
use graphql_containers::array::TryFromInputValueError;
use graphql_containers::ast::InputValue;
use graphql_containers::ast::ObjectField;
use graphql_containers::ast::ScalarValue;
use graphql_containers::ast::SourcePosition;
use graphql_containers::ast::Spanning;
use graphql_containers::meta::MetaType;
use graphql_containers::meta::ScalarKind;
use graphql_containers::resolve::Bindable;
use graphql_containers::resolve::FromInputValue;
use graphql_containers::resolve::ResolveValue;
use graphql_containers::resolve::ToInputValue;
use graphql_containers::scalar::ScalarDecodeError;
use graphql_containers::value::OutputValue;

fn int_value(i: i64) -> InputValue {
    InputValue::Scalar(ScalarValue::Int(i))
}

fn int_list(vals: &[i64]) -> InputValue {
    let entries: Vec<Spanning> = vals
        .iter()
        .map(|v| Spanning::unlocated(int_value(*v)))
        .collect();
    InputValue::list(entries)
}

#[test]
fn decode_exact_length_list_succeeds() {
    let v = int_list(&[1, 2, 3]);
    let arr = ExactSizeArray::<i64, 3>::try_from_input_value(&v).unwrap();
    assert_eq!(arr.len(), 3);
    assert_eq!(*arr.get(0), 1);
    assert_eq!(*arr.get(1), 2);
    assert_eq!(*arr.get(2), 3);
    assert_eq!(arr.into_vec(), vec![1, 2, 3]);
}

#[test]
fn decode_ignores_source_locations() {
    let entries = vec![
        Spanning {
            item: int_value(7),
            span: Some(SourcePosition { line: 3, column: 14 }),
        },
        Spanning {
            item: int_value(8),
            span: None,
        },
    ];
    let v = InputValue::List(entries);
    let arr = ExactSizeArray::<i64, 2>::try_from_input_value(&v).unwrap();
    assert_eq!(arr.into_vec(), vec![7, 8]);
}

#[test]
fn decode_wrong_count_fails_with_both_counts() {
    let v = int_list(&[1, 2]);
    let r = ExactSizeArray::<i64, 3>::try_from_input_value(&v);
    assert_eq!(
        r.unwrap_err(),
        TryFromInputValueError::WrongCount {
            actual: 2,
            expected: 3
        }
    );
}

#[test]
fn decode_empty_list_against_positive_count_fails() {
    let v = int_list(&[]);
    let r = ExactSizeArray::<i64, 2>::try_from_input_value(&v);
    assert_eq!(
        r.unwrap_err(),
        TryFromInputValueError::WrongCount {
            actual: 0,
            expected: 2
        }
    );
}

#[test]
fn decode_empty_list_into_empty_container() {
    let v = int_list(&[]);
    let arr = ExactSizeArray::<i64, 0>::try_from_input_value(&v).unwrap();
    assert_eq!(arr.len(), 0);
    assert_eq!(arr.into_vec(), Vec::<i64>::new());
}

#[test]
fn decode_null_fails_for_every_count() {
    let r0 = ExactSizeArray::<i64, 0>::try_from_input_value(&InputValue::Null);
    assert_eq!(r0.unwrap_err(), TryFromInputValueError::IsNull);
    let r1 = ExactSizeArray::<i64, 1>::try_from_input_value(&InputValue::Null);
    assert_eq!(r1.unwrap_err(), TryFromInputValueError::IsNull);
    let r3 = ExactSizeArray::<i64, 3>::try_from_input_value(&InputValue::Null);
    assert_eq!(r3.unwrap_err(), TryFromInputValueError::IsNull);
}

#[test]
fn decode_bare_value_as_singleton_list() {
    let v = int_value(42);
    let arr = ExactSizeArray::<i64, 1>::try_from_input_value(&v).unwrap();
    assert_eq!(arr.into_vec(), vec![42]);
}

#[test]
fn decode_bare_value_against_other_counts_fails() {
    let v = int_value(42);
    let r2 = ExactSizeArray::<i64, 2>::try_from_input_value(&v);
    assert_eq!(
        r2.unwrap_err(),
        TryFromInputValueError::WrongCount {
            actual: 1,
            expected: 2
        }
    );
    let r0 = ExactSizeArray::<i64, 0>::try_from_input_value(&v);
    assert_eq!(
        r0.unwrap_err(),
        TryFromInputValueError::WrongCount {
            actual: 1,
            expected: 0
        }
    );
}

#[test]
fn decode_item_error_carries_element_error() {
    let entries = vec![
        Spanning::unlocated(int_value(1)),
        Spanning::unlocated(InputValue::Scalar(ScalarValue::Boolean(true))),
        Spanning::unlocated(int_value(3)),
    ];
    let v = InputValue::list(entries);
    let r = ExactSizeArray::<i64, 3>::try_from_input_value(&v);
    assert_eq!(
        r.unwrap_err(),
        TryFromInputValueError::Item(ScalarDecodeError::ExpectedInt)
    );
}

#[test]
fn decode_bare_object_as_singleton_hits_element_converter() {
    let obj = InputValue::Object(vec![ObjectField {
        name: "a".to_string(),
        value: int_value(1),
    }]);
    let r1 = ExactSizeArray::<i64, 1>::try_from_input_value(&obj);
    assert_eq!(
        r1.unwrap_err(),
        TryFromInputValueError::Item(ScalarDecodeError::ExpectedInt)
    );
    let r3 = ExactSizeArray::<i64, 3>::try_from_input_value(&obj);
    assert_eq!(
        r3.unwrap_err(),
        TryFromInputValueError::WrongCount {
            actual: 1,
            expected: 3
        }
    );
}

#[test]
fn decode_implicit_null_behaves_like_null() {
    let r = ExactSizeArray::<i64, 2>::try_from_implicit_null();
    assert_eq!(r.unwrap_err(), TryFromInputValueError::IsNull);
}

#[test]
fn round_trip_reproduces_container() {
    let arr = ExactSizeArray::<i64, 3>::from_vec(vec![10, 20, 30]).unwrap();
    let encoded = arr.to_input_value();
    let back = ExactSizeArray::<i64, 3>::try_from_input_value(&encoded).unwrap();
    assert_eq!(back.into_vec(), vec![10, 20, 30]);
    assert_eq!(arr.into_vec(), vec![10, 20, 30]);
}

#[test]
fn round_trip_with_string_elements() {
    let arr =
        ExactSizeArray::<String, 2>::from_vec(vec!["a".to_string(), "bb".to_string()]).unwrap();
    let encoded = arr.to_input_value();
    let back = ExactSizeArray::<String, 2>::try_from_input_value(&encoded).unwrap();
    assert_eq!(back.into_vec(), vec!["a".to_string(), "bb".to_string()]);
}

#[test]
fn encode_produces_unlocated_list() {
    let arr = ExactSizeArray::<i64, 2>::from_vec(vec![5, 6]).unwrap();
    let encoded = arr.to_input_value();
    let expected = int_list(&[5, 6]);
    assert_eq!(encoded, expected);
}

#[test]
fn from_vec_rejects_wrong_count() {
    assert!(ExactSizeArray::<i64, 3>::from_vec(vec![1, 2]).is_none());
    assert!(ExactSizeArray::<i64, 0>::from_vec(vec![1]).is_none());
}

#[test]
fn meta_wraps_element_description_in_list() {
    let m = ExactSizeArray::<i64, 4>::meta();
    assert_eq!(m, MetaType::List(Box::new(MetaType::Scalar(ScalarKind::Int))));
}

#[test]
fn resolve_preserves_order() {
    let arr = ExactSizeArray::<i64, 3>::from_vec(vec![4, 5, 6]).unwrap();
    let out = arr.resolve_value().unwrap();
    assert_eq!(
        out,
        OutputValue::List(vec![
            OutputValue::Scalar(ScalarValue::Int(4)),
            OutputValue::Scalar(ScalarValue::Int(5)),
            OutputValue::Scalar(ScalarValue::Int(6)),
        ])
    );
}

#[test]
fn decode_nested_arrays() {
    let inner1 = int_list(&[1, 2]);
    let inner2 = int_list(&[3, 4]);
    let v = InputValue::list(vec![
        Spanning::unlocated(inner1),
        Spanning::unlocated(inner2),
    ]);
    let arr = ExactSizeArray::<ExactSizeArray<i64, 2>, 2>::try_from_input_value(&v).unwrap();
    let rows: Vec<ExactSizeArray<i64, 2>> = arr.into_vec();
    let mut flattened: Vec<i64> = Vec::new();
    for row in rows {
        flattened.extend(row.into_vec());
    }
    assert_eq!(flattened, vec![1, 2, 3, 4]);
}

#[test]
fn decode_nested_array_wrong_inner_count() {
    let v = InputValue::list(vec![Spanning::unlocated(int_list(&[1, 2, 3]))]);
    let r = ExactSizeArray::<ExactSizeArray<i64, 2>, 1>::try_from_input_value(&v);
    assert_eq!(
        r.unwrap_err(),
        TryFromInputValueError::Item(TryFromInputValueError::WrongCount {
            actual: 3,
            expected: 2
        })
    );
}
