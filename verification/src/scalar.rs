//! Scalar bindings: the leaf element types the container adapters are
//! instantiated with.

use vstd::prelude::*;
use vstd::string::StringExecFns;

use crate::ast::InputValue;
use crate::ast::InputValueView;
use crate::ast::ScalarValue;
use crate::ast::ScalarValueView;
use crate::meta::MetaType;
use crate::meta::ScalarKind;
use crate::resolve::Bindable;
use crate::resolve::FromInputValue;
use crate::resolve::ResolveValue;
use crate::resolve::ToInputValue;
use crate::value::FieldError;
use crate::value::IntoFieldError;
use crate::value::OutputValue;
use crate::value::OutputValueView;

verus! {

/// The error a scalar binding rejects an input value with: the value was not
/// a scalar of the expected kind.
#[derive(Clone, Copy, Debug, PartialEq, Eq, Structural)]
pub enum ScalarDecodeError {
    ExpectedInt,
    ExpectedBoolean,
    ExpectedStr,
}

impl IntoFieldError for ScalarDecodeError {
    open spec fn message_spec(self) -> Seq<char> {
        match self {
            ScalarDecodeError::ExpectedInt => "Expected `Int` input value"@,
            ScalarDecodeError::ExpectedBoolean => "Expected `Boolean` input value"@,
            ScalarDecodeError::ExpectedStr => "Expected `String` input value"@,
        }
    }

    fn into_field_error(self) -> (e: FieldError) {
        match self {
            ScalarDecodeError::ExpectedInt => FieldError {
                message: String::from_str("Expected `Int` input value"),
            },
            ScalarDecodeError::ExpectedBoolean => FieldError {
                message: String::from_str("Expected `Boolean` input value"),
            },
            ScalarDecodeError::ExpectedStr => FieldError {
                message: String::from_str("Expected `String` input value"),
            },
        }
    }
}

impl Bindable for i64 {
    open spec fn wf(m: i64) -> bool {
        true
    }

    open spec fn meta_spec() -> MetaType {
        MetaType::Scalar(ScalarKind::Int)
    }

    fn meta() -> (m: MetaType) {
        MetaType::Scalar(ScalarKind::Int)
    }
}

impl ToInputValue for i64 {
    open spec fn to_input_spec(m: i64) -> InputValueView {
        InputValueView::Scalar(ScalarValueView::Int(m))
    }

    fn to_input_value(&self) -> (v: InputValue) {
        InputValue::Scalar(ScalarValue::Int(*self))
    }
}

impl FromInputValue for i64 {
    type Error = ScalarDecodeError;

    open spec fn from_input_spec(v: InputValueView) -> Result<i64, ScalarDecodeError> {
        match v {
            InputValueView::Scalar(ScalarValueView::Int(i)) => Ok(i),
            _ => Err(ScalarDecodeError::ExpectedInt),
        }
    }

    fn try_from_input_value(v: &InputValue) -> (r: Result<i64, ScalarDecodeError>) {
        match v {
            InputValue::Scalar(ScalarValue::Int(i)) => Ok(*i),
            _ => Err(ScalarDecodeError::ExpectedInt),
        }
    }

    fn try_from_implicit_null() -> (r: Result<i64, ScalarDecodeError>) {
        Self::try_from_input_value(&InputValue::Null)
    }

    proof fn lemma_from_input_wf(v: InputValueView) {
    }

    proof fn lemma_round_trip(m: i64) {
    }
}

impl ResolveValue for i64 {
    open spec fn resolve_spec(m: i64) -> Result<OutputValueView, Seq<char>> {
        Ok(OutputValueView::Scalar(ScalarValueView::Int(m)))
    }

    fn resolve_value(&self) -> (r: Result<OutputValue, FieldError>) {
        Ok(OutputValue::Scalar(ScalarValue::Int(*self)))
    }
}

impl Bindable for bool {
    open spec fn wf(m: bool) -> bool {
        true
    }

    open spec fn meta_spec() -> MetaType {
        MetaType::Scalar(ScalarKind::Boolean)
    }

    fn meta() -> (m: MetaType) {
        MetaType::Scalar(ScalarKind::Boolean)
    }
}

impl ToInputValue for bool {
    open spec fn to_input_spec(m: bool) -> InputValueView {
        InputValueView::Scalar(ScalarValueView::Boolean(m))
    }

    fn to_input_value(&self) -> (v: InputValue) {
        InputValue::Scalar(ScalarValue::Boolean(*self))
    }
}

impl FromInputValue for bool {
    type Error = ScalarDecodeError;

    open spec fn from_input_spec(v: InputValueView) -> Result<bool, ScalarDecodeError> {
        match v {
            InputValueView::Scalar(ScalarValueView::Boolean(b)) => Ok(b),
            _ => Err(ScalarDecodeError::ExpectedBoolean),
        }
    }

    fn try_from_input_value(v: &InputValue) -> (r: Result<bool, ScalarDecodeError>) {
        match v {
            InputValue::Scalar(ScalarValue::Boolean(b)) => Ok(*b),
            _ => Err(ScalarDecodeError::ExpectedBoolean),
        }
    }

    fn try_from_implicit_null() -> (r: Result<bool, ScalarDecodeError>) {
        Self::try_from_input_value(&InputValue::Null)
    }

    proof fn lemma_from_input_wf(v: InputValueView) {
    }

    proof fn lemma_round_trip(m: bool) {
    }
}

impl ResolveValue for bool {
    open spec fn resolve_spec(m: bool) -> Result<OutputValueView, Seq<char>> {
        Ok(OutputValueView::Scalar(ScalarValueView::Boolean(m)))
    }

    fn resolve_value(&self) -> (r: Result<OutputValue, FieldError>) {
        Ok(OutputValue::Scalar(ScalarValue::Boolean(*self)))
    }
}

impl Bindable for String {
    open spec fn wf(m: Seq<char>) -> bool {
        true
    }

    open spec fn meta_spec() -> MetaType {
        MetaType::Scalar(ScalarKind::Str)
    }

    fn meta() -> (m: MetaType) {
        MetaType::Scalar(ScalarKind::Str)
    }
}

impl ToInputValue for String {
    open spec fn to_input_spec(m: Seq<char>) -> InputValueView {
        InputValueView::Scalar(ScalarValueView::Str(m))
    }

    fn to_input_value(&self) -> (v: InputValue) {
        InputValue::Scalar(ScalarValue::Str(self.clone()))
    }
}

impl FromInputValue for String {
    type Error = ScalarDecodeError;

    open spec fn from_input_spec(v: InputValueView) -> Result<Seq<char>, ScalarDecodeError> {
        match v {
            InputValueView::Scalar(ScalarValueView::Str(s)) => Ok(s),
            _ => Err(ScalarDecodeError::ExpectedStr),
        }
    }

    fn try_from_input_value(v: &InputValue) -> (r: Result<String, ScalarDecodeError>) {
        match v {
            InputValue::Scalar(ScalarValue::Str(s)) => Ok(s.clone()),
            _ => Err(ScalarDecodeError::ExpectedStr),
        }
    }

    fn try_from_implicit_null() -> (r: Result<String, ScalarDecodeError>) {
        Self::try_from_input_value(&InputValue::Null)
    }

    proof fn lemma_from_input_wf(v: InputValueView) {
    }

    proof fn lemma_round_trip(m: Seq<char>) {
    }
}

impl ResolveValue for String {
    open spec fn resolve_spec(m: Seq<char>) -> Result<OutputValueView, Seq<char>> {
        Ok(OutputValueView::Scalar(ScalarValueView::Str(m)))
    }

    fn resolve_value(&self) -> (r: Result<OutputValue, FieldError>) {
        Ok(OutputValue::Scalar(ScalarValue::Str(self.clone())))
    }
}

} // verus!
