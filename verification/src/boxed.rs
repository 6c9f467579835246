//! The transparent single-owner delegation adapter: a boxed value exposes
//! every capability of the value it wraps. Read-direction operations call
//! through the wrapper to the inner value; decode-direction operations
//! decode a plain inner value first and then move it into a freshly
//! allocated wrapper, since constructing the wrapper must take ownership of
//! a freshly produced value.

use vstd::prelude::*;

use crate::ast::InputValue;
use crate::ast::InputValueView;
use crate::meta::MetaType;
use crate::resolve::Bindable;
use crate::resolve::FromInputValue;
use crate::resolve::ResolveValue;
use crate::resolve::ToInputValue;
use crate::value::FieldError;
use crate::value::OutputValue;
use crate::value::OutputValueView;

verus! {

impl<T: Bindable> Bindable for Box<T> {
    /// A wrapper is fully formed exactly when the wrapped value is.
    open spec fn wf(m: T::V) -> bool {
        T::wf(m)
    }

    /// Same shape as the inner type.
    open spec fn meta_spec() -> MetaType {
        T::meta_spec()
    }

    fn meta() -> (m: MetaType) {
        T::meta()
    }
}

impl<T: ToInputValue> ToInputValue for Box<T> {
    /// Serializing through the wrapper is serializing the wrapped value.
    open spec fn to_input_spec(m: T::V) -> InputValueView {
        T::to_input_spec(m)
    }

    fn to_input_value(&self) -> (v: InputValue) {
        (**self).to_input_value()
    }
}

impl<T: FromInputValue> FromInputValue for Box<T> {
    type Error = T::Error;

    /// Decoding through the wrapper is decoding through the inner type;
    /// the decoded value is then owned by a fresh wrapper.
    open spec fn from_input_spec(v: InputValueView) -> Result<T::V, T::Error> {
        T::from_input_spec(v)
    }

    fn try_from_input_value(v: &InputValue) -> (r: Result<Self, T::Error>) {
        match T::try_from_input_value(v) {
            Ok(t) => Ok(Box::new(t)),
            Err(e) => Err(e),
        }
    }

    fn try_from_implicit_null() -> (r: Result<Self, T::Error>) {
        match T::try_from_implicit_null() {
            Ok(t) => Ok(Box::new(t)),
            Err(e) => Err(e),
        }
    }

    proof fn lemma_from_input_wf(v: InputValueView) {
        T::lemma_from_input_wf(v);
    }

    proof fn lemma_round_trip(m: T::V) {
        T::lemma_round_trip(m);
    }
}

impl<T: ResolveValue> ResolveValue for Box<T> {
    /// Resolving through the wrapper is resolving the wrapped value.
    open spec fn resolve_spec(m: T::V) -> Result<OutputValueView, Seq<char>> {
        T::resolve_spec(m)
    }

    fn resolve_value(&self) -> (r: Result<OutputValue, FieldError>) {
        (**self).resolve_value()
    }
}

/// The wrapper is transparent on read: the wrapper's serialized form of
/// every model equals the inner type's.
pub proof fn lemma_box_to_input_delegates<T: ToInputValue>(m: T::V)
    ensures
        <Box<T> as ToInputValue>::to_input_spec(m) == T::to_input_spec(m),
{
}

/// Decoding any input value through the wrapper agrees exactly, at the
/// model level, with decoding it through the inner type and then wrapping
/// the result: both the values decoded and the errors reported coincide.
pub proof fn lemma_box_from_input_delegates<T: FromInputValue>(v: InputValueView)
    ensures
        <Box<T> as FromInputValue>::from_input_spec(v) == T::from_input_spec(v),
{
}

} // verus!
