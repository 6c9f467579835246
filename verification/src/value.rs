//! The engine's result representation produced for a client, and the
//! user-facing error type field resolution reports.

use vstd::prelude::*;

use crate::ast::ScalarValue;
use crate::ast::ScalarValueView;

verus! {

broadcast use vstd::seq::group_seq_axioms, vstd::std_specs::vec::group_vec_axioms;

/// One named field of a produced object value.
#[derive(Debug, PartialEq, Eq)]
pub struct OutputField {
    pub name: String,
    pub value: OutputValue,
}

/// A value produced when a bindable value is resolved against a requested
/// sub-selection.
#[derive(Debug, PartialEq, Eq)]
pub enum OutputValue {
    Null,
    Scalar(ScalarValue),
    List(Vec<OutputValue>),
    Object(Vec<OutputField>),
}

/// Mathematical model of an [`OutputField`].
pub struct OutputFieldView {
    pub name: Seq<char>,
    pub value: OutputValueView,
}

/// Mathematical model of an [`OutputValue`].
pub enum OutputValueView {
    Null,
    Scalar(ScalarValueView),
    List(Seq<OutputValueView>),
    Object(Seq<OutputFieldView>),
}

/// Model of an output value.
pub open spec fn output_value_view(v: OutputValue) -> OutputValueView
    decreases v,
{
    match v {
        OutputValue::Null => OutputValueView::Null,
        OutputValue::Scalar(s) => OutputValueView::Scalar(s@),
        OutputValue::List(items) => OutputValueView::List(
            Seq::new(
                items@.len(),
                |i: int|
                    if 0 <= i < items@.len() {
                        output_value_view(items@[i])
                    } else {
                        OutputValueView::Null
                    },
            ),
        ),
        OutputValue::Object(fields) => OutputValueView::Object(
            Seq::new(
                fields@.len(),
                |i: int|
                    if 0 <= i < fields@.len() {
                        output_field_view(fields@[i])
                    } else {
                        OutputFieldView { name: Seq::empty(), value: OutputValueView::Null }
                    },
            ),
        ),
    }
}

/// Model of an output field: its name and the model of its value.
pub open spec fn output_field_view(f: OutputField) -> OutputFieldView
    decreases f,
{
    OutputFieldView { name: f.name@, value: output_value_view(f.value) }
}

impl View for OutputValue {
    type V = OutputValueView;

    open spec fn view(&self) -> OutputValueView {
        output_value_view(*self)
    }
}

impl View for OutputField {
    type V = OutputFieldView;

    open spec fn view(&self) -> OutputFieldView {
        output_field_view(*self)
    }
}

/// An error produced while resolving a field, carrying the user-facing
/// message text.
#[derive(Clone, Debug, PartialEq, Eq)]
pub struct FieldError {
    pub message: String,
}

impl View for FieldError {
    type V = Seq<char>;

    open spec fn view(&self) -> Seq<char> {
        self.message@
    }
}

/// Conversion of a library error into the user-facing [`FieldError`].
///
/// The message every error value maps to is pinned by `message_spec`, so the
/// exact user-visible text is part of each error type's contract.
pub trait IntoFieldError: Sized {
    /// The message text this error maps to.
    spec fn message_spec(self) -> Seq<char>;

    /// Builds the user-facing error; its message is exactly [`Self::message_spec`].
    fn into_field_error(self) -> (e: FieldError)
        ensures
            e@ == self.message_spec(),
    ;
}

} // verus!
