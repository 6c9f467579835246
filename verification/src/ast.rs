//! The dynamically typed value representation arriving at a type-conversion
//! boundary, together with its mathematical model.

use vstd::prelude::*;

verus! {

broadcast use vstd::seq::group_seq_axioms, vstd::std_specs::vec::group_vec_axioms;

/// Location of a parsed element in the source query text.
#[derive(Clone, Copy, Debug, PartialEq, Eq, Structural)]
pub struct SourcePosition {
    pub line: usize,
    pub column: usize,
}

/// A scalar payload carried by an input or output value.
#[derive(Clone, Debug, PartialEq, Eq)]
pub enum ScalarValue {
    Int(i64),
    Boolean(bool),
    Str(String),
}

/// A list entry together with its optional source location.
#[derive(Debug, PartialEq, Eq)]
pub struct Spanning {
    pub item: InputValue,
    pub span: Option<SourcePosition>,
}

/// One named field of an object value.
#[derive(Debug, PartialEq, Eq)]
pub struct ObjectField {
    pub name: String,
    pub value: InputValue,
}

/// A dynamically shaped value arriving at a type boundary. It is immutable
/// once constructed and only borrowed for the duration of a decode call.
#[derive(Debug, PartialEq, Eq)]
pub enum InputValue {
    Null,
    Scalar(ScalarValue),
    List(Vec<Spanning>),
    Object(Vec<ObjectField>),
}

/// Mathematical model of a [`ScalarValue`].
pub enum ScalarValueView {
    Int(i64),
    Boolean(bool),
    Str(Seq<char>),
}

/// Mathematical model of a [`Spanning`] list entry.
pub struct SpanningView {
    pub item: InputValueView,
    pub span: Option<SourcePosition>,
}

/// Mathematical model of an [`ObjectField`].
pub struct ObjectFieldView {
    pub name: Seq<char>,
    pub value: InputValueView,
}

/// Mathematical model of an [`InputValue`].
pub enum InputValueView {
    Null,
    Scalar(ScalarValueView),
    List(Seq<SpanningView>),
    Object(Seq<ObjectFieldView>),
}

impl View for ScalarValue {
    type V = ScalarValueView;

    open spec fn view(&self) -> ScalarValueView {
        match *self {
            ScalarValue::Int(i) => ScalarValueView::Int(i),
            ScalarValue::Boolean(b) => ScalarValueView::Boolean(b),
            ScalarValue::Str(ref s) => ScalarValueView::Str(s@),
        }
    }
}

/// Model of an input value, defined mutually with the model of a list entry.
pub open spec fn input_value_view(v: InputValue) -> InputValueView
    decreases v,
{
    match v {
        InputValue::Null => InputValueView::Null,
        InputValue::Scalar(s) => InputValueView::Scalar(s@),
        InputValue::List(entries) => InputValueView::List(
            Seq::new(
                entries@.len(),
                |i: int|
                    if 0 <= i < entries@.len() {
                        spanning_view(entries@[i])
                    } else {
                        SpanningView { item: InputValueView::Null, span: None }
                    },
            ),
        ),
        InputValue::Object(fields) => InputValueView::Object(
            Seq::new(
                fields@.len(),
                |i: int|
                    if 0 <= i < fields@.len() {
                        object_field_view(fields@[i])
                    } else {
                        ObjectFieldView { name: Seq::empty(), value: InputValueView::Null }
                    },
            ),
        ),
    }
}

/// Model of a list entry: the model of its item plus the unchanged location.
pub open spec fn spanning_view(s: Spanning) -> SpanningView
    decreases s,
{
    SpanningView { item: input_value_view(s.item), span: s.span }
}

/// Model of an object field: its name and the model of its value.
pub open spec fn object_field_view(f: ObjectField) -> ObjectFieldView
    decreases f,
{
    ObjectFieldView { name: f.name@, value: input_value_view(f.value) }
}

impl View for InputValue {
    type V = InputValueView;

    open spec fn view(&self) -> InputValueView {
        input_value_view(*self)
    }
}

impl View for Spanning {
    type V = SpanningView;

    open spec fn view(&self) -> SpanningView {
        spanning_view(*self)
    }
}

impl View for ObjectField {
    type V = ObjectFieldView;

    open spec fn view(&self) -> ObjectFieldView {
        object_field_view(*self)
    }
}

impl Spanning {
    /// Wraps an item into a list entry that carries no source location.
    pub fn unlocated(item: InputValue) -> (s: Spanning)
        ensures
            s@ == (SpanningView { item: item@, span: None::<SourcePosition> }),
    {
        Spanning { item, span: None }
    }
}

impl InputValue {
    /// Wraps the given items, in order, into a list value whose entries carry
    /// no source location.
    pub fn list(entries: Vec<Spanning>) -> (v: InputValue)
        ensures
            v@ matches InputValueView::List(s) && s.len() == entries@.len() && (forall|i: int|
                0 <= i < entries@.len() ==> s[i] == #[trigger] entries@[i]@),
    {
        InputValue::List(entries)
    }
}

} // verus!
