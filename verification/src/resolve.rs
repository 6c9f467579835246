//! The Capability Model: the contracts a type implements to participate in
//! the engine's type system. The engine dispatches on the static type, so
//! each concrete adapter implements the full set.
//!
//! Contracts are stated over each type's mathematical model: `Self::V`, the
//! type's view. `wf` singles out the models of fully formed values; every
//! operation promises its exact result at the model level.

use vstd::prelude::*;

use crate::ast::InputValue;
use crate::ast::InputValueView;
use crate::meta::MetaType;
use crate::value::FieldError;
use crate::value::OutputValue;
use crate::value::OutputValueView;

verus! {

/// The element-wise model of a sequence of values.
pub open spec fn seq_views<T: View>(s: Seq<T>) -> Seq<T::V> {
    s.map_values(|t: T| t@)
}

/// A type that can appear in a schema position.
pub trait Bindable: View + Sized {
    /// The models of fully formed values of this type.
    spec fn wf(m: Self::V) -> bool;

    /// The static description of this type.
    spec fn meta_spec() -> MetaType;

    /// Returns the static, structural description of this type, used by
    /// schema introspection.
    fn meta() -> (m: MetaType)
        ensures
            m == Self::meta_spec(),
    ;
}

/// The encode direction: serializing a native value back into the dynamic
/// input-value representation (used for default values and re-encoding).
pub trait ToInputValue: Bindable {
    /// The input value that the model `m` serializes to.
    spec fn to_input_spec(m: Self::V) -> InputValueView;

    /// Serializes this value into the dynamic input-value representation.
    fn to_input_value(&self) -> (v: InputValue)
        requires
            Self::wf(self@),
        ensures
            v@ == Self::to_input_spec(self@),
    ;
}

/// The decode direction: reconstructing a native value from a borrowed
/// input value, or reporting exactly why it cannot be done.
pub trait FromInputValue: ToInputValue {
    /// The error reported when decoding fails.
    type Error;

    /// The decode function: what every input value decodes to, or the error
    /// it is rejected with.
    spec fn from_input_spec(v: InputValueView) -> Result<Self::V, Self::Error>;

    /// Decodes a borrowed input value. Succeeds with a fully formed value
    /// exactly when `from_input_spec` does, and fails with exactly the error
    /// it names otherwise.
    fn try_from_input_value(v: &InputValue) -> (r: Result<Self, Self::Error>)
        ensures
            r matches Ok(t) ==> Self::from_input_spec(v@) == Ok::<Self::V, Self::Error>(t@)
                && Self::wf(t@),
            r matches Err(e) ==> Self::from_input_spec(v@) == Err::<Self::V, Self::Error>(e),
    ;

    /// Decodes the absence of a value: a field that was omitted rather than
    /// set explicitly. This is the same conversion as an explicit null.
    fn try_from_implicit_null() -> (r: Result<Self, Self::Error>)
        ensures
            r matches Ok(t) ==> Self::from_input_spec(InputValueView::Null) == Ok::<
                Self::V,
                Self::Error,
            >(t@) && Self::wf(t@),
            r matches Err(e) ==> Self::from_input_spec(InputValueView::Null) == Err::<
                Self::V,
                Self::Error,
            >(e),
    ;

    /// Every successful decode yields a fully formed value.
    proof fn lemma_from_input_wf(v: InputValueView)
        ensures
            Self::from_input_spec(v) matches Ok(m) ==> Self::wf(m),
    ;

    /// Round trip: decoding the serialized form of a fully formed value
    /// reproduces exactly that value.
    proof fn lemma_round_trip(m: Self::V)
        requires
            Self::wf(m),
        ensures
            Self::from_input_spec(Self::to_input_spec(m)) == Ok::<Self::V, Self::Error>(m),
    ;
}

/// The synchronous output-production direction: resolving a native value
/// against a requested sub-selection into the engine's result representation.
pub trait ResolveValue: Bindable {
    /// What resolving the model `m` produces: an output value, or the message
    /// of the first failure.
    spec fn resolve_spec(m: Self::V) -> Result<OutputValueView, Seq<char>>;

    /// Produces the output value for this native value, or the first error.
    fn resolve_value(&self) -> (r: Result<OutputValue, FieldError>)
        requires
            Self::wf(self@),
        ensures
            r matches Ok(out) ==> Self::resolve_spec(self@) == Ok::<OutputValueView, Seq<char>>(
                out@,
            ),
            r matches Err(e) ==> Self::resolve_spec(self@) == Err::<OutputValueView, Seq<char>>(
                e@,
            ),
    ;
}

} // verus!
