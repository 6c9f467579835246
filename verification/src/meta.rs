//! Static type descriptors used by schema introspection.

use vstd::prelude::*;

verus! {

/// The scalar kinds in scope for this adapter layer.
#[derive(Clone, Copy, Debug, PartialEq, Eq, Structural)]
pub enum ScalarKind {
    Int,
    Boolean,
    Str,
}

/// A static, structural description of a bindable type: a scalar kind, or a
/// wrapped list of an inner description. An indirection wrapper has the same
/// description as its inner type.
#[derive(Debug, PartialEq, Eq)]
pub enum MetaType {
    Scalar(ScalarKind),
    List(Box<MetaType>),
}

} // verus!
