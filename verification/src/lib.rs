//! Adapters that let a typed query-execution engine move values between its
//! dynamically shaped input/output representation and two native containers:
//! an exact-length sequence (a fixed-size array abstraction) and a
//! single-owner indirection wrapper (a boxed value).
//!
//! The capability contracts every bindable type implements live in
//! [`resolve`]; the exact-length container and its decode/encode adapter in
//! [`array`]; the transparent delegation adapter for `Box` in [`boxed`].

pub mod array;
pub mod ast;
pub mod boxed;
pub mod decimal;
pub mod iter;
pub mod meta;
pub mod resolve;
pub mod scalar;
pub mod value;
