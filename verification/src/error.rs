//! The framework's error type, carried through untouched.
use vstd::prelude::*;

verus! {

/// The framework's `error::Error`, declared so that entry points can keep the
/// framework's result type. Opaque: nothing is claimed of its contents, and
/// this crate never builds one.
#[verifier::external_type_specification]
#[verifier::external_body]
pub struct ExError(anchor_lang::error::Error);

} // verus!
