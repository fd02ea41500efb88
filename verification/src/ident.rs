//! Shape identity.

use vstd::prelude::*;

verus! {

/// A shape is identified by the 128-bit value of its UUID.
pub type ShapeId = u128;

/// The identifier that stands for "no shape": the nil UUID.
///
/// Calls `uuid::Uuid::nil` and reads the result with `uuid::Uuid::as_u128`.
/// The contract claims what `uuid` documents of the nil UUID: all of its
/// 128 bits are zero, so its value is 0.
#[verifier::external_body]
pub(crate) fn nil_shape_id() -> (id: ShapeId)
    ensures
        id == 0,
{
    uuid::Uuid::nil().as_u128()
}

} // verus!
