//! Datagram payloads: opaque, cheaply shared byte buffers.

use bytes::Bytes;
use vstd::prelude::*;

verus! {

/// `bytes::Bytes`, carried through the state machines without looking inside.
#[verifier::external_type_specification]
#[verifier::external_body]
pub struct ExBytes(Bytes);

/// The bytes a payload holds, in order.
pub uninterp spec fn payload_bytes(payload: Bytes) -> Seq<u8>;

/// `Bytes::clone`: a second handle to the same region of memory, hence with
/// the same bytes in the same order.
#[verifier::external_body]
pub(crate) fn share(payload: &Bytes) -> (copy: Bytes)
    ensures
        payload_bytes(copy) == payload_bytes(*payload),
{
    payload.clone()
}

} // verus!
