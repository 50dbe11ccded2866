//! The result codec.
//!
//! The bytes the host places in the result buffer are a tagged
//! success/failure encoding of the configuration lookup's outcome. The
//! encoding itself is an outside contract — bincode's, over a
//! `Result<Vec<u8>, String>` — which this crate stays compatible with but
//! does not define: what the codec produces and recovers is named, not
//! written out, and the guest's obligations are stated over those names.

use vstd::prelude::*;

verus! {

/// A decoded configuration result. The success variant carries the
/// resolved value's bytes; the failure variant carries the host's
/// description of why the key could not be resolved (for instance, that it
/// was not found). A failure here is a domain-level outcome the caller can
/// recover from, never a reason to abort.
pub type CallResult = Result<Vec<u8>, String>;

/// The mathematical value of a [`CallResult`]: its variant and the
/// contents it carries.
pub open spec fn call_result_view(r: CallResult) -> Result<Seq<u8>, Seq<char>> {
    match r {
        Ok(value) => Ok(value@),
        Err(description) => Err(description@),
    }
}

/// What the result codec produces for a given result value.
pub uninterp spec fn encoded_call_result(m: Result<Seq<u8>, Seq<char>>) -> Seq<u8>;

/// What the result codec recovers from a byte sequence: the result value
/// the bytes encode, or nothing when they encode no result value.
pub uninterp spec fn decoded_call_result(bytes: Seq<u8>) -> Option<Result<Seq<u8>, Seq<char>>>;

/// The result buffer's bytes did not decode as a [`CallResult`]: guest and
/// host disagree about the result codec. The caller treats this as a
/// broken guest/host contract, not as a missing configuration value.
#[derive(Clone, Copy, Debug, PartialEq, Eq)]
pub struct CodecFault;

/// Relies on bincode::serialize: the bytes produced for a value are a
/// function of that value's contents alone, and bincode::deserialize
/// recovers the value from them (the round trip bincode documents). With
/// the configuration behind bincode::serialize — no size limit,
/// fixed-width integers, a growable byte buffer as the writer —
/// serializing a `Result<Vec<u8>, String>` cannot fail.
#[verifier::external_body]
fn serialize_call_result(value: &CallResult) -> (bytes: Vec<u8>)
    ensures
        bytes@ == encoded_call_result(call_result_view(*value)),
        decoded_call_result(bytes@) == Some(call_result_view(*value)),
{
    bincode::serialize(value).unwrap()
}

/// Relies on bincode::deserialize: whether the bytes decode, and to which
/// value, is a function of the bytes alone.
#[verifier::external_body]
fn deserialize_call_result(bytes: &[u8]) -> (decoded: Result<CallResult, CodecFault>)
    ensures
        decoded is Ok <==> decoded_call_result(bytes@) is Some,
        decoded matches Ok(value) ==> decoded_call_result(bytes@) == Some(
            call_result_view(value),
        ),
{
    match bincode::deserialize(bytes) {
        Ok(value) => Ok(value),
        Err(_) => Err(CodecFault),
    }
}

/// Decodes a result buffer's bytes into a [`CallResult`].
///
/// The outcome is exactly what the result codec recovers from the bytes:
/// the result value they encode, or a [`CodecFault`] when they encode no
/// result value. The caller treats a fault as fatal, since it means the
/// guest and host were built against different codecs.
pub fn decode_call_result(bytes: &[u8]) -> (decoded: Result<CallResult, CodecFault>)
    ensures
        decoded is Ok <==> decoded_call_result(bytes@) is Some,
        decoded matches Ok(value) ==> decoded_call_result(bytes@) == Some(
            call_result_view(value),
        ),
{
    deserialize_call_result(bytes)
}

/// Law: the result codec round-trips every result value. Encoding a
/// result — success or failure alike — and decoding the bytes yields the
/// value again, with the success payload reproduced byte for byte; in
/// particular a well-formed failure payload decodes as the failure
/// variant and is never mistaken for a codec fault.
pub fn codec_round_trip(value: &CallResult) -> (decoded: Result<CallResult, CodecFault>)
    ensures
        decoded matches Ok(back) && call_result_view(back) == call_result_view(*value),
{
    let bytes = serialize_call_result(value);
    decode_call_result(bytes.as_slice())
}

} // verus!
