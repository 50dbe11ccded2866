//! Decisions at the guest/host boundary.
//!
//! The boundary call takes the key's bytes and byte count, and writes the
//! result buffer's byte count into a slot the guest provides. Its return
//! value is a signed address: positive means a host-allocated buffer stands
//! at that address; zero or negative means no buffer was produced and the
//! call itself failed, which the guest treats as fatal.

use vstd::prelude::*;
use vstd::string::StringSliceAdditionalSpecFns;

verus! {

/// Interprets the boundary call's return value: only a positive value is
/// the address of a host-allocated result buffer. On zero or a negative
/// value the caller must abort without reading the length slot.
pub fn reply_produced_buffer(result_address: i64) -> (produced: bool)
    ensures
        produced <==> result_address > 0,
{
    result_address > 0
}

/// Measures a key for the boundary call, whose key-length argument is an
/// unsigned 32-bit count of bytes. A key too long for that width cannot be
/// passed out at all; `None` reports it rather than truncating the count.
pub fn key_transfer_length(key: &str) -> (length: Option<u32>)
    ensures
        length is Some <==> key.spec_bytes().len() <= u32::MAX,
        length matches Some(n) ==> n == key.spec_bytes().len(),
{
    broadcast use vstd::slice::axiom_spec_len;

    let byte_count: usize = key.as_bytes().len();
    if byte_count <= u32::MAX as usize {
        Some(byte_count as u32)
    } else {
        None
    }
}

/// Turns the length the host wrote into the slot into a byte count the
/// guest can allocate with. The slot is 64 bits wide, so on a narrow
/// target the reported length may not be addressable; `None` reports it
/// rather than truncating.
pub fn buffer_length(reported_length: u64) -> (length: Option<usize>)
    ensures
        length is Some <==> reported_length <= usize::MAX,
        length matches Some(n) ==> n == reported_length,
{
    if reported_length <= usize::MAX as u64 {
        Some(reported_length as usize)
    } else {
        None
    }
}

} // verus!
