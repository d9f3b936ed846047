//! How host values become guest integers and guest integers become places in
//! guest memory.
//!
//! The guest speaks in 32-bit integers. A length is handed to the guest as
//! it is, and one that no such integer holds is refused; an integer received
//! from the guest is widened, sign and all, to the host's address width, so
//! that a negative one designates a place in the upper half of the host's
//! address range.

use crate::error::{DeeError, JsonDocument, MemoryAccess};
use vstd::prelude::*;

verus! {

/// The offset that a guest integer designates: the integer itself, or, if
/// it is negative, as far below the top of the address range as it is below
/// zero.
pub open spec fn offset_of(value: i32) -> int {
    if value >= 0 {
        value as int
    } else {
        usize::MAX + 1 + value
    }
}

/// Whether the `len` bytes from `ptr` on all lie within a memory of
/// `memory_len` bytes.
pub open spec fn region_in_bounds(ptr: i32, len: i32, memory_len: int) -> bool {
    offset_of(ptr) + offset_of(len) <= memory_len
}

/// A run of bytes in guest memory.
#[derive(Debug, Clone, Copy, PartialEq, Eq, Structural)]
pub struct GuestRegion {
    pub offset: usize,
    pub len: usize,
}

/// The size to ask of the guest allocator for an input of `input_len` bytes:
/// that length itself. An input too long for the guest to be told its length
/// is refused as one that cannot be written for it.
pub fn allocation_request(input_len: usize) -> (r: Result<i32, DeeError>)
    ensures
        r is Ok <==> input_len <= i32::MAX,
        r matches Ok(request) ==> request == input_len,
        r matches Err(e) ==> e == DeeError::Serialization(JsonDocument::Input),
{
    if input_len <= 0x7fff_ffff {
        Ok(input_len as i32)
    } else {
        Err(DeeError::Serialization(JsonDocument::Input))
    }
}

/// The offset in guest memory that a guest integer designates.
pub fn guest_offset(value: i32) -> (offset: usize)
    ensures
        offset == offset_of(value),
        value < 0 ==> offset > usize::MAX / 2,
{
    if value >= 0 {
        value as usize
    } else {
        let below: usize = (-(value + 1)) as usize;
        usize::MAX - below
    }
}

/// Locates the guest's result: `len` bytes from `ptr` on, which must all lie
/// within a memory of `memory_len` bytes.
pub fn result_region(ptr: i32, len: i32, memory_len: usize) -> (r: Result<GuestRegion, DeeError>)
    ensures
        r is Ok <==> region_in_bounds(ptr, len, memory_len as int),
        r matches Ok(region) ==> region.offset == offset_of(ptr) && region.len == offset_of(len),
        r matches Err(e) ==> e == DeeError::MemoryAccess(MemoryAccess::ReadResult),
{
    let offset = guest_offset(ptr);
    let len = guest_offset(len);
    if offset > memory_len || len > memory_len - offset {
        Err(DeeError::MemoryAccess(MemoryAccess::ReadResult))
    } else {
        Ok(GuestRegion { offset, len })
    }
}

} // verus!
