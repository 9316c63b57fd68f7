use vstd::prelude::*;

verus! {

/// The status flags after asking for non-blocking mode `on`, where `bit` is
/// the non-blocking bit.
pub open spec fn with_mode(flags: i32, bit: i32, on: bool) -> i32 {
    if on {
        flags | bit
    } else {
        flags & !bit
    }
}

/// Whether the flags already carry the mode `on`.
pub open spec fn has_mode(flags: i32, bit: i32, on: bool) -> bool {
    if on {
        flags & bit == bit
    } else {
        flags & bit == 0
    }
}

/// What must be written to move the status flags `flags` to non-blocking
/// mode `on`: `None` when they already are in that mode, else the new flags.
pub fn status_flags_update(flags: i32, bit: i32, on: bool) -> (r: Option<i32>)
    ensures
        has_mode(flags, bit, on) ==> r is None,
        !has_mode(flags, bit, on) ==> r == Some(with_mode(flags, bit, on)),
{
    if on && flags & bit != bit {
        Some(flags | bit)
    } else if !on && flags & bit != 0 {
        Some(flags & !bit)
    } else {
        None
    }
}

/// The flags a descriptor ends with after one request for mode `on`.
pub open spec fn after_request(flags: i32, bit: i32, on: bool) -> i32 {
    if has_mode(flags, bit, on) {
        flags
    } else {
        with_mode(flags, bit, on)
    }
}

/// Asking twice for the same mode leaves the flags as asking once does, and
/// the second request writes nothing.
pub proof fn lemma_mode_request_idempotent(flags: i32, bit: i32, on: bool)
    ensures
        has_mode(after_request(flags, bit, on), bit, on),
        after_request(after_request(flags, bit, on), bit, on) == after_request(flags, bit, on),
{
    assert((flags | bit) & bit == bit) by (bit_vector);
    assert((flags & !bit) & bit == 0) by (bit_vector);
}

} // verus!
