//! Byte encodings of the string fields that cross the kernel boundary.
//!
//! Strings travel as null-terminated byte sequences.  A path field must
//! never be truncated: an embedded null byte is rejected as invalid input.
//! A uname field is the opposite, a documented lossy contract: the bytes
//! are silently truncated to the field bound minus one, and the rest of
//! the field is zero-filled.

use crate::errors::HymoError;
use vstd::prelude::*;
use vstd::string::StringSliceAdditionalSpecFns;

verus! {

/// Whether a byte sequence holds a null byte.
pub open spec fn contains_null(b: Seq<u8>) -> bool {
    exists|i: int| 0 <= i < b.len() && b[i] == 0
}

/// A null-terminated encoding of `b`: the bytes themselves, then one
/// terminator.
pub open spec fn null_terminated(b: Seq<u8>) -> Seq<u8> {
    b.push(0)
}

/// Encodes a path string for the boundary: its bytes followed by a null
/// terminator.  Fails, and never truncates, when the string itself holds
/// a null byte.
pub fn encode_path_bytes(s: &str) -> (r: Result<Vec<u8>, HymoError>)
    ensures
        match r {
            Ok(v) => !contains_null(s.spec_bytes()) && v@ == null_terminated(s.spec_bytes()),
            Err(e) => contains_null(s.spec_bytes()) && e == HymoError::InvalidInput,
        },
{
    let bytes = s.as_bytes();
    let mut i: usize = 0;
    while i < bytes.len()
        invariant
            0 <= i <= bytes.len(),
            bytes@ == s.spec_bytes(),
            forall|j: int| 0 <= j < i ==> bytes@[j] != 0,
        decreases bytes.len() - i,
    {
        if bytes[i] == 0 {
            return Err(HymoError::InvalidInput);
        }
        i += 1;
    }
    let mut out = vstd::slice::slice_to_vec(bytes);
    out.push(0);
    Ok(out)
}

/// The content of a bounded field of `n` bytes filled from `b`: the first
/// `n - 1` bytes of `b` (or all of them, if fewer), zero-filled to the
/// bound.  The terminator is one of the zero bytes.
pub open spec fn bounded_field(b: Seq<u8>, n: int) -> Seq<u8> {
    let k = if b.len() <= n - 1 {
        b.len() as int
    } else {
        n - 1
    };
    b.take(k) + Seq::new((n - k) as nat, |i: int| 0u8)
}

/// Fills a bounded field of `n` bytes from a string, truncating silently:
/// at most `n - 1` content bytes, the rest zero.
pub fn encode_bounded_field(s: &str, n: usize) -> (r: Vec<u8>)
    requires
        n >= 1,
    ensures
        r@ == bounded_field(s.spec_bytes(), n as int),
        r@.len() == n,
{
    let bytes = s.as_bytes();
    let k: usize = if bytes.len() <= n - 1 {
        bytes.len()
    } else {
        n - 1
    };
    let mut out: Vec<u8> = Vec::new();
    let mut i: usize = 0;
    while i < k
        invariant
            0 <= i <= k,
            k <= bytes.len(),
            k <= n - 1,
            bytes@ == s.spec_bytes(),
            out@ == bytes@.take(i as int),
        decreases k - i,
    {
        out.push(bytes[i]);
        i += 1;
    }
    while out.len() < n
        invariant
            k <= out@.len() <= n,
            bytes@ == s.spec_bytes(),
            out@ == bytes@.take(k as int) + Seq::new((out@.len() - k) as nat, |i: int| 0u8),
        decreases n - out.len(),
    {
        out.push(0);
        assert(out@ =~= bytes@.take(k as int) + Seq::new(
            (out@.len() - k) as nat,
            |i: int| 0u8,
        ));
    }
    assert(out@ =~= bounded_field(s.spec_bytes(), n as int));
    out
}

} // verus!
