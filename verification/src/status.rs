//! Version-compatibility classification.
//!
//! The kernel component advertises a protocol version; the client compares
//! it against the version it was built for.  The order of the checks is
//! significant: equality is decided before sign, and sign before the
//! magnitude comparison.

use vstd::prelude::*;

verus! {

/// The protocol version this client was built for.
pub const EXPECTED_PROTOCOL_VERSION: i32 = 2;

/// Compatibility between the client and the kernel component.
#[derive(Clone, Copy, Debug, PartialEq, Eq, Structural)]
pub enum HymoFSStatus {
    Available,
    NotPresent,
    KernelTooOld,
    ModuleTooOld,
}

/// Classification of a reported protocol version against an expected one:
/// equal is available; else a negative report means the component is not
/// present; else a smaller report means the kernel side is too old; a
/// larger one means this client is too old.
pub open spec fn status_of(reported: int, expected: int) -> HymoFSStatus {
    if reported == expected {
        HymoFSStatus::Available
    } else if reported < 0 {
        HymoFSStatus::NotPresent
    } else if reported < expected {
        HymoFSStatus::KernelTooOld
    } else {
        HymoFSStatus::ModuleTooOld
    }
}

impl HymoFSStatus {
    /// Classifies a reported protocol version against the version this
    /// client was built for.
    pub fn from_version(reported: i32) -> (s: HymoFSStatus)
        ensures
            s == status_of(reported as int, EXPECTED_PROTOCOL_VERSION as int),
    {
        if reported == EXPECTED_PROTOCOL_VERSION {
            HymoFSStatus::Available
        } else if reported < 0 {
            HymoFSStatus::NotPresent
        } else if reported < EXPECTED_PROTOCOL_VERSION {
            HymoFSStatus::KernelTooOld
        } else {
            HymoFSStatus::ModuleTooOld
        }
    }
}

/// The classification is total over the integers and, for a non-negative
/// expected version, each outcome characterizes exactly one range of
/// reported versions: equal gives Available, negative gives NotPresent,
/// [0, expected) gives KernelTooOld, and above expected gives ModuleTooOld.
pub proof fn lemma_status_total(reported: int, expected: int)
    requires
        expected >= 0,
    ensures
        (status_of(reported, expected) == HymoFSStatus::Available) <==> (reported == expected),
        (status_of(reported, expected) == HymoFSStatus::NotPresent) <==> (reported < 0),
        (status_of(reported, expected) == HymoFSStatus::KernelTooOld) <==> (0 <= reported
            < expected),
        (status_of(reported, expected) == HymoFSStatus::ModuleTooOld) <==> (reported > expected),
{
}

} // verus!
