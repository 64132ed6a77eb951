//! Protocol codec: the packed transport opcode for each logical command.
//!
//! An opcode is a 32-bit value packed from four fields: the transfer
//! direction at bit 30, the protocol family's type byte at bits 8..=15,
//! the per-command sequence number at bits 0..=7, and the payload size in
//! bytes at bits 16..=29.  The layout must match the kernel-side decoder
//! exactly; a mismatch shows up as an immediate transport rejection.

use vstd::prelude::*;

verus! {

/// Direction field values, as the kernel-side decoder reads them.
pub const DIR_NONE: u32 = 0;
pub const DIR_WRITE: u32 = 1;
pub const DIR_READ: u32 = 2;
pub const DIR_READ_WRITE: u32 = 3;

/// Type byte identifying this protocol family (ASCII 'H').
pub const PROTOCOL_TYPE: u32 = 0x48;

/// Byte size of the rule-shaped payload: two pointer-sized string fields
/// plus a 32-bit kind, padded to pointer alignment.
pub const RULE_PAYLOAD_SIZE: u32 = 24;

/// Byte size of the listing payload: a buffer pointer and a length.
pub const LIST_PAYLOAD_SIZE: u32 = 16;

/// Byte bound of each uname string field, terminator included.
pub const UNAME_FIELD_LEN: usize = 65;

/// Byte size of the uname payload: two bounded string fields.
pub const UNAME_PAYLOAD_SIZE: u32 = 130;

/// Byte size of the flag and version payloads: one 32-bit integer.
pub const INT_PAYLOAD_SIZE: u32 = 4;

/// Transfer direction of a command, as seen from the client.
#[derive(Clone, Copy, Debug, PartialEq, Eq, Structural)]
pub enum Direction {
    NoData,
    Write,
    Read,
    ReadWrite,
}

impl Direction {
    /// The two-bit field value for this direction.
    pub open spec fn bits(self) -> u32 {
        match self {
            Direction::NoData => DIR_NONE,
            Direction::Write => DIR_WRITE,
            Direction::Read => DIR_READ,
            Direction::ReadWrite => DIR_READ_WRITE,
        }
    }
}

/// The packed opcode for one (direction, type, number, size) tuple.
pub open spec fn pack_opcode(dir: u32, ty: u32, nr: u32, size: u32) -> u32 {
    (dir << 30) | (ty << 8) | nr | (size << 16)
}

/// Packs an opcode from its four fields.
pub fn pack(dir: u32, ty: u32, nr: u32, size: u32) -> (r: u32)
    requires
        dir < 4,
        ty < 256,
        nr < 256,
        size < 16384,
    ensures
        r == pack_opcode(dir, ty, nr, size),
{
    (dir << 30u32) | (ty << 8u32) | nr | (size << 16u32)
}

/// Within the field ranges the packing loses nothing: equal opcodes can
/// only come from equal field tuples.
pub proof fn lemma_pack_opcode_injective(
    d1: u32, t1: u32, n1: u32, s1: u32,
    d2: u32, t2: u32, n2: u32, s2: u32,
)
    requires
        d1 < 4, t1 < 256, n1 < 256, s1 < 16384,
        d2 < 4, t2 < 256, n2 < 256, s2 < 16384,
        pack_opcode(d1, t1, n1, s1) == pack_opcode(d2, t2, n2, s2),
    ensures
        d1 == d2,
        t1 == t2,
        n1 == n2,
        s1 == s2,
{
    assert((d1 < 4 && t1 < 256 && n1 < 256 && s1 < 16384
        && d2 < 4 && t2 < 256 && n2 < 256 && s2 < 16384
        && ((d1 << 30) | (t1 << 8) | n1 | (s1 << 16))
            == ((d2 << 30) | (t2 << 8) | n2 | (s2 << 16)))
        ==> (d1 == d2 && t1 == t2 && n1 == n2 && s1 == s2)) by (bit_vector);
}

/// The logical commands of the protocol, a closed table.  Sequence numbers
/// are never reused across protocol versions.
#[derive(Clone, Copy, Debug, PartialEq, Eq, Structural)]
pub enum Command {
    AddRule,
    DeleteRule,
    HidePath,
    ClearAll,
    GetVersion,
    ListRules,
    SetDebug,
    FixMounts,
    SetStealth,
    AddMergeRule,
    SetMirrorPath,
    SetUname,
    SetEnabled,
}

impl Command {
    /// Per-command sequence number.
    pub open spec fn number(self) -> u32 {
        match self {
            Command::AddRule => 1,
            Command::DeleteRule => 2,
            Command::HidePath => 3,
            Command::ClearAll => 5,
            Command::GetVersion => 6,
            Command::ListRules => 7,
            Command::SetDebug => 8,
            Command::FixMounts => 9,
            Command::SetStealth => 10,
            Command::AddMergeRule => 12,
            Command::SetMirrorPath => 14,
            Command::SetUname => 17,
            Command::SetEnabled => 20,
        }
    }

    /// Transfer direction of the command.
    pub open spec fn direction(self) -> Direction {
        match self {
            Command::ClearAll => Direction::NoData,
            Command::FixMounts => Direction::NoData,
            Command::GetVersion => Direction::Read,
            Command::ListRules => Direction::ReadWrite,
            _ => Direction::Write,
        }
    }

    /// Payload size in bytes, as the size field of the opcode carries it.
    pub open spec fn payload_size(self) -> u32 {
        match self {
            Command::AddRule => RULE_PAYLOAD_SIZE,
            Command::DeleteRule => RULE_PAYLOAD_SIZE,
            Command::HidePath => RULE_PAYLOAD_SIZE,
            Command::ClearAll => 0,
            Command::GetVersion => INT_PAYLOAD_SIZE,
            Command::ListRules => LIST_PAYLOAD_SIZE,
            Command::SetDebug => INT_PAYLOAD_SIZE,
            Command::FixMounts => 0,
            Command::SetStealth => INT_PAYLOAD_SIZE,
            Command::AddMergeRule => RULE_PAYLOAD_SIZE,
            Command::SetMirrorPath => RULE_PAYLOAD_SIZE,
            Command::SetUname => UNAME_PAYLOAD_SIZE,
            Command::SetEnabled => INT_PAYLOAD_SIZE,
        }
    }

    /// The transport opcode of this command.
    pub open spec fn opcode_spec(self) -> u32 {
        pack_opcode(self.direction().bits(), PROTOCOL_TYPE, self.number(), self.payload_size())
    }

    /// Computes the transport opcode of this command.
    pub fn opcode(self) -> (r: u32)
        ensures
            r == self.opcode_spec(),
    {
        let (dir, size): (u32, u32) = match self {
            Command::AddRule => (DIR_WRITE, RULE_PAYLOAD_SIZE),
            Command::DeleteRule => (DIR_WRITE, RULE_PAYLOAD_SIZE),
            Command::HidePath => (DIR_WRITE, RULE_PAYLOAD_SIZE),
            Command::ClearAll => (DIR_NONE, 0),
            Command::GetVersion => (DIR_READ, INT_PAYLOAD_SIZE),
            Command::ListRules => (DIR_READ_WRITE, LIST_PAYLOAD_SIZE),
            Command::SetDebug => (DIR_WRITE, INT_PAYLOAD_SIZE),
            Command::FixMounts => (DIR_NONE, 0),
            Command::SetStealth => (DIR_WRITE, INT_PAYLOAD_SIZE),
            Command::AddMergeRule => (DIR_WRITE, RULE_PAYLOAD_SIZE),
            Command::SetMirrorPath => (DIR_WRITE, RULE_PAYLOAD_SIZE),
            Command::SetUname => (DIR_WRITE, UNAME_PAYLOAD_SIZE),
            Command::SetEnabled => (DIR_WRITE, INT_PAYLOAD_SIZE),
        };
        let nr: u32 = match self {
            Command::AddRule => 1,
            Command::DeleteRule => 2,
            Command::HidePath => 3,
            Command::ClearAll => 5,
            Command::GetVersion => 6,
            Command::ListRules => 7,
            Command::SetDebug => 8,
            Command::FixMounts => 9,
            Command::SetStealth => 10,
            Command::AddMergeRule => 12,
            Command::SetMirrorPath => 14,
            Command::SetUname => 17,
            Command::SetEnabled => 20,
        };
        pack(dir, PROTOCOL_TYPE, nr, size)
    }
}

/// Distinct commands never collide on their opcodes: the sequence numbers
/// of the table are pairwise distinct, and the number field survives the
/// packing untouched.
pub proof fn lemma_command_opcodes_distinct(a: Command, b: Command)
    requires
        a != b,
    ensures
        a.opcode_spec() != b.opcode_spec(),
{
    if a.opcode_spec() == b.opcode_spec() {
        lemma_pack_opcode_injective(
            a.direction().bits(), PROTOCOL_TYPE, a.number(), a.payload_size(),
            b.direction().bits(), PROTOCOL_TYPE, b.number(), b.payload_size(),
        );
    }
}

} // verus!
