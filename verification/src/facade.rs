//! The rule-service facade: one operation per logical command.
//!
//! Every operation first resolves the cached capability handle; without
//! one it fails with `ComponentUnavailable` before the transport is ever
//! touched.  An operation that validates its strings raises `InvalidInput`
//! locally, in the same way.  What an operation returns is the fully
//! marshaled transport call — handle, opcode and payload bytes — ready for
//! the caller to issue; the kernel boundary itself is the caller's.

use crate::acquire::CapabilityCache;
use crate::acquire::valid_descriptor;
use crate::cbytes::bounded_field;
use crate::cbytes::contains_null;
use crate::cbytes::encode_bounded_field;
use crate::cbytes::encode_path_bytes;
use crate::cbytes::null_terminated;
use crate::codec::Command;
use crate::codec::UNAME_FIELD_LEN;
use crate::errors::HymoError;
use crate::status::EXPECTED_PROTOCOL_VERSION;
use crate::status::HymoFSStatus;
use crate::status::status_of;
use vstd::prelude::*;
use vstd::string::StringSliceAdditionalSpecFns;

verus! {

/// Byte size of the scratch buffer handed to the rule-listing command.
/// A listing longer than this is silently cut off by the component.
pub const LIST_BUFFER_SIZE: usize = 16 * 1024;

/// The payload of one transport call.
#[derive(Debug)]
pub enum Payload {
    /// No payload.
    Empty,
    /// A rule-shaped payload: a null-terminated source, an optional
    /// null-terminated target (absent stands for the null marker, which
    /// is distinct from an empty string), and a kind.
    Rule { src: Vec<u8>, target: Option<Vec<u8>>, kind: i32 },
    /// A 4-byte integer flag, 0 or 1.
    Flag(i32),
    /// The uname spoof record: two bounded, null-terminated, silently
    /// truncated string fields.
    Uname { release: Vec<u8>, version: Vec<u8> },
    /// A 4-byte integer read back from the component.
    ReadInt,
    /// A scratch buffer of the given size, filled by the component.
    ListBuffer { size: usize },
}

/// Mathematical shape of a payload.
pub enum PayloadModel {
    Empty,
    Rule { src: Seq<u8>, target: Option<Seq<u8>>, kind: i32 },
    Flag(i32),
    Uname { release: Seq<u8>, version: Seq<u8> },
    ReadInt,
    ListBuffer { size: int },
}

impl View for Payload {
    type V = PayloadModel;

    open spec fn view(&self) -> PayloadModel {
        match self {
            Payload::Empty => PayloadModel::Empty,
            Payload::Rule { src, target, kind } => PayloadModel::Rule {
                src: src@,
                target: match target {
                    Some(t) => Some(t@),
                    None => None,
                },
                kind: *kind,
            },
            Payload::Flag(v) => PayloadModel::Flag(*v),
            Payload::Uname { release, version } => PayloadModel::Uname {
                release: release@,
                version: version@,
            },
            Payload::ReadInt => PayloadModel::ReadInt,
            Payload::ListBuffer { size } => PayloadModel::ListBuffer { size: *size as int },
        }
    }
}

/// One fully marshaled transport call.
#[derive(Debug)]
pub struct IoctlCall {
    /// The capability handle to issue the call on.
    pub fd: i32,
    /// The packed transport opcode.
    pub opcode: u32,
    /// The payload to carry.
    pub payload: Payload,
}

/// Mathematical shape of a transport call.
pub struct CallModel {
    pub fd: i32,
    pub opcode: u32,
    pub payload: PayloadModel,
}

impl View for IoctlCall {
    type V = CallModel;

    open spec fn view(&self) -> CallModel {
        CallModel { fd: self.fd, opcode: self.opcode, payload: self.payload@ }
    }
}

/// The call a rule-shaped command marshals to.
pub open spec fn rule_call(
    fd: i32,
    cmd: Command,
    src: Seq<u8>,
    target: Option<Seq<u8>>,
    kind: i32,
) -> CallModel {
    CallModel {
        fd,
        opcode: cmd.opcode_spec(),
        payload: PayloadModel::Rule {
            src: null_terminated(src),
            target: match target {
                Some(t) => Some(null_terminated(t)),
                None => None,
            },
            kind,
        },
    }
}

/// The call a zero-payload command marshals to.
pub open spec fn empty_call(fd: i32, cmd: Command) -> CallModel {
    CallModel { fd, opcode: cmd.opcode_spec(), payload: PayloadModel::Empty }
}

/// The call a flag command marshals to.
pub open spec fn flag_call(fd: i32, cmd: Command, enable: bool) -> CallModel {
    CallModel {
        fd,
        opcode: cmd.opcode_spec(),
        payload: PayloadModel::Flag(
            if enable {
                1
            } else {
                0
            },
        ),
    }
}

/// The call the uname command marshals to: both fields bounded and
/// silently truncated.
pub open spec fn uname_call(fd: i32, release: Seq<u8>, version: Seq<u8>) -> CallModel {
    CallModel {
        fd,
        opcode: Command::SetUname.opcode_spec(),
        payload: PayloadModel::Uname {
            release: bounded_field(release, UNAME_FIELD_LEN as int),
            version: bounded_field(version, UNAME_FIELD_LEN as int),
        },
    }
}

/// Classification of a version query's outcome: a failed query means the
/// component is not present; a reported version is classified against the
/// version this client was built for.
pub open spec fn status_from_reply(reply: Option<i32>) -> HymoFSStatus {
    match reply {
        None => HymoFSStatus::NotPresent,
        Some(v) => status_of(v as int, EXPECTED_PROTOCOL_VERSION as int),
    }
}

/// The high-level client.  It owns the process-wide capability cache and
/// marshals one transport call per operation.
pub struct HymoFS {
    cap: CapabilityCache,
}

impl HymoFS {
    /// Whether the capability lookup has been resolved, either way.
    pub closed spec fn resolved(self) -> bool {
        self.cap.resolved()
    }

    /// Whether a capability handle is available.
    pub closed spec fn available(self) -> bool {
        self.cap.available()
    }

    /// The cached capability handle, when available.
    pub closed spec fn handle_spec(self) -> i32 {
        self.cap.handle_spec()
    }

    /// A fresh client whose capability lookup has not run yet.
    pub fn new() -> (c: HymoFS)
        ensures
            !c.resolved(),
    {
        HymoFS { cap: CapabilityCache::new() }
    }

    /// Whether the acquisition protocol still needs to run.
    pub fn needs_acquisition(&self) -> (r: bool)
        ensures
            r == !self.resolved(),
    {
        self.cap.needs_acquisition()
    }

    /// Records the handle that acquisition produced; resolution is final.
    pub fn install_handle(&mut self, fd: i32)
        requires
            !old(self).resolved(),
            valid_descriptor(fd),
        ensures
            final(self).resolved(),
            final(self).available(),
            final(self).handle_spec() == fd,
    {
        self.cap.install_handle(fd);
    }

    /// Records that acquisition failed; resolution is final.
    pub fn mark_unavailable(&mut self)
        requires
            !old(self).resolved(),
        ensures
            final(self).resolved(),
            !final(self).available(),
    {
        self.cap.mark_unavailable();
    }

    /// Classifies the outcome of a fresh acquisition and version query.
    pub fn check_status(version_reply: Option<i32>) -> (s: HymoFSStatus)
        ensures
            s == status_from_reply(version_reply),
    {
        match version_reply {
            None => HymoFSStatus::NotPresent,
            Some(v) => HymoFSStatus::from_version(v),
        }
    }

    /// Whether the outcome of a fresh acquisition and version query means
    /// the component is usable.
    pub fn is_available(version_reply: Option<i32>) -> (r: bool)
        ensures
            r == (status_from_reply(version_reply) == HymoFSStatus::Available),
    {
        let s = Self::check_status(version_reply);
        matches!(s, HymoFSStatus::Available)
    }

    /// The resolved handle, or `ComponentUnavailable`.
    fn require_handle(&self) -> (r: Result<i32, HymoError>)
        ensures
            match r {
                Ok(fd) => self.available() && fd == self.handle_spec(),
                Err(e) => !self.available() && e == HymoError::ComponentUnavailable,
            },
    {
        match self.cap.handle() {
            Some(fd) => Ok(fd),
            None => Err(HymoError::ComponentUnavailable),
        }
    }

    /// Marshals one rule-shaped command with a mandatory source, an
    /// optional target and a kind.
    fn rule_command(&self, cmd: Command, src: &str, target: Option<&str>, kind: i32) -> (r: Result<
        IoctlCall,
        HymoError,
    >)
        ensures
            match r {
                Ok(c) => self.available() && !contains_null(src.spec_bytes()) && (match target {
                    Some(t) => !contains_null(t.spec_bytes()),
                    None => true,
                }) && c@ == rule_call(
                    self.handle_spec(),
                    cmd,
                    src.spec_bytes(),
                    match target {
                        Some(t) => Some(t.spec_bytes()),
                        None => None,
                    },
                    kind,
                ),
                Err(e) => if !self.available() {
                    e == HymoError::ComponentUnavailable
                } else {
                    (contains_null(src.spec_bytes()) || (match target {
                        Some(t) => contains_null(t.spec_bytes()),
                        None => false,
                    })) && e == HymoError::InvalidInput
                },
            },
    {
        let fd = match self.require_handle() {
            Ok(fd) => fd,
            Err(e) => {
                return Err(e);
            },
        };
        let src_bytes = match encode_path_bytes(src) {
            Ok(v) => v,
            Err(e) => {
                return Err(e);
            },
        };
        let target_bytes = match target {
            Some(t) => match encode_path_bytes(t) {
                Ok(v) => Some(v),
                Err(e) => {
                    return Err(e);
                },
            },
            None => None,
        };
        Ok(
            IoctlCall {
                fd,
                opcode: cmd.opcode(),
                payload: Payload::Rule { src: src_bytes, target: target_bytes, kind },
            },
        )
    }

    /// Marshals one zero-payload command.
    fn empty_command(&self, cmd: Command) -> (r: Result<IoctlCall, HymoError>)
        ensures
            match r {
                Ok(c) => self.available() && c@ == empty_call(self.handle_spec(), cmd),
                Err(e) => !self.available() && e == HymoError::ComponentUnavailable,
            },
    {
        let fd = match self.require_handle() {
            Ok(fd) => fd,
            Err(e) => {
                return Err(e);
            },
        };
        Ok(IoctlCall { fd, opcode: cmd.opcode(), payload: Payload::Empty })
    }

    /// Marshals one flag command: a 4-byte integer, 1 for on and 0 for
    /// off.
    fn flag_command(&self, cmd: Command, enable: bool) -> (r: Result<IoctlCall, HymoError>)
        ensures
            match r {
                Ok(c) => self.available() && c@ == flag_call(self.handle_spec(), cmd, enable),
                Err(e) => !self.available() && e == HymoError::ComponentUnavailable,
            },
    {
        let fd = match self.require_handle() {
            Ok(fd) => fd,
            Err(e) => {
                return Err(e);
            },
        };
        let v: i32 = if enable {
            1
        } else {
            0
        };
        Ok(IoctlCall { fd, opcode: cmd.opcode(), payload: Payload::Flag(v) })
    }

    /// Marshals the add-rule command: source, target and kind.
    pub fn add_rule(&self, src: &str, target: &str, kind: i32) -> (r: Result<IoctlCall, HymoError>)
        ensures
            match r {
                Ok(c) => self.available() && !contains_null(src.spec_bytes()) && !contains_null(
                    target.spec_bytes(),
                ) && c@ == rule_call(
                    self.handle_spec(),
                    Command::AddRule,
                    src.spec_bytes(),
                    Some(target.spec_bytes()),
                    kind,
                ),
                Err(e) => if !self.available() {
                    e == HymoError::ComponentUnavailable
                } else {
                    (contains_null(src.spec_bytes()) || contains_null(target.spec_bytes())) && e
                        == HymoError::InvalidInput
                },
            },
    {
        self.rule_command(Command::AddRule, src, Some(target), kind)
    }

    /// Marshals the add-merge-rule command: the kind field is unused and
    /// carried as zero.
    pub fn add_merge_rule(&self, src: &str, target: &str) -> (r: Result<IoctlCall, HymoError>)
        ensures
            match r {
                Ok(c) => self.available() && !contains_null(src.spec_bytes()) && !contains_null(
                    target.spec_bytes(),
                ) && c@ == rule_call(
                    self.handle_spec(),
                    Command::AddMergeRule,
                    src.spec_bytes(),
                    Some(target.spec_bytes()),
                    0,
                ),
                Err(e) => if !self.available() {
                    e == HymoError::ComponentUnavailable
                } else {
                    (contains_null(src.spec_bytes()) || contains_null(target.spec_bytes())) && e
                        == HymoError::InvalidInput
                },
            },
    {
        self.rule_command(Command::AddMergeRule, src, Some(target), 0)
    }

    /// Marshals the delete-rule command: the target is the null marker.
    pub fn delete_rule(&self, src: &str) -> (r: Result<IoctlCall, HymoError>)
        ensures
            match r {
                Ok(c) => self.available() && !contains_null(src.spec_bytes()) && c@ == rule_call(
                    self.handle_spec(),
                    Command::DeleteRule,
                    src.spec_bytes(),
                    None,
                    0,
                ),
                Err(e) => if !self.available() {
                    e == HymoError::ComponentUnavailable
                } else {
                    contains_null(src.spec_bytes()) && e == HymoError::InvalidInput
                },
            },
    {
        self.rule_command(Command::DeleteRule, src, None, 0)
    }

    /// Marshals the hide-path command: the target is the null marker.
    pub fn hide_path(&self, path: &str) -> (r: Result<IoctlCall, HymoError>)
        ensures
            match r {
                Ok(c) => self.available() && !contains_null(path.spec_bytes()) && c@ == rule_call(
                    self.handle_spec(),
                    Command::HidePath,
                    path.spec_bytes(),
                    None,
                    0,
                ),
                Err(e) => if !self.available() {
                    e == HymoError::ComponentUnavailable
                } else {
                    contains_null(path.spec_bytes()) && e == HymoError::InvalidInput
                },
            },
    {
        self.rule_command(Command::HidePath, path, None, 0)
    }

    /// Marshals the set-mirror-path command: the target is the null
    /// marker.
    pub fn set_mirror_path(&self, path: &str) -> (r: Result<IoctlCall, HymoError>)
        ensures
            match r {
                Ok(c) => self.available() && !contains_null(path.spec_bytes()) && c@ == rule_call(
                    self.handle_spec(),
                    Command::SetMirrorPath,
                    path.spec_bytes(),
                    None,
                    0,
                ),
                Err(e) => if !self.available() {
                    e == HymoError::ComponentUnavailable
                } else {
                    contains_null(path.spec_bytes()) && e == HymoError::InvalidInput
                },
            },
    {
        self.rule_command(Command::SetMirrorPath, path, None, 0)
    }

    /// Marshals the clear-all command.
    pub fn clear_rules(&self) -> (r: Result<IoctlCall, HymoError>)
        ensures
            match r {
                Ok(c) => self.available() && c@ == empty_call(self.handle_spec(), Command::ClearAll),
                Err(e) => !self.available() && e == HymoError::ComponentUnavailable,
            },
    {
        self.empty_command(Command::ClearAll)
    }

    /// Marshals the fix-mounts command.
    pub fn fix_mounts(&self) -> (r: Result<IoctlCall, HymoError>)
        ensures
            match r {
                Ok(c) => self.available() && c@ == empty_call(
                    self.handle_spec(),
                    Command::FixMounts,
                ),
                Err(e) => !self.available() && e == HymoError::ComponentUnavailable,
            },
    {
        self.empty_command(Command::FixMounts)
    }

    /// Marshals the set-debug command.
    pub fn set_debug(&self, enable: bool) -> (r: Result<IoctlCall, HymoError>)
        ensures
            match r {
                Ok(c) => self.available() && c@ == flag_call(
                    self.handle_spec(),
                    Command::SetDebug,
                    enable,
                ),
                Err(e) => !self.available() && e == HymoError::ComponentUnavailable,
            },
    {
        self.flag_command(Command::SetDebug, enable)
    }

    /// Marshals the set-stealth command.
    pub fn set_stealth(&self, enable: bool) -> (r: Result<IoctlCall, HymoError>)
        ensures
            match r {
                Ok(c) => self.available() && c@ == flag_call(
                    self.handle_spec(),
                    Command::SetStealth,
                    enable,
                ),
                Err(e) => !self.available() && e == HymoError::ComponentUnavailable,
            },
    {
        self.flag_command(Command::SetStealth, enable)
    }

    /// Marshals the set-enabled command.
    pub fn set_enabled(&self, enable: bool) -> (r: Result<IoctlCall, HymoError>)
        ensures
            match r {
                Ok(c) => self.available() && c@ == flag_call(
                    self.handle_spec(),
                    Command::SetEnabled,
                    enable,
                ),
                Err(e) => !self.available() && e == HymoError::ComponentUnavailable,
            },
    {
        self.flag_command(Command::SetEnabled, enable)
    }

    /// Marshals the set-uname command.  The two fields are independently
    /// bounded and silently truncated, never rejected.
    pub fn set_uname(&self, release: &str, version: &str) -> (r: Result<IoctlCall, HymoError>)
        ensures
            match r {
                Ok(c) => self.available() && c@ == uname_call(
                    self.handle_spec(),
                    release.spec_bytes(),
                    version.spec_bytes(),
                ),
                Err(e) => !self.available() && e == HymoError::ComponentUnavailable,
            },
    {
        let fd = match self.require_handle() {
            Ok(fd) => fd,
            Err(e) => {
                return Err(e);
            },
        };
        let release_field = encode_bounded_field(release, UNAME_FIELD_LEN);
        let version_field = encode_bounded_field(version, UNAME_FIELD_LEN);
        Ok(
            IoctlCall {
                fd,
                opcode: Command::SetUname.opcode(),
                payload: Payload::Uname { release: release_field, version: version_field },
            },
        )
    }

    /// Marshals the get-version command; the component writes a 4-byte
    /// integer back.
    pub fn get_protocol_version(&self) -> (r: Result<IoctlCall, HymoError>)
        ensures
            match r {
                Ok(c) => self.available() && c@ == (CallModel {
                    fd: self.handle_spec(),
                    opcode: Command::GetVersion.opcode_spec(),
                    payload: PayloadModel::ReadInt,
                }),
                Err(e) => !self.available() && e == HymoError::ComponentUnavailable,
            },
    {
        let fd = match self.require_handle() {
            Ok(fd) => fd,
            Err(e) => {
                return Err(e);
            },
        };
        Ok(IoctlCall { fd, opcode: Command::GetVersion.opcode(), payload: Payload::ReadInt })
    }

    /// Marshals the list-rules command: the component fills the scratch
    /// buffer with the active rules as text.
    pub fn get_active_rules(&self) -> (r: Result<IoctlCall, HymoError>)
        ensures
            match r {
                Ok(c) => self.available() && c@ == (CallModel {
                    fd: self.handle_spec(),
                    opcode: Command::ListRules.opcode_spec(),
                    payload: PayloadModel::ListBuffer { size: LIST_BUFFER_SIZE as int },
                }),
                Err(e) => !self.available() && e == HymoError::ComponentUnavailable,
            },
    {
        let fd = match self.require_handle() {
            Ok(fd) => fd,
            Err(e) => {
                return Err(e);
            },
        };
        Ok(
            IoctlCall {
                fd,
                opcode: Command::ListRules.opcode(),
                payload: Payload::ListBuffer { size: LIST_BUFFER_SIZE },
            },
        )
    }
}

} // verus!
