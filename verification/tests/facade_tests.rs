use hymo_minimal::{Command, HymoError, HymoFS, IoctlCall, Payload};

fn ready_client(fd: i32) -> HymoFS {
    let mut client = HymoFS::new();
    client.install_handle(fd);
    client
}

fn unavailable_client() -> HymoFS {
    let mut client = HymoFS::new();
    client.mark_unavailable();
    client
}

#[test]
fn every_operation_fails_without_a_handle() {
    let client = unavailable_client();
    let unavailable = Err::<(), HymoError>(HymoError::ComponentUnavailable).unwrap_err();
    assert_eq!(client.add_rule("/a", "/b", 1).unwrap_err(), unavailable);
    assert_eq!(client.add_merge_rule("/a", "/b").unwrap_err(), unavailable);
    assert_eq!(client.delete_rule("/a").unwrap_err(), unavailable);
    assert_eq!(client.hide_path("/a").unwrap_err(), unavailable);
    assert_eq!(client.set_mirror_path("/a").unwrap_err(), unavailable);
    assert_eq!(client.clear_rules().unwrap_err(), unavailable);
    assert_eq!(client.fix_mounts().unwrap_err(), unavailable);
    assert_eq!(client.set_debug(true).unwrap_err(), unavailable);
    assert_eq!(client.set_stealth(false).unwrap_err(), unavailable);
    assert_eq!(client.set_enabled(true).unwrap_err(), unavailable);
    assert_eq!(client.set_uname("r", "v").unwrap_err(), unavailable);
    assert_eq!(client.get_protocol_version().unwrap_err(), unavailable);
    assert_eq!(client.get_active_rules().unwrap_err(), unavailable);
}

#[test]
fn unavailability_is_checked_before_input_validation() {
    let client = unavailable_client();
    // Even a string with an embedded null byte reports the missing
    // component first.
    assert_eq!(
        client.add_rule("bad\0path", "/b", 0).unwrap_err(),
        HymoError::ComponentUnavailable
    );
}

#[test]
fn add_rule_marshals_null_terminated_strings() {
    let client = ready_client(5);
    let call = client.add_rule("/src", "/target", 3).unwrap();
    assert_eq!(call.fd, 5);
    assert_eq!(call.opcode, Command::AddRule.opcode());
    match call.payload {
        Payload::Rule { src, target, kind } => {
            assert_eq!(src, b"/src\0".to_vec());
            assert_eq!(target, Some(b"/target\0".to_vec()));
            assert_eq!(kind, 3);
        }
        _ => panic!("expected a rule payload"),
    }
}

#[test]
fn embedded_null_byte_is_invalid_input() {
    let client = ready_client(5);
    assert_eq!(
        client.add_rule("bad\0path", "/b", 0).unwrap_err(),
        HymoError::InvalidInput
    );
    assert_eq!(
        client.add_rule("/a", "bad\0target", 0).unwrap_err(),
        HymoError::InvalidInput
    );
    assert_eq!(
        client.delete_rule("bad\0path").unwrap_err(),
        HymoError::InvalidInput
    );
    assert_eq!(
        client.hide_path("bad\0path").unwrap_err(),
        HymoError::InvalidInput
    );
    assert_eq!(
        client.set_mirror_path("bad\0path").unwrap_err(),
        HymoError::InvalidInput
    );
    assert_eq!(
        client.add_merge_rule("bad\0path", "/b").unwrap_err(),
        HymoError::InvalidInput
    );
}

#[test]
fn add_merge_rule_fixes_the_kind() {
    let client = ready_client(4);
    let call = client.add_merge_rule("/m/system", "/system").unwrap();
    assert_eq!(call.opcode, Command::AddMergeRule.opcode());
    match call.payload {
        Payload::Rule { src, target, kind } => {
            assert_eq!(src, b"/m/system\0".to_vec());
            assert_eq!(target, Some(b"/system\0".to_vec()));
            assert_eq!(kind, 0);
        }
        _ => panic!("expected a rule payload"),
    }
}

#[test]
fn absent_target_is_the_null_marker_not_an_empty_string() {
    let client = ready_client(4);
    let deleted = client.delete_rule("/a").unwrap();
    match deleted.payload {
        Payload::Rule { target, .. } => assert_eq!(target, None),
        _ => panic!("expected a rule payload"),
    }
    // An empty target string, by contrast, still travels as one
    // terminator byte.
    let added = client.add_rule("/a", "", 0).unwrap();
    match added.payload {
        Payload::Rule { target, .. } => assert_eq!(target, Some(b"\0".to_vec())),
        _ => panic!("expected a rule payload"),
    }
}

#[test]
fn hide_and_mirror_reuse_the_delete_shape() {
    let client = ready_client(9);
    let hidden = client.hide_path("/p").unwrap();
    assert_eq!(hidden.opcode, Command::HidePath.opcode());
    match hidden.payload {
        Payload::Rule { src, target, kind } => {
            assert_eq!(src, b"/p\0".to_vec());
            assert_eq!(target, None);
            assert_eq!(kind, 0);
        }
        _ => panic!("expected a rule payload"),
    }
    let mirror = client.set_mirror_path("/mirror").unwrap();
    assert_eq!(mirror.opcode, Command::SetMirrorPath.opcode());
    match mirror.payload {
        Payload::Rule { src, target, .. } => {
            assert_eq!(src, b"/mirror\0".to_vec());
            assert_eq!(target, None);
        }
        _ => panic!("expected a rule payload"),
    }
}

#[test]
fn zero_payload_commands() {
    let client = ready_client(2);
    let cleared = client.clear_rules().unwrap();
    assert_eq!(cleared.fd, 2);
    assert_eq!(cleared.opcode, Command::ClearAll.opcode());
    assert!(matches!(cleared.payload, Payload::Empty));
    let fixed = client.fix_mounts().unwrap();
    assert_eq!(fixed.opcode, Command::FixMounts.opcode());
    assert!(matches!(fixed.payload, Payload::Empty));
}

#[test]
fn flag_commands_encode_one_and_zero() {
    let client = ready_client(2);
    let on = client.set_debug(true).unwrap();
    assert_eq!(on.opcode, Command::SetDebug.opcode());
    assert!(matches!(on.payload, Payload::Flag(1)));
    let off = client.set_stealth(false).unwrap();
    assert_eq!(off.opcode, Command::SetStealth.opcode());
    assert!(matches!(off.payload, Payload::Flag(0)));
    let enabled = client.set_enabled(true).unwrap();
    assert_eq!(enabled.opcode, Command::SetEnabled.opcode());
    assert!(matches!(enabled.payload, Payload::Flag(1)));
}

#[test]
fn set_uname_truncates_silently() {
    let client = ready_client(2);
    let release: String = std::iter::repeat('r').take(300).collect();
    let call = client.set_uname(&release, "v1").unwrap();
    assert_eq!(call.opcode, Command::SetUname.opcode());
    match call.payload {
        Payload::Uname { release, version } => {
            // 300 content bytes are cut to 64, with the terminator at
            // index 64: the field bound is 65 bytes.
            assert_eq!(release.len(), 65);
            assert!(release[..64].iter().all(|&b| b == b'r'));
            assert_eq!(release[64], 0);
            // The short field keeps its content and is zero-filled.
            assert_eq!(version.len(), 65);
            assert_eq!(&version[..2], b"v1");
            assert!(version[2..].iter().all(|&b| b == 0));
        }
        _ => panic!("expected a uname payload"),
    }
}

#[test]
fn uname_accepts_embedded_null_bytes() {
    // The uname fields are lossy, never rejected: a null byte simply ends
    // the useful content.
    let client = ready_client(2);
    assert!(client.set_uname("a\0b", "v").is_ok());
}

#[test]
fn version_and_listing_requests() {
    let client = ready_client(6);
    let version: IoctlCall = client.get_protocol_version().unwrap();
    assert_eq!(version.fd, 6);
    assert_eq!(version.opcode, Command::GetVersion.opcode());
    assert!(matches!(version.payload, Payload::ReadInt));

    let listing = client.get_active_rules().unwrap();
    assert_eq!(listing.opcode, Command::ListRules.opcode());
    match listing.payload {
        Payload::ListBuffer { size } => assert_eq!(size, 16 * 1024),
        _ => panic!("expected a list-buffer payload"),
    }
}
