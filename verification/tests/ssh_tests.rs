use biusrv::config::{Credential, ServerConfig};
use biusrv::ssh::{
    classify_os, detect_os_type, os_detect_command, wait_result_from_channel, AuthMethod,
    ChannelEvent, Client, CommandResult, Interactive, InteractiveAction, InteractiveEvent, OsType,
    Session, SshError,
};

fn result(output: &str, exit_status: u32) -> CommandResult {
    CommandResult { output: output.to_string(), exit_status }
}

#[test]
fn new_client_uses_port_22_and_has_no_credentials() {
    let c = Client::new("example.org".to_string(), "deploy".to_string());
    assert_eq!(c.host(), "example.org");
    assert_eq!(c.port(), 22);
    assert_eq!(c.user(), "deploy");
    assert_eq!(c.label(), "deploy@example.org:22");
    assert!(matches!(c.auth_method(), Err(SshError::NoAuthMethod)));
}

#[test]
fn client_builders_set_one_field_each() {
    let mut c = Client::new("h".to_string(), "u".to_string());
    c.with_port(2222);
    assert_eq!(c.port(), 2222);
    assert_eq!(c.label(), "u@h:2222");
    c.with_password("pw".to_string());
    match c.auth_method() {
        Ok(AuthMethod::Password(p)) => assert_eq!(p, "pw"),
        other => panic!("unexpected {:?}", other),
    }
    c.with_private_key("~/.ssh/id_ed25519".to_string());
    match c.auth_method() {
        Ok(AuthMethod::PrivateKey(k)) => assert_eq!(k, "~/.ssh/id_ed25519"),
        other => panic!("unexpected {:?}", other),
    }
    assert_eq!(c.host(), "h");
    assert_eq!(c.user(), "u");
    c.with_port(65535);
    assert_eq!(c.label(), "u@h:65535");
}

fn server(keypath: Option<&str>, password: Option<&str>, use_password: Option<bool>) -> ServerConfig {
    ServerConfig {
        host: "10.1.1.1".to_string(),
        port: Some(2200),
        username: "admin".to_string(),
        keypath: keypath.map(|s| s.to_string()),
        password: password.map(|s| s.to_string()),
        use_password,
    }
}

#[test]
fn credential_prefers_key_then_password_then_prompt() {
    assert_eq!(server(Some("k"), Some("p"), Some(true)).select_credential(), Credential::PrivateKey);
    assert_eq!(server(None, Some("p"), Some(true)).select_credential(), Credential::Password);
    assert_eq!(server(None, None, Some(true)).select_credential(), Credential::Prompt);
    assert_eq!(server(None, None, Some(false)).select_credential(), Credential::Missing);
    assert_eq!(server(None, None, None).select_credential(), Credential::Missing);
}

#[test]
fn build_client_takes_exactly_one_credential() {
    let c = server(Some("k"), Some("p"), None).build_client().unwrap();
    assert_eq!(c.label(), "admin@10.1.1.1:2200");
    assert!(matches!(c.auth_method(), Ok(AuthMethod::PrivateKey(k)) if k == "k"));
    let c = server(None, Some("p"), None).build_client().unwrap();
    assert!(matches!(c.auth_method(), Ok(AuthMethod::Password(p)) if p == "p"));
    let c = server(None, None, Some(true)).build_client().unwrap();
    assert!(matches!(c.auth_method(), Err(SshError::NoAuthMethod)));
    assert!(matches!(server(None, None, Some(false)).build_client(), Err(SshError::NoAuthMethod)));
    assert!(matches!(server(None, None, None).build_client(), Err(SshError::NoAuthMethod)));
    assert!(!server(None, None, None).has_credential());
    assert!(server(None, None, Some(true)).has_credential());
    assert!(server(Some("k"), None, None).has_credential());
    let mut s = server(None, Some("p"), None);
    s.port = None;
    assert_eq!(s.effective_port(), 22);
    assert_eq!(s.build_client().unwrap().port(), 22);
    assert!(!s.uses_password());
}

#[test]
fn root_runs_commands_as_they_are() {
    let s = Session::new("root".to_string(), OsType::Debian);
    assert_eq!(s.current_user(), "root");
    assert_eq!(s.os_type(), OsType::Debian);
    assert_eq!(s.sudo_command("apt update && apt upgrade -y"), "apt update && apt upgrade -y");
}

#[test]
fn other_users_run_commands_through_sudo_quoted() {
    let s = Session::new("deploy".to_string(), OsType::Arch);
    assert_eq!(s.sudo_command("id"), "sudo sh -c id");
    assert_eq!(s.sudo_command("ls -la /root"), "sudo sh -c 'ls -la /root'");
    assert_eq!(s.sudo_command("echo 'a b' > /x"), "sudo sh -c 'echo '\\''a b'\\'' > /x'");
    assert_eq!(s.sudo_command(""), "sudo sh -c ''");
}

#[test]
fn channel_output_is_gathered_until_the_exit_status() {
    let events = vec![
        ChannelEvent::Other,
        ChannelEvent::Data(b"hello ".to_vec()),
        ChannelEvent::ExtendedData { data: b"warn ".to_vec(), ext: 1 },
        ChannelEvent::ExtendedData { data: b"hidden".to_vec(), ext: 2 },
        ChannelEvent::Data(b"world\n".to_vec()),
        ChannelEvent::ExitStatus(3),
        ChannelEvent::Data(b"late".to_vec()),
    ];
    let r = wait_result_from_channel(&events);
    assert_eq!(r.output, "hello warn world");
    assert_eq!(r.exit_status, 3);
}

#[test]
fn channel_close_without_status_counts_as_zero() {
    let events = vec![ChannelEvent::Data(b"a\n\n".to_vec()), ChannelEvent::Close, ChannelEvent::ExitStatus(9)];
    let r = wait_result_from_channel(&events);
    assert_eq!(r.output, "a\n");
    assert_eq!(r.exit_status, 0);
    let r = wait_result_from_channel(&vec![ChannelEvent::Data(b"x".to_vec())]);
    assert_eq!(r.output, "x");
    assert_eq!(r.exit_status, 0);
    let r = wait_result_from_channel(&Vec::new());
    assert_eq!(r.output, "");
    assert_eq!(r.exit_status, 0);
}

#[test]
fn invalid_utf8_is_replaced_not_dropped() {
    let events = vec![ChannelEvent::Data(vec![b'o', b'k', 0xff, b'!']), ChannelEvent::ExitStatus(0)];
    assert_eq!(wait_result_from_channel(&events).output, "ok\u{fffd}!");
}

#[test]
fn absorb_tells_when_the_command_has_ended() {
    let mut r = CommandResult::new();
    assert!(!r.absorb(&ChannelEvent::Data(b"a\n".to_vec())));
    assert!(!r.absorb(&ChannelEvent::Other));
    assert!(r.absorb(&ChannelEvent::ExitStatus(7)));
    assert_eq!(r.exit_status, 7);
    assert_eq!(r.output, "a\n");
    r.finish();
    assert_eq!(r.output, "a");
    r.finish();
    assert_eq!(r.output, "a");
    let mut r = CommandResult::new();
    assert!(r.absorb(&ChannelEvent::Close));
}

#[test]
fn os_families_are_told_by_id_and_id_like() {
    assert_eq!(classify_os("", "ubuntu"), Some(OsType::Debian));
    assert_eq!(classify_os("debian", "whatever"), Some(OsType::Debian));
    assert_eq!(classify_os("ubuntu debian", "zorin"), Some(OsType::Debian));
    for id in ["debian", "kali", "linuxmint", "pop", "raspbian"] {
        assert_eq!(classify_os("", id), Some(OsType::Debian));
    }
    for id in ["rhel", "centos", "fedora", "rocky", "alma", "ol", "amzn"] {
        assert_eq!(classify_os("", id), Some(OsType::RedHat));
    }
    assert_eq!(classify_os("rhel centos fedora", "almalinux"), Some(OsType::RedHat));
    assert_eq!(classify_os("fedora", "nobara"), Some(OsType::RedHat));
    assert_eq!(classify_os("", "arch"), Some(OsType::Arch));
    assert_eq!(classify_os("", "manjaro"), Some(OsType::Arch));
    assert_eq!(classify_os("arch", "endeavouros"), Some(OsType::Arch));
    assert_eq!(classify_os("", "alpine"), None);
    assert_eq!(classify_os("suse", "opensuse-leap"), None);
    assert_eq!(classify_os("", "Ubuntu"), None);
    assert_eq!(classify_os("debian rhel", "mix"), Some(OsType::Debian));
}

#[test]
fn os_detection_reads_one_line_with_one_colon() {
    assert_eq!(detect_os_type(&result("debian:ubuntu\n", 0)).unwrap(), OsType::Debian);
    assert_eq!(detect_os_type(&result("  :arch  ", 0)).unwrap(), OsType::Arch);
    assert_eq!(detect_os_type(&result("rhel fedora:rocky", 0)).unwrap(), OsType::RedHat);
    assert!(matches!(detect_os_type(&result("debian:ubuntu", 1)), Err(SshError::OsDetectionFailed)));
    assert!(matches!(detect_os_type(&result("ubuntu", 0)), Err(SshError::OsDetectionFailed)));
    assert!(matches!(detect_os_type(&result("a:b:c", 0)), Err(SshError::OsDetectionFailed)));
    assert!(matches!(detect_os_type(&result("", 0)), Err(SshError::OsDetectionFailed)));
    match detect_os_type(&result("suse:opensuse", 0)) {
        Err(SshError::UnsupportedOs { id, id_like }) => {
            assert_eq!(id, "opensuse");
            assert_eq!(id_like, "suse");
        }
        other => panic!("unexpected {:?}", other),
    }
    match detect_os_type(&result(":", 0)) {
        Err(SshError::UnsupportedOs { id, id_like }) => {
            assert_eq!(id, "");
            assert_eq!(id_like, "");
        }
        other => panic!("unexpected {:?}", other),
    }
}

#[test]
fn detection_script_reads_the_release_files() {
    let script = os_detect_command();
    assert!(script.starts_with("\ncase \"$(uname -s)\" in\n    Linux)\n"));
    assert!(script.contains("echo \"$os_id_like:$os_id\""));
    assert!(script.contains("echo \"rhel:rhel\""));
    assert!(script.contains("echo \"debian:debian\""));
    assert!(script.ends_with("esac"));
}

#[test]
fn interactive_passes_input_until_it_ends() {
    let mut s = Interactive::new();
    assert!(s.wants_input());
    assert!(matches!(
        s.on_event(InteractiveEvent::Input(b"ls\n".to_vec())),
        InteractiveAction::Send(d) if d == b"ls\n"
    ));
    assert!(matches!(s.on_event(InteractiveEvent::InputClosed), InteractiveAction::SendEof));
    assert!(!s.wants_input());
    assert!(matches!(s.on_event(InteractiveEvent::InputClosed), InteractiveAction::Ignore));
    assert!(matches!(s.on_event(InteractiveEvent::Input(b"x".to_vec())), InteractiveAction::Ignore));
    assert!(matches!(
        s.on_event(InteractiveEvent::Remote(ChannelEvent::ExitStatus(0))),
        InteractiveAction::Finish { code: 0, send_eof: false }
    ));
}

#[test]
fn interactive_forwards_output_and_standard_error() {
    let mut s = Interactive::new();
    assert!(matches!(
        s.on_event(InteractiveEvent::Remote(ChannelEvent::Data(b"out".to_vec()))),
        InteractiveAction::Forward(d) if d == b"out"
    ));
    assert!(matches!(
        s.on_event(InteractiveEvent::Remote(ChannelEvent::ExtendedData { data: b"err".to_vec(), ext: 1 })),
        InteractiveAction::Forward(d) if d == b"err"
    ));
    assert!(matches!(
        s.on_event(InteractiveEvent::Remote(ChannelEvent::ExtendedData { data: b"x".to_vec(), ext: 2 })),
        InteractiveAction::Ignore
    ));
    assert!(matches!(s.on_event(InteractiveEvent::Remote(ChannelEvent::Close)), InteractiveAction::Ignore));
    assert!(matches!(s.on_event(InteractiveEvent::Remote(ChannelEvent::Other)), InteractiveAction::Ignore));
    assert!(matches!(
        s.on_event(InteractiveEvent::Remote(ChannelEvent::ExitStatus(130))),
        InteractiveAction::Finish { code: 130, send_eof: true }
    ));
}

#[test]
fn ssh_errors_read_in_words() {
    assert_eq!(
        SshError::NoAuthMethod.message(),
        "No authentication method provided (need password or private key)"
    );
    assert_eq!(SshError::OsDetectionFailed.message(), "Failed to detect OS type from /etc/os-release");
    assert_eq!(
        SshError::UnsupportedOs { id: "opensuse".to_string(), id_like: "suse".to_string() }.message(),
        "Unsupported OS type: ID=opensuse, ID_LIKE=suse"
    );
}

#[test]
fn end_of_input_is_signalled_exactly_once() {
    let runs: Vec<Vec<InteractiveEvent>> = vec![
        vec![InteractiveEvent::Remote(ChannelEvent::ExitStatus(0))],
        vec![InteractiveEvent::InputClosed, InteractiveEvent::Remote(ChannelEvent::ExitStatus(0))],
        vec![
            InteractiveEvent::Input(b"a".to_vec()),
            InteractiveEvent::Remote(ChannelEvent::Data(b"b".to_vec())),
            InteractiveEvent::InputClosed,
            InteractiveEvent::InputClosed,
            InteractiveEvent::Remote(ChannelEvent::Close),
            InteractiveEvent::Remote(ChannelEvent::ExitStatus(1)),
        ],
        vec![
            InteractiveEvent::Input(b"a".to_vec()),
            InteractiveEvent::Remote(ChannelEvent::Other),
            InteractiveEvent::Remote(ChannelEvent::ExitStatus(2)),
        ],
    ];
    for events in runs {
        let mut state = Interactive::new();
        let mut signals = 0;
        let mut finished = false;
        for event in events {
            match state.on_event(event) {
                InteractiveAction::SendEof => signals += 1,
                InteractiveAction::Finish { send_eof, .. } => {
                    if send_eof {
                        signals += 1;
                    }
                    finished = true;
                }
                _ => {}
            }
        }
        assert!(finished);
        assert_eq!(signals, 1);
    }
}

#[test]
fn sudo_line_is_built_from_the_quoted_command() {
    let s = Session::new("deploy".to_string(), OsType::Debian);
    assert_eq!(s.sudo_command_with("ls -la", "<quoted>"), "sudo sh -c <quoted>");
    let root = Session::new("root".to_string(), OsType::Debian);
    assert_eq!(root.sudo_command_with("ls -la", "<quoted>"), "ls -la");
}

#[test]
fn decoded_text_joins_the_output_only_for_output_messages() {
    let mut r = CommandResult::new();
    assert!(!r.absorb_text(&ChannelEvent::Data(Vec::new()), "out "));
    assert!(!r.absorb_text(&ChannelEvent::ExtendedData { data: Vec::new(), ext: 1 }, "err "));
    assert!(!r.absorb_text(&ChannelEvent::ExtendedData { data: Vec::new(), ext: 2 }, "other "));
    assert!(!r.absorb_text(&ChannelEvent::Other, "x"));
    assert!(r.absorb_text(&ChannelEvent::ExitStatus(5), "y"));
    assert!(r.absorb_text(&ChannelEvent::Close, "z"));
    assert_eq!(r.output, "out err ");
    assert_eq!(r.exit_status, 5);
}
