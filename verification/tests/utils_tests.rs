use wg_tunnel::cli::{get_log_level, get_log_output, handling_args, Args, LogLevel, LogOutput};
use wg_tunnel::config::{Interface, Peer, WireguardConfig};
use wg_tunnel::utils::{
    adopt_file_name, generate_private_key, generate_public_key, is_configuration_file, public_key_input,
    run_cmd_with_timeout, start_cmd_with_timeout, ChildEvent, ChildOp, KeyGenError, ProcessError, RunStep,
    TUNNELS_PATH,
};

#[test]
fn run_that_exits_in_time() {
    let op = start_cmd_with_timeout();
    assert_eq!(op, ChildOp::WaitTimeout);
    for code in [Some(0), Some(3), None] {
        let step = run_cmd_with_timeout(op, ChildEvent::Exited(code));
        assert_eq!(step, RunStep::Do(ChildOp::ReadOutput { code }));
        let step = run_cmd_with_timeout(ChildOp::ReadOutput { code }, ChildEvent::Output("out".to_string()));
        assert_eq!(step, RunStep::Return(Ok((code, "out".to_string()))));
    }
}

#[test]
fn run_that_hangs_is_killed_and_read() {
    let step = run_cmd_with_timeout(ChildOp::WaitTimeout, ChildEvent::TimedOut);
    assert_eq!(step, RunStep::Do(ChildOp::Kill));
    let step = run_cmd_with_timeout(ChildOp::Kill, ChildEvent::Killed);
    assert_eq!(step, RunStep::Do(ChildOp::Wait));
    let step = run_cmd_with_timeout(ChildOp::Wait, ChildEvent::Exited(None));
    assert_eq!(step, RunStep::Do(ChildOp::ReadOutput { code: None }));
    let step = run_cmd_with_timeout(ChildOp::ReadOutput { code: None }, ChildEvent::Output("partial".to_string()));
    assert_eq!(step, RunStep::Return(Ok((None, "partial".to_string()))));
}

#[test]
fn refused_operation_ends_the_run() {
    assert_eq!(run_cmd_with_timeout(ChildOp::WaitTimeout, ChildEvent::Failed), RunStep::Return(Err(ProcessError::Wait)));
    assert_eq!(
        run_cmd_with_timeout(ChildOp::Kill, ChildEvent::Failed),
        RunStep::Return(Err(ProcessError::Kill))
    );
    assert_eq!(run_cmd_with_timeout(ChildOp::Wait, ChildEvent::Failed), RunStep::Return(Err(ProcessError::Wait)));
    assert_eq!(
        run_cmd_with_timeout(ChildOp::ReadOutput { code: Some(0) }, ChildEvent::Failed),
        RunStep::Return(Err(ProcessError::Read))
    );
    assert_eq!(run_cmd_with_timeout(ChildOp::Wait, ChildEvent::TimedOut), RunStep::Return(Err(ProcessError::Wait)));
}

#[test]
fn private_key_is_trimmed_text() {
    assert_eq!(generate_private_key(Ok(b"  aGVsbG8=\n".to_vec())), Ok("aGVsbG8=".to_string()));
    assert_eq!(generate_private_key(Ok(b"a b\t\r\n".to_vec())), Ok("a b".to_string()));
    assert_eq!(generate_private_key(Ok(Vec::new())), Err(KeyGenError::EmptyOutput));
    assert_eq!(generate_private_key(Ok(b" \t\n".to_vec())), Err(KeyGenError::EmptyOutput));
    assert_eq!(generate_private_key(Ok("\u{3000}k\u{a0}".as_bytes().to_vec())), Ok("k".to_string()));
}

#[test]
fn key_output_must_be_utf8() {
    assert_eq!(generate_private_key(Ok(vec![0xff, 0xfe])), Err(KeyGenError::NotUtf8));
    assert_eq!(generate_public_key(Ok(vec![0xc3])), Err(KeyGenError::NotUtf8));
}

#[test]
fn public_key_needs_output() {
    assert_eq!(generate_public_key(Ok(Vec::new())), Err(KeyGenError::EmptyOutput));
    assert_eq!(generate_public_key(Ok(b"cHVi\n".to_vec())), Ok("cHVi".to_string()));
    assert_eq!(generate_public_key(Ok(b"\n".to_vec())), Err(KeyGenError::EmptyOutput));
    assert_eq!(generate_public_key(Ok("\u{2003}\r\n".as_bytes().to_vec())), Err(KeyGenError::EmptyOutput));
}

#[test]
fn public_key_input_is_trimmed() {
    assert_eq!(public_key_input(" key \n"), "key");
}

#[test]
fn configuration_files_end_in_conf() {
    let conf = "conf".to_string();
    let other = "txt".to_string();
    assert!(is_configuration_file(true, Some(&conf)));
    assert!(!is_configuration_file(false, Some(&conf)));
    assert!(!is_configuration_file(true, Some(&other)));
    assert!(!is_configuration_file(true, None));
    assert_eq!(TUNNELS_PATH, "/etc/wireguard");
}

#[test]
fn file_name_fills_a_missing_name_only() {
    let mut config = WireguardConfig { interface: Interface::default(), peers: vec![Peer::default()] };
    adopt_file_name(&mut config, None);
    assert_eq!(config.interface.name, None);
    adopt_file_name(&mut config, Some("wg1".to_string()));
    assert_eq!(config.interface.name, Some("wg1".to_string()));
    adopt_file_name(&mut config, Some("other".to_string()));
    assert_eq!(config.interface.name, Some("wg1".to_string()));
    assert_eq!(config.peers, vec![Peer::default()]);
}

#[test]
fn options_default_to_info_and_syslog() {
    let args = handling_args(None, None);
    assert_eq!(args, Args::default());
    assert_eq!(*get_log_level(&args), LogLevel::Info);
    assert_eq!(*get_log_output(&args), LogOutput::Syslog);
    assert_eq!(LogOutput::default(), LogOutput::Syslog);
    let args = handling_args(Some(LogLevel::Trace), Some(LogOutput::Stdout));
    assert_eq!(*get_log_level(&args), LogLevel::Trace);
    assert_eq!(*get_log_output(&args), LogOutput::Stdout);
}

#[test]
fn key_tool_that_cannot_run_gives_its_failure() {
    assert_eq!(generate_private_key(Err(ProcessError::Spawn)), Err(KeyGenError::Process(ProcessError::Spawn)));
    assert_eq!(generate_public_key(Err(ProcessError::Spawn)), Err(KeyGenError::Process(ProcessError::Spawn)));
    assert_eq!(generate_public_key(Err(ProcessError::Wait)), Err(KeyGenError::Process(ProcessError::Wait)));
}
