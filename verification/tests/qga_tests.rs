use libvirt_node::qga::{
    decode_b64_text, exec_command, exec_result, exec_status_command, file_close_command,
    file_open_command, file_read_command, file_write_command, file_write_mode,
    network_interfaces_command, os_info_command, parse_exec_pid, parse_exec_status,
    parse_file_open, parse_file_read_chunk, parse_return_present, raw_command, set_time_command,
    shutdown_command, sync_command, users_command, ExecStatus, FileReadSession,
};

#[test]
fn exec_command_bytes() {
    let cmd = exec_command("ls", &vec!["-l".to_string(), "/tmp".to_string()], true);
    assert_eq!(
        String::from_utf8(cmd).unwrap(),
        "{\"arguments\":{\"arg\":[\"-l\",\"/tmp\"],\"capture-output\":true,\"path\":\"ls\"},\"execute\":\"guest-exec\"}"
    );
}

#[test]
fn exec_command_no_args_no_capture() {
    let cmd = exec_command("/bin/true", &Vec::new(), false);
    assert_eq!(
        String::from_utf8(cmd).unwrap(),
        "{\"arguments\":{\"arg\":[],\"capture-output\":false,\"path\":\"/bin/true\"},\"execute\":\"guest-exec\"}"
    );
}

#[test]
fn exec_command_escapes_path() {
    let cmd = exec_command("a\"b\\c\nd", &Vec::new(), true);
    assert_eq!(
        String::from_utf8(cmd).unwrap(),
        "{\"arguments\":{\"arg\":[],\"capture-output\":true,\"path\":\"a\\\"b\\\\c\\nd\"},\"execute\":\"guest-exec\"}"
    );
}

#[test]
fn exec_command_escapes_control_byte() {
    let cmd = exec_command("a\u{1}b", &Vec::new(), true);
    assert_eq!(
        String::from_utf8(cmd).unwrap(),
        "{\"arguments\":{\"arg\":[],\"capture-output\":true,\"path\":\"a\\u0001b\"},\"execute\":\"guest-exec\"}"
    );
}

#[test]
fn exec_status_command_bytes() {
    assert_eq!(
        String::from_utf8(exec_status_command(42)).unwrap(),
        "{\"arguments\":{\"pid\":42},\"execute\":\"guest-exec-status\"}"
    );
    assert_eq!(
        String::from_utf8(exec_status_command(-7)).unwrap(),
        "{\"arguments\":{\"pid\":-7},\"execute\":\"guest-exec-status\"}"
    );
}

#[test]
fn file_commands_bytes() {
    assert_eq!(
        String::from_utf8(file_open_command("/etc/hosts", "r")).unwrap(),
        "{\"arguments\":{\"mode\":\"r\",\"path\":\"/etc/hosts\"},\"execute\":\"guest-file-open\"}"
    );
    assert_eq!(
        String::from_utf8(file_read_command(3, 4096)).unwrap(),
        "{\"arguments\":{\"count\":4096,\"handle\":3},\"execute\":\"guest-file-read\"}"
    );
    assert_eq!(
        String::from_utf8(file_write_command(5, "hi")).unwrap(),
        "{\"arguments\":{\"buf-b64\":\"aGk=\",\"handle\":5},\"execute\":\"guest-file-write\"}"
    );
    assert_eq!(
        String::from_utf8(file_close_command(5)).unwrap(),
        "{\"arguments\":{\"handle\":5},\"execute\":\"guest-file-close\"}"
    );
}

#[test]
fn file_write_mode_choice() {
    assert_eq!(file_write_mode(true), "a");
    assert_eq!(file_write_mode(false), "w");
}

#[test]
fn bare_commands_bytes() {
    assert_eq!(
        String::from_utf8(sync_command()).unwrap(),
        "{\"execute\":\"guest-sync\"}"
    );
    assert_eq!(
        String::from_utf8(network_interfaces_command()).unwrap(),
        "{\"execute\":\"guest-network-get-interfaces\"}"
    );
    assert_eq!(
        String::from_utf8(os_info_command()).unwrap(),
        "{\"execute\":\"guest-get-osinfo\"}"
    );
    assert_eq!(
        String::from_utf8(users_command()).unwrap(),
        "{\"execute\":\"guest-get-users\"}"
    );
}

#[test]
fn shutdown_command_bytes() {
    assert_eq!(
        String::from_utf8(shutdown_command("powerdown")).unwrap(),
        "{\"arguments\":{\"mode\":\"powerdown\"},\"execute\":\"guest-shutdown\"}"
    );
}

#[test]
fn set_time_command_bytes() {
    assert_eq!(
        String::from_utf8(set_time_command(Some(1700000000000000000))).unwrap(),
        "{\"arguments\":{\"time\":1700000000000000000},\"execute\":\"guest-set-time\"}"
    );
    assert_eq!(
        String::from_utf8(set_time_command(None)).unwrap(),
        "{\"execute\":\"guest-set-time\"}"
    );
}

#[test]
fn raw_command_embeds_parsed_args() {
    let cmd = raw_command("guest-get-memory-blocks", None);
    assert_eq!(
        String::from_utf8(cmd).unwrap(),
        "{\"execute\":\"guest-get-memory-blocks\"}"
    );
    let cmd = raw_command("guest-exec-status", Some("{\"pid\": 9}"));
    assert_eq!(
        String::from_utf8(cmd).unwrap(),
        "{\"arguments\":{\"pid\":9},\"execute\":\"guest-exec-status\"}"
    );
}

#[test]
fn raw_command_drops_bad_args() {
    let cmd = raw_command("guest-sync", Some("{not json"));
    assert_eq!(
        String::from_utf8(cmd).unwrap(),
        "{\"execute\":\"guest-sync\"}"
    );
}

#[test]
fn parse_exec_pid_reads_return() {
    assert_eq!(parse_exec_pid("{\"return\":{\"pid\":77}}"), Some(77));
    assert_eq!(parse_exec_pid("{\"return\":{}}"), Some(-1));
    assert_eq!(parse_exec_pid("{\"error\":{}}"), None);
    assert_eq!(parse_exec_pid("no json"), None);
}

#[test]
fn parse_exec_status_reads_fields() {
    let st = parse_exec_status(
        "{\"return\":{\"exited\":true,\"exitcode\":0,\"out-data\":\"aGk=\"}}",
    )
    .unwrap();
    assert!(st.exited);
    assert_eq!(st.exitcode, Some(0));
    assert_eq!(st.signal, None);
    assert_eq!(st.out_data, Some("aGk=".to_string()));
    assert_eq!(st.err_data, None);
}

#[test]
fn parse_exec_status_defaults() {
    let st = parse_exec_status("{\"return\":{}}").unwrap();
    assert!(!st.exited);
    assert_eq!(st.exitcode, None);
    assert!(parse_exec_status("{\"error\":{}}").is_none());
}

#[test]
fn parse_file_open_reads_handle() {
    assert_eq!(parse_file_open("{\"return\":1000}"), Some(1000));
    assert_eq!(parse_file_open("{\"error\":{}}"), None);
}

#[test]
fn parse_file_read_chunk_reads_eof_and_data() {
    assert_eq!(
        parse_file_read_chunk("{\"return\":{\"count\":2,\"buf-b64\":\"aGk=\",\"eof\":false}}"),
        Some((false, Some("aGk=".to_string())))
    );
    // a missing eof flag counts as exhausted
    assert_eq!(
        parse_file_read_chunk("{\"return\":{\"count\":0}}"),
        Some((true, None))
    );
    assert_eq!(parse_file_read_chunk("{\"error\":{}}"), None);
}

#[test]
fn parse_return_present_checks_member() {
    assert!(parse_return_present("{\"return\":{}}"));
    assert!(!parse_return_present("{\"error\":{}}"));
    assert!(!parse_return_present("bad"));
}

#[test]
fn decode_b64_text_decodes_or_refuses() {
    assert_eq!(decode_b64_text("aGk="), Some("hi".to_string()));
    assert_eq!(decode_b64_text("!!"), None);
    // valid base64 but not UTF-8 text
    assert_eq!(decode_b64_text("/w=="), None);
}

#[test]
fn exec_result_decodes_output() {
    let st = ExecStatus {
        exited: true,
        exitcode: Some(3),
        signal: None,
        out_data: Some("aGVsbG8=".to_string()),
        err_data: Some("!!".to_string()),
    };
    let r = exec_result(9, Some(st));
    assert_eq!(r.pid, 9);
    assert_eq!(r.exitcode, Some(3));
    assert!(r.exited);
    assert_eq!(r.stdout, Some("hello".to_string()));
    assert_eq!(r.stderr, None);
}

#[test]
fn exec_result_without_status() {
    let r = exec_result(5, None);
    assert_eq!(r.pid, 5);
    assert_eq!(r.exitcode, None);
    assert_eq!(r.stdout, None);
    assert_eq!(r.stderr, None);
    assert!(!r.exited);
}

#[test]
fn file_read_session_collects_chunks() {
    let mut session = FileReadSession::begin("{\"return\":12}").unwrap();
    assert_eq!(session.handle, 12);
    assert_eq!(
        String::from_utf8(session.read_command()).unwrap(),
        "{\"arguments\":{\"count\":4096,\"handle\":12},\"execute\":\"guest-file-read\"}"
    );
    let more = session.step("{\"return\":{\"buf-b64\":\"aGVs\",\"eof\":false}}");
    assert!(more);
    let more = session.step("{\"return\":{\"buf-b64\":\"bG8=\",\"eof\":true}}");
    assert!(!more);
    assert_eq!(
        String::from_utf8(session.close_command()).unwrap(),
        "{\"arguments\":{\"handle\":12},\"execute\":\"guest-file-close\"}"
    );
    assert_eq!(session.take_content(), Some("hello".to_string()));
}

#[test]
fn file_read_session_empty_is_absent() {
    let mut session = FileReadSession::begin("{\"return\":3}").unwrap();
    let more = session.step("{\"return\":{\"eof\":true}}");
    assert!(!more);
    assert_eq!(session.take_content(), None);
}

#[test]
fn file_read_session_refuses_bad_open() {
    assert!(FileReadSession::begin("{\"error\":{}}").is_none());
}

#[test]
fn file_read_session_ends_on_bad_reply() {
    let mut session = FileReadSession::begin("{\"return\":3}").unwrap();
    let more = session.step("not json");
    assert!(!more);
    assert_eq!(session.take_content(), None);
}

#[test]
fn guest_agent_exchanges_fill_defaults() {
    let con = libvirt_node::connection::Connection::open("test:///default".to_string(), Some(9))
        .unwrap();
    let machine =
        libvirt_node::machine::Machine::lookup_by_name(&con, "vm1".to_string(), Some(40)).unwrap();
    let agent = libvirt_node::qga::GuestAgent::new(&machine);

    let (cmd, timeout) = agent.exec("ls", None, None);
    assert_eq!(timeout, 30);
    assert_eq!(
        String::from_utf8(cmd).unwrap(),
        "{\"arguments\":{\"arg\":[],\"capture-output\":true,\"path\":\"ls\"},\"execute\":\"guest-exec\"}"
    );

    let (cmd, timeout) = agent.shutdown(None);
    assert_eq!(timeout, 5);
    assert_eq!(
        String::from_utf8(cmd).unwrap(),
        "{\"arguments\":{\"mode\":\"powerdown\"},\"execute\":\"guest-shutdown\"}"
    );

    let (cmd, _) = agent.shutdown(Some("reboot".to_string()));
    assert_eq!(
        String::from_utf8(cmd).unwrap(),
        "{\"arguments\":{\"mode\":\"reboot\"},\"execute\":\"guest-shutdown\"}"
    );

    let (cmd, _) = agent.file_read("/etc/hosts");
    assert_eq!(
        String::from_utf8(cmd).unwrap(),
        "{\"arguments\":{\"mode\":\"r\",\"path\":\"/etc/hosts\"},\"execute\":\"guest-file-open\"}"
    );

    let (cmd, _) = agent.file_write("/tmp/x", Some(true));
    assert_eq!(
        String::from_utf8(cmd).unwrap(),
        "{\"arguments\":{\"mode\":\"a\",\"path\":\"/tmp/x\"},\"execute\":\"guest-file-open\"}"
    );

    let (cmd, _) = agent.file_write("/tmp/x", None);
    assert_eq!(
        String::from_utf8(cmd).unwrap(),
        "{\"arguments\":{\"mode\":\"w\",\"path\":\"/tmp/x\"},\"execute\":\"guest-file-open\"}"
    );

    let (cmd, timeout) = agent.raw("guest-ping", None);
    assert_eq!(timeout, 30);
    assert_eq!(String::from_utf8(cmd).unwrap(), "{\"execute\":\"guest-ping\"}");
}

#[test]
fn file_read_session_skips_undecodable_chunks() {
    let mut session = FileReadSession::begin("{\"return\":4}").unwrap();
    // a chunk that is not base64 adds nothing, but the read goes on
    let more = session.step("{\"return\":{\"buf-b64\":\"!!\",\"eof\":false}}");
    assert!(more);
    let more = session.step("{\"return\":{\"buf-b64\":\"aGk=\",\"eof\":true}}");
    assert!(!more);
    assert_eq!(session.take_content(), Some("hi".to_string()));
}

#[test]
fn parse_file_open_refuses_non_integer_handle() {
    assert_eq!(parse_file_open("{\"return\":\"three\"}"), None);
    assert_eq!(parse_file_open("{\"return\":3.5}"), None);
}
