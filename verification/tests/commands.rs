use ptybridge::environment::build_environment;
use ptybridge::writer::WriterMode;
use ptybridge::writer::is_exit_command;
use ptybridge::writer::make_command;

#[test]
fn raw_line_is_forwarded_verbatim() {
    assert_eq!(make_command("echo hi\n", WriterMode::Raw), b"echo hi\n".to_vec());
}

#[test]
fn raw_line_without_terminator_gets_one() {
    assert_eq!(make_command("echo hi", WriterMode::Raw), b"echo hi\n".to_vec());
}

#[test]
fn empty_line_becomes_bare_terminator() {
    assert_eq!(make_command("", WriterMode::Raw), b"\n".to_vec());
    assert_eq!(make_command("\n", WriterMode::Raw), b"\n".to_vec());
}

#[test]
fn hex_line_with_terminator_byte_gets_no_second_one() {
    assert_eq!(make_command("41 42 0a", WriterMode::HexBytes), vec![0x41u8, 0x42, 0x0a]);
}

#[test]
fn hex_line_with_malformed_token_drops_it_and_appends() {
    assert_eq!(make_command("zz 41", WriterMode::HexBytes), vec![0x41u8, 0x0a]);
}

#[test]
fn hex_line_of_nothing_still_ends_terminated() {
    assert_eq!(make_command("zz", WriterMode::HexBytes), vec![0x0au8]);
}

#[test]
fn exit_line_ends_the_bridge() {
    let cmd = make_command("exit", WriterMode::Raw);
    assert_eq!(cmd, b"exit\n".to_vec());
    assert!(is_exit_command(&cmd));
}

#[test]
fn exit_suffix_counts_after_other_text() {
    assert!(is_exit_command(b"say exit\n"));
    assert!(!is_exit_command(b"exit"));
    assert!(!is_exit_command(b"exi\n"));
    assert!(!is_exit_command(b"\n"));
}

#[test]
fn hex_exit_bytes_end_the_bridge_too() {
    let cmd = make_command("65 78 69 74", WriterMode::HexBytes);
    assert_eq!(cmd, b"exit\n".to_vec());
    assert!(is_exit_command(&cmd));
}

#[test]
fn environment_is_exactly_shell_plus_supplied_pairs() {
    let vars = vec![
        ("HOME".to_string(), "/root".to_string()),
        ("TERM".to_string(), "dumb".to_string()),
    ];
    let env = build_environment(&"/bin/sh".to_string(), vars);
    assert_eq!(env.len(), 3);
    assert_eq!(env[0], ("SHELL".to_string(), "/bin/sh".to_string()));
    assert_eq!(env[1], ("HOME".to_string(), "/root".to_string()));
    assert_eq!(env[2], ("TERM".to_string(), "dumb".to_string()));
}

#[test]
fn environment_of_no_pairs_is_shell_alone() {
    let env = build_environment(&"/bin/bash".to_string(), Vec::new());
    assert_eq!(env, vec![("SHELL".to_string(), "/bin/bash".to_string())]);
}
