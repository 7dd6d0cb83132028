use ptybridge::args::parse_args;
use ptybridge::writer::WriterMode;

fn strings(items: &[&str]) -> Vec<String> {
    items.iter().map(|s| s.to_string()).collect()
}

#[test]
fn no_arguments_gives_the_defaults() {
    let c = parse_args(&Vec::new()).unwrap();
    assert_eq!(c.shell, "/bin/bash");
    assert_eq!(c.mode, WriterMode::Raw);
}

#[test]
fn shell_option_names_the_shell() {
    let c = parse_args(&strings(&["--shell", "/bin/sh"])).unwrap();
    assert_eq!(c.shell, "/bin/sh");
    assert_eq!(c.mode, WriterMode::Raw);
}

#[test]
fn mode_option_picks_hex_bytes() {
    let c = parse_args(&strings(&["--mod", "bytes"])).unwrap();
    assert_eq!(c.mode, WriterMode::HexBytes);
}

#[test]
fn mode_option_picks_raw() {
    let c = parse_args(&strings(&["--mod", "bytes", "--mod", "str"])).unwrap();
    assert_eq!(c.mode, WriterMode::Raw);
}

#[test]
fn unknown_mode_value_is_passed_over() {
    let c = parse_args(&strings(&["--mod", "nonsense"])).unwrap();
    assert_eq!(c.mode, WriterMode::Raw);
}

#[test]
fn help_flag_suppresses_the_run() {
    assert!(parse_args(&strings(&["--help"])).is_none());
    assert!(parse_args(&strings(&["--mod", "bytes", "--help"])).is_none());
}

#[test]
fn trailing_option_without_value_stops_parsing() {
    let c = parse_args(&strings(&["--shell"])).unwrap();
    assert_eq!(c.shell, "/bin/bash");
    let c = parse_args(&strings(&["--shell", "/bin/sh", "--mod"])).unwrap();
    assert_eq!(c.shell, "/bin/sh");
    assert_eq!(c.mode, WriterMode::Raw);
}

#[test]
fn unknown_arguments_are_passed_over() {
    let c = parse_args(&strings(&["stray", "--mod", "bytes", "more"])).unwrap();
    assert_eq!(c.mode, WriterMode::HexBytes);
    assert_eq!(c.shell, "/bin/bash");
}
