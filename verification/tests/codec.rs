use ptybridge::hex::hex_dump;
use ptybridge::hex::parse_bytes;

#[test]
fn parses_well_formed_tokens() {
    assert_eq!(parse_bytes("41 42 0a"), vec![0x41u8, 0x42, 0x0a]);
}

#[test]
fn drops_malformed_tokens() {
    assert_eq!(parse_bytes("zz 41"), vec![0x41u8]);
}

#[test]
fn accepts_both_digit_cases() {
    assert_eq!(parse_bytes("ff FF 7e"), vec![0xffu8, 0xff, 0x7e]);
}

#[test]
fn strips_one_trailing_terminator() {
    assert_eq!(parse_bytes("41 42\n"), vec![0x41u8, 0x42]);
}

#[test]
fn drops_single_digit_tokens() {
    assert_eq!(parse_bytes("4 41"), vec![0x41u8]);
}

#[test]
fn drops_overlong_tokens() {
    assert_eq!(parse_bytes("414 41"), vec![0x41u8]);
}

#[test]
fn empty_line_decodes_to_nothing() {
    assert_eq!(parse_bytes(""), Vec::<u8>::new());
    assert_eq!(parse_bytes("\n"), Vec::<u8>::new());
}

#[test]
fn consecutive_spaces_make_empty_tokens() {
    assert_eq!(parse_bytes("41  42"), vec![0x41u8, 0x42]);
}

#[test]
fn dumps_bytes_as_spaced_lowercase_pairs() {
    assert_eq!(hex_dump(&[0x41u8, 0x42, 0x0a]), b"41 42 0a".to_vec());
    assert_eq!(hex_dump(&[0xffu8]), b"ff".to_vec());
    assert_eq!(hex_dump(&[]), Vec::<u8>::new());
}

#[test]
fn dump_then_parse_round_trips() {
    let samples: Vec<Vec<u8>> = vec![
        vec![],
        vec![0x0a],
        vec![0x00, 0xff, 0x10, 0x0a, 0x20],
        (0u8..=255).collect(),
    ];
    for bytes in samples {
        let line = hex_dump(&bytes);
        let text = String::from_utf8(line).unwrap();
        assert_eq!(parse_bytes(&text), bytes);
    }
}
