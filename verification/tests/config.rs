use dsd_native::parse_sync_module;

#[test]
fn parses_a_plain_line() {
    let m = parse_sync_module(b"main=33554432").unwrap();
    assert_eq!(m.name, "main");
    assert_eq!(m.base_address, 33554432);
}

#[test]
fn parses_the_largest_address() {
    let m = parse_sync_module(b"mod=4294967295").unwrap();
    assert_eq!(m.name, "mod");
    assert_eq!(m.base_address, u32::MAX);
}

#[test]
fn parses_an_empty_name() {
    let m = parse_sync_module(b"=7").unwrap();
    assert_eq!(m.name, "");
    assert_eq!(m.base_address, 7);
}

#[test]
fn rejects_a_line_without_separator() {
    assert!(parse_sync_module(b"noseparator").is_none());
    assert!(parse_sync_module(b"").is_none());
}

#[test]
fn rejects_an_empty_address() {
    assert!(parse_sync_module(b"name=").is_none());
}

#[test]
fn rejects_a_non_digit_address() {
    assert!(parse_sync_module(b"name=12a3").is_none());
    assert!(parse_sync_module(b"a=1=2").is_none());
    assert!(parse_sync_module(b"name= 1").is_none());
}

#[test]
fn rejects_an_address_out_of_range() {
    assert!(parse_sync_module(b"name=4294967296").is_none());
    assert!(parse_sync_module(b"name=99999999999999999999").is_none());
}

#[test]
fn rejects_a_name_that_is_not_text() {
    assert!(parse_sync_module(b"\xff\xfe=1").is_none());
}

#[test]
fn parses_a_non_ascii_name() {
    let line: Vec<u8> = "caf\u{e9}=5".bytes().collect();
    let m = parse_sync_module(&line).unwrap();
    assert_eq!(m.name, "caf\u{e9}");
    assert_eq!(m.base_address, 5);
}
