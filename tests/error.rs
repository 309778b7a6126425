use notecard::Error;

fn text(e: Error) -> String {
    match e {
        Error::DeserError(s) => s,
        other => panic!("unexpected {:?}", other),
    }
}

#[test]
fn deser_error_carries_short_text() {
    assert_eq!(text(Error::new_desererror(b"{\"device\":")), "{\"device\":");
    assert_eq!(text(Error::new_desererror(b"")), "");
}

#[test]
fn deser_error_on_invalid_utf8() {
    assert_eq!(text(Error::new_desererror(&[b'{', 0xff, 0xfe, b'}'])), "[invalid utf8]");
    assert_eq!(text(Error::new_desererror(&[0xc3])), "[invalid utf8]");
}

#[test]
fn deser_error_truncates_long_input() {
    let long = vec![b'a'; 300];
    assert_eq!(text(Error::new_desererror(&long)), "a".repeat(256));
    let exact = vec![b'b'; 256];
    assert_eq!(text(Error::new_desererror(&exact)), "b".repeat(256));
}

#[test]
fn deser_error_never_splits_a_character() {
    let mut bytes = vec![b'a'; 255];
    bytes.extend_from_slice("é".as_bytes());
    bytes.extend_from_slice(b"tail");
    let t = text(Error::new_desererror(&bytes));
    assert_eq!(t, "a".repeat(255));
    let mut bytes = vec![b'a'; 254];
    bytes.extend_from_slice("é".as_bytes());
    bytes.extend_from_slice(b"tail");
    assert_eq!(text(Error::new_desererror(&bytes)), format!("{}é", "a".repeat(254)));
}

#[test]
fn deser_error_on_malformed_json() {
    let mut bytes = b"{\"device\":\"dev".to_vec();
    bytes.push(0x80);
    bytes.extend_from_slice(b"\"}\r\n");
    assert_eq!(text(Error::new_desererror(&bytes)), "[invalid utf8]");
}
