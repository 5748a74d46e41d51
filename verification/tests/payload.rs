use portlink::payload::apply_append_mode;

#[test]
fn append_lf_after_existing_line_ending() {
    assert_eq!(apply_append_mode("AT\r\n".to_string(), "lf"), b"AT\r\n\n".to_vec());
}

#[test]
fn append_cr() {
    assert_eq!(apply_append_mode("AT".to_string(), "cr"), b"AT\r".to_vec());
}

#[test]
fn append_crlf() {
    assert_eq!(apply_append_mode("AT".to_string(), "crlf"), b"AT\r\n".to_vec());
}

#[test]
fn append_unknown_mode_adds_nothing() {
    assert_eq!(apply_append_mode("AT".to_string(), "bogus"), b"AT".to_vec());
    assert_eq!(apply_append_mode("AT".to_string(), ""), b"AT".to_vec());
    assert_eq!(apply_append_mode("AT".to_string(), "LF"), b"AT".to_vec());
}
