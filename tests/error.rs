use std::string::FromUtf8Error;

use utf8_command::{decode_output, Error, StderrError, StdoutError};

fn from_utf8_error(bytes: &[u8]) -> FromUtf8Error {
    String::from_utf8(bytes.to_vec()).unwrap_err()
}

#[test]
fn stdout_error_message() {
    let err = StdoutError::from(from_utf8_error(b"\x80"));
    assert_eq!(
        err.to_string(),
        "Stdout contained invalid utf-8 sequence of 1 bytes from index 0: \"\u{fffd}\""
    );
}

#[test]
fn stderr_error_message() {
    let err = StderrError::from(from_utf8_error(b"\xf0\x90"));
    assert_eq!(
        err.to_string(),
        "Stderr contained incomplete utf-8 byte sequence from index 0: \"\u{fffd}\""
    );
}

#[test]
fn inner_returns_the_wrapped_error() {
    let inner = from_utf8_error(b"ab\xc0");
    let err = Error::from(StdoutError::from(inner.clone()));
    assert_eq!(err.inner(), &inner);
    let err = Error::from(StderrError::from(inner.clone()));
    assert_eq!(err.inner(), &inner);
    assert_eq!(FromUtf8Error::from(err), inner);
}

#[test]
fn decode_output_accepts_valid_streams() {
    let r = decode_output(b"puppy\n".to_vec(), Vec::new());
    assert_eq!(r, Ok((String::from("puppy\n"), String::new())));
}

#[test]
fn decode_output_reports_stdout_first() {
    match decode_output(b"\xc3\x28".to_vec(), b"\xe2\x28\xa1".to_vec()) {
        Err(Error::Stdout(e)) => assert_eq!(
            e.to_string(),
            "Stdout contained invalid utf-8 sequence of 1 bytes from index 0: \"\u{fffd}(\""
        ),
        other => panic!("unexpected {:?}", other),
    }
}

#[test]
fn decode_output_reports_stderr() {
    match decode_output(Vec::new(), b"\xe2\x28\xa1".to_vec()) {
        Err(e @ Error::Stderr(_)) => assert_eq!(
            e.to_string(),
            "Stderr contained invalid utf-8 sequence of 1 bytes from index 0: \"\u{fffd}(\u{fffd}\""
        ),
        other => panic!("unexpected {:?}", other),
    }
}

#[test]
fn long_stdout_error_message_is_truncated() {
    let mut stdout = Vec::new();
    for _ in 0..300 {
        stdout.extend_from_slice(b"puppy ");
    }
    stdout[690] = 0xc0;
    let err = StdoutError::from(from_utf8_error(&stdout));
    let text = err.to_string();
    assert!(text.starts_with(
        "Stdout contained invalid utf-8 sequence of 1 bytes from index 690: [178 bytes] \"y puppy "
    ));
    assert!(text.ends_with(" puppy pu\" [598 bytes]"));
}
