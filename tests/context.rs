use utf8_command::{is_codepoint_boundary, ByteCount, FromUtf8ErrorContext};

fn error_index(bytes: &[u8]) -> usize {
    String::from_utf8(bytes.to_vec())
        .unwrap_err()
        .utf8_error()
        .valid_up_to()
}

fn render(bytes: &[u8], max_size: usize) -> String {
    FromUtf8ErrorContext::new(bytes, error_index(bytes), max_size).to_string()
}

fn window(bytes: &[u8], max_size: usize) -> (usize, usize) {
    FromUtf8ErrorContext::new(bytes, error_index(bytes), max_size).window()
}

#[test]
fn test_simple() {
    assert_eq!(render(b"puppy\xc0doggy", 32), "\"puppy\u{fffd}doggy\"");
}

#[test]
fn test_truncation() {
    // Adjusts the lower bound up (3->4) and the upper bound down (35->32).
    assert_eq!(
        render(
            b"\xf0\x9f\x98\x8a\
              \xf0\x9f\x98\x8a\
              \xe2\x9c\x93\
              \xf0\x9f\x98\x8a\
              \xf0\x9f\x98\x8a\
              \xc0\
              \xf0\x9f\x98\x8a\
              \xf0\x9f\x98\x8a\
              \xf0\x9f\x98\x8a\
              \xf0\x9f\x98\x8a\
              \xf0\x9f\x98\x8a",
            32
        ),
        "[4 bytes] \"😊✓😊😊\u{fffd}😊😊😊\" [8 bytes]"
    );
}

#[test]
fn test_truncation_up() {
    // Adjusts the lower bound up (3->4) and the upper bound up (35->37).
    assert_eq!(
        render(
            b"\xf0\x9f\x98\x8a\
              \xf0\x9f\x98\x8a\
              \xe2\x9c\x93\
              \xf0\x9f\x98\x8a\
              \xf0\x9f\x98\x8a\
              \xc0\
              \xf0\x9f\x98\x8a\
              \xf0\x9f\x98\x8a\
              \xf0\x9f\x98\x8a\
              \x80\x80\x80\x80\
              \x80\x62\x80\x80",
            32
        ),
        "[4 bytes] \"😊✓😊😊\u{fffd}😊😊😊\u{fffd}\u{fffd}\u{fffd}\u{fffd}\u{fffd}\" [3 bytes]"
    );
}

#[test]
fn test_truncation_near_end() {
    assert_eq!(
        render(
            b"puppy puppy puppy puppy puppy \
              doggy doggy doggy doggy\xc0doggy",
            32
        ),
        "[27 bytes] \"py doggy doggy doggy doggy\u{fffd}doggy\""
    );

    assert_eq!(
        render(
            b"puppy puppy puppy puppy puppy \
              doggy doggy doggy doggy\xc0",
            32
        ),
        "[22 bytes] \"y puppy doggy doggy doggy doggy\u{fffd}\""
    );
}

#[test]
fn test_truncation_near_start() {
    assert_eq!(
        render(
            b"puppy\xc0puppy puppy puppy puppy \
              doggy doggy doggy doggy doggy",
            32
        ),
        "\"puppy\u{fffd}puppy puppy puppy puppy do\" [27 bytes]"
    );

    assert_eq!(
        render(
            b"\xc0puppy puppy puppy puppy puppy \
              doggy doggy doggy doggy",
            32
        ),
        "\"\u{fffd}puppy puppy puppy puppy puppy d\" [22 bytes]"
    );
}

#[test]
fn boundary_bytes_are_classified() {
    assert!(is_codepoint_boundary(b'a'));
    assert!(is_codepoint_boundary(0x7f));
    assert!(!is_codepoint_boundary(0x80));
    assert!(!is_codepoint_boundary(0xbf));
    assert!(is_codepoint_boundary(0xc0));
    assert!(is_codepoint_boundary(0xf0));
    assert!(is_codepoint_boundary(0xff));
}

#[test]
fn byte_counts_use_singular_only_for_one() {
    assert_eq!(ByteCount(1).to_string(), "[1 byte]");
    assert_eq!(ByteCount(0).to_string(), "[0 bytes]");
    assert_eq!(ByteCount(2).to_string(), "[2 bytes]");
    assert_eq!(ByteCount(1234).to_string(), "[1234 bytes]");
}

#[test]
fn one_byte_elided_is_singular() {
    // Eleven bytes with a budget of ten: the window runs to the end, leaving one.
    let bytes = b"abcdefgh\xc0jk";
    assert_eq!(window(bytes, 10), (1, 11));
    assert_eq!(render(bytes, 10), "[1 byte] \"bcdefgh\u{fffd}jk\"");
}

#[test]
fn fitting_buffer_is_shown_whole() {
    let bytes = b"ab\"\\\xc0";
    assert_eq!(window(bytes, 5), (0, 5));
    assert_eq!(render(bytes, 5), "\"ab\\\"\\\\\u{fffd}\"");
    assert_eq!(render(bytes, 1000), "\"ab\\\"\\\\\u{fffd}\"");
}

#[test]
fn empty_buffer_renders_empty_quotes() {
    let bytes: &[u8] = b"";
    let ctx = FromUtf8ErrorContext::new(bytes, 0, 1);
    assert_eq!(ctx.window(), (0, 0));
    assert_eq!(ctx.to_string(), "\"\"");
}

#[test]
fn single_continuation_byte_is_one_replacement() {
    for budget in [1usize, 2, 32, 1024] {
        assert_eq!(render(b"\x80", budget), "\"\u{fffd}\"");
    }
}

fn puppies_with_error_at(index: usize) -> Vec<u8> {
    let mut bytes = Vec::new();
    for _ in 0..300 {
        bytes.extend_from_slice(b"puppy ");
    }
    bytes[index] = 0xc0;
    bytes
}

#[test]
fn long_buffer_counts_add_up() {
    let bytes = puppies_with_error_at(690);
    let (start, end) = window(&bytes, 32);
    assert_eq!((start, end), (674, 706));
    let text = render(&bytes, 32);
    assert!(text.starts_with("[674 bytes] "));
    assert!(text.ends_with(" [1094 bytes]"));
    assert_eq!(674 + (end - start) + 1094, 1800);
    assert!(text.contains('\u{fffd}'));
}

#[test]
fn long_buffer_with_default_budget() {
    let bytes = puppies_with_error_at(690);
    let text = render(&bytes, 1024);
    assert!(text.starts_with("[178 bytes] \"y puppy "));
    assert!(text.ends_with(" puppy pu\" [598 bytes]"));
    assert!(text.contains("puppy \u{fffd}uppy puppy"));
}

#[test]
fn window_is_centered_far_from_both_ends() {
    let bytes = puppies_with_error_at(900);
    assert_eq!(window(&bytes, 100), (850, 950));
    assert_eq!(window(&bytes, 101), (850, 950));
}

#[test]
fn window_anchors_at_start_near_start() {
    let bytes = puppies_with_error_at(3);
    assert_eq!(window(&bytes, 32), (0, 32));
}

#[test]
fn window_anchors_at_end_near_end() {
    let bytes = puppies_with_error_at(1790);
    assert_eq!(window(&bytes, 32), (1800 - 32, 1800));
}

#[test]
fn exhausted_search_keeps_the_raw_endpoint() {
    // Long runs of continuation bytes around both raw endpoints: neither
    // direction finds a boundary, so the raw window is kept.
    let mut bytes = vec![b'a'; 4];
    bytes.extend_from_slice(&[0x80; 12]);
    bytes.extend_from_slice(&[0x80; 12]);
    bytes.extend_from_slice(b"aaaa");
    let ctx = FromUtf8ErrorContext::new(&bytes, 4, 8);
    assert_eq!(ctx.window(), (0, 8));
    let ctx = FromUtf8ErrorContext::new(&bytes, 16, 8);
    assert_eq!(ctx.window(), (12, 20));
    assert_eq!(
        ctx.to_string(),
        "[12 bytes] \"\u{fffd}\u{fffd}\u{fffd}\u{fffd}\u{fffd}\u{fffd}\u{fffd}\u{fffd}\" [12 bytes]"
    );
}

#[test]
fn crossing_endpoints_give_an_empty_window() {
    // A two-byte budget whose start moves up past its end moving down.
    let bytes = b"\xc3\x80\x80\x80abc";
    let ctx = FromUtf8ErrorContext::new(bytes, 2, 2);
    assert_eq!(ctx.window(), (4, 4));
    assert_eq!(ctx.to_string(), "[4 bytes] \"\" [3 bytes]");
}

#[test]
fn frame_leaves_out_zero_counts() {
    assert_eq!(utf8_command::frame_excerpt(0, "\"ab\"", 0), "\"ab\"");
    assert_eq!(utf8_command::frame_excerpt(1, "\"ab\"", 0), "[1 byte] \"ab\"");
    assert_eq!(utf8_command::frame_excerpt(0, "\"ab\"", 7), "\"ab\" [7 bytes]");
    assert_eq!(
        utf8_command::frame_excerpt(10, "\"\"", 1),
        "[10 bytes] \"\" [1 byte]"
    );
}
