use szechat::clock::{current_time_stamp, format_time_stamp, MAX_UTC_SECS, STAMP_PATTERN};
use szechat::wire::{build_outgoing_frame, decode_frame, encode_frame, format_chat_line, frame_is_text, outgoing_frame, MSG_SIZE};

#[test]
fn frame_is_padded_to_size() {
    let f = encode_frame("hi");
    assert_eq!(f.len(), MSG_SIZE);
    assert_eq!(MSG_SIZE, 4096);
    assert_eq!(&f[..2], b"hi");
    assert!(f[2..].iter().all(|&b| b == 0));
}

#[test]
fn frame_is_cut_to_size() {
    let long = "x".repeat(5000);
    let f = encode_frame(&long);
    assert_eq!(f.len(), MSG_SIZE);
    assert!(f.iter().all(|&b| b == b'x'));
}

#[test]
fn frame_round_trip() {
    for m in ["hello", "  padded  ", "ünïcödé 😐", "", " a\nb "] {
        let f = encode_frame(m);
        assert!(frame_is_text(&f));
        assert_eq!(decode_frame(&f), m.trim());
    }
}

#[test]
fn decode_stops_at_first_zero() {
    let mut f = vec![0u8; MSG_SIZE];
    f[..3].copy_from_slice(b"abc");
    f[4] = b'z';
    assert_eq!(decode_frame(&f), "abc");
}

#[test]
fn decode_without_zero_uses_whole_frame() {
    let f = vec![b'q'; 10];
    assert_eq!(decode_frame(&f), "qqqqqqqqqq");
}

#[test]
fn invalid_utf8_is_not_text() {
    let mut f = vec![0u8; MSG_SIZE];
    f[0] = 0xC3;
    assert!(!frame_is_text(&f));
    f[0] = 0xED;
    f[1] = 0xA0;
    f[2] = 0x80;
    assert!(!frame_is_text(&f));
    let cut = encode_frame(&format!("{}é", "a".repeat(4095)));
    assert!(!frame_is_text(&cut));
}

#[test]
fn chat_line_layout() {
    assert_eq!(
        format_chat_line(" 2024-01-02 03:04:05 ", "bob", "  hi there \n"),
        " 2024-01-02 03:04:05    -   bob : hi there"
    );
}

#[test]
fn outgoing_frame_with_given_stamp() {
    let f = build_outgoing_frame(true, " hello ", "ann", "[t]").unwrap();
    assert_eq!(f, encode_frame("[t]   -   ann : hello"));
    assert_eq!(decode_frame(&f), "[t]   -   ann : hello");
    assert!(build_outgoing_frame(false, "hello", "ann", "[t]").is_none());
    assert!(build_outgoing_frame(true, " \n ", "ann", "[t]").is_none());
}

#[test]
fn outgoing_frame_is_stamped_now() {
    let f = outgoing_frame(true, " hey ", "ann").unwrap();
    let text = decode_frame(&f);
    assert!(text.ends_with("   -   ann : hey"));
    let stamp = &text[..text.len() - "   -   ann : hey".len()];
    // " %Y-%m-%d %H:%M:%S " with the leading space trimmed away
    assert_eq!(stamp.len(), 20);
    assert!(stamp[..4].chars().all(|c| c.is_ascii_digit()));
    assert_eq!(&stamp[4..5], "-");
    assert_eq!(&stamp[10..11], " ");
    assert_eq!(&stamp[13..14], ":");
    assert_eq!(&stamp[19..20], " ");
    assert_eq!(outgoing_frame(false, "hey", "ann"), None);
    assert_eq!(outgoing_frame(true, "   ", "ann"), None);
}

#[test]
fn stamp_of_a_given_time() {
    assert_eq!(STAMP_PATTERN, " %Y-%m-%d %H:%M:%S ");
    assert_eq!(format_time_stamp(1431648000, 0), Some(" 2015-05-15 00:00:00 ".to_string()));
    assert_eq!(format_time_stamp(0, 999_999_999), Some(" 1970-01-01 00:00:00 ".to_string()));
    assert_eq!(format_time_stamp(1_700_000_000, 5), Some(" 2023-11-14 22:13:20 ".to_string()));
}

#[test]
fn stamp_of_an_impossible_time() {
    assert_eq!(format_time_stamp(i64::MAX, 0), None);
    assert_eq!(format_time_stamp(MAX_UTC_SECS + 1, 0), None);
    assert_eq!(format_time_stamp(0, 2_000_000_000), None);
}

#[test]
fn last_representable_second() {
    assert_eq!(MAX_UTC_SECS, chrono::DateTime::<chrono::Utc>::MAX_UTC.timestamp());
    assert_eq!(
        format_time_stamp(MAX_UTC_SECS, 999_999_999),
        Some(" +262142-12-31 23:59:59 ".to_string())
    );
}

#[test]
fn stamp_of_now() {
    let (secs, nanos, stamp) = current_time_stamp();
    assert!(secs > 1_600_000_000);
    assert!(nanos < 1_000_000_000);
    assert_eq!(Some(stamp.clone()), format_time_stamp(secs, nanos));
    assert_eq!(stamp.len(), 21);
    assert!(stamp.starts_with(' ') && stamp.ends_with(' '));
}

#[test]
fn sent_line_read_back_without_leading_space() {
    let f = build_outgoing_frame(true, " hi \n", "ann", " 2024-01-02 03:04:05 ").unwrap();
    assert_eq!(decode_frame(&f), "2024-01-02 03:04:05    -   ann : hi");
}
