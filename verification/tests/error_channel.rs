use serial_session::error_channel::{serial_err_fill, serial_err_len, set_err, ErrorChannel, FAILURE};

#[test]
fn empty_channel_has_length_zero() {
    let errors = ErrorChannel::new();
    assert_eq!(serial_err_len(&errors), 0);
    assert_eq!(errors.last_message(), None);
}

#[test]
fn empty_channel_leaves_buffer_untouched() {
    let errors = ErrorChannel::new();
    let mut out = [7u8; 4];
    serial_err_fill(&errors, &mut out);
    assert_eq!(out, [7, 7, 7, 7]);
}

#[test]
fn report_returns_failure_code_and_stores_text() {
    let mut errors = ErrorChannel::new();
    assert_eq!(set_err(&mut errors, "boom".to_string()), -1);
    assert_eq!(FAILURE, -1);
    assert_eq!(errors.last_message(), Some("boom".to_string()));
    assert_eq!(serial_err_len(&errors), 5);
}

#[test]
fn fill_copies_text_and_terminates_it() {
    let mut errors = ErrorChannel::new();
    set_err(&mut errors, "boom".to_string());
    let mut out = [0xffu8; 8];
    serial_err_fill(&errors, &mut out);
    assert_eq!(out, [b'b', b'o', b'o', b'm', 0, 0xff, 0xff, 0xff]);
}

#[test]
fn fill_into_exact_buffer() {
    let mut errors = ErrorChannel::new();
    set_err(&mut errors, "boom".to_string());
    let mut out = [0xffu8; 5];
    serial_err_fill(&errors, &mut out);
    assert_eq!(out, [b'b', b'o', b'o', b'm', 0]);
}

#[test]
fn fill_cuts_text_to_leave_room_for_terminator() {
    let mut errors = ErrorChannel::new();
    set_err(&mut errors, "invalid handle".to_string());
    let mut out = [0xffu8; 4];
    serial_err_fill(&errors, &mut out);
    assert_eq!(out, [b'i', b'n', b'v', 0]);
}

#[test]
fn fill_with_capacity_one_writes_only_terminator() {
    let mut errors = ErrorChannel::new();
    set_err(&mut errors, "boom".to_string());
    let mut out = [0xffu8; 1];
    serial_err_fill(&errors, &mut out);
    assert_eq!(out, [0]);
}

#[test]
fn fill_with_capacity_zero_does_nothing() {
    let mut errors = ErrorChannel::new();
    set_err(&mut errors, "boom".to_string());
    let mut out: [u8; 0] = [];
    serial_err_fill(&errors, &mut out);
    assert_eq!(out.len(), 0);
    assert_eq!(errors.last_message(), Some("boom".to_string()));
}

#[test]
fn fill_does_not_clear_the_message() {
    let mut errors = ErrorChannel::new();
    set_err(&mut errors, "boom".to_string());
    let mut first = [0u8; 8];
    let mut second = [0u8; 8];
    serial_err_fill(&errors, &mut first);
    serial_err_fill(&errors, &mut second);
    assert_eq!(first, second);
    assert_eq!(serial_err_len(&errors), 5);
}

#[test]
fn later_failure_overwrites_earlier_one() {
    let mut errors = ErrorChannel::new();
    set_err(&mut errors, "first failure".to_string());
    set_err(&mut errors, "second".to_string());
    assert_eq!(errors.last_message(), Some("second".to_string()));
    assert_eq!(serial_err_len(&errors), 7);
}

#[test]
fn length_counts_bytes_not_characters() {
    let mut errors = ErrorChannel::new();
    set_err(&mut errors, "caf\u{e9}".to_string());
    assert_eq!(serial_err_len(&errors), 6);
    let mut out = [0xffu8; 6];
    serial_err_fill(&errors, &mut out);
    assert_eq!(out, [b'c', b'a', b'f', 0xc3, 0xa9, 0]);
}

#[test]
fn empty_message_has_length_one() {
    let mut errors = ErrorChannel::new();
    set_err(&mut errors, String::new());
    assert_eq!(serial_err_len(&errors), 1);
    let mut out = [0xffu8; 2];
    serial_err_fill(&errors, &mut out);
    assert_eq!(out, [0, 0xff]);
}
