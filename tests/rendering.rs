use blade::render::{binary_placeholder, decimal_digits, render_row, render_value};
use blade::sync_mode::SqliteSynchronousMode;

#[test]
fn decimal_digits_of_numbers() {
    assert_eq!(decimal_digits(0), b"0".to_vec());
    assert_eq!(decimal_digits(7), b"7".to_vec());
    assert_eq!(decimal_digits(10), b"10".to_vec());
    assert_eq!(decimal_digits(4096), b"4096".to_vec());
}

#[test]
fn placeholder_gives_byte_count() {
    assert_eq!(binary_placeholder(3), b"binary data (3 bytes)\n".to_vec());
    assert_eq!(binary_placeholder(1234), b"binary data (1234 bytes)\n".to_vec());
}

#[test]
fn binary_value_on_terminal_is_replaced() {
    let v = vec![0xff, 0xfe, 0x00];
    assert_eq!(render_value(&v, true), b"binary data (3 bytes)\n".to_vec());
}

#[test]
fn binary_value_off_terminal_is_raw() {
    let v = vec![0xff, 0xfe, 0x00];
    assert_eq!(render_value(&v, false), vec![0xff, 0xfe, 0x00, b'\n']);
}

#[test]
fn text_value_is_raw_on_terminal() {
    assert_eq!(render_value(b"hello", true), b"hello\n".to_vec());
    assert_eq!(render_value(b"", true), b"\n".to_vec());
}

#[test]
fn row_has_key_delimiter_value() {
    assert_eq!(render_row("x", "\t", b"1", true), b"x\t1\n".to_vec());
    assert_eq!(render_row("k", ",", &[0xc3], true), b"k,binary data (1 bytes)\n".to_vec());
    assert_eq!(render_row("k", ",", &[0xc3], false), vec![b'k', b',', 0xc3, b'\n']);
}

#[test]
fn synchronous_mode_names() {
    assert_eq!(SqliteSynchronousMode::Extra.as_str(), "extra");
    assert_eq!(SqliteSynchronousMode::Full.as_str(), "full");
    assert_eq!(SqliteSynchronousMode::Normal.as_str(), "normal");
    assert_eq!(SqliteSynchronousMode::Off.as_str(), "off");
    assert_eq!(SqliteSynchronousMode::default(), SqliteSynchronousMode::Normal);
}
