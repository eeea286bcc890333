use gpio_linux_char::cstr::cstr_length;
use gpio_linux_char::{cstr_to_string, str_is_ascii_digits};

#[test]
fn buffer_without_a_zero_byte_gives_its_full_length() {
    let buf = [b'a'; 32];
    assert_eq!(cstr_length(&buf), 32);
    let text = cstr_to_string(&buf);
    assert_eq!(text.len(), 32);
    assert_eq!(text, "a".repeat(32));
    assert_eq!(cstr_to_string(b"gpiochip0"), "gpiochip0");
}

#[test]
fn buffer_with_a_zero_byte_gives_the_bytes_before_it() {
    let mut buf = [0u8; 32];
    buf[..9].copy_from_slice(b"gpiochip0");
    assert_eq!(cstr_length(&buf), 9);
    assert_eq!(cstr_to_string(&buf), "gpiochip0");
    // What follows the first zero byte does not count.
    buf[10] = b'x';
    buf[31] = b'y';
    assert_eq!(cstr_length(&buf), 9);
    assert_eq!(cstr_to_string(&buf), "gpiochip0");
    for k in 0..32 {
        let mut buf = [b'z'; 32];
        buf[k] = 0;
        assert_eq!(cstr_length(&buf), k);
        assert_eq!(cstr_to_string(&buf), "z".repeat(k));
    }
}

#[test]
fn empty_text() {
    assert_eq!(cstr_length(&[]), 0);
    assert_eq!(cstr_to_string(&[]), "");
    assert_eq!(cstr_to_string(&[0; 32]), "");
    assert_eq!(cstr_to_string(&[0, b'a', b'b']), "");
}

#[test]
fn valid_utf8_is_kept() {
    assert_eq!(cstr_to_string("pin \u{3a9}\0rest".as_bytes()), "pin \u{3a9}");
    assert_eq!(cstr_to_string("\u{1f600}".as_bytes()), "\u{1f600}");
}

#[test]
fn invalid_utf8_is_replaced_not_refused() {
    assert_eq!(cstr_to_string(&[b'f', b'o', 0xff, b'o']), "fo\u{fffd}o");
    assert_eq!(cstr_to_string(&[0xff, 0]), "\u{fffd}");
    assert_eq!(cstr_to_string(&[0xc3, 0, b'a']), "\u{fffd}");
    assert_eq!(cstr_to_string(&[b'a', 0xe2, 0x82]), "a\u{fffd}");
}

#[test]
fn ascii_digits() {
    assert!(str_is_ascii_digits("0"));
    assert!(str_is_ascii_digits("42"));
    assert!(str_is_ascii_digits("0123456789"));
    assert!(!str_is_ascii_digits(""));
    assert!(!str_is_ascii_digits("4a"));
    assert!(!str_is_ascii_digits("a4"));
    assert!(!str_is_ascii_digits("-1"));
    assert!(!str_is_ascii_digits(" 1"));
    assert!(!str_is_ascii_digits("1.0"));
    assert!(!str_is_ascii_digits("/"));
    assert!(!str_is_ascii_digits(":"));
    // Digits of other scripts are not ASCII digits.
    assert!(!str_is_ascii_digits("\u{661}"));
    assert!(!str_is_ascii_digits("1\u{661}"));
}
