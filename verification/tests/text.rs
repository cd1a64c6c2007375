use serving_agent::text::{c_string, parse_i32, same_text};

#[test]
fn c_strings_end_with_one_zero() {
    assert_eq!(c_string("BSH"), Some(vec![66, 83, 72, 0]));
    assert_eq!(c_string(""), Some(vec![0]));
    assert_eq!(c_string("é"), Some(vec![0xc3, 0xa9, 0]));
    assert_eq!(c_string("a\0b"), None);
    assert_eq!(c_string("\0"), None);
}

#[test]
fn integers_are_read_as_std_reads_them() {
    for text in [
        "0", "7", "-7", "+7", "-0", "+0", "007", "2147483647", "2147483648", "-2147483648",
        "-2147483649", "99999999999999999999", "", "-", "+", "--1", "+-1", " 1", "1 ", "1_0",
        "0x10", "1.0", "a", "1a", "\u{661}", "12\u{e9}", "000000000000000000000000000000012",
    ] {
        assert_eq!(parse_i32(text), text.parse::<i32>().ok(), "{text:?}");
    }
    assert_eq!(parse_i32("-42"), Some(-42));
    assert_eq!(parse_i32("npu0"), None);
}

#[test]
fn texts_compare_whole() {
    assert!(same_text("ascend", "ascend"));
    assert!(!same_text("ascend", "Ascend"));
    assert!(!same_text("ascend", "ascend "));
}
