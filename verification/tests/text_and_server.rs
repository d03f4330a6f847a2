use rpc_bridge::server::{bind_address, DEFAULT_PORT};
use rpc_bridge::text::{
    alphanumeric, blank, find_last, from_chars, join2, join3, parse_u16, starts_with, text_eq,
    to_chars, to_decimal, to_lower, white_space,
};

#[test]
fn text_is_compared_whole() {
    assert!(text_eq("read_file", "read_file"));
    assert!(!text_eq("read_file", "read_files"));
    assert!(!text_eq("read_file", "read_filf"));
    assert!(text_eq("", ""));
    assert!(text_eq("文档", "文档"));
    assert!(!text_eq("文档", "文件"));
}

#[test]
fn characters_and_slices() {
    assert_eq!(to_chars("añ文"), vec!['a', 'ñ', '文']);
    assert_eq!(from_chars(&vec!['a', 'b', 'c', 'd'], 1, 3), "bc");
    assert_eq!(join2("ab", "cd"), "abcd");
    assert_eq!(join3("a", "", "b"), "ab");
    assert_eq!(find_last(&to_chars("a.b.c"), '.'), Some(3));
    assert_eq!(find_last(&to_chars("abc"), '.'), None);
}

#[test]
fn prefixes() {
    assert!(starts_with("https://x", "https://"));
    assert!(!starts_with("http:/x", "http://"));
    assert!(!starts_with("http", "http://"));
    assert!(starts_with("abc", ""));
}

#[test]
fn lower_case_is_ascii_only() {
    assert_eq!(to_lower("Content-TYPE"), "content-type");
    assert_eq!(to_lower("ÄZ[@"), "Äz[@");
}

#[test]
fn white_space_is_the_unicode_property() {
    for code in 0..=0x10ffffu32 {
        if let Some(c) = char::from_u32(code) {
            assert_eq!(white_space(c), c.is_whitespace(), "{:x}", code);
            assert_eq!(alphanumeric(c), c.is_ascii_alphanumeric(), "{:x}", code);
        }
    }
    assert!(blank(""));
    assert!(blank(" \t\r\n\u{3000}"));
    assert!(!blank("  x "));
}

#[test]
fn numbers_are_read_as_the_standard_library_reads_them() {
    let cases = [
        "", "+", "-", "0", "+0", "-0", "7", "+7", "++7", "19829", "65535", "65536", "99999999999",
        "000000000000019829", " 80", "80 ", "8_0", "0x50", "８０", "8a", "+65535",
    ];
    for case in cases {
        assert_eq!(parse_u16(case), case.parse::<u16>().ok(), "{case}");
    }
}

#[test]
fn decimal_numbers_come_back() {
    for n in 0..=u16::MAX {
        assert_eq!(to_decimal(n), n.to_string());
        assert_eq!(parse_u16(&to_decimal(n)), Some(n));
    }
}

#[test]
fn address_has_defaults() {
    assert_eq!(bind_address(None, None), "127.0.0.1:19829");
    assert_eq!(DEFAULT_PORT, 19829);
}

#[test]
fn address_is_configurable() {
    let some = |s: &str| Some(s.to_string());
    assert_eq!(bind_address(some("0.0.0.0"), some("8080")), "0.0.0.0:8080");
    assert_eq!(bind_address(None, some("+1")), "127.0.0.1:1");
    assert_eq!(bind_address(some("::1"), some("0")), "::1:0");
    assert_eq!(bind_address(some(""), None), ":19829");
}

#[test]
fn bad_port_falls_back() {
    let some = |s: &str| Some(s.to_string());
    assert_eq!(bind_address(None, some("http")), "127.0.0.1:19829");
    assert_eq!(bind_address(None, some("65536")), "127.0.0.1:19829");
    assert_eq!(bind_address(None, some("")), "127.0.0.1:19829");
}
