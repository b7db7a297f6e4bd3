use dns_bootstrap::ipv4::format_ipv4;
use dns_bootstrap::ipv4::parse_ipv4;
use dns_bootstrap::ipv6::format_ipv6;
use dns_bootstrap::net::IpAddress;
use dns_bootstrap::number::format_number;
use dns_bootstrap::number::parse_number;
use dns_bootstrap::text::char_is_whitespace;
use dns_bootstrap::text::find_char;
use dns_bootstrap::text::has_prefix;
use dns_bootstrap::text::same_text;
use dns_bootstrap::text::slice;
use dns_bootstrap::text::split_at_first;
use dns_bootstrap::text::split_lines;
use dns_bootstrap::text::split_words;
use dns_bootstrap::text::to_chars;
use dns_bootstrap::text::to_text;
use dns_bootstrap::text::without_prefix;

fn chars(text: &str) -> Vec<char> {
    text.chars().collect()
}

fn texts(parts: Vec<Vec<char>>) -> Vec<String> {
    parts.iter().map(|part| part.iter().collect()).collect()
}

fn lines_of(text: &str) -> Vec<String> {
    texts(split_lines(&chars(text)))
}

fn words_of(text: &str) -> Vec<String> {
    texts(split_words(&chars(text)))
}

#[test]
fn chars_and_text_round_trip() {
    assert_eq!(to_chars("héllo\n"), chars("héllo\n"));
    assert_eq!(to_text(&chars("héllo\n")), "héllo\n");
    assert_eq!(to_text(&vec![]), "");
    assert_eq!(slice(&chars("abcdef"), 2, 4), chars("cd"));
}

#[test]
fn lines_agree_with_std() {
    for text in [
        "",
        "\n",
        "a",
        "a\n",
        "a\nb",
        "a\r\nb\r\n",
        "a\r",
        "a\r\n\r\n",
        "\r\n",
        "\r",
        "a\n\nb\n",
        "foo\nbar\n\r\nbaz\r",
        "a\r\r\nb",
    ] {
        let expected: Vec<String> = text.lines().map(str::to_string).collect();
        assert_eq!(lines_of(text), expected, "lines of {text:?}");
    }
}

#[test]
fn words_agree_with_std() {
    for text in [
        "",
        " ",
        "a",
        "  a  ",
        "a b",
        "a\tb\nc\r\nd",
        "\u{a0}x\u{2003}y\u{3000}",
        "x\u{85}y\u{1680}z",
        "x\u{200b}y",
        ".\t\t2910 IN\tSOA",
    ] {
        let expected: Vec<String> = text.split_whitespace().map(str::to_string).collect();
        assert_eq!(words_of(text), expected, "words of {text:?}");
    }
}

#[test]
fn whitespace_agrees_with_std() {
    for code in 0..0x3100u32 {
        if let Some(c) = char::from_u32(code) {
            assert_eq!(char_is_whitespace(c), c.is_whitespace(), "U+{code:04X}");
        }
    }
}

#[test]
fn prefixes() {
    assert!(has_prefix(&chars(";; flags: qr"), ";; flags: "));
    assert!(has_prefix(&chars("abc"), ""));
    assert!(has_prefix(&chars("abc"), "abc"));
    assert!(!has_prefix(&chars("abc"), "abcd"));
    assert!(!has_prefix(&chars("abc"), "b"));
    assert_eq!(without_prefix(&chars("abc"), "a"), Some(chars("bc")));
    assert_eq!(without_prefix(&chars("abc"), "abc"), Some(vec![]));
    assert_eq!(without_prefix(&chars("abc"), "x"), None);
    assert!(same_text(&chars("abc"), "abc"));
    assert!(!same_text(&chars("abc"), "abd"));
    assert!(!same_text(&chars("abc"), "ab"));
}

#[test]
fn split_at_first_delimiter() {
    assert_eq!(
        split_at_first(&chars("a;b;c"), ';'),
        Some((chars("a"), chars("b;c")))
    );
    assert_eq!(split_at_first(&chars(";"), ';'), Some((vec![], vec![])));
    assert_eq!(split_at_first(&chars("abc"), ';'), None);
    assert_eq!(find_char(&chars("a;b;c"), 2, ';'), 3);
    assert_eq!(find_char(&chars("a;b;c"), 4, ';'), 5);
}

#[test]
fn numbers_are_read_as_std_reads_them() {
    for text in [
        "0", "7", "007", "+7", "65535", "65536", "99999999999999999999", "", "+", "-", "-0", "1a",
        " 1", "1 ", "++1", "+-1", "٣",
    ] {
        let expected = text.parse::<u16>().ok().map(u64::from);
        assert_eq!(parse_number(&chars(text), 0xffff), expected, "{text:?}");
    }
    assert_eq!(parse_number(&chars("4294967295"), 0xffff_ffff), Some(4294967295));
    assert_eq!(parse_number(&chars("4294967296"), 0xffff_ffff), None);
    assert_eq!(
        parse_number(&chars("18446744073709551615"), u64::MAX),
        Some(u64::MAX)
    );
    assert_eq!(parse_number(&chars("18446744073709551616"), u64::MAX), None);
    assert_eq!(parse_number(&chars("5"), 4), None);
    assert_eq!(parse_number(&chars("4"), 4), Some(4));
}

#[test]
fn numbers_are_written_in_decimal() {
    assert_eq!(format_number(0), chars("0"));
    assert_eq!(format_number(9), chars("9"));
    assert_eq!(format_number(10), chars("10"));
    assert_eq!(format_number(65535), chars("65535"));
    assert_eq!(format_number(u64::MAX), chars("18446744073709551615"));
}

#[test]
fn ipv4_is_written_dotted() {
    assert_eq!(format_ipv4(0), "0.0.0.0");
    assert_eq!(format_ipv4(0x7f00_0001), "127.0.0.1");
    assert_eq!(format_ipv4(0xc0a8_0101), "192.168.1.1");
    assert_eq!(format_ipv4(u32::MAX), "255.255.255.255");
    assert_eq!(format_ipv4(0xc707_532a), "199.7.83.42");
}

#[test]
fn ipv4_is_read_dotted() {
    assert_eq!(parse_ipv4(&chars("0.0.0.0")), Some(0));
    assert_eq!(parse_ipv4(&chars("199.7.83.42")), Some(0xc707_532a));
    assert_eq!(parse_ipv4(&chars("255.255.255.255")), Some(u32::MAX));
    for text in [
        "", "1.2.3", "1.2.3.4.5", "1.2.3.", ".1.2.3", "1..2.3", "256.1.1.1", "1.2.3.256",
        "01.2.3.4", "1.2.3.04", "+1.2.3.4", "1.2.3.4 ", "a.b.c.d", "1.2.3.1000", "::1",
    ] {
        assert_eq!(parse_ipv4(&chars(text)), None, "{text:?}");
    }
}

#[test]
fn ipv4_round_trips() {
    assert_eq!(parse_ipv4(&chars("10.0.0.1")), Some(0x0a00_0001));
    assert_eq!(parse_ipv4(&chars("1.2.3.4")), Some(0x0102_0304));
    for text in ["00.0.0.0", "1.2.3.4.", "001.2.3.4", "300.1.1.1", "1.2.3.4/8", "127.1", "0x7f.0.0.1"] {
        assert_eq!(parse_ipv4(&chars(text)), None, "{text:?}");
    }
    for bits in [0u32, 1, 0x0102_0304, 0xfffe_fdfc, u32::MAX] {
        assert_eq!(parse_ipv4(&chars(&format_ipv4(bits))), Some(bits));
    }
    assert_eq!(format_ipv4(0xfffe_fdfc), "255.254.253.252");
}

fn v6(groups: [u16; 8]) -> u128 {
    groups.iter().fold(0u128, |bits, group| (bits << 16) | u128::from(*group))
}

#[test]
fn ipv6_is_written_compressed() {
    assert_eq!(format_ipv6(0), "::");
    assert_eq!(format_ipv6(1), "::1");
    assert_eq!(format_ipv6(v6([0x2001, 0xdb8, 0, 0, 0, 0, 0, 1])), "2001:db8::1");
    assert_eq!(format_ipv6(v6([0xfe80, 0, 0, 0, 0, 0, 0, 0])), "fe80::");
    assert_eq!(format_ipv6(v6([1, 2, 3, 4, 5, 6, 7, 8])), "1:2:3:4:5:6:7:8");
    assert_eq!(
        format_ipv6(u128::MAX),
        "ffff:ffff:ffff:ffff:ffff:ffff:ffff:ffff"
    );
    assert_eq!(
        format_ipv6(v6([0xabcd, 0xef01, 0x10, 0x100, 0x1000, 0xa, 0xf, 0xfff])),
        "abcd:ef01:10:100:1000:a:f:fff"
    );
}

#[test]
fn ipv6_leaves_out_the_first_longest_run_only() {
    assert_eq!(format_ipv6(v6([1, 0, 0, 2, 0, 0, 0, 3])), "1:0:0:2::3");
    assert_eq!(format_ipv6(v6([1, 0, 0, 2, 3, 0, 0, 4])), "1::2:3:0:0:4");
    assert_eq!(format_ipv6(v6([0, 0, 1, 0, 0, 0, 0, 0])), "0:0:1::");
    assert_eq!(format_ipv6(v6([0, 0, 1, 0, 0, 2, 0, 0])), "::1:0:0:2:0:0");
}

#[test]
fn ipv6_keeps_a_single_zero_group() {
    assert_eq!(format_ipv6(v6([1, 0, 3, 4, 5, 6, 7, 8])), "1:0:3:4:5:6:7:8");
    assert_eq!(format_ipv6(v6([0, 2, 3, 4, 5, 6, 7, 8])), "0:2:3:4:5:6:7:8");
    assert_eq!(format_ipv6(v6([1, 2, 3, 4, 5, 6, 7, 0])), "1:2:3:4:5:6:7:0");
    assert_eq!(format_ipv6(v6([1, 0, 3, 0, 5, 0, 7, 0])), "1:0:3:0:5:0:7:0");
}

#[test]
fn ipv6_that_stands_for_ipv4() {
    assert_eq!(
        format_ipv6(v6([0, 0, 0, 0, 0, 0xffff, 0xc0a8, 0x0101])),
        "::ffff:192.168.1.1"
    );
    assert_eq!(format_ipv6(v6([0, 0, 0, 0, 0, 0xffff, 0, 0])), "::ffff:0.0.0.0");
    assert_eq!(
        format_ipv6(v6([0, 0, 0, 0, 0, 0, 0xc0a8, 0x0101])),
        "::c0a8:101"
    );
    assert_eq!(
        format_ipv6(v6([0, 0, 0, 0, 1, 0xffff, 0xc0a8, 0x0101])),
        "::1:ffff:c0a8:101"
    );
}

#[test]
fn addresses_as_text() {
    assert_eq!(IpAddress::wildcard_v4().to_text(), "0.0.0.0");
    assert_eq!(IpAddress::wildcard_v6().to_text(), "::");
    assert_eq!(IpAddress::V4(0x0a00_0001).to_text(), "10.0.0.1");
    assert_eq!(IpAddress::V6(1).to_text(), "::1");
}
