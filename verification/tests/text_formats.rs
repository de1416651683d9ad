use warpnest::config::IpAddress;
use warpnest::direct_public_warp_registration::{WarpKeyPair, registration_request_body};
use warpnest::ip_text::{parse_ip, parse_ipv4, parse_ipv6};
use warpnest::json_text::{push_json_string, push_json_string_list};
use warpnest::text::{parse_uint, split_whitespace, trim, IntErrorKind};

fn chars(s: &str) -> Vec<char> {
    s.chars().collect()
}

fn text(v: &[char]) -> String {
    v.iter().collect()
}

#[test]
fn ipv4_addresses_are_four_decimal_octets() {
    assert_eq!(parse_ipv4(&chars("198.51.100.7")), Some((198, 51, 100, 7)));
    assert_eq!(parse_ipv4(&chars("256.1.1.1")), None);
    assert_eq!(parse_ipv4(&chars("1.1.1")), None);
    assert_eq!(parse_ipv4(&chars("01.1.1.1")), None);
}

#[test]
fn ipv6_addresses_accept_compression_and_embedded_ipv4() {
    assert_eq!(parse_ipv6(&chars("::1")), Some(vec![0, 0, 0, 0, 0, 0, 0, 1]));
    assert_eq!(
        parse_ipv6(&chars("2606:4700:4700::1111")),
        Some(vec![0x2606, 0x4700, 0x4700, 0, 0, 0, 0, 0x1111])
    );
    assert_eq!(parse_ipv6(&chars("::ffff:1.2.3.4")), Some(vec![0, 0, 0, 0, 0, 0xffff, 0x0102, 0x0304]));
    assert_eq!(parse_ipv6(&chars("1::2::3")), None);
    assert_eq!(parse_ipv6(&chars("12345::")), None);
    assert_eq!(parse_ip(&chars("::")), Some(IpAddress::V6(0, 0, 0, 0, 0, 0, 0, 0)));
    assert_eq!(parse_ip(&chars("10.0.0.1")), Some(IpAddress::V4(10, 0, 0, 1)));
    assert_eq!(parse_ip(&chars("example.test")), None);
}

#[test]
fn ip_parsing_covers_the_address_forms() {
    assert_eq!(parse_ip(&chars("0.0.0.0")), Some(IpAddress::V4(0, 0, 0, 0)));
    assert_eq!(parse_ip(&chars("255.255.255.255")), Some(IpAddress::V4(255, 255, 255, 255)));
    assert_eq!(parse_ip(&chars("fe80::1")), Some(IpAddress::V6(0xfe80, 0, 0, 0, 0, 0, 0, 1)));
    assert_eq!(parse_ip(&chars("1:2:3:4:5:6:7:8")), Some(IpAddress::V6(1, 2, 3, 4, 5, 6, 7, 8)));
    assert_eq!(parse_ip(&chars("1:2:3:4:5:6:7::")), Some(IpAddress::V6(1, 2, 3, 4, 5, 6, 7, 0)));
    assert_eq!(
        parse_ip(&chars("::ffff:10.0.0.1")),
        Some(IpAddress::V6(0, 0, 0, 0, 0, 0xffff, 0x0a00, 0x0001))
    );
    for sample in ["1.2.3.4.5", ":::", "1:2:3:4:5:6:7:8:9", "g::1", ""] {
        assert_eq!(parse_ip(&chars(sample)), None, "{sample}");
    }
}

#[test]
fn json_strings_are_escaped_as_serde_json_writes_them() {
    let mut out = Vec::new();
    push_json_string(&mut out, "a\"b\\c\n\u{1}é");
    assert_eq!(text(&out), serde_json::to_string("a\"b\\c\n\u{1}é").unwrap());
    let mut list = Vec::new();
    push_json_string_list(&mut list, &vec!["x".to_string(), "y\t".to_string()]);
    assert_eq!(text(&list), r#"["x","y\t"]"#);
}

#[test]
fn the_registration_request_body_has_its_keys_in_order() {
    let key_pair = WarpKeyPair::from_private_key_bytes([3; 32]);
    let body = registration_request_body(&key_pair, "2024-01-02T03:04:05.000000006Z");
    assert_eq!(
        body,
        format!(
            r#"{{"fcm_token":"","install_id":"","key":"{}","locale":"en_US","model":"PC","tos":"2024-01-02T03:04:05.000000006Z","type":"Android"}}"#,
            key_pair.public_key_base64()
        )
    );
}

#[test]
fn unsigned_numbers_report_why_they_fail() {
    assert_eq!(parse_uint(&chars("2408"), 65535), Ok(2408));
    assert_eq!(parse_uint(&chars("+7"), 65535), Ok(7));
    assert_eq!(parse_uint(&chars(""), 65535), Err(IntErrorKind::Empty));
    assert_eq!(parse_uint(&chars("12a"), 65535), Err(IntErrorKind::InvalidDigit));
    assert_eq!(parse_uint(&chars("65536"), 65535), Err(IntErrorKind::PosOverflow));
}

#[test]
fn white_space_splitting_and_trimming_match_std() {
    let sample = "  alpha\tbeta \n gamma  ";
    let tokens: Vec<String> = split_whitespace(&chars(sample)).iter().map(|t| text(t)).collect();
    let expected: Vec<String> = sample.split_whitespace().map(String::from).collect();
    assert_eq!(tokens, expected);
    assert_eq!(text(&trim(&chars(sample))), sample.trim());
}
