use hive_mcp_gateway::client::{is_success, settle, Exchange, Method};
use hive_mcp_gateway::text::{
    chars_of, contains, decimal_text, eq_ignore_ascii_case, parse_u32, replace, same, split,
    strip_prefix, trim, trim_end_matches, trim_start_matches,
};
use hive_mcp_gateway::{GatewayError, HoneycombClient};

#[test]
fn trimming_takes_whitespace_off_both_ends() {
    assert_eq!(trim("\u{3000}\n a b \u{a0}\t"), "a b");
    assert_eq!(trim("   "), "");
    assert_eq!(trim(""), "");
    assert_eq!(trim("é"), "é");
    assert_eq!(trim_start_matches("//a/", '/'), "a/");
    assert_eq!(trim_end_matches("/a//", '/'), "/a");
    assert_eq!(trim_end_matches("///", '/'), "");
}

#[test]
fn whitespace_is_the_unicode_property() {
    let listed = [
        0x9, 0xa, 0xb, 0xc, 0xd, 0x20, 0x85, 0xa0, 0x1680, 0x2000, 0x2001, 0x2002, 0x2003, 0x2004,
        0x2005, 0x2006, 0x2007, 0x2008, 0x2009, 0x200a, 0x2028, 0x2029, 0x202f, 0x205f, 0x3000u32,
    ];
    for c in '\0'..=char::MAX {
        let text = c.to_string();
        assert_eq!(trim(&text).is_empty(), listed.contains(&(c as u32)));
    }
}

#[test]
fn searching_finds_every_place() {
    assert!(contains("abc", ""));
    assert!(contains("", ""));
    assert!(contains("abc", "abc"));
    assert!(contains("xabc", "bc"));
    assert!(contains("aab", "ab"));
    assert!(!contains("ab", "abc"));
    assert!(!contains("abd", "abc"));
    assert!(same("é", "é"));
    assert!(!same("a", "ab"));
    assert_eq!(chars_of("aé"), vec!['a', 'é']);
    assert_eq!(strip_prefix("v1", "v"), Some("1"));
    assert_eq!(strip_prefix("1", "v"), None);
    assert_eq!(strip_prefix("", "v"), None);
}

#[test]
fn splitting_and_joining_undo_each_other() {
    for text in ["", "/", "a", "a/b", "/a//é/"] {
        let pieces = split(text, '/');
        assert_eq!(pieces.join("/"), text);
        assert!(pieces.iter().all(|piece| !piece.contains('/')));
        assert_eq!(pieces.len(), text.matches('/').count() + 1);
    }
    assert_eq!(replace("a:b::c", ':', '-'), "a-b--c");
}

#[test]
fn case_is_ignored_in_ascii_only() {
    assert!(eq_ignore_ascii_case("TIMED_out", "timed_OUT"));
    assert!(!eq_ignore_ascii_case("É", "é"));
    assert!(!eq_ignore_ascii_case("[", "{"));
    assert!(!eq_ignore_ascii_case("a", "ab"));
}

#[test]
fn numbers_read_back() {
    for n in [0u32, 9, 10, 4294967295] {
        assert_eq!(parse_u32(&decimal_text(n as u64)), Some(n));
    }
    assert_eq!(decimal_text(u64::MAX), "18446744073709551615");
    assert_eq!(parse_u32("4294967296"), None);
    assert_eq!(parse_u32("99999999999999999999999"), None);
    assert_eq!(parse_u32("+"), None);
    assert_eq!(parse_u32("٣"), None);
}

#[test]
fn urls_have_one_slash_between_base_and_path() {
    let expected = "http://hive/api/x/";
    for base in ["http://hive", "http://hive/", "http://hive///"] {
        for path in ["api/x/", "/api/x/", "//api/x/"] {
            let client = HoneycombClient::new(base.to_string(), None);
            assert_eq!(client.url(path), expected);
        }
    }
    assert_eq!(HoneycombClient::new("".to_string(), None).url(""), "/");
}

#[test]
fn statuses_from_200_to_299_are_successes() {
    for status in 100..600 {
        assert_eq!(is_success(status), (200..300).contains(&status));
    }
}

#[test]
fn exchanges_are_settled() {
    assert_eq!(settle(Method::Get, "/p", Exchange::Decoded(5u32)).unwrap(), 5);
    let refused: Exchange<u32> = Exchange::Refused("503 Service Unavailable".to_string());
    match settle(Method::Post, "/p", refused) {
        Err(GatewayError::ControlPlane(message)) => {
            assert_eq!(message, "HTTP 503 Service Unavailable for POST /p")
        }
        other => panic!("{:?}", other),
    }
}
