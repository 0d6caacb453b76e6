use edms::names::{name_before, sort_names};
use edms::paths::{
    get_endpoint_dir, next_request_number_from_names, request_file_in, request_file_path,
    request_number_in_name, response_file_in, response_file_path,
};
use edms::text::{contains_str, decimal_string, parse_i32_str, push_signed, push_zero_padded, str_chars, str_equals, trim_str, is_whitespace_char};

#[test]
fn decimal_string_matches_to_string() {
    for n in [0u64, 7, 10, 99, 100, 12345, u64::MAX] {
        assert_eq!(decimal_string(n), n.to_string());
    }
}

#[test]
fn zero_padding_matches_format() {
    for n in [0i64, 5, 42, 123, 1234, -1, -5, -42, -123, i64::MIN, i64::MAX] {
        let mut s = String::new();
        push_zero_padded(&mut s, n, 3);
        assert_eq!(s, format!("{:03}", n));
    }
    let mut s = String::from("x");
    push_signed(&mut s, -907);
    assert_eq!(s, "x-907");
}

#[test]
fn parse_matches_std_parse() {
    let cases = [
        "0", "7", "+7", "-7", "007", "-0", "", "+", "-", "12a", " 1", "2147483647", "2147483648",
        "-2147483648", "-2147483649", "99999999999999999999", "00000000000000000000001", "1.5",
    ];
    for c in cases {
        assert_eq!(parse_i32_str(c), c.parse::<i32>().ok(), "case {c:?}");
    }
}

#[test]
fn substring_search() {
    assert!(contains_str("database is locked", "locked"));
    assert!(contains_str("locked", "locked"));
    assert!(!contains_str("lock", "locked"));
    assert!(!contains_str("disk I/O error", "locked"));
    assert!(contains_str("anything", ""));
    assert!(str_equals("ok", "ok"));
    assert!(!str_equals("ok", "OK"));
    assert_eq!(str_chars("héllo"), vec!['h', 'é', 'l', 'l', 'o']);
}

#[test]
fn endpoint_files_are_numbered_with_three_digits() {
    assert_eq!(get_endpoint_dir("ep-1"), "edms_data/ep-1");
    assert_eq!(request_file_path("ep-1", 7), "edms_data/ep-1/request-007.json");
    assert_eq!(response_file_path("ep-1", 42), "edms_data/ep-1/response-042.json");
    assert_eq!(request_file_path("ep-1", 1234), "edms_data/ep-1/request-1234.json");
    assert_eq!(request_file_path("ep-1", -5), "edms_data/ep-1/request--05.json");
    assert_eq!(request_file_in("dir", 0), "dir/request-000.json");
    assert_eq!(response_file_in("dir", 3), "dir/response-003.json");
}

#[test]
fn request_numbers_are_read_from_file_names() {
    assert_eq!(request_number_in_name("request-007.json"), Some(7));
    assert_eq!(request_number_in_name("request--05.json"), Some(-5));
    assert_eq!(request_number_in_name("request-+3.json"), Some(3));
    assert_eq!(request_number_in_name("request-.json"), None);
    assert_eq!(request_number_in_name("request-abc.json"), None);
    assert_eq!(request_number_in_name("response-001.json"), None);
    assert_eq!(request_number_in_name("request-001.txt"), None);
    assert_eq!(request_number_in_name("request-99999999999.json"), None);
}

#[test]
fn next_request_number_is_one_above_the_highest() {
    let names: Vec<String> = ["request-001.json", "response-001.json", "request-012.json", "notes.txt", "request-003.json"]
        .iter()
        .map(|s| s.to_string())
        .collect();
    assert_eq!(next_request_number_from_names(&names), 13);
    assert_eq!(next_request_number_from_names(&Vec::new()), 1);
    let negative = vec!["request--04.json".to_string()];
    assert_eq!(next_request_number_from_names(&negative), 1);
}

#[test]
fn written_request_file_reads_back_as_its_number() {
    for n in [0, 1, 9, 99, 100, 999, 1000, i32::MAX - 1, -1, -99, i32::MIN] {
        let path = request_file_path("e", n);
        let name = path.rsplit('/').next().unwrap().to_string();
        assert_eq!(request_number_in_name(&name), Some(n));
        if n < i32::MAX {
            assert!(next_request_number_from_names(&vec![name]) > n);
        }
    }
}

#[test]
fn file_names_sort_like_strings() {
    let names: Vec<String> = ["response-002.json", "request-010.json", "request-002.json", "Zeta", "alpha", "", "é", "request-002.json", "a", "ab"]
        .iter()
        .map(|s| s.to_string())
        .collect();
    let mut expected = names.clone();
    expected.sort();
    assert_eq!(sort_names(names), expected);
    assert!(name_before("a", "ab"));
    assert!(!name_before("ab", "a"));
    assert!(!name_before("a", "a"));
    assert!(name_before("Z", "a"));
    assert!(name_before("z", "é"));
    assert_eq!(sort_names(Vec::new()), Vec::<String>::new());
}

#[test]
fn trim_matches_std_on_unicode_whitespace() {
    for s in ["", "   ", "a", " a b ", "\t\n x\r\u{b}\u{c}", "\u{85}\u{a0}y\u{1680}", "\u{2000}\u{200a}z\u{202f}\u{205f}\u{3000}", "\u{200b}q\u{200b}"] {
        assert_eq!(trim_str(s), s.trim(), "{s:?}");
    }
    for c in ['\u{0}', ' ', '\t', '\u{85}', '\u{200b}', '\u{2029}', 'x', '\u{feff}', '\u{180e}'] {
        assert_eq!(is_whitespace_char(c), c.is_whitespace(), "{c:?}");
    }
}
