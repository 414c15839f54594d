use shuffle_manager::cache::ShuffleCache;
use shuffle_manager::decimal::parse_decimal;
use shuffle_manager::decimal::push_decimal;
use shuffle_manager::text::chars_of;
use shuffle_manager::text::same_chars;
use shuffle_manager::text::split_chars;

fn decimal(n: u64) -> String {
    let mut out = String::new();
    push_decimal(&mut out, n);
    out
}

fn parse(s: &str) -> Option<u64> {
    parse_decimal(&s.chars().collect())
}

fn split(s: &str) -> Vec<String> {
    split_chars(&s.chars().collect(), '/')
        .into_iter()
        .map(|piece| piece.into_iter().collect())
        .collect()
}

#[test]
fn decimal_notation_has_exact_digits() {
    assert_eq!(decimal(0), "0");
    assert_eq!(decimal(7), "7");
    assert_eq!(decimal(10), "10");
    assert_eq!(decimal(1234567890), "1234567890");
    assert_eq!(decimal(65535), "65535");
    assert_eq!(decimal(u64::MAX), "18446744073709551615");
}

#[test]
fn decimal_notation_is_appended() {
    let mut out = String::from("port ");
    push_decimal(&mut out, 8080);
    push_decimal(&mut out, 0);
    assert_eq!(out, "port 80800");
}

#[test]
fn decimal_notation_agrees_with_display() {
    let mut n: u64 = 1;
    for _ in 0..64 {
        assert_eq!(decimal(n), n.to_string());
        assert_eq!(decimal(n - 1), (n - 1).to_string());
        n = n.wrapping_mul(2);
    }
}

#[test]
fn parse_reads_what_decimal_writes() {
    for n in [0u64, 1, 9, 10, 99, 100, 49152, 65535, 4294967296, u64::MAX - 1, u64::MAX] {
        assert_eq!(parse(&decimal(n)), Some(n));
    }
}

#[test]
fn parse_accepts_plus_sign_and_leading_zeros() {
    assert_eq!(parse("+0"), Some(0));
    assert_eq!(parse("+17"), Some(17));
    assert_eq!(parse("000"), Some(0));
    assert_eq!(parse("+0017"), Some(17));
    assert_eq!(parse("00000000000000000000018446744073709551615"), Some(u64::MAX));
}

#[test]
fn parse_rejects_what_is_no_number() {
    for s in ["", "+", "-", "-0", "++1", "1+", "0x10", "1e3", "12a", "a12", " 12", "12 ", "1,000"] {
        assert_eq!(parse(s), None, "{:?}", s);
    }
    assert_eq!(parse("\u{0663}"), None);
    assert_eq!(parse("\u{ff11}"), None);
}

#[test]
fn parse_rejects_what_does_not_fit() {
    assert_eq!(parse("18446744073709551616"), None);
    assert_eq!(parse("18446744073709551620"), None);
    assert_eq!(parse("99999999999999999999"), None);
    assert_eq!(parse("184467440737095516150"), None);
    assert_eq!(parse("+100000000000000000000000000000000000000000"), None);
}

#[test]
fn parse_agrees_with_from_str_radix() {
    let samples = [
        "0", "1", "+1", "-1", "", "+", "007", "18446744073709551615", "18446744073709551616",
        "1 ", "x", "+-1", "12345678901234567890", "123456789012345678901",
    ];
    for s in samples {
        assert_eq!(parse(s), u64::from_str_radix(s, 10).ok(), "{:?}", s);
    }
}

#[test]
fn split_keeps_empty_pieces() {
    assert_eq!(split(""), vec![""]);
    assert_eq!(split("/"), vec!["", ""]);
    assert_eq!(split("status"), vec!["status"]);
    assert_eq!(split("/status"), vec!["", "status"]);
    assert_eq!(split("/shuffle/2/1/0"), vec!["", "shuffle", "2", "1", "0"]);
    assert_eq!(split("/a//b/"), vec!["", "a", "", "b", ""]);
    assert_eq!(split("///"), vec!["", "", "", ""]);
}

#[test]
fn split_agrees_with_str_split() {
    for s in ["", "/", "a", "a/b", "/a/b/", "//", "a//b", "\u{e4}/\u{f6}/\u{fc}", "/shuffle/1/2/3?x=/"] {
        let expected: Vec<String> = s.split('/').map(|piece| piece.to_string()).collect();
        assert_eq!(split(s), expected, "{:?}", s);
    }
}

#[test]
fn split_at_another_separator() {
    let pieces = split_chars(&"127.0.0.1".chars().collect(), '.');
    let pieces: Vec<String> = pieces.into_iter().map(|p| p.into_iter().collect()).collect();
    assert_eq!(pieces, vec!["127", "0", "0", "1"]);
}

#[test]
fn chars_of_yields_every_character() {
    assert_eq!(chars_of(""), Vec::<char>::new());
    assert_eq!(chars_of("/status"), vec!['/', 's', 't', 'a', 't', 'u', 's']);
    assert_eq!(chars_of("a\u{e9}\u{65e5}\u{1f600}"), vec!['a', '\u{e9}', '\u{65e5}', '\u{1f600}']);
}

#[test]
fn same_chars_compares_whole_texts() {
    let text = |s: &str| s.chars().collect::<Vec<char>>();
    assert!(same_chars(&text(""), &text("")));
    assert!(same_chars(&text("status"), &text("status")));
    assert!(!same_chars(&text("status"), &text("statuz")));
    assert!(!same_chars(&text("status"), &text("statu")));
    assert!(!same_chars(&text("status"), &text("statuss")));
    assert!(!same_chars(&text(""), &text("s")));
}

#[test]
fn cache_starts_empty() {
    let cache = ShuffleCache::new();
    assert_eq!(cache.get(&(0, 0, 0)), None);
    assert_eq!(cache.get(&(2, 1, 0)), None);
}

#[test]
fn cache_returns_what_was_inserted() {
    let mut cache = ShuffleCache::new();
    assert_eq!(cache.insert((2, 1, 0), vec![1, 2, 3]), None);
    assert_eq!(cache.insert((2, 1, 1), vec![4]), None);
    assert_eq!(cache.insert((2, 2, 0), vec![5]), None);
    assert_eq!(cache.insert((3, 1, 0), Vec::new()), None);
    assert_eq!(cache.get(&(2, 1, 0)), Some(&vec![1, 2, 3]));
    assert_eq!(cache.get(&(2, 1, 1)), Some(&vec![4]));
    assert_eq!(cache.get(&(2, 2, 0)), Some(&vec![5]));
    assert_eq!(cache.get(&(3, 1, 0)), Some(&Vec::new()));
    assert_eq!(cache.get(&(0, 1, 2)), None);
    assert_eq!(cache.get(&(1, 2, 0)), None);
    assert_eq!(cache.get(&(2, 1, 2)), None);
    assert_eq!(cache.get(&(2, 3, 0)), None);
}

#[test]
fn cache_insert_replaces_and_returns_the_old_block() {
    let mut cache = ShuffleCache::new();
    cache.insert((2, 1, 0), vec![1]);
    cache.insert((2, 1, 1), vec![2]);
    assert_eq!(cache.insert((2, 1, 0), vec![3]), Some(vec![1]));
    assert_eq!(cache.get(&(2, 1, 0)), Some(&vec![3]));
    assert_eq!(cache.get(&(2, 1, 1)), Some(&vec![2]));
}

#[test]
fn cache_keys_are_ordered_triples() {
    let mut cache = ShuffleCache::new();
    cache.insert((1, 2, 3), vec![1]);
    assert_eq!(cache.get(&(3, 2, 1)), None);
    assert_eq!(cache.get(&(1, 3, 2)), None);
    assert_eq!(cache.get(&(2, 1, 3)), None);
    assert_eq!(cache.get(&(1, 2, 3)), Some(&vec![1]));
}
