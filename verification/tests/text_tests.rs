use renovate_metadashboard::text::digit_str;
use renovate_metadashboard::order::order_by_key_desc;
use renovate_metadashboard::text::{ends_with, push_decimal, starts_with, str_eq, trim_slashes, trim_str};

#[test]
fn trim_unicode_white_space() {
    assert_eq!(trim_str("  a b \t\n"), "a b");
    assert_eq!(trim_str("\u{3000}x\u{a0}"), "x");
    assert_eq!(trim_str("   "), "");
    assert_eq!(trim_str(""), "");
    assert_eq!(trim_str("x\u{200b}"), "x\u{200b}");
}

#[test]
fn prefixes_and_suffixes() {
    assert!(starts_with("renovate/foo", "renovate/"));
    assert!(!starts_with("renovat", "renovate/"));
    assert!(ends_with("a -->", " -->"));
    assert!(!ends_with("a-->", " -->"));
    assert!(str_eq("é", "é"));
    assert!(!str_eq("a", "ab"));
}

#[test]
fn trailing_slashes() {
    assert_eq!(trim_slashes("https://x.org///"), "https://x.org");
    assert_eq!(trim_slashes("///"), "");
    assert_eq!(trim_slashes("a/b"), "a/b");
}

#[test]
fn decimal_numbers() {
    let mut s = String::from("n=");
    push_decimal(&mut s, 0);
    assert_eq!(s, "n=0");
    let mut s = String::new();
    push_decimal(&mut s, 18446744073709551615);
    assert_eq!(s, "18446744073709551615");
    let mut s = String::new();
    push_decimal(&mut s, 1050);
    assert_eq!(s, "1050");
}

#[test]
fn order_is_stable_descending() {
    assert_eq!(order_by_key_desc(&vec![1, 3, 3, 0, 2]), vec![1, 2, 4, 0, 3]);
    assert_eq!(order_by_key_desc(&vec![]), Vec::<usize>::new());
    assert_eq!(order_by_key_desc(&vec![5, 5, 5]), vec![0, 1, 2]);
    assert_eq!(order_by_key_desc(&vec![0, 1, 2, 3]), vec![3, 2, 1, 0]);
}

#[test]
fn digit_strings() {
    for d in 0..10u64 {
        assert_eq!(digit_str(d), d.to_string());
    }
}
