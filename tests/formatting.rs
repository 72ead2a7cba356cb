use mediabot::numfmt::format_currency;
use mediabot::parse::{parse_page_count, parse_rating, rating_display};
use mediabot::summary::truncate_description;

fn strip_and_parse(s: &str) -> u64 {
    s.chars().filter(|c| *c != ',').collect::<String>().parse().unwrap()
}

#[test]
fn currency_examples() {
    assert_eq!(format_currency(1234567), "1,234,567");
    assert_eq!(format_currency(0), "0");
    assert_eq!(format_currency(7), "7");
}

#[test]
fn currency_group_boundaries() {
    assert_eq!(format_currency(999), "999");
    assert_eq!(format_currency(1000), "1,000");
    assert_eq!(format_currency(100000), "100,000");
    assert_eq!(format_currency(1000001), "1,000,001");
    assert_eq!(format_currency(u64::MAX), "18,446,744,073,709,551,615");
}

#[test]
fn currency_groups_round_trip() {
    for n in [0u64, 5, 42, 999, 1000, 12345, 470700000, 7000000, u64::MAX] {
        let s = format_currency(n);
        assert_eq!(strip_and_parse(&s), n);
        let groups: Vec<&str> = s.split(',').collect();
        assert!(groups[0].len() >= 1 && groups[0].len() <= 3);
        for g in &groups[1..] {
            assert_eq!(g.len(), 3);
        }
    }
}

#[test]
fn short_description_is_kept() {
    assert_eq!(truncate_description(""), "");
    assert_eq!(truncate_description("A shark."), "A shark.");
    let exactly = "a".repeat(500);
    assert_eq!(truncate_description(&exactly), exactly);
}

#[test]
fn long_description_is_cut() {
    let long = "b".repeat(501);
    let r = truncate_description(&long);
    assert_eq!(r.chars().count(), 503);
    assert_eq!(r, format!("{}...", "b".repeat(500)));
}

#[test]
fn truncation_counts_characters_not_bytes() {
    let long = "é".repeat(600);
    let r = truncate_description(&long);
    assert_eq!(r, format!("{}...", "é".repeat(500)));
    let short = "日本".repeat(250);
    assert_eq!(truncate_description(&short), short);
}

#[test]
fn rating_parses_and_renders() {
    assert_eq!(parse_rating("4.2"), Some(420));
    assert_eq!(rating_display(420), "4.2/5");
    assert_eq!(parse_rating("4.27"), Some(427));
    assert_eq!(rating_display(427), "4.3/5");
    assert_eq!(parse_rating("5"), Some(500));
    assert_eq!(parse_rating(".5"), Some(50));
    assert_eq!(parse_rating("3."), Some(300));
    assert_eq!(rating_display(0), "0.0/5");
}

#[test]
fn unparsable_rating_is_absent() {
    assert_eq!(parse_rating("N/A"), None);
    assert_eq!(parse_rating(""), None);
    assert_eq!(parse_rating("."), None);
    assert_eq!(parse_rating("4.2.1"), None);
    assert_eq!(parse_rating(" 4.2"), None);
}

#[test]
fn page_counts() {
    assert_eq!(parse_page_count("320"), Some(320));
    assert_eq!(parse_page_count("+7"), Some(7));
    assert_eq!(parse_page_count("65535"), Some(65535));
    assert_eq!(parse_page_count("65536"), None);
    assert_eq!(parse_page_count("320 pages, Paperback"), None);
    assert_eq!(parse_page_count(""), None);
    assert_eq!(parse_page_count("+"), None);
}
