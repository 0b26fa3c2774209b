use ytextract::utils::String as _;
use ytextract::youtube::{parse_date, parse_length, parse_subscribers, strip_url_prefix, Date};

#[test]
fn subscribers_with_suffix() {
    assert_eq!(parse_subscribers("164K"), Some(164_000));
    assert_eq!(parse_subscribers("13.8M"), Some(13_800_000));
    assert_eq!(parse_subscribers("1.23M"), Some(1_230_000));
    assert_eq!(parse_subscribers("90.9M"), Some(90_900_000));
    assert_eq!(parse_subscribers("146K"), Some(146_000));
    assert_eq!(parse_subscribers("2.5K"), Some(2_500));
}

#[test]
fn subscribers_plain() {
    assert_eq!(parse_subscribers("87"), Some(87));
    assert_eq!(parse_subscribers("0"), Some(0));
}

#[test]
fn subscribers_unreadable() {
    assert_eq!(parse_subscribers(""), None);
    assert_eq!(parse_subscribers("abcK"), None);
    assert_eq!(parse_subscribers("1x2"), None);
}

#[test]
fn subscribers_float_forms() {
    assert_eq!(parse_subscribers("1.5K"), Some(1_500));
    assert_eq!(parse_subscribers(".5K"), Some(500));
    assert_eq!(parse_subscribers("5.K"), Some(5_000));
    assert_eq!(parse_subscribers("+2K"), Some(2_000));
    assert_eq!(parse_subscribers("-5K"), Some(0));
    assert_eq!(parse_subscribers("1e3K"), Some(1_000_000));
    assert_eq!(parse_subscribers("1E2M"), Some(100_000_000));
    assert_eq!(parse_subscribers("1e-2K"), Some(10));
    assert_eq!(parse_subscribers("1.2345K"), Some(1_234));
    assert_eq!(parse_subscribers("1e400K"), Some(u64::MAX));
    assert_eq!(parse_subscribers("1e-400K"), Some(0));
    assert_eq!(parse_subscribers("0e999K"), Some(0));
    assert_eq!(parse_subscribers("infK"), Some(u64::MAX));
    assert_eq!(parse_subscribers("InfinityM"), Some(u64::MAX));
    assert_eq!(parse_subscribers("-infK"), Some(0));
    assert_eq!(parse_subscribers("NaNK"), Some(0));
    assert_eq!(parse_subscribers("K"), None);
    assert_eq!(parse_subscribers(".K"), None);
    assert_eq!(parse_subscribers("1eK"), None);
    assert_eq!(parse_subscribers("1..2K"), None);
    assert_eq!(parse_subscribers("99999999999999999999K"), Some(u64::MAX));
}

#[test]
fn subscribers_unknown_suffix() {
    assert_eq!(parse_subscribers("5B"), None);
    assert_eq!(parse_subscribers("5é"), None);
}

#[test]
fn subscribers_three_digit_precision() {
    // YouTube only gives three significant digits: 164,583 subscribers read
    // as 164K.
    assert_eq!(parse_subscribers("164K"), Some(164_000));
}

#[test]
fn lengths() {
    assert_eq!(parse_length("1:02:03"), 3723);
    assert_eq!(parse_length("4:05"), 245);
    assert_eq!(parse_length("59"), 59);
    assert_eq!(parse_length("22:38"), 1358);
    assert_eq!(parse_length("0:00"), 0);
}

#[test]
fn dates() {
    assert_eq!(
        parse_date("Apr 14, 2021"),
        Some(Date { year: 2021, month: 4, day: 14 })
    );
    assert_eq!(
        parse_date("Premiered Mar 5, 2020"),
        Some(Date { year: 2020, month: 3, day: 5 })
    );
    assert_eq!(
        parse_date("Premieres Dec 31, 2022"),
        Some(Date { year: 2022, month: 12, day: 31 })
    );
    assert_eq!(
        parse_date("Premires Apr 14, 2021"),
        Some(Date { year: 2021, month: 4, day: 14 })
    );
    assert_eq!(parse_date("yesterday"), None);
    assert_eq!(parse_date("Streamed live Apr 14, 2021"), None);
}

#[test]
fn url_prefixes() {
    assert_eq!(strip_url_prefix("https://www.youtube.com/watch?v=x"), "watch?v=x");
    assert_eq!(strip_url_prefix("https://m.youtube.com/watch?v=x"), "watch?v=x");
    assert_eq!(strip_url_prefix("https://youtube.com/watch?v=x"), "watch?v=x");
    assert_eq!(strip_url_prefix("https://youtu.be/abc"), "abc");
    assert_eq!(strip_url_prefix("https://example.com/abc"), "https://example.com/abc");
}

#[test]
fn splitting_text() {
    assert_eq!("a(b)c".split_contained("(" ..= ")"), Some("b"));
    assert_eq!("a(b".split_contained("(" ..= ")"), None);
    assert_eq!("abc".split_contained("(" ..= ")"), None);
    assert_eq!("key=value=x".split_start_off("="), Some("value=x"));
    assert_eq!("key=value=x".split_end_off("="), Some("key"));
    assert_eq!("key".split_start_off("="), None);
    assert_eq!("key".split_end_off("="), None);
}
