use std::collections::HashSet;

use chrono::Datelike;
use rs_uploader::calendar::{YearMonth, MAX_YEAR, MIN_YEAR};
use rs_uploader::key::ObjectKey;
use rs_uploader::text::decimal_string;
use rs_uploader::token::TOKEN_LENGTH;

fn month(year: i32, month: u32) -> YearMonth {
    YearMonth::new(year, month).unwrap()
}

fn is_url_safe(c: char) -> bool {
    c.is_ascii_alphanumeric() || c == '_' || c == '-'
}

#[test]
fn key_of_a_fixed_month() {
    let key = ObjectKey::new(month(2024, 5), "k3Vw_9xQ2mLr-7TzYbN4c".to_string(), "png".to_string());
    assert_eq!(key.path(), "2024/05/k3Vw_9xQ2mLr-7TzYbN4c.png");
}

#[test]
fn key_keeps_its_parts() {
    let key = ObjectKey::new(month(1999, 12), "abc".to_string(), "jpeg".to_string());
    assert_eq!(key.date, month(1999, 12));
    assert_eq!(key.token, "abc");
    assert_eq!(key.extension, "jpeg");
    assert_eq!(key.path(), "1999/12/abc.jpeg");
}

#[test]
fn month_is_written_with_two_digits() {
    assert_eq!(month(2024, 1).prefix(), "2024/01/");
    assert_eq!(month(2024, 9).prefix(), "2024/09/");
    assert_eq!(month(2024, 10).prefix(), "2024/10/");
    assert_eq!(month(2024, 12).prefix(), "2024/12/");
}

#[test]
fn year_is_filled_to_four_digits() {
    assert_eq!(month(0, 1).prefix(), "0000/01/");
    assert_eq!(month(7, 3).prefix(), "0007/03/");
    assert_eq!(month(999, 12).prefix(), "0999/12/");
    assert_eq!(month(1000, 6).prefix(), "1000/06/");
    assert_eq!(month(9999, 12).prefix(), "9999/12/");
}

#[test]
fn year_outside_four_digits_carries_a_sign() {
    assert_eq!(month(10000, 1).prefix(), "+10000/01/");
    assert_eq!(month(12345, 10).prefix(), "+12345/10/");
    assert_eq!(month(-1, 2).prefix(), "-0001/02/");
    assert_eq!(month(-5, 1).prefix(), "-0005/01/");
    assert_eq!(month(-12345, 11).prefix(), "-12345/11/");
    assert_eq!(month(MAX_YEAR, 12).prefix(), "+262142/12/");
    assert_eq!(month(MIN_YEAR, 1).prefix(), "-262143/01/");
}

#[test]
fn month_outside_the_calendar_is_refused() {
    assert_eq!(YearMonth::new(2024, 0), None);
    assert_eq!(YearMonth::new(2024, 13), None);
    assert_eq!(YearMonth::new(MAX_YEAR + 1, 1), None);
    assert_eq!(YearMonth::new(MIN_YEAR - 1, 12), None);
    assert_eq!(YearMonth::new(i32::MAX, 1), None);
    assert_eq!(YearMonth::new(2024, u32::MAX), None);
}

#[test]
fn month_keeps_year_and_month() {
    let date = month(2024, 5);
    assert_eq!(date.year(), 2024);
    assert_eq!(date.month(), 5);
    let first = month(MIN_YEAR, 1);
    assert_eq!(first.year(), -262143);
    assert_eq!(first.month(), 1);
}

#[test]
fn generated_key_is_of_the_local_month() {
    let before = chrono::Local::now().date_naive();
    let key = ObjectKey::generate("png");
    let after = chrono::Local::now().date_naive();
    let seen = (key.date.year(), key.date.month());
    assert!(seen == (before.year(), before.month()) || seen == (after.year(), after.month()));
}

#[test]
fn token_is_short_and_url_safe() {
    for _ in 0..100 {
        let token = ObjectKey::generate("png").token;
        assert_eq!(token.chars().count(), TOKEN_LENGTH);
        assert_eq!(TOKEN_LENGTH, 21);
        assert!(token.chars().all(is_url_safe));
    }
}

#[test]
fn generated_key_has_the_documented_shape() {
    let key = ObjectKey::generate("png");
    assert_eq!(key.extension, "png");
    assert_eq!(key.token.chars().count(), 21);
    assert!(key.token.chars().all(is_url_safe));
    let path = key.path();
    assert_eq!(path, format!("{}{}.png", key.date.prefix(), key.token));
    let parts: Vec<&str> = path.split('/').collect();
    assert_eq!(parts.len(), 3);
    assert_eq!(parts[0], format!("{:04}", key.date.year()));
    assert_eq!(parts[1], format!("{:02}", key.date.month()));
    assert_eq!(parts[2], format!("{}.png", key.token));
}

#[test]
fn key_is_made_in_the_month_of_the_given_clock() {
    let key = ObjectKey::generate_at(month(2024, 5), "png");
    assert_eq!(key.date, month(2024, 5));
    assert_eq!(key.extension, "png");
    assert_eq!(key.token.chars().count(), 21);
    assert!(key.token.chars().all(is_url_safe));
    let path = key.path();
    assert!(path.starts_with("2024/05/"));
    assert!(path.ends_with(".png"));
    assert_eq!(path, format!("2024/05/{}.png", key.token));
    let late = ObjectKey::generate_at(month(1999, 12), "jpeg");
    assert_eq!(late.path(), format!("1999/12/{}.jpeg", late.token));
}

#[test]
fn keys_of_one_month_do_not_collide() {
    let mut paths = HashSet::new();
    for _ in 0..10_000 {
        paths.insert(ObjectKey::generate_at(month(2024, 5), "png").path());
    }
    assert_eq!(paths.len(), 10_000);
}

#[test]
fn generated_keys_do_not_collide() {
    let mut tokens = HashSet::new();
    let mut paths = HashSet::new();
    for _ in 0..10_000 {
        let key = ObjectKey::generate("png");
        paths.insert(key.path());
        tokens.insert(key.token);
    }
    assert_eq!(tokens.len(), 10_000);
    assert_eq!(paths.len(), 10_000);
}

#[test]
fn keys_of_one_month_differ_by_their_tokens() {
    let first = ObjectKey::new(month(2024, 5), "aaaaaaaaaaaaaaaaaaaaa".to_string(), "png".to_string());
    let second = ObjectKey::new(month(2024, 5), "aaaaaaaaaaaaaaaaaaaab".to_string(), "png".to_string());
    let other_month = ObjectKey::new(month(2024, 6), "aaaaaaaaaaaaaaaaaaaaa".to_string(), "png".to_string());
    assert_ne!(first.path(), second.path());
    assert_ne!(first.path(), other_month.path());
}

#[test]
fn numbers_are_written_in_decimal() {
    assert_eq!(decimal_string(0), "0");
    assert_eq!(decimal_string(7), "7");
    assert_eq!(decimal_string(10), "10");
    assert_eq!(decimal_string(403), "403");
    assert_eq!(decimal_string(65535), "65535");
    assert_eq!(decimal_string(u64::MAX), "18446744073709551615");
}
