use pispas_reservation::datetime::{current_timestamp, validate_date, validate_time};
use pispas_reservation::errors::AppError;
use pispas_reservation::valid::{extract_token, is_blank, parse_id, str_eq, validate_email};

#[test]
fn parse_id_accepts_decimal_u64() {
    assert_eq!(parse_id("0"), Some(0));
    assert_eq!(parse_id("123"), Some(123));
    assert_eq!(parse_id("0042"), Some(42));
    assert_eq!(parse_id("18446744073709551615"), Some(u64::MAX));
}

#[test]
fn parse_id_rejects_everything_else() {
    assert_eq!(parse_id(""), None);
    assert_eq!(parse_id("12a"), None);
    assert_eq!(parse_id("-1"), None);
    assert_eq!(parse_id(" 1"), None);
    assert_eq!(parse_id("18446744073709551616"), None);
    assert_eq!(parse_id("99999999999999999999999"), None);
}

#[test]
fn email_check_requires_at_and_dot() {
    assert!(validate_email("juan@email.com"));
    assert!(validate_email(".@"));
    assert!(!validate_email("juan@email"));
    assert!(!validate_email("juan.email.com"));
    assert!(!validate_email(""));
}

#[test]
fn blank_check_strips_whitespace() {
    assert!(is_blank(""));
    assert!(is_blank("   "));
    assert!(is_blank(" \t\r\n"));
    assert!(!is_blank(" a "));
}

#[test]
fn blank_check_covers_unicode_whitespace() {
    // The same characters that str::trim strips count as blank.
    assert!(is_blank("\u{00A0}"));
    assert!(is_blank("\u{2003}\u{3000} \u{202F}"));
    assert_eq!(is_blank("\u{00A0}x\u{00A0}"), "\u{00A0}x\u{00A0}".trim().is_empty());
    assert_eq!(is_blank("\u{85}\u{1680}"), "\u{85}\u{1680}".trim().is_empty());
}

#[test]
fn str_eq_compares_contents() {
    assert!(str_eq("", ""));
    assert!(str_eq("mesa", "mesa"));
    assert!(!str_eq("mesa", "mesas"));
    assert!(!str_eq("mesa", "mesA"));
}

#[test]
fn extract_token_takes_the_bearer_suffix() {
    let tok = extract_token(Some("Bearer abc-123")).expect("well-formed header");
    assert_eq!(tok, "abc-123");
    let empty = extract_token(Some("Bearer ")).expect("empty token is extracted");
    assert_eq!(empty, "");
    assert!(matches!(extract_token(None), Err(AppError::Unauthorized(_))));
    assert!(matches!(extract_token(Some("Basic abc")), Err(AppError::Unauthorized(_))));
    assert!(matches!(extract_token(Some("bearer abc")), Err(AppError::Unauthorized(_))));
    assert!(matches!(extract_token(Some("Bear")), Err(AppError::Unauthorized(_))));
}

#[test]
fn dates_parse_as_calendar_dates() {
    assert!(validate_date("2024-12-25").is_ok());
    assert!(validate_date("2024-02-29").is_ok());
    assert!(matches!(validate_date("2023-02-29"), Err(AppError::Validation(_))));
    assert!(matches!(validate_date("2024-13-01"), Err(AppError::Validation(_))));
    assert!(matches!(validate_date("25-12-2024"), Err(AppError::Validation(_))));
    assert!(matches!(validate_date(""), Err(AppError::Validation(_))));
}

#[test]
fn times_parse_as_clock_times() {
    assert!(validate_time("20:00").is_ok());
    assert!(validate_time("00:00").is_ok());
    assert!(validate_time("23:59").is_ok());
    assert!(matches!(validate_time("24:00"), Err(AppError::Validation(_))));
    assert!(matches!(validate_time("19:60"), Err(AppError::Validation(_))));
    assert!(matches!(validate_time("ocho"), Err(AppError::Validation(_))));
}

#[test]
fn the_clock_moves_forward_from_the_epoch() {
    // The service was written well after 2020; the clock should agree.
    let t = current_timestamp();
    assert!(t > 1_577_836_800);
}
