use skill_workshop::error::DomainError;
use skill_workshop::value_objects::money::{Money};
use skill_workshop::value_objects::{Email, OtpCode, TransactionId, UserId, WorkshopId};
use uuid::Uuid;

#[test]
fn valid_email() {
    let email = Email::new("test@example.com").unwrap();
    assert_eq!(email.as_str(), "test@example.com");
}

#[test]
fn email_is_lowercased() {
    let email = Email::new("Test@Example.COM").unwrap();
    assert_eq!(email.as_str(), "test@example.com");
}

#[test]
fn empty_email_fails() {
    assert!(Email::new("").is_err());
}

#[test]
fn no_at_sign_fails() {
    assert!(Email::new("notanemail").is_err());
}

#[test]
fn missing_local_part_fails() {
    assert!(Email::new("@domain.com").is_err());
}

#[test]
fn missing_domain_fails() {
    assert!(Email::new("user@").is_err());
}

#[test]
fn valid_email_with_plus_sign() {
    let email = Email::new("user+tag@example.com").unwrap();
    assert_eq!(email.as_str(), "user+tag@example.com");
}

#[test]
fn valid_email_with_subdomain() {
    let email = Email::new("user@sub.example.com").unwrap();
    assert_eq!(email.as_str(), "user@sub.example.com");
}

#[test]
fn email_display_shows_normalized() {
    let email = Email::new("User@Example.COM").unwrap();
    assert_eq!(email.to_string(), "user@example.com");
}

#[test]
fn email_equality_is_case_insensitive() {
    let a = Email::new("A@B.com").unwrap();
    let b = Email::new("a@b.com").unwrap();
    assert_eq!(a, b);
}

#[test]
fn email_errors_name_the_problem() {
    assert_eq!(Email::new("   ").unwrap_err(), DomainError::Validation("Email cannot be empty".to_string()));
    assert_eq!(Email::new("plain").unwrap_err(), DomainError::Validation("Email must contain '@'".to_string()));
    assert_eq!(
        Email::new("@x").unwrap_err(),
        DomainError::Validation("Email must have both local and domain parts".to_string())
    );
    assert_eq!(
        Email::new("x@").unwrap_err(),
        DomainError::Validation("Email must have both local and domain parts".to_string())
    );
}

#[test]
fn email_trims_and_accepts_second_at_at_the_end() {
    assert_eq!(Email::new("  a@b  ").unwrap().into_inner(), "a@b");
    // Only the first '@' splits the address: "a@b@" has both parts.
    assert!(Email::new("a@b@").is_ok());
}

#[test]
fn email_from_normalized_checks_the_text_as_given() {
    assert_eq!(Email::from_normalized("q@r".to_string()).unwrap().as_str(), "q@r");
    assert!(Email::from_normalized(String::new()).is_err());
}

#[test]
fn id_new_generates_uuid_v7() {
    let id = UserId::new();
    let uuid = Uuid::from_u128(id.as_uuid());
    assert_eq!(uuid.get_version(), Some(uuid::Version::SortRand));
}

#[test]
fn id_parse_valid_uuid() {
    let uuid = Uuid::now_v7();
    let id = UserId::parse_str(&uuid.to_string()).unwrap();
    assert_eq!(id.into_uuid(), uuid.as_u128());
}

#[test]
fn id_parse_invalid_uuid_fails() {
    assert!(UserId::parse_str("not-a-uuid").is_err());
}

#[test]
fn id_from_uuid_and_into_uuid_round_trip() {
    let uuid = Uuid::now_v7();
    let id = UserId::from_uuid(uuid.as_u128());
    assert_eq!(id.into_uuid(), uuid.as_u128());
}

#[test]
fn id_display_matches_uuid_format() {
    let uuid = Uuid::now_v7();
    let id = UserId::from_uuid(uuid.as_u128());
    assert_eq!(id.to_string(), uuid.to_string());
}

#[test]
fn id_default_generates_new() {
    let id1 = UserId::default();
    let id2 = UserId::new();
    assert_ne!(id1, id2);
}

#[test]
fn different_id_types_are_distinct() {
    let user_id = UserId::new();
    let workshop_id = WorkshopId::new();
    let _ = format!("{} {}", user_id.to_string(), workshop_id.to_string());
}

#[test]
fn id_text_is_lower_case_hyphenated() {
    let id = UserId::from_uuid(0x0123_4567_89ab_cdef_0011_2233_4455_6677);
    assert_eq!(id.to_string(), "01234567-89ab-cdef-0011-223344556677");
    let parsed = UserId::parse_str("01234567-89AB-CDEF-0011-223344556677").unwrap();
    assert_eq!(parsed, id);
}

#[test]
fn id_parse_error_is_validation() {
    let cause = Uuid::parse_str("xyz").unwrap_err().to_string();
    assert_eq!(UserId::parse_str("xyz").unwrap_err(), DomainError::Validation(cause));
}

#[test]
fn from_cents() {
    let m = Money::from_cents(100);
    assert_eq!(m.cents(), 100);
    assert_eq!(m.dollars(), 1);
}

#[test]
fn from_dollars() {
    let m = Money::from_dollars(10);
    assert_eq!(m.cents(), 1000);
}

#[test]
fn display() {
    assert_eq!(Money::from_cents(1050).to_string(), "10.50");
    assert_eq!(Money::from_cents(0).to_string(), "0.00");
}

#[test]
fn add() {
    let a = Money::from_cents(100);
    let b = Money::from_cents(200);
    assert_eq!(a.add(&b).cents(), 300);
}

#[test]
fn sub_success() {
    let a = Money::from_cents(300);
    let b = Money::from_cents(100);
    assert_eq!(a.sub(&b).unwrap().cents(), 200);
}

#[test]
fn sub_negative_fails() {
    let a = Money::from_cents(100);
    let b = Money::from_cents(300);
    assert!(a.sub(&b).is_none());
}

#[test]
fn money_display_of_negative_and_small_amounts() {
    assert_eq!(Money::from_cents(-1050).to_string(), "-10.50");
    assert_eq!(Money::from_cents(-5).to_string(), "0.05");
    assert_eq!(Money::from_cents(7).to_string(), "0.07");
    assert_eq!(Money::from_cents(123456).to_string(), "1234.56");
}

#[test]
fn money_dollars_truncate_toward_zero() {
    assert_eq!(Money::from_cents(-150).dollars(), -1);
    assert_eq!(Money::from_cents(199).dollars(), 1);
    assert_eq!(Money::from_dollars(-3).dollars(), -3);
}

#[test]
fn money_sub_undoes_add() {
    let a = Money::from_cents(420);
    let b = Money::from_cents(80);
    assert_eq!(a.add(&b).sub(&b), Some(a));
    assert_eq!(a.sub(&a).unwrap().cents(), 0);
    assert!(a.sub(&a).unwrap().is_zero());
}

#[test]
fn money_mul_and_from() {
    assert_eq!(Money::from_cents(250).mul(3).cents(), 750);
    assert_eq!(Money::from(42).cents(), 42);
    assert!(!Money::from_cents(1).is_zero());
}

#[test]
fn valid_otp() {
    let otp = OtpCode::new("123456").unwrap();
    assert_eq!(otp.as_str(), "123456");
}

#[test]
fn too_short_fails() {
    assert!(OtpCode::new("12345").is_err());
}

#[test]
fn too_long_fails() {
    assert!(OtpCode::new("1234567").is_err());
}

#[test]
fn non_digit_fails() {
    assert!(OtpCode::new("12345a").is_err());
}

#[test]
fn display_is_redacted() {
    let otp = OtpCode::new("123456").unwrap();
    assert_eq!(otp.to_string(), "[OTP REDACTED]");
}

#[test]
fn otp_error_messages() {
    let msg = DomainError::Validation("OTP code must be exactly 6 digits".to_string());
    assert_eq!(OtpCode::new("12a456").unwrap_err(), msg);
    assert_eq!(OtpCode::new("123").unwrap_err(), msg);
    // Six characters that are not all ASCII digits.
    assert_eq!(OtpCode::new("١٢٣٤٥٦").unwrap_err(), msg);
    assert_eq!(OtpCode::new("000000").unwrap().into_inner(), "000000");
}

#[test]
fn valid_transaction_id() {
    let tid = TransactionId::new("TXN123456").unwrap();
    assert_eq!(tid.as_str(), "TXN123456");
}

#[test]
fn empty_fails() {
    assert!(TransactionId::new("").is_err());
}

#[test]
fn trimmed() {
    let tid = TransactionId::new("  TXN123  ").unwrap();
    assert_eq!(tid.as_str(), "TXN123");
}

#[test]
fn transaction_id_of_blanks_fails_with_message() {
    assert_eq!(
        TransactionId::new(" \t ").unwrap_err(),
        DomainError::Validation("Transaction ID cannot be empty".to_string())
    );
    assert_eq!(TransactionId::new("a").unwrap().to_string(), "a");
}

#[test]
fn email_as_ref_gives_the_text() {
    let email = Email::new(" X@Y.z ").unwrap();
    let text: &str = email.as_ref();
    assert_eq!(text, "x@y.z");
}

#[test]
fn transaction_id_trims_unicode_white_space_and_reparses() {
    let tid = TransactionId::new("\u{3000}\tTX 9\u{a0}\n").unwrap();
    assert_eq!(tid.as_str(), "TX 9");
    assert_eq!(TransactionId::new(tid.as_str()).unwrap(), tid);
    assert_eq!(tid.clone(), tid);
}

#[test]
fn money_order_follows_cents() {
    assert!(Money::from_cents(-5) < Money::from_cents(3));
    assert!(Money::from_cents(300) > Money::from_cents(299));
    assert!(Money::from_cents(7) <= Money::from_cents(7));
    assert_eq!(Money::from_cents(1).partial_cmp(&Money::from_cents(1)), Some(std::cmp::Ordering::Equal));
    assert_eq!(Money::from_cents(9).max(Money::from_cents(4)).cents(), 9);
}

#[test]
fn ascii_email_normalization_is_idempotent() {
    let e = Email::new("  Mixed.Case@Example.ORG\t").unwrap();
    assert_eq!(e.as_str(), "mixed.case@example.org");
    assert_eq!(Email::new(e.as_str()).unwrap(), e);
}
