use skill_workshop::aggregates::enrollment::EnrollmentStatus;
use skill_workshop::aggregates::payment::PaymentStatus;
use skill_workshop::aggregates::review::ReviewStatus;
use skill_workshop::aggregates::user::{UserRole, UserStatus};
use skill_workshop::clock::{timestamp_from_epoch_offset, Timestamp};
use skill_workshop::error::DomainError;
use skill_workshop::records::{ContactRecord, EnrollmentRecord, PaymentRecord, ReviewRecord, UserRecord};
use skill_workshop::mail::{mailbox, template_file_name, template_pattern};
use skill_workshop::storage::object_url;

fn t(secs: i64) -> Timestamp {
    Timestamp { secs, nanos: 0 }
}

fn user_record(role: &str, status: &str, email: &str) -> UserRecord {
    UserRecord {
        id: 5,
        email: email.to_string(),
        name: "N".to_string(),
        password_hash: Some("h".to_string()),
        phone: None,
        picture_url: None,
        age: Some(40),
        address: None,
        role: role.to_string(),
        status: status.to_string(),
        is_verified: true,
        expertise: None,
        bio: Some("b".to_string()),
        created_at: t(1),
        updated_at: t(2),
    }
}

#[test]
fn user_record_reads_back() {
    let u = user_record("instructor", "blocked", " Me@X.org ").into_domain().unwrap();
    assert_eq!(u.id.as_uuid(), 5);
    assert_eq!(u.email.as_str(), "me@x.org");
    assert_eq!(u.role, UserRole::Instructor);
    assert_eq!(u.status, UserStatus::Blocked);
    assert_eq!(u.age, Some(40));
    assert!(u.is_verified);
    assert_eq!(u.updated_at, t(2));
}

#[test]
fn user_record_refusals() {
    assert_eq!(
        user_record("boss", "active", "a@b").into_domain().unwrap_err(),
        DomainError::Internal("invalid user role: boss".to_string())
    );
    assert_eq!(
        user_record("admin", "gone", "a@b").into_domain().unwrap_err(),
        DomainError::Internal("invalid user status: gone".to_string())
    );
    assert_eq!(
        user_record("admin", "active", "nope").into_domain().unwrap_err(),
        DomainError::Internal("invalid email in database".to_string())
    );
}

#[test]
fn enrollment_record_reads_back_and_refuses_unknown_status() {
    let r = EnrollmentRecord {
        id: 1,
        user_id: 2,
        workshop_id: 3,
        payment_id: Some(4),
        student_count: 2,
        status: "complete".to_string(),
        created_at: t(1),
        updated_at: t(1),
    };
    let e = r.into_domain().unwrap();
    assert_eq!(e.status(), EnrollmentStatus::Complete);
    assert_eq!(e.payment_id().map(|p| p.as_uuid()), Some(4));
    assert_eq!(e.student_count(), 2);
    let bad = EnrollmentRecord {
        id: 1,
        user_id: 2,
        workshop_id: 3,
        payment_id: None,
        student_count: 1,
        status: "done".to_string(),
        created_at: t(1),
        updated_at: t(1),
    };
    assert_eq!(bad.into_domain().unwrap_err(), DomainError::Internal("invalid enrollment status: done".to_string()));
}

#[test]
fn payment_record_reads_back_and_refuses_unknown_status() {
    let r = PaymentRecord {
        id: 8,
        enrollment_id: 9,
        transaction_id: "TX".to_string(),
        amount_cents: 1234,
        payment_gateway_data: None,
        invoice_url: Some("u".to_string()),
        status: "refunded".to_string(),
        created_at: t(1),
        updated_at: t(3),
    };
    let p = r.into_domain().unwrap();
    assert_eq!(p.status, PaymentStatus::Refunded);
    assert_eq!(p.amount.cents(), 1234);
    assert_eq!(p.transaction_id, "TX");
    let bad = PaymentRecord {
        id: 8,
        enrollment_id: 9,
        transaction_id: "TX".to_string(),
        amount_cents: 1,
        payment_gateway_data: None,
        invoice_url: None,
        status: "Paid".to_string(),
        created_at: t(1),
        updated_at: t(1),
    };
    assert_eq!(bad.into_domain().unwrap_err(), DomainError::Internal("invalid payment status: Paid".to_string()));
}

#[test]
fn review_record_reads_back_and_refuses_unknown_status() {
    let r = ReviewRecord {
        id: 1,
        user_id: 2,
        workshop_id: 3,
        rating: 4,
        title: "T".to_string(),
        content: "C".to_string(),
        status: "approved".to_string(),
        created_at: t(1),
        updated_at: t(1),
    };
    let v = r.into_domain().unwrap();
    assert_eq!(v.status(), ReviewStatus::Approved);
    assert_eq!(v.rating(), 4);
    let bad = ReviewRecord {
        id: 1,
        user_id: 2,
        workshop_id: 3,
        rating: 4,
        title: "T".to_string(),
        content: "C".to_string(),
        status: "spam".to_string(),
        created_at: t(1),
        updated_at: t(1),
    };
    assert_eq!(bad.into_domain().unwrap_err(), DomainError::Internal("invalid review status: spam".to_string()));
}

#[test]
fn contact_record_reads_back_and_reports_bad_email() {
    let r = ContactRecord {
        id: 6,
        name: "A".to_string(),
        email: "A@B.C".to_string(),
        subject: "S".to_string(),
        message: "M".to_string(),
        is_read: true,
        created_at: t(1),
        updated_at: t(1),
    };
    let c = r.into_domain().unwrap();
    assert_eq!(c.email().as_str(), "a@b.c");
    assert!(c.is_read());
    let bad = ContactRecord {
        id: 6,
        name: "A".to_string(),
        email: "".to_string(),
        subject: "S".to_string(),
        message: "M".to_string(),
        is_read: false,
        created_at: t(1),
        updated_at: t(1),
    };
    assert_eq!(
        bad.into_domain().unwrap_err(),
        DomainError::Internal("invalid email in contact row: Validation error: Email cannot be empty".to_string())
    );
}

#[test]
fn object_urls() {
    assert_eq!(object_url("media", "w/1.png"), "https://media.s3.amazonaws.com/w/1.png");
}

#[test]
fn mail_names() {
    assert_eq!(template_file_name("welcome"), "welcome.html");
    assert_eq!(template_pattern("/srv/tpl"), "/srv/tpl/**/*.html");
    assert_eq!(mailbox("Skill Workshop", "no-reply@x.org"), "Skill Workshop <no-reply@x.org>");
}

#[test]
fn invoice_text_lines() {
    use_invoice();
}

fn use_invoice() {
    let lines = skill_workshop::invoice::invoice_lines("TX1", "Ann", "ann@x.org", "Rust");
    assert_eq!(lines.len(), 9);
    assert_eq!(lines[0], "INVOICE");
    assert_eq!(lines[1], "Invoice #: TX1");
    assert_eq!(lines[2], "_".repeat(70));
    assert_eq!(lines[3], "Bill To:");
    assert_eq!(lines[4], "Ann");
    assert_eq!(lines[5], "ann@x.org");
    assert_eq!(lines[6], "Workshop:");
    assert_eq!(lines[7], "Rust");
    assert_eq!(lines[8], "Amount Paid:");
    assert_eq!(skill_workshop::invoice::invoice_title("TX1"), "Invoice TX1");
    assert_eq!(skill_workshop::invoice::closing_line(), "Thank you for your purchase!");
}

#[test]
fn clock_offsets_become_timestamps() {
    assert_eq!(timestamp_from_epoch_offset(Ok((5, 7))), Timestamp { secs: 5, nanos: 7 });
    assert_eq!(timestamp_from_epoch_offset(Err((3, 0))), Timestamp { secs: -3, nanos: 0 });
    assert_eq!(timestamp_from_epoch_offset(Err((1, 250_000_000))), Timestamp { secs: -2, nanos: 750_000_000 });
    assert_eq!(timestamp_from_epoch_offset(Ok((u64::MAX, 1))), Timestamp { secs: i64::MAX, nanos: 1 });
}
