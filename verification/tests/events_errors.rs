use skill_workshop::error::DomainError;
use skill_workshop::events::DomainEvent;
use skill_workshop::repositories::PlatformStats;
use skill_workshop::services::email_sender::EmailError;
use skill_workshop::services::PaymentGatewayError;
use skill_workshop::value_objects::{Email, PaymentId, ReviewId, UserId, WorkshopId};

#[test]
fn event_types_and_aggregates() {
    let user = UserId::from_uuid(7);
    let e = DomainEvent::UserRegistered { user_id: user, email: Email::new("a@b").unwrap() };
    assert_eq!(e.event_type(), "user.registered");
    assert_eq!(e.aggregate_type(), "User");
    assert_eq!(e.aggregate_id(), 7);

    let e = DomainEvent::PaymentStatusChanged { payment_id: PaymentId::from_uuid(9), from: "unpaid", to: "paid" };
    assert_eq!(e.event_type(), "payment.status_changed");
    assert_eq!(e.aggregate_type(), "Payment");
    assert_eq!(e.aggregate_id(), 9);

    let e = DomainEvent::ReviewModerated { review_id: ReviewId::from_uuid(3), from: "pending", to: "approved" };
    assert_eq!(e.event_type(), "review.moderated");
    assert_eq!(e.aggregate_type(), "Review");
    assert_eq!(e.aggregate_id(), 3);

    let e = DomainEvent::WorkshopDeleted { workshop_id: WorkshopId::from_uuid(11) };
    assert_eq!(e.event_type(), "workshop.deleted");
    assert_eq!(e.aggregate_type(), "Workshop");
    assert_eq!(e.aggregate_id(), 11);
}

#[test]
fn error_constructors_and_texts() {
    let e = DomainError::not_found("User", "42");
    assert_eq!(e, DomainError::NotFound("User with id '42' not found".to_string()));
    assert_eq!(e.to_string(), "Not found: User with id '42' not found");

    let e = DomainError::invalid_transition("paid", "unpaid");
    assert_eq!(e.to_string(), "Invalid status transition: Cannot transition from 'paid' to 'unpaid'");

    assert_eq!(DomainError::validation("bad").to_string(), "Validation error: bad");
    assert_eq!(DomainError::infrastructure("db down").to_string(), "Internal error: db down");
    assert_eq!(DomainError::RateLimitExceeded.to_string(), "Rate limit exceeded");
    assert_eq!(DomainError::WorkshopFull.to_string(), "Workshop is full");
    assert_eq!(
        DomainError::InsufficientSeats { requested: 3, available: 10 }.to_string(),
        "Not enough available seats: requested 3, available 10"
    );
    assert_eq!(DomainError::Conflict("v".to_string()).to_string(), "Conflict: v");
    assert_eq!(DomainError::Unauthorized("no".to_string()).to_string(), "Unauthorized: no");
}

#[test]
fn service_error_texts() {
    assert_eq!(EmailError::SendFailed("x".to_string()).to_string(), "Failed to send email: x");
    assert_eq!(EmailError::InvalidEmail("y".to_string()).to_string(), "Invalid email: y");
    assert_eq!(PaymentGatewayError::RequestFailed("t".to_string()).to_string(), "Gateway request failed: t");
    assert_eq!(
        PaymentGatewayError::ResponseParseFailed("p".to_string()).to_string(),
        "Gateway response parse failed: p"
    );
    assert_eq!(PaymentGatewayError::GatewayError("g".to_string()).to_string(), "Gateway returned error: g");
}

#[test]
fn platform_stats_hold_counts() {
    let s = PlatformStats { total_users: 1, total_workshops: 2, total_enrollments: 3, total_reviews: 4 };
    assert_eq!(s, s.clone());
    assert_eq!(s.total_enrollments, 3);
}

#[test]
fn event_types_start_with_their_aggregate_and_are_distinct() {
    let events = vec![
        DomainEvent::UserVerified { user_id: UserId::from_uuid(1) },
        DomainEvent::PasswordChanged { user_id: UserId::from_uuid(1) },
        DomainEvent::PaymentRefunded { payment_id: PaymentId::from_uuid(2), reason: "r".to_string() },
        DomainEvent::ReviewCreated { review_id: ReviewId::from_uuid(3) },
        DomainEvent::WorkshopUpdated { workshop_id: WorkshopId::from_uuid(4) },
    ];
    let mut seen = Vec::new();
    for e in &events {
        let prefix = format!("{}.", e.aggregate_type().to_lowercase());
        assert!(e.event_type().starts_with(&prefix));
        assert!(!seen.contains(&e.event_type()));
        seen.push(e.event_type());
    }
}
