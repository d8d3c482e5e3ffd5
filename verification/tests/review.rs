use skill_workshop::aggregates::review::{Review, ReviewStatus};
use skill_workshop::error::DomainError;
use skill_workshop::events::DomainEvent;
use skill_workshop::value_objects::{UserId, WorkshopId};

fn make_review() -> Review {
    let (review, _) = Review::new(
        UserId::new(),
        WorkshopId::new(),
        5,
        "Great workshop".to_string(),
        "Really enjoyed it!".to_string(),
    )
    .unwrap();
    review
}

#[test]
fn new_review_is_pending() {
    let review = make_review();
    assert_eq!(review.status(), ReviewStatus::Pending);
}

#[test]
fn approve_pending_succeeds() {
    let mut review = make_review();
    review.approve().unwrap();
    assert_eq!(review.status(), ReviewStatus::Approved);
}

#[test]
fn reject_pending_succeeds() {
    let mut review = make_review();
    review.reject().unwrap();
    assert_eq!(review.status(), ReviewStatus::Rejected);
}

#[test]
fn approve_approved_fails() {
    let mut review = make_review();
    review.approve().unwrap();
    assert!(review.approve().is_err());
}

#[test]
fn invalid_rating_fails() {
    let result = Review::new(UserId::new(), WorkshopId::new(), 6, "Title".to_string(), "Content".to_string());
    assert!(result.is_err());
}

#[test]
fn title_too_long_fails() {
    let result = Review::new(UserId::new(), WorkshopId::new(), 5, "x".repeat(121), "Content".to_string());
    assert!(result.is_err());
}

#[test]
fn reject_approved_fails() {
    let mut review = make_review();
    review.approve().unwrap();
    assert!(review.reject().is_err());
}

#[test]
fn content_too_long_fails() {
    let result = Review::new(UserId::new(), WorkshopId::new(), 5, "Title".to_string(), "x".repeat(2001));
    assert!(result.is_err());
}

#[test]
fn rating_below_minimum_fails() {
    let result = Review::new(UserId::new(), WorkshopId::new(), 0, "Title".to_string(), "Content".to_string());
    assert!(result.is_err());
}

#[test]
fn new_review_returns_created_event() {
    let (_, event) =
        Review::new(UserId::new(), WorkshopId::new(), 4, "Nice".to_string(), "Good content".to_string()).unwrap();
    assert!(matches!(event, DomainEvent::ReviewCreated { .. }));
}

#[test]
fn approve_returns_moderated_event() {
    let mut review = make_review();
    let event = review.approve().unwrap();
    assert!(matches!(event, DomainEvent::ReviewModerated { to: "approved", .. }));
}

#[test]
fn reject_returns_moderated_event() {
    let mut review = make_review();
    let event = review.reject().unwrap();
    assert!(matches!(event, DomainEvent::ReviewModerated { to: "rejected", .. }));
}

#[test]
fn review_bounds_are_inclusive_and_checked_in_order() {
    assert!(Review::new(UserId::new(), WorkshopId::new(), 1, "x".repeat(120), "y".repeat(2000)).is_ok());
    let err = Review::new(UserId::new(), WorkshopId::new(), 9, "x".repeat(500), "y".repeat(5000)).unwrap_err();
    assert_eq!(err, DomainError::Validation("Rating must be between 1 and 5".to_string()));
    let err = Review::new(UserId::new(), WorkshopId::new(), 3, "x".repeat(121), "y".repeat(5000)).unwrap_err();
    assert_eq!(err, DomainError::Validation("Title must be 120 characters or less".to_string()));
    let err = Review::new(UserId::new(), WorkshopId::new(), 3, "t".to_string(), "y".repeat(2001)).unwrap_err();
    assert_eq!(err, DomainError::Validation("Content must be 2000 characters or less".to_string()));
}

#[test]
fn review_limits_count_characters() {
    // 120 two-byte characters are within the 120-character title limit.
    assert!(Review::new(UserId::new(), WorkshopId::new(), 3, "é".repeat(120), "c".to_string()).is_ok());
    assert!(Review::new(UserId::new(), WorkshopId::new(), 3, "é".repeat(121), "c".to_string()).is_err());
    assert!(Review::new(UserId::new(), WorkshopId::new(), 3, "t".to_string(), "ü".repeat(2000)).is_ok());
}

#[test]
fn rejected_review_refuses_approval() {
    let mut review = make_review();
    review.reject().unwrap();
    let err = review.approve().unwrap_err();
    assert_eq!(err, DomainError::InvalidStatusTransition("Cannot transition from 'rejected' to 'approved'".to_string()));
    assert_eq!(review.status(), ReviewStatus::Rejected);
}

#[test]
fn review_setters_replace_fields() {
    let mut review = make_review();
    review.set_rating(2);
    review.set_title("T".to_string());
    review.set_content("C".to_string());
    assert_eq!(review.rating(), 2);
    assert_eq!(review.title(), "T");
    assert_eq!(review.content(), "C");
}

#[test]
fn review_status_texts_round_trip() {
    for s in [ReviewStatus::Pending, ReviewStatus::Approved, ReviewStatus::Rejected] {
        assert_eq!(ReviewStatus::from_str(s.as_str()), Some(s));
    }
    assert_eq!(ReviewStatus::from_str("approve"), None);
}

#[test]
fn review_touch_sets_a_clock_time_and_keeps_other_fields() {
    let mut review = make_review();
    review.touch();
    assert!(review.updated_at().secs > 1_600_000_000);
    assert!(review.updated_at() >= review.created_at());
    assert_eq!(review.title(), "Great workshop");
    assert_eq!(review.status(), ReviewStatus::Pending);
}
