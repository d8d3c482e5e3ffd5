use skill_workshop::aggregates::enrollment::{Enrollment, EnrollmentStatus};
use skill_workshop::aggregates::payment::{Payment, PaymentStatus};
use skill_workshop::error::DomainError;
use skill_workshop::events::DomainEvent;
use skill_workshop::value_objects::{EnrollmentId, Money, PaymentId, UserId, WorkshopId};

fn make_enrollment() -> Enrollment {
    let (enrollment, _) = Enrollment::new(UserId::new(), WorkshopId::new(), 1);
    enrollment
}

#[test]
fn new_enrollment_is_pending() {
    let enrollment = make_enrollment();
    assert_eq!(enrollment.status(), EnrollmentStatus::Pending);
}

#[test]
fn complete_pending_succeeds() {
    let mut enrollment = make_enrollment();
    enrollment.complete().unwrap();
    assert_eq!(enrollment.status(), EnrollmentStatus::Complete);
}

#[test]
fn complete_cancelled_fails() {
    let mut enrollment = make_enrollment();
    enrollment.cancel().unwrap();
    assert!(enrollment.complete().is_err());
}

#[test]
fn cancel_pending_succeeds() {
    let mut enrollment = make_enrollment();
    enrollment.cancel().unwrap();
    assert_eq!(enrollment.status(), EnrollmentStatus::Cancelled);
}

#[test]
fn cancel_complete_fails() {
    let mut enrollment = make_enrollment();
    enrollment.complete().unwrap();
    assert!(enrollment.cancel().is_err());
}

#[test]
fn fail_pending_succeeds() {
    let mut enrollment = make_enrollment();
    enrollment.fail().unwrap();
    assert_eq!(enrollment.status(), EnrollmentStatus::Failed);
}

#[test]
fn cancel_refund_complete_succeeds() {
    let mut enrollment = make_enrollment();
    enrollment.complete().unwrap();
    enrollment.cancel_refund().unwrap();
    assert_eq!(enrollment.status(), EnrollmentStatus::Cancelled);
}

#[test]
fn cancel_refund_pending_fails() {
    let mut enrollment = make_enrollment();
    assert!(enrollment.cancel_refund().is_err());
}

#[test]
fn fail_twice_fails() {
    let mut enrollment = make_enrollment();
    enrollment.fail().unwrap();
    assert!(enrollment.fail().is_err());
}

#[test]
fn complete_already_complete_fails() {
    let mut enrollment = make_enrollment();
    enrollment.complete().unwrap();
    assert!(enrollment.complete().is_err());
}

#[test]
fn fail_cancelled_fails() {
    let mut enrollment = make_enrollment();
    enrollment.cancel().unwrap();
    assert!(enrollment.fail().is_err());
}

#[test]
fn fail_complete_fails() {
    let mut enrollment = make_enrollment();
    enrollment.complete().unwrap();
    assert!(enrollment.fail().is_err());
}

#[test]
fn new_enrollment_has_no_payment() {
    let enrollment = make_enrollment();
    assert!(enrollment.payment_id().is_none());
}

#[test]
fn new_enrollment_returns_created_event() {
    let (_, event) = Enrollment::new(UserId::new(), WorkshopId::new(), 1);
    assert!(matches!(event, DomainEvent::EnrollmentCreated { .. }));
}

#[test]
fn refused_enrollment_move_names_both_statuses_and_changes_nothing() {
    let mut enrollment = make_enrollment();
    enrollment.cancel().unwrap();
    let before = enrollment.updated_at();
    let err = enrollment.complete().unwrap_err();
    assert_eq!(
        err,
        DomainError::InvalidStatusTransition("Cannot transition from 'cancelled' to 'complete'".to_string())
    );
    assert_eq!(enrollment.status(), EnrollmentStatus::Cancelled);
    assert_eq!(enrollment.updated_at(), before);
}

#[test]
fn enrollment_status_change_event_names_the_move() {
    let mut enrollment = make_enrollment();
    let event = enrollment.complete().unwrap();
    match event {
        DomainEvent::EnrollmentStatusChanged { enrollment_id, from, to } => {
            assert_eq!(enrollment_id, enrollment.id());
            assert_eq!(from, "pending");
            assert_eq!(to, "complete");
        }
        _ => panic!("unexpected event"),
    }
}

#[test]
fn enrollment_status_texts_round_trip() {
    for s in [EnrollmentStatus::Pending, EnrollmentStatus::Complete, EnrollmentStatus::Cancelled, EnrollmentStatus::Failed] {
        assert_eq!(EnrollmentStatus::from_str(s.as_str()), Some(s));
    }
    assert_eq!(EnrollmentStatus::from_str("Pending"), None);
}

#[test]
fn set_payment_id_links_payment() {
    let mut enrollment = make_enrollment();
    let p = PaymentId::new();
    enrollment.set_payment_id(Some(p));
    assert_eq!(enrollment.payment_id(), Some(p));
}

fn make_payment() -> Payment {
    let (payment, _) = Payment::new(EnrollmentId::new(), "TXN_TEST".to_string(), Money::from_cents(5000));
    payment
}

#[test]
fn new_payment_is_unpaid() {
    let payment = make_payment();
    assert_eq!(payment.status, PaymentStatus::Unpaid);
}

#[test]
fn mark_paid_succeeds() {
    let mut payment = make_payment();
    payment.mark_paid(None).unwrap();
    assert_eq!(payment.status, PaymentStatus::Paid);
}

#[test]
fn mark_paid_twice_fails() {
    let mut payment = make_payment();
    payment.mark_paid(None).unwrap();
    assert!(payment.mark_paid(None).is_err());
}

#[test]
fn refund_paid_succeeds() {
    let mut payment = make_payment();
    payment.mark_paid(None).unwrap();
    payment.refund("Customer request".to_string()).unwrap();
    assert_eq!(payment.status, PaymentStatus::Refunded);
}

#[test]
fn refund_unpaid_fails() {
    let mut payment = make_payment();
    assert!(payment.refund("Test".to_string()).is_err());
}

#[test]
fn mark_failed_succeeds() {
    let mut payment = make_payment();
    payment.mark_failed().unwrap();
    assert_eq!(payment.status, PaymentStatus::Failed);
}

#[test]
fn mark_cancelled_succeeds() {
    let mut payment = make_payment();
    payment.mark_cancelled().unwrap();
    assert_eq!(payment.status, PaymentStatus::Cancelled);
}

#[test]
fn mark_paid_stores_gateway_data() {
    let mut payment = make_payment();
    payment.mark_paid(Some(serde_json::Value::String("raw".to_string()))).unwrap();
    assert_eq!(payment.payment_gateway_data, Some(serde_json::Value::String("raw".to_string())));
}

#[test]
fn refunded_payment_refuses_everything() {
    let mut payment = make_payment();
    payment.mark_paid(None).unwrap();
    payment.refund("r".to_string()).unwrap();
    assert!(payment.mark_failed().is_err());
    assert!(payment.mark_cancelled().is_err());
    assert!(payment.refund("again".to_string()).is_err());
    let err = payment.mark_paid(None).unwrap_err();
    assert_eq!(err, DomainError::InvalidStatusTransition("Cannot transition from 'refunded' to 'paid'".to_string()));
    assert_eq!(payment.status, PaymentStatus::Refunded);
}

#[test]
fn refund_event_carries_the_reason() {
    let mut payment = make_payment();
    payment.mark_paid(None).unwrap();
    match payment.refund("Customer request".to_string()).unwrap() {
        DomainEvent::PaymentRefunded { payment_id, reason } => {
            assert_eq!(payment_id, payment.id);
            assert_eq!(reason, "Customer request");
        }
        _ => panic!("unexpected event"),
    }
}

#[test]
fn payment_status_texts_round_trip() {
    for s in [PaymentStatus::Unpaid, PaymentStatus::Paid, PaymentStatus::Cancelled, PaymentStatus::Failed, PaymentStatus::Refunded] {
        assert_eq!(PaymentStatus::from_str(s.as_str()), Some(s));
    }
    assert_eq!(PaymentStatus::from_str("PAID"), None);
}
