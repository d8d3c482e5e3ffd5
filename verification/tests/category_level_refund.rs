use skill_workshop::aggregates::category::Category;
use skill_workshop::aggregates::level::Level;
use skill_workshop::aggregates::refund_log::RefundLog;
use skill_workshop::events::DomainEvent;
use skill_workshop::value_objects::{PaymentId, RefundLogId};

fn make_category() -> Category {
    let (category, _) = Category::new("Programming".to_string(), "programming".to_string(), None, None);
    category
}

#[test]
fn new_category_has_defaults() {
    let category = make_category();
    assert_eq!(category.name(), "Programming");
    assert_eq!(category.slug(), "programming");
    assert!(category.description().is_none());
    assert!(category.thumbnail_url().is_none());
}

#[test]
fn update_changes_fields() {
    let mut category = make_category();
    category.update(Some("Coding".to_string()), Some("Coding courses".to_string()), None);
    assert_eq!(category.name(), "Coding");
    assert_eq!(category.description().unwrap(), "Coding courses");
}

#[test]
fn update_with_nothing_keeps_fields_and_reports_the_category() {
    let (mut category, created) = Category::new(
        "Design".to_string(),
        "design".to_string(),
        Some("UI".to_string()),
        Some("http://img".to_string()),
    );
    assert!(matches!(created, DomainEvent::CategoryCreated { category_id } if category_id == category.id()));
    let event = category.update(None, None, None);
    assert_eq!(category.name(), "Design");
    assert_eq!(category.description(), Some("UI"));
    assert_eq!(category.thumbnail_url(), Some("http://img"));
    assert!(matches!(event, DomainEvent::CategoryUpdated { category_id } if category_id == category.id()));
    assert!(category.updated_at() >= category.created_at());
}

#[test]
fn new_level_has_name() {
    let (level, _) = Level::new("Beginner".to_string());
    assert_eq!(level.name(), "Beginner");
}

#[test]
fn rename_updates_name() {
    let mut level = Level::new("Beginner".to_string()).0;
    level.rename("Advanced".to_string());
    assert_eq!(level.name(), "Advanced");
}

#[test]
fn rename_reports_level_updated() {
    let (mut level, created) = Level::new("Beginner".to_string());
    assert!(matches!(created, DomainEvent::LevelCreated { level_id } if level_id == level.id()));
    let event = level.rename("Expert".to_string());
    assert!(matches!(event, DomainEvent::LevelUpdated { level_id } if level_id == level.id()));
}

#[test]
fn new_refund_log_stores_fields() {
    let log = RefundLog::new(PaymentId::new(), 5000, "Customer request".to_string());
    assert_eq!(log.amount_cents(), 5000);
    assert_eq!(log.reason(), "Customer request");
}

#[test]
fn new_refund_log_has_id() {
    let log = RefundLog::new(PaymentId::new(), 1000, "refund".to_string());
    assert_ne!(log.id(), RefundLogId::default());
}

#[test]
fn refund_log_zero_amount() {
    let log = RefundLog::new(PaymentId::new(), 0, "test".to_string());
    assert_eq!(log.amount_cents(), 0);
}

#[test]
fn refund_log_keeps_payment() {
    let payment = PaymentId::new();
    let log = RefundLog::new(payment, 10, "x".to_string());
    assert_eq!(log.payment_id(), payment);
}
