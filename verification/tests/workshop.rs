use skill_workshop::aggregates::workshop::{Workshop, WorkshopImage};
use skill_workshop::clock::Timestamp;
use skill_workshop::error::DomainError;
use skill_workshop::events::DomainEvent;
use skill_workshop::value_objects::{CategoryId, LevelId, UserId, WorkshopId, WorkshopImageId};

fn make_workshop() -> Workshop {
    let (workshop, _) = Workshop::new(
        "Rust Basics".to_string(),
        "rust-basics".to_string(),
        5000,
        CategoryId::new(),
        LevelId::new(),
        UserId::new(),
    );
    workshop
}

#[test]
fn new_workshop_has_zero_enrollments() {
    let workshop = make_workshop();
    assert_eq!(workshop.current_enrollments(), 0);
}

#[test]
fn reserve_seat_increases_count() {
    let mut workshop = make_workshop();
    workshop.reserve_seat().unwrap();
    assert_eq!(workshop.current_enrollments(), 1);
}

#[test]
fn reserve_seat_on_full_workshop_fails() {
    let mut workshop = make_workshop();
    workshop.set_max_seats(Some(1));
    workshop.reserve_seat().unwrap();
    assert!(workshop.reserve_seat().is_err());
}

#[test]
fn release_seat_decreases_count() {
    let mut workshop = make_workshop();
    workshop.reserve_seat().unwrap();
    workshop.release_seat();
    assert_eq!(workshop.current_enrollments(), 0);
}

#[test]
fn available_seats_returns_difference() {
    let mut workshop = make_workshop();
    workshop.set_max_seats(Some(10));
    workshop.reserve_seat().unwrap();
    assert_eq!(workshop.available_seats(), Some(9));
}

#[test]
fn reserve_seat_on_unlimited_workshop_succeeds() {
    let mut workshop = make_workshop();
    workshop.set_max_seats(None);
    for _ in 0..100 {
        workshop.reserve_seat().unwrap();
    }
    assert_eq!(workshop.current_enrollments(), 100);
}

#[test]
fn reserve_seat_at_exact_capacity_fails() {
    let mut workshop = make_workshop();
    workshop.set_max_seats(Some(5));
    for _ in 0..5 {
        workshop.reserve_seat().unwrap();
    }
    assert!(workshop.reserve_seat().is_err());
}

#[test]
fn release_seat_below_zero_floors() {
    let mut workshop = make_workshop();
    workshop.release_seat();
    assert_eq!(workshop.current_enrollments(), 0);
}

#[test]
fn available_seats_none_for_unlimited() {
    let workshop = make_workshop();
    assert_eq!(workshop.available_seats(), None);
}

#[test]
fn available_seats_zero_when_full() {
    let mut workshop = make_workshop();
    workshop.set_max_seats(Some(3));
    for _ in 0..3 {
        workshop.reserve_seat().unwrap();
    }
    assert_eq!(workshop.available_seats(), Some(0));
}

#[test]
fn new_workshop_returns_created_event() {
    let (_, event) =
        Workshop::new("Test".to_string(), "test".to_string(), 1000, CategoryId::new(), LevelId::new(), UserId::new());
    assert!(matches!(event, DomainEvent::WorkshopCreated { .. }));
}

#[test]
fn full_workshop_reports_workshop_full_and_keeps_count() {
    let mut workshop = make_workshop();
    workshop.set_max_seats(Some(2));
    workshop.reserve_seat().unwrap();
    let event = workshop.reserve_seat().unwrap();
    assert!(matches!(event, DomainEvent::WorkshopUpdated { workshop_id } if workshop_id == workshop.id()));
    let err = workshop.reserve_seat().unwrap_err();
    assert_eq!(err, DomainError::WorkshopFull);
    assert_eq!(workshop.current_enrollments(), 2);
}

#[test]
fn release_undoes_reserve() {
    let mut workshop = make_workshop();
    workshop.set_max_seats(Some(4));
    workshop.reserve_seat().unwrap();
    let before = workshop.current_enrollments();
    workshop.reserve_seat().unwrap();
    workshop.release_seat();
    assert_eq!(workshop.current_enrollments(), before);
    assert_eq!(workshop.available_seats(), Some(3));
}

#[test]
fn available_seats_floors_at_zero_when_oversold() {
    let mut workshop = make_workshop();
    for _ in 0..5 {
        workshop.reserve_seat().unwrap();
    }
    workshop.set_max_seats(Some(2));
    assert_eq!(workshop.available_seats(), Some(0));
    assert!(workshop.reserve_seat().is_err());
}

#[test]
fn new_workshop_fields() {
    let category = CategoryId::new();
    let level = LevelId::new();
    let creator = UserId::new();
    let (w, _) = Workshop::new("T".to_string(), "t".to_string(), 250, category, level, creator);
    assert_eq!(w.title(), "T");
    assert_eq!(w.slug(), "t");
    assert_eq!(w.price_cents(), 250);
    assert_eq!(w.category_id(), category);
    assert_eq!(w.level_id(), level);
    assert_eq!(w.created_by(), creator);
    assert!(w.description().is_none());
    assert!(w.location().is_none());
    assert!(w.start_date().is_none());
    assert!(w.end_date().is_none());
    assert!(w.min_age().is_none());
    assert_eq!(w.created_at(), w.updated_at());
}

#[test]
fn workshop_setters_replace_fields() {
    let mut w = make_workshop();
    let t = Timestamp { secs: 100, nanos: 5 };
    w.set_title("New".to_string());
    w.set_slug("new".to_string());
    w.set_description(Some("D".to_string()));
    w.set_location(Some("L".to_string()));
    w.set_price_cents(1);
    w.set_start_date(Some(t));
    w.set_end_date(Some(t));
    w.set_min_age(Some(12));
    assert_eq!(w.title(), "New");
    assert_eq!(w.slug(), "new");
    assert_eq!(w.description(), Some("D"));
    assert_eq!(w.location(), Some("L"));
    assert_eq!(w.price_cents(), 1);
    assert_eq!(w.start_date(), Some(t));
    assert_eq!(w.end_date(), Some(t));
    assert_eq!(w.min_age(), Some(12));
}

#[test]
fn workshop_image_from_parts_keeps_fields() {
    let id = WorkshopImageId::new();
    let wid = WorkshopId::new();
    let t = Timestamp { secs: 1, nanos: 0 };
    let img = WorkshopImage::from_parts(id, wid, "http://x/y.png".to_string(), "y.png".to_string(), t);
    assert_eq!(img.id(), id);
    assert_eq!(img.workshop_id(), wid);
    assert_eq!(img.url(), "http://x/y.png");
    assert_eq!(img.s3_key(), "y.png");
    assert_eq!(img.created_at(), t);
}

#[test]
fn workshop_touch_sets_a_clock_time_and_keeps_other_fields() {
    let mut w = make_workshop();
    let stale = Timestamp { secs: 5, nanos: 0 };
    w.set_start_date(Some(stale));
    w.touch();
    assert!(w.updated_at().secs > 1_600_000_000);
    assert!(w.updated_at().nanos < 2_000_000_000);
    assert_eq!(w.title(), "Rust Basics");
    assert_eq!(w.start_date(), Some(stale));
}
