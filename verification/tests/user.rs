use skill_workshop::aggregates::user::{User, UserRole, UserStatus};
use skill_workshop::error::DomainError;
use skill_workshop::events::DomainEvent;
use skill_workshop::value_objects::Email;

fn make_user() -> User {
    let email = Email::new("test@example.com").unwrap();
    let (user, _) = User::new(email, "Test User".to_string(), None);
    user
}

#[test]
fn new_user_is_unverified() {
    let user = make_user();
    assert!(!user.is_verified);
    assert_eq!(user.role, UserRole::Student);
    assert_eq!(user.status, UserStatus::Active);
}

#[test]
fn verify_user() {
    let mut user = make_user();
    let event = user.verify().unwrap();
    assert!(user.is_verified);
    assert!(matches!(event, DomainEvent::UserVerified { .. }));
}

#[test]
fn verify_twice_fails() {
    let mut user = make_user();
    user.verify().unwrap();
    assert!(user.verify().is_err());
}

#[test]
fn user_is_admin_returns_false_for_student() {
    let user = make_user();
    assert!(!user.is_admin());
}

#[test]
fn change_password_updates_hash() {
    let mut user = make_user();
    assert!(user.password_hash.is_none());
    let event = user.change_password("new_hash".to_string()).unwrap();
    assert_eq!(user.password_hash.as_deref(), Some("new_hash"));
    assert!(matches!(event, DomainEvent::PasswordChanged { .. }));
}

#[test]
fn change_password_to_same_hash_works() {
    let mut user = make_user();
    user.change_password("hash".to_string()).unwrap();
    user.change_password("hash".to_string()).unwrap();
    assert_eq!(user.password_hash.as_deref(), Some("hash"));
}

#[test]
fn update_profile_changes_name() {
    let mut user = make_user();
    user.update_profile(Some("New Name".to_string()), None, None, None, None, None);
    assert_eq!(user.name, "New Name");
}

#[test]
fn update_profile_with_none_keeps_name() {
    let mut user = make_user();
    let before = user.name.clone();
    user.update_profile(None, None, None, None, None, None);
    assert_eq!(user.name, before);
}

#[test]
fn update_profile_changes_all_fields() {
    let mut user = make_user();
    let event = user.update_profile(
        Some("New".to_string()),
        Some("555".to_string()),
        Some(30),
        Some("Addr".to_string()),
        Some("Expert".to_string()),
        Some("Bio".to_string()),
    );
    assert_eq!(user.name, "New");
    assert_eq!(user.phone.as_deref(), Some("555"));
    assert_eq!(user.age, Some(30));
    assert_eq!(user.address.as_deref(), Some("Addr"));
    assert_eq!(user.expertise.as_deref(), Some("Expert"));
    assert_eq!(user.bio.as_deref(), Some("Bio"));
    assert!(matches!(event, DomainEvent::UserUpdated { .. }));
}

#[test]
fn is_admin_true_for_admin() {
    let mut user = make_user();
    user.role = UserRole::Admin;
    assert!(user.is_admin());
}

#[test]
fn is_admin_true_for_super_admin() {
    let mut user = make_user();
    user.role = UserRole::SuperAdmin;
    assert!(user.is_admin());
}

#[test]
fn is_super_admin_false_for_admin() {
    let mut user = make_user();
    user.role = UserRole::Admin;
    assert!(!user.is_super_admin());
}

#[test]
fn is_super_admin_true_for_super_admin() {
    let mut user = make_user();
    user.role = UserRole::SuperAdmin;
    assert!(user.is_super_admin());
}

#[test]
fn can_manage_workshops_true_for_instructor() {
    let mut user = make_user();
    user.role = UserRole::Instructor;
    assert!(user.can_manage_workshops());
}

#[test]
fn can_manage_workshops_false_for_student() {
    let user = make_user();
    assert_eq!(user.role, UserRole::Student);
    assert!(!user.can_manage_workshops());
}

#[test]
fn role_as_str_and_from_str_round_trip() {
    for role in &[UserRole::SuperAdmin, UserRole::Admin, UserRole::Instructor, UserRole::Student] {
        let s = role.as_str();
        assert_eq!(UserRole::from_str(s), Some(*role));
    }
}

#[test]
fn status_as_str_and_from_str_round_trip() {
    for status in &[UserStatus::Active, UserStatus::Inactive, UserStatus::Blocked] {
        let s = status.as_str();
        assert_eq!(UserStatus::from_str(s), Some(*status));
    }
}

#[test]
fn role_from_str_invalid_returns_none() {
    assert_eq!(UserRole::from_str("unknown"), None);
}

#[test]
fn status_from_str_invalid_returns_none() {
    assert_eq!(UserStatus::from_str("unknown"), None);
}

#[test]
fn verify_twice_names_the_transition() {
    let mut user = make_user();
    user.verify().unwrap();
    let err = user.verify().unwrap_err();
    assert_eq!(err, DomainError::InvalidStatusTransition("Cannot transition from 'verified' to 'verified'".to_string()));
    assert!(user.is_verified);
}

#[test]
fn registration_event_carries_the_email() {
    let email = Email::new("  Reg@Example.COM ").unwrap();
    let (user, event) = User::new(email, "R".to_string(), Some("h".to_string()));
    match event {
        DomainEvent::UserRegistered { user_id, email } => {
            assert_eq!(user_id, user.id);
            assert_eq!(email.as_str(), "reg@example.com");
        }
        _ => panic!("unexpected event"),
    }
    assert_eq!(user.password_hash.as_deref(), Some("h"));
    assert_eq!(user.created_at, user.updated_at);
}

#[test]
fn role_texts() {
    assert_eq!(UserRole::SuperAdmin.as_str(), "super_admin");
    assert_eq!(UserRole::Instructor.as_str(), "instructor");
    assert_eq!(UserStatus::Blocked.as_str(), "blocked");
    assert!(!UserRole::Student.as_str().is_empty());
}
