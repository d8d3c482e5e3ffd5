use skill_workshop::aggregates::contact::Contact;
use skill_workshop::error::DomainError;
use skill_workshop::events::DomainEvent;
use skill_workshop::value_objects::Email;

#[test]
fn new_contact_unread() {
    let email = Email::new("user@example.com").unwrap();
    let (contact, _) =
        Contact::new("Alice".to_string(), email, "Question".to_string(), "Great workshop!".to_string()).unwrap();
    assert!(!contact.is_read());
}

#[test]
fn mark_read_sets_flag() {
    let email = Email::new("user@example.com").unwrap();
    let (mut contact, _) =
        Contact::new("Alice".to_string(), email, "Question".to_string(), "Great workshop!".to_string()).unwrap();
    contact.mark_read();
    assert!(contact.is_read());
}

#[test]
fn name_too_long_fails() {
    let email = Email::new("user@example.com").unwrap();
    let result = Contact::new("x".repeat(101), email, "Subject".to_string(), "Message".to_string());
    assert!(result.is_err());
}

#[test]
fn empty_name_fails() {
    let email = Email::new("user@example.com").unwrap();
    let result = Contact::new("".to_string(), email, "Subject".to_string(), "Message".to_string());
    assert!(result.is_err());
}

#[test]
fn subject_too_long_fails() {
    let email = Email::new("user@example.com").unwrap();
    let result = Contact::new("Alice".to_string(), email, "x".repeat(201), "Message".to_string());
    assert!(result.is_err());
}

#[test]
fn message_too_long_fails() {
    let email = Email::new("user@example.com").unwrap();
    let result = Contact::new("Alice".to_string(), email, "Subject".to_string(), "x".repeat(5001));
    assert!(result.is_err());
}

#[test]
fn contact_limits_are_inclusive() {
    let email = Email::new("user@example.com").unwrap();
    let result = Contact::new("x".repeat(100), email.clone(), "y".repeat(200), "z".repeat(5000));
    assert!(result.is_ok());
}

#[test]
fn contact_limits_count_characters() {
    // 100 two-byte characters are within the 100-character name limit.
    let email = Email::new("user@example.com").unwrap();
    assert!(Contact::new("é".repeat(100), email.clone(), "Subject".to_string(), "Message".to_string()).is_ok());
    assert!(Contact::new("é".repeat(101), email, "Subject".to_string(), "Message".to_string()).is_err());
}

#[test]
fn new_contact_keeps_fields_and_reports_creation() {
    let email = Email::new("User@Example.com").unwrap();
    let (contact, event) =
        Contact::new("Bob".to_string(), email, "Hi".to_string(), "Hello there".to_string()).unwrap();
    assert_eq!(contact.name(), "Bob");
    assert_eq!(contact.email().as_str(), "user@example.com");
    assert_eq!(contact.subject(), "Hi");
    assert_eq!(contact.message(), "Hello there");
    assert_eq!(contact.created_at(), contact.updated_at());
    assert!(matches!(event, DomainEvent::ContactCreated { contact_id } if contact_id == contact.id()));
}

#[test]
fn contact_errors_are_validation_errors() {
    let email = Email::new("user@example.com").unwrap();
    let result = Contact::new("".to_string(), email, "S".to_string(), "M".to_string());
    assert_eq!(result.unwrap_err(), DomainError::Validation("Name must be between 1 and 100 characters".to_string()));
    let email = Email::new("user@example.com").unwrap();
    let result = Contact::new("A".to_string(), email, "".to_string(), "M".to_string());
    assert_eq!(result.unwrap_err(), DomainError::Validation("Subject must be between 1 and 200 characters".to_string()));
    let email = Email::new("user@example.com").unwrap();
    let result = Contact::new("A".to_string(), email, "S".to_string(), "".to_string());
    assert_eq!(result.unwrap_err(), DomainError::Validation("Message must be between 1 and 5000 characters".to_string()));
}
