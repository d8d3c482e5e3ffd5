//! Contact form submissions.
use crate::clock::{is_clock_time, now, Timestamp};
use crate::error::{DomainError, DomainErrorView};
use crate::events::DomainEvent;
use crate::value_objects::{ContactId, Email};
use crate::value_objects::uuid_text::uuid_version;
use vstd::prelude::*;

verus! {

/// Aggregate root for a contact form submission.
#[derive(Debug, Clone)]
pub struct Contact {
    pub(crate) id: ContactId,
    pub(crate) name: String,
    pub(crate) email: Email,
    pub(crate) subject: String,
    pub(crate) message: String,
    pub(crate) is_read: bool,
    pub(crate) created_at: Timestamp,
    pub(crate) updated_at: Timestamp,
}

/// Mathematical model of a [`Contact`].
pub struct ContactView {
    pub id: ContactId,
    pub name: Seq<char>,
    pub email: Email,
    pub subject: Seq<char>,
    pub message: Seq<char>,
    pub is_read: bool,
    pub created_at: Timestamp,
    pub updated_at: Timestamp,
}

impl View for Contact {
    type V = ContactView;

    closed spec fn view(&self) -> ContactView {
        ContactView {
            id: self.id,
            name: self.name@,
            email: self.email,
            subject: self.subject@,
            message: self.message@,
            is_read: self.is_read,
            created_at: self.created_at,
            updated_at: self.updated_at,
        }
    }
}

/// True when a text is non-empty and at most `max` characters long.
pub open spec fn length_within(t: Seq<char>, max: nat) -> bool {
    0 < t.len() <= max
}

/// The validation message for a submission, or `None` when it is accepted:
/// a name of 1 to 100 characters, a subject of 1 to 200 characters and a
/// message of 1 to 5000 characters, checked in that order.
pub open spec fn contact_problem(name: Seq<char>, subject: Seq<char>, message: Seq<char>) -> Option<Seq<char>> {
    if !length_within(name, 100) {
        Some("Name must be between 1 and 100 characters"@)
    } else if !length_within(subject, 200) {
        Some("Subject must be between 1 and 200 characters"@)
    } else if !length_within(message, 5000) {
        Some("Message must be between 1 and 5000 characters"@)
    } else {
        None
    }
}

impl Contact {
    /// Create a new contact form submission.
    ///
    /// Validates field length constraints and returns the contact record
    /// along with a `ContactCreated` domain event.
    pub fn new(name: String, email: Email, subject: String, message: String) -> (r: Result<(Self, DomainEvent), DomainError>)
        ensures
            contact_problem(name@, subject@, message@) matches Some(m) ==> (r matches Err(e) && e@
                == DomainErrorView::Validation(m)),
            contact_problem(name@, subject@, message@) is None ==> (r matches Ok(p) && {
                let v = p.0@;
                &&& uuid_version(v.id@) == 7
                &&& v.name == name@
                &&& v.email == email
                &&& v.subject == subject@
                &&& v.message == message@
                &&& !v.is_read
                &&& v.created_at == v.updated_at
                &&& is_clock_time(v.created_at)
                &&& p.1 == DomainEvent::ContactCreated { contact_id: v.id }
            }),
    {
        let name_len = name.as_str().unicode_len();
        if name_len == 0 || name_len > 100 {
            return Err(DomainError::validation("Name must be between 1 and 100 characters"));
        }
        let subject_len = subject.as_str().unicode_len();
        if subject_len == 0 || subject_len > 200 {
            return Err(DomainError::validation("Subject must be between 1 and 200 characters"));
        }
        let message_len = message.as_str().unicode_len();
        if message_len == 0 || message_len > 5000 {
            return Err(DomainError::validation("Message must be between 1 and 5000 characters"));
        }
        let now = now();
        let contact = Contact {
            id: ContactId::new(),
            name,
            email,
            subject,
            message,
            is_read: false,
            created_at: now,
            updated_at: now,
        };
        let event = DomainEvent::ContactCreated { contact_id: contact.id };
        Ok((contact, event))
    }

    /// Mark this contact submission as read.
    pub fn mark_read(&mut self)
        ensures
            final(self)@ == (ContactView { is_read: true, updated_at: final(self)@.updated_at, ..old(self)@ }),
            is_clock_time(final(self)@.updated_at),
    {
        self.is_read = true;
        self.updated_at = now();
    }

    /// Unique identifier for this contact record.
    pub fn id(&self) -> (r: ContactId)
        ensures
            r == self@.id,
    {
        self.id
    }

    /// The submitter's full name.
    pub fn name(&self) -> (r: &str)
        ensures
            r@ == self@.name,
    {
        self.name.as_str()
    }

    /// The submitter's email address.
    pub fn email(&self) -> (r: &Email)
        ensures
            *r == self@.email,
    {
        &self.email
    }

    /// Subject line.
    pub fn subject(&self) -> (r: &str)
        ensures
            r@ == self@.subject,
    {
        self.subject.as_str()
    }

    /// Message body.
    pub fn message(&self) -> (r: &str)
        ensures
            r@ == self@.message,
    {
        self.message.as_str()
    }

    /// Whether an admin has read this submission.
    pub fn is_read(&self) -> (r: bool)
        ensures
            r == self@.is_read,
    {
        self.is_read
    }

    /// Timestamp of creation.
    pub fn created_at(&self) -> (r: Timestamp)
        ensures
            r == self@.created_at,
    {
        self.created_at
    }

    /// Timestamp of the last update.
    pub fn updated_at(&self) -> (r: Timestamp)
        ensures
            r == self@.updated_at,
    {
        self.updated_at
    }

    /// Restore a contact from persisted data.
    pub fn from_parts(
        id: ContactId,
        name: String,
        email: Email,
        subject: String,
        message: String,
        is_read: bool,
        created_at: Timestamp,
        updated_at: Timestamp,
    ) -> (r: Self)
        ensures
            r@ == (ContactView {
                id,
                name: name@,
                email,
                subject: subject@,
                message: message@,
                is_read,
                created_at,
                updated_at,
            }),
    {
        Contact { id, name, email, subject, message, is_read, created_at, updated_at }
    }
}

} // verus!
