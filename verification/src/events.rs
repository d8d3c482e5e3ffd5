//! Events emitted by aggregate methods.
use crate::value_objects::{
    CategoryId, ContactId, Email, EnrollmentId, LevelId, PaymentId, ReviewId, UserId, WorkshopId,
};
use crate::text::ascii_lower;
use vstd::prelude::*;

verus! {

/// Events emitted by aggregate methods.
///
/// These are the single source of truth for all state changes and are used
/// to build the audit log.
#[derive(Debug, Clone)]
#[non_exhaustive]
pub enum DomainEvent {
    /// A new user registered.
    UserRegistered {
        /// The id of the registered user.
        user_id: UserId,
        /// The email address used at registration.
        email: Email,
    },
    /// A user's email was verified.
    UserVerified {
        /// The id of the verified user.
        user_id: UserId,
    },
    /// A user changed their password.
    PasswordChanged {
        /// The id of the user whose password changed.
        user_id: UserId,
    },
    /// A user's profile was updated.
    UserUpdated {
        /// The id of the updated user.
        user_id: UserId,
    },
    /// A user account was deleted.
    UserDeleted {
        /// The id of the deleted user.
        user_id: UserId,
    },
    /// A new category was created.
    CategoryCreated {
        /// The id of the created category.
        category_id: CategoryId,
    },
    /// A category's details were updated.
    CategoryUpdated {
        /// The id of the updated category.
        category_id: CategoryId,
    },
    /// A category was deleted.
    CategoryDeleted {
        /// The id of the deleted category.
        category_id: CategoryId,
    },
    /// A new level was created.
    LevelCreated {
        /// The id of the created level.
        level_id: LevelId,
    },
    /// A level was renamed.
    LevelUpdated {
        /// The id of the updated level.
        level_id: LevelId,
    },
    /// A level was deleted.
    LevelDeleted {
        /// The id of the deleted level.
        level_id: LevelId,
    },
    /// A new workshop was created.
    WorkshopCreated {
        /// The id of the created workshop.
        workshop_id: WorkshopId,
    },
    /// A workshop's details were updated.
    WorkshopUpdated {
        /// The id of the updated workshop.
        workshop_id: WorkshopId,
    },
    /// A workshop was deleted.
    WorkshopDeleted {
        /// The id of the deleted workshop.
        workshop_id: WorkshopId,
    },
    /// A new enrollment was created.
    EnrollmentCreated {
        /// The id of the created enrollment.
        enrollment_id: EnrollmentId,
    },
    /// An enrollment's status changed (e.g. pending to complete).
    EnrollmentStatusChanged {
        /// The id of the enrollment.
        enrollment_id: EnrollmentId,
        /// The previous status.
        from: &'static str,
        /// The new status.
        to: &'static str,
    },
    /// An enrollment was cancelled.
    EnrollmentCancelled {
        /// The id of the cancelled enrollment.
        enrollment_id: EnrollmentId,
    },
    /// A new payment was created.
    PaymentCreated {
        /// The id of the created payment.
        payment_id: PaymentId,
    },
    /// A payment's status changed (e.g. unpaid to paid).
    PaymentStatusChanged {
        /// The id of the payment.
        payment_id: PaymentId,
        /// The previous status.
        from: &'static str,
        /// The new status.
        to: &'static str,
    },
    /// A payment was refunded.
    PaymentRefunded {
        /// The id of the refunded payment.
        payment_id: PaymentId,
        /// The reason for the refund.
        reason: String,
    },
    /// A new review was created.
    ReviewCreated {
        /// The id of the created review.
        review_id: ReviewId,
    },
    /// A review was moderated (approved or rejected).
    ReviewModerated {
        /// The id of the moderated review.
        review_id: ReviewId,
        /// The previous moderation status.
        from: &'static str,
        /// The new moderation status.
        to: &'static str,
    },
    /// A new contact form submission was received.
    ContactCreated {
        /// The id of the created contact record.
        contact_id: ContactId,
    },
}

/// The dot-separated event type of an event (e.g. `user.registered`).
pub open spec fn event_type_text(e: DomainEvent) -> Seq<char> {
    match e {
        DomainEvent::UserRegistered { .. } => "user.registered"@,
        DomainEvent::UserVerified { .. } => "user.verified"@,
        DomainEvent::PasswordChanged { .. } => "user.password_changed"@,
        DomainEvent::UserUpdated { .. } => "user.updated"@,
        DomainEvent::UserDeleted { .. } => "user.deleted"@,
        DomainEvent::CategoryCreated { .. } => "category.created"@,
        DomainEvent::CategoryUpdated { .. } => "category.updated"@,
        DomainEvent::CategoryDeleted { .. } => "category.deleted"@,
        DomainEvent::LevelCreated { .. } => "level.created"@,
        DomainEvent::LevelUpdated { .. } => "level.updated"@,
        DomainEvent::LevelDeleted { .. } => "level.deleted"@,
        DomainEvent::WorkshopCreated { .. } => "workshop.created"@,
        DomainEvent::WorkshopUpdated { .. } => "workshop.updated"@,
        DomainEvent::WorkshopDeleted { .. } => "workshop.deleted"@,
        DomainEvent::EnrollmentCreated { .. } => "enrollment.created"@,
        DomainEvent::EnrollmentStatusChanged { .. } => "enrollment.status_changed"@,
        DomainEvent::EnrollmentCancelled { .. } => "enrollment.cancelled"@,
        DomainEvent::PaymentCreated { .. } => "payment.created"@,
        DomainEvent::PaymentStatusChanged { .. } => "payment.status_changed"@,
        DomainEvent::PaymentRefunded { .. } => "payment.refunded"@,
        DomainEvent::ReviewCreated { .. } => "review.created"@,
        DomainEvent::ReviewModerated { .. } => "review.moderated"@,
        DomainEvent::ContactCreated { .. } => "contact.created"@,
    }
}

/// The name of the aggregate type an event belongs to (e.g. `User`).
pub open spec fn aggregate_type_text(e: DomainEvent) -> Seq<char> {
    match e {
        DomainEvent::UserRegistered { .. }
        | DomainEvent::UserVerified { .. }
        | DomainEvent::PasswordChanged { .. }
        | DomainEvent::UserUpdated { .. }
        | DomainEvent::UserDeleted { .. } => "User"@,
        DomainEvent::CategoryCreated { .. }
        | DomainEvent::CategoryUpdated { .. }
        | DomainEvent::CategoryDeleted { .. } => "Category"@,
        DomainEvent::LevelCreated { .. }
        | DomainEvent::LevelUpdated { .. }
        | DomainEvent::LevelDeleted { .. } => "Level"@,
        DomainEvent::WorkshopCreated { .. }
        | DomainEvent::WorkshopUpdated { .. }
        | DomainEvent::WorkshopDeleted { .. } => "Workshop"@,
        DomainEvent::EnrollmentCreated { .. }
        | DomainEvent::EnrollmentStatusChanged { .. }
        | DomainEvent::EnrollmentCancelled { .. } => "Enrollment"@,
        DomainEvent::PaymentCreated { .. }
        | DomainEvent::PaymentStatusChanged { .. }
        | DomainEvent::PaymentRefunded { .. } => "Payment"@,
        DomainEvent::ReviewCreated { .. } | DomainEvent::ReviewModerated { .. } => "Review"@,
        DomainEvent::ContactCreated { .. } => "Contact"@,
    }
}

/// The id of the aggregate an event is about.
pub open spec fn event_aggregate_id(e: DomainEvent) -> u128 {
    match e {
        DomainEvent::UserRegistered { user_id, .. } => user_id@,
        DomainEvent::UserVerified { user_id } => user_id@,
        DomainEvent::PasswordChanged { user_id } => user_id@,
        DomainEvent::UserUpdated { user_id } => user_id@,
        DomainEvent::UserDeleted { user_id } => user_id@,
        DomainEvent::CategoryCreated { category_id } => category_id@,
        DomainEvent::CategoryUpdated { category_id } => category_id@,
        DomainEvent::CategoryDeleted { category_id } => category_id@,
        DomainEvent::LevelCreated { level_id } => level_id@,
        DomainEvent::LevelUpdated { level_id } => level_id@,
        DomainEvent::LevelDeleted { level_id } => level_id@,
        DomainEvent::WorkshopCreated { workshop_id } => workshop_id@,
        DomainEvent::WorkshopUpdated { workshop_id } => workshop_id@,
        DomainEvent::WorkshopDeleted { workshop_id } => workshop_id@,
        DomainEvent::EnrollmentCreated { enrollment_id } => enrollment_id@,
        DomainEvent::EnrollmentStatusChanged { enrollment_id, .. } => enrollment_id@,
        DomainEvent::EnrollmentCancelled { enrollment_id } => enrollment_id@,
        DomainEvent::PaymentCreated { payment_id } => payment_id@,
        DomainEvent::PaymentStatusChanged { payment_id, .. } => payment_id@,
        DomainEvent::PaymentRefunded { payment_id, .. } => payment_id@,
        DomainEvent::ReviewCreated { review_id } => review_id@,
        DomainEvent::ReviewModerated { review_id, .. } => review_id@,
        DomainEvent::ContactCreated { contact_id } => contact_id@,
    }
}

impl DomainEvent {
    /// Return the dot-separated event type string (e.g. `user.registered`).
    pub fn event_type(&self) -> (s: &'static str)
        ensures
            s@ == event_type_text(*self),
    {
        match self {
            DomainEvent::UserRegistered { .. } => "user.registered",
            DomainEvent::UserVerified { .. } => "user.verified",
            DomainEvent::PasswordChanged { .. } => "user.password_changed",
            DomainEvent::UserUpdated { .. } => "user.updated",
            DomainEvent::UserDeleted { .. } => "user.deleted",
            DomainEvent::CategoryCreated { .. } => "category.created",
            DomainEvent::CategoryUpdated { .. } => "category.updated",
            DomainEvent::CategoryDeleted { .. } => "category.deleted",
            DomainEvent::LevelCreated { .. } => "level.created",
            DomainEvent::LevelUpdated { .. } => "level.updated",
            DomainEvent::LevelDeleted { .. } => "level.deleted",
            DomainEvent::WorkshopCreated { .. } => "workshop.created",
            DomainEvent::WorkshopUpdated { .. } => "workshop.updated",
            DomainEvent::WorkshopDeleted { .. } => "workshop.deleted",
            DomainEvent::EnrollmentCreated { .. } => "enrollment.created",
            DomainEvent::EnrollmentStatusChanged { .. } => "enrollment.status_changed",
            DomainEvent::EnrollmentCancelled { .. } => "enrollment.cancelled",
            DomainEvent::PaymentCreated { .. } => "payment.created",
            DomainEvent::PaymentStatusChanged { .. } => "payment.status_changed",
            DomainEvent::PaymentRefunded { .. } => "payment.refunded",
            DomainEvent::ReviewCreated { .. } => "review.created",
            DomainEvent::ReviewModerated { .. } => "review.moderated",
            DomainEvent::ContactCreated { .. } => "contact.created",
        }
    }

    /// Return the aggregate type name this event belongs to (e.g. `User`).
    pub fn aggregate_type(&self) -> (s: &'static str)
        ensures
            s@ == aggregate_type_text(*self),
    {
        match self {
            DomainEvent::UserRegistered { .. }
            | DomainEvent::UserVerified { .. }
            | DomainEvent::PasswordChanged { .. }
            | DomainEvent::UserUpdated { .. }
            | DomainEvent::UserDeleted { .. } => "User",
            DomainEvent::CategoryCreated { .. }
            | DomainEvent::CategoryUpdated { .. }
            | DomainEvent::CategoryDeleted { .. } => "Category",
            DomainEvent::LevelCreated { .. }
            | DomainEvent::LevelUpdated { .. }
            | DomainEvent::LevelDeleted { .. } => "Level",
            DomainEvent::WorkshopCreated { .. }
            | DomainEvent::WorkshopUpdated { .. }
            | DomainEvent::WorkshopDeleted { .. } => "Workshop",
            DomainEvent::EnrollmentCreated { .. }
            | DomainEvent::EnrollmentStatusChanged { .. }
            | DomainEvent::EnrollmentCancelled { .. } => "Enrollment",
            DomainEvent::PaymentCreated { .. }
            | DomainEvent::PaymentStatusChanged { .. }
            | DomainEvent::PaymentRefunded { .. } => "Payment",
            DomainEvent::ReviewCreated { .. } | DomainEvent::ReviewModerated { .. } => "Review",
            DomainEvent::ContactCreated { .. } => "Contact",
        }
    }

    /// The value of the UUID of the aggregate this event is about (the key
    /// under which the audit log files it).
    pub fn aggregate_id(&self) -> (id: u128)
        ensures
            id == event_aggregate_id(*self),
    {
        match self {
            DomainEvent::UserRegistered { user_id, .. } => user_id.into_uuid(),
            DomainEvent::UserVerified { user_id } => user_id.into_uuid(),
            DomainEvent::PasswordChanged { user_id } => user_id.into_uuid(),
            DomainEvent::UserUpdated { user_id } => user_id.into_uuid(),
            DomainEvent::UserDeleted { user_id } => user_id.into_uuid(),
            DomainEvent::CategoryCreated { category_id } => category_id.into_uuid(),
            DomainEvent::CategoryUpdated { category_id } => category_id.into_uuid(),
            DomainEvent::CategoryDeleted { category_id } => category_id.into_uuid(),
            DomainEvent::LevelCreated { level_id } => level_id.into_uuid(),
            DomainEvent::LevelUpdated { level_id } => level_id.into_uuid(),
            DomainEvent::LevelDeleted { level_id } => level_id.into_uuid(),
            DomainEvent::WorkshopCreated { workshop_id } => workshop_id.into_uuid(),
            DomainEvent::WorkshopUpdated { workshop_id } => workshop_id.into_uuid(),
            DomainEvent::WorkshopDeleted { workshop_id } => workshop_id.into_uuid(),
            DomainEvent::EnrollmentCreated { enrollment_id } => enrollment_id.into_uuid(),
            DomainEvent::EnrollmentStatusChanged { enrollment_id, .. } => enrollment_id.into_uuid(),
            DomainEvent::EnrollmentCancelled { enrollment_id } => enrollment_id.into_uuid(),
            DomainEvent::PaymentCreated { payment_id } => payment_id.into_uuid(),
            DomainEvent::PaymentStatusChanged { payment_id, .. } => payment_id.into_uuid(),
            DomainEvent::PaymentRefunded { payment_id, .. } => payment_id.into_uuid(),
            DomainEvent::ReviewCreated { review_id } => review_id.into_uuid(),
            DomainEvent::ReviewModerated { review_id, .. } => review_id.into_uuid(),
            DomainEvent::ContactCreated { contact_id } => contact_id.into_uuid(),
        }
    }
}


/// The number of an event's kind, in the order the kinds are declared.
pub open spec fn event_kind(e: DomainEvent) -> nat {
    match e {
        DomainEvent::UserRegistered { .. } => 0,
        DomainEvent::UserVerified { .. } => 1,
        DomainEvent::PasswordChanged { .. } => 2,
        DomainEvent::UserUpdated { .. } => 3,
        DomainEvent::UserDeleted { .. } => 4,
        DomainEvent::CategoryCreated { .. } => 5,
        DomainEvent::CategoryUpdated { .. } => 6,
        DomainEvent::CategoryDeleted { .. } => 7,
        DomainEvent::LevelCreated { .. } => 8,
        DomainEvent::LevelUpdated { .. } => 9,
        DomainEvent::LevelDeleted { .. } => 10,
        DomainEvent::WorkshopCreated { .. } => 11,
        DomainEvent::WorkshopUpdated { .. } => 12,
        DomainEvent::WorkshopDeleted { .. } => 13,
        DomainEvent::EnrollmentCreated { .. } => 14,
        DomainEvent::EnrollmentStatusChanged { .. } => 15,
        DomainEvent::EnrollmentCancelled { .. } => 16,
        DomainEvent::PaymentCreated { .. } => 17,
        DomainEvent::PaymentStatusChanged { .. } => 18,
        DomainEvent::PaymentRefunded { .. } => 19,
        DomainEvent::ReviewCreated { .. } => 20,
        DomainEvent::ReviewModerated { .. } => 21,
        DomainEvent::ContactCreated { .. } => 22,
    }
}

/// The kind of event an event type text names, if any.
pub open spec fn event_kind_of_type(t: Seq<char>) -> Option<nat> {
    if t == "user.registered"@ {
        Some(0nat)
    } else if t == "user.verified"@ {
        Some(1nat)
    } else if t == "user.password_changed"@ {
        Some(2nat)
    } else if t == "user.updated"@ {
        Some(3nat)
    } else if t == "user.deleted"@ {
        Some(4nat)
    } else if t == "category.created"@ {
        Some(5nat)
    } else if t == "category.updated"@ {
        Some(6nat)
    } else if t == "category.deleted"@ {
        Some(7nat)
    } else if t == "level.created"@ {
        Some(8nat)
    } else if t == "level.updated"@ {
        Some(9nat)
    } else if t == "level.deleted"@ {
        Some(10nat)
    } else if t == "workshop.created"@ {
        Some(11nat)
    } else if t == "workshop.updated"@ {
        Some(12nat)
    } else if t == "workshop.deleted"@ {
        Some(13nat)
    } else if t == "enrollment.created"@ {
        Some(14nat)
    } else if t == "enrollment.status_changed"@ {
        Some(15nat)
    } else if t == "enrollment.cancelled"@ {
        Some(16nat)
    } else if t == "payment.created"@ {
        Some(17nat)
    } else if t == "payment.status_changed"@ {
        Some(18nat)
    } else if t == "payment.refunded"@ {
        Some(19nat)
    } else if t == "review.created"@ {
        Some(20nat)
    } else if t == "review.moderated"@ {
        Some(21nat)
    } else if t == "contact.created"@ {
        Some(22nat)
    } else {
        None
    }
}

/// An event's type text names its kind.
proof fn lemma_event_kind_of_type(e: DomainEvent)
    ensures
        event_kind_of_type(event_type_text(e)) == Some(event_kind(e)),
{
    match e {
        DomainEvent::UserRegistered { .. } => {
            reveal_strlit("user.registered");
        },
        DomainEvent::UserVerified { .. } => {
            reveal_strlit("user.verified");
            reveal_strlit("user.registered");
            assert("user.verified"@.len() != "user.registered"@.len());
        },
        DomainEvent::PasswordChanged { .. } => {
            reveal_strlit("user.password_changed");
            reveal_strlit("user.registered");
            assert("user.password_changed"@.len() != "user.registered"@.len());
            reveal_strlit("user.verified");
            assert("user.password_changed"@.len() != "user.verified"@.len());
        },
        DomainEvent::UserUpdated { .. } => {
            reveal_strlit("user.updated");
            reveal_strlit("user.registered");
            assert("user.updated"@.len() != "user.registered"@.len());
            reveal_strlit("user.verified");
            assert("user.updated"@.len() != "user.verified"@.len());
            reveal_strlit("user.password_changed");
            assert("user.updated"@.len() != "user.password_changed"@.len());
        },
        DomainEvent::UserDeleted { .. } => {
            reveal_strlit("user.deleted");
            reveal_strlit("user.registered");
            assert("user.deleted"@.len() != "user.registered"@.len());
            reveal_strlit("user.verified");
            assert("user.deleted"@.len() != "user.verified"@.len());
            reveal_strlit("user.password_changed");
            assert("user.deleted"@.len() != "user.password_changed"@.len());
            reveal_strlit("user.updated");
            assert("user.deleted"@[5] != "user.updated"@[5]);
        },
        DomainEvent::CategoryCreated { .. } => {
            reveal_strlit("category.created");
            reveal_strlit("user.registered");
            assert("category.created"@.len() != "user.registered"@.len());
            reveal_strlit("user.verified");
            assert("category.created"@.len() != "user.verified"@.len());
            reveal_strlit("user.password_changed");
            assert("category.created"@.len() != "user.password_changed"@.len());
            reveal_strlit("user.updated");
            assert("category.created"@.len() != "user.updated"@.len());
            reveal_strlit("user.deleted");
            assert("category.created"@.len() != "user.deleted"@.len());
        },
        DomainEvent::CategoryUpdated { .. } => {
            reveal_strlit("category.updated");
            reveal_strlit("user.registered");
            assert("category.updated"@.len() != "user.registered"@.len());
            reveal_strlit("user.verified");
            assert("category.updated"@.len() != "user.verified"@.len());
            reveal_strlit("user.password_changed");
            assert("category.updated"@.len() != "user.password_changed"@.len());
            reveal_strlit("user.updated");
            assert("category.updated"@.len() != "user.updated"@.len());
            reveal_strlit("user.deleted");
            assert("category.updated"@.len() != "user.deleted"@.len());
            reveal_strlit("category.created");
            assert("category.updated"@[9] != "category.created"@[9]);
        },
        DomainEvent::CategoryDeleted { .. } => {
            reveal_strlit("category.deleted");
            reveal_strlit("user.registered");
            assert("category.deleted"@.len() != "user.registered"@.len());
            reveal_strlit("user.verified");
            assert("category.deleted"@.len() != "user.verified"@.len());
            reveal_strlit("user.password_changed");
            assert("category.deleted"@.len() != "user.password_changed"@.len());
            reveal_strlit("user.updated");
            assert("category.deleted"@.len() != "user.updated"@.len());
            reveal_strlit("user.deleted");
            assert("category.deleted"@.len() != "user.deleted"@.len());
            reveal_strlit("category.created");
            assert("category.deleted"@[9] != "category.created"@[9]);
            reveal_strlit("category.updated");
            assert("category.deleted"@[9] != "category.updated"@[9]);
        },
        DomainEvent::LevelCreated { .. } => {
            reveal_strlit("level.created");
            reveal_strlit("user.registered");
            assert("level.created"@.len() != "user.registered"@.len());
            reveal_strlit("user.verified");
            assert("level.created"@[0] != "user.verified"@[0]);
            reveal_strlit("user.password_changed");
            assert("level.created"@.len() != "user.password_changed"@.len());
            reveal_strlit("user.updated");
            assert("level.created"@.len() != "user.updated"@.len());
            reveal_strlit("user.deleted");
            assert("level.created"@.len() != "user.deleted"@.len());
            reveal_strlit("category.created");
            assert("level.created"@.len() != "category.created"@.len());
            reveal_strlit("category.updated");
            assert("level.created"@.len() != "category.updated"@.len());
            reveal_strlit("category.deleted");
            assert("level.created"@.len() != "category.deleted"@.len());
        },
        DomainEvent::LevelUpdated { .. } => {
            reveal_strlit("level.updated");
            reveal_strlit("user.registered");
            assert("level.updated"@.len() != "user.registered"@.len());
            reveal_strlit("user.verified");
            assert("level.updated"@[0] != "user.verified"@[0]);
            reveal_strlit("user.password_changed");
            assert("level.updated"@.len() != "user.password_changed"@.len());
            reveal_strlit("user.updated");
            assert("level.updated"@.len() != "user.updated"@.len());
            reveal_strlit("user.deleted");
            assert("level.updated"@.len() != "user.deleted"@.len());
            reveal_strlit("category.created");
            assert("level.updated"@.len() != "category.created"@.len());
            reveal_strlit("category.updated");
            assert("level.updated"@.len() != "category.updated"@.len());
            reveal_strlit("category.deleted");
            assert("level.updated"@.len() != "category.deleted"@.len());
            reveal_strlit("level.created");
            assert("level.updated"@[6] != "level.created"@[6]);
        },
        DomainEvent::LevelDeleted { .. } => {
            reveal_strlit("level.deleted");
            reveal_strlit("user.registered");
            assert("level.deleted"@.len() != "user.registered"@.len());
            reveal_strlit("user.verified");
            assert("level.deleted"@[0] != "user.verified"@[0]);
            reveal_strlit("user.password_changed");
            assert("level.deleted"@.len() != "user.password_changed"@.len());
            reveal_strlit("user.updated");
            assert("level.deleted"@.len() != "user.updated"@.len());
            reveal_strlit("user.deleted");
            assert("level.deleted"@.len() != "user.deleted"@.len());
            reveal_strlit("category.created");
            assert("level.deleted"@.len() != "category.created"@.len());
            reveal_strlit("category.updated");
            assert("level.deleted"@.len() != "category.updated"@.len());
            reveal_strlit("category.deleted");
            assert("level.deleted"@.len() != "category.deleted"@.len());
            reveal_strlit("level.created");
            assert("level.deleted"@[6] != "level.created"@[6]);
            reveal_strlit("level.updated");
            assert("level.deleted"@[6] != "level.updated"@[6]);
        },
        DomainEvent::WorkshopCreated { .. } => {
            reveal_strlit("workshop.created");
            reveal_strlit("user.registered");
            assert("workshop.created"@.len() != "user.registered"@.len());
            reveal_strlit("user.verified");
            assert("workshop.created"@.len() != "user.verified"@.len());
            reveal_strlit("user.password_changed");
            assert("workshop.created"@.len() != "user.password_changed"@.len());
            reveal_strlit("user.updated");
            assert("workshop.created"@.len() != "user.updated"@.len());
            reveal_strlit("user.deleted");
            assert("workshop.created"@.len() != "user.deleted"@.len());
            reveal_strlit("category.created");
            assert("workshop.created"@[0] != "category.created"@[0]);
            reveal_strlit("category.updated");
            assert("workshop.created"@[0] != "category.updated"@[0]);
            reveal_strlit("category.deleted");
            assert("workshop.created"@[0] != "category.deleted"@[0]);
            reveal_strlit("level.created");
            assert("workshop.created"@.len() != "level.created"@.len());
            reveal_strlit("level.updated");
            assert("workshop.created"@.len() != "level.updated"@.len());
            reveal_strlit("level.deleted");
            assert("workshop.created"@.len() != "level.deleted"@.len());
        },
        DomainEvent::WorkshopUpdated { .. } => {
            reveal_strlit("workshop.updated");
            reveal_strlit("user.registered");
            assert("workshop.updated"@.len() != "user.registered"@.len());
            reveal_strlit("user.verified");
            assert("workshop.updated"@.len() != "user.verified"@.len());
            reveal_strlit("user.password_changed");
            assert("workshop.updated"@.len() != "user.password_changed"@.len());
            reveal_strlit("user.updated");
            assert("workshop.updated"@.len() != "user.updated"@.len());
            reveal_strlit("user.deleted");
            assert("workshop.updated"@.len() != "user.deleted"@.len());
            reveal_strlit("category.created");
            assert("workshop.updated"@[0] != "category.created"@[0]);
            reveal_strlit("category.updated");
            assert("workshop.updated"@[0] != "category.updated"@[0]);
            reveal_strlit("category.deleted");
            assert("workshop.updated"@[0] != "category.deleted"@[0]);
            reveal_strlit("level.created");
            assert("workshop.updated"@.len() != "level.created"@.len());
            reveal_strlit("level.updated");
            assert("workshop.updated"@.len() != "level.updated"@.len());
            reveal_strlit("level.deleted");
            assert("workshop.updated"@.len() != "level.deleted"@.len());
            reveal_strlit("workshop.created");
            assert("workshop.updated"@[9] != "workshop.created"@[9]);
        },
        DomainEvent::WorkshopDeleted { .. } => {
            reveal_strlit("workshop.deleted");
            reveal_strlit("user.registered");
            assert("workshop.deleted"@.len() != "user.registered"@.len());
            reveal_strlit("user.verified");
            assert("workshop.deleted"@.len() != "user.verified"@.len());
            reveal_strlit("user.password_changed");
            assert("workshop.deleted"@.len() != "user.password_changed"@.len());
            reveal_strlit("user.updated");
            assert("workshop.deleted"@.len() != "user.updated"@.len());
            reveal_strlit("user.deleted");
            assert("workshop.deleted"@.len() != "user.deleted"@.len());
            reveal_strlit("category.created");
            assert("workshop.deleted"@[0] != "category.created"@[0]);
            reveal_strlit("category.updated");
            assert("workshop.deleted"@[0] != "category.updated"@[0]);
            reveal_strlit("category.deleted");
            assert("workshop.deleted"@[0] != "category.deleted"@[0]);
            reveal_strlit("level.created");
            assert("workshop.deleted"@.len() != "level.created"@.len());
            reveal_strlit("level.updated");
            assert("workshop.deleted"@.len() != "level.updated"@.len());
            reveal_strlit("level.deleted");
            assert("workshop.deleted"@.len() != "level.deleted"@.len());
            reveal_strlit("workshop.created");
            assert("workshop.deleted"@[9] != "workshop.created"@[9]);
            reveal_strlit("workshop.updated");
            assert("workshop.deleted"@[9] != "workshop.updated"@[9]);
        },
        DomainEvent::EnrollmentCreated { .. } => {
            reveal_strlit("enrollment.created");
            reveal_strlit("user.registered");
            assert("enrollment.created"@.len() != "user.registered"@.len());
            reveal_strlit("user.verified");
            assert("enrollment.created"@.len() != "user.verified"@.len());
            reveal_strlit("user.password_changed");
            assert("enrollment.created"@.len() != "user.password_changed"@.len());
            reveal_strlit("user.updated");
            assert("enrollment.created"@.len() != "user.updated"@.len());
            reveal_strlit("user.deleted");
            assert("enrollment.created"@.len() != "user.deleted"@.len());
            reveal_strlit("category.created");
            assert("enrollment.created"@.len() != "category.created"@.len());
            reveal_strlit("category.updated");
            assert("enrollment.created"@.len() != "category.updated"@.len());
            reveal_strlit("category.deleted");
            assert("enrollment.created"@.len() != "category.deleted"@.len());
            reveal_strlit("level.created");
            assert("enrollment.created"@.len() != "level.created"@.len());
            reveal_strlit("level.updated");
            assert("enrollment.created"@.len() != "level.updated"@.len());
            reveal_strlit("level.deleted");
            assert("enrollment.created"@.len() != "level.deleted"@.len());
            reveal_strlit("workshop.created");
            assert("enrollment.created"@.len() != "workshop.created"@.len());
            reveal_strlit("workshop.updated");
            assert("enrollment.created"@.len() != "workshop.updated"@.len());
            reveal_strlit("workshop.deleted");
            assert("enrollment.created"@.len() != "workshop.deleted"@.len());
        },
        DomainEvent::EnrollmentStatusChanged { .. } => {
            reveal_strlit("enrollment.status_changed");
            reveal_strlit("user.registered");
            assert("enrollment.status_changed"@.len() != "user.registered"@.len());
            reveal_strlit("user.verified");
            assert("enrollment.status_changed"@.len() != "user.verified"@.len());
            reveal_strlit("user.password_changed");
            assert("enrollment.status_changed"@.len() != "user.password_changed"@.len());
            reveal_strlit("user.updated");
            assert("enrollment.status_changed"@.len() != "user.updated"@.len());
            reveal_strlit("user.deleted");
            assert("enrollment.status_changed"@.len() != "user.deleted"@.len());
            reveal_strlit("category.created");
            assert("enrollment.status_changed"@.len() != "category.created"@.len());
            reveal_strlit("category.updated");
            assert("enrollment.status_changed"@.len() != "category.updated"@.len());
            reveal_strlit("category.deleted");
            assert("enrollment.status_changed"@.len() != "category.deleted"@.len());
            reveal_strlit("level.created");
            assert("enrollment.status_changed"@.len() != "level.created"@.len());
            reveal_strlit("level.updated");
            assert("enrollment.status_changed"@.len() != "level.updated"@.len());
            reveal_strlit("level.deleted");
            assert("enrollment.status_changed"@.len() != "level.deleted"@.len());
            reveal_strlit("workshop.created");
            assert("enrollment.status_changed"@.len() != "workshop.created"@.len());
            reveal_strlit("workshop.updated");
            assert("enrollment.status_changed"@.len() != "workshop.updated"@.len());
            reveal_strlit("workshop.deleted");
            assert("enrollment.status_changed"@.len() != "workshop.deleted"@.len());
            reveal_strlit("enrollment.created");
            assert("enrollment.status_changed"@.len() != "enrollment.created"@.len());
        },
        DomainEvent::EnrollmentCancelled { .. } => {
            reveal_strlit("enrollment.cancelled");
            reveal_strlit("user.registered");
            assert("enrollment.cancelled"@.len() != "user.registered"@.len());
            reveal_strlit("user.verified");
            assert("enrollment.cancelled"@.len() != "user.verified"@.len());
            reveal_strlit("user.password_changed");
            assert("enrollment.cancelled"@.len() != "user.password_changed"@.len());
            reveal_strlit("user.updated");
            assert("enrollment.cancelled"@.len() != "user.updated"@.len());
            reveal_strlit("user.deleted");
            assert("enrollment.cancelled"@.len() != "user.deleted"@.len());
            reveal_strlit("category.created");
            assert("enrollment.cancelled"@.len() != "category.created"@.len());
            reveal_strlit("category.updated");
            assert("enrollment.cancelled"@.len() != "category.updated"@.len());
            reveal_strlit("category.deleted");
            assert("enrollment.cancelled"@.len() != "category.deleted"@.len());
            reveal_strlit("level.created");
            assert("enrollment.cancelled"@.len() != "level.created"@.len());
            reveal_strlit("level.updated");
            assert("enrollment.cancelled"@.len() != "level.updated"@.len());
            reveal_strlit("level.deleted");
            assert("enrollment.cancelled"@.len() != "level.deleted"@.len());
            reveal_strlit("workshop.created");
            assert("enrollment.cancelled"@.len() != "workshop.created"@.len());
            reveal_strlit("workshop.updated");
            assert("enrollment.cancelled"@.len() != "workshop.updated"@.len());
            reveal_strlit("workshop.deleted");
            assert("enrollment.cancelled"@.len() != "workshop.deleted"@.len());
            reveal_strlit("enrollment.created");
            assert("enrollment.cancelled"@.len() != "enrollment.created"@.len());
            reveal_strlit("enrollment.status_changed");
            assert("enrollment.cancelled"@.len() != "enrollment.status_changed"@.len());
        },
        DomainEvent::PaymentCreated { .. } => {
            reveal_strlit("payment.created");
            reveal_strlit("user.registered");
            assert("payment.created"@[0] != "user.registered"@[0]);
            reveal_strlit("user.verified");
            assert("payment.created"@.len() != "user.verified"@.len());
            reveal_strlit("user.password_changed");
            assert("payment.created"@.len() != "user.password_changed"@.len());
            reveal_strlit("user.updated");
            assert("payment.created"@.len() != "user.updated"@.len());
            reveal_strlit("user.deleted");
            assert("payment.created"@.len() != "user.deleted"@.len());
            reveal_strlit("category.created");
            assert("payment.created"@.len() != "category.created"@.len());
            reveal_strlit("category.updated");
            assert("payment.created"@.len() != "category.updated"@.len());
            reveal_strlit("category.deleted");
            assert("payment.created"@.len() != "category.deleted"@.len());
            reveal_strlit("level.created");
            assert("payment.created"@.len() != "level.created"@.len());
            reveal_strlit("level.updated");
            assert("payment.created"@.len() != "level.updated"@.len());
            reveal_strlit("level.deleted");
            assert("payment.created"@.len() != "level.deleted"@.len());
            reveal_strlit("workshop.created");
            assert("payment.created"@.len() != "workshop.created"@.len());
            reveal_strlit("workshop.updated");
            assert("payment.created"@.len() != "workshop.updated"@.len());
            reveal_strlit("workshop.deleted");
            assert("payment.created"@.len() != "workshop.deleted"@.len());
            reveal_strlit("enrollment.created");
            assert("payment.created"@.len() != "enrollment.created"@.len());
            reveal_strlit("enrollment.status_changed");
            assert("payment.created"@.len() != "enrollment.status_changed"@.len());
            reveal_strlit("enrollment.cancelled");
            assert("payment.created"@.len() != "enrollment.cancelled"@.len());
        },
        DomainEvent::PaymentStatusChanged { .. } => {
            reveal_strlit("payment.status_changed");
            reveal_strlit("user.registered");
            assert("payment.status_changed"@.len() != "user.registered"@.len());
            reveal_strlit("user.verified");
            assert("payment.status_changed"@.len() != "user.verified"@.len());
            reveal_strlit("user.password_changed");
            assert("payment.status_changed"@.len() != "user.password_changed"@.len());
            reveal_strlit("user.updated");
            assert("payment.status_changed"@.len() != "user.updated"@.len());
            reveal_strlit("user.deleted");
            assert("payment.status_changed"@.len() != "user.deleted"@.len());
            reveal_strlit("category.created");
            assert("payment.status_changed"@.len() != "category.created"@.len());
            reveal_strlit("category.updated");
            assert("payment.status_changed"@.len() != "category.updated"@.len());
            reveal_strlit("category.deleted");
            assert("payment.status_changed"@.len() != "category.deleted"@.len());
            reveal_strlit("level.created");
            assert("payment.status_changed"@.len() != "level.created"@.len());
            reveal_strlit("level.updated");
            assert("payment.status_changed"@.len() != "level.updated"@.len());
            reveal_strlit("level.deleted");
            assert("payment.status_changed"@.len() != "level.deleted"@.len());
            reveal_strlit("workshop.created");
            assert("payment.status_changed"@.len() != "workshop.created"@.len());
            reveal_strlit("workshop.updated");
            assert("payment.status_changed"@.len() != "workshop.updated"@.len());
            reveal_strlit("workshop.deleted");
            assert("payment.status_changed"@.len() != "workshop.deleted"@.len());
            reveal_strlit("enrollment.created");
            assert("payment.status_changed"@.len() != "enrollment.created"@.len());
            reveal_strlit("enrollment.status_changed");
            assert("payment.status_changed"@.len() != "enrollment.status_changed"@.len());
            reveal_strlit("enrollment.cancelled");
            assert("payment.status_changed"@.len() != "enrollment.cancelled"@.len());
            reveal_strlit("payment.created");
            assert("payment.status_changed"@.len() != "payment.created"@.len());
        },
        DomainEvent::PaymentRefunded { .. } => {
            reveal_strlit("payment.refunded");
            reveal_strlit("user.registered");
            assert("payment.refunded"@.len() != "user.registered"@.len());
            reveal_strlit("user.verified");
            assert("payment.refunded"@.len() != "user.verified"@.len());
            reveal_strlit("user.password_changed");
            assert("payment.refunded"@.len() != "user.password_changed"@.len());
            reveal_strlit("user.updated");
            assert("payment.refunded"@.len() != "user.updated"@.len());
            reveal_strlit("user.deleted");
            assert("payment.refunded"@.len() != "user.deleted"@.len());
            reveal_strlit("category.created");
            assert("payment.refunded"@[0] != "category.created"@[0]);
            reveal_strlit("category.updated");
            assert("payment.refunded"@[0] != "category.updated"@[0]);
            reveal_strlit("category.deleted");
            assert("payment.refunded"@[0] != "category.deleted"@[0]);
            reveal_strlit("level.created");
            assert("payment.refunded"@.len() != "level.created"@.len());
            reveal_strlit("level.updated");
            assert("payment.refunded"@.len() != "level.updated"@.len());
            reveal_strlit("level.deleted");
            assert("payment.refunded"@.len() != "level.deleted"@.len());
            reveal_strlit("workshop.created");
            assert("payment.refunded"@[0] != "workshop.created"@[0]);
            reveal_strlit("workshop.updated");
            assert("payment.refunded"@[0] != "workshop.updated"@[0]);
            reveal_strlit("workshop.deleted");
            assert("payment.refunded"@[0] != "workshop.deleted"@[0]);
            reveal_strlit("enrollment.created");
            assert("payment.refunded"@.len() != "enrollment.created"@.len());
            reveal_strlit("enrollment.status_changed");
            assert("payment.refunded"@.len() != "enrollment.status_changed"@.len());
            reveal_strlit("enrollment.cancelled");
            assert("payment.refunded"@.len() != "enrollment.cancelled"@.len());
            reveal_strlit("payment.created");
            assert("payment.refunded"@.len() != "payment.created"@.len());
            reveal_strlit("payment.status_changed");
            assert("payment.refunded"@.len() != "payment.status_changed"@.len());
        },
        DomainEvent::ReviewCreated { .. } => {
            reveal_strlit("review.created");
            reveal_strlit("user.registered");
            assert("review.created"@.len() != "user.registered"@.len());
            reveal_strlit("user.verified");
            assert("review.created"@.len() != "user.verified"@.len());
            reveal_strlit("user.password_changed");
            assert("review.created"@.len() != "user.password_changed"@.len());
            reveal_strlit("user.updated");
            assert("review.created"@.len() != "user.updated"@.len());
            reveal_strlit("user.deleted");
            assert("review.created"@.len() != "user.deleted"@.len());
            reveal_strlit("category.created");
            assert("review.created"@.len() != "category.created"@.len());
            reveal_strlit("category.updated");
            assert("review.created"@.len() != "category.updated"@.len());
            reveal_strlit("category.deleted");
            assert("review.created"@.len() != "category.deleted"@.len());
            reveal_strlit("level.created");
            assert("review.created"@.len() != "level.created"@.len());
            reveal_strlit("level.updated");
            assert("review.created"@.len() != "level.updated"@.len());
            reveal_strlit("level.deleted");
            assert("review.created"@.len() != "level.deleted"@.len());
            reveal_strlit("workshop.created");
            assert("review.created"@.len() != "workshop.created"@.len());
            reveal_strlit("workshop.updated");
            assert("review.created"@.len() != "workshop.updated"@.len());
            reveal_strlit("workshop.deleted");
            assert("review.created"@.len() != "workshop.deleted"@.len());
            reveal_strlit("enrollment.created");
            assert("review.created"@.len() != "enrollment.created"@.len());
            reveal_strlit("enrollment.status_changed");
            assert("review.created"@.len() != "enrollment.status_changed"@.len());
            reveal_strlit("enrollment.cancelled");
            assert("review.created"@.len() != "enrollment.cancelled"@.len());
            reveal_strlit("payment.created");
            assert("review.created"@.len() != "payment.created"@.len());
            reveal_strlit("payment.status_changed");
            assert("review.created"@.len() != "payment.status_changed"@.len());
            reveal_strlit("payment.refunded");
            assert("review.created"@.len() != "payment.refunded"@.len());
        },
        DomainEvent::ReviewModerated { .. } => {
            reveal_strlit("review.moderated");
            reveal_strlit("user.registered");
            assert("review.moderated"@.len() != "user.registered"@.len());
            reveal_strlit("user.verified");
            assert("review.moderated"@.len() != "user.verified"@.len());
            reveal_strlit("user.password_changed");
            assert("review.moderated"@.len() != "user.password_changed"@.len());
            reveal_strlit("user.updated");
            assert("review.moderated"@.len() != "user.updated"@.len());
            reveal_strlit("user.deleted");
            assert("review.moderated"@.len() != "user.deleted"@.len());
            reveal_strlit("category.created");
            assert("review.moderated"@[0] != "category.created"@[0]);
            reveal_strlit("category.updated");
            assert("review.moderated"@[0] != "category.updated"@[0]);
            reveal_strlit("category.deleted");
            assert("review.moderated"@[0] != "category.deleted"@[0]);
            reveal_strlit("level.created");
            assert("review.moderated"@.len() != "level.created"@.len());
            reveal_strlit("level.updated");
            assert("review.moderated"@.len() != "level.updated"@.len());
            reveal_strlit("level.deleted");
            assert("review.moderated"@.len() != "level.deleted"@.len());
            reveal_strlit("workshop.created");
            assert("review.moderated"@[0] != "workshop.created"@[0]);
            reveal_strlit("workshop.updated");
            assert("review.moderated"@[0] != "workshop.updated"@[0]);
            reveal_strlit("workshop.deleted");
            assert("review.moderated"@[0] != "workshop.deleted"@[0]);
            reveal_strlit("enrollment.created");
            assert("review.moderated"@.len() != "enrollment.created"@.len());
            reveal_strlit("enrollment.status_changed");
            assert("review.moderated"@.len() != "enrollment.status_changed"@.len());
            reveal_strlit("enrollment.cancelled");
            assert("review.moderated"@.len() != "enrollment.cancelled"@.len());
            reveal_strlit("payment.created");
            assert("review.moderated"@.len() != "payment.created"@.len());
            reveal_strlit("payment.status_changed");
            assert("review.moderated"@.len() != "payment.status_changed"@.len());
            reveal_strlit("payment.refunded");
            assert("review.moderated"@[0] != "payment.refunded"@[0]);
            reveal_strlit("review.created");
            assert("review.moderated"@.len() != "review.created"@.len());
        },
        DomainEvent::ContactCreated { .. } => {
            reveal_strlit("contact.created");
            reveal_strlit("user.registered");
            assert("contact.created"@[0] != "user.registered"@[0]);
            reveal_strlit("user.verified");
            assert("contact.created"@.len() != "user.verified"@.len());
            reveal_strlit("user.password_changed");
            assert("contact.created"@.len() != "user.password_changed"@.len());
            reveal_strlit("user.updated");
            assert("contact.created"@.len() != "user.updated"@.len());
            reveal_strlit("user.deleted");
            assert("contact.created"@.len() != "user.deleted"@.len());
            reveal_strlit("category.created");
            assert("contact.created"@.len() != "category.created"@.len());
            reveal_strlit("category.updated");
            assert("contact.created"@.len() != "category.updated"@.len());
            reveal_strlit("category.deleted");
            assert("contact.created"@.len() != "category.deleted"@.len());
            reveal_strlit("level.created");
            assert("contact.created"@.len() != "level.created"@.len());
            reveal_strlit("level.updated");
            assert("contact.created"@.len() != "level.updated"@.len());
            reveal_strlit("level.deleted");
            assert("contact.created"@.len() != "level.deleted"@.len());
            reveal_strlit("workshop.created");
            assert("contact.created"@.len() != "workshop.created"@.len());
            reveal_strlit("workshop.updated");
            assert("contact.created"@.len() != "workshop.updated"@.len());
            reveal_strlit("workshop.deleted");
            assert("contact.created"@.len() != "workshop.deleted"@.len());
            reveal_strlit("enrollment.created");
            assert("contact.created"@.len() != "enrollment.created"@.len());
            reveal_strlit("enrollment.status_changed");
            assert("contact.created"@.len() != "enrollment.status_changed"@.len());
            reveal_strlit("enrollment.cancelled");
            assert("contact.created"@.len() != "enrollment.cancelled"@.len());
            reveal_strlit("payment.created");
            assert("contact.created"@[0] != "payment.created"@[0]);
            reveal_strlit("payment.status_changed");
            assert("contact.created"@.len() != "payment.status_changed"@.len());
            reveal_strlit("payment.refunded");
            assert("contact.created"@.len() != "payment.refunded"@.len());
            reveal_strlit("review.created");
            assert("contact.created"@.len() != "review.created"@.len());
            reveal_strlit("review.moderated");
            assert("contact.created"@.len() != "review.moderated"@.len());
        },
    }
}

/// An event's type text names its kind, so distinct kinds of event have
/// distinct type texts.
pub proof fn lemma_event_type_names_the_kind(e: DomainEvent, f: DomainEvent)
    ensures
        event_kind_of_type(event_type_text(e)) == Some(event_kind(e)),
        event_type_text(e) == event_type_text(f) ==> event_kind(e) == event_kind(f),
{
    lemma_event_kind_of_type(e);
    lemma_event_kind_of_type(f);
}

/// An event's type text starts with its aggregate type in lower case and a
/// dot (the aggregate type names are ASCII).
pub proof fn lemma_event_type_starts_with_aggregate(e: DomainEvent)
    ensures
        event_type_text(e).len() > aggregate_type_text(e).len(),
        event_type_text(e).subrange(0, aggregate_type_text(e).len() as int + 1) == ascii_lower(aggregate_type_text(e)) + seq!['.'],
{
    match e {
        DomainEvent::UserRegistered { .. } => {
            reveal_strlit("user.registered");
            reveal_strlit("User");
            assert(event_type_text(e).subrange(0, 5) =~= ascii_lower(aggregate_type_text(e)) + seq!['.']);
        },
        DomainEvent::UserVerified { .. } => {
            reveal_strlit("user.verified");
            reveal_strlit("User");
            assert(event_type_text(e).subrange(0, 5) =~= ascii_lower(aggregate_type_text(e)) + seq!['.']);
        },
        DomainEvent::PasswordChanged { .. } => {
            reveal_strlit("user.password_changed");
            reveal_strlit("User");
            assert(event_type_text(e).subrange(0, 5) =~= ascii_lower(aggregate_type_text(e)) + seq!['.']);
        },
        DomainEvent::UserUpdated { .. } => {
            reveal_strlit("user.updated");
            reveal_strlit("User");
            assert(event_type_text(e).subrange(0, 5) =~= ascii_lower(aggregate_type_text(e)) + seq!['.']);
        },
        DomainEvent::UserDeleted { .. } => {
            reveal_strlit("user.deleted");
            reveal_strlit("User");
            assert(event_type_text(e).subrange(0, 5) =~= ascii_lower(aggregate_type_text(e)) + seq!['.']);
        },
        DomainEvent::CategoryCreated { .. } => {
            reveal_strlit("category.created");
            reveal_strlit("Category");
            assert(event_type_text(e).subrange(0, 9) =~= ascii_lower(aggregate_type_text(e)) + seq!['.']);
        },
        DomainEvent::CategoryUpdated { .. } => {
            reveal_strlit("category.updated");
            reveal_strlit("Category");
            assert(event_type_text(e).subrange(0, 9) =~= ascii_lower(aggregate_type_text(e)) + seq!['.']);
        },
        DomainEvent::CategoryDeleted { .. } => {
            reveal_strlit("category.deleted");
            reveal_strlit("Category");
            assert(event_type_text(e).subrange(0, 9) =~= ascii_lower(aggregate_type_text(e)) + seq!['.']);
        },
        DomainEvent::LevelCreated { .. } => {
            reveal_strlit("level.created");
            reveal_strlit("Level");
            assert(event_type_text(e).subrange(0, 6) =~= ascii_lower(aggregate_type_text(e)) + seq!['.']);
        },
        DomainEvent::LevelUpdated { .. } => {
            reveal_strlit("level.updated");
            reveal_strlit("Level");
            assert(event_type_text(e).subrange(0, 6) =~= ascii_lower(aggregate_type_text(e)) + seq!['.']);
        },
        DomainEvent::LevelDeleted { .. } => {
            reveal_strlit("level.deleted");
            reveal_strlit("Level");
            assert(event_type_text(e).subrange(0, 6) =~= ascii_lower(aggregate_type_text(e)) + seq!['.']);
        },
        DomainEvent::WorkshopCreated { .. } => {
            reveal_strlit("workshop.created");
            reveal_strlit("Workshop");
            assert(event_type_text(e).subrange(0, 9) =~= ascii_lower(aggregate_type_text(e)) + seq!['.']);
        },
        DomainEvent::WorkshopUpdated { .. } => {
            reveal_strlit("workshop.updated");
            reveal_strlit("Workshop");
            assert(event_type_text(e).subrange(0, 9) =~= ascii_lower(aggregate_type_text(e)) + seq!['.']);
        },
        DomainEvent::WorkshopDeleted { .. } => {
            reveal_strlit("workshop.deleted");
            reveal_strlit("Workshop");
            assert(event_type_text(e).subrange(0, 9) =~= ascii_lower(aggregate_type_text(e)) + seq!['.']);
        },
        DomainEvent::EnrollmentCreated { .. } => {
            reveal_strlit("enrollment.created");
            reveal_strlit("Enrollment");
            assert(event_type_text(e).subrange(0, 11) =~= ascii_lower(aggregate_type_text(e)) + seq!['.']);
        },
        DomainEvent::EnrollmentStatusChanged { .. } => {
            reveal_strlit("enrollment.status_changed");
            reveal_strlit("Enrollment");
            assert(event_type_text(e).subrange(0, 11) =~= ascii_lower(aggregate_type_text(e)) + seq!['.']);
        },
        DomainEvent::EnrollmentCancelled { .. } => {
            reveal_strlit("enrollment.cancelled");
            reveal_strlit("Enrollment");
            assert(event_type_text(e).subrange(0, 11) =~= ascii_lower(aggregate_type_text(e)) + seq!['.']);
        },
        DomainEvent::PaymentCreated { .. } => {
            reveal_strlit("payment.created");
            reveal_strlit("Payment");
            assert(event_type_text(e).subrange(0, 8) =~= ascii_lower(aggregate_type_text(e)) + seq!['.']);
        },
        DomainEvent::PaymentStatusChanged { .. } => {
            reveal_strlit("payment.status_changed");
            reveal_strlit("Payment");
            assert(event_type_text(e).subrange(0, 8) =~= ascii_lower(aggregate_type_text(e)) + seq!['.']);
        },
        DomainEvent::PaymentRefunded { .. } => {
            reveal_strlit("payment.refunded");
            reveal_strlit("Payment");
            assert(event_type_text(e).subrange(0, 8) =~= ascii_lower(aggregate_type_text(e)) + seq!['.']);
        },
        DomainEvent::ReviewCreated { .. } => {
            reveal_strlit("review.created");
            reveal_strlit("Review");
            assert(event_type_text(e).subrange(0, 7) =~= ascii_lower(aggregate_type_text(e)) + seq!['.']);
        },
        DomainEvent::ReviewModerated { .. } => {
            reveal_strlit("review.moderated");
            reveal_strlit("Review");
            assert(event_type_text(e).subrange(0, 7) =~= ascii_lower(aggregate_type_text(e)) + seq!['.']);
        },
        DomainEvent::ContactCreated { .. } => {
            reveal_strlit("contact.created");
            reveal_strlit("Contact");
            assert(event_type_text(e).subrange(0, 8) =~= ascii_lower(aggregate_type_text(e)) + seq!['.']);
        },
    }
}

} // verus!
