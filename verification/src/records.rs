//! Stored rows as plain values, and their reading back into aggregates.
//! A row whose status text is unknown, or whose email does not validate,
//! is refused with an internal error naming the bad value.
use crate::aggregates::contact::Contact;
use crate::aggregates::enrollment::{enrollment_status_from_text, Enrollment, EnrollmentStatus};
use crate::aggregates::payment::{payment_status_from_text, Payment, PaymentStatus};
use crate::aggregates::review::{review_status_from_text, Review, ReviewStatus};
use crate::aggregates::user::{user_role_from_text, user_status_from_text, User, UserRole, UserStatus};
use crate::clock::Timestamp;
use crate::error::{error_text, prefixed, DomainError, DomainErrorView};
use crate::value_objects::email::{email_problem, normalized_email, Email};
use crate::value_objects::ids::{ContactId, EnrollmentId, PaymentId, ReviewId, UserId, WorkshopId};
use crate::value_objects::money::Money;
use vstd::prelude::*;

verus! {

/// A row of the `users` table.
pub struct UserRecord {
    pub id: u128,
    pub email: String,
    pub name: String,
    pub password_hash: Option<String>,
    pub phone: Option<String>,
    pub picture_url: Option<String>,
    pub age: Option<i16>,
    pub address: Option<String>,
    pub role: String,
    pub status: String,
    pub is_verified: bool,
    pub expertise: Option<String>,
    pub bio: Option<String>,
    pub created_at: Timestamp,
    pub updated_at: Timestamp,
}

/// The internal error `prefix` followed by `value`.
pub open spec fn row_error(prefix: Seq<char>, value: Seq<char>) -> DomainErrorView {
    DomainErrorView::Internal(prefix + value)
}

impl UserRecord {
    /// Read the row back into a user.
    pub fn into_domain(self) -> (r: Result<User, DomainError>)
        ensures
            user_role_from_text(self.role@) is None ==> (r matches Err(e) && e@ == row_error(
                "invalid user role: "@,
                self.role@,
            )),
            user_role_from_text(self.role@) is Some && user_status_from_text(self.status@) is None ==> (
            r matches Err(e) && e@ == row_error("invalid user status: "@, self.status@)),
            user_role_from_text(self.role@) is Some && user_status_from_text(self.status@) is Some
                && email_problem(normalized_email(self.email@)) is Some ==> (r matches Err(e) && e@
                == DomainErrorView::Internal("invalid email in database"@)),
            user_role_from_text(self.role@) is Some && user_status_from_text(self.status@) is Some
                && email_problem(normalized_email(self.email@)) is None ==> (r matches Ok(u) && u.email@ ==
                normalized_email(self.email@) && u.id@ == self.id && u.name == self.name
                && u.password_hash == self.password_hash && u.phone == self.phone
                && u.picture_url == self.picture_url && u.age == self.age && u.address == self.address
                && user_role_from_text(self.role@) == Some(u.role)
                && user_status_from_text(self.status@) == Some(u.status) && u.is_verified == self.is_verified
                && u.expertise == self.expertise && u.bio == self.bio && u.created_at == self.created_at
                && u.updated_at == self.updated_at),
    {
        let role = match UserRole::from_str(self.role.as_str()) {
            Some(r) => r,
            None => {
                return Err(DomainError::Internal(prefixed("invalid user role: ", &self.role)));
            },
        };
        let status = match UserStatus::from_str(self.status.as_str()) {
            Some(s) => s,
            None => {
                return Err(DomainError::Internal(prefixed("invalid user status: ", &self.status)));
            },
        };
        let email = match Email::new(self.email.as_str()) {
            Ok(e) => e,
            Err(_) => {
                return Err(DomainError::infrastructure("invalid email in database"));
            },
        };
        Ok(
            User {
                id: UserId::from_uuid(self.id),
                email,
                name: self.name,
                password_hash: self.password_hash,
                phone: self.phone,
                picture_url: self.picture_url,
                age: self.age,
                address: self.address,
                role,
                status,
                is_verified: self.is_verified,
                expertise: self.expertise,
                bio: self.bio,
                created_at: self.created_at,
                updated_at: self.updated_at,
            },
        )
    }
}


/// A row of the `enrollments` table.
pub struct EnrollmentRecord {
    pub id: u128,
    pub user_id: u128,
    pub workshop_id: u128,
    pub payment_id: Option<u128>,
    pub student_count: i32,
    pub status: String,
    pub created_at: Timestamp,
    pub updated_at: Timestamp,
}

impl EnrollmentRecord {
    /// Read the row back into an enrollment.
    pub fn into_domain(self) -> (r: Result<Enrollment, DomainError>)
        ensures
            enrollment_status_from_text(self.status@) is None ==> (r matches Err(e) && e@ == row_error(
                "invalid enrollment status: "@,
                self.status@,
            )),
            enrollment_status_from_text(self.status@) is Some ==> (r matches Ok(en) && en@.id@ == self.id
                && en@.user_id@ == self.user_id && en@.workshop_id@ == self.workshop_id
                && (match (en@.payment_id, self.payment_id) {
                (Some(p), Some(q)) => p@ == q,
                (None, None) => true,
                _ => false,
            }) && en@.student_count == self.student_count && enrollment_status_from_text(self.status@)
                == Some(en@.status) && en@.created_at == self.created_at && en@.updated_at
                == self.updated_at),
    {
        let status = match EnrollmentStatus::from_str(self.status.as_str()) {
            Some(s) => s,
            None => {
                return Err(DomainError::Internal(prefixed("invalid enrollment status: ", &self.status)));
            },
        };
        let payment_id = match self.payment_id {
            Some(p) => Some(PaymentId::from_uuid(p)),
            None => None,
        };
        Ok(
            Enrollment::from_parts(
                EnrollmentId::from_uuid(self.id),
                UserId::from_uuid(self.user_id),
                WorkshopId::from_uuid(self.workshop_id),
                payment_id,
                self.student_count,
                status,
                self.created_at,
                self.updated_at,
            ),
        )
    }
}

/// A row of the `payments` table.
pub struct PaymentRecord {
    pub id: u128,
    pub enrollment_id: u128,
    pub transaction_id: String,
    pub amount_cents: i64,
    pub payment_gateway_data: Option<serde_json::Value>,
    pub invoice_url: Option<String>,
    pub status: String,
    pub created_at: Timestamp,
    pub updated_at: Timestamp,
}

impl PaymentRecord {
    /// Read the row back into a payment.
    pub fn into_domain(self) -> (r: Result<Payment, DomainError>)
        ensures
            payment_status_from_text(self.status@) is None ==> (r matches Err(e) && e@ == row_error(
                "invalid payment status: "@,
                self.status@,
            )),
            payment_status_from_text(self.status@) is Some ==> (r matches Ok(p) && p.id@ == self.id
                && p.enrollment_id@ == self.enrollment_id && p.transaction_id == self.transaction_id
                && p.amount@ == self.amount_cents && p.payment_gateway_data == self.payment_gateway_data
                && p.invoice_url == self.invoice_url && payment_status_from_text(self.status@) == Some(
                p.status,
            ) && p.created_at == self.created_at && p.updated_at == self.updated_at),
    {
        let status = match PaymentStatus::from_str(self.status.as_str()) {
            Some(s) => s,
            None => {
                return Err(DomainError::Internal(prefixed("invalid payment status: ", &self.status)));
            },
        };
        Ok(
            Payment::from_parts(
                PaymentId::from_uuid(self.id),
                EnrollmentId::from_uuid(self.enrollment_id),
                self.transaction_id,
                Money::from_cents(self.amount_cents),
                self.payment_gateway_data,
                self.invoice_url,
                status,
                self.created_at,
                self.updated_at,
            ),
        )
    }
}

/// A row of the `reviews` table.
pub struct ReviewRecord {
    pub id: u128,
    pub user_id: u128,
    pub workshop_id: u128,
    pub rating: i16,
    pub title: String,
    pub content: String,
    pub status: String,
    pub created_at: Timestamp,
    pub updated_at: Timestamp,
}

impl ReviewRecord {
    /// Read the row back into a review (the stored rating and texts are
    /// taken as they are).
    pub fn into_domain(self) -> (r: Result<Review, DomainError>)
        ensures
            review_status_from_text(self.status@) is None ==> (r matches Err(e) && e@ == row_error(
                "invalid review status: "@,
                self.status@,
            )),
            review_status_from_text(self.status@) is Some ==> (r matches Ok(v) && v@.id@ == self.id
                && v@.user_id@ == self.user_id && v@.workshop_id@ == self.workshop_id && v@.rating
                == self.rating && v@.title == self.title@ && v@.content == self.content@
                && review_status_from_text(self.status@) == Some(v@.status) && v@.created_at
                == self.created_at && v@.updated_at == self.updated_at),
    {
        let status = match ReviewStatus::from_str(self.status.as_str()) {
            Some(s) => s,
            None => {
                return Err(DomainError::Internal(prefixed("invalid review status: ", &self.status)));
            },
        };
        Ok(
            Review::from_parts(
                ReviewId::from_uuid(self.id),
                UserId::from_uuid(self.user_id),
                WorkshopId::from_uuid(self.workshop_id),
                self.rating,
                self.title,
                self.content,
                status,
                self.created_at,
                self.updated_at,
            ),
        )
    }
}

/// A row of the `contacts` table.
pub struct ContactRecord {
    pub id: u128,
    pub name: String,
    pub email: String,
    pub subject: String,
    pub message: String,
    pub is_read: bool,
    pub created_at: Timestamp,
    pub updated_at: Timestamp,
}

impl ContactRecord {
    /// Read the row back into a contact message; an email that does not
    /// validate is refused with the validation error's text.
    pub fn into_domain(self) -> (r: Result<Contact, DomainError>)
        ensures
            email_problem(normalized_email(self.email@)) matches Some(m) ==> (r matches Err(e) && e@
                == row_error("invalid email in contact row: "@, error_text(DomainErrorView::Validation(m)))),
            email_problem(normalized_email(self.email@)) is None ==> (r matches Ok(c) && c@.id@ == self.id
                && c@.name == self.name@ && c@.email@ == normalized_email(self.email@) && c@.subject
                == self.subject@ && c@.message == self.message@ && c@.is_read == self.is_read
                && c@.created_at == self.created_at && c@.updated_at == self.updated_at),
    {
        let email = match Email::new(self.email.as_str()) {
            Ok(e) => e,
            Err(e) => {
                let text = e.to_string();
                return Err(DomainError::Internal(prefixed("invalid email in contact row: ", &text)));
            },
        };
        Ok(
            Contact::from_parts(
                ContactId::from_uuid(self.id),
                self.name,
                email,
                self.subject,
                self.message,
                self.is_read,
                self.created_at,
                self.updated_at,
            ),
        )
    }
}

} // verus!
