//! The enrollment aggregate and its status machine.
use crate::clock::{is_clock_time, now, Timestamp};
use crate::error::{transition_text, DomainError, DomainErrorView};
use crate::events::DomainEvent;
use crate::text::str_eq;
use crate::value_objects::{EnrollmentId, PaymentId, UserId, WorkshopId};
use crate::value_objects::uuid_text::uuid_version;
use vstd::prelude::*;

verus! {

/// The lifecycle status of an enrollment.
#[derive(Debug, Clone, Copy, PartialEq, Eq, Structural)]
pub enum EnrollmentStatus {
    /// Awaiting payment or confirmation.
    Pending,
    /// Enrollment completed and confirmed.
    Complete,
    /// Enrollment cancelled by student or admin.
    Cancelled,
    /// Enrollment failed (e.g. payment declined).
    Failed,
}

/// The lowercase text of an enrollment status.
pub open spec fn enrollment_status_text(s: EnrollmentStatus) -> Seq<char> {
    match s {
        EnrollmentStatus::Pending => "pending"@,
        EnrollmentStatus::Complete => "complete"@,
        EnrollmentStatus::Cancelled => "cancelled"@,
        EnrollmentStatus::Failed => "failed"@,
    }
}

/// The enrollment status a text names, if any.
pub open spec fn enrollment_status_from_text(t: Seq<char>) -> Option<EnrollmentStatus> {
    if t == "pending"@ {
        Some(EnrollmentStatus::Pending)
    } else if t == "complete"@ {
        Some(EnrollmentStatus::Complete)
    } else if t == "cancelled"@ {
        Some(EnrollmentStatus::Cancelled)
    } else if t == "failed"@ {
        Some(EnrollmentStatus::Failed)
    } else {
        None
    }
}

impl EnrollmentStatus {
    /// Return the lowercase string representation of this status.
    pub fn as_str(&self) -> (s: &'static str)
        ensures
            s@ == enrollment_status_text(*self),
    {
        match self {
            EnrollmentStatus::Pending => "pending",
            EnrollmentStatus::Complete => "complete",
            EnrollmentStatus::Cancelled => "cancelled",
            EnrollmentStatus::Failed => "failed",
        }
    }

    /// Parse a status from its lowercase string representation.
    /// Returns `None` for unknown strings.
    pub fn from_str(s: &str) -> (r: Option<Self>)
        ensures
            r == enrollment_status_from_text(s@),
    {
        if str_eq(s, "pending") {
            Some(EnrollmentStatus::Pending)
        } else if str_eq(s, "complete") {
            Some(EnrollmentStatus::Complete)
        } else if str_eq(s, "cancelled") {
            Some(EnrollmentStatus::Cancelled)
        } else if str_eq(s, "failed") {
            Some(EnrollmentStatus::Failed)
        } else {
            None
        }
    }
}

/// The requests that move an enrollment between statuses.
#[derive(PartialEq, Eq, Structural)]
pub enum EnrollmentAction {
    /// Confirm a pending enrollment.
    Complete,
    /// Cancel a pending enrollment.
    Cancel,
    /// Cancel a completed enrollment, for a refund.
    CancelRefund,
    /// Mark a pending enrollment as failed.
    Fail,
}

/// The status machine of an enrollment: the status an action leads to, or
/// `None` when the action is refused in that status.
pub open spec fn enrollment_next(s: EnrollmentStatus, a: EnrollmentAction) -> Option<EnrollmentStatus> {
    match (s, a) {
        (EnrollmentStatus::Pending, EnrollmentAction::Complete) => Some(EnrollmentStatus::Complete),
        (EnrollmentStatus::Pending, EnrollmentAction::Cancel) => Some(EnrollmentStatus::Cancelled),
        (EnrollmentStatus::Pending, EnrollmentAction::Fail) => Some(EnrollmentStatus::Failed),
        (EnrollmentStatus::Complete, EnrollmentAction::CancelRefund) => Some(EnrollmentStatus::Cancelled),
        _ => None,
    }
}

/// Aggregate root for an enrollment (links a user to a workshop).
#[derive(Debug, Clone)]
pub struct Enrollment {
    pub(crate) id: EnrollmentId,
    pub(crate) user_id: UserId,
    pub(crate) workshop_id: WorkshopId,
    pub(crate) payment_id: Option<PaymentId>,
    pub(crate) student_count: i32,
    pub(crate) status: EnrollmentStatus,
    pub(crate) created_at: Timestamp,
    pub(crate) updated_at: Timestamp,
}

/// Mathematical model of an [`Enrollment`].
pub struct EnrollmentView {
    pub id: EnrollmentId,
    pub user_id: UserId,
    pub workshop_id: WorkshopId,
    pub payment_id: Option<PaymentId>,
    pub student_count: i32,
    pub status: EnrollmentStatus,
    pub created_at: Timestamp,
    pub updated_at: Timestamp,
}

impl View for Enrollment {
    type V = EnrollmentView;

    closed spec fn view(&self) -> EnrollmentView {
        EnrollmentView {
            id: self.id,
            user_id: self.user_id,
            workshop_id: self.workshop_id,
            payment_id: self.payment_id,
            student_count: self.student_count,
            status: self.status,
            created_at: self.created_at,
            updated_at: self.updated_at,
        }
    }
}

/// `after` is `before` with only the status changed and the update time
/// stamped from the clock.
pub open spec fn enrollment_moved_to(before: EnrollmentView, after: EnrollmentView, s: EnrollmentStatus) -> bool {
    &&& after == EnrollmentView { status: s, updated_at: after.updated_at, ..before }
    &&& is_clock_time(after.updated_at)
}

/// The event of a status change of an enrollment.
pub open spec fn enrollment_changed(id: EnrollmentId, from: Seq<char>, to: Seq<char>, e: DomainEvent) -> bool {
    e matches DomainEvent::EnrollmentStatusChanged { enrollment_id, from: f, to: t } && enrollment_id
        == id && f@ == from && t@ == to
}

impl Enrollment {
    /// Create a new pending enrollment for a user in a workshop.
    ///
    /// Returns the enrollment along with an `EnrollmentCreated` domain event.
    pub fn new(user_id: UserId, workshop_id: WorkshopId, student_count: i32) -> (r: (Self, DomainEvent))
        ensures
            uuid_version(r.0@.id@) == 7,
            r.0@.user_id == user_id,
            r.0@.workshop_id == workshop_id,
            r.0@.payment_id is None,
            r.0@.student_count == student_count,
            r.0@.status == EnrollmentStatus::Pending,
            r.0@.created_at == r.0@.updated_at,
            is_clock_time(r.0@.created_at),
            r.1 == (DomainEvent::EnrollmentCreated { enrollment_id: r.0@.id }),
    {
        let now = now();
        let enrollment = Enrollment {
            id: EnrollmentId::new(),
            user_id,
            workshop_id,
            payment_id: None,
            student_count,
            status: EnrollmentStatus::Pending,
            created_at: now,
            updated_at: now,
        };
        let event = DomainEvent::EnrollmentCreated { enrollment_id: enrollment.id };
        (enrollment, event)
    }

    /// Transition the enrollment from Pending to Complete.
    ///
    /// Returns an error if the current status is not Pending.
    pub fn complete(&mut self) -> (r: Result<DomainEvent, DomainError>)
        ensures
            match enrollment_next(old(self)@.status, EnrollmentAction::Complete) {
                Some(s) => enrollment_moved_to(old(self)@, final(self)@, s) && (r matches Ok(e)
                    && enrollment_changed(old(self)@.id, "pending"@, "complete"@, e)),
                None => final(self)@ == old(self)@ && (r matches Err(e) && e@
                    == DomainErrorView::InvalidStatusTransition(
                    transition_text(enrollment_status_text(old(self)@.status), "complete"@),
                )),
            },
    {
        match self.status {
            EnrollmentStatus::Pending => {
                self.status = EnrollmentStatus::Complete;
                self.updated_at = now();
                Ok(DomainEvent::EnrollmentStatusChanged { enrollment_id: self.id, from: "pending", to: "complete" })
            },
            _ => Err(DomainError::invalid_transition(self.status.as_str(), "complete")),
        }
    }
    /// Transition the enrollment from Pending to Cancelled.
    ///
    /// Returns an error if the current status is not Pending.
    pub fn cancel(&mut self) -> (r: Result<DomainEvent, DomainError>)
        ensures
            match enrollment_next(old(self)@.status, EnrollmentAction::Cancel) {
                Some(s) => enrollment_moved_to(old(self)@, final(self)@, s) && r == Ok::<DomainEvent, DomainError>(
                    DomainEvent::EnrollmentCancelled { enrollment_id: old(self)@.id },
                ),
                None => final(self)@ == old(self)@ && (r matches Err(e) && e@
                    == DomainErrorView::InvalidStatusTransition(
                    transition_text(enrollment_status_text(old(self)@.status), "cancelled"@),
                )),
            },
    {
        match self.status {
            EnrollmentStatus::Pending => {
                self.status = EnrollmentStatus::Cancelled;
                self.updated_at = now();
                Ok(DomainEvent::EnrollmentCancelled { enrollment_id: self.id })
            },
            _ => Err(DomainError::invalid_transition(self.status.as_str(), "cancelled")),
        }
    }

    /// Cancel a completed enrollment (for refunds).
    /// Only allowed when the current status is `Complete`.
    pub fn cancel_refund(&mut self) -> (r: Result<DomainEvent, DomainError>)
        ensures
            match enrollment_next(old(self)@.status, EnrollmentAction::CancelRefund) {
                Some(s) => enrollment_moved_to(old(self)@, final(self)@, s) && r == Ok::<DomainEvent, DomainError>(
                    DomainEvent::EnrollmentCancelled { enrollment_id: old(self)@.id },
                ),
                None => final(self)@ == old(self)@ && (r matches Err(e) && e@
                    == DomainErrorView::InvalidStatusTransition(
                    transition_text(enrollment_status_text(old(self)@.status), "cancelled"@),
                )),
            },
    {
        match self.status {
            EnrollmentStatus::Complete => {
                self.status = EnrollmentStatus::Cancelled;
                self.updated_at = now();
                Ok(DomainEvent::EnrollmentCancelled { enrollment_id: self.id })
            },
            _ => Err(DomainError::invalid_transition(self.status.as_str(), "cancelled")),
        }
    }

    /// Transition the enrollment from Pending to Failed.
    ///
    /// Returns an error if the current status is not Pending.
    pub fn fail(&mut self) -> (r: Result<DomainEvent, DomainError>)
        ensures
            match enrollment_next(old(self)@.status, EnrollmentAction::Fail) {
                Some(s) => enrollment_moved_to(old(self)@, final(self)@, s) && (r matches Ok(e)
                    && enrollment_changed(old(self)@.id, "pending"@, "failed"@, e)),
                None => final(self)@ == old(self)@ && (r matches Err(e) && e@
                    == DomainErrorView::InvalidStatusTransition(
                    transition_text(enrollment_status_text(old(self)@.status), "failed"@),
                )),
            },
    {
        match self.status {
            EnrollmentStatus::Pending => {
                self.status = EnrollmentStatus::Failed;
                self.updated_at = now();
                Ok(DomainEvent::EnrollmentStatusChanged { enrollment_id: self.id, from: "pending", to: "failed" })
            },
            _ => Err(DomainError::invalid_transition(self.status.as_str(), "failed")),
        }
    }

    /// Unique identifier for this enrollment.
    pub fn id(&self) -> (r: EnrollmentId)
        ensures
            r == self@.id,
    {
        self.id
    }

    /// The user who enrolled.
    pub fn user_id(&self) -> (r: UserId)
        ensures
            r == self@.user_id,
    {
        self.user_id
    }

    /// The workshop being enrolled in.
    pub fn workshop_id(&self) -> (r: WorkshopId)
        ensures
            r == self@.workshop_id,
    {
        self.workshop_id
    }

    /// Optional payment associated with this enrollment.
    pub fn payment_id(&self) -> (r: Option<PaymentId>)
        ensures
            r == self@.payment_id,
    {
        self.payment_id
    }

    /// Number of students covered by this enrollment.
    pub fn student_count(&self) -> (r: i32)
        ensures
            r == self@.student_count,
    {
        self.student_count
    }

    /// Current lifecycle status.
    pub fn status(&self) -> (r: EnrollmentStatus)
        ensures
            r == self@.status,
    {
        self.status
    }

    /// Timestamp of creation.
    pub fn created_at(&self) -> (r: Timestamp)
        ensures
            r == self@.created_at,
    {
        self.created_at
    }

    /// Timestamp of the last update.
    pub fn updated_at(&self) -> (r: Timestamp)
        ensures
            r == self@.updated_at,
    {
        self.updated_at
    }

    /// Set the payment associated with this enrollment.
    pub fn set_payment_id(&mut self, payment_id: Option<PaymentId>)
        ensures
            final(self)@ == (EnrollmentView { payment_id, ..old(self)@ }),
    {
        self.payment_id = payment_id;
    }

    /// Restore an enrollment from persisted data.
    pub fn from_parts(
        id: EnrollmentId,
        user_id: UserId,
        workshop_id: WorkshopId,
        payment_id: Option<PaymentId>,
        student_count: i32,
        status: EnrollmentStatus,
        created_at: Timestamp,
        updated_at: Timestamp,
    ) -> (r: Self)
        ensures
            r@ == (EnrollmentView {
                id,
                user_id,
                workshop_id,
                payment_id,
                student_count,
                status,
                created_at,
                updated_at,
            }),
    {
        Enrollment { id, user_id, workshop_id, payment_id, student_count, status, created_at, updated_at }
    }
}

/// Cancelled and failed enrollments are final: every action is refused.
pub proof fn lemma_enrollment_terminal_states(s: EnrollmentStatus, a: EnrollmentAction)
    requires
        s == EnrollmentStatus::Cancelled || s == EnrollmentStatus::Failed,
    ensures
        enrollment_next(s, a) is None,
{
}

/// No action ever leads an enrollment back to Pending.
pub proof fn lemma_enrollment_never_returns_to_pending(s: EnrollmentStatus, a: EnrollmentAction)
    ensures
        enrollment_next(s, a) != Some(EnrollmentStatus::Pending),
{
}

/// A refund cancellation is accepted exactly on completed enrollments; every
/// other action is accepted exactly on pending ones.
pub proof fn lemma_enrollment_accepted_sources(s: EnrollmentStatus, a: EnrollmentAction)
    ensures
        (a == EnrollmentAction::CancelRefund) ==> (enrollment_next(s, a) is Some <==> s
            == EnrollmentStatus::Complete),
        (a != EnrollmentAction::CancelRefund) ==> (enrollment_next(s, a) is Some <==> s
            == EnrollmentStatus::Pending),
{
}

/// Reading back the text of a status gives the status again, and distinct
/// statuses have distinct texts.
pub proof fn lemma_enrollment_status_text_round_trip(s: EnrollmentStatus, t: EnrollmentStatus)
    ensures
        enrollment_status_from_text(enrollment_status_text(s)) == Some(s),
        enrollment_status_text(s) == enrollment_status_text(t) ==> s == t,
{
    reveal_strlit("pending");
    reveal_strlit("complete");
    reveal_strlit("cancelled");
    reveal_strlit("failed");
    assert("pending"@.len() == 7);
    assert("complete"@.len() == 8);
    assert("cancelled"@.len() == 9);
    assert("failed"@.len() == 6);
}

} // verus!
