//! The payment aggregate and its status machine.
use crate::clock::{is_clock_time, now, Timestamp};
use crate::error::{transition_text, DomainError, DomainErrorView};
use crate::events::DomainEvent;
use crate::text::str_eq;
use crate::value_objects::{EnrollmentId, Money, PaymentId};
use crate::value_objects::uuid_text::uuid_version;
use vstd::prelude::*;

verus! {

/// Raw data of a payment gateway response, carried through unread.
#[verifier::external_type_specification]
#[verifier::external_body]
pub struct ExJsonValue(serde_json::Value);

/// The derived `Clone` of `serde_json::Value`; nothing is claimed of the copy.
pub assume_specification[ <serde_json::Value as Clone>::clone ](v: &serde_json::Value) -> serde_json::Value;

/// The lifecycle status of a payment.
#[derive(Debug, Clone, Copy, PartialEq, Eq, Structural)]
pub enum PaymentStatus {
    /// Payment has not yet been processed.
    Unpaid,
    /// Payment completed successfully.
    Paid,
    /// Payment was cancelled before processing.
    Cancelled,
    /// Payment processing failed.
    Failed,
    /// Payment was refunded after being paid.
    Refunded,
}

/// The lowercase text of a payment status.
pub open spec fn payment_status_text(s: PaymentStatus) -> Seq<char> {
    match s {
        PaymentStatus::Unpaid => "unpaid"@,
        PaymentStatus::Paid => "paid"@,
        PaymentStatus::Cancelled => "cancelled"@,
        PaymentStatus::Failed => "failed"@,
        PaymentStatus::Refunded => "refunded"@,
    }
}

/// The payment status a text names, if any.
pub open spec fn payment_status_from_text(t: Seq<char>) -> Option<PaymentStatus> {
    if t == "unpaid"@ {
        Some(PaymentStatus::Unpaid)
    } else if t == "paid"@ {
        Some(PaymentStatus::Paid)
    } else if t == "cancelled"@ {
        Some(PaymentStatus::Cancelled)
    } else if t == "failed"@ {
        Some(PaymentStatus::Failed)
    } else if t == "refunded"@ {
        Some(PaymentStatus::Refunded)
    } else {
        None
    }
}

impl PaymentStatus {
    /// Return the lowercase string representation of this status.
    pub fn as_str(&self) -> (s: &'static str)
        ensures
            s@ == payment_status_text(*self),
    {
        match self {
            PaymentStatus::Unpaid => "unpaid",
            PaymentStatus::Paid => "paid",
            PaymentStatus::Cancelled => "cancelled",
            PaymentStatus::Failed => "failed",
            PaymentStatus::Refunded => "refunded",
        }
    }

    /// Parse a status from its lowercase string representation.
    /// Returns `None` for unknown strings.
    pub fn from_str(s: &str) -> (r: Option<Self>)
        ensures
            r == payment_status_from_text(s@),
    {
        if str_eq(s, "unpaid") {
            Some(PaymentStatus::Unpaid)
        } else if str_eq(s, "paid") {
            Some(PaymentStatus::Paid)
        } else if str_eq(s, "cancelled") {
            Some(PaymentStatus::Cancelled)
        } else if str_eq(s, "failed") {
            Some(PaymentStatus::Failed)
        } else if str_eq(s, "refunded") {
            Some(PaymentStatus::Refunded)
        } else {
            None
        }
    }
}

/// The requests that move a payment between statuses.
#[derive(PartialEq, Eq, Structural)]
pub enum PaymentAction {
    /// Record a successful payment.
    MarkPaid,
    /// Record a failed payment.
    MarkFailed,
    /// Record a cancelled payment.
    MarkCancelled,
    /// Refund a paid payment.
    Refund,
}

/// The status machine of a payment: the status an action leads to, or
/// `None` when the action is refused in that status.
pub open spec fn payment_next(s: PaymentStatus, a: PaymentAction) -> Option<PaymentStatus> {
    match (s, a) {
        (PaymentStatus::Unpaid, PaymentAction::MarkPaid) => Some(PaymentStatus::Paid),
        (PaymentStatus::Unpaid, PaymentAction::MarkFailed) => Some(PaymentStatus::Failed),
        (PaymentStatus::Unpaid, PaymentAction::MarkCancelled) => Some(PaymentStatus::Cancelled),
        (PaymentStatus::Paid, PaymentAction::Refund) => Some(PaymentStatus::Refunded),
        _ => None,
    }
}

/// Aggregate root for a payment.
#[derive(Debug, Clone)]
pub struct Payment {
    /// Unique identifier for this payment.
    pub id: PaymentId,
    /// The enrollment this payment is for.
    pub enrollment_id: EnrollmentId,
    /// External transaction id from the payment gateway.
    pub transaction_id: String,
    /// Payment amount.
    pub amount: Money,
    /// Raw response data from the payment gateway.
    pub payment_gateway_data: Option<serde_json::Value>,
    /// URL to the generated invoice.
    pub invoice_url: Option<String>,
    /// Current lifecycle status.
    pub status: PaymentStatus,
    /// Timestamp of creation.
    pub created_at: Timestamp,
    /// Timestamp of the last update.
    pub updated_at: Timestamp,
}

/// `after` is `before` with only the status changed and the update time
/// stamped from the clock.
pub open spec fn payment_moved_to(before: Payment, after: Payment, s: PaymentStatus) -> bool {
    &&& after == Payment { status: s, updated_at: after.updated_at, ..before }
    &&& is_clock_time(after.updated_at)
}

/// The event of a status change of a payment.
pub open spec fn payment_changed(id: PaymentId, from: Seq<char>, to: Seq<char>, e: DomainEvent) -> bool {
    e matches DomainEvent::PaymentStatusChanged { payment_id, from: f, to: t } && payment_id == id
        && f@ == from && t@ == to
}

/// The error a payment transition towards `target` is refused with.
pub open spec fn payment_refused(before: Payment, target: Seq<char>, r: Result<DomainEvent, DomainError>) -> bool {
    r matches Err(e) && e@ == DomainErrorView::InvalidStatusTransition(
        transition_text(payment_status_text(before.status), target),
    )
}

impl Payment {
    /// Create a new unpaid payment for an enrollment.
    ///
    /// Returns the payment along with a `PaymentCreated` domain event.
    pub fn new(enrollment_id: EnrollmentId, transaction_id: String, amount: Money) -> (r: (Self, DomainEvent))
        ensures
            uuid_version(r.0.id@) == 7,
            r.0.enrollment_id == enrollment_id,
            r.0.transaction_id == transaction_id,
            r.0.amount == amount,
            r.0.payment_gateway_data is None,
            r.0.invoice_url is None,
            r.0.status == PaymentStatus::Unpaid,
            r.0.created_at == r.0.updated_at,
            is_clock_time(r.0.created_at),
            r.1 == (DomainEvent::PaymentCreated { payment_id: r.0.id }),
    {
        let now = now();
        let payment = Payment {
            id: PaymentId::new(),
            enrollment_id,
            transaction_id,
            amount,
            payment_gateway_data: None,
            invoice_url: None,
            status: PaymentStatus::Unpaid,
            created_at: now,
            updated_at: now,
        };
        let event = DomainEvent::PaymentCreated { payment_id: payment.id };
        (payment, event)
    }

    /// Mark the payment as paid, attaching the gateway data given.
    ///
    /// Returns an error if the current status is not Unpaid.
    pub fn mark_paid(&mut self, gateway_data: Option<serde_json::Value>) -> (r: Result<DomainEvent, DomainError>)
        ensures
            match payment_next(old(self).status, PaymentAction::MarkPaid) {
                Some(s) => *final(self) == (Payment {
                    status: s,
                    payment_gateway_data: gateway_data,
                    updated_at: final(self).updated_at,
                    ..*old(self)
                }) && is_clock_time(final(self).updated_at) && (r matches Ok(e) && payment_changed(
                    old(self).id,
                    "unpaid"@,
                    "paid"@,
                    e,
                )),
                None => *final(self) == *old(self) && payment_refused(*old(self), "paid"@, r),
            },
    {
        match self.status {
            PaymentStatus::Unpaid => {
                self.status = PaymentStatus::Paid;
                self.payment_gateway_data = gateway_data;
                self.updated_at = now();
                Ok(DomainEvent::PaymentStatusChanged { payment_id: self.id, from: "unpaid", to: "paid" })
            },
            _ => Err(DomainError::invalid_transition(self.status.as_str(), "paid")),
        }
    }

    /// Mark the payment as failed.
    ///
    /// Returns an error if the current status is not Unpaid.
    pub fn mark_failed(&mut self) -> (r: Result<DomainEvent, DomainError>)
        ensures
            match payment_next(old(self).status, PaymentAction::MarkFailed) {
                Some(s) => payment_moved_to(*old(self), *final(self), s) && (r matches Ok(e)
                    && payment_changed(old(self).id, "unpaid"@, "failed"@, e)),
                None => *final(self) == *old(self) && payment_refused(*old(self), "failed"@, r),
            },
    {
        match self.status {
            PaymentStatus::Unpaid => {
                self.status = PaymentStatus::Failed;
                self.updated_at = now();
                Ok(DomainEvent::PaymentStatusChanged { payment_id: self.id, from: "unpaid", to: "failed" })
            },
            _ => Err(DomainError::invalid_transition(self.status.as_str(), "failed")),
        }
    }

    /// Mark the payment as cancelled.
    ///
    /// Returns an error if the current status is not Unpaid.
    pub fn mark_cancelled(&mut self) -> (r: Result<DomainEvent, DomainError>)
        ensures
            match payment_next(old(self).status, PaymentAction::MarkCancelled) {
                Some(s) => payment_moved_to(*old(self), *final(self), s) && (r matches Ok(e)
                    && payment_changed(old(self).id, "unpaid"@, "cancelled"@, e)),
                None => *final(self) == *old(self) && payment_refused(*old(self), "cancelled"@, r),
            },
    {
        match self.status {
            PaymentStatus::Unpaid => {
                self.status = PaymentStatus::Cancelled;
                self.updated_at = now();
                Ok(DomainEvent::PaymentStatusChanged { payment_id: self.id, from: "unpaid", to: "cancelled" })
            },
            _ => Err(DomainError::invalid_transition(self.status.as_str(), "cancelled")),
        }
    }

    /// Refund a paid payment.
    ///
    /// Returns an error if the current status is not Paid.
    pub fn refund(&mut self, reason: String) -> (r: Result<DomainEvent, DomainError>)
        ensures
            match payment_next(old(self).status, PaymentAction::Refund) {
                Some(s) => payment_moved_to(*old(self), *final(self), s) && r == Ok::<DomainEvent, DomainError>(
                    DomainEvent::PaymentRefunded { payment_id: old(self).id, reason },
                ),
                None => *final(self) == *old(self) && payment_refused(*old(self), "refunded"@, r),
            },
    {
        match self.status {
            PaymentStatus::Paid => {
                self.status = PaymentStatus::Refunded;
                self.updated_at = now();
                Ok(DomainEvent::PaymentRefunded { payment_id: self.id, reason })
            },
            _ => Err(DomainError::invalid_transition(self.status.as_str(), "refunded")),
        }
    }

    /// Restore a payment from persisted data.
    pub fn from_parts(
        id: PaymentId,
        enrollment_id: EnrollmentId,
        transaction_id: String,
        amount: Money,
        payment_gateway_data: Option<serde_json::Value>,
        invoice_url: Option<String>,
        status: PaymentStatus,
        created_at: Timestamp,
        updated_at: Timestamp,
    ) -> (r: Self)
        ensures
            r == (Payment {
                id,
                enrollment_id,
                transaction_id,
                amount,
                payment_gateway_data,
                invoice_url,
                status,
                created_at,
                updated_at,
            }),
    {
        Payment {
            id,
            enrollment_id,
            transaction_id,
            amount,
            payment_gateway_data,
            invoice_url,
            status,
            created_at,
            updated_at,
        }
    }
}

/// Cancelled, failed and refunded payments are settled: every action is
/// refused.
pub proof fn lemma_payment_terminal_states(s: PaymentStatus, a: PaymentAction)
    requires
        s == PaymentStatus::Cancelled || s == PaymentStatus::Failed || s == PaymentStatus::Refunded,
    ensures
        payment_next(s, a) is None,
{
}

/// No action leads a payment back to Unpaid, and only a paid payment can
/// become refunded.
pub proof fn lemma_payment_refund_needs_paid(s: PaymentStatus, a: PaymentAction)
    ensures
        payment_next(s, a) != Some(PaymentStatus::Unpaid),
        payment_next(s, a) == Some(PaymentStatus::Refunded) <==> (s == PaymentStatus::Paid && a
            == PaymentAction::Refund),
{
}

/// Reading back the text of a status gives the status again, and distinct
/// statuses have distinct texts.
pub proof fn lemma_payment_status_text_round_trip(s: PaymentStatus, t: PaymentStatus)
    ensures
        payment_status_from_text(payment_status_text(s)) == Some(s),
        payment_status_text(s) == payment_status_text(t) ==> s == t,
{
    reveal_strlit("unpaid");
    reveal_strlit("paid");
    reveal_strlit("cancelled");
    reveal_strlit("failed");
    reveal_strlit("refunded");
    assert("unpaid"@.len() == 6);
    assert("paid"@.len() == 4);
    assert("cancelled"@.len() == 9);
    assert("failed"@.len() == 6);
    assert("refunded"@.len() == 8);
    assert("unpaid"@[0] != "failed"@[0]);
}

} // verus!
