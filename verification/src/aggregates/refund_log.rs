//! Records of processed refunds.
use crate::clock::{is_clock_time, now, Timestamp};
use crate::value_objects::{PaymentId, RefundLogId};
use crate::value_objects::uuid_text::uuid_version;
use vstd::prelude::*;

verus! {

/// A record of a refund processed for a payment.
#[derive(Debug, Clone)]
pub struct RefundLog {
    pub(crate) id: RefundLogId,
    pub(crate) payment_id: PaymentId,
    pub(crate) amount_cents: i64,
    pub(crate) reason: String,
    pub(crate) created_at: Timestamp,
}

/// Mathematical model of a [`RefundLog`].
pub struct RefundLogView {
    pub id: RefundLogId,
    pub payment_id: PaymentId,
    pub amount_cents: i64,
    pub reason: Seq<char>,
    pub created_at: Timestamp,
}

impl View for RefundLog {
    type V = RefundLogView;

    closed spec fn view(&self) -> RefundLogView {
        RefundLogView {
            id: self.id,
            payment_id: self.payment_id,
            amount_cents: self.amount_cents,
            reason: self.reason@,
            created_at: self.created_at,
        }
    }
}

impl RefundLog {
    /// Unique identifier for this refund record.
    pub fn id(&self) -> (r: RefundLogId)
        ensures
            r == self@.id,
    {
        self.id
    }

    /// The payment that was refunded.
    pub fn payment_id(&self) -> (r: PaymentId)
        ensures
            r == self@.payment_id,
    {
        self.payment_id
    }

    /// The amount refunded, in cents.
    pub fn amount_cents(&self) -> (r: i64)
        ensures
            r == self@.amount_cents,
    {
        self.amount_cents
    }

    /// Reason for the refund.
    pub fn reason(&self) -> (r: &str)
        ensures
            r@ == self@.reason,
    {
        self.reason.as_str()
    }

    /// When the refund was processed.
    pub fn created_at(&self) -> (r: Timestamp)
        ensures
            r == self@.created_at,
    {
        self.created_at
    }

    /// Restore a refund log from persisted data.
    pub fn from_parts(
        id: RefundLogId,
        payment_id: PaymentId,
        amount_cents: i64,
        reason: String,
        created_at: Timestamp,
    ) -> (r: Self)
        ensures
            r@ == (RefundLogView { id, payment_id, amount_cents, reason: reason@, created_at }),
    {
        RefundLog { id, payment_id, amount_cents, reason, created_at }
    }

    /// Create a new refund log entry.
    pub fn new(payment_id: PaymentId, amount_cents: i64, reason: String) -> (r: Self)
        ensures
            uuid_version(r@.id@) == 7,
            r@.payment_id == payment_id,
            r@.amount_cents == amount_cents,
            r@.reason == reason@,
            is_clock_time(r@.created_at),
    {
        RefundLog { id: RefundLogId::new(), payment_id, amount_cents, reason, created_at: now() }
    }
}

} // verus!
