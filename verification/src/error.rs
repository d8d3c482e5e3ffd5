//! Errors of the domain layer.
use crate::text::{decimal, push_decimal};
use vstd::prelude::*;

verus! {

/// Errors that can occur in the domain layer.
#[derive(Debug, Clone, PartialEq)]
#[non_exhaustive]
pub enum DomainError {
    /// The requested resource was not found.
    NotFound(String),
    /// An invalid state transition was attempted.
    InvalidStatusTransition(String),
    /// A duplicate key violation occurred.
    DuplicateKey(String),
    /// A foreign key constraint was violated.
    ForeignKeyViolation(String),
    /// A concurrency conflict (optimistic locking) occurred.
    Conflict(String),
    /// The provided value failed validation.
    Validation(String),
    /// An unexpected internal error occurred.
    Internal(String),
    /// The user is not authorized to perform this action.
    Unauthorized(String),
    /// The rate limit was exceeded.
    RateLimitExceeded,
    /// Insufficient seats available for enrollment.
    InsufficientSeats {
        /// Number of seats requested.
        requested: u32,
        /// Number of seats currently available.
        available: u32,
    },
    /// The workshop is full.
    WorkshopFull,
}

/// Mathematical model of a [`DomainError`]: its variant and message text.
pub enum DomainErrorView {
    NotFound(Seq<char>),
    InvalidStatusTransition(Seq<char>),
    DuplicateKey(Seq<char>),
    ForeignKeyViolation(Seq<char>),
    Conflict(Seq<char>),
    Validation(Seq<char>),
    Internal(Seq<char>),
    Unauthorized(Seq<char>),
    RateLimitExceeded,
    InsufficientSeats { requested: u32, available: u32 },
    WorkshopFull,
}

impl View for DomainError {
    type V = DomainErrorView;

    open spec fn view(&self) -> DomainErrorView {
        match self {
            DomainError::NotFound(s) => DomainErrorView::NotFound(s@),
            DomainError::InvalidStatusTransition(s) => DomainErrorView::InvalidStatusTransition(s@),
            DomainError::DuplicateKey(s) => DomainErrorView::DuplicateKey(s@),
            DomainError::ForeignKeyViolation(s) => DomainErrorView::ForeignKeyViolation(s@),
            DomainError::Conflict(s) => DomainErrorView::Conflict(s@),
            DomainError::Validation(s) => DomainErrorView::Validation(s@),
            DomainError::Internal(s) => DomainErrorView::Internal(s@),
            DomainError::Unauthorized(s) => DomainErrorView::Unauthorized(s@),
            DomainError::RateLimitExceeded => DomainErrorView::RateLimitExceeded,
            DomainError::InsufficientSeats { requested, available } => DomainErrorView::InsufficientSeats {
                requested: *requested,
                available: *available,
            },
            DomainError::WorkshopFull => DomainErrorView::WorkshopFull,
        }
    }
}

/// Message of a not-found error for an entity type and id.
pub open spec fn not_found_text(entity: Seq<char>, id: Seq<char>) -> Seq<char> {
    entity + " with id '"@ + id + "' not found"@
}

/// Message of an invalid status transition.
pub open spec fn transition_text(from: Seq<char>, to: Seq<char>) -> Seq<char> {
    "Cannot transition from '"@ + from + "' to '"@ + to + "'"@
}

/// The display text of an error.
pub open spec fn error_text(e: DomainErrorView) -> Seq<char> {
    match e {
        DomainErrorView::NotFound(s) => "Not found: "@ + s,
        DomainErrorView::InvalidStatusTransition(s) => "Invalid status transition: "@ + s,
        DomainErrorView::DuplicateKey(s) => "Duplicate key: "@ + s,
        DomainErrorView::ForeignKeyViolation(s) => "Foreign key violation: "@ + s,
        DomainErrorView::Conflict(s) => "Conflict: "@ + s,
        DomainErrorView::Validation(s) => "Validation error: "@ + s,
        DomainErrorView::Internal(s) => "Internal error: "@ + s,
        DomainErrorView::Unauthorized(s) => "Unauthorized: "@ + s,
        DomainErrorView::RateLimitExceeded => "Rate limit exceeded"@,
        DomainErrorView::InsufficientSeats { requested, available } =>
            "Not enough available seats: requested "@ + decimal(requested as nat) + ", available "@
                + decimal(available as nat),
        DomainErrorView::WorkshopFull => "Workshop is full"@,
    }
}

impl DomainError {
    /// Create a `NotFound` error for a given entity type and id.
    pub fn not_found(entity: &str, id: &str) -> (e: Self)
        ensures
            e@ == DomainErrorView::NotFound(not_found_text(entity@, id@)),
    {
        let mut s = entity.to_owned();
        s.append(" with id '");
        s.append(id);
        s.append("' not found");
        DomainError::NotFound(s)
    }

    /// Create an `InvalidStatusTransition` error.
    pub fn invalid_transition(from: &str, to: &str) -> (e: Self)
        ensures
            e@ == DomainErrorView::InvalidStatusTransition(transition_text(from@, to@)),
    {
        let mut s = "Cannot transition from '".to_owned();
        s.append(from);
        s.append("' to '");
        s.append(to);
        s.append("'");
        DomainError::InvalidStatusTransition(s)
    }

    /// Create a `Validation` error.
    pub fn validation(msg: &str) -> (e: Self)
        ensures
            e@ == DomainErrorView::Validation(msg@),
    {
        DomainError::Validation(msg.to_owned())
    }

    /// Create an `Internal` error from an infrastructure (I/O) failure.
    pub fn infrastructure(msg: &str) -> (e: Self)
        ensures
            e@ == DomainErrorView::Internal(msg@),
    {
        DomainError::Internal(msg.to_owned())
    }

    /// The display text of this error.
    pub fn to_string(&self) -> (s: String)
        ensures
            s@ == error_text(self@),
    {
        match self {
            DomainError::NotFound(m) => prefixed("Not found: ", m),
            DomainError::InvalidStatusTransition(m) => prefixed("Invalid status transition: ", m),
            DomainError::DuplicateKey(m) => prefixed("Duplicate key: ", m),
            DomainError::ForeignKeyViolation(m) => prefixed("Foreign key violation: ", m),
            DomainError::Conflict(m) => prefixed("Conflict: ", m),
            DomainError::Validation(m) => prefixed("Validation error: ", m),
            DomainError::Internal(m) => prefixed("Internal error: ", m),
            DomainError::Unauthorized(m) => prefixed("Unauthorized: ", m),
            DomainError::RateLimitExceeded => "Rate limit exceeded".to_owned(),
            DomainError::InsufficientSeats { requested, available } => {
                let mut s = "Not enough available seats: requested ".to_owned();
                push_decimal(&mut s, *requested as u64);
                s.append(", available ");
                push_decimal(&mut s, *available as u64);
                s
            },
            DomainError::WorkshopFull => "Workshop is full".to_owned(),
        }
    }
}

/// `prefix` followed by `rest`.
pub(crate) fn prefixed(prefix: &str, rest: &String) -> (s: String)
    ensures
        s@ == prefix@ + rest@,
{
    let mut s = prefix.to_owned();
    s.append(rest.as_str());
    s
}

} // verus!
