//! Platform statistics.
use vstd::prelude::*;

verus! {

/// Aggregate platform statistics.
#[derive(Debug, Clone, Copy, PartialEq, Eq, Structural)]
pub struct PlatformStats {
    /// Total number of registered users.
    pub total_users: i64,
    /// Total number of workshops.
    pub total_workshops: i64,
    /// Total number of enrollments (all statuses).
    pub total_enrollments: i64,
    /// Total number of reviews submitted.
    pub total_reviews: i64,
}

} // verus!
