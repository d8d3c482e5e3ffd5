//! Read models returned by the repositories.
pub mod stats;

pub use stats::PlatformStats;
