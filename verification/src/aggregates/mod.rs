//! Domain aggregates and their status machines.
pub mod category;
pub mod contact;
pub mod enrollment;
pub mod level;
pub mod payment;
pub mod refund_log;
pub mod review;
pub mod user;
pub mod workshop;
