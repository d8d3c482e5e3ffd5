//! Domain model of a workshop platform: value objects, aggregates with their
//! status machines, domain events, and the pure parts of the payment gateway
//! and storage adapters.
pub mod aggregates;
pub mod clock;
pub mod error;
pub mod events;
pub mod invoice;
pub mod mail;
pub mod records;
pub mod repositories;
pub mod services;
pub mod sslcommerz;
pub mod storage;
pub mod text;
pub mod value_objects;
