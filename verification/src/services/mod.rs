//! Values exchanged with the email sender and the payment gateway.
pub mod email_sender;
pub mod payment_gateway;

pub use payment_gateway::{GatewayInitResponse, GatewayValidationResponse, PaymentGatewayError};
