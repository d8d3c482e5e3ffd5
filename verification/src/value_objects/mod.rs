//! Value objects: ids, email, money, OTP code and transaction id.
pub mod email;
pub mod ids;
pub mod money;
pub mod otp;
pub mod transaction_id;
pub mod uuid_text;

pub use email::Email;
pub use ids::{
    AuthCodeId, CategoryId, ContactId, EnrollmentId, JobId, LevelId, OAuthStateId, OtpCodeId,
    PaymentId, RefundLogId, ReviewId, SessionId, UserId, WorkshopId, WorkshopImageId,
};
pub use money::Money;
pub use otp::OtpCode;
pub use transaction_id::TransactionId;
