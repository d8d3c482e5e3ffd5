//! Strongly-typed identifiers, each backed by the 128-bit value of a UUID.
use crate::error::{DomainError, DomainErrorView};
use crate::value_objects::uuid_text::{
    uuid_error_text, uuid_now_v7, uuid_parse, uuid_parsed, uuid_text, uuid_to_string, uuid_variant, uuid_version,
};
use vstd::prelude::*;

verus! {

/// Message of the error for a text `s` that is not a UUID: what `uuid`
/// says is wrong with it.
pub open spec fn invalid_uuid_text(s: Seq<char>) -> Seq<char> {
    uuid_error_text(s)
}

/// A strongly-typed identifier for a user.
#[derive(Debug, Clone, Copy, PartialEq, Eq, Hash, Structural)]
pub struct UserId(u128);

impl View for UserId {
    type V = u128;

    closed spec fn view(&self) -> u128 {
        self.0
    }
}

impl UserId {
    /// Create a new id backed by a fresh version 7 UUID.
    pub fn new() -> (id: Self)
        ensures
            uuid_version(id@) == 7,
            uuid_variant(id@) == 2,
    {
        UserId(uuid_now_v7())
    }

    /// Create an id from the value of an existing UUID.
    pub fn from_uuid(id: u128) -> (r: Self)
        ensures
            r@ == id,
    {
        UserId(id)
    }

    /// The value of the UUID behind this id.
    pub fn as_uuid(&self) -> (u: u128)
        ensures
            u == self@,
    {
        self.0
    }

    /// Consume this id and return the value of its UUID.
    pub fn into_uuid(self) -> (u: u128)
        ensures
            u == self@,
    {
        self.0
    }

    /// Parse an id from a UUID text.
    pub fn parse_str(s: &str) -> (r: Result<Self, DomainError>)
        ensures
            uuid_parsed(s@) matches Some(u) ==> (r matches Ok(id) && id@ == u),
            uuid_parsed(s@) is None ==> (r matches Err(e) && e@ == DomainErrorView::Validation(invalid_uuid_text(s@))),
            forall|u: u128| #[trigger] uuid_text(u) == s@ ==> (r matches Ok(id) && id@ == u),
    {
        match uuid_parse(s) {
            Ok(u) => Ok(UserId(u)),
            Err(cause) => Err(DomainError::Validation(cause)),
        }
    }

    /// The hyphenated lower-case text of the UUID behind this id.
    pub fn to_string(&self) -> (s: String)
        ensures
            s@ == uuid_text(self@),
    {
        uuid_to_string(self.0)
    }
}

impl Default for UserId {
    fn default() -> (id: Self)
        ensures
            uuid_version(id@) == 7,
            uuid_variant(id@) == 2,
    {
        UserId::new()
    }
}

/// A strongly-typed identifier for a workshop.
#[derive(Debug, Clone, Copy, PartialEq, Eq, Hash, Structural)]
pub struct WorkshopId(u128);

impl View for WorkshopId {
    type V = u128;

    closed spec fn view(&self) -> u128 {
        self.0
    }
}

impl WorkshopId {
    /// Create a new id backed by a fresh version 7 UUID.
    pub fn new() -> (id: Self)
        ensures
            uuid_version(id@) == 7,
            uuid_variant(id@) == 2,
    {
        WorkshopId(uuid_now_v7())
    }

    /// Create an id from the value of an existing UUID.
    pub fn from_uuid(id: u128) -> (r: Self)
        ensures
            r@ == id,
    {
        WorkshopId(id)
    }

    /// The value of the UUID behind this id.
    pub fn as_uuid(&self) -> (u: u128)
        ensures
            u == self@,
    {
        self.0
    }

    /// Consume this id and return the value of its UUID.
    pub fn into_uuid(self) -> (u: u128)
        ensures
            u == self@,
    {
        self.0
    }

    /// Parse an id from a UUID text.
    pub fn parse_str(s: &str) -> (r: Result<Self, DomainError>)
        ensures
            uuid_parsed(s@) matches Some(u) ==> (r matches Ok(id) && id@ == u),
            uuid_parsed(s@) is None ==> (r matches Err(e) && e@ == DomainErrorView::Validation(invalid_uuid_text(s@))),
            forall|u: u128| #[trigger] uuid_text(u) == s@ ==> (r matches Ok(id) && id@ == u),
    {
        match uuid_parse(s) {
            Ok(u) => Ok(WorkshopId(u)),
            Err(cause) => Err(DomainError::Validation(cause)),
        }
    }

    /// The hyphenated lower-case text of the UUID behind this id.
    pub fn to_string(&self) -> (s: String)
        ensures
            s@ == uuid_text(self@),
    {
        uuid_to_string(self.0)
    }
}

impl Default for WorkshopId {
    fn default() -> (id: Self)
        ensures
            uuid_version(id@) == 7,
            uuid_variant(id@) == 2,
    {
        WorkshopId::new()
    }
}

/// A strongly-typed identifier for a workshop_image.
#[derive(Debug, Clone, Copy, PartialEq, Eq, Hash, Structural)]
pub struct WorkshopImageId(u128);

impl View for WorkshopImageId {
    type V = u128;

    closed spec fn view(&self) -> u128 {
        self.0
    }
}

impl WorkshopImageId {
    /// Create a new id backed by a fresh version 7 UUID.
    pub fn new() -> (id: Self)
        ensures
            uuid_version(id@) == 7,
            uuid_variant(id@) == 2,
    {
        WorkshopImageId(uuid_now_v7())
    }

    /// Create an id from the value of an existing UUID.
    pub fn from_uuid(id: u128) -> (r: Self)
        ensures
            r@ == id,
    {
        WorkshopImageId(id)
    }

    /// The value of the UUID behind this id.
    pub fn as_uuid(&self) -> (u: u128)
        ensures
            u == self@,
    {
        self.0
    }

    /// Consume this id and return the value of its UUID.
    pub fn into_uuid(self) -> (u: u128)
        ensures
            u == self@,
    {
        self.0
    }

    /// Parse an id from a UUID text.
    pub fn parse_str(s: &str) -> (r: Result<Self, DomainError>)
        ensures
            uuid_parsed(s@) matches Some(u) ==> (r matches Ok(id) && id@ == u),
            uuid_parsed(s@) is None ==> (r matches Err(e) && e@ == DomainErrorView::Validation(invalid_uuid_text(s@))),
            forall|u: u128| #[trigger] uuid_text(u) == s@ ==> (r matches Ok(id) && id@ == u),
    {
        match uuid_parse(s) {
            Ok(u) => Ok(WorkshopImageId(u)),
            Err(cause) => Err(DomainError::Validation(cause)),
        }
    }

    /// The hyphenated lower-case text of the UUID behind this id.
    pub fn to_string(&self) -> (s: String)
        ensures
            s@ == uuid_text(self@),
    {
        uuid_to_string(self.0)
    }
}

impl Default for WorkshopImageId {
    fn default() -> (id: Self)
        ensures
            uuid_version(id@) == 7,
            uuid_variant(id@) == 2,
    {
        WorkshopImageId::new()
    }
}

/// A strongly-typed identifier for a enrollment.
#[derive(Debug, Clone, Copy, PartialEq, Eq, Hash, Structural)]
pub struct EnrollmentId(u128);

impl View for EnrollmentId {
    type V = u128;

    closed spec fn view(&self) -> u128 {
        self.0
    }
}

impl EnrollmentId {
    /// Create a new id backed by a fresh version 7 UUID.
    pub fn new() -> (id: Self)
        ensures
            uuid_version(id@) == 7,
            uuid_variant(id@) == 2,
    {
        EnrollmentId(uuid_now_v7())
    }

    /// Create an id from the value of an existing UUID.
    pub fn from_uuid(id: u128) -> (r: Self)
        ensures
            r@ == id,
    {
        EnrollmentId(id)
    }

    /// The value of the UUID behind this id.
    pub fn as_uuid(&self) -> (u: u128)
        ensures
            u == self@,
    {
        self.0
    }

    /// Consume this id and return the value of its UUID.
    pub fn into_uuid(self) -> (u: u128)
        ensures
            u == self@,
    {
        self.0
    }

    /// Parse an id from a UUID text.
    pub fn parse_str(s: &str) -> (r: Result<Self, DomainError>)
        ensures
            uuid_parsed(s@) matches Some(u) ==> (r matches Ok(id) && id@ == u),
            uuid_parsed(s@) is None ==> (r matches Err(e) && e@ == DomainErrorView::Validation(invalid_uuid_text(s@))),
            forall|u: u128| #[trigger] uuid_text(u) == s@ ==> (r matches Ok(id) && id@ == u),
    {
        match uuid_parse(s) {
            Ok(u) => Ok(EnrollmentId(u)),
            Err(cause) => Err(DomainError::Validation(cause)),
        }
    }

    /// The hyphenated lower-case text of the UUID behind this id.
    pub fn to_string(&self) -> (s: String)
        ensures
            s@ == uuid_text(self@),
    {
        uuid_to_string(self.0)
    }
}

impl Default for EnrollmentId {
    fn default() -> (id: Self)
        ensures
            uuid_version(id@) == 7,
            uuid_variant(id@) == 2,
    {
        EnrollmentId::new()
    }
}

/// A strongly-typed identifier for a payment.
#[derive(Debug, Clone, Copy, PartialEq, Eq, Hash, Structural)]
pub struct PaymentId(u128);

impl View for PaymentId {
    type V = u128;

    closed spec fn view(&self) -> u128 {
        self.0
    }
}

impl PaymentId {
    /// Create a new id backed by a fresh version 7 UUID.
    pub fn new() -> (id: Self)
        ensures
            uuid_version(id@) == 7,
            uuid_variant(id@) == 2,
    {
        PaymentId(uuid_now_v7())
    }

    /// Create an id from the value of an existing UUID.
    pub fn from_uuid(id: u128) -> (r: Self)
        ensures
            r@ == id,
    {
        PaymentId(id)
    }

    /// The value of the UUID behind this id.
    pub fn as_uuid(&self) -> (u: u128)
        ensures
            u == self@,
    {
        self.0
    }

    /// Consume this id and return the value of its UUID.
    pub fn into_uuid(self) -> (u: u128)
        ensures
            u == self@,
    {
        self.0
    }

    /// Parse an id from a UUID text.
    pub fn parse_str(s: &str) -> (r: Result<Self, DomainError>)
        ensures
            uuid_parsed(s@) matches Some(u) ==> (r matches Ok(id) && id@ == u),
            uuid_parsed(s@) is None ==> (r matches Err(e) && e@ == DomainErrorView::Validation(invalid_uuid_text(s@))),
            forall|u: u128| #[trigger] uuid_text(u) == s@ ==> (r matches Ok(id) && id@ == u),
    {
        match uuid_parse(s) {
            Ok(u) => Ok(PaymentId(u)),
            Err(cause) => Err(DomainError::Validation(cause)),
        }
    }

    /// The hyphenated lower-case text of the UUID behind this id.
    pub fn to_string(&self) -> (s: String)
        ensures
            s@ == uuid_text(self@),
    {
        uuid_to_string(self.0)
    }
}

impl Default for PaymentId {
    fn default() -> (id: Self)
        ensures
            uuid_version(id@) == 7,
            uuid_variant(id@) == 2,
    {
        PaymentId::new()
    }
}

/// A strongly-typed identifier for a review.
#[derive(Debug, Clone, Copy, PartialEq, Eq, Hash, Structural)]
pub struct ReviewId(u128);

impl View for ReviewId {
    type V = u128;

    closed spec fn view(&self) -> u128 {
        self.0
    }
}

impl ReviewId {
    /// Create a new id backed by a fresh version 7 UUID.
    pub fn new() -> (id: Self)
        ensures
            uuid_version(id@) == 7,
            uuid_variant(id@) == 2,
    {
        ReviewId(uuid_now_v7())
    }

    /// Create an id from the value of an existing UUID.
    pub fn from_uuid(id: u128) -> (r: Self)
        ensures
            r@ == id,
    {
        ReviewId(id)
    }

    /// The value of the UUID behind this id.
    pub fn as_uuid(&self) -> (u: u128)
        ensures
            u == self@,
    {
        self.0
    }

    /// Consume this id and return the value of its UUID.
    pub fn into_uuid(self) -> (u: u128)
        ensures
            u == self@,
    {
        self.0
    }

    /// Parse an id from a UUID text.
    pub fn parse_str(s: &str) -> (r: Result<Self, DomainError>)
        ensures
            uuid_parsed(s@) matches Some(u) ==> (r matches Ok(id) && id@ == u),
            uuid_parsed(s@) is None ==> (r matches Err(e) && e@ == DomainErrorView::Validation(invalid_uuid_text(s@))),
            forall|u: u128| #[trigger] uuid_text(u) == s@ ==> (r matches Ok(id) && id@ == u),
    {
        match uuid_parse(s) {
            Ok(u) => Ok(ReviewId(u)),
            Err(cause) => Err(DomainError::Validation(cause)),
        }
    }

    /// The hyphenated lower-case text of the UUID behind this id.
    pub fn to_string(&self) -> (s: String)
        ensures
            s@ == uuid_text(self@),
    {
        uuid_to_string(self.0)
    }
}

impl Default for ReviewId {
    fn default() -> (id: Self)
        ensures
            uuid_version(id@) == 7,
            uuid_variant(id@) == 2,
    {
        ReviewId::new()
    }
}

/// A strongly-typed identifier for a session.
#[derive(Debug, Clone, Copy, PartialEq, Eq, Hash, Structural)]
pub struct SessionId(u128);

impl View for SessionId {
    type V = u128;

    closed spec fn view(&self) -> u128 {
        self.0
    }
}

impl SessionId {
    /// Create a new id backed by a fresh version 7 UUID.
    pub fn new() -> (id: Self)
        ensures
            uuid_version(id@) == 7,
            uuid_variant(id@) == 2,
    {
        SessionId(uuid_now_v7())
    }

    /// Create an id from the value of an existing UUID.
    pub fn from_uuid(id: u128) -> (r: Self)
        ensures
            r@ == id,
    {
        SessionId(id)
    }

    /// The value of the UUID behind this id.
    pub fn as_uuid(&self) -> (u: u128)
        ensures
            u == self@,
    {
        self.0
    }

    /// Consume this id and return the value of its UUID.
    pub fn into_uuid(self) -> (u: u128)
        ensures
            u == self@,
    {
        self.0
    }

    /// Parse an id from a UUID text.
    pub fn parse_str(s: &str) -> (r: Result<Self, DomainError>)
        ensures
            uuid_parsed(s@) matches Some(u) ==> (r matches Ok(id) && id@ == u),
            uuid_parsed(s@) is None ==> (r matches Err(e) && e@ == DomainErrorView::Validation(invalid_uuid_text(s@))),
            forall|u: u128| #[trigger] uuid_text(u) == s@ ==> (r matches Ok(id) && id@ == u),
    {
        match uuid_parse(s) {
            Ok(u) => Ok(SessionId(u)),
            Err(cause) => Err(DomainError::Validation(cause)),
        }
    }

    /// The hyphenated lower-case text of the UUID behind this id.
    pub fn to_string(&self) -> (s: String)
        ensures
            s@ == uuid_text(self@),
    {
        uuid_to_string(self.0)
    }
}

impl Default for SessionId {
    fn default() -> (id: Self)
        ensures
            uuid_version(id@) == 7,
            uuid_variant(id@) == 2,
    {
        SessionId::new()
    }
}

/// A strongly-typed identifier for a category.
#[derive(Debug, Clone, Copy, PartialEq, Eq, Hash, Structural)]
pub struct CategoryId(u128);

impl View for CategoryId {
    type V = u128;

    closed spec fn view(&self) -> u128 {
        self.0
    }
}

impl CategoryId {
    /// Create a new id backed by a fresh version 7 UUID.
    pub fn new() -> (id: Self)
        ensures
            uuid_version(id@) == 7,
            uuid_variant(id@) == 2,
    {
        CategoryId(uuid_now_v7())
    }

    /// Create an id from the value of an existing UUID.
    pub fn from_uuid(id: u128) -> (r: Self)
        ensures
            r@ == id,
    {
        CategoryId(id)
    }

    /// The value of the UUID behind this id.
    pub fn as_uuid(&self) -> (u: u128)
        ensures
            u == self@,
    {
        self.0
    }

    /// Consume this id and return the value of its UUID.
    pub fn into_uuid(self) -> (u: u128)
        ensures
            u == self@,
    {
        self.0
    }

    /// Parse an id from a UUID text.
    pub fn parse_str(s: &str) -> (r: Result<Self, DomainError>)
        ensures
            uuid_parsed(s@) matches Some(u) ==> (r matches Ok(id) && id@ == u),
            uuid_parsed(s@) is None ==> (r matches Err(e) && e@ == DomainErrorView::Validation(invalid_uuid_text(s@))),
            forall|u: u128| #[trigger] uuid_text(u) == s@ ==> (r matches Ok(id) && id@ == u),
    {
        match uuid_parse(s) {
            Ok(u) => Ok(CategoryId(u)),
            Err(cause) => Err(DomainError::Validation(cause)),
        }
    }

    /// The hyphenated lower-case text of the UUID behind this id.
    pub fn to_string(&self) -> (s: String)
        ensures
            s@ == uuid_text(self@),
    {
        uuid_to_string(self.0)
    }
}

impl Default for CategoryId {
    fn default() -> (id: Self)
        ensures
            uuid_version(id@) == 7,
            uuid_variant(id@) == 2,
    {
        CategoryId::new()
    }
}

/// A strongly-typed identifier for a level.
#[derive(Debug, Clone, Copy, PartialEq, Eq, Hash, Structural)]
pub struct LevelId(u128);

impl View for LevelId {
    type V = u128;

    closed spec fn view(&self) -> u128 {
        self.0
    }
}

impl LevelId {
    /// Create a new id backed by a fresh version 7 UUID.
    pub fn new() -> (id: Self)
        ensures
            uuid_version(id@) == 7,
            uuid_variant(id@) == 2,
    {
        LevelId(uuid_now_v7())
    }

    /// Create an id from the value of an existing UUID.
    pub fn from_uuid(id: u128) -> (r: Self)
        ensures
            r@ == id,
    {
        LevelId(id)
    }

    /// The value of the UUID behind this id.
    pub fn as_uuid(&self) -> (u: u128)
        ensures
            u == self@,
    {
        self.0
    }

    /// Consume this id and return the value of its UUID.
    pub fn into_uuid(self) -> (u: u128)
        ensures
            u == self@,
    {
        self.0
    }

    /// Parse an id from a UUID text.
    pub fn parse_str(s: &str) -> (r: Result<Self, DomainError>)
        ensures
            uuid_parsed(s@) matches Some(u) ==> (r matches Ok(id) && id@ == u),
            uuid_parsed(s@) is None ==> (r matches Err(e) && e@ == DomainErrorView::Validation(invalid_uuid_text(s@))),
            forall|u: u128| #[trigger] uuid_text(u) == s@ ==> (r matches Ok(id) && id@ == u),
    {
        match uuid_parse(s) {
            Ok(u) => Ok(LevelId(u)),
            Err(cause) => Err(DomainError::Validation(cause)),
        }
    }

    /// The hyphenated lower-case text of the UUID behind this id.
    pub fn to_string(&self) -> (s: String)
        ensures
            s@ == uuid_text(self@),
    {
        uuid_to_string(self.0)
    }
}

impl Default for LevelId {
    fn default() -> (id: Self)
        ensures
            uuid_version(id@) == 7,
            uuid_variant(id@) == 2,
    {
        LevelId::new()
    }
}

/// A strongly-typed identifier for a otp_code.
#[derive(Debug, Clone, Copy, PartialEq, Eq, Hash, Structural)]
pub struct OtpCodeId(u128);

impl View for OtpCodeId {
    type V = u128;

    closed spec fn view(&self) -> u128 {
        self.0
    }
}

impl OtpCodeId {
    /// Create a new id backed by a fresh version 7 UUID.
    pub fn new() -> (id: Self)
        ensures
            uuid_version(id@) == 7,
            uuid_variant(id@) == 2,
    {
        OtpCodeId(uuid_now_v7())
    }

    /// Create an id from the value of an existing UUID.
    pub fn from_uuid(id: u128) -> (r: Self)
        ensures
            r@ == id,
    {
        OtpCodeId(id)
    }

    /// The value of the UUID behind this id.
    pub fn as_uuid(&self) -> (u: u128)
        ensures
            u == self@,
    {
        self.0
    }

    /// Consume this id and return the value of its UUID.
    pub fn into_uuid(self) -> (u: u128)
        ensures
            u == self@,
    {
        self.0
    }

    /// Parse an id from a UUID text.
    pub fn parse_str(s: &str) -> (r: Result<Self, DomainError>)
        ensures
            uuid_parsed(s@) matches Some(u) ==> (r matches Ok(id) && id@ == u),
            uuid_parsed(s@) is None ==> (r matches Err(e) && e@ == DomainErrorView::Validation(invalid_uuid_text(s@))),
            forall|u: u128| #[trigger] uuid_text(u) == s@ ==> (r matches Ok(id) && id@ == u),
    {
        match uuid_parse(s) {
            Ok(u) => Ok(OtpCodeId(u)),
            Err(cause) => Err(DomainError::Validation(cause)),
        }
    }

    /// The hyphenated lower-case text of the UUID behind this id.
    pub fn to_string(&self) -> (s: String)
        ensures
            s@ == uuid_text(self@),
    {
        uuid_to_string(self.0)
    }
}

impl Default for OtpCodeId {
    fn default() -> (id: Self)
        ensures
            uuid_version(id@) == 7,
            uuid_variant(id@) == 2,
    {
        OtpCodeId::new()
    }
}

/// A strongly-typed identifier for a oauth_state.
#[derive(Debug, Clone, Copy, PartialEq, Eq, Hash, Structural)]
pub struct OAuthStateId(u128);

impl View for OAuthStateId {
    type V = u128;

    closed spec fn view(&self) -> u128 {
        self.0
    }
}

impl OAuthStateId {
    /// Create a new id backed by a fresh version 7 UUID.
    pub fn new() -> (id: Self)
        ensures
            uuid_version(id@) == 7,
            uuid_variant(id@) == 2,
    {
        OAuthStateId(uuid_now_v7())
    }

    /// Create an id from the value of an existing UUID.
    pub fn from_uuid(id: u128) -> (r: Self)
        ensures
            r@ == id,
    {
        OAuthStateId(id)
    }

    /// The value of the UUID behind this id.
    pub fn as_uuid(&self) -> (u: u128)
        ensures
            u == self@,
    {
        self.0
    }

    /// Consume this id and return the value of its UUID.
    pub fn into_uuid(self) -> (u: u128)
        ensures
            u == self@,
    {
        self.0
    }

    /// Parse an id from a UUID text.
    pub fn parse_str(s: &str) -> (r: Result<Self, DomainError>)
        ensures
            uuid_parsed(s@) matches Some(u) ==> (r matches Ok(id) && id@ == u),
            uuid_parsed(s@) is None ==> (r matches Err(e) && e@ == DomainErrorView::Validation(invalid_uuid_text(s@))),
            forall|u: u128| #[trigger] uuid_text(u) == s@ ==> (r matches Ok(id) && id@ == u),
    {
        match uuid_parse(s) {
            Ok(u) => Ok(OAuthStateId(u)),
            Err(cause) => Err(DomainError::Validation(cause)),
        }
    }

    /// The hyphenated lower-case text of the UUID behind this id.
    pub fn to_string(&self) -> (s: String)
        ensures
            s@ == uuid_text(self@),
    {
        uuid_to_string(self.0)
    }
}

impl Default for OAuthStateId {
    fn default() -> (id: Self)
        ensures
            uuid_version(id@) == 7,
            uuid_variant(id@) == 2,
    {
        OAuthStateId::new()
    }
}

/// A strongly-typed identifier for a auth_code.
#[derive(Debug, Clone, Copy, PartialEq, Eq, Hash, Structural)]
pub struct AuthCodeId(u128);

impl View for AuthCodeId {
    type V = u128;

    closed spec fn view(&self) -> u128 {
        self.0
    }
}

impl AuthCodeId {
    /// Create a new id backed by a fresh version 7 UUID.
    pub fn new() -> (id: Self)
        ensures
            uuid_version(id@) == 7,
            uuid_variant(id@) == 2,
    {
        AuthCodeId(uuid_now_v7())
    }

    /// Create an id from the value of an existing UUID.
    pub fn from_uuid(id: u128) -> (r: Self)
        ensures
            r@ == id,
    {
        AuthCodeId(id)
    }

    /// The value of the UUID behind this id.
    pub fn as_uuid(&self) -> (u: u128)
        ensures
            u == self@,
    {
        self.0
    }

    /// Consume this id and return the value of its UUID.
    pub fn into_uuid(self) -> (u: u128)
        ensures
            u == self@,
    {
        self.0
    }

    /// Parse an id from a UUID text.
    pub fn parse_str(s: &str) -> (r: Result<Self, DomainError>)
        ensures
            uuid_parsed(s@) matches Some(u) ==> (r matches Ok(id) && id@ == u),
            uuid_parsed(s@) is None ==> (r matches Err(e) && e@ == DomainErrorView::Validation(invalid_uuid_text(s@))),
            forall|u: u128| #[trigger] uuid_text(u) == s@ ==> (r matches Ok(id) && id@ == u),
    {
        match uuid_parse(s) {
            Ok(u) => Ok(AuthCodeId(u)),
            Err(cause) => Err(DomainError::Validation(cause)),
        }
    }

    /// The hyphenated lower-case text of the UUID behind this id.
    pub fn to_string(&self) -> (s: String)
        ensures
            s@ == uuid_text(self@),
    {
        uuid_to_string(self.0)
    }
}

impl Default for AuthCodeId {
    fn default() -> (id: Self)
        ensures
            uuid_version(id@) == 7,
            uuid_variant(id@) == 2,
    {
        AuthCodeId::new()
    }
}

/// A strongly-typed identifier for a contact.
#[derive(Debug, Clone, Copy, PartialEq, Eq, Hash, Structural)]
pub struct ContactId(u128);

impl View for ContactId {
    type V = u128;

    closed spec fn view(&self) -> u128 {
        self.0
    }
}

impl ContactId {
    /// Create a new id backed by a fresh version 7 UUID.
    pub fn new() -> (id: Self)
        ensures
            uuid_version(id@) == 7,
            uuid_variant(id@) == 2,
    {
        ContactId(uuid_now_v7())
    }

    /// Create an id from the value of an existing UUID.
    pub fn from_uuid(id: u128) -> (r: Self)
        ensures
            r@ == id,
    {
        ContactId(id)
    }

    /// The value of the UUID behind this id.
    pub fn as_uuid(&self) -> (u: u128)
        ensures
            u == self@,
    {
        self.0
    }

    /// Consume this id and return the value of its UUID.
    pub fn into_uuid(self) -> (u: u128)
        ensures
            u == self@,
    {
        self.0
    }

    /// Parse an id from a UUID text.
    pub fn parse_str(s: &str) -> (r: Result<Self, DomainError>)
        ensures
            uuid_parsed(s@) matches Some(u) ==> (r matches Ok(id) && id@ == u),
            uuid_parsed(s@) is None ==> (r matches Err(e) && e@ == DomainErrorView::Validation(invalid_uuid_text(s@))),
            forall|u: u128| #[trigger] uuid_text(u) == s@ ==> (r matches Ok(id) && id@ == u),
    {
        match uuid_parse(s) {
            Ok(u) => Ok(ContactId(u)),
            Err(cause) => Err(DomainError::Validation(cause)),
        }
    }

    /// The hyphenated lower-case text of the UUID behind this id.
    pub fn to_string(&self) -> (s: String)
        ensures
            s@ == uuid_text(self@),
    {
        uuid_to_string(self.0)
    }
}

impl Default for ContactId {
    fn default() -> (id: Self)
        ensures
            uuid_version(id@) == 7,
            uuid_variant(id@) == 2,
    {
        ContactId::new()
    }
}

/// A strongly-typed identifier for a job.
#[derive(Debug, Clone, Copy, PartialEq, Eq, Hash, Structural)]
pub struct JobId(u128);

impl View for JobId {
    type V = u128;

    closed spec fn view(&self) -> u128 {
        self.0
    }
}

impl JobId {
    /// Create a new id backed by a fresh version 7 UUID.
    pub fn new() -> (id: Self)
        ensures
            uuid_version(id@) == 7,
            uuid_variant(id@) == 2,
    {
        JobId(uuid_now_v7())
    }

    /// Create an id from the value of an existing UUID.
    pub fn from_uuid(id: u128) -> (r: Self)
        ensures
            r@ == id,
    {
        JobId(id)
    }

    /// The value of the UUID behind this id.
    pub fn as_uuid(&self) -> (u: u128)
        ensures
            u == self@,
    {
        self.0
    }

    /// Consume this id and return the value of its UUID.
    pub fn into_uuid(self) -> (u: u128)
        ensures
            u == self@,
    {
        self.0
    }

    /// Parse an id from a UUID text.
    pub fn parse_str(s: &str) -> (r: Result<Self, DomainError>)
        ensures
            uuid_parsed(s@) matches Some(u) ==> (r matches Ok(id) && id@ == u),
            uuid_parsed(s@) is None ==> (r matches Err(e) && e@ == DomainErrorView::Validation(invalid_uuid_text(s@))),
            forall|u: u128| #[trigger] uuid_text(u) == s@ ==> (r matches Ok(id) && id@ == u),
    {
        match uuid_parse(s) {
            Ok(u) => Ok(JobId(u)),
            Err(cause) => Err(DomainError::Validation(cause)),
        }
    }

    /// The hyphenated lower-case text of the UUID behind this id.
    pub fn to_string(&self) -> (s: String)
        ensures
            s@ == uuid_text(self@),
    {
        uuid_to_string(self.0)
    }
}

impl Default for JobId {
    fn default() -> (id: Self)
        ensures
            uuid_version(id@) == 7,
            uuid_variant(id@) == 2,
    {
        JobId::new()
    }
}

/// A strongly-typed identifier for a refund_log.
#[derive(Debug, Clone, Copy, PartialEq, Eq, Hash, Structural)]
pub struct RefundLogId(u128);

impl View for RefundLogId {
    type V = u128;

    closed spec fn view(&self) -> u128 {
        self.0
    }
}

impl RefundLogId {
    /// Create a new id backed by a fresh version 7 UUID.
    pub fn new() -> (id: Self)
        ensures
            uuid_version(id@) == 7,
            uuid_variant(id@) == 2,
    {
        RefundLogId(uuid_now_v7())
    }

    /// Create an id from the value of an existing UUID.
    pub fn from_uuid(id: u128) -> (r: Self)
        ensures
            r@ == id,
    {
        RefundLogId(id)
    }

    /// The value of the UUID behind this id.
    pub fn as_uuid(&self) -> (u: u128)
        ensures
            u == self@,
    {
        self.0
    }

    /// Consume this id and return the value of its UUID.
    pub fn into_uuid(self) -> (u: u128)
        ensures
            u == self@,
    {
        self.0
    }

    /// Parse an id from a UUID text.
    pub fn parse_str(s: &str) -> (r: Result<Self, DomainError>)
        ensures
            uuid_parsed(s@) matches Some(u) ==> (r matches Ok(id) && id@ == u),
            uuid_parsed(s@) is None ==> (r matches Err(e) && e@ == DomainErrorView::Validation(invalid_uuid_text(s@))),
            forall|u: u128| #[trigger] uuid_text(u) == s@ ==> (r matches Ok(id) && id@ == u),
    {
        match uuid_parse(s) {
            Ok(u) => Ok(RefundLogId(u)),
            Err(cause) => Err(DomainError::Validation(cause)),
        }
    }

    /// The hyphenated lower-case text of the UUID behind this id.
    pub fn to_string(&self) -> (s: String)
        ensures
            s@ == uuid_text(self@),
    {
        uuid_to_string(self.0)
    }
}

impl Default for RefundLogId {
    fn default() -> (id: Self)
        ensures
            uuid_version(id@) == 7,
            uuid_variant(id@) == 2,
    {
        RefundLogId::new()
    }
}

} // verus!
