//! The user aggregate, its roles and account statuses.
use crate::clock::{is_clock_time, now, Timestamp};
use crate::error::{transition_text, DomainError, DomainErrorView};
use crate::events::DomainEvent;
use crate::text::str_eq;
use crate::value_objects::{Email, UserId};
use crate::value_objects::uuid_text::uuid_version;
use vstd::prelude::*;

verus! {

/// The role assigned to a user.
#[derive(Debug, Clone, Copy, PartialEq, Eq, Structural)]
pub enum UserRole {
    /// Super administrator with full system access.
    SuperAdmin,
    /// Administrator with elevated privileges.
    Admin,
    /// Instructor who can create and manage workshops.
    Instructor,
    /// Regular student / attendee.
    Student,
}

/// The snake_case text of a role.
pub open spec fn user_role_text(r: UserRole) -> Seq<char> {
    match r {
        UserRole::SuperAdmin => "super_admin"@,
        UserRole::Admin => "admin"@,
        UserRole::Instructor => "instructor"@,
        UserRole::Student => "student"@,
    }
}

/// The role a text names, if any.
pub open spec fn user_role_from_text(t: Seq<char>) -> Option<UserRole> {
    if t == "super_admin"@ {
        Some(UserRole::SuperAdmin)
    } else if t == "admin"@ {
        Some(UserRole::Admin)
    } else if t == "instructor"@ {
        Some(UserRole::Instructor)
    } else if t == "student"@ {
        Some(UserRole::Student)
    } else {
        None
    }
}

impl UserRole {
    /// Return the snake_case string representation of this role.
    pub fn as_str(&self) -> (s: &'static str)
        ensures
            s@ == user_role_text(*self),
    {
        match self {
            UserRole::SuperAdmin => "super_admin",
            UserRole::Admin => "admin",
            UserRole::Instructor => "instructor",
            UserRole::Student => "student",
        }
    }

    /// Parse a role from its snake_case string representation.
    /// Returns `None` for unknown strings.
    pub fn from_str(s: &str) -> (r: Option<Self>)
        ensures
            r == user_role_from_text(s@),
    {
        if str_eq(s, "super_admin") {
            Some(UserRole::SuperAdmin)
        } else if str_eq(s, "admin") {
            Some(UserRole::Admin)
        } else if str_eq(s, "instructor") {
            Some(UserRole::Instructor)
        } else if str_eq(s, "student") {
            Some(UserRole::Student)
        } else {
            None
        }
    }
}

/// The status of a user account.
#[derive(Debug, Clone, Copy, PartialEq, Eq, Structural)]
pub enum UserStatus {
    /// Account is active and usable.
    Active,
    /// Account is inactive (e.g. user disabled it).
    Inactive,
    /// Account has been blocked by an administrator.
    Blocked,
}

/// The lowercase text of an account status.
pub open spec fn user_status_text(s: UserStatus) -> Seq<char> {
    match s {
        UserStatus::Active => "active"@,
        UserStatus::Inactive => "inactive"@,
        UserStatus::Blocked => "blocked"@,
    }
}

/// The account status a text names, if any.
pub open spec fn user_status_from_text(t: Seq<char>) -> Option<UserStatus> {
    if t == "active"@ {
        Some(UserStatus::Active)
    } else if t == "inactive"@ {
        Some(UserStatus::Inactive)
    } else if t == "blocked"@ {
        Some(UserStatus::Blocked)
    } else {
        None
    }
}

impl UserStatus {
    /// Return the lowercase string representation of this status.
    pub fn as_str(&self) -> (s: &'static str)
        ensures
            s@ == user_status_text(*self),
    {
        match self {
            UserStatus::Active => "active",
            UserStatus::Inactive => "inactive",
            UserStatus::Blocked => "blocked",
        }
    }

    /// Parse a status from its lowercase string representation.
    /// Returns `None` for unknown strings.
    pub fn from_str(s: &str) -> (r: Option<Self>)
        ensures
            r == user_status_from_text(s@),
    {
        if str_eq(s, "active") {
            Some(UserStatus::Active)
        } else if str_eq(s, "inactive") {
            Some(UserStatus::Inactive)
        } else if str_eq(s, "blocked") {
            Some(UserStatus::Blocked)
        } else {
            None
        }
    }
}

/// Aggregate root for a user.
#[derive(Debug, Clone)]
pub struct User {
    /// Unique identifier for this user.
    pub id: UserId,
    /// Verified email address (lowercased).
    pub email: Email,
    /// Display name.
    pub name: String,
    /// Hash of the user's password.
    pub password_hash: Option<String>,
    /// Optional phone number.
    pub phone: Option<String>,
    /// URL to the user's profile picture.
    pub picture_url: Option<String>,
    /// Age in years.
    pub age: Option<i16>,
    /// Physical / mailing address.
    pub address: Option<String>,
    /// System role (affects permissions).
    pub role: UserRole,
    /// Account status.
    pub status: UserStatus,
    /// Whether the email address has been verified.
    pub is_verified: bool,
    /// Instructor expertise description.
    pub expertise: Option<String>,
    /// Short biography.
    pub bio: Option<String>,
    /// Timestamp of account creation.
    pub created_at: Timestamp,
    /// Timestamp of the last update.
    pub updated_at: Timestamp,
}

/// Roles with admin-level privileges.
pub open spec fn role_is_admin(r: UserRole) -> bool {
    r == UserRole::Admin || r == UserRole::SuperAdmin
}

/// Roles that may manage workshops.
pub open spec fn role_can_manage_workshops(r: UserRole) -> bool {
    r == UserRole::Admin || r == UserRole::SuperAdmin || r == UserRole::Instructor
}

/// The outcome of `User::verify` on a user that was `before` and is `after`
/// the call with result `r`.
pub open spec fn user_verify_outcome(before: User, after: User, r: Result<DomainEvent, DomainError>) -> bool {
    if before.is_verified {
        after == before && (r matches Err(e) && e@ == DomainErrorView::InvalidStatusTransition(
            transition_text("verified"@, "verified"@),
        ))
    } else {
        after == User { is_verified: true, updated_at: after.updated_at, ..before } && is_clock_time(
            after.updated_at,
        ) && r
            == Ok::<DomainEvent, DomainError>(DomainEvent::UserVerified { user_id: before.id })
    }
}

/// `new` if given, else `old`.
pub open spec fn or_keep<T>(new: Option<T>, old: T) -> T {
    match new {
        Some(v) => v,
        None => old,
    }
}

/// `Some(new)` if given, else `old`.
pub open spec fn or_keep_opt<T>(new: Option<T>, old: Option<T>) -> Option<T> {
    match new {
        Some(v) => Some(v),
        None => old,
    }
}

impl User {
    /// Create a new user with default role (Student) and active status.
    ///
    /// Returns the user along with a `UserRegistered` domain event.
    pub fn new(email: Email, name: String, password_hash: Option<String>) -> (r: (Self, DomainEvent))
        ensures
            uuid_version(r.0.id@) == 7,
            r.0.email == email,
            r.0.name == name,
            r.0.password_hash == password_hash,
            r.0.phone is None,
            r.0.picture_url is None,
            r.0.age is None,
            r.0.address is None,
            r.0.role == UserRole::Student,
            r.0.status == UserStatus::Active,
            !r.0.is_verified,
            r.0.expertise is None,
            r.0.bio is None,
            r.0.created_at == r.0.updated_at,
            is_clock_time(r.0.created_at),
            r.1 == (DomainEvent::UserRegistered { user_id: r.0.id, email }),
    {
        let now = now();
        let user = User {
            id: UserId::new(),
            email,
            name,
            password_hash,
            phone: None,
            picture_url: None,
            age: None,
            address: None,
            role: UserRole::Student,
            status: UserStatus::Active,
            is_verified: false,
            expertise: None,
            bio: None,
            created_at: now,
            updated_at: now,
        };
        let event = DomainEvent::UserRegistered { user_id: user.id, email: user.email.clone() };
        (user, event)
    }

    /// Mark the user's email as verified.
    ///
    /// Returns an error if the user is already verified.
    pub fn verify(&mut self) -> (r: Result<DomainEvent, DomainError>)
        ensures
            user_verify_outcome(*old(self), *final(self), r),
    {
        if self.is_verified {
            return Err(DomainError::invalid_transition("verified", "verified"));
        }
        self.is_verified = true;
        self.updated_at = now();
        Ok(DomainEvent::UserVerified { user_id: self.id })
    }

    /// Change the user's password hash.
    pub fn change_password(&mut self, new_password_hash: String) -> (r: Result<DomainEvent, DomainError>)
        ensures
            *final(self) == (User {
                password_hash: Some(new_password_hash),
                updated_at: final(self).updated_at,
                ..*old(self)
            }),
            is_clock_time(final(self).updated_at),
            r == Ok::<DomainEvent, DomainError>(DomainEvent::PasswordChanged { user_id: old(self).id }),
    {
        self.password_hash = Some(new_password_hash);
        self.updated_at = now();
        Ok(DomainEvent::PasswordChanged { user_id: self.id })
    }

    /// Update profile fields. `None` fields are left unchanged.
    pub fn update_profile(
        &mut self,
        name: Option<String>,
        phone: Option<String>,
        age: Option<i16>,
        address: Option<String>,
        expertise: Option<String>,
        bio: Option<String>,
    ) -> (ev: DomainEvent)
        ensures
            *final(self) == (User {
                name: or_keep(name, old(self).name),
                phone: or_keep_opt(phone, old(self).phone),
                age: or_keep_opt(age, old(self).age),
                address: or_keep_opt(address, old(self).address),
                expertise: or_keep_opt(expertise, old(self).expertise),
                bio: or_keep_opt(bio, old(self).bio),
                updated_at: final(self).updated_at,
                ..*old(self)
            }),
            is_clock_time(final(self).updated_at),
            ev == (DomainEvent::UserUpdated { user_id: old(self).id }),
    {
        if let Some(name) = name {
            self.name = name;
        }
        if let Some(phone) = phone {
            self.phone = Some(phone);
        }
        if let Some(age) = age {
            self.age = Some(age);
        }
        if let Some(address) = address {
            self.address = Some(address);
        }
        if let Some(expertise) = expertise {
            self.expertise = Some(expertise);
        }
        if let Some(bio) = bio {
            self.bio = Some(bio);
        }
        self.updated_at = now();
        DomainEvent::UserUpdated { user_id: self.id }
    }

    /// Check if the user has admin-level privileges.
    pub fn is_admin(&self) -> (b: bool)
        ensures
            b == role_is_admin(self.role),
    {
        match self.role {
            UserRole::Admin | UserRole::SuperAdmin => true,
            _ => false,
        }
    }

    /// Check if the user is a super admin.
    pub fn is_super_admin(&self) -> (b: bool)
        ensures
            b == (self.role == UserRole::SuperAdmin),
    {
        match self.role {
            UserRole::SuperAdmin => true,
            _ => false,
        }
    }

    /// Check if the user can manage workshops (admin, super admin, or instructor).
    pub fn can_manage_workshops(&self) -> (b: bool)
        ensures
            b == role_can_manage_workshops(self.role),
    {
        match self.role {
            UserRole::Admin | UserRole::SuperAdmin | UserRole::Instructor => true,
            _ => false,
        }
    }
}

/// The privileges are nested: a super admin is an admin, an admin can manage
/// workshops, and a student has none of these.
pub proof fn lemma_role_privileges_nested(r: UserRole)
    ensures
        r == UserRole::SuperAdmin ==> role_is_admin(r),
        role_is_admin(r) ==> role_can_manage_workshops(r),
        r == UserRole::Student ==> !role_can_manage_workshops(r),
{
}

/// Exactly admins and super admins have admin-level privileges, exactly
/// they and instructors may manage workshops, and students may do neither.
pub proof fn lemma_role_privileges_exact(r: UserRole)
    ensures
        role_is_admin(r) <==> (r == UserRole::Admin || r == UserRole::SuperAdmin),
        !role_is_admin(UserRole::Instructor),
        !role_is_admin(UserRole::Student),
        role_can_manage_workshops(r) <==> (r == UserRole::Admin || r == UserRole::SuperAdmin || r
            == UserRole::Instructor),
        !role_can_manage_workshops(UserRole::Student),
{
}

/// Verification happens once: after a successful `verify`, a second `verify`
/// is refused and leaves the user as it was.
pub proof fn lemma_verify_once(
    a: User,
    b: User,
    c: User,
    r1: Result<DomainEvent, DomainError>,
    r2: Result<DomainEvent, DomainError>,
)
    requires
        user_verify_outcome(a, b, r1),
        r1 is Ok,
        user_verify_outcome(b, c, r2),
    ensures
        b.is_verified,
        r2 is Err,
        c == b,
{
}

/// Reading back the text of a role or status gives it again, and distinct
/// roles or statuses have distinct texts.
pub proof fn lemma_user_texts_round_trip(r: UserRole, q: UserRole, s: UserStatus, t: UserStatus)
    ensures
        user_role_from_text(user_role_text(r)) == Some(r),
        user_role_text(r) == user_role_text(q) ==> r == q,
        user_status_from_text(user_status_text(s)) == Some(s),
        user_status_text(s) == user_status_text(t) ==> s == t,
{
    reveal_strlit("super_admin");
    reveal_strlit("admin");
    reveal_strlit("instructor");
    reveal_strlit("student");
    reveal_strlit("active");
    reveal_strlit("inactive");
    reveal_strlit("blocked");
    assert("super_admin"@.len() == 11);
    assert("admin"@.len() == 5);
    assert("instructor"@.len() == 10);
    assert("student"@.len() == 7);
    assert("active"@.len() == 6);
    assert("inactive"@.len() == 8);
    assert("blocked"@.len() == 7);
}

} // verus!
