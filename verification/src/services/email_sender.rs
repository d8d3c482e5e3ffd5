//! Errors of the email sender.
use vstd::prelude::*;

verus! {

/// Errors returned when sending an email.
#[derive(Debug)]
pub enum EmailError {
    /// The email could not be sent.
    SendFailed(String),
    /// Invalid email address or formatting error.
    InvalidEmail(String),
}

/// The display text of an email error.
pub open spec fn email_error_text(e: &EmailError) -> Seq<char> {
    match e {
        EmailError::SendFailed(m) => "Failed to send email: "@ + m@,
        EmailError::InvalidEmail(m) => "Invalid email: "@ + m@,
    }
}

impl EmailError {
    /// The display text of this error.
    pub fn to_string(&self) -> (s: String)
        ensures
            s@ == email_error_text(self),
    {
        match self {
            EmailError::SendFailed(m) => {
                let mut s = "Failed to send email: ".to_owned();
                s.append(m.as_str());
                s
            },
            EmailError::InvalidEmail(m) => {
                let mut s = "Invalid email: ".to_owned();
                s.append(m.as_str());
                s
            },
        }
    }
}

} // verus!
