//! A payment gateway transaction id.
use crate::error::{DomainError, DomainErrorView};
use crate::text::{is_trimmed, lemma_trimmed_idempotent, trim, trimmed};
use vstd::prelude::*;

verus! {

/// A payment gateway transaction id (trimmed, never empty).
#[derive(Debug, PartialEq, Eq)]
pub struct TransactionId(String);

impl Clone for TransactionId {
    fn clone(&self) -> (r: Self)
        ensures
            r == *self,
    {
        proof { use_type_invariant(self); }
        TransactionId(self.0.clone())
    }
}

impl View for TransactionId {
    type V = Seq<char>;

    closed spec fn view(&self) -> Seq<char> {
        self.0@
    }
}

impl TransactionId {
    /// The text of a transaction id is never empty and already trimmed.
    #[verifier::type_invariant]
    spec fn inv(self) -> bool {
        self.0@.len() > 0 && is_trimmed(self.0@)
    }

    /// Create a new transaction id from the trimmed input; fails when nothing
    /// but whitespace is given.
    pub fn new(value: &str) -> (r: Result<Self, DomainError>)
        ensures
            trimmed(value@).len() > 0 ==> (r matches Ok(t) && t@ == trimmed(value@)),
            trimmed(value@).len() == 0 ==> (r matches Err(e) && e@ == DomainErrorView::Validation(
                "Transaction ID cannot be empty"@,
            )),
    {
        let t = trim(value);
        if t.is_empty() {
            return Err(DomainError::validation("Transaction ID cannot be empty"));
        }
        proof { lemma_trimmed_idempotent(value@); }
        Ok(TransactionId(t.to_owned()))
    }

    /// Access the inner transaction id text.
    pub fn as_str(&self) -> (s: &str)
        ensures
            s@ == self@,
            s@.len() > 0,
            is_trimmed(s@),
    {
        proof { use_type_invariant(self); }
        self.0.as_str()
    }

    /// Consume the transaction id, returning the inner text.
    pub fn into_inner(self) -> (s: String)
        ensures
            s@ == self@,
            s@.len() > 0,
            is_trimmed(s@),
    {
        proof { use_type_invariant(&self); }
        self.0
    }

    /// The transaction id text (what `Display` writes).
    pub fn to_string(&self) -> (s: String)
        ensures
            s@ == self@,
    {
        self.0.clone()
    }
}

/// Normalizing a transaction id's own text changes nothing: the text of any
/// transaction id is accepted again by `TransactionId::new` as the same id.
pub proof fn lemma_transaction_id_text_reparses(s: Seq<char>)
    requires
        s.len() > 0,
        is_trimmed(s),
    ensures
        trimmed(s) == s,
        trimmed(s).len() > 0,
{
    lemma_trimmed_idempotent(s);
}

} // verus!
