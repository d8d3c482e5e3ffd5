//! The review aggregate and its moderation machine.
use crate::clock::{is_clock_time, now, Timestamp};
use crate::error::{transition_text, DomainError, DomainErrorView};
use crate::events::DomainEvent;
use crate::text::str_eq;
use crate::value_objects::{ReviewId, UserId, WorkshopId};
use crate::value_objects::uuid_text::uuid_version;
use vstd::prelude::*;

verus! {

/// The moderation status of a review.
#[derive(Debug, Clone, Copy, PartialEq, Eq, Structural)]
pub enum ReviewStatus {
    /// Awaiting moderator approval.
    Pending,
    /// Approved and visible to the public.
    Approved,
    /// Rejected and hidden from the public.
    Rejected,
}

/// The lowercase text of a review status.
pub open spec fn review_status_text(s: ReviewStatus) -> Seq<char> {
    match s {
        ReviewStatus::Pending => "pending"@,
        ReviewStatus::Approved => "approved"@,
        ReviewStatus::Rejected => "rejected"@,
    }
}

/// The review status a text names, if any.
pub open spec fn review_status_from_text(t: Seq<char>) -> Option<ReviewStatus> {
    if t == "pending"@ {
        Some(ReviewStatus::Pending)
    } else if t == "approved"@ {
        Some(ReviewStatus::Approved)
    } else if t == "rejected"@ {
        Some(ReviewStatus::Rejected)
    } else {
        None
    }
}

impl ReviewStatus {
    /// Return the lowercase string representation of this status.
    pub fn as_str(&self) -> (s: &'static str)
        ensures
            s@ == review_status_text(*self),
    {
        match self {
            ReviewStatus::Pending => "pending",
            ReviewStatus::Approved => "approved",
            ReviewStatus::Rejected => "rejected",
        }
    }

    /// Parse a status from its lowercase string representation.
    /// Returns `None` for unknown strings.
    pub fn from_str(s: &str) -> (r: Option<Self>)
        ensures
            r == review_status_from_text(s@),
    {
        if str_eq(s, "pending") {
            Some(ReviewStatus::Pending)
        } else if str_eq(s, "approved") {
            Some(ReviewStatus::Approved)
        } else if str_eq(s, "rejected") {
            Some(ReviewStatus::Rejected)
        } else {
            None
        }
    }
}

/// Aggregate root for a review (user feedback on a workshop).
#[derive(Debug, Clone)]
pub struct Review {
    pub(crate) id: ReviewId,
    pub(crate) user_id: UserId,
    pub(crate) workshop_id: WorkshopId,
    pub(crate) rating: i16,
    pub(crate) title: String,
    pub(crate) content: String,
    pub(crate) status: ReviewStatus,
    pub(crate) created_at: Timestamp,
    pub(crate) updated_at: Timestamp,
}

/// Mathematical model of a [`Review`].
pub struct ReviewView {
    pub id: ReviewId,
    pub user_id: UserId,
    pub workshop_id: WorkshopId,
    pub rating: i16,
    pub title: Seq<char>,
    pub content: Seq<char>,
    pub status: ReviewStatus,
    pub created_at: Timestamp,
    pub updated_at: Timestamp,
}

impl View for Review {
    type V = ReviewView;

    closed spec fn view(&self) -> ReviewView {
        ReviewView {
            id: self.id,
            user_id: self.user_id,
            workshop_id: self.workshop_id,
            rating: self.rating,
            title: self.title@,
            content: self.content@,
            status: self.status,
            created_at: self.created_at,
            updated_at: self.updated_at,
        }
    }
}

/// The validation message for the fields of a new review, or `None` when
/// they are accepted: a rating from 1 to 5, a title of at most 120
/// characters and a content of at most 2000 characters, checked in that order.
pub open spec fn review_problem(rating: i16, title: Seq<char>, content: Seq<char>) -> Option<Seq<char>> {
    if !(1 <= rating <= 5) {
        Some("Rating must be between 1 and 5"@)
    } else if title.len() > 120 {
        Some("Title must be 120 characters or less"@)
    } else if content.len() > 2000 {
        Some("Content must be 2000 characters or less"@)
    } else {
        None
    }
}

/// The requests a moderator makes of a review.
#[derive(PartialEq, Eq, Structural)]
pub enum ReviewAction {
    /// Approve the review.
    Approve,
    /// Reject the review.
    Reject,
}

/// The moderation machine: the status an action leads to, or `None` when the
/// action is refused in that status.
pub open spec fn review_next(s: ReviewStatus, a: ReviewAction) -> Option<ReviewStatus> {
    match (s, a) {
        (ReviewStatus::Pending, ReviewAction::Approve) => Some(ReviewStatus::Approved),
        (ReviewStatus::Pending, ReviewAction::Reject) => Some(ReviewStatus::Rejected),
        _ => None,
    }
}

/// `after` is `before` with only the status changed and the update time
/// stamped from the clock.
pub open spec fn review_moved_to(before: ReviewView, after: ReviewView, s: ReviewStatus) -> bool {
    &&& after == ReviewView { status: s, updated_at: after.updated_at, ..before }
    &&& is_clock_time(after.updated_at)
}

/// The event of a moderation of a review.
pub open spec fn review_moderated(id: ReviewId, from: Seq<char>, to: Seq<char>, e: DomainEvent) -> bool {
    e matches DomainEvent::ReviewModerated { review_id, from: f, to: t } && review_id == id && f@
        == from && t@ == to
}

/// The error a moderation towards `target` is refused with.
pub open spec fn review_refused(before: ReviewView, target: Seq<char>, r: Result<DomainEvent, DomainError>) -> bool {
    r matches Err(e) && e@ == DomainErrorView::InvalidStatusTransition(
        transition_text(review_status_text(before.status), target),
    )
}

impl Review {
    /// Create a new review with Pending status.
    ///
    /// Validates that rating is between 1 and 5, title is at most 120
    /// characters, and content at most 2000 characters.
    ///
    /// Returns the review along with a `ReviewCreated` domain event.
    pub fn new(user_id: UserId, workshop_id: WorkshopId, rating: i16, title: String, content: String) -> (r:
        Result<(Self, DomainEvent), DomainError>)
        ensures
            review_problem(rating, title@, content@) matches Some(m) ==> (r matches Err(e) && e@
                == DomainErrorView::Validation(m)),
            review_problem(rating, title@, content@) is None ==> (r matches Ok(p) && {
                let v = p.0@;
                &&& uuid_version(v.id@) == 7
                &&& v.user_id == user_id
                &&& v.workshop_id == workshop_id
                &&& v.rating == rating
                &&& v.title == title@
                &&& v.content == content@
                &&& v.status == ReviewStatus::Pending
                &&& v.created_at == v.updated_at
                &&& is_clock_time(v.created_at)
                &&& p.1 == DomainEvent::ReviewCreated { review_id: v.id }
            }),
    {
        if !(1 <= rating && rating <= 5) {
            return Err(DomainError::validation("Rating must be between 1 and 5"));
        }
        if title.as_str().unicode_len() > 120 {
            return Err(DomainError::validation("Title must be 120 characters or less"));
        }
        if content.as_str().unicode_len() > 2000 {
            return Err(DomainError::validation("Content must be 2000 characters or less"));
        }
        let now = now();
        let review = Review {
            id: ReviewId::new(),
            user_id,
            workshop_id,
            rating,
            title,
            content,
            status: ReviewStatus::Pending,
            created_at: now,
            updated_at: now,
        };
        let event = DomainEvent::ReviewCreated { review_id: review.id };
        Ok((review, event))
    }

    /// Approve a pending review.
    ///
    /// Returns an error if the review is not currently Pending.
    pub fn approve(&mut self) -> (r: Result<DomainEvent, DomainError>)
        ensures
            match review_next(old(self)@.status, ReviewAction::Approve) {
                Some(s) => review_moved_to(old(self)@, final(self)@, s) && (r matches Ok(e)
                    && review_moderated(old(self)@.id, "pending"@, "approved"@, e)),
                None => final(self)@ == old(self)@ && review_refused(old(self)@, "approved"@, r),
            },
    {
        match self.status {
            ReviewStatus::Pending => {
                self.status = ReviewStatus::Approved;
                self.updated_at = now();
                Ok(DomainEvent::ReviewModerated { review_id: self.id, from: "pending", to: "approved" })
            },
            _ => Err(DomainError::invalid_transition(self.status.as_str(), "approved")),
        }
    }

    /// Reject a pending review.
    ///
    /// Returns an error if the review is not currently Pending.
    pub fn reject(&mut self) -> (r: Result<DomainEvent, DomainError>)
        ensures
            match review_next(old(self)@.status, ReviewAction::Reject) {
                Some(s) => review_moved_to(old(self)@, final(self)@, s) && (r matches Ok(e)
                    && review_moderated(old(self)@.id, "pending"@, "rejected"@, e)),
                None => final(self)@ == old(self)@ && review_refused(old(self)@, "rejected"@, r),
            },
    {
        match self.status {
            ReviewStatus::Pending => {
                self.status = ReviewStatus::Rejected;
                self.updated_at = now();
                Ok(DomainEvent::ReviewModerated { review_id: self.id, from: "pending", to: "rejected" })
            },
            _ => Err(DomainError::invalid_transition(self.status.as_str(), "rejected")),
        }
    }

    /// Unique identifier for this review.
    pub fn id(&self) -> (r: ReviewId)
        ensures
            r == self@.id,
    {
        self.id
    }

    /// The user who wrote the review.
    pub fn user_id(&self) -> (r: UserId)
        ensures
            r == self@.user_id,
    {
        self.user_id
    }

    /// The workshop being reviewed.
    pub fn workshop_id(&self) -> (r: WorkshopId)
        ensures
            r == self@.workshop_id,
    {
        self.workshop_id
    }

    /// Rating from 1 to 5.
    pub fn rating(&self) -> (r: i16)
        ensures
            r == self@.rating,
    {
        self.rating
    }

    /// Short title.
    pub fn title(&self) -> (r: &str)
        ensures
            r@ == self@.title,
    {
        self.title.as_str()
    }

    /// Full review text.
    pub fn content(&self) -> (r: &str)
        ensures
            r@ == self@.content,
    {
        self.content.as_str()
    }

    /// Moderation status.
    pub fn status(&self) -> (r: ReviewStatus)
        ensures
            r == self@.status,
    {
        self.status
    }

    /// Timestamp of creation.
    pub fn created_at(&self) -> (r: Timestamp)
        ensures
            r == self@.created_at,
    {
        self.created_at
    }

    /// Timestamp of the last update.
    pub fn updated_at(&self) -> (r: Timestamp)
        ensures
            r == self@.updated_at,
    {
        self.updated_at
    }

    /// Set the rating (no validation, as an edit by its owner).
    pub fn set_rating(&mut self, rating: i16)
        ensures
            final(self)@ == (ReviewView { rating, ..old(self)@ }),
    {
        self.rating = rating;
    }

    /// Set the title.
    pub fn set_title(&mut self, title: String)
        ensures
            final(self)@ == (ReviewView { title: title@, ..old(self)@ }),
    {
        self.title = title;
    }

    /// Set the content.
    pub fn set_content(&mut self, content: String)
        ensures
            final(self)@ == (ReviewView { content: content@, ..old(self)@ }),
    {
        self.content = content;
    }

    /// Set the update time to now: a fresh reading of the clock, every
    /// other field unchanged.
    pub fn touch(&mut self)
        ensures
            final(self)@ == (ReviewView { updated_at: final(self)@.updated_at, ..old(self)@ }),
            is_clock_time(final(self)@.updated_at),
    {
        self.updated_at = now();
    }

    /// Restore a review from persisted data.
    pub fn from_parts(
        id: ReviewId,
        user_id: UserId,
        workshop_id: WorkshopId,
        rating: i16,
        title: String,
        content: String,
        status: ReviewStatus,
        created_at: Timestamp,
        updated_at: Timestamp,
    ) -> (r: Self)
        ensures
            r@ == (ReviewView {
                id,
                user_id,
                workshop_id,
                rating,
                title: title@,
                content: content@,
                status,
                created_at,
                updated_at,
            }),
    {
        Review { id, user_id, workshop_id, rating, title, content, status, created_at, updated_at }
    }
}

/// Moderation happens once: approved and rejected reviews refuse every
/// moderation, and no moderation leads back to Pending.
pub proof fn lemma_review_moderated_once(s: ReviewStatus, a: ReviewAction)
    ensures
        s != ReviewStatus::Pending ==> review_next(s, a) is None,
        review_next(s, a) != Some(ReviewStatus::Pending),
{
}

/// Every accepted review has a rating from 1 to 5 and short enough texts.
pub proof fn lemma_review_accepted_bounds(rating: i16, title: Seq<char>, content: Seq<char>)
    requires
        review_problem(rating, title, content) is None,
    ensures
        1 <= rating <= 5,
        title.len() <= 120,
        content.len() <= 2000,
{
}

/// A review is accepted exactly when its rating is from 1 to 5, its title
/// at most 120 characters and its content at most 2000 characters; a refused
/// review names the first bound it breaks, in the order rating, title,
/// content.
pub proof fn lemma_review_acceptance(rating: i16, title: Seq<char>, content: Seq<char>)
    ensures
        review_problem(rating, title, content) is None <==> (1 <= rating <= 5 && title.len() <= 120
            && content.len() <= 2000),
        !(1 <= rating <= 5) ==> review_problem(rating, title, content) == Some(
            "Rating must be between 1 and 5"@,
        ),
        1 <= rating <= 5 && title.len() > 120 ==> review_problem(rating, title, content) == Some(
            "Title must be 120 characters or less"@,
        ),
        1 <= rating <= 5 && title.len() <= 120 && content.len() > 2000 ==> review_problem(
            rating,
            title,
            content,
        ) == Some("Content must be 2000 characters or less"@),
{
}

/// Reading back the text of a status gives the status again, and distinct
/// statuses have distinct texts.
pub proof fn lemma_review_status_text_round_trip(s: ReviewStatus, t: ReviewStatus)
    ensures
        review_status_from_text(review_status_text(s)) == Some(s),
        review_status_text(s) == review_status_text(t) ==> s == t,
{
    reveal_strlit("pending");
    reveal_strlit("approved");
    reveal_strlit("rejected");
    assert("pending"@.len() == 7);
    assert("approved"@.len() == 8);
    assert("rejected"@.len() == 8);
    assert("approved"@[0] != "rejected"@[0]);
}

} // verus!
