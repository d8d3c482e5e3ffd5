//! The workshop aggregate, its seat accounting, and workshop images.
use crate::clock::{is_clock_time, now, Timestamp};
use crate::error::{DomainError, DomainErrorView};
use crate::events::DomainEvent;
use crate::value_objects::{CategoryId, LevelId, UserId, WorkshopId, WorkshopImageId};
use crate::value_objects::uuid_text::uuid_version;
use vstd::prelude::*;

verus! {

/// Aggregate root for a workshop (course).
#[derive(Debug, Clone)]
pub struct Workshop {
    pub(crate) id: WorkshopId,
    pub(crate) title: String,
    pub(crate) slug: String,
    pub(crate) description: Option<String>,
    pub(crate) location: Option<String>,
    pub(crate) price_cents: i64,
    pub(crate) start_date: Option<Timestamp>,
    pub(crate) end_date: Option<Timestamp>,
    pub(crate) max_seats: Option<i32>,
    pub(crate) current_enrollments: i32,
    pub(crate) min_age: Option<i16>,
    pub(crate) category_id: CategoryId,
    pub(crate) level_id: LevelId,
    pub(crate) created_by: UserId,
    pub(crate) created_at: Timestamp,
    pub(crate) updated_at: Timestamp,
}

/// Mathematical model of a [`Workshop`].
pub struct WorkshopView {
    pub id: WorkshopId,
    pub title: Seq<char>,
    pub slug: Seq<char>,
    pub description: Option<Seq<char>>,
    pub location: Option<Seq<char>>,
    pub price_cents: i64,
    pub start_date: Option<Timestamp>,
    pub end_date: Option<Timestamp>,
    pub max_seats: Option<i32>,
    pub current_enrollments: i32,
    pub min_age: Option<i16>,
    pub category_id: CategoryId,
    pub level_id: LevelId,
    pub created_by: UserId,
    pub created_at: Timestamp,
    pub updated_at: Timestamp,
}

impl View for Workshop {
    type V = WorkshopView;

    closed spec fn view(&self) -> WorkshopView {
        WorkshopView {
            id: self.id,
            title: self.title@,
            slug: self.slug@,
            description: self.description.deep_view(),
            location: self.location.deep_view(),
            price_cents: self.price_cents,
            start_date: self.start_date,
            end_date: self.end_date,
            max_seats: self.max_seats,
            current_enrollments: self.current_enrollments,
            min_age: self.min_age,
            category_id: self.category_id,
            level_id: self.level_id,
            created_by: self.created_by,
            created_at: self.created_at,
            updated_at: self.updated_at,
        }
    }
}

/// The larger of two integers.
pub open spec fn max_int(a: int, b: int) -> int {
    if a >= b {
        a
    } else {
        b
    }
}

/// True when one more seat can be reserved.
pub open spec fn workshop_has_room(w: WorkshopView) -> bool {
    match w.max_seats {
        Some(max) => w.current_enrollments < max,
        None => true,
    }
}

/// The seat count is sound: never negative, and never above the maximum
/// when there is one.
pub open spec fn seats_consistent(w: WorkshopView) -> bool {
    &&& 0 <= w.current_enrollments
    &&& w.max_seats matches Some(max) ==> w.current_enrollments <= max
}

/// The seats still available, when the workshop has a maximum.
pub open spec fn seats_left(w: WorkshopView) -> Option<int> {
    match w.max_seats {
        Some(max) => Some(max_int(max - w.current_enrollments, 0)),
        None => None,
    }
}

/// The outcome of `Workshop::reserve_seat` on a workshop that was `before`
/// and is `after` the call with result `r`.
pub open spec fn workshop_reserve_outcome(
    before: WorkshopView,
    after: WorkshopView,
    r: Result<DomainEvent, DomainError>,
) -> bool {
    if workshop_has_room(before) {
        &&& after.current_enrollments == before.current_enrollments + 1
        &&& after == WorkshopView {
            current_enrollments: after.current_enrollments,
            updated_at: after.updated_at,
            ..before
        }
        &&& is_clock_time(after.updated_at)
        &&& r == Ok::<DomainEvent, DomainError>(DomainEvent::WorkshopUpdated { workshop_id: before.id })
    } else {
        after == before && (r matches Err(e) && e@ == DomainErrorView::WorkshopFull)
    }
}

/// The outcome of `Workshop::release_seat` on a workshop that was `before`
/// and is `after` the call.
pub open spec fn workshop_release_outcome(before: WorkshopView, after: WorkshopView) -> bool {
    &&& after.current_enrollments == max_int(before.current_enrollments - 1, 0)
    &&& after == WorkshopView {
        current_enrollments: after.current_enrollments,
        updated_at: after.updated_at,
        ..before
    }
    &&& is_clock_time(after.updated_at)
}

impl Workshop {
    /// Create a new workshop with zero enrollments.
    ///
    /// Returns the workshop along with a `WorkshopCreated` domain event.
    pub fn new(
        title: String,
        slug: String,
        price_cents: i64,
        category_id: CategoryId,
        level_id: LevelId,
        created_by: UserId,
    ) -> (r: (Self, DomainEvent))
        ensures
            ({
                let w = r.0@;
                &&& uuid_version(w.id@) == 7
                &&& w.title == title@
                &&& w.slug == slug@
                &&& w.description is None
                &&& w.location is None
                &&& w.price_cents == price_cents
                &&& w.start_date is None
                &&& w.end_date is None
                &&& w.max_seats is None
                &&& w.current_enrollments == 0
                &&& w.min_age is None
                &&& w.category_id == category_id
                &&& w.level_id == level_id
                &&& w.created_by == created_by
                &&& w.created_at == w.updated_at
                &&& is_clock_time(w.created_at)
            }),
            r.1 == (DomainEvent::WorkshopCreated { workshop_id: r.0@.id }),
    {
        let now = now();
        let workshop = Workshop {
            id: WorkshopId::new(),
            title,
            slug,
            description: None,
            location: None,
            price_cents,
            start_date: None,
            end_date: None,
            max_seats: None,
            current_enrollments: 0,
            min_age: None,
            category_id,
            level_id,
            created_by,
            created_at: now,
            updated_at: now,
        };
        let event = DomainEvent::WorkshopCreated { workshop_id: workshop.id };
        (workshop, event)
    }

    /// Reserve one seat, incrementing the enrollment count.
    ///
    /// Returns an error if the workshop is full.
    pub fn reserve_seat(&mut self) -> (r: Result<DomainEvent, DomainError>)
        requires
            old(self)@.max_seats is None ==> old(self)@.current_enrollments < i32::MAX,
        ensures
            workshop_reserve_outcome(old(self)@, final(self)@, r),
    {
        if let Some(max) = self.max_seats {
            if self.current_enrollments >= max {
                return Err(DomainError::WorkshopFull);
            }
        }
        self.current_enrollments = self.current_enrollments + 1;
        self.updated_at = now();
        Ok(DomainEvent::WorkshopUpdated { workshop_id: self.id })
    }

    /// Release one seat, decrementing the enrollment count (floor at zero).
    pub fn release_seat(&mut self)
        requires
            old(self)@.current_enrollments > i32::MIN,
        ensures
            workshop_release_outcome(old(self)@, final(self)@),
    {
        let lowered = self.current_enrollments - 1;
        self.current_enrollments = if lowered > 0 { lowered } else { 0 };
        self.updated_at = now();
    }

    /// Return the number of seats still available, if `max_seats` is set.
    pub fn available_seats(&self) -> (r: Option<i32>)
        requires
            self@.max_seats matches Some(max) ==> i32::MIN <= max - self@.current_enrollments,
            self@.max_seats matches Some(max) ==> max - self@.current_enrollments <= i32::MAX,
        ensures
            r matches Some(n) ==> seats_left(self@) == Some(n as int),
            r is None ==> seats_left(self@) is None,
    {
        match self.max_seats {
            Some(max) => {
                let left = max - self.current_enrollments;
                Some(if left > 0 { left } else { 0 })
            },
            None => None,
        }
    }

    /// Unique identifier for this workshop.
    pub fn id(&self) -> (r: WorkshopId)
        ensures
            r == self@.id,
    {
        self.id
    }

    /// Human-readable title.
    pub fn title(&self) -> (r: &str)
        ensures
            r@ == self@.title,
    {
        self.title.as_str()
    }

    /// URL-safe slug (unique).
    pub fn slug(&self) -> (r: &str)
        ensures
            r@ == self@.slug,
    {
        self.slug.as_str()
    }

    /// Optional detailed description.
    pub fn description(&self) -> (r: Option<&str>)
        ensures
            r.deep_view() == self@.description,
    {
        match &self.description {
            Some(s) => Some(s.as_str()),
            None => None,
        }
    }

    /// Optional physical location.
    pub fn location(&self) -> (r: Option<&str>)
        ensures
            r.deep_view() == self@.location,
    {
        match &self.location {
            Some(s) => Some(s.as_str()),
            None => None,
        }
    }

    /// Price in cents (0 = free).
    pub fn price_cents(&self) -> (r: i64)
        ensures
            r == self@.price_cents,
    {
        self.price_cents
    }

    /// Optional start date/time.
    pub fn start_date(&self) -> (r: Option<Timestamp>)
        ensures
            r == self@.start_date,
    {
        self.start_date
    }

    /// Optional end date/time.
    pub fn end_date(&self) -> (r: Option<Timestamp>)
        ensures
            r == self@.end_date,
    {
        self.end_date
    }

    /// Maximum number of seats (`None` = unlimited).
    pub fn max_seats(&self) -> (r: Option<i32>)
        ensures
            r == self@.max_seats,
    {
        self.max_seats
    }

    /// Current number of enrolled students.
    pub fn current_enrollments(&self) -> (r: i32)
        ensures
            r == self@.current_enrollments,
    {
        self.current_enrollments
    }

    /// Minimum age requirement (optional).
    pub fn min_age(&self) -> (r: Option<i16>)
        ensures
            r == self@.min_age,
    {
        self.min_age
    }

    /// Foreign key to the category.
    pub fn category_id(&self) -> (r: CategoryId)
        ensures
            r == self@.category_id,
    {
        self.category_id
    }

    /// Foreign key to the difficulty level.
    pub fn level_id(&self) -> (r: LevelId)
        ensures
            r == self@.level_id,
    {
        self.level_id
    }

    /// User who created this workshop.
    pub fn created_by(&self) -> (r: UserId)
        ensures
            r == self@.created_by,
    {
        self.created_by
    }

    /// Timestamp of creation.
    pub fn created_at(&self) -> (r: Timestamp)
        ensures
            r == self@.created_at,
    {
        self.created_at
    }

    /// Timestamp of the last update.
    pub fn updated_at(&self) -> (r: Timestamp)
        ensures
            r == self@.updated_at,
    {
        self.updated_at
    }

    /// Set the title.
    pub fn set_title(&mut self, title: String)
        ensures
            final(self)@ == (WorkshopView { title: title@, ..old(self)@ }),
    {
        self.title = title;
    }

    /// Set the slug.
    pub fn set_slug(&mut self, slug: String)
        ensures
            final(self)@ == (WorkshopView { slug: slug@, ..old(self)@ }),
    {
        self.slug = slug;
    }

    /// Set the description.
    pub fn set_description(&mut self, description: Option<String>)
        ensures
            final(self)@ == (WorkshopView { description: description.deep_view(), ..old(self)@ }),
    {
        self.description = description;
    }

    /// Set the location.
    pub fn set_location(&mut self, location: Option<String>)
        ensures
            final(self)@ == (WorkshopView { location: location.deep_view(), ..old(self)@ }),
    {
        self.location = location;
    }

    /// Set the price cents.
    pub fn set_price_cents(&mut self, price_cents: i64)
        ensures
            final(self)@ == (WorkshopView { price_cents: price_cents, ..old(self)@ }),
    {
        self.price_cents = price_cents;
    }

    /// Set the start date.
    pub fn set_start_date(&mut self, start_date: Option<Timestamp>)
        ensures
            final(self)@ == (WorkshopView { start_date: start_date, ..old(self)@ }),
    {
        self.start_date = start_date;
    }

    /// Set the end date.
    pub fn set_end_date(&mut self, end_date: Option<Timestamp>)
        ensures
            final(self)@ == (WorkshopView { end_date: end_date, ..old(self)@ }),
    {
        self.end_date = end_date;
    }

    /// Set the max seats.
    pub fn set_max_seats(&mut self, max_seats: Option<i32>)
        ensures
            final(self)@ == (WorkshopView { max_seats: max_seats, ..old(self)@ }),
    {
        self.max_seats = max_seats;
    }

    /// Set the min age.
    pub fn set_min_age(&mut self, min_age: Option<i16>)
        ensures
            final(self)@ == (WorkshopView { min_age: min_age, ..old(self)@ }),
    {
        self.min_age = min_age;
    }

    /// Set the category id.
    pub fn set_category_id(&mut self, category_id: CategoryId)
        ensures
            final(self)@ == (WorkshopView { category_id: category_id, ..old(self)@ }),
    {
        self.category_id = category_id;
    }

    /// Set the level id.
    pub fn set_level_id(&mut self, level_id: LevelId)
        ensures
            final(self)@ == (WorkshopView { level_id: level_id, ..old(self)@ }),
    {
        self.level_id = level_id;
    }

    /// Set the update time to now: a fresh reading of the clock, every
    /// other field unchanged.
    pub fn touch(&mut self)
        ensures
            final(self)@ == (WorkshopView { updated_at: final(self)@.updated_at, ..old(self)@ }),
            is_clock_time(final(self)@.updated_at),
    {
        self.updated_at = now();
    }

    /// Restore a workshop from persisted data.
    pub fn from_parts(
        id: WorkshopId,
        title: String,
        slug: String,
        description: Option<String>,
        location: Option<String>,
        price_cents: i64,
        start_date: Option<Timestamp>,
        end_date: Option<Timestamp>,
        max_seats: Option<i32>,
        current_enrollments: i32,
        min_age: Option<i16>,
        category_id: CategoryId,
        level_id: LevelId,
        created_by: UserId,
        created_at: Timestamp,
        updated_at: Timestamp,
    ) -> (r: Self)
        ensures
            r@ == (WorkshopView {
                id: id,
                title: title@,
                slug: slug@,
                description: description.deep_view(),
                location: location.deep_view(),
                price_cents: price_cents,
                start_date: start_date,
                end_date: end_date,
                max_seats: max_seats,
                current_enrollments: current_enrollments,
                min_age: min_age,
                category_id: category_id,
                level_id: level_id,
                created_by: created_by,
                created_at: created_at,
                updated_at: updated_at,
            }),
    {
        Workshop {
            id,
            title,
            slug,
            description,
            location,
            price_cents,
            start_date,
            end_date,
            max_seats,
            current_enrollments,
            min_age,
            category_id,
            level_id,
            created_by,
            created_at,
            updated_at,
        }
    }
}

/// Seat accounting never oversells: reserving and releasing seats keep the
/// count between zero and the maximum.
pub proof fn lemma_seats_stay_consistent(
    a: WorkshopView,
    b: WorkshopView,
    c: WorkshopView,
    r: Result<DomainEvent, DomainError>,
)
    requires
        seats_consistent(a),
        workshop_reserve_outcome(a, b, r),
        workshop_release_outcome(a, c),
    ensures
        seats_consistent(b),
        seats_consistent(c),
{
}

/// Releasing a seat undoes a successful reservation.
pub proof fn lemma_release_undoes_reserve(
    a: WorkshopView,
    b: WorkshopView,
    c: WorkshopView,
    r: Result<DomainEvent, DomainError>,
)
    requires
        0 <= a.current_enrollments,
        workshop_reserve_outcome(a, b, r),
        r is Ok,
        workshop_release_outcome(b, c),
    ensures
        c.current_enrollments == a.current_enrollments,
        c == (WorkshopView { updated_at: c.updated_at, ..a }),
{
}

/// On a consistent workshop with a maximum, the seats left and the seats
/// taken add up to the maximum, and a reservation is refused exactly when no
/// seat is left.
pub proof fn lemma_available_seats_match_reservations(w: WorkshopView)
    requires
        seats_consistent(w),
        w.max_seats is Some,
    ensures
        seats_left(w) == Some(w.max_seats->0 - w.current_enrollments),
        workshop_has_room(w) <==> seats_left(w) != Some(0int),
{
}

/// A photo associated with a workshop, stored in an object store.
#[derive(Debug, Clone)]
pub struct WorkshopImage {
    pub(crate) id: WorkshopImageId,
    pub(crate) workshop_id: WorkshopId,
    pub(crate) url: String,
    pub(crate) s3_key: String,
    pub(crate) created_at: Timestamp,
}

/// Mathematical model of a [`WorkshopImage`].
pub struct WorkshopImageView {
    pub id: WorkshopImageId,
    pub workshop_id: WorkshopId,
    pub url: Seq<char>,
    pub s3_key: Seq<char>,
    pub created_at: Timestamp,
}

impl View for WorkshopImage {
    type V = WorkshopImageView;

    closed spec fn view(&self) -> WorkshopImageView {
        WorkshopImageView {
            id: self.id,
            workshop_id: self.workshop_id,
            url: self.url@,
            s3_key: self.s3_key@,
            created_at: self.created_at,
        }
    }
}

impl WorkshopImage {
    /// Unique identifier for this image.
    pub fn id(&self) -> (r: WorkshopImageId)
        ensures
            r == self@.id,
    {
        self.id
    }

    /// The workshop this image belongs to.
    pub fn workshop_id(&self) -> (r: WorkshopId)
        ensures
            r == self@.workshop_id,
    {
        self.workshop_id
    }

    /// Public URL for the image.
    pub fn url(&self) -> (r: &str)
        ensures
            r@ == self@.url,
    {
        self.url.as_str()
    }

    /// The object key in the store.
    pub fn s3_key(&self) -> (r: &str)
        ensures
            r@ == self@.s3_key,
    {
        self.s3_key.as_str()
    }

    /// When the image was uploaded.
    pub fn created_at(&self) -> (r: Timestamp)
        ensures
            r == self@.created_at,
    {
        self.created_at
    }

    /// Restore a workshop image from persisted data.
    pub fn from_parts(
        id: WorkshopImageId,
        workshop_id: WorkshopId,
        url: String,
        s3_key: String,
        created_at: Timestamp,
    ) -> (r: Self)
        ensures
            r@ == (WorkshopImageView { id, workshop_id, url: url@, s3_key: s3_key@, created_at }),
    {
        WorkshopImage { id, workshop_id, url, s3_key, created_at }
    }
}

} // verus!
