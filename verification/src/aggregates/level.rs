//! The difficulty level aggregate.
use crate::clock::{is_clock_time, now, Timestamp};
use crate::events::DomainEvent;
use crate::value_objects::LevelId;
use crate::value_objects::uuid_text::uuid_version;
use vstd::prelude::*;

verus! {

/// Aggregate root for a difficulty level (e.g. "Beginner", "Advanced").
#[derive(Debug, Clone)]
pub struct Level {
    pub(crate) id: LevelId,
    pub(crate) name: String,
    pub(crate) created_at: Timestamp,
    pub(crate) updated_at: Timestamp,
}

/// Mathematical model of a [`Level`].
pub struct LevelView {
    pub id: LevelId,
    pub name: Seq<char>,
    pub created_at: Timestamp,
    pub updated_at: Timestamp,
}

impl View for Level {
    type V = LevelView;

    closed spec fn view(&self) -> LevelView {
        LevelView { id: self.id, name: self.name@, created_at: self.created_at, updated_at: self.updated_at }
    }
}

impl Level {
    /// Create a new level with the given name.
    ///
    /// Returns the level along with a `LevelCreated` domain event.
    pub fn new(name: String) -> (r: (Self, DomainEvent))
        ensures
            uuid_version(r.0@.id@) == 7,
            r.0@.name == name@,
            r.0@.created_at == r.0@.updated_at,
            is_clock_time(r.0@.created_at),
            r.1 == (DomainEvent::LevelCreated { level_id: r.0@.id }),
    {
        let now = now();
        let level = Level { id: LevelId::new(), name, created_at: now, updated_at: now };
        let event = DomainEvent::LevelCreated { level_id: level.id };
        (level, event)
    }

    /// Rename the level. Returns a `LevelUpdated` domain event.
    pub fn rename(&mut self, name: String) -> (ev: DomainEvent)
        ensures
            final(self)@ == (LevelView { name: name@, updated_at: final(self)@.updated_at, ..old(self)@ }),
            is_clock_time(final(self)@.updated_at),
            ev == (DomainEvent::LevelUpdated { level_id: old(self)@.id }),
    {
        self.name = name;
        self.updated_at = now();
        DomainEvent::LevelUpdated { level_id: self.id }
    }

    /// Unique identifier for this level.
    pub fn id(&self) -> (r: LevelId)
        ensures
            r == self@.id,
    {
        self.id
    }

    /// Human-readable name.
    pub fn name(&self) -> (r: &str)
        ensures
            r@ == self@.name,
    {
        self.name.as_str()
    }

    /// Timestamp of creation.
    pub fn created_at(&self) -> (r: Timestamp)
        ensures
            r == self@.created_at,
    {
        self.created_at
    }

    /// Timestamp of the last update.
    pub fn updated_at(&self) -> (r: Timestamp)
        ensures
            r == self@.updated_at,
    {
        self.updated_at
    }

    /// Restore a level from persisted data.
    pub fn from_parts(id: LevelId, name: String, created_at: Timestamp, updated_at: Timestamp) -> (r: Self)
        ensures
            r@ == (LevelView { id, name: name@, created_at, updated_at }),
    {
        Level { id, name, created_at, updated_at }
    }
}

} // verus!
