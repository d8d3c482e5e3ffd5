//! The category aggregate.
use crate::aggregates::user::{or_keep, or_keep_opt};
use crate::clock::{is_clock_time, now, Timestamp};
use crate::events::DomainEvent;
use crate::value_objects::CategoryId;
use crate::value_objects::uuid_text::uuid_version;
use vstd::prelude::*;

verus! {

/// Aggregate root for a workshop category (e.g. "Programming", "Design").
#[derive(Debug, Clone)]
pub struct Category {
    pub(crate) id: CategoryId,
    pub(crate) name: String,
    pub(crate) slug: String,
    pub(crate) description: Option<String>,
    pub(crate) thumbnail_url: Option<String>,
    pub(crate) created_at: Timestamp,
    pub(crate) updated_at: Timestamp,
}

/// Mathematical model of a [`Category`].
pub struct CategoryView {
    pub id: CategoryId,
    pub name: Seq<char>,
    pub slug: Seq<char>,
    pub description: Option<Seq<char>>,
    pub thumbnail_url: Option<Seq<char>>,
    pub created_at: Timestamp,
    pub updated_at: Timestamp,
}

impl View for Category {
    type V = CategoryView;

    closed spec fn view(&self) -> CategoryView {
        CategoryView {
            id: self.id,
            name: self.name@,
            slug: self.slug@,
            description: self.description.deep_view(),
            thumbnail_url: self.thumbnail_url.deep_view(),
            created_at: self.created_at,
            updated_at: self.updated_at,
        }
    }
}

impl Category {
    /// Create a new category with the given name, slug, and optional
    /// description and thumbnail.
    ///
    /// Returns the category along with a `CategoryCreated` domain event.
    pub fn new(name: String, slug: String, description: Option<String>, thumbnail_url: Option<String>) -> (r: (
        Self,
        DomainEvent,
    ))
        ensures
            uuid_version(r.0@.id@) == 7,
            r.0@.name == name@,
            r.0@.slug == slug@,
            r.0@.description == description.deep_view(),
            r.0@.thumbnail_url == thumbnail_url.deep_view(),
            r.0@.created_at == r.0@.updated_at,
            is_clock_time(r.0@.created_at),
            r.1 == (DomainEvent::CategoryCreated { category_id: r.0@.id }),
    {
        let now = now();
        let category = Category {
            id: CategoryId::new(),
            name,
            slug,
            description,
            thumbnail_url,
            created_at: now,
            updated_at: now,
        };
        let event = DomainEvent::CategoryCreated { category_id: category.id };
        (category, event)
    }

    /// Update category fields. `None` fields are left unchanged.
    pub fn update(&mut self, name: Option<String>, description: Option<String>, thumbnail_url: Option<String>) -> (ev:
        DomainEvent)
        ensures
            final(self)@ == (CategoryView {
                name: or_keep(name.deep_view(), old(self)@.name),
                description: or_keep_opt(description.deep_view(), old(self)@.description),
                thumbnail_url: or_keep_opt(thumbnail_url.deep_view(), old(self)@.thumbnail_url),
                updated_at: final(self)@.updated_at,
                ..old(self)@
            }),
            is_clock_time(final(self)@.updated_at),
            ev == (DomainEvent::CategoryUpdated { category_id: old(self)@.id }),
    {
        if let Some(name) = name {
            self.name = name;
        }
        if let Some(description) = description {
            self.description = Some(description);
        }
        if let Some(thumbnail_url) = thumbnail_url {
            self.thumbnail_url = Some(thumbnail_url);
        }
        self.updated_at = now();
        DomainEvent::CategoryUpdated { category_id: self.id }
    }

    /// Unique identifier for this category.
    pub fn id(&self) -> (r: CategoryId)
        ensures
            r == self@.id,
    {
        self.id
    }

    /// Human-readable name.
    pub fn name(&self) -> (r: &str)
        ensures
            r@ == self@.name,
    {
        self.name.as_str()
    }

    /// URL-safe unique slug.
    pub fn slug(&self) -> (r: &str)
        ensures
            r@ == self@.slug,
    {
        self.slug.as_str()
    }

    /// Optional description of the category.
    pub fn description(&self) -> (r: Option<&str>)
        ensures
            r.deep_view() == self@.description,
    {
        match &self.description {
            Some(s) => Some(s.as_str()),
            None => None,
        }
    }

    /// Optional URL to a thumbnail image.
    pub fn thumbnail_url(&self) -> (r: Option<&str>)
        ensures
            r.deep_view() == self@.thumbnail_url,
    {
        match &self.thumbnail_url {
            Some(s) => Some(s.as_str()),
            None => None,
        }
    }

    /// Timestamp of creation.
    pub fn created_at(&self) -> (r: Timestamp)
        ensures
            r == self@.created_at,
    {
        self.created_at
    }

    /// Timestamp of the last update.
    pub fn updated_at(&self) -> (r: Timestamp)
        ensures
            r == self@.updated_at,
    {
        self.updated_at
    }

    /// Restore a category from persisted data.
    pub fn from_parts(
        id: CategoryId,
        name: String,
        slug: String,
        description: Option<String>,
        thumbnail_url: Option<String>,
        created_at: Timestamp,
        updated_at: Timestamp,
    ) -> (r: Self)
        ensures
            r@ == (CategoryView {
                id,
                name: name@,
                slug: slug@,
                description: description.deep_view(),
                thumbnail_url: thumbnail_url.deep_view(),
                created_at,
                updated_at,
            }),
    {
        Category { id, name, slug, description, thumbnail_url, created_at, updated_at }
    }
}

} // verus!
