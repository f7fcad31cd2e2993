//! An event-sourced URL shortener.
//!
//! Long URLs are registered under short aliases ("slugs"); every state change
//! is recorded as an immutable event, and every read is a projection that can
//! be reproduced by replaying the event log from the empty state.
//!
//! Uniqueness is keyed on the slug alone: registering the same URL twice
//! yields two distinct slugs. Generated slugs are derived from a hash of the
//! URL and are guaranteed never to collide with an existing slug.
use vstd::prelude::*;

pub mod commands;
pub mod events;
pub mod laws;
pub mod projection;
pub mod queries;
mod service;
mod slugs;
pub mod urlparse;

pub use service::UrlShortenerService;

verus! {

/// All possible errors of the [`UrlShortenerService`].
#[derive(Debug, PartialEq, Eq, Structural, Clone, Copy)]
pub enum ShortenerError {
    /// An invalid [`Url`] was provided for shortening.
    InvalidUrl,
    /// An attempt was made to use a slug (custom alias) that already exists.
    SlugAlreadyInUse,
    /// The provided [`Slug`] does not map to any existing short link.
    SlugNotFound,
}

/// A unique string (or alias) that represents the shortened version of the
/// URL.
#[derive(Debug, Clone, PartialEq)]
pub struct Slug(pub String);

/// The original URL that the short link points to.
#[derive(Debug, Clone, PartialEq)]
pub struct Url(pub String);

impl View for Slug {
    type V = Seq<char>;

    open spec fn view(&self) -> Seq<char> {
        self.0@
    }
}

impl View for Url {
    type V = Seq<char>;

    open spec fn view(&self) -> Seq<char> {
        self.0@
    }
}

/// Shortened URL representation.
#[derive(Debug, Clone, PartialEq)]
pub struct ShortLink {
    /// A unique string (or alias) that represents the shortened version of
    /// the URL.
    pub slug: Slug,
    /// The original URL that the short link points to.
    pub url: Url,
}

/// Statistics of the [`ShortLink`].
#[derive(Debug, Clone, PartialEq)]
pub struct Stats {
    /// [`ShortLink`] to which this [`Stats`] are related.
    pub link: ShortLink,
    /// Count of redirects of the [`ShortLink`].
    pub redirects: u64,
}

} // verus!
