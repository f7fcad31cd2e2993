//! Commands for CQRS: the write side. A command handler validates its input
//! against the state derived from the event log and, on success, appends
//! exactly one event; on failure it appends nothing.
use vstd::prelude::*;

use crate::ShortLink;
use crate::ShortenerError;
use crate::Slug;
use crate::Url;
use crate::events::EventV;
use crate::events::slug_created;
use crate::events::url_of;
use crate::urlparse::url_well_formed;

verus! {

/// What a create command does to the log: exactly when it succeeds, which
/// event it appends, and which error it returns otherwise.
///
/// Uniqueness is keyed on the slug alone: submitting an already registered
/// URL again simply yields another slug for it.
pub open spec fn create_post(
    pre: Seq<EventV>,
    post: Seq<EventV>,
    url: Seq<char>,
    slug: Option<Slug>,
    r: Result<ShortLink, ShortenerError>,
) -> bool {
    match r {
        Ok(link) => {
            &&& url_well_formed(url)
            &&& link.url@ == url
            &&& !slug_created(pre, link.slug@)
            &&& (slug matches Some(s) ==> link.slug@ == s@)
            &&& post == pre.push(EventV::LinkCreated { slug: link.slug@, url })
        },
        Err(e) => {
            &&& post == pre
            &&& match e {
                ShortenerError::InvalidUrl => !url_well_formed(url),
                ShortenerError::SlugAlreadyInUse => {
                    &&& url_well_formed(url)
                    &&& slug matches Some(s) && slug_created(pre, s@)
                },
                ShortenerError::SlugNotFound => false,
            }
        },
    }
}

/// What a redirect command does to the log: it succeeds exactly when the
/// slug has been created, appends one `RedirectOccurred` event, and returns
/// the link the slug is bound to.
pub open spec fn redirect_post(
    pre: Seq<EventV>,
    post: Seq<EventV>,
    slug: Seq<char>,
    r: Result<ShortLink, ShortenerError>,
) -> bool {
    match r {
        Ok(link) => {
            &&& slug_created(pre, slug)
            &&& link.slug@ == slug
            &&& link.url@ == url_of(pre, slug)
            &&& post == pre.push(EventV::RedirectOccurred { slug })
        },
        Err(e) => {
            &&& post == pre
            &&& e is SlugNotFound
            &&& !slug_created(pre, slug)
        },
    }
}

/// Trait for command handlers.
pub trait CommandHandler {
    /// The event log of the handler's state, as the history of its views.
    spec fn events(&self) -> Seq<EventV>;

    /// The handler's internal consistency; commands require and preserve it.
    spec fn wf(&self) -> bool;

    /// Creates a new short link. It accepts the original url and an optional
    /// [`Slug`]. If a [`Slug`] is not provided, the service will generate
    /// one. Returns the newly created [`ShortLink`].
    ///
    /// ## Errors
    ///
    /// See [`ShortenerError`].
    fn handle_create_short_link(&mut self, url: Url, slug: Option<Slug>) -> (r: Result<
        ShortLink,
        ShortenerError,
    >)
        requires
            old(self).wf(),
        ensures
            final(self).wf(),
            create_post(old(self).events(), final(self).events(), url@, slug, r),
    ;

    /// Processes a redirection by [`Slug`], returning the associated
    /// [`ShortLink`] or a [`ShortenerError`].
    fn handle_redirect(&mut self, slug: Slug) -> (r: Result<ShortLink, ShortenerError>)
        requires
            old(self).wf(),
        ensures
            final(self).wf(),
            redirect_post(old(self).events(), final(self).events(), slug@, r),
    ;
}

} // verus!
