//! Queries for CQRS: the read side. A query never changes the state; its
//! answer is a projection of the event log at call time.
use vstd::prelude::*;

use crate::ShortenerError;
use crate::Slug;
use crate::Stats;
use crate::events::EventV;
use crate::events::redirect_count;
use crate::events::slug_created;
use crate::events::url_of;

verus! {

/// What a stats query returns: the link bound to the slug together with its
/// exact redirect count, or `SlugNotFound` exactly when the slug was never
/// created.
pub open spec fn stats_post(
    log: Seq<EventV>,
    slug: Seq<char>,
    r: Result<Stats, ShortenerError>,
) -> bool {
    match r {
        Ok(stats) => {
            &&& slug_created(log, slug)
            &&& stats.link.slug@ == slug
            &&& stats.link.url@ == url_of(log, slug)
            &&& stats.redirects as nat == redirect_count(log, slug)
        },
        Err(e) => {
            &&& e is SlugNotFound
            &&& !slug_created(log, slug)
        },
    }
}

/// Trait for query handlers.
pub trait QueryHandler {
    /// The event log of the handler's state, as the history of its views.
    spec fn events(&self) -> Seq<EventV>;

    /// The handler's internal consistency; queries require it.
    spec fn wf(&self) -> bool;

    /// Returns the [`Stats`] for a specific [`ShortLink`], such as the
    /// number of redirects (clicks).
    ///
    /// [`ShortLink`]: crate::ShortLink
    fn get_stats(&self, slug: Slug) -> (r: Result<Stats, ShortenerError>)
        requires
            self.wf(),
        ensures
            stats_post(self.events(), slug@, r),
    ;
}

} // verus!
