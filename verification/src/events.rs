//! The event log: the two domain event kinds, their mathematical model, and
//! the projections (created slugs, bound URLs, redirect counts) that both the
//! command and the query side are specified against.
use vstd::prelude::*;

use crate::Slug;
use crate::Url;

verus! {

/// A domain event. Events are immutable, strictly ordered by append sequence,
/// and never removed; the whole service state is a fold over them.
#[derive(Debug, Clone, PartialEq)]
pub enum Event {
    /// A short link was registered: `slug` now maps to `url`.
    LinkCreated { slug: Slug, url: Url },
    /// A redirect through `slug` was served.
    RedirectOccurred { slug: Slug },
}

/// Mathematical form of an [`Event`]: slug and URL as character sequences.
pub enum EventV {
    LinkCreated { slug: Seq<char>, url: Seq<char> },
    RedirectOccurred { slug: Seq<char> },
}

impl View for Event {
    type V = EventV;

    open spec fn view(&self) -> EventV {
        match self {
            Event::LinkCreated { slug, url } => EventV::LinkCreated {
                slug: slug@,
                url: url@,
            },
            Event::RedirectOccurred { slug } => EventV::RedirectOccurred { slug: slug@ },
        }
    }
}

/// The views of a sequence of events.
pub open spec fn log_view(events: Seq<Event>) -> Seq<EventV> {
    Seq::new(events.len(), |i: int| events[i]@)
}

/// The slugs of the `LinkCreated` events, in order of creation.
pub open spec fn created_slugs(log: Seq<EventV>) -> Seq<Seq<char>>
    decreases log.len(),
{
    if log.len() == 0 {
        Seq::empty()
    } else {
        let rest = created_slugs(log.drop_last());
        match log.last() {
            EventV::LinkCreated { slug, .. } => rest.push(slug),
            EventV::RedirectOccurred { .. } => rest,
        }
    }
}

/// Whether the log holds a `LinkCreated` event for `slug`.
pub open spec fn slug_created(log: Seq<EventV>, slug: Seq<char>) -> bool {
    created_slugs(log).contains(slug)
}

/// The URL bound to `slug` by its latest `LinkCreated` event (the empty
/// sequence if the slug was never created).
pub open spec fn url_of(log: Seq<EventV>, slug: Seq<char>) -> Seq<char>
    decreases log.len(),
{
    if log.len() == 0 {
        Seq::empty()
    } else {
        match log.last() {
            EventV::LinkCreated { slug: s, url } => if s == slug {
                url
            } else {
                url_of(log.drop_last(), slug)
            },
            EventV::RedirectOccurred { .. } => url_of(log.drop_last(), slug),
        }
    }
}

/// The number of `RedirectOccurred` events for `slug`.
pub open spec fn redirect_count(log: Seq<EventV>, slug: Seq<char>) -> nat
    decreases log.len(),
{
    if log.len() == 0 {
        0
    } else {
        redirect_count(log.drop_last(), slug) + (match log.last() {
            EventV::RedirectOccurred { slug: s } => if s == slug {
                1 as nat
            } else {
                0 as nat
            },
            EventV::LinkCreated { .. } => 0 as nat,
        })
    }
}

/// A log the service can produce: no slug is created twice, and every
/// redirect refers to a slug created earlier in the log.
pub open spec fn valid_log(log: Seq<EventV>) -> bool
    decreases log.len(),
{
    if log.len() == 0 {
        true
    } else {
        valid_log(log.drop_last()) && (match log.last() {
            EventV::LinkCreated { slug, .. } => !slug_created(log.drop_last(), slug),
            EventV::RedirectOccurred { slug } => slug_created(log.drop_last(), slug),
        })
    }
}

/// How each projection changes when one event is appended to the log.
pub proof fn lemma_log_push(log: Seq<EventV>, e: EventV)
    ensures
        created_slugs(log.push(e)) == (match e {
            EventV::LinkCreated { slug, .. } => created_slugs(log).push(slug),
            EventV::RedirectOccurred { .. } => created_slugs(log),
        }),
        forall|t: Seq<char>|
            #[trigger] url_of(log.push(e), t) == (match e {
                EventV::LinkCreated { slug, url } => if slug == t {
                    url
                } else {
                    url_of(log, t)
                },
                EventV::RedirectOccurred { .. } => url_of(log, t),
            }),
        forall|t: Seq<char>|
            #[trigger] redirect_count(log.push(e), t) == redirect_count(log, t) + (match e {
                EventV::RedirectOccurred { slug } => if slug == t {
                    1 as nat
                } else {
                    0 as nat
                },
                EventV::LinkCreated { .. } => 0 as nat,
            }),
{
    assert(log.push(e).drop_last() =~= log);
    assert(log.push(e).last() == e);
}

/// The redirect count for a slug never exceeds the length of the log.
pub proof fn lemma_redirect_count_le_len(log: Seq<EventV>, slug: Seq<char>)
    ensures
        redirect_count(log, slug) <= log.len(),
    decreases log.len(),
{
    if log.len() > 0 {
        lemma_redirect_count_le_len(log.drop_last(), slug);
    }
}

/// A slug with no `LinkCreated` event in a valid log has no redirects either.
pub proof fn lemma_uncreated_has_no_redirects(log: Seq<EventV>, slug: Seq<char>)
    requires
        valid_log(log),
        !slug_created(log, slug),
    ensures
        redirect_count(log, slug) == 0,
    decreases log.len(),
{
    if log.len() > 0 {
        let prefix = log.drop_last();
        assert(log =~= prefix.push(log.last()));
        lemma_log_push(prefix, log.last());
        lemma_slug_created_push(prefix, log.last(), slug);
        assert(!slug_created(prefix, slug));
        lemma_uncreated_has_no_redirects(prefix, slug);
        match log.last() {
            EventV::RedirectOccurred { slug: s } => {
                if s == slug {
                    assert(slug_created(prefix, slug));
                    assert(false);
                }
            },
            EventV::LinkCreated { .. } => {},
        }
    }
}

/// Every prefix of a valid log is itself valid.
pub proof fn lemma_valid_log_prefix(log: Seq<EventV>, n: int)
    requires
        valid_log(log),
        0 <= n <= log.len(),
    ensures
        valid_log(log.take(n)),
    decreases log.len() - n,
{
    if n == log.len() {
        assert(log.take(n) =~= log);
    } else {
        lemma_valid_log_prefix(log, n + 1);
        assert(log.take(n + 1).drop_last() =~= log.take(n));
    }
}

/// In a valid log the created slugs are pairwise distinct.
pub proof fn lemma_valid_log_distinct_slugs(log: Seq<EventV>)
    requires
        valid_log(log),
    ensures
        forall|i: int, j: int|
            0 <= i < j < created_slugs(log).len() ==> created_slugs(log)[i] != created_slugs(
                log,
            )[j],
    decreases log.len(),
{
    if log.len() > 0 {
        let prefix = log.drop_last();
        lemma_valid_log_distinct_slugs(prefix);
        let old_slugs = created_slugs(prefix);
        let new_slugs = created_slugs(log);
        match log.last() {
            EventV::LinkCreated { slug, .. } => {
                assert(new_slugs == old_slugs.push(slug));
                assert forall|i: int, j: int|
                    0 <= i < j < new_slugs.len() implies new_slugs[i] != new_slugs[j] by {
                    if j == old_slugs.len() {
                        if new_slugs[i] == slug {
                            assert(old_slugs[i] == slug);
                            assert(slug_created(prefix, slug));
                        }
                    }
                }
            },
            EventV::RedirectOccurred { .. } => {},
        }
    }
}

/// Whether a slug was created is unchanged by further events except the
/// creation of that very slug.
pub proof fn lemma_slug_created_push(log: Seq<EventV>, e: EventV, t: Seq<char>)
    ensures
        slug_created(log.push(e), t) == (slug_created(log, t) || (e matches EventV::LinkCreated {
            slug,
            ..
        } && slug == t)),
{
    lemma_log_push(log, e);
    let old_slugs = created_slugs(log);
    let new_slugs = created_slugs(log.push(e));
    match e {
        EventV::LinkCreated { slug, .. } => {
            assert(new_slugs == old_slugs.push(slug));
            if slug_created(log, t) {
                let k = choose|k: int| 0 <= k < old_slugs.len() && old_slugs[k] == t;
                assert(new_slugs[k] == t);
            }
            if slug == t {
                assert(new_slugs[old_slugs.len() as int] == t);
            }
            if slug_created(log.push(e), t) && !slug_created(log, t) && slug != t {
                let k = choose|k: int| 0 <= k < new_slugs.len() && new_slugs[k] == t;
                assert(k < old_slugs.len() ==> old_slugs[k] == t);
                assert(false);
            }
        },
        EventV::RedirectOccurred { .. } => {
            assert(new_slugs == old_slugs);
        },
    }
}

} // verus!
