//! The concrete CQRS and Event Sourcing-based service: an append-only event
//! log plus an incrementally maintained projection that is proved equal to a
//! full replay of the log.
use vstd::prelude::*;

use crate::ShortLink;
use crate::ShortenerError;
use crate::Slug;
use crate::Stats;
use crate::Url;
use crate::commands::CommandHandler;
use crate::events::Event;
use crate::events::EventV;
use crate::events::created_slugs;
use crate::events::lemma_log_push;
use crate::events::lemma_redirect_count_le_len;
use crate::events::lemma_uncreated_has_no_redirects;
use crate::events::lemma_valid_log_distinct_slugs;
use crate::events::log_view;
use crate::events::redirect_count;
use crate::events::slug_created;
use crate::events::url_of;
use crate::events::valid_log;
use crate::projection::LinkEntry;
use crate::projection::LinkEntryV;
use crate::projection::entries_view;
use crate::projection::find_entry;
use crate::projection::lemma_projection_unique;
use crate::projection::lemma_wf_entries_created;
use crate::projection::replay;
use crate::projection::wf_entries;
use crate::queries::QueryHandler;
use crate::slugs::fresh_slug;
use crate::urlparse::url_is_well_formed;

verus! {

/// CQRS and Event Sourcing-based service implementation.
///
/// The event log is the source of truth; the entry list is a cache that the
/// invariant ties to a full replay of the log.
pub struct UrlShortenerService {
    events: Vec<Event>,
    entries: Vec<LinkEntry>,
}

impl UrlShortenerService {
    /// The event log, as the history of event views.
    pub closed spec fn log(self) -> Seq<EventV> {
        log_view(self.events@)
    }

    /// The maintained projection rows, as views.
    pub closed spec fn entries_v(self) -> Seq<LinkEntryV> {
        entries_view(self.entries@)
    }

    /// Internal consistency: the log is valid and the maintained projection
    /// is exactly the projection of the log.
    pub closed spec fn inv(self) -> bool {
        &&& valid_log(self.log())
        &&& wf_entries(self.entries_v(), self.log())
    }

    /// Creates a new instance of the service
    pub fn new() -> (s: Self)
        ensures
            s.inv(),
            s.log() == Seq::<EventV>::empty(),
    {
        let s = UrlShortenerService { events: Vec::new(), entries: Vec::new() };
        proof {
            assert(log_view(s.events@) =~= Seq::<EventV>::empty());
            assert(entries_view(s.entries@) =~= Seq::<LinkEntryV>::empty());
        }
        s
    }

    /// The event log recorded so far.
    pub fn event_log(&self) -> (r: &Vec<Event>)
        ensures
            log_view(r@) == self.log(),
    {
        &self.events
    }

    /// The maintained projection: one row per created slug.
    pub fn links(&self) -> (r: &Vec<LinkEntry>)
        ensures
            entries_view(r@) == self.entries_v(),
    {
        &self.entries
    }

    /// Replays the full event log from the empty state through the same fold
    /// logic the service maintains incrementally; the result coincides with
    /// the maintained projection.
    pub fn replay_projection(&self) -> (entries: Vec<LinkEntry>)
        requires
            self.inv(),
        ensures
            entries_view(entries@) == self.entries_v(),
    {
        let entries = replay(&self.events);
        proof {
            lemma_projection_unique(entries_view(entries@), self.entries_v(), self.log());
        }
        entries
    }
}

impl CommandHandler for UrlShortenerService {
    open spec fn events(&self) -> Seq<EventV> {
        self.log()
    }

    open spec fn wf(&self) -> bool {
        self.inv()
    }

    fn handle_create_short_link(&mut self, url: Url, slug: Option<Slug>) -> (r: Result<
        ShortLink,
        ShortenerError,
    >) {
        let ghost pre = self.log();
        if !url_is_well_formed(url.0.as_str()) {
            return Err(ShortenerError::InvalidUrl);
        }
        let chosen: Slug = match slug {
            Some(s) => {
                match find_entry(&self.entries, &s) {
                    Some(i) => {
                        proof {
                            lemma_wf_entries_created(self.entries_v(), pre, s@);
                            assert(self.entries_v()[i as int].slug == s@);
                        }
                        return Err(ShortenerError::SlugAlreadyInUse);
                    },
                    None => {
                        proof {
                            lemma_wf_entries_created(self.entries_v(), pre, s@);
                        }
                        s
                    },
                }
            },
            None => {
                let f = fresh_slug(&self.entries, &url);
                proof {
                    lemma_wf_entries_created(self.entries_v(), pre, f@);
                }
                f
            },
        };
        proof {
            assert(!slug_created(pre, chosen@));
        }
        let ev_slug = Slug(chosen.0.clone());
        let ev_url = Url(url.0.clone());
        let row_slug = Slug(chosen.0.clone());
        let row_url = Url(url.0.clone());
        let ghost old_entries = self.entries_v();
        self.events.push(Event::LinkCreated { slug: ev_slug, url: ev_url });
        self.entries.push(
            LinkEntry { slug: row_slug, url: row_url, redirects: 0 },
        );
        proof {
            let e = EventV::LinkCreated { slug: chosen@, url: url@ };
            let post = log_view(self.events@);
            assert(post =~= pre.push(e));
            assert(post.drop_last() =~= pre);
            lemma_log_push(pre, e);
            lemma_uncreated_has_no_redirects(pre, chosen@);
            assert(entries_view(self.entries@) =~= old_entries.push(
                LinkEntryV { slug: chosen@, url: url@, redirects: 0 },
            ));
            assert forall|k: int|
                0 <= k < old_entries.len() implies (#[trigger] old_entries[k]).slug
                != chosen@ by {
                assert(old_entries[k].slug == created_slugs(pre)[k]);
                assert(created_slugs(pre).contains(old_entries[k].slug));
            }
        }
        Ok(ShortLink { slug: chosen, url })
    }

    fn handle_redirect(&mut self, slug: Slug) -> (r: Result<ShortLink, ShortenerError>) {
        let ghost pre = self.log();
        match find_entry(&self.entries, &slug) {
            None => {
                proof {
                    lemma_wf_entries_created(self.entries_v(), pre, slug@);
                }
                Err(ShortenerError::SlugNotFound)
            },
            Some(i) => {
                proof {
                    lemma_wf_entries_created(self.entries_v(), pre, slug@);
                    lemma_valid_log_distinct_slugs(pre);
                }
                let url_out = Url(self.entries[i].url.0.clone());
                let c = self.entries[i].redirects;
                let ev_slug = Slug(slug.0.clone());
                let ghost old_entries = self.entries_v();
                self.events.push(Event::RedirectOccurred { slug: ev_slug });
                let n = self.events.len();
                proof {
                    let e = EventV::RedirectOccurred { slug: slug@ };
                    let post = log_view(self.events@);
                    assert(post =~= pre.push(e));
                    assert(post.drop_last() =~= pre);
                    lemma_log_push(pre, e);
                    assert(old_entries[i as int].redirects == redirect_count(pre, slug@));
                    lemma_redirect_count_le_len(pre, slug@);
                    assert(n == pre.len() + 1);
                    assert(c < u64::MAX);
                }
                self.entries[i].redirects = c + 1;
                proof {
                    assert(entries_view(self.entries@) =~= old_entries.update(
                        i as int,
                        LinkEntryV { redirects: (c + 1) as nat, ..old_entries[i as int] },
                    ));
                    assert forall|k: int|
                        0 <= k < old_entries.len() && k != i implies (
                    #[trigger] old_entries[k]).slug != slug@ by {
                        assert(old_entries[k].slug == created_slugs(pre)[k]);
                        assert(old_entries[i as int].slug == created_slugs(pre)[i as int]);
                    }
                }
                Ok(ShortLink { slug, url: url_out })
            },
        }
    }
}

impl QueryHandler for UrlShortenerService {
    open spec fn events(&self) -> Seq<EventV> {
        self.log()
    }

    open spec fn wf(&self) -> bool {
        self.inv()
    }

    fn get_stats(&self, slug: Slug) -> (r: Result<Stats, ShortenerError>) {
        proof {
            lemma_wf_entries_created(self.entries_v(), self.log(), slug@);
        }
        match find_entry(&self.entries, &slug) {
            None => Err(ShortenerError::SlugNotFound),
            Some(i) => {
                proof {
                    assert(self.entries_v()[i as int].slug == slug@);
                    assert(self.entries_v()[i as int].url == url_of(self.log(), slug@));
                    assert(self.entries_v()[i as int].redirects == redirect_count(
                        self.log(),
                        slug@,
                    ));
                }
                let link = ShortLink {
                    slug: Slug(self.entries[i].slug.0.clone()),
                    url: Url(self.entries[i].url.0.clone()),
                };
                Ok(Stats { link, redirects: self.entries[i].redirects })
            },
        }
    }
}

} // verus!
