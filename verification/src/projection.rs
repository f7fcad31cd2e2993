//! The read-optimized projection: one entry per created slug, carrying the
//! bound URL and the redirect count. `wf_entries` says exactly when a row
//! sequence is *the* projection of a log; `replay` rebuilds it from scratch.
use vstd::prelude::*;

use crate::Slug;
use crate::Url;
use crate::events::Event;
use crate::events::EventV;
use crate::events::created_slugs;
use crate::events::lemma_log_push;
use crate::events::lemma_redirect_count_le_len;
use crate::events::lemma_uncreated_has_no_redirects;
use crate::events::lemma_valid_log_distinct_slugs;
use crate::events::lemma_valid_log_prefix;
use crate::events::log_view;
use crate::events::redirect_count;
use crate::events::slug_created;
use crate::events::url_of;
use crate::events::valid_log;

verus! {

/// One row of the projection: a created slug, the URL it points to, and how
/// many redirects it has served.
#[derive(Debug, Clone, PartialEq)]
pub struct LinkEntry {
    /// The slug of the `LinkCreated` event this row stems from.
    pub slug: Slug,
    /// The URL bound to the slug.
    pub url: Url,
    /// The number of `RedirectOccurred` events for the slug.
    pub redirects: u64,
}

/// Mathematical form of a [`LinkEntry`].
pub struct LinkEntryV {
    pub slug: Seq<char>,
    pub url: Seq<char>,
    pub redirects: nat,
}

impl View for LinkEntry {
    type V = LinkEntryV;

    open spec fn view(&self) -> LinkEntryV {
        LinkEntryV { slug: self.slug@, url: self.url@, redirects: self.redirects as nat }
    }
}

/// The views of a sequence of entries.
pub open spec fn entries_view(entries: Seq<LinkEntry>) -> Seq<LinkEntryV> {
    Seq::new(entries.len(), |i: int| entries[i]@)
}

/// `entries` is the projection of `log`: one row per created slug, in
/// creation order, each carrying that slug's bound URL and redirect count.
pub open spec fn wf_entries(entries: Seq<LinkEntryV>, log: Seq<EventV>) -> bool {
    &&& entries.len() == created_slugs(log).len()
    &&& forall|i: int|
        0 <= i < entries.len() ==> (#[trigger] entries[i]).slug == created_slugs(log)[i]
    &&& forall|i: int|
        0 <= i < entries.len() ==> (#[trigger] entries[i]).url == url_of(log, entries[i].slug)
    &&& forall|i: int|
        0 <= i < entries.len() ==> (#[trigger] entries[i]).redirects == redirect_count(
            log,
            entries[i].slug,
        )
}

/// A slug is created in the log if and only if the projection has a row for
/// it.
pub proof fn lemma_wf_entries_created(entries: Seq<LinkEntryV>, log: Seq<EventV>, slug: Seq<char>)
    requires
        wf_entries(entries, log),
    ensures
        slug_created(log, slug) <==> exists|i: int|
            0 <= i < entries.len() && (#[trigger] entries[i]).slug == slug,
{
    if slug_created(log, slug) {
        let k = choose|k: int|
            0 <= k < created_slugs(log).len() && created_slugs(log)[k] == slug;
        assert(entries[k].slug == slug);
    }
    if exists|i: int| 0 <= i < entries.len() && (#[trigger] entries[i]).slug == slug {
        let k = choose|k: int| 0 <= k < entries.len() && (#[trigger] entries[k]).slug == slug;
        assert(created_slugs(log)[k] == slug);
        assert(created_slugs(log).contains(slug));
    }
}

/// The projection of a log is unique: any two row sequences that both project
/// the same log are equal.
pub proof fn lemma_projection_unique(a: Seq<LinkEntryV>, b: Seq<LinkEntryV>, log: Seq<EventV>)
    requires
        wf_entries(a, log),
        wf_entries(b, log),
    ensures
        a == b,
{
    assert forall|i: int| 0 <= i < a.len() implies a[i] == b[i] by {
        assert(a[i].slug == created_slugs(log)[i]);
        assert(b[i].slug == created_slugs(log)[i]);
    }
    assert(a =~= b);
}

/// Finds the row whose slug equals `slug`, if any.
pub(crate) fn find_entry(entries: &Vec<LinkEntry>, slug: &Slug) -> (r: Option<usize>)
    ensures
        match r {
            Some(i) => i < entries@.len() && entries@[i as int].slug@ == slug@,
            None => forall|i: int| 0 <= i < entries@.len() ==> (#[trigger] entries@[i]).slug@ != slug@,
        },
{
    let n = entries.len();
    let mut i: usize = 0;
    while i < n
        invariant
            i <= n,
            n == entries@.len(),
            forall|j: int| 0 <= j < i ==> (#[trigger] entries@[j]).slug@ != slug@,
        decreases n - i,
    {
        if entries[i].slug.0 == slug.0 {
            return Some(i);
        }
        i += 1;
    }
    None
}

/// Rebuilds the projection of a valid log from the empty state, by the same
/// fold the service applies event by event.
pub fn replay(events: &Vec<Event>) -> (entries: Vec<LinkEntry>)
    requires
        valid_log(log_view(events@)),
    ensures
        wf_entries(entries_view(entries@), log_view(events@)),
{
    let ghost log = log_view(events@);
    let n = events.len();
    let mut entries: Vec<LinkEntry> = Vec::new();
    let mut i: usize = 0;
    proof {
        assert(log.take(0) =~= Seq::<EventV>::empty());
        assert(entries_view(entries@) =~= Seq::<LinkEntryV>::empty());
    }
    while i < n
        invariant
            i <= n,
            n == events@.len(),
            log == log_view(events@),
            valid_log(log),
            wf_entries(entries_view(entries@), log.take(i as int)),
        decreases n - i,
    {
        let ghost pre = log.take(i as int);
        let ghost post = log.take(i as int + 1);
        proof {
            assert(post =~= pre.push(log[i as int]));
            assert(post.drop_last() =~= pre);
            lemma_valid_log_prefix(log, i as int);
            lemma_valid_log_prefix(log, i as int + 1);
            lemma_log_push(pre, log[i as int]);
        }
        let ev = &events[i];
        match ev {
            Event::LinkCreated { slug, url } => {
                proof {
                    assert(log[i as int] == EventV::LinkCreated { slug: slug@, url: url@ });
                    assert(!slug_created(pre, slug@));
                    lemma_uncreated_has_no_redirects(pre, slug@);
                }
                let row = LinkEntry {
                    slug: Slug(slug.0.clone()),
                    url: Url(url.0.clone()),
                    redirects: 0,
                };
                let ghost old_entries = entries_view(entries@);
                entries.push(row);
                proof {
                    assert(entries_view(entries@) =~= old_entries.push(row@));
                    assert forall|k: int|
                        0 <= k < old_entries.len() implies (#[trigger] old_entries[k]).slug
                        != slug@ by {
                        assert(old_entries[k].slug == created_slugs(pre)[k]);
                        assert(created_slugs(pre).contains(old_entries[k].slug));
                    }
                }
            },
            Event::RedirectOccurred { slug } => {
                proof {
                    lemma_wf_entries_created(entries_view(entries@), pre, slug@);
                    lemma_valid_log_distinct_slugs(pre);
                }
                match find_entry(&entries, slug) {
                    Some(j) => {
                        let c = entries[j].redirects;
                        proof {
                            assert(entries_view(entries@)[j as int].redirects == redirect_count(
                                pre,
                                slug@,
                            ));
                            lemma_redirect_count_le_len(pre, slug@);
                            assert(c as nat <= pre.len());
                            assert(pre.len() == i as int);
                            assert(c < u64::MAX);
                        }
                        let ghost old_entries = entries_view(entries@);
                        entries[j].redirects = c + 1;
                        proof {
                            assert(entries_view(entries@) =~= old_entries.update(
                                j as int,
                                LinkEntryV {
                                    redirects: (c + 1) as nat,
                                    ..old_entries[j as int]
                                },
                            ));
                            assert forall|k: int|
                                0 <= k < old_entries.len() && k != j implies (
                                #[trigger] old_entries[k]).slug != slug@ by {
                                assert(old_entries[k].slug == created_slugs(pre)[k]);
                                assert(old_entries[j as int].slug == created_slugs(pre)[j as int]);
                            }
                        }
                    },
                    None => {
                        proof {
                            assert(slug_created(pre, slug@));
                            assert(false);
                        }
                    },
                }
            },
        }
        i += 1;
    }
    proof {
        assert(log.take(n as int) =~= log);
    }
    entries
}

} // verus!
