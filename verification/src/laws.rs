//! Laws of the command and query contracts: statements that hold of every
//! handler meeting them, proved once and for all.
use vstd::prelude::*;

use crate::ShortLink;
use crate::ShortenerError;
use crate::Slug;
use crate::Stats;
use crate::commands::create_post;
use crate::commands::redirect_post;
use crate::events::EventV;
use crate::events::lemma_log_push;
use crate::events::lemma_slug_created_push;
use crate::events::lemma_uncreated_has_no_redirects;
use crate::events::valid_log;
use crate::events::redirect_count;
use crate::events::slug_created;
use crate::events::url_of;
use crate::queries::stats_post;
use crate::urlparse::url_well_formed;

verus! {

/// A create command with a well-formed URL whose requested slug, if any, is
/// fresh always succeeds; the returned slug is not one of the already
/// created slugs, and exactly one `LinkCreated` event is appended.
pub proof fn lemma_create_succeeds(
    pre: Seq<EventV>,
    post: Seq<EventV>,
    url: Seq<char>,
    slug: Option<Slug>,
    r: Result<ShortLink, ShortenerError>,
)
    requires
        create_post(pre, post, url, slug, r),
        url_well_formed(url),
        slug matches Some(s) ==> !slug_created(pre, s@),
    ensures
        r matches Ok(link) && !slug_created(pre, link.slug@) && link.url@ == url && post
            == pre.push(EventV::LinkCreated { slug: link.slug@, url }),
{
    match r {
        Ok(_) => {},
        Err(e) => {
            match e {
                ShortenerError::InvalidUrl => {
                    assert(false);
                },
                ShortenerError::SlugAlreadyInUse => {
                    assert(false);
                },
                ShortenerError::SlugNotFound => {
                    assert(false);
                },
            }
        },
    }
}

/// A create command that reuses an already created slug fails with
/// `SlugAlreadyInUse` and appends no event. (A syntactically invalid URL is
/// rejected as `InvalidUrl` before the slug is even looked at, so it is
/// excluded here.)
pub proof fn lemma_duplicate_slug_rejected(
    pre: Seq<EventV>,
    post: Seq<EventV>,
    url: Seq<char>,
    s: Slug,
    r: Result<ShortLink, ShortenerError>,
)
    requires
        create_post(pre, post, url, Some(s), r),
        url_well_formed(url),
        slug_created(pre, s@),
    ensures
        r matches Err(e) && e is SlugAlreadyInUse,
        post == pre,
{
}

/// A create command with a syntactically invalid URL always fails with
/// `InvalidUrl` and appends no event.
pub proof fn lemma_invalid_url_rejected(
    pre: Seq<EventV>,
    post: Seq<EventV>,
    url: Seq<char>,
    slug: Option<Slug>,
    r: Result<ShortLink, ShortenerError>,
)
    requires
        create_post(pre, post, url, slug, r),
        !url_well_formed(url),
    ensures
        r matches Err(e) && e is InvalidUrl,
        post == pre,
{
}

/// Reads are idempotent: the stats contract determines the answer from the
/// log and the slug alone, so two queries with no intervening event agree.
pub proof fn lemma_stats_deterministic(
    log: Seq<EventV>,
    slug: Seq<char>,
    r1: Result<Stats, ShortenerError>,
    r2: Result<Stats, ShortenerError>,
)
    requires
        stats_post(log, slug, r1),
        stats_post(log, slug, r2),
    ensures
        match (r1, r2) {
            (Ok(a), Ok(b)) => a.link.slug@ == b.link.slug@ && a.link.url@ == b.link.url@
                && a.redirects == b.redirects,
            (Err(a), Err(b)) => a == b,
            _ => false,
        },
{
}

/// A successful redirect increments exactly its own slug's count by one and
/// leaves every other slug's count, every binding, and the set of created
/// slugs unchanged; a failed redirect changes nothing at all.
pub proof fn lemma_redirect_changes_only_its_count(
    pre: Seq<EventV>,
    post: Seq<EventV>,
    slug: Seq<char>,
    r: Result<ShortLink, ShortenerError>,
)
    requires
        redirect_post(pre, post, slug, r),
    ensures
        r is Ok ==> redirect_count(post, slug) == redirect_count(pre, slug) + 1,
        r is Ok ==> forall|t: Seq<char>|
            t != slug ==> #[trigger] redirect_count(post, t) == redirect_count(pre, t),
        r is Ok ==> forall|t: Seq<char>| #[trigger]
            slug_created(post, t) == slug_created(pre, t),
        r is Ok ==> forall|t: Seq<char>| #[trigger] url_of(post, t) == url_of(pre, t),
        r is Err ==> post == pre,
{
    if r is Ok {
        let e = EventV::RedirectOccurred { slug };
        lemma_log_push(pre, e);
        assert forall|t: Seq<char>| #[trigger]
            slug_created(post, t) == slug_created(pre, t) by {
            lemma_slug_created_push(pre, e, t);
        }
    }
}

/// Appending `n` redirect events for `slug` to a log.
pub open spec fn append_redirects(log: Seq<EventV>, slug: Seq<char>, n: nat) -> Seq<EventV>
    decreases n,
{
    if n == 0 {
        log
    } else {
        append_redirects(log, slug, (n - 1) as nat).push(EventV::RedirectOccurred { slug })
    }
}

/// Redirect counts are monotone and exact: after `n` further redirects for
/// `slug`, its count has grown by exactly `n`, while no other slug's count,
/// no binding, and no created slug has moved.
pub proof fn lemma_redirects_accumulate(log: Seq<EventV>, slug: Seq<char>, n: nat)
    ensures
        redirect_count(append_redirects(log, slug, n), slug) == redirect_count(log, slug) + n,
        forall|t: Seq<char>|
            t != slug ==> #[trigger] redirect_count(append_redirects(log, slug, n), t)
                == redirect_count(log, t),
        forall|t: Seq<char>| #[trigger]
            slug_created(append_redirects(log, slug, n), t) == slug_created(log, t),
        forall|t: Seq<char>| #[trigger]
            url_of(append_redirects(log, slug, n), t) == url_of(log, t),
    decreases n,
{
    if n > 0 {
        let shorter = append_redirects(log, slug, (n - 1) as nat);
        let e = EventV::RedirectOccurred { slug };
        lemma_redirects_accumulate(log, slug, (n - 1) as nat);
        lemma_log_push(shorter, e);
        assert forall|t: Seq<char>| #[trigger]
            slug_created(shorter.push(e), t) == slug_created(log, t) by {
            lemma_slug_created_push(shorter, e, t);
        }
    }
}

/// The slug a successful create command returns is recorded as created, so a
/// later create may never return or accept it again.
pub proof fn lemma_returned_slug_recorded(
    pre: Seq<EventV>,
    post: Seq<EventV>,
    url: Seq<char>,
    slug: Option<Slug>,
    link: ShortLink,
)
    requires
        create_post(pre, post, url, slug, Ok(link)),
    ensures
        slug_created(post, link.slug@),
        url_of(post, link.slug@) == url,
{
    let e = EventV::LinkCreated { slug: link.slug@, url };
    lemma_log_push(pre, e);
    lemma_slug_created_push(pre, e, link.slug@);
}

/// The full write-read story for one slug: create a link for it in a valid
/// log, record `n` redirects for it, and a stats query answers with that
/// very link and the exact count `n`.
pub proof fn lemma_stats_after_create_and_redirects(
    pre: Seq<EventV>,
    slug: Seq<char>,
    url: Seq<char>,
    n: nat,
    r: Result<Stats, ShortenerError>,
)
    requires
        valid_log(pre),
        !slug_created(pre, slug),
        stats_post(
            append_redirects(pre.push(EventV::LinkCreated { slug, url }), slug, n),
            slug,
            r,
        ),
    ensures
        r matches Ok(stats) && stats.redirects == n && stats.link.slug@ == slug
            && stats.link.url@ == url,
{
    let e = EventV::LinkCreated { slug, url };
    let created = pre.push(e);
    lemma_uncreated_has_no_redirects(pre, slug);
    lemma_log_push(pre, e);
    lemma_slug_created_push(pre, e, slug);
    lemma_redirects_accumulate(created, slug, n);
}

} // verus!
