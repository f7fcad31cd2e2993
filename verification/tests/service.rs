use url_shortener::ShortenerError;
use url_shortener::Slug;
use url_shortener::Url;
use url_shortener::UrlShortenerService;
use url_shortener::commands::CommandHandler;
use url_shortener::queries::QueryHandler;

fn url(s: &str) -> Url {
    Url(String::from(s))
}

fn slug(s: &str) -> Slug {
    Slug(String::from(s))
}

#[test]
fn create_with_generated_slug_succeeds() {
    let mut service = UrlShortenerService::new();
    let link = service
        .handle_create_short_link(url("http://example.com/a"), None)
        .expect("a well-formed URL must be accepted");
    assert_eq!(link.url, url("http://example.com/a"));
    assert!(!link.slug.0.is_empty());
}

#[test]
fn generated_slugs_are_never_repeated() {
    let mut service = UrlShortenerService::new();
    let mut seen: Vec<String> = Vec::new();
    // The same URL is submitted repeatedly, forcing the generator through
    // its collision path; every returned slug must still be fresh.
    for _ in 0..5 {
        let link = service
            .handle_create_short_link(url("http://example.com/a"), None)
            .expect("create with generated slug must succeed");
        assert!(!seen.contains(&link.slug.0));
        seen.push(link.slug.0.clone());
    }
    // Distinct URLs as well.
    for i in 0..5 {
        let u = format!("http://example.com/page/{}", i);
        let link = service
            .handle_create_short_link(Url(u), None)
            .expect("create with generated slug must succeed");
        assert!(!seen.contains(&link.slug.0));
        seen.push(link.slug.0.clone());
    }
}

#[test]
fn create_with_fresh_custom_slug_succeeds() {
    let mut service = UrlShortenerService::new();
    let link = service
        .handle_create_short_link(url("http://example.com/a"), Some(slug("my-alias")))
        .expect("a fresh custom slug must be accepted");
    assert_eq!(link.slug, slug("my-alias"));
    assert_eq!(link.url, url("http://example.com/a"));
}

#[test]
fn reused_slug_is_rejected_with_any_url() {
    let mut service = UrlShortenerService::new();
    service
        .handle_create_short_link(url("http://example.com/a"), Some(slug("taken")))
        .expect("a fresh custom slug must be accepted");
    let again = service.handle_create_short_link(url("http://example.com/a"), Some(slug("taken")));
    assert_eq!(again, Err(ShortenerError::SlugAlreadyInUse));
    let other = service.handle_create_short_link(url("http://other.example/b"), Some(slug("taken")));
    assert_eq!(other, Err(ShortenerError::SlugAlreadyInUse));
}

#[test]
fn invalid_url_is_rejected_and_appends_nothing() {
    let mut service = UrlShortenerService::new();
    service
        .handle_create_short_link(url("http://example.com/a"), None)
        .expect("a well-formed URL must be accepted");
    let before = service.event_log().clone();
    let r = service.handle_create_short_link(url("not a url"), None);
    assert_eq!(r, Err(ShortenerError::InvalidUrl));
    let r2 = service.handle_create_short_link(url("not a url"), Some(slug("fresh")));
    assert_eq!(r2, Err(ShortenerError::InvalidUrl));
    assert_eq!(service.event_log(), &before);
}

#[test]
fn redirect_returns_the_bound_link() {
    let mut service = UrlShortenerService::new();
    let link = service
        .handle_create_short_link(url("http://example.com/a"), Some(slug("a")))
        .expect("create must succeed");
    let redirected = service
        .handle_redirect(slug("a"))
        .expect("redirect through a created slug must succeed");
    assert_eq!(redirected, link);
}

#[test]
fn redirect_of_unknown_slug_fails() {
    let mut service = UrlShortenerService::new();
    let r = service.handle_redirect(slug("missing"));
    assert_eq!(r, Err(ShortenerError::SlugNotFound));
}

#[test]
fn stats_of_unknown_slug_fails() {
    let service = UrlShortenerService::new();
    let r = service.get_stats(slug("missing"));
    assert_eq!(r, Err(ShortenerError::SlugNotFound));
}

#[test]
fn stats_counts_redirects_exactly() {
    let mut service = UrlShortenerService::new();
    service
        .handle_create_short_link(url("http://example.com/a"), Some(slug("a")))
        .expect("create must succeed");
    let stats = service.get_stats(slug("a")).expect("stats must be available");
    assert_eq!(stats.redirects, 0);
    for _ in 0..7 {
        service.handle_redirect(slug("a")).expect("redirect must succeed");
    }
    let stats = service.get_stats(slug("a")).expect("stats must be available");
    assert_eq!(stats.redirects, 7);
}

#[test]
fn reads_are_idempotent() {
    let mut service = UrlShortenerService::new();
    service
        .handle_create_short_link(url("http://example.com/a"), Some(slug("a")))
        .expect("create must succeed");
    service.handle_redirect(slug("a")).expect("redirect must succeed");
    let first = service.get_stats(slug("a"));
    let second = service.get_stats(slug("a"));
    assert_eq!(first, second);
}

#[test]
fn failed_redirect_changes_no_count() {
    let mut service = UrlShortenerService::new();
    service
        .handle_create_short_link(url("http://example.com/a"), Some(slug("a")))
        .expect("create must succeed");
    service
        .handle_create_short_link(url("http://example.com/b"), Some(slug("b")))
        .expect("create must succeed");
    service.handle_redirect(slug("a")).expect("redirect must succeed");
    let r = service.handle_redirect(slug("missing"));
    assert_eq!(r, Err(ShortenerError::SlugNotFound));
    assert_eq!(service.get_stats(slug("a")).unwrap().redirects, 1);
    assert_eq!(service.get_stats(slug("b")).unwrap().redirects, 0);
}

#[test]
fn replaying_the_log_reproduces_the_projection() {
    let mut service = UrlShortenerService::new();
    service
        .handle_create_short_link(url("http://example.com/a"), None)
        .expect("create must succeed");
    service
        .handle_create_short_link(url("http://example.com/b"), Some(slug("b")))
        .expect("create must succeed");
    for _ in 0..3 {
        service.handle_redirect(slug("b")).expect("redirect must succeed");
    }
    let replayed = service.replay_projection();
    assert_eq!(&replayed, service.links());
}

#[test]
fn full_scenario() {
    let mut service = UrlShortenerService::new();

    let first = service
        .handle_create_short_link(url("http://example.com/a"), None)
        .expect("create with generated slug must succeed");
    let s1 = first.slug.clone();

    service
        .handle_create_short_link(url("http://example.com/a"), Some(slug("random_slug")))
        .expect("a fresh custom slug must be accepted even for a known URL");

    let repeat = service.handle_create_short_link(url("http://example.com/c"), Some(slug("random_slug")));
    assert_eq!(repeat, Err(ShortenerError::SlugAlreadyInUse));

    for _ in 0..10 {
        let link = service
            .handle_redirect(s1.clone())
            .expect("redirect through a created slug must succeed");
        assert_eq!(link, first);
    }
    let stats = service.get_stats(s1.clone()).expect("stats must be available");
    assert_eq!(stats.redirects, 10);
    assert_eq!(stats.link, first);

    assert_eq!(
        service.handle_redirect(slug("unknown")),
        Err(ShortenerError::SlugNotFound)
    );
    assert_eq!(
        service.get_stats(slug("unknown")),
        Err(ShortenerError::SlugNotFound)
    );
}
