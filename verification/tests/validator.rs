use broken_link_checker::adapters::web_url::WebUrl;
use broken_link_checker::engine::validator::Validator;
use broken_link_checker::settings::{CheckerSettings, CrawletSettings};

fn url(s: &str) -> WebUrl {
    WebUrl::parse(s).unwrap()
}

fn validator_all() -> Validator {
    Validator::new(
        &CheckerSettings {
            check_external_links: true,
            ignore_ssl_errors: false,
            retry_attempts: 3,
        },
        &CrawletSettings {
            max_depth: 3,
            max_concurrent_requests: 10,
            same_domain_only: false,
        },
    )
}

fn validator_same_domain_only() -> Validator {
    Validator::new(
        &CheckerSettings {
            check_external_links: true,
            ignore_ssl_errors: false,
            retry_attempts: 3,
        },
        &CrawletSettings {
            max_depth: 3,
            max_concurrent_requests: 10,
            same_domain_only: true,
        },
    )
}

fn validator_internal_only() -> Validator {
    Validator::new(
        &CheckerSettings {
            check_external_links: false,
            ignore_ssl_errors: false,
            retry_attempts: 3,
        },
        &CrawletSettings {
            max_depth: 3,
            max_concurrent_requests: 10,
            same_domain_only: false,
        },
    )
}

#[test]
fn test_is_checkable() {
    let v = validator_all();
    assert!(v.is_checkable(&url("https://example.com")));
    assert!(v.is_checkable(&url("http://example.com")));
    assert!(!v.is_checkable(&url("mailto:foo@bar.com")));
    assert!(!v.is_checkable(&url("javascript:void(0)")));
    assert!(!v.is_checkable(&url("tel:+1234567890")));
}

#[test]
fn test_should_check_all() {
    let v = validator_all();
    let base = url("https://example.com/page");
    assert!(v.should_check(&url("https://example.com/other"), &base));
    assert!(v.should_check(&url("https://other.com/page"), &base));
}

#[test]
fn test_should_check_same_domain_only_still_checks_external() {
    let v = validator_same_domain_only();
    let base = url("https://example.com/page");
    assert!(v.should_check(&url("https://example.com/other"), &base));
    assert!(v.should_check(&url("https://other.com/page"), &base));
}

#[test]
fn test_should_crawl_same_domain_only() {
    let v = validator_same_domain_only();
    let base = url("https://example.com/page");
    assert!(v.should_crawl(&url("https://example.com/other"), &base));
    assert!(!v.should_crawl(&url("https://other.com/page"), &base));
}

#[test]
fn test_should_check_internal_only() {
    let v = validator_internal_only();
    let base = url("https://example.com:443/page");
    assert!(v.should_check(&url("https://example.com/other"), &base));
    assert!(!v.should_check(&url("https://other.com/page"), &base));
}

#[test]
fn scheme_is_lowercased() {
    let v = validator_all();
    assert!(v.is_checkable(&url("HTTPS://Example.com")));
    assert!(!v.is_checkable(&url("ftp://example.com")));
    assert!(!v.is_checkable(&url("file:///tmp/index.html")));
}

#[test]
fn internal_only_compares_scheme_and_port() {
    let v = validator_internal_only();
    let base = url("https://example.com/page");
    assert!(!v.should_check(&url("http://example.com/page"), &base));
    assert!(!v.should_check(&url("https://example.com:8443/page"), &base));
    assert!(v.should_check(&url("https://EXAMPLE.com/x"), &base));
}

#[test]
fn file_base_has_no_same_origin_link() {
    let v = validator_internal_only();
    let base = url("file:///tmp/index.html");
    assert!(!v.should_check(&url("https://example.com/"), &base));
}

#[test]
fn crawl_everywhere_without_same_domain_only() {
    let v = validator_all();
    let base = url("https://example.com/page");
    assert!(v.should_crawl(&url("https://other.com/page"), &base));
    assert!(!v.should_crawl(&url("mailto:foo@bar.com"), &base));
}

#[test]
fn same_domain_ignores_scheme_and_port() {
    let v = validator_same_domain_only();
    let base = url("https://example.com/page");
    assert!(v.should_crawl(&url("http://example.com:8080/x"), &base));
    assert!(!v.should_crawl(&url("https://sub.example.com/x"), &base));
}

#[test]
fn web_url_parse_and_join() {
    assert_eq!(url("https://example.com").as_str(), "https://example.com/");
    assert!(WebUrl::parse("/relative").is_none());
    assert!(WebUrl::parse("not a url").is_none());
    let base = url("https://example.com/a/b");
    assert_eq!(base.join("c").unwrap().as_str(), "https://example.com/a/c");
    assert_eq!(base.join("/v1").unwrap().as_str(), "https://example.com/v1");
    assert_eq!(base.join("//other.com/x").unwrap().as_str(), "https://other.com/x");
    assert_eq!(base.scheme(), "https");
    assert_eq!(base.host_str(), Some("example.com".to_string()));
    assert_eq!(url("mailto:a@b.c").host_str(), None);
    assert_eq!(
        url("https://example.com:443/").tuple_origin(),
        Some(("https".to_string(), "example.com".to_string(), 443))
    );
    assert_eq!(url("data:text/plain,x").tuple_origin(), None);
}
