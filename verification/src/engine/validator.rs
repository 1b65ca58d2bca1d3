use vstd::prelude::*;

use crate::adapters::web_url::{spec_url_host, spec_url_scheme, spec_url_tuple_origin, WebUrl};
use crate::settings::{CheckerSettings, CrawletSettings};

verus! {

/// A URL whose scheme is `http` or `https`.
pub open spec fn spec_is_checkable(url: Seq<char>) -> bool {
    spec_url_scheme(url) == "http"@ || spec_url_scheme(url) == "https"@
}

/// Two URLs of the same tuple origin (scheme, host, port). An opaque origin is the same as no
/// other.
pub open spec fn spec_same_origin(url: Seq<char>, base: Seq<char>) -> bool {
    spec_url_tuple_origin(url) is Some && spec_url_tuple_origin(url) == spec_url_tuple_origin(base)
}

/// Two URLs with the same host, or both without one.
pub open spec fn spec_same_domain(url: Seq<char>, base: Seq<char>) -> bool {
    spec_url_host(url) == spec_url_host(base)
}

/// Decides which links are checked and which pages are crawled.
pub struct Validator {
    check_external_links: bool,
    same_domain_only: bool,
}

impl Validator {
    /// Whether links to another origin are checked too.
    pub closed spec fn checks_external(&self) -> bool {
        self.check_external_links
    }

    /// Whether only pages on the host of the base URL are crawled.
    pub closed spec fn crawls_same_domain_only(&self) -> bool {
        self.same_domain_only
    }

    /// Whether `url` is checked, seen from a page under `base`.
    pub open spec fn spec_should_check(&self, url: Seq<char>, base: Seq<char>) -> bool {
        spec_is_checkable(url) && (self.checks_external() || spec_same_origin(url, base))
    }

    /// Whether the page at `url` is crawled, seen from a page under `base`.
    pub open spec fn spec_should_crawl(&self, url: Seq<char>, base: Seq<char>) -> bool {
        spec_is_checkable(url) && (!self.crawls_same_domain_only() || spec_same_domain(url, base))
    }

    pub fn new(checker: &CheckerSettings, crawler: &CrawletSettings) -> (v: Self)
        ensures
            v.checks_external() == checker.check_external_links,
            v.crawls_same_domain_only() == crawler.same_domain_only,
    {
        Self {
            check_external_links: checker.check_external_links,
            same_domain_only: crawler.same_domain_only,
        }
    }

    /// Whether to run check_link (HTTP GET) on this URL. When same_domain_only is set we still
    /// check external links (YouTube, etc.) so we can report broken outbound links; we just
    /// don't crawl them.
    pub fn should_check(&self, url: &WebUrl, base: &WebUrl) -> (res: bool)
        ensures
            res == self.spec_should_check(url@, base@),
    {
        if !self.is_checkable(url) {
            return false;
        }
        if !self.check_external_links && !self.same_origin(url, base) {
            return false;
        }
        true
    }

    pub fn is_checkable(&self, url: &WebUrl) -> (res: bool)
        ensures
            res == spec_is_checkable(url@),
    {
        let scheme = url.scheme();
        scheme == "http".to_string() || scheme == "https".to_string()
    }

    /// Whether to follow this link and crawl its page for more links. When same_domain_only is
    /// set we only enqueue same-domain URLs (no following to scrapfly.io, YouTube, etc.).
    pub fn should_crawl(&self, url: &WebUrl, base: &WebUrl) -> (res: bool)
        ensures
            res == self.spec_should_crawl(url@, base@),
    {
        if !self.is_checkable(url) {
            return false;
        }
        if self.same_domain_only && !self.same_domain(url, base) {
            return false;
        }
        true
    }

    fn same_origin(&self, url: &WebUrl, base: &WebUrl) -> (res: bool)
        ensures
            res == spec_same_origin(url@, base@),
    {
        match (url.tuple_origin(), base.tuple_origin()) {
            (Some(a), Some(b)) => a.0 == b.0 && a.1 == b.1 && a.2 == b.2,
            _ => false,
        }
    }

    fn same_domain(&self, url: &WebUrl, base: &WebUrl) -> (res: bool)
        ensures
            res == spec_same_domain(url@, base@),
    {
        match (url.host_str(), base.host_str()) {
            (Some(a), Some(b)) => a == b,
            (None, None) => true,
            _ => false,
        }
    }
}

impl Default for Validator {
    /// Checks only links of the base URL's origin, and crawls pages on any domain.
    fn default() -> (v: Self)
        ensures
            !v.checks_external(),
            !v.crawls_same_domain_only(),
    {
        Validator { check_external_links: false, same_domain_only: false }
    }
}

/// Whether a link is checked does not depend on whether crawling keeps to one domain: with
/// `same_domain_only` set, external links are still checked.
pub proof fn lemma_should_check_ignores_same_domain_only(
    a: Validator,
    b: Validator,
    url: Seq<char>,
    base: Seq<char>,
)
    requires
        a.checks_external() == b.checks_external(),
    ensures
        a.spec_should_check(url, base) == b.spec_should_check(url, base),
{
}

/// With `same_domain_only` set, only pages on the host of the base URL are crawled.
pub proof fn lemma_same_domain_only_crawls_base_host(v: Validator, url: Seq<char>, base: Seq<char>)
    requires
        v.crawls_same_domain_only(),
        v.spec_should_crawl(url, base),
    ensures
        spec_url_host(url) == spec_url_host(base),
{
}

/// Without `check_external_links`, only links of the base URL's (tuple) origin are checked.
pub proof fn lemma_internal_only_checks_base_origin(v: Validator, url: Seq<char>, base: Seq<char>)
    requires
        !v.checks_external(),
        v.spec_should_check(url, base),
    ensures
        spec_url_tuple_origin(url) is Some,
        spec_url_tuple_origin(url) == spec_url_tuple_origin(base),
{
}

/// Only `http` and `https` links are checked or crawled.
pub proof fn lemma_only_http_links(v: Validator, url: Seq<char>, base: Seq<char>)
    requires
        v.spec_should_check(url, base) || v.spec_should_crawl(url, base),
    ensures
        spec_url_scheme(url) == "http"@ || spec_url_scheme(url) == "https"@,
{
}

/// Every `http` or `https` link of the base URL's origin is checked, and, with
/// `check_external_links`, every `http` or `https` link at all.
pub proof fn lemma_http_links_are_checked(v: Validator, url: Seq<char>, base: Seq<char>)
    requires
        spec_url_scheme(url) == "http"@ || spec_url_scheme(url) == "https"@,
        v.checks_external() || (spec_url_tuple_origin(url) is Some
            && spec_url_tuple_origin(url) == spec_url_tuple_origin(base)),
    ensures
        v.spec_should_check(url, base),
{
}

/// Every `http` or `https` page on the base URL's host is crawled, and, without
/// `same_domain_only`, every `http` or `https` page at all.
pub proof fn lemma_http_pages_are_crawled(v: Validator, url: Seq<char>, base: Seq<char>)
    requires
        spec_url_scheme(url) == "http"@ || spec_url_scheme(url) == "https"@,
        !v.crawls_same_domain_only() || spec_url_host(url) == spec_url_host(base),
    ensures
        v.spec_should_crawl(url, base),
{
}

/// A link is checked exactly when it is an `http` or `https` link, and either links to other
/// origins are checked or it has the base URL's (tuple) origin.
pub proof fn lemma_should_check_exactly(v: Validator, url: Seq<char>, base: Seq<char>)
    ensures
        v.spec_should_check(url, base) <==> (
            (spec_url_scheme(url) == "http"@ || spec_url_scheme(url) == "https"@)
            && (v.checks_external() || (spec_url_tuple_origin(url) is Some
                && spec_url_tuple_origin(url) == spec_url_tuple_origin(base)))),
{
}

} // verus!
