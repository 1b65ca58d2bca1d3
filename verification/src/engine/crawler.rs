use vstd::prelude::*;

use crate::adapters::parser::{spec_anchor_links, strings_view, HtmlParser};
use crate::engine::url_set::UrlSet;
use crate::engine::CheckError;

verus! {

/// Crawls pages, each at most once. A crawl has two halves around the fetch of the page:
/// `begin_crawl` marks the page visited, `page_links` reads the links off the fetched HTML.
pub struct Crawler {
    pub visited: UrlSet,
}

impl Crawler {
    pub fn new() -> (c: Self)
        ensures
            c.visited@ == Set::<Seq<char>>::empty(),
    {
        Crawler { visited: UrlSet::new() }
    }

    /// Marks the page visited; a page visited before is refused.
    pub fn begin_crawl(&mut self, url: &str) -> (res: Result<(), CheckError>)
        ensures
            final(self).visited@ == old(self).visited@.insert(url@),
            res is Ok <==> !old(self).visited@.contains(url@),
            res matches Err(e) ==> e matches CheckError::AlreadyVisited { url: u } && u@ == url@,
    {
        if !self.visited.insert(url.to_string()) {
            return Err(CheckError::AlreadyVisited { url: url.to_string() });
        }
        Ok(())
    }

    /// The links of a fetched page, read by `parser`; reading them never fails.
    pub fn page_links(&self, parser: &HtmlParser, html: &str) -> (res: Result<Vec<String>, CheckError>)
        ensures
            res matches Ok(links) && spec_anchor_links(html@) == Some(strings_view(links@)),
    {
        match parser.parse_links(html) {
            Ok(links) => Ok(links),
            Err(_) => Err(CheckError::ParseFailed),
        }
    }
}

} // verus!
