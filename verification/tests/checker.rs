use std::sync::Arc;

use broken_link_checker::adapters::web_url::WebUrl;
use broken_link_checker::context::AppContext;
use broken_link_checker::engine::crawler::Crawler;
use broken_link_checker::engine::{CheckAction, CheckError, CheckEvent, CheckRun, Checker};
use broken_link_checker::settings::Settings;

fn checker_with(max_depth: u32, same_domain_only: bool, check_external: bool) -> Checker {
    let mut settings = Settings::default();
    settings.crawlet.max_depth = max_depth;
    settings.crawlet.same_domain_only = same_domain_only;
    settings.checker.check_external_links = check_external;
    Checker::new(Arc::new(AppContext::new(settings)))
}

fn fetch_url(action: &CheckAction) -> String {
    match action {
        CheckAction::Fetch { url } => url.clone(),
        _ => panic!("expected Fetch"),
    }
}

fn check_url(action: &CheckAction) -> String {
    match action {
        CheckAction::CheckLink { url } => url.clone(),
        _ => panic!("expected CheckLink"),
    }
}

fn page(checker: &mut Checker, run: &mut CheckRun, html: &str) -> CheckAction {
    checker.step(run, CheckEvent::PageFetched { html: html.to_string() })
}

fn answer(checker: &mut Checker, run: &mut CheckRun, status: Option<u16>) -> CheckAction {
    checker.step(run, CheckEvent::LinkChecked { status })
}

#[test]
fn test_crawl_already_visited_errors() {
    let mut crawler = Crawler::new();
    let url = "https://example.com";
    crawler.visited.insert(url.to_string());
    let result = crawler.begin_crawl(url);
    assert!(result.is_err());
    match result {
        Err(CheckError::AlreadyVisited { url: u }) => assert_eq!(u, url),
        _ => panic!("expected AlreadyVisited"),
    }
}

#[test]
fn crawler_marks_pages_and_reads_links() {
    let mut crawler = Crawler::new();
    assert!(crawler.begin_crawl("https://example.com/").is_ok());
    assert!(crawler.visited.contains("https://example.com/"));
    assert_eq!(crawler.visited.len(), 1);
    let parser = broken_link_checker::adapters::parser::HtmlParser::new();
    let links = crawler.page_links(&parser, r#"<a href="/a">A</a><a href="b">B</a>"#).ok().unwrap();
    assert_eq!(links, vec!["/a".to_string(), "b".to_string()]);
}

#[test]
fn full_flow_counts_ok_and_broken_links() {
    let mut checker = checker_with(3, true, true);
    let root = WebUrl::parse("https://example.com/page").unwrap();
    let (mut run, action) = checker.start(root);
    assert_eq!(fetch_url(&action), "https://example.com/page");

    let html = r#"<!DOCTYPE html><html><body>
        <a href="/ok">OK</a>
        <a href="/broken">Broken</a>
        <a href="mailto:someone@example.com">Mail</a>
        <a href="https://other.com/x">External</a>
        </body></html>"#;
    let action = page(&mut checker, &mut run, html);
    assert_eq!(check_url(&action), "https://example.com/ok");
    let action = answer(&mut checker, &mut run, Some(200));
    assert_eq!(check_url(&action), "https://example.com/broken");
    let action = answer(&mut checker, &mut run, Some(404));
    assert_eq!(check_url(&action), "https://other.com/x");
    let action = answer(&mut checker, &mut run, None);
    // The same-domain pages are crawled next; the external one is not.
    assert_eq!(fetch_url(&action), "https://example.com/ok");
    let action = page(&mut checker, &mut run, "<html><body>no links</body></html>");
    assert_eq!(fetch_url(&action), "https://example.com/broken");
    let action = page(&mut checker, &mut run, r#"<a href="/ok">back</a><a href="/page">home</a>"#);
    // /ok was checked before; /page (the root) was never requested, so it is checked now.
    assert_eq!(check_url(&action), "https://example.com/page");
    let action = answer(&mut checker, &mut run, Some(503));
    match action {
        CheckAction::Finished { report } => {
            assert_eq!(report.ok_count, 1);
            assert_eq!(report.broken_count, 3);
            assert_eq!(
                report.broken_urls,
                vec![
                    "https://example.com/broken".to_string(),
                    "https://other.com/x".to_string(),
                    "https://example.com/page".to_string(),
                ]
            );
        }
        _ => panic!("expected Finished"),
    }
}

#[test]
fn relative_links_resolve_against_root_after_trimming() {
    let mut checker = checker_with(1, true, true);
    let root = WebUrl::parse("https://example.com/dir/index.html").unwrap();
    let (mut run, _) = checker.start(root);
    let action = page(&mut checker, &mut run, r#"<a href="  other.html  ">x</a>"#);
    assert_eq!(check_url(&action), "https://example.com/dir/other.html");
}

#[test]
fn depth_limit_stops_crawling() {
    let mut checker = checker_with(1, true, false);
    let root = WebUrl::parse("https://example.com/").unwrap();
    let (mut run, _) = checker.start(root);
    let action = page(&mut checker, &mut run, r#"<a href="/a">a</a>"#);
    assert_eq!(check_url(&action), "https://example.com/a");
    let action = answer(&mut checker, &mut run, Some(200));
    assert_eq!(fetch_url(&action), "https://example.com/a");
    // Page /a is at depth 1 = max_depth: its links are checked but not crawled.
    let action = page(&mut checker, &mut run, r#"<a href="/b">b</a>"#);
    assert_eq!(check_url(&action), "https://example.com/b");
    let action = answer(&mut checker, &mut run, Some(200));
    match action {
        CheckAction::Finished { report } => {
            assert_eq!(report.ok_count, 2);
            assert_eq!(report.broken_count, 0);
        }
        _ => panic!("expected Finished"),
    }
}

#[test]
fn external_pages_are_checked_but_not_crawled() {
    let mut checker = checker_with(3, true, true);
    let root = WebUrl::parse("https://example.com/").unwrap();
    let (mut run, _) = checker.start(root);
    let action = page(&mut checker, &mut run, r#"<a href="https://other.com/">o</a>"#);
    assert_eq!(check_url(&action), "https://other.com/");
    let action = answer(&mut checker, &mut run, Some(200));
    assert!(matches!(action, CheckAction::Finished { .. }));
}

#[test]
fn internal_only_skips_external_links() {
    let mut checker = checker_with(0, false, false);
    let root = WebUrl::parse("https://example.com/").unwrap();
    let (mut run, _) = checker.start(root);
    // With same_domain_only off, the external page is crawled though not checked.
    let action = page(&mut checker, &mut run, r#"<a href="https://other.com/">o</a>"#);
    assert_eq!(fetch_url(&action), "https://other.com/");
}

#[test]
fn page_queued_twice_stops_the_run() {
    let mut checker = checker_with(3, true, false);
    let root = WebUrl::parse("https://example.com/").unwrap();
    let (mut run, _) = checker.start(root);
    let action = page(&mut checker, &mut run, r#"<a href="/a">a</a><a href="/b">b</a>"#);
    assert_eq!(check_url(&action), "https://example.com/a");
    let action = answer(&mut checker, &mut run, Some(200));
    assert_eq!(check_url(&action), "https://example.com/b");
    let action = answer(&mut checker, &mut run, Some(200));
    assert_eq!(fetch_url(&action), "https://example.com/a");
    let action = page(&mut checker, &mut run, r#"<a href="/c">c</a>"#);
    assert_eq!(check_url(&action), "https://example.com/c");
    let action = answer(&mut checker, &mut run, Some(200));
    assert_eq!(fetch_url(&action), "https://example.com/b");
    // /c is queued a second time, since it is not crawled yet.
    let action = page(&mut checker, &mut run, r#"<a href="/c">c</a>"#);
    assert_eq!(fetch_url(&action), "https://example.com/c");
    let action = page(&mut checker, &mut run, "");
    match action {
        CheckAction::Failed { error: CheckError::AlreadyVisited { url } } => {
            assert_eq!(url, "https://example.com/c")
        }
        _ => panic!("expected AlreadyVisited"),
    }
}

#[test]
fn second_run_from_a_visited_root_fails() {
    let mut checker = checker_with(3, true, true);
    let (_, action) = checker.start(WebUrl::parse("https://example.com/").unwrap());
    assert_eq!(fetch_url(&action), "https://example.com/");
    let (_, action) = checker.start(WebUrl::parse("https://example.com/").unwrap());
    assert!(matches!(action, CheckAction::Failed { error: CheckError::AlreadyVisited { .. } }));
}

#[test]
fn fetch_failure_and_unexpected_events_stop_the_run() {
    let mut checker = checker_with(3, true, true);
    let (mut run, _) = checker.start(WebUrl::parse("https://example.com/").unwrap());
    let action = checker.step(&mut run, CheckEvent::FetchFailed);
    match action {
        CheckAction::Failed { error: CheckError::FetchFailed { url } } => {
            assert_eq!(url, "https://example.com/")
        }
        _ => panic!("expected FetchFailed"),
    }
    let action = checker.step(&mut run, CheckEvent::LinkChecked { status: Some(200) });
    assert!(matches!(action, CheckAction::Failed { error: CheckError::UnexpectedEvent }));
}

#[test]
fn unresolvable_and_non_http_links_are_skipped() {
    let mut checker = checker_with(3, true, true);
    let (mut run, _) = checker.start(WebUrl::parse("https://example.com/").unwrap());
    let action = page(&mut checker, &mut run, r#"<a href="http://[::1">bad</a><a href="javascript:void(0)">js</a>"#);
    match action {
        CheckAction::Finished { report } => {
            assert_eq!(report.ok_count, 0);
            assert_eq!(report.broken_count, 0);
            assert!(report.broken_urls.is_empty());
        }
        _ => panic!("expected Finished"),
    }
}

#[test]
fn duplicate_link_on_a_page_stops_the_run() {
    let mut checker = checker_with(3, true, true);
    let (mut run, _) = checker.start(WebUrl::parse("https://example.com/").unwrap());
    let action = page(&mut checker, &mut run, r#"<a href="/a">a</a><a href="/a">again</a>"#);
    assert_eq!(check_url(&action), "https://example.com/a");
    // The second /a is not requested again, but it is queued a second time.
    let action = answer(&mut checker, &mut run, Some(200));
    assert_eq!(fetch_url(&action), "https://example.com/a");
    let action = page(&mut checker, &mut run, "");
    assert!(matches!(action, CheckAction::Failed { error: CheckError::AlreadyVisited { .. } }));
}

#[test]
fn unicode_white_space_is_trimmed_before_joining() {
    let mut checker = checker_with(1, true, true);
    let root = WebUrl::parse("https://example.com/dir/index.html").unwrap();
    let (mut run, _) = checker.start(root);
    let action = page(&mut checker, &mut run, "<a href=\"\u{3000}next.html\u{a0}\n\">x</a>");
    assert_eq!(check_url(&action), "https://example.com/dir/next.html");
}

#[test]
fn same_links_read_again_request_nothing() {
    let mut checker = checker_with(0, true, true);
    let (mut run, _) = checker.start(WebUrl::parse("https://example.com/").unwrap());
    let links = r#"<a href="https://other.com/x">x</a><a href="/a">a</a>"#;
    let action = page(&mut checker, &mut run, links);
    assert_eq!(check_url(&action), "https://other.com/x");
    let action = answer(&mut checker, &mut run, Some(200));
    assert_eq!(check_url(&action), "https://example.com/a");
    let action = answer(&mut checker, &mut run, Some(200));
    assert_eq!(fetch_url(&action), "https://example.com/a");
    // Page /a holds the same links: none of them is requested again.
    let action = page(&mut checker, &mut run, links);
    match action {
        CheckAction::Finished { report } => {
            assert_eq!(report.ok_count, 2);
            assert_eq!(report.broken_count, 0);
        }
        _ => panic!("expected Finished"),
    }
}
