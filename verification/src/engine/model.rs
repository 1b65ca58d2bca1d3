use vstd::prelude::*;

use crate::adapters::http::spec_is_broken_status;
use crate::adapters::parser::spec_anchor_links;
use crate::adapters::web_url::{spec_url_join, spec_url_parse};
use crate::engine::validator::Validator;

verus! {

/// A character with the Unicode `White_Space` property, as `char::is_whitespace` tells it:
/// U+0009 to U+000D, U+0020, U+0085, U+00A0, U+1680, U+2000 to U+200A, U+2028, U+2029,
/// U+202F, U+205F and U+3000.
pub open spec fn spec_is_whitespace(c: char) -> bool {
    let n = c as u32;
    ||| 0x9 <= n <= 0xd
    ||| n == 0x20
    ||| n == 0x85
    ||| n == 0xa0
    ||| n == 0x1680
    ||| 0x2000 <= n <= 0x200a
    ||| n == 0x2028
    ||| n == 0x2029
    ||| n == 0x202f
    ||| n == 0x205f
    ||| n == 0x3000
}

/// `s` without its leading white space.
pub open spec fn spec_trim_start(s: Seq<char>) -> Seq<char>
    decreases s.len(),
{
    if s.len() > 0 && spec_is_whitespace(s[0]) {
        spec_trim_start(s.drop_first())
    } else {
        s
    }
}

/// `s` without its trailing white space.
pub open spec fn spec_trim_end(s: Seq<char>) -> Seq<char>
    decreases s.len(),
{
    if s.len() > 0 && spec_is_whitespace(s.last()) {
        spec_trim_end(s.drop_last())
    } else {
        s
    }
}

/// `s` without its leading and trailing white space.
pub open spec fn spec_trim(s: Seq<char>) -> Seq<char> {
    spec_trim_end(spec_trim_start(s))
}

/// Calls `str::trim`, which removes leading and trailing characters for which
/// `char::is_whitespace` holds.
#[verifier::external_body]
pub(crate) fn trim(s: &str) -> (res: &str)
    ensures
        res@ == spec_trim(s@),
{
    s.trim()
}

/// Where a run stands.
pub enum PhaseView {
    /// It waits for the HTML of this page.
    AwaitingPage(Seq<char>),
    /// It waits for the answer to the request for this link.
    AwaitingCheck(Seq<char>),
    /// It is over.
    Done,
}

/// Why a run stopped.
pub enum ErrorView {
    AlreadyVisited(Seq<char>),
    FetchFailed(Seq<char>),
    ParseFailed,
    UnexpectedEvent,
}

/// What a run asks for next.
pub enum ActionView {
    /// Fetch this page and hand its HTML back.
    Fetch(Seq<char>),
    /// Request this link and hand its status back.
    CheckLink(Seq<char>),
    /// The run is over: how many links worked, how many were broken, and the broken ones.
    Finished(nat, nat, Seq<Seq<char>>),
    /// The run stopped on an error.
    Failed(ErrorView),
}

/// What a run is told.
pub enum EventView {
    /// The page it asked for came back with this HTML.
    PageFetched(Seq<char>),
    /// The page it asked for could not be fetched.
    FetchFailed,
    /// The link it asked about answered with this status, or not at all.
    LinkChecked(Option<u16>),
}

/// The state of a run of the checker, with the URLs checked and the pages visited so far.
pub struct RunView {
    /// The URL the run started from: links are resolved, and origins and hosts compared,
    /// against it.
    pub root: Seq<char>,
    /// How deep the crawl goes; 0 for no limit.
    pub max_depth: u32,
    /// The depth of the page whose links are being read.
    pub depth: u32,
    /// The pages still to crawl, each with its depth, first to be crawled first.
    pub queue: Seq<(Seq<char>, u32)>,
    /// The links of the current page not read yet, in order.
    pub links: Seq<Seq<char>>,
    pub phase: PhaseView,
    pub ok_count: nat,
    pub broken_count: nat,
    pub broken_urls: Seq<Seq<char>>,
    /// Every URL requested so far, by this run or an earlier one of the same checker.
    pub checked: Set<Seq<char>>,
    /// Every page crawled so far.
    pub visited: Set<Seq<char>>,
}

/// A link of a page resolved: parsed as an absolute URL, or, failing that, joined, trimmed,
/// to the root URL.
pub open spec fn spec_resolve(root: Seq<char>, link: Seq<char>) -> Option<Seq<char>> {
    match spec_url_parse(link) {
        Some(u) => Some(u),
        None => spec_url_join(root, spec_trim(link)),
    }
}

/// Whether a link found at `depth` may be queued for crawling: the depth limit lets it
/// (`max_depth` 0 sets none), and its depth, one more, still fits in a `u32`.
pub open spec fn spec_can_enqueue(max_depth: u32, depth: u32) -> bool {
    if max_depth == 0 {
        depth < u32::MAX
    } else {
        depth < max_depth
    }
}

/// One link of the current page: where it resolves, it is requested if the validator wants
/// it checked and it was not requested before, and queued at the next depth if the depth
/// allows, the validator wants it crawled, and it was not crawled before. Returns the URL to
/// request, if any.
pub open spec fn spec_process_link(v: Validator, s: RunView, link: Seq<char>) -> (RunView, Option<Seq<char>>) {
    match spec_resolve(s.root, link) {
        None => (s, None),
        Some(u) => {
            let check = v.spec_should_check(u, s.root) && !s.checked.contains(u);
            let crawl = spec_can_enqueue(s.max_depth, s.depth) && v.spec_should_crawl(u, s.root)
                && !s.visited.contains(u);
            let next = RunView {
                checked: if check { s.checked.insert(u) } else { s.checked },
                queue: if crawl { s.queue.push((u, (s.depth + 1) as u32)) } else { s.queue },
                ..s
            };
            (next, if check { Some(u) } else { None })
        },
    }
}

/// Once the links of a page are read: the next queued page is crawled, unless it was crawled
/// before, which stops the run; with no page left, the run is over.
pub open spec fn spec_next_page(s: RunView) -> (RunView, ActionView) {
    if s.queue.len() > 0 {
        let page = s.queue[0].0;
        let rest = RunView { queue: s.queue.drop_first(), depth: s.queue[0].1, ..s };
        if s.visited.contains(page) {
            (
                RunView { phase: PhaseView::Done, ..rest },
                ActionView::Failed(ErrorView::AlreadyVisited(page)),
            )
        } else {
            (
                RunView { phase: PhaseView::AwaitingPage(page), visited: s.visited.insert(page), ..rest },
                ActionView::Fetch(page),
            )
        }
    } else {
        (
            RunView { phase: PhaseView::Done, ..s },
            ActionView::Finished(s.ok_count, s.broken_count, s.broken_urls),
        )
    }
}

/// Reads the links of the current page in order until one is to be requested; when none is
/// left, moves on to the next page.
pub open spec fn spec_advance(v: Validator, s: RunView) -> (RunView, ActionView)
    decreases s.links.len(),
{
    if s.links.len() > 0 {
        let rest = RunView { links: s.links.drop_first(), ..s };
        let (next, request) = spec_process_link(v, rest, s.links[0]);
        match request {
            Some(u) => (RunView { phase: PhaseView::AwaitingCheck(u), ..next }, ActionView::CheckLink(u)),
            None => {
                proof {
                    assert(next.links.len() < s.links.len());
                }
                spec_advance(v, next)
            },
        }
    } else {
        spec_next_page(s)
    }
}

/// A new run from `root`: the root page is crawled first, at depth 0, unless it was crawled
/// before.
pub open spec fn spec_start(
    checked: Set<Seq<char>>,
    visited: Set<Seq<char>>,
    root: Seq<char>,
    max_depth: u32,
) -> (RunView, ActionView) {
    let s = RunView {
        root,
        max_depth,
        depth: 0,
        queue: Seq::empty(),
        links: Seq::empty(),
        phase: PhaseView::Done,
        ok_count: 0,
        broken_count: 0,
        broken_urls: Seq::empty(),
        checked,
        visited,
    };
    if visited.contains(root) {
        (s, ActionView::Failed(ErrorView::AlreadyVisited(root)))
    } else {
        (
            RunView { phase: PhaseView::AwaitingPage(root), visited: visited.insert(root), ..s },
            ActionView::Fetch(root),
        )
    }
}

/// Whether a request that answered so leaves the link working: it answered, and not with a
/// status that marks the link broken.
pub open spec fn spec_link_ok(status: Option<u16>) -> bool {
    status matches Some(code) && !spec_is_broken_status(code)
}

/// One step of a run: what the event does to the state, and what the run asks for next.
pub open spec fn spec_step(v: Validator, s: RunView, e: EventView) -> (RunView, ActionView) {
    match s.phase {
        PhaseView::AwaitingPage(page) => match e {
            EventView::PageFetched(html) => match spec_anchor_links(html) {
                Some(links) => spec_advance(v, RunView { links, ..s }),
                None => (RunView { phase: PhaseView::Done, ..s }, ActionView::Failed(ErrorView::ParseFailed)),
            },
            EventView::FetchFailed => (
                RunView { phase: PhaseView::Done, ..s },
                ActionView::Failed(ErrorView::FetchFailed(page)),
            ),
            EventView::LinkChecked(_) => (
                RunView { phase: PhaseView::Done, ..s },
                ActionView::Failed(ErrorView::UnexpectedEvent),
            ),
        },
        PhaseView::AwaitingCheck(url) => match e {
            EventView::LinkChecked(status) => {
                let counted = if spec_link_ok(status) {
                    RunView { ok_count: s.ok_count + 1, phase: PhaseView::Done, ..s }
                } else {
                    RunView {
                        broken_count: s.broken_count + 1,
                        broken_urls: s.broken_urls.push(url),
                        phase: PhaseView::Done,
                        ..s
                    }
                };
                spec_advance(v, counted)
            },
            _ => (RunView { phase: PhaseView::Done, ..s }, ActionView::Failed(ErrorView::UnexpectedEvent)),
        },
        PhaseView::Done => (s, ActionView::Failed(ErrorView::UnexpectedEvent)),
    }
}

} // verus!
