use vstd::prelude::*;

use crate::adapters::parser::spec_anchor_links;
use crate::engine::model::{
    spec_advance, spec_link_ok, spec_next_page, spec_process_link, spec_resolve, spec_start,
    spec_step, ActionView, EventView, PhaseView, RunView,
};
use crate::engine::validator::Validator;

verus! {

/// What holds of every state that a run reaches: each broken URL is reported once and was
/// requested; the link awaiting its answer was requested and is not reported yet; the page
/// awaiting its HTML is marked crawled; every queued page is one the validator wants crawled,
/// at depth 1 or more and, under a depth limit, within it; and the current page lies within the
/// depth limit.
pub open spec fn run_invariant(v: Validator, s: RunView) -> bool {
    &&& s.broken_urls.len() == s.broken_count
    &&& s.broken_urls.no_duplicates()
    &&& forall|i: int| 0 <= i < s.broken_urls.len() ==> s.checked.contains(#[trigger] s.broken_urls[i])
    &&& (s.phase matches PhaseView::AwaitingCheck(u) ==> s.checked.contains(u) && !s.broken_urls.contains(u))
    &&& (s.phase matches PhaseView::AwaitingPage(p) ==> s.visited.contains(p))
    &&& forall|i: int| 0 <= i < s.queue.len() ==> queued_ok(v, s, #[trigger] s.queue[i])
    &&& (s.max_depth > 0 ==> s.depth <= s.max_depth)
}

/// A queued page: wanted crawled from the root, at depth 1 or more, within the depth limit.
pub open spec fn queued_ok(v: Validator, s: RunView, entry: (Seq<char>, u32)) -> bool {
    &&& v.spec_should_crawl(entry.0, s.root)
    &&& 1 <= entry.1
    &&& (s.max_depth > 0 ==> entry.1 <= s.max_depth)
}

/// What one transition from `s` to `r` keeps of its promises: the root and depth limit stay;
/// a URL is requested only if the validator wants it checked and it was never requested
/// before, and every URL added to the checked set is the one requested; a page is fetched only
/// if it was never crawled before and the validator wants it crawled, at a depth within the
/// limit, and only pages fetched are added to the crawled set; a finished run reports the
/// counts and broken URLs of the state it ends in.
pub open spec fn transition_ok(v: Validator, s: RunView, r: (RunView, ActionView)) -> bool {
    &&& r.0.root == s.root
    &&& r.0.max_depth == s.max_depth
    &&& match r.1 {
        ActionView::CheckLink(u) => {
            &&& v.spec_should_check(u, s.root)
            &&& !s.checked.contains(u)
            &&& r.0.checked == s.checked.insert(u)
        },
        _ => r.0.checked == s.checked,
    }
    &&& match r.1 {
        ActionView::Fetch(p) => {
            &&& !s.visited.contains(p)
            &&& r.0.visited == s.visited.insert(p)
            &&& v.spec_should_crawl(p, s.root)
            &&& 1 <= r.0.depth
            &&& (s.max_depth > 0 ==> r.0.depth <= s.max_depth)
        },
        _ => r.0.visited == s.visited,
    }
    &&& (r.1 matches ActionView::Finished(ok, broken, urls) ==> {
        &&& ok == r.0.ok_count
        &&& broken == r.0.broken_count
        &&& urls == r.0.broken_urls
    })
}

proof fn lemma_process_link(v: Validator, s: RunView, link: Seq<char>)
    requires
        run_invariant(v, s),
    ensures
        run_invariant(v, spec_process_link(v, s, link).0),
        spec_process_link(v, s, link).0.root == s.root,
        spec_process_link(v, s, link).0.max_depth == s.max_depth,
        spec_process_link(v, s, link).0.links == s.links,
        spec_process_link(v, s, link).0.phase == s.phase,
        spec_process_link(v, s, link).0.visited == s.visited,
        match spec_process_link(v, s, link).1 {
            Some(u) => {
                &&& v.spec_should_check(u, s.root)
                &&& !s.checked.contains(u)
                &&& spec_process_link(v, s, link).0.checked == s.checked.insert(u)
            },
            None => spec_process_link(v, s, link).0.checked == s.checked,
        },
{
    let r = spec_process_link(v, s, link).0;
    assert forall|i: int| 0 <= i < r.queue.len() implies queued_ok(v, r, #[trigger] r.queue[i]) by {
        if i < s.queue.len() {
            assert(r.queue[i] == s.queue[i]);
            assert(queued_ok(v, s, s.queue[i]));
        }
    }
    assert forall|i: int| 0 <= i < r.broken_urls.len() implies r.checked.contains(#[trigger] r.broken_urls[i]) by {
        assert(s.checked.contains(s.broken_urls[i]));
    }
}

proof fn lemma_next_page(v: Validator, s: RunView)
    requires
        run_invariant(v, s),
    ensures
        run_invariant(v, spec_next_page(s).0),
        transition_ok(v, s, spec_next_page(s)),
{
    let r = spec_next_page(s).0;
    if s.queue.len() > 0 {
        assert(queued_ok(v, s, s.queue[0]));
        assert forall|i: int| 0 <= i < r.queue.len() implies queued_ok(v, r, #[trigger] r.queue[i]) by {
            assert(r.queue[i] == s.queue[i + 1]);
            assert(queued_ok(v, s, s.queue[i + 1]));
        }
    }
}

proof fn lemma_advance(v: Validator, s: RunView)
    requires
        run_invariant(v, s),
    ensures
        run_invariant(v, spec_advance(v, s).0),
        transition_ok(v, s, spec_advance(v, s)),
    decreases s.links.len(),
{
    if s.links.len() > 0 {
        let rest = RunView { links: s.links.drop_first(), ..s };
        assert(run_invariant(v, rest));
        lemma_process_link(v, rest, s.links[0]);
        let (next, request) = spec_process_link(v, rest, s.links[0]);
        match request {
            Some(u) => {
                let r = RunView { phase: PhaseView::AwaitingCheck(u), ..next };
                assert forall|i: int| 0 <= i < r.queue.len() implies queued_ok(v, r, #[trigger] r.queue[i]) by {
                    assert(queued_ok(v, next, next.queue[i]));
                }
                assert(!r.broken_urls.contains(u)) by {
                    if r.broken_urls.contains(u) {
                        let k = choose|k: int| 0 <= k < s.broken_urls.len() && s.broken_urls[k] == u;
                        assert(s.checked.contains(s.broken_urls[k]));
                    }
                }
            },
            None => {
                lemma_advance(v, next);
            },
        }
    } else {
        lemma_next_page(v, s);
    }
}

/// Every state that a run reaches keeps the run invariant, and every step keeps the promises
/// of a transition: no URL is requested twice, no page is crawled twice, and only links the
/// validator wants checked are requested.
pub proof fn lemma_step_keeps_invariant(v: Validator, s: RunView, e: EventView)
    requires
        run_invariant(v, s),
    ensures
        run_invariant(v, spec_step(v, s, e).0),
        transition_ok(v, s, spec_step(v, s, e)),
{
    match s.phase {
        PhaseView::AwaitingPage(_) => match e {
            EventView::PageFetched(html) => {
                match spec_anchor_links(html) {
                    Some(links) => {
                        lemma_advance(v, RunView { links, ..s });
                    },
                    None => {},
                }
            },
            _ => {},
        },
        PhaseView::AwaitingCheck(url) => match e {
            EventView::LinkChecked(status) => {
                let counted = if spec_link_ok(status) {
                    RunView { ok_count: s.ok_count + 1, phase: PhaseView::Done, ..s }
                } else {
                    RunView {
                        broken_count: s.broken_count + 1,
                        broken_urls: s.broken_urls.push(url),
                        phase: PhaseView::Done,
                        ..s
                    }
                };
                assert forall|i: int| 0 <= i < counted.broken_urls.len() implies counted.checked.contains(#[trigger] counted.broken_urls[i]) by {
                    if i < s.broken_urls.len() {
                        assert(counted.broken_urls[i] == s.broken_urls[i]);
                    }
                }
                assert forall|i: int| 0 <= i < counted.queue.len() implies queued_ok(v, counted, #[trigger] counted.queue[i]) by {
                    assert(queued_ok(v, s, s.queue[i]));
                }
                assert(counted.broken_urls.no_duplicates()) by {
                    assert forall|i: int, j: int| 0 <= i < counted.broken_urls.len() && 0 <= j < counted.broken_urls.len() && i != j
                        implies counted.broken_urls[i] != counted.broken_urls[j] by {
                        if i < s.broken_urls.len() && j == s.broken_urls.len() {
                            assert(s.broken_urls.contains(s.broken_urls[i]));
                        }
                        if j < s.broken_urls.len() && i == s.broken_urls.len() {
                            assert(s.broken_urls.contains(s.broken_urls[j]));
                        }
                    }
                }
                lemma_advance(v, counted);
            },
            _ => {},
        },
        PhaseView::Done => {},
    }
}

/// A run starts in a state that keeps the run invariant, and its first step keeps the promises
/// of a transition: the root page is fetched only if it was never crawled before.
pub proof fn lemma_start_establishes_invariant(
    v: Validator,
    checked: Set<Seq<char>>,
    visited: Set<Seq<char>>,
    root: Seq<char>,
    max_depth: u32,
)
    ensures
        run_invariant(v, spec_start(checked, visited, root, max_depth).0),
        spec_start(checked, visited, root, max_depth).0.checked == checked,
        match spec_start(checked, visited, root, max_depth).1 {
            ActionView::Fetch(p) => {
                &&& p == root
                &&& !visited.contains(root)
                &&& spec_start(checked, visited, root, max_depth).0.visited == visited.insert(root)
            },
            _ => spec_start(checked, visited, root, max_depth).0.visited == visited,
        },
{
}

/// A finished run reports each broken URL once, every one of them requested, and as many
/// broken URLs as it counts broken links.
pub proof fn lemma_finished_report(v: Validator, s: RunView, e: EventView)
    requires
        run_invariant(v, s),
        spec_step(v, s, e).1 is Finished,
    ensures
        spec_step(v, s, e).1 matches ActionView::Finished(ok, broken, urls) && {
            &&& urls.len() == broken
            &&& urls.no_duplicates()
            &&& forall|i: int| 0 <= i < urls.len() ==> spec_step(v, s, e).0.checked.contains(#[trigger] urls[i])
        },
{
    lemma_step_keeps_invariant(v, s, e);
}

/// What a step from `s` to `r` does to the checked URLs and the crawled pages: both only
/// grow; a URL is requested only if it was never requested before, and is then marked
/// requested; a page is fetched only if it was never crawled before, and is then marked
/// crawled.
pub open spec fn only_new_requests(s: RunView, r: (RunView, ActionView)) -> bool {
    &&& s.checked.subset_of(r.0.checked)
    &&& s.visited.subset_of(r.0.visited)
    &&& (r.1 matches ActionView::CheckLink(u) ==> !s.checked.contains(u) && r.0.checked.contains(u))
    &&& (r.1 matches ActionView::Fetch(p) ==> !s.visited.contains(p) && r.0.visited.contains(p))
}

proof fn lemma_advance_requests_only_new(v: Validator, s: RunView)
    ensures
        only_new_requests(s, spec_advance(v, s)),
    decreases s.links.len(),
{
    if s.links.len() > 0 {
        let rest = RunView { links: s.links.drop_first(), ..s };
        let (next, request) = spec_process_link(v, rest, s.links[0]);
        if request is None {
            lemma_advance_requests_only_new(v, next);
        }
    }
}

/// Over any step, whatever the state: the checked URLs and crawled pages only grow, no URL is
/// requested that was requested before, and no page is fetched that was crawled before. As
/// `Checker::step` and `Checker::start` say so of the checker itself, this holds over the
/// whole life of a checker, across runs.
pub proof fn lemma_step_requests_only_new(v: Validator, s: RunView, e: EventView)
    ensures
        only_new_requests(s, spec_step(v, s, e)),
{
    match s.phase {
        PhaseView::AwaitingPage(_) => match e {
            EventView::PageFetched(html) => {
                match spec_anchor_links(html) {
                    Some(links) => lemma_advance_requests_only_new(v, RunView { links, ..s }),
                    None => {},
                }
            },
            _ => {},
        },
        PhaseView::AwaitingCheck(url) => match e {
            EventView::LinkChecked(status) => {
                let counted = if spec_link_ok(status) {
                    RunView { ok_count: s.ok_count + 1, phase: PhaseView::Done, ..s }
                } else {
                    RunView {
                        broken_count: s.broken_count + 1,
                        broken_urls: s.broken_urls.push(url),
                        phase: PhaseView::Done,
                        ..s
                    }
                };
                lemma_advance_requests_only_new(v, counted);
            },
            _ => {},
        },
        PhaseView::Done => {},
    }
}

/// The links of a page read one after another, each as `spec_process_link` reads it: the
/// state after all of them, and the URLs requested, in order.
pub open spec fn spec_process_links(v: Validator, s: RunView, links: Seq<Seq<char>>) -> (RunView, Seq<Seq<char>>)
    decreases links.len(),
{
    if links.len() == 0 {
        (s, Seq::empty())
    } else {
        let (next, request) = spec_process_link(v, s, links[0]);
        let (last, requests) = spec_process_links(v, next, links.drop_first());
        (
            last,
            match request {
                Some(u) => seq![u] + requests,
                None => requests,
            },
        )
    }
}

/// Every link in `links` that resolves against `root` to a URL the validator wants checked is
/// in `checked`.
pub open spec fn all_wanted_checked(v: Validator, root: Seq<char>, links: Seq<Seq<char>>, checked: Set<Seq<char>>) -> bool {
    forall|i: int| 0 <= i < links.len() ==> match spec_resolve(root, #[trigger] links[i]) {
        Some(u) => v.spec_should_check(u, root) ==> checked.contains(u),
        None => true,
    }
}

/// Reading links changes nothing but the checked URLs, which only grow, and the queue; after
/// it, every link read that is wanted checked is checked.
proof fn lemma_process_links_frame(v: Validator, s: RunView, links: Seq<Seq<char>>)
    ensures
        spec_process_links(v, s, links).0 == (RunView {
            checked: spec_process_links(v, s, links).0.checked,
            queue: spec_process_links(v, s, links).0.queue,
            ..s
        }),
        s.checked.subset_of(spec_process_links(v, s, links).0.checked),
        all_wanted_checked(v, s.root, links, spec_process_links(v, s, links).0.checked),
    decreases links.len(),
{
    if links.len() > 0 {
        let (next, request) = spec_process_link(v, s, links[0]);
        lemma_process_links_frame(v, next, links.drop_first());
        let last = spec_process_links(v, s, links).0;
        assert forall|i: int| 0 <= i < links.len() implies match spec_resolve(s.root, #[trigger] links[i]) {
            Some(u) => v.spec_should_check(u, s.root) ==> last.checked.contains(u),
            None => true,
        } by {
            if i > 0 {
                assert(links[i] == links.drop_first()[i - 1]);
            }
        }
    }
}

/// Reading links whose wanted URLs are all checked already requests nothing and changes no
/// checked URL.
proof fn lemma_process_links_nothing_new(v: Validator, s: RunView, links: Seq<Seq<char>>)
    requires
        all_wanted_checked(v, s.root, links, s.checked),
    ensures
        spec_process_links(v, s, links).1 == Seq::<Seq<char>>::empty(),
        spec_process_links(v, s, links).0.checked == s.checked,
    decreases links.len(),
{
    if links.len() > 0 {
        let (next, request) = spec_process_link(v, s, links[0]);
        assert(match spec_resolve(s.root, links[0]) {
            Some(u) => v.spec_should_check(u, s.root) ==> s.checked.contains(u),
            None => true,
        });
        assert(request is None);
        assert(next.checked == s.checked);
        assert forall|i: int| 0 <= i < links.drop_first().len() implies match spec_resolve(next.root, #[trigger] links.drop_first()[i]) {
            Some(u) => v.spec_should_check(u, next.root) ==> next.checked.contains(u),
            None => true,
        } by {
            assert(links.drop_first()[i] == links[i + 1]);
        }
        lemma_process_links_nothing_new(v, next, links.drop_first());
    }
}

/// Reading the same links of a page a second time requests nothing new: no URL is requested,
/// the checked URLs stay as the first reading left them, and so do the counts and the broken
/// URLs; only the queue may grow.
pub proof fn lemma_reading_links_again_requests_nothing(v: Validator, s: RunView, links: Seq<Seq<char>>)
    ensures
        spec_process_links(v, spec_process_links(v, s, links).0, links).1 == Seq::<Seq<char>>::empty(),
        spec_process_links(v, spec_process_links(v, s, links).0, links).0 == (RunView {
            queue: spec_process_links(v, spec_process_links(v, s, links).0, links).0.queue,
            ..spec_process_links(v, s, links).0
        }),
{
    let first = spec_process_links(v, s, links).0;
    lemma_process_links_frame(v, s, links);
    lemma_process_links_nothing_new(v, first, links);
    lemma_process_links_frame(v, first, links);
}

/// Reading a link queues at most one page: the URL the link resolves to, at one more than the
/// depth of the page the link was found on, and only while that depth is under the limit (or,
/// with no limit, while one more still fits in a `u32`). It queues it whenever the validator
/// wants it crawled and it was never crawled.
pub proof fn lemma_queued_one_deeper(v: Validator, s: RunView, link: Seq<char>)
    ensures
        spec_process_link(v, s, link).0.queue == s.queue || {
            &&& spec_process_link(v, s, link).0.queue.len() == s.queue.len() + 1
            &&& spec_process_link(v, s, link).0.queue.drop_last() == s.queue
            &&& spec_process_link(v, s, link).0.queue.last().1 == s.depth + 1
            &&& spec_resolve(s.root, link) == Some(spec_process_link(v, s, link).0.queue.last().0)
            &&& (s.max_depth == 0 || s.depth < s.max_depth)
        },
        spec_resolve(s.root, link) matches Some(u) ==> (v.spec_should_crawl(u, s.root)
            && !s.visited.contains(u)
            && ((s.max_depth > 0 && s.depth < s.max_depth) || (s.max_depth == 0 && s.depth < u32::MAX))
            ==> spec_process_link(v, s, link).0.queue == s.queue.push((u, (s.depth + 1) as u32))),
{
    let r = spec_process_link(v, s, link).0;
    if r.queue != s.queue {
        assert(r.queue.drop_last() =~= s.queue);
    }
}

/// Once a page's links are read, the next page fetched is the first queued one, and its
/// links are read at the depth it was queued with; with nothing queued the run finishes.
pub proof fn lemma_next_page_takes_first(s: RunView)
    ensures
        s.queue.len() > 0 ==> spec_next_page(s).0.depth == s.queue[0].1
            && spec_next_page(s).0.queue == s.queue.drop_first(),
        s.queue.len() > 0 && !s.visited.contains(s.queue[0].0)
            ==> spec_next_page(s).1 == ActionView::Fetch(s.queue[0].0),
        s.queue.len() == 0 ==> spec_next_page(s).1 is Finished,
{
}

/// A run reads the root page at depth 0 with nothing queued; so, with the two laws above,
/// every page's depth is its link distance from the root along the links that queued it.
pub proof fn lemma_start_at_depth_zero(
    checked: Set<Seq<char>>,
    visited: Set<Seq<char>>,
    root: Seq<char>,
    max_depth: u32,
)
    ensures
        spec_start(checked, visited, root, max_depth).0.depth == 0,
        spec_start(checked, visited, root, max_depth).0.queue.len() == 0,
        spec_start(checked, visited, root, max_depth).0.max_depth == max_depth,
        spec_start(checked, visited, root, max_depth).0.root == root,
{
}

} // verus!
