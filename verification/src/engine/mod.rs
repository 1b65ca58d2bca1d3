use std::collections::VecDeque;
use std::sync::Arc;

use vstd::prelude::*;

use crate::adapters::http::is_broken_status;
use crate::adapters::parser::strings_view;
use crate::adapters::web_url::WebUrl;
use crate::context::AppContext;
use crate::engine::crawler::Crawler;
use crate::engine::laws::lemma_step_requests_only_new;
use crate::engine::model::{
    spec_advance, spec_can_enqueue, spec_next_page, spec_process_link, spec_resolve, spec_start,
    spec_step,
    trim, ActionView, ErrorView, EventView, PhaseView, RunView,
};
use crate::engine::url_set::UrlSet;
use crate::engine::validator::Validator;

pub mod command;
pub mod crawler;
pub mod laws;
pub mod model;
pub mod url_set;
pub mod validator;

verus! {

/// Why a check stopped.
pub enum CheckError {
    /// The page was crawled before.
    AlreadyVisited { url: String },
    /// The page could not be fetched.
    FetchFailed { url: String },
    /// The links of a page could not be read.
    ParseFailed,
    /// An event came that the run was not waiting for.
    UnexpectedEvent,
}

impl View for CheckError {
    type V = ErrorView;

    open spec fn view(&self) -> ErrorView {
        match self {
            CheckError::AlreadyVisited { url } => ErrorView::AlreadyVisited(url@),
            CheckError::FetchFailed { url } => ErrorView::FetchFailed(url@),
            CheckError::ParseFailed => ErrorView::ParseFailed,
            CheckError::UnexpectedEvent => ErrorView::UnexpectedEvent,
        }
    }
}

/// What the caller tells a run: the outcome of what it asked for.
pub enum CheckEvent {
    /// The page came back with this HTML.
    PageFetched { html: String },
    /// The page could not be fetched.
    FetchFailed,
    /// The link answered with this status code, or not at all.
    LinkChecked { status: Option<u16> },
}

impl View for CheckEvent {
    type V = EventView;

    open spec fn view(&self) -> EventView {
        match self {
            CheckEvent::PageFetched { html } => EventView::PageFetched(html@),
            CheckEvent::FetchFailed => EventView::FetchFailed,
            CheckEvent::LinkChecked { status } => EventView::LinkChecked(*status),
        }
    }
}

/// The outcome of a finished run.
pub struct CheckReport {
    pub ok_count: usize,
    pub broken_count: usize,
    pub broken_urls: Vec<String>,
}

/// What a run asks the caller for next.
pub enum CheckAction {
    /// Fetch this page and hand back `PageFetched` or `FetchFailed`.
    Fetch { url: String },
    /// Request this link and hand back `LinkChecked`.
    CheckLink { url: String },
    /// The run is over.
    Finished { report: CheckReport },
    /// The run stopped on an error.
    Failed { error: CheckError },
}

impl View for CheckAction {
    type V = ActionView;

    open spec fn view(&self) -> ActionView {
        match self {
            CheckAction::Fetch { url } => ActionView::Fetch(url@),
            CheckAction::CheckLink { url } => ActionView::CheckLink(url@),
            CheckAction::Finished { report } => ActionView::Finished(
                report.ok_count as nat,
                report.broken_count as nat,
                strings_view(report.broken_urls@),
            ),
            CheckAction::Failed { error } => ActionView::Failed(error@),
        }
    }
}

enum Phase {
    AwaitingPage { url: String },
    AwaitingCheck { url: String },
    Done,
}

/// A run of the checker from one root URL.
pub struct CheckRun {
    root: WebUrl,
    max_depth: u32,
    depth: u32,
    queue: VecDeque<(String, u32)>,
    links: Vec<String>,
    next_link: usize,
    phase: Phase,
    ok_count: usize,
    broken_count: usize,
    broken_urls: Vec<String>,
}

/// Whether a link found at `depth` may be queued.
fn can_enqueue(max_depth: u32, depth: u32) -> (res: bool)
    ensures
        res == spec_can_enqueue(max_depth, depth),
{
    if max_depth == 0 {
        depth < u32::MAX
    } else {
        depth < max_depth
    }
}

/// Checks the links of a site: crawls pages from a root URL, breadth first, and requests every
/// link it finds that the validator wants checked, each URL once.
pub struct Checker {
    pub ctx: Arc<AppContext>,
    pub crawler: Crawler,
    pub validator: Validator,
    pub checked: UrlSet,
}

impl Checker {
    /// The state of a run, with the checker's checked URLs and visited pages.
    pub closed spec fn model(&self, run: &CheckRun) -> RunView {
        RunView {
            root: run.root@,
            max_depth: run.max_depth,
            depth: run.depth,
            queue: run.queue@.map_values(|p: (String, u32)| (p.0@, p.1)),
            links: strings_view(run.links@.skip(run.next_link as int)),
            phase: match run.phase {
                Phase::AwaitingPage { url } => PhaseView::AwaitingPage(url@),
                Phase::AwaitingCheck { url } => PhaseView::AwaitingCheck(url@),
                Phase::Done => PhaseView::Done,
            },
            ok_count: run.ok_count as nat,
            broken_count: run.broken_count as nat,
            broken_urls: strings_view(run.broken_urls@),
            checked: self.checked@,
            visited: self.crawler.visited@,
        }
    }

    /// The checked URLs and crawled pages of a run's state are the checker's own.
    pub proof fn lemma_model_sets(&self, run: &CheckRun)
        ensures
            self.model(run).checked == self.checked@,
            self.model(run).visited == self.crawler.visited@,
    {
    }

    /// The run belongs to this checker: its counts stay within the URLs checked.
    pub closed spec fn wf(&self, run: &CheckRun) -> bool {
        &&& run.next_link <= run.links@.len()
        &&& run.broken_urls@.len() == run.broken_count
        &&& run.ok_count + run.broken_count + (if run.phase is AwaitingCheck { 1int } else { 0int })
            <= self.checked.size()
    }

    pub fn new(ctx: Arc<AppContext>) -> (c: Self)
        ensures
            c.ctx == ctx,
            c.validator.checks_external() == ctx.settings.checker.check_external_links,
            c.validator.crawls_same_domain_only() == ctx.settings.crawlet.same_domain_only,
            c.crawler.visited@ == Set::<Seq<char>>::empty(),
            c.checked@ == Set::<Seq<char>>::empty(),
    {
        let validator = Validator::new(&ctx.settings.checker, &ctx.settings.crawlet);
        Checker { ctx, crawler: Crawler::new(), validator, checked: UrlSet::new() }
    }

    /// Starts a run from `root`, with the depth limit of the settings: asks for the root page,
    /// unless it was crawled before.
    pub fn start(&mut self, root: WebUrl) -> (res: (CheckRun, CheckAction))
        ensures
            final(self).ctx == old(self).ctx,
            final(self).validator == old(self).validator,
            final(self).wf(&res.0),
            (final(self).model(&res.0), res.1@) == spec_start(
                old(self).checked@,
                old(self).crawler.visited@,
                root@,
                old(self).ctx.settings.crawlet.max_depth,
            ),
            final(self).checked@ == old(self).checked@,
            final(self).model(&res.0).checked == final(self).checked@,
            final(self).model(&res.0).visited == final(self).crawler.visited@,
            old(self).crawler.visited@.subset_of(final(self).crawler.visited@),
            res.1 matches CheckAction::Fetch { url } ==> !old(self).crawler.visited@.contains(url@)
                && final(self).crawler.visited@.contains(url@),
    {
        let max_depth = self.ctx.settings.crawlet.max_depth;
        let href = root.as_str().to_string();
        assert(href@ == root@);
        let began = self.crawler.begin_crawl(href.as_str());
        let mut run = CheckRun {
            root,
            max_depth,
            depth: 0,
            queue: VecDeque::new(),
            links: Vec::new(),
            next_link: 0,
            phase: Phase::Done,
            ok_count: 0,
            broken_count: 0,
            broken_urls: Vec::new(),
        };
        proof {
            assert(run.queue@.map_values(|p: (String, u32)| (p.0@, p.1)) =~= Seq::<(Seq<char>, u32)>::empty());
            assert(strings_view(run.links@.skip(0)) =~= Seq::<Seq<char>>::empty());
            assert(strings_view(run.broken_urls@) =~= Seq::<Seq<char>>::empty());
        }
        match began {
            Ok(()) => {
                run.phase = Phase::AwaitingPage { url: href.clone() };
                proof {
                    let expected = spec_start(
                        old(self).checked@,
                        old(self).crawler.visited@,
                        root@,
                        max_depth,
                    );
                    assert(self.model(&run).phase == expected.0.phase);
                    assert(self.model(&run).visited == expected.0.visited);
                    assert(self.model(&run) == expected.0);
                    assert(expected.1 == ActionView::Fetch(href@));
                    assert(max_depth == old(self).ctx.settings.crawlet.max_depth);
                }
                (run, CheckAction::Fetch { url: href })
            },
            Err(error) => {
                assert(self.crawler.visited@ =~= old(self).crawler.visited@);
                (run, CheckAction::Failed { error })
            },
        }
    }

    /// One link of the current page; returns the URL to request, if any.
    fn process_link(&mut self, run: &mut CheckRun, link: &str) -> (res: Option<String>)
        requires
            old(self).wf(old(run)),
            !(old(run).phase is AwaitingCheck),
        ensures
            final(self).wf(final(run)),
            !(final(run).phase is AwaitingCheck) || res is Some,
            final(run).phase == old(run).phase,
            (final(self).model(final(run)), res.deep_view()) == spec_process_link(
                old(self).validator,
                old(self).model(old(run)),
                link@,
            ),
            final(self).ctx == old(self).ctx,
            final(self).validator == old(self).validator,
            final(run).ok_count == old(run).ok_count,
            final(run).broken_count == old(run).broken_count,
            res is Some ==> final(self).checked.size() == old(self).checked.size() + 1,
    {
        let ghost before = self.model(run);
        let resolved = match WebUrl::parse(link) {
            Some(u) => Some(u),
            None => run.root.join(trim(link)),
        };
        match resolved {
            None => None,
            Some(u) => {
                let href = u.as_str().to_string();
                assert(href@ == u@);
                assert(spec_resolve(before.root, link@) == Some(u@));
                let check = if self.validator.should_check(&u, &run.root) {
                    self.checked.insert(href.clone())
                } else {
                    false
                };
                let crawl = if can_enqueue(run.max_depth, run.depth) {
                    if self.validator.should_crawl(&u, &run.root) {
                        !self.crawler.visited.contains(href.as_str())
                    } else {
                        false
                    }
                } else {
                    false
                };
                let ghost queue_before = run.queue@;
                if crawl {
                    run.queue.push_back((href.clone(), run.depth + 1));
                    proof {
                        assert(run.queue@.map_values(|p: (String, u32)| (p.0@, p.1))
                            =~= queue_before.map_values(|p: (String, u32)| (p.0@, p.1)).push((href@, (run.depth + 1) as u32)));
                    }
                }
                proof {
                    if !check {
                        assert(self.checked@ =~= before.checked);
                    }
                    let expected = spec_process_link(self.validator, before, link@);
                    assert(self.model(run).checked == expected.0.checked);
                    assert(self.model(run).queue == expected.0.queue);
                    assert(self.model(run) == expected.0);
                }
                if check {
                    Some(href)
                } else {
                    None
                }
            },
        }
    }

    /// Once the links of a page are read: asks for the next queued page, or finishes.
    fn next_page(&mut self, run: &mut CheckRun) -> (action: CheckAction)
        requires
            old(self).wf(old(run)),
            !(old(run).phase is AwaitingCheck),
            old(run).next_link == old(run).links@.len(),
        ensures
            final(self).wf(final(run)),
            (final(self).model(final(run)), action@) == spec_next_page(old(self).model(old(run))),
            final(self).ctx == old(self).ctx,
            final(self).validator == old(self).validator,
    {
        let ghost queue_before = run.queue@;
        if let Some((page, depth)) = run.queue.pop_front() {
            run.depth = depth;
            proof {
                assert(run.queue@ =~= queue_before.drop_first());
                assert(run.queue@.map_values(|p: (String, u32)| (p.0@, p.1))
                    =~= queue_before.map_values(|p: (String, u32)| (p.0@, p.1)).drop_first());
            }
            match self.crawler.begin_crawl(page.as_str()) {
                Ok(()) => {
                    run.phase = Phase::AwaitingPage { url: page.clone() };
                    CheckAction::Fetch { url: page }
                },
                Err(error) => {
                    assert(self.crawler.visited@ =~= old(self).crawler.visited@);
                    run.phase = Phase::Done;
                    CheckAction::Failed { error }
                },
            }
        } else {
            run.phase = Phase::Done;
            let broken_urls = run.broken_urls.clone();
            proof {
                assert(strings_view(broken_urls@) =~= strings_view(run.broken_urls@));
            }
            CheckAction::Finished {
                report: CheckReport {
                    ok_count: run.ok_count,
                    broken_count: run.broken_count,
                    broken_urls,
                },
            }
        }
    }

    /// Reads the links of the current page until one is to be requested, then moves on.
    fn advance(&mut self, run: &mut CheckRun) -> (action: CheckAction)
        requires
            old(self).wf(old(run)),
            !(old(run).phase is AwaitingCheck),
        ensures
            final(self).wf(final(run)),
            (final(self).model(final(run)), action@) == spec_advance(
                old(self).validator,
                old(self).model(old(run)),
            ),
            final(self).ctx == old(self).ctx,
            final(self).validator == old(self).validator,
    {
        let ghost target = spec_advance(self.validator, self.model(run));
        let ghost v = self.validator;
        let ghost ctx = self.ctx;
        while run.next_link < run.links.len()
            invariant
                self.wf(run),
                !(run.phase is AwaitingCheck),
                spec_advance(v, self.model(run)) == target,
                self.validator == v,
                self.ctx == ctx,
                v == old(self).validator,
                ctx == old(self).ctx,
                target == spec_advance(old(self).validator, old(self).model(old(run))),
            decreases run.links@.len() - run.next_link,
        {
            let link = run.links[run.next_link].clone();
            let ghost before = self.model(run);
            assert(link@ == before.links[0]);
            run.next_link = run.next_link + 1;
            proof {
                assert(strings_view(run.links@.skip(run.next_link as int))
                    =~= before.links.drop_first());
                assert(self.model(run) == (RunView { links: before.links.drop_first(), ..before }));
            }
            match self.process_link(run, link.as_str()) {
                Some(url) => {
                    run.phase = Phase::AwaitingCheck { url: url.clone() };
                    return CheckAction::CheckLink { url };
                },
                None => {},
            }
        }
        self.next_page(run)
    }

    /// Hands an event to the run and returns what it asks for next.
    pub fn step(&mut self, run: &mut CheckRun, event: CheckEvent) -> (action: CheckAction)
        requires
            old(self).wf(old(run)),
        ensures
            final(self).wf(final(run)),
            (final(self).model(final(run)), action@) == spec_step(
                old(self).validator,
                old(self).model(old(run)),
                event@,
            ),
            final(self).ctx == old(self).ctx,
            final(self).validator == old(self).validator,
            old(self).model(old(run)).checked == old(self).checked@,
            old(self).model(old(run)).visited == old(self).crawler.visited@,
            final(self).model(final(run)).checked == final(self).checked@,
            final(self).model(final(run)).visited == final(self).crawler.visited@,
            old(self).checked@.subset_of(final(self).checked@),
            old(self).crawler.visited@.subset_of(final(self).crawler.visited@),
            action matches CheckAction::CheckLink { url } ==> !old(self).checked@.contains(url@)
                && final(self).checked@.contains(url@),
            action matches CheckAction::Fetch { url } ==> !old(self).crawler.visited@.contains(url@)
                && final(self).crawler.visited@.contains(url@),
    {
        proof {
            lemma_step_requests_only_new(self.validator, self.model(run), event@);
        }
        match event {
            CheckEvent::PageFetched { html } => {
                if let Phase::AwaitingPage { .. } = &run.phase {
                    match self.crawler.page_links(&self.ctx.parser, html.as_str()) {
                        Ok(links) => {
                            run.links = links;
                            run.next_link = 0;
                            proof {
                                assert(run.links@.skip(0) =~= run.links@);
                            }
                            self.advance(run)
                        },
                        Err(error) => {
                            run.phase = Phase::Done;
                            CheckAction::Failed { error }
                        },
                    }
                } else {
                    self.unexpected(run)
                }
            },
            CheckEvent::FetchFailed => {
                if let Phase::AwaitingPage { url } = &run.phase {
                    let url = url.clone();
                    run.phase = Phase::Done;
                    CheckAction::Failed { error: CheckError::FetchFailed { url } }
                } else {
                    self.unexpected(run)
                }
            },
            CheckEvent::LinkChecked { status } => {
                if let Phase::AwaitingCheck { url } = &run.phase {
                    let url = url.clone();
                    let ok = match status {
                        Some(code) => !is_broken_status(code),
                        None => false,
                    };
                    // The checked set lives in a vector, so it holds at most `usize::MAX` URLs;
                    // the counts, with the answer now in, stay within its size.
                    let checked_len = self.checked.len();
                    assert(run.ok_count + run.broken_count < checked_len);
                    if ok {
                        run.ok_count = run.ok_count + 1;
                    } else {
                        run.broken_count = run.broken_count + 1;
                        run.broken_urls.push(url);
                        proof {
                            assert(strings_view(run.broken_urls@) =~= strings_view(old(run).broken_urls@).push(url@));
                        }
                    }
                    run.phase = Phase::Done;
                    self.advance(run)
                } else {
                    self.unexpected(run)
                }
            },
        }
    }

    /// An event the run was not waiting for stops it.
    fn unexpected(&mut self, run: &mut CheckRun) -> (action: CheckAction)
        requires
            old(self).wf(old(run)),
        ensures
            *final(self) == *old(self),
            final(self).wf(final(run)),
            final(self).model(final(run)) == (RunView { phase: PhaseView::Done, ..old(self).model(old(run)) }),
            action@ == ActionView::Failed(ErrorView::UnexpectedEvent),
    {
        run.phase = Phase::Done;
        CheckAction::Failed { error: CheckError::UnexpectedEvent }
    }
}

} // verus!
