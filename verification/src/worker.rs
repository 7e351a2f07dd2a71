//! What a worker does with one page.

use std::sync::Arc;
use vstd::prelude::*;
use crate::config::OnError;
use crate::error::CrawlError;
use crate::scrapable::{CountedTx, Page, Scrapable, ScrapingContext};
use crate::text::texts;

verus! {

/// How the work on one page ended.
#[derive(Clone, Debug, PartialEq, Eq)]
pub enum Outcome {
    /// The run has failed before: the page was not scraped and the worker ends.
    Halted,
    /// The scraper succeeded. The page is counted out.
    Done,
    /// The scraper failed and the failure is logged. The page is counted out.
    Skipped(CrawlError),
    /// The scraper failed and the run fails with it. The worker ends.
    Failed(CrawlError),
}

impl Outcome {
    /// Whether the page is counted as done with.
    pub open spec fn counted(self) -> bool {
        self is Done || self is Skipped
    }

    /// Whether the worker takes another page.
    pub open spec fn goes_on(self) -> bool {
        self is Done || self is Skipped
    }

    /// Tells whether the page is counted as done with.
    pub fn is_counted(&self) -> (counted: bool)
        ensures
            counted == self.counted(),
    {
        match self {
            Outcome::Done => true,
            Outcome::Skipped(_) => true,
            _ => false,
        }
    }
}

/// The outcome of a page from what the scraper returned.
pub open spec fn outcome_of(policy: OnError, result: Result<(), String>) -> Outcome {
    match result {
        Ok(()) => Outcome::Done,
        Err(msg) => match policy {
            OnError::SkipAndLog => Outcome::Skipped(CrawlError::Scrape(msg)),
            OnError::Fail => Outcome::Failed(CrawlError::Scrape(msg)),
        },
    }
}

/// Applies the scrape policy to what the scraper returned.
pub fn after_scrap(policy: OnError, result: Result<(), String>) -> (outcome: Outcome)
    ensures
        outcome == outcome_of(policy, result),
{
    match result {
        Ok(()) => Outcome::Done,
        Err(msg) => match policy {
            OnError::SkipAndLog => Outcome::Skipped(CrawlError::Scrape(msg)),
            OnError::Fail => Outcome::Failed(CrawlError::Scrape(msg)),
        },
    }
}

/// What the work on one page leaves behind.
#[derive(Clone, Debug, PartialEq, Eq)]
pub struct Scraped {
    /// How the work ended.
    pub outcome: Outcome,
    /// The URLs that the scraper sent, for the URL queue.
    pub urls: Vec<String>,
    /// The records that the scraper sent, for the sink.
    pub records: Vec<Vec<String>>,
}

/// True when `scraped` is what comes of one call of the scraper on the page:
/// the call is made with a fresh context that names the page's location,
/// the robots.txt of the run and the worker, and takes URLs; the outcome
/// follows from what the call returns and the policy; the URLs and records
/// are those that the call left in the context.
pub open spec fn scraped_once<T: Scrapable>(
    scraper: T,
    after: T,
    page: Page,
    policy: OnError,
    robot: Option<Arc<texting_robots::Robot>>,
    worker: usize,
    scraped: Scraped,
    before: ScrapingContext,
    sent: ScrapingContext,
    done: Result<(), String>,
) -> bool {
    &&& before.fresh(page.location, true, robot, worker)
    &&& scraper.scraps(page.page, before, after, sent, done)
    &&& scraped.outcome == outcome_of(policy, done)
    &&& texts(scraped.urls@) == sent.urls_sent()
    &&& scraped.records@ == sent.records()
}

/// Handles one page that a worker took from the buffer.
///
/// In a run that has failed the scraper is not called. Otherwise it is
/// called once on the page, with a fresh context. What it sent is handed out
/// whether it succeeded or not; the outcome follows from its result and the
/// policy, as [`outcome_of`] says.
pub fn process_page<T: Scrapable>(
    scraper: &mut T,
    page: Page,
    failed: bool,
    policy: OnError,
    robot: Option<Arc<texting_robots::Robot>>,
    worker: usize,
) -> (scraped: Scraped)
    ensures
        failed ==> scraped.outcome == Outcome::Halted && scraped.urls@.len() == 0
            && scraped.records@.len() == 0 && *final(scraper) == *old(scraper),
        !failed ==> exists|before: ScrapingContext, sent: ScrapingContext, done: Result<(), String>|
            #[trigger] scraped_once(
                *old(scraper),
                *final(scraper),
                page,
                policy,
                robot,
                worker,
                scraped,
                before,
                sent,
                done,
            ),
        !failed && policy == OnError::SkipAndLog ==> scraped.outcome.counted(),
        scraped.outcome matches Outcome::Failed(e) ==> e is Scrape && policy == OnError::Fail,
{
    if failed {
        return Scraped { outcome: Outcome::Halted, urls: Vec::new(), records: Vec::new() };
    }
    let ghost given = page;
    let mut ctx = ScrapingContext::new(page.location, Some(CountedTx::new()), robot, worker);
    let ghost before = ctx;
    let result = scraper.scrap(page.page, &mut ctx);
    let ghost sent = ctx;
    let ghost done = result;
    let outcome = after_scrap(policy, result);
    let (urls, records) = ctx.into_parts();
    let scraped = Scraped { outcome, urls, records };
    assert(scraped_once(
        *old(scraper),
        *scraper,
        given,
        policy,
        robot,
        worker,
        scraped,
        before,
        sent,
        done,
    ));
    scraped
}

/// Ends a run: the finalizer of the supervisor's scraper is called once,
/// whatever the outcome, and the outcome is handed on.
pub fn finish_run<T: Scrapable>(scraper: &mut T, outcome: Result<(), CrawlError>) -> (result: Result<
    (),
    CrawlError,
>)
    ensures
        result == outcome,
        old(scraper).finalizes(*final(scraper)),
{
    scraper.finalizer();
    outcome
}

} // verus!
