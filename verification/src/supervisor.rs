//! The supervisor's bookkeeping: how a run starts, where every page is at any
//! moment, and when the run is over.

use std::sync::Arc;
use vstd::prelude::*;
use crate::config::{CrawlerConfig, OnError};
use crate::error::CrawlError;
use crate::robots::Robots;
use crate::scrapable::{CrawlingContext, Scrapable, Seed, Sitemap};
use crate::sitemap::{accepted_of, keep_accepted};
use crate::text::texts;

verus! {

/// The robots.txt URL that a run has to read before it starts, if any.
///
/// A robots.txt seed names the URL itself; any other seed goes by the URL of
/// the configuration. A robots.txt seed together with a configured URL is a
/// contradiction.
pub open spec fn robot_url_of(seed: Seed, configured: Option<String>) -> Result<
    Option<Seq<char>>,
    CrawlError,
> {
    match (seed, configured) {
        (Seed::RobotsTxt(_), Some(_)) => Err(CrawlError::Config),
        (Seed::RobotsTxt(url), None) => Ok(Some(url@)),
        (_, Some(url)) => Ok(Some(url@)),
        (_, None) => Ok(None),
    }
}

/// Checks the seed against the configuration and tells which robots.txt to read.
pub fn robot_url(seed: &Seed, config: &CrawlerConfig) -> (url: Result<Option<String>, CrawlError>)
    ensures
        match robot_url_of(*seed, config.robot) {
            Ok(Some(u)) => url matches Ok(Some(got)) && got@ == u,
            Ok(None) => url == Ok::<Option<String>, CrawlError>(None),
            Err(e) => url == Err::<Option<String>, CrawlError>(e),
        },
{
    match (seed, &config.robot) {
        (Seed::RobotsTxt(_), Some(_)) => Err(CrawlError::Config),
        (Seed::RobotsTxt(url), None) => Ok(Some(url.clone())),
        (_, Some(url)) => Ok(Some(url.clone())),
        (_, None) => Ok(None),
    }
}

/// What the walker starts with.
#[derive(Clone, Debug, PartialEq, Eq)]
pub enum WalkPlan {
    /// Sitemaps to fetch and walk.
    Sitemaps(Vec<String>),
    /// Pages to download; no sitemap is walked.
    Pages(Vec<String>),
}

/// The robots.txt of a run as the contexts carry it.
pub open spec fn robot_of(robots: Option<&Robots>) -> Option<Arc<texting_robots::Robot>> {
    match robots {
        Some(r) => Some(r.robot),
        None => None,
    }
}

/// The sitemap list of the robots.txt of a run; empty for a run without one.
pub open spec fn listed_by(robots: Option<&Robots>) -> Seq<Seq<char>> {
    match robots {
        Some(r) => texts(r.sitemaps@),
        None => Seq::<Seq<char>>::empty(),
    }
}

/// Picks the walker's starting set: the sitemap URLs or the page URLs of
/// the seed, as they are; for a robots.txt seed, the sitemaps that the
/// document lists, of which the scraper is asked about each as about an
/// entry of an index.
pub fn initial_walk<T: Scrapable>(scraper: &T, seed: Seed, robots: Option<&Robots>) -> (plan:
    WalkPlan)
    ensures
        match seed {
            Seed::Sitemaps(urls) => plan == WalkPlan::Sitemaps(urls),
            Seed::Pages(urls) => plan == WalkPlan::Pages(urls),
            Seed::RobotsTxt(_) => plan matches WalkPlan::Sitemaps(urls) && texts(urls@)
                == accepted_of(
                scraper,
                listed_by(robots),
                CrawlingContext { sitemap: Sitemap::Index, robot: robot_of(robots) },
            ),
        },
{
    match seed {
        Seed::Sitemaps(urls) => WalkPlan::Sitemaps(urls),
        Seed::Pages(urls) => WalkPlan::Pages(urls),
        Seed::RobotsTxt(_) => match robots {
            Some(r) => {
                let robot = Some(r.shared());
                WalkPlan::Sitemaps(keep_accepted(scraper, &r.sitemaps, Sitemap::Index, &robot))
            },
            None => {
                let none: Vec<String> = Vec::new();
                let ghost ctx = CrawlingContext { sitemap: Sitemap::Index, robot: None };
                proof {
                    assert(texts(none@) =~= Seq::<Seq<char>>::empty());
                    Seq::<Seq<char>>::empty().lemma_filter_len(|u: Seq<char>| scraper.accepts(u, ctx));
                    assert(accepted_of(scraper, Seq::<Seq<char>>::empty(), ctx)
                        =~= Seq::<Seq<char>>::empty());
                }
                WalkPlan::Sitemaps(none)
            },
        },
    }
}

/// Where the pages of a run are.
///
/// Every URL that was sent for download is counted in `pages_in` until its
/// download fails; every page that a worker is done with is counted in
/// `pages_out`. In between, a URL waits in the queue, is being downloaded,
/// waits as a page in the buffer, or is being scraped.
#[derive(Clone, Copy, Debug, PartialEq, Eq, Structural)]
pub struct Pipeline {
    /// URLs sent for download, less those whose download failed.
    pub pages_in: usize,
    /// Pages that a worker is done with.
    pub pages_out: usize,
    /// URLs whose download has not started.
    pub queued: usize,
    /// Downloads that have started and not ended.
    pub downloading: usize,
    /// Pages that wait for a worker.
    pub buffered: usize,
    /// Pages that a worker is scraping.
    pub scraping: usize,
    /// Pages that were dropped because the run has failed.
    pub lost: usize,
    /// The capacity of the page buffer.
    pub page_buffer: usize,
    /// Workers that run. Each holds a sending end of the URL queue.
    pub workers: usize,
    /// Whether the walker has finished and closed its end of the URL queue.
    pub walker_done: bool,
    /// Whether the run has failed.
    pub failed: bool,
}

/// What the supervisor does after a look at the counters.
#[derive(Clone, Copy, Debug, PartialEq, Eq, Structural)]
pub enum Verdict {
    /// The run goes on.
    Continue,
    /// The run is over: every worker is sent a stop signal.
    Stop,
    /// The run was interrupted and fails.
    Interrupted,
}

impl Verdict {
    /// How the run ends with this verdict, if it ends: cleanly when it is
    /// over, with an error when it was interrupted.
    pub fn ending(self) -> (end: Option<Result<(), CrawlError>>)
        ensures
            end == match self {
                Verdict::Continue => None::<Result<(), CrawlError>>,
                Verdict::Stop => Some(Ok::<(), CrawlError>(())),
                Verdict::Interrupted => Some(Err::<(), CrawlError>(CrawlError::Interrupt)),
            },
    {
        match self {
            Verdict::Continue => None,
            Verdict::Stop => Some(Ok(())),
            Verdict::Interrupted => Some(Err(CrawlError::Interrupt)),
        }
    }
}

/// What a worker does with a page it took from the buffer.
#[derive(Clone, Copy, Debug, PartialEq, Eq, Structural)]
pub enum Taken {
    /// The buffer was empty.
    Nothing,
    /// The page is to be scraped.
    Scrap,
    /// The run has failed: the page is dropped and the worker ends.
    Exit,
}

/// What became of a page that a worker is done with.
#[derive(Clone, Copy, Debug, PartialEq, Eq, Structural)]
pub enum Counted {
    /// No page was being scraped.
    Nothing,
    /// The page is counted out.
    Out,
    /// The page is lost to a failure of the run.
    Lost,
}

impl Pipeline {
    /// The pages that a buffer of this capacity holds at most. A buffer
    /// without capacity hands pages over one at a time.
    pub open spec fn room(&self) -> usize {
        if self.page_buffer == 0 {
            1
        } else {
            self.page_buffer
        }
    }

    /// The pages that are on their way: sent, and not yet done with.
    pub open spec fn in_flight(&self) -> int {
        self.queued + self.downloading + self.buffered + self.scraping
    }

    /// Every page counted in is counted out, on its way, or lost to a
    /// failure; pages are lost only in a run that has failed.
    pub open spec fn wf(&self) -> bool {
        &&& self.pages_in == self.pages_out + self.in_flight() + self.lost
        &&& self.buffered <= self.room()
        &&& self.lost > 0 ==> self.failed
    }

    /// The condition under which a run ends cleanly.
    pub open spec fn quiescent(&self) -> bool {
        self.pages_out == self.pages_in && self.walker_done
    }

    /// The URL queue is closed once every sending end is dropped: that of
    /// the walker, and that of each worker.
    pub open spec fn url_queue_closed(&self) -> bool {
        self.walker_done && self.workers == 0
    }

    /// Tells whether the counters agree with each other.
    pub fn is_wf(&self) -> (ok: bool)
        ensures
            ok == self.wf(),
    {
        let room = if self.page_buffer == 0 {
            1
        } else {
            self.page_buffer
        };
        if self.buffered > room || (self.lost > 0 && !self.failed) {
            return false;
        }
        let mut left = self.pages_in;
        if left < self.pages_out {
            return false;
        }
        left = left - self.pages_out;
        if left < self.queued {
            return false;
        }
        left = left - self.queued;
        if left < self.downloading {
            return false;
        }
        left = left - self.downloading;
        if left < self.buffered {
            return false;
        }
        left = left - self.buffered;
        if left < self.scraping {
            return false;
        }
        left = left - self.scraping;
        left == self.lost
    }

    pub fn new(page_buffer: usize) -> (p: Self)
        ensures
            p.wf(),
            p == (Pipeline {
                pages_in: 0,
                pages_out: 0,
                queued: 0,
                downloading: 0,
                buffered: 0,
                scraping: 0,
                lost: 0,
                page_buffer,
                workers: 0,
                walker_done: false,
                failed: false,
            }),
    {
        Pipeline {
            pages_in: 0,
            pages_out: 0,
            queued: 0,
            downloading: 0,
            buffered: 0,
            scraping: 0,
            lost: 0,
            page_buffer,
            workers: 0,
            walker_done: false,
            failed: false,
        }
    }

    /// A URL was put into the URL queue, by the walker or by a scraper.
    /// Returns `false`, and changes nothing, where the counter is at its end.
    pub fn url_sent(&mut self) -> (counted: bool)
        requires
            old(self).wf(),
        ensures
            final(self).wf(),
            counted == (old(self).pages_in < usize::MAX),
            counted ==> *final(self) == (Pipeline {
                pages_in: (old(self).pages_in + 1) as usize,
                queued: (old(self).queued + 1) as usize,
                ..*old(self)
            }),
            !counted ==> *final(self) == *old(self),
    {
        if self.pages_in < usize::MAX {
            self.pages_in = self.pages_in + 1;
            self.queued = self.queued + 1;
            true
        } else {
            false
        }
    }

    /// The download of a queued URL has started. Returns `false` where no URL waits.
    pub fn download_started(&mut self) -> (started: bool)
        requires
            old(self).wf(),
        ensures
            final(self).wf(),
            started == (old(self).queued > 0),
            started ==> *final(self) == (Pipeline {
                queued: (old(self).queued - 1) as usize,
                downloading: (old(self).downloading + 1) as usize,
                ..*old(self)
            }),
            !started ==> *final(self) == *old(self),
    {
        if self.queued > 0 {
            self.queued = self.queued - 1;
            self.downloading = self.downloading + 1;
            true
        } else {
            false
        }
    }

    /// A downloaded page asks for a place in the buffer. Returns `false`
    /// where the buffer is full, or no download is under way: the page has to
    /// wait, and the download pool with it.
    pub fn page_buffered(&mut self) -> (placed: bool)
        requires
            old(self).wf(),
        ensures
            final(self).wf(),
            placed == (old(self).downloading > 0 && old(self).buffered < old(self).room()),
            placed ==> *final(self) == (Pipeline {
                downloading: (old(self).downloading - 1) as usize,
                buffered: (old(self).buffered + 1) as usize,
                ..*old(self)
            }),
            !placed ==> *final(self) == *old(self),
    {
        let room = if self.page_buffer == 0 {
            1
        } else {
            self.page_buffer
        };
        if self.downloading > 0 && self.buffered < room {
            self.downloading = self.downloading - 1;
            self.buffered = self.buffered + 1;
            true
        } else {
            false
        }
    }

    /// A download has failed. The URL is taken out of the count of pages to
    /// wait for; under `Fail` the run has failed as well. Returns `false`
    /// where no download is under way.
    pub fn download_failed(&mut self, policy: OnError) -> (noted: bool)
        requires
            old(self).wf(),
        ensures
            final(self).wf(),
            noted == (old(self).downloading > 0),
            noted ==> *final(self) == (Pipeline {
                pages_in: (old(self).pages_in - 1) as usize,
                downloading: (old(self).downloading - 1) as usize,
                failed: old(self).failed || policy == OnError::Fail,
                ..*old(self)
            }),
            !noted ==> *final(self) == *old(self),
    {
        if self.downloading > 0 {
            self.pages_in = self.pages_in - 1;
            self.downloading = self.downloading - 1;
            match policy {
                OnError::Fail => {
                    self.failed = true;
                },
                OnError::SkipAndLog => {},
            }
            true
        } else {
            false
        }
    }

    /// A worker takes a page from the buffer. In a run that has failed the
    /// page is dropped and the worker ends.
    pub fn page_taken(&mut self) -> (taken: Taken)
        requires
            old(self).wf(),
        ensures
            final(self).wf(),
            taken == if old(self).buffered == 0 {
                Taken::Nothing
            } else if old(self).failed {
                Taken::Exit
            } else {
                Taken::Scrap
            },
            taken == Taken::Nothing ==> *final(self) == *old(self),
            taken == Taken::Scrap ==> *final(self) == (Pipeline {
                buffered: (old(self).buffered - 1) as usize,
                scraping: (old(self).scraping + 1) as usize,
                ..*old(self)
            }),
            taken == Taken::Exit ==> *final(self) == (Pipeline {
                buffered: (old(self).buffered - 1) as usize,
                lost: (old(self).lost + 1) as usize,
                ..*old(self)
            }),
    {
        if self.buffered == 0 {
            Taken::Nothing
        } else if self.failed {
            self.buffered = self.buffered - 1;
            self.lost = self.lost + 1;
            Taken::Exit
        } else {
            self.buffered = self.buffered - 1;
            self.scraping = self.scraping + 1;
            Taken::Scrap
        }
    }

    /// A worker is done with a page. The page is counted out where the
    /// scraper succeeded, and also where it failed under `SkipAndLog`. Where
    /// it failed under `Fail`, the run has failed and the page is lost.
    /// Nothing changes where no page is being scraped.
    pub fn page_scraped(&mut self, succeeded: bool, policy: OnError) -> (counted: Counted)
        requires
            old(self).wf(),
        ensures
            final(self).wf(),
            counted == if old(self).scraping == 0 {
                Counted::Nothing
            } else if succeeded || policy == OnError::SkipAndLog {
                Counted::Out
            } else {
                Counted::Lost
            },
            counted == Counted::Nothing ==> *final(self) == *old(self),
            counted == Counted::Out ==> *final(self) == (Pipeline {
                pages_out: (old(self).pages_out + 1) as usize,
                scraping: (old(self).scraping - 1) as usize,
                ..*old(self)
            }),
            counted == Counted::Lost ==> *final(self) == (Pipeline {
                scraping: (old(self).scraping - 1) as usize,
                lost: (old(self).lost + 1) as usize,
                failed: true,
                ..*old(self)
            }),
    {
        if self.scraping == 0 {
            return Counted::Nothing;
        }
        let counted = succeeded || match policy {
            OnError::SkipAndLog => true,
            OnError::Fail => false,
        };
        self.scraping = self.scraping - 1;
        if counted {
            self.pages_out = self.pages_out + 1;
            Counted::Out
        } else {
            self.lost = self.lost + 1;
            self.failed = true;
            Counted::Lost
        }
    }

    /// A worker has started and holds a sending end of the URL queue.
    /// Returns `false`, and changes nothing, where the counter is at its end.
    pub fn worker_started(&mut self) -> (counted: bool)
        requires
            old(self).wf(),
        ensures
            final(self).wf(),
            counted == (old(self).workers < usize::MAX),
            counted ==> *final(self) == (Pipeline {
                workers: (old(self).workers + 1) as usize,
                ..*old(self)
            }),
            !counted ==> *final(self) == *old(self),
    {
        if self.workers < usize::MAX {
            self.workers = self.workers + 1;
            true
        } else {
            false
        }
    }

    /// A worker has ended and dropped its sending end of the URL queue.
    /// Returns `false`, and changes nothing, where no worker runs.
    pub fn worker_ended(&mut self) -> (counted: bool)
        requires
            old(self).wf(),
        ensures
            final(self).wf(),
            counted == (old(self).workers > 0),
            counted ==> *final(self) == (Pipeline {
                workers: (old(self).workers - 1) as usize,
                ..*old(self)
            }),
            !counted ==> *final(self) == *old(self),
    {
        if self.workers > 0 {
            self.workers = self.workers - 1;
            true
        } else {
            false
        }
    }

    /// Tells whether the run is over and has ended cleanly: every page
    /// counted in is counted out, the walker is done and every worker has
    /// ended, so that the URL queue is closed.
    pub fn ended_cleanly(&self) -> (over: bool)
        requires
            self.wf(),
        ensures
            over == (self.quiescent() && self.workers == 0),
            over ==> self.pages_in == self.pages_out && self.url_queue_closed()
                && self.in_flight() == 0 && self.lost == 0,
    {
        self.pages_out == self.pages_in && self.walker_done && self.workers == 0
    }

    /// The walker has sent its last URL and closed its end of the URL queue.
    pub fn walker_finished(&mut self)
        requires
            old(self).wf(),
        ensures
            final(self).wf(),
            *final(self) == (Pipeline { walker_done: true, ..*old(self) }),
    {
        self.walker_done = true;
    }

    /// The supervisor's look at the run, once a second: an interrupt fails
    /// the run; otherwise the run is over exactly when every page counted in
    /// is counted out and the walker is done.
    pub fn tick(&self, interrupted: bool) -> (verdict: Verdict)
        requires
            self.wf(),
        ensures
            verdict == if interrupted {
                Verdict::Interrupted
            } else if self.quiescent() {
                Verdict::Stop
            } else {
                Verdict::Continue
            },
            verdict == Verdict::Stop ==> self.pages_in == self.pages_out && self.walker_done
                && self.in_flight() == 0 && self.lost == 0,
    {
        if interrupted {
            Verdict::Interrupted
        } else if self.pages_out == self.pages_in && self.walker_done {
            Verdict::Stop
        } else {
            Verdict::Continue
        }
    }
}

/// At every moment of a run at least as many pages are counted in as out.
pub proof fn in_covers_out(p: Pipeline)
    requires
        p.wf(),
    ensures
        p.pages_in >= p.pages_out,
{
}

/// When a run ends cleanly the two counters agree, the walker has closed
/// the URL queue, and no URL or page is left anywhere in the pipeline.
pub proof fn clean_end_is_empty(p: Pipeline)
    requires
        p.wf(),
        p.quiescent(),
    ensures
        p.pages_in == p.pages_out,
        p.walker_done,
        p.queued == 0 && p.downloading == 0 && p.buffered == 0 && p.scraping == 0 && p.lost == 0,
{
}

/// When a run has ended cleanly and its workers have ended, the two counters
/// agree and the URL queue is closed: no sending end is left.
pub proof fn clean_end_closes_the_url_queue(p: Pipeline)
    requires
        p.wf(),
        p.quiescent(),
        p.workers == 0,
    ensures
        p.pages_in == p.pages_out,
        p.url_queue_closed(),
{
}

/// As long as a URL or a page is anywhere in the pipeline the run does not
/// end cleanly. This holds for URLs that scrapers send while the run is under
/// way as for those of the walker: each is counted in before it is queued.
pub proof fn work_in_flight_holds_the_run(p: Pipeline)
    requires
        p.wf(),
        p.in_flight() > 0,
    ensures
        !p.quiescent(),
{
}

/// A run that has lost a page to a failure never ends cleanly.
pub proof fn failed_run_never_ends_cleanly(p: Pipeline)
    requires
        p.wf(),
        p.lost > 0,
    ensures
        p.failed,
        !p.quiescent(),
{
}

/// A full buffer only pauses the download pool. While a downloaded page
/// waits for a place, a page waits in the buffer for a worker; once a worker
/// has taken it, the waiting page finds a place. No page is dropped on the
/// way: the counters stay in agreement.
pub proof fn full_buffer_only_pauses(p: Pipeline)
    requires
        p.wf(),
        !p.failed,
        p.downloading > 0,
        p.buffered >= p.room(),
    ensures
        p.buffered > 0,
        p.scraping < usize::MAX,
        ({
            let taken = Pipeline {
                buffered: (p.buffered - 1) as usize,
                scraping: (p.scraping + 1) as usize,
                ..p
            };
            taken.wf() && taken.downloading > 0 && taken.buffered < taken.room()
        }),
{
}

} // verus!
