//! Crawler options, their defaults and their validity.

use vstd::prelude::*;

verus! {

/// What to do when a step of the pipeline fails.
#[derive(Clone, Copy, Debug, PartialEq, Eq, Structural)]
pub enum OnError {
    /// The first error ends the whole run.
    Fail,
    /// The error is logged, the item is dropped and the run goes on.
    SkipAndLog,
}

/// How the start of downloads is held back.
#[derive(Clone, Copy, Debug, PartialEq, Eq, Structural)]
pub enum Throttle {
    /// The maximum number of requests in flight at once.
    Concurrent(usize),
    /// The number of requests that may start in one second.
    PerSecond(usize),
    /// The pause, in milliseconds, between the starts of two requests.
    Delay(u64),
}

/// The number of requests in flight that is allowed when nothing else is configured.
pub const DEFAULT_CONCURRENT: usize = 100;

/// The page buffer capacity that is used when nothing else is configured.
pub const DEFAULT_PAGE_BUFFER: usize = 10_000;

impl Throttle {
    /// A throttle is usable when its number is strictly positive.
    pub open spec fn valid(self) -> bool {
        match self {
            Throttle::Concurrent(n) => n >= 1,
            Throttle::PerSecond(n) => n >= 1,
            Throttle::Delay(ms) => ms >= 1,
        }
    }

    /// Tells whether the number that the throttle carries is strictly positive.
    pub fn is_valid(&self) -> (ok: bool)
        ensures
            ok == self.valid(),
    {
        match self {
            Throttle::Concurrent(n) => *n >= 1,
            Throttle::PerSecond(n) => *n >= 1,
            Throttle::Delay(ms) => *ms >= 1,
        }
    }
}

impl Default for Throttle {
    fn default() -> (throttle: Self)
        ensures
            throttle == Throttle::Concurrent(DEFAULT_CONCURRENT),
            throttle.valid(),
    {
        Throttle::Concurrent(DEFAULT_CONCURRENT)
    }
}

/// The options of a crawl.
#[derive(Clone, Debug, PartialEq, Eq)]
pub struct CrawlerConfig {
    /// The `User-Agent` header of every request.
    pub user_agent: String,
    /// The capacity of the queue between downloads and workers.
    pub page_buffer: usize,
    /// The throttle; when unset, a delay from robots.txt or the default applies.
    pub throttle: Option<Throttle>,
    /// The number of scraping workers.
    pub num_workers: usize,
    /// The policy for failed downloads.
    pub on_dl_error: OnError,
    /// The policy for sitemaps that cannot be parsed or queried.
    pub on_xml_error: OnError,
    /// The policy for pages on which the scraper fails.
    pub on_scrap_error: OnError,
    /// A robots.txt URL to use whatever the seed is.
    pub robot: Option<String>,
}

/// The user agent of the defaults.
pub open spec fn default_user_agent_text() -> Seq<char> {
    "SWSbot"@
}

/// The number of workers chosen for a machine with `cpus` logical cores: two
/// cores are left to the rest of the pipeline, and one worker always runs.
pub open spec fn workers_for(cpus: usize) -> usize {
    if cpus >= 3 {
        (cpus - 2) as usize
    } else {
        1
    }
}

pub fn default_user_agent() -> (agent: String)
    ensures
        agent@ == default_user_agent_text(),
{
    "SWSbot".to_owned()
}

pub fn default_page_buffer() -> (capacity: usize)
    ensures
        capacity == DEFAULT_PAGE_BUFFER,
{
    DEFAULT_PAGE_BUFFER
}

pub fn default_throttle() -> (throttle: Option<Throttle>)
    ensures
        throttle is None,
{
    None
}

/// The number of logical cores, as `num_cpus::get` reports it. The number
/// depends on the machine, so nothing is stated of it.
#[verifier::external_body]
fn cpu_count() -> (cpus: usize) {
    num_cpus::get()
}

/// The worker count for a machine with `cpus` logical cores.
pub fn num_workers_for(cpus: usize) -> (workers: usize)
    ensures
        workers == workers_for(cpus),
        workers >= 1,
{
    let spare = cpus.saturating_sub(2);
    if spare >= 1 {
        spare
    } else {
        1
    }
}

/// The worker count for this machine: at least one, whatever the machine reports.
pub fn default_num_workers() -> (workers: usize)
    ensures
        workers >= 1,
{
    num_workers_for(cpu_count())
}

pub fn default_on_dl_error() -> (policy: OnError)
    ensures
        policy == OnError::SkipAndLog,
{
    OnError::SkipAndLog
}

pub fn default_on_xml_error() -> (policy: OnError)
    ensures
        policy == OnError::SkipAndLog,
{
    OnError::SkipAndLog
}

pub fn default_on_scrap_error() -> (policy: OnError)
    ensures
        policy == OnError::SkipAndLog,
{
    OnError::SkipAndLog
}

impl CrawlerConfig {
    /// True when every number of the configuration can be used: a worker
    /// runs, and a configured throttle is strictly positive.
    pub open spec fn valid(&self) -> bool {
        &&& self.num_workers >= 1
        &&& self.throttle matches Some(t) ==> t.valid()
    }

    /// True when the configuration holds the documented defaults, the worker
    /// count apart, which depends on the machine.
    pub open spec fn is_default(&self) -> bool {
        &&& self.user_agent@ == default_user_agent_text()
        &&& self.page_buffer == DEFAULT_PAGE_BUFFER
        &&& self.throttle is None
        &&& self.num_workers >= 1
        &&& self.on_dl_error == OnError::SkipAndLog
        &&& self.on_xml_error == OnError::SkipAndLog
        &&& self.on_scrap_error == OnError::SkipAndLog
        &&& self.robot is None
    }

    /// Tells whether every number of the configuration can be used.
    pub fn is_valid(&self) -> (ok: bool)
        ensures
            ok == self.valid(),
    {
        if self.num_workers < 1 {
            return false;
        }
        match &self.throttle {
            Some(t) => t.is_valid(),
            None => true,
        }
    }
}

impl Default for CrawlerConfig {
    fn default() -> (config: Self)
        ensures
            config.is_default(),
            config.valid(),
    {
        CrawlerConfig {
            user_agent: default_user_agent(),
            page_buffer: default_page_buffer(),
            throttle: default_throttle(),
            num_workers: default_num_workers(),
            on_dl_error: default_on_dl_error(),
            on_xml_error: default_on_xml_error(),
            on_scrap_error: default_on_scrap_error(),
            robot: None,
        }
    }
}

/// The throttle of a run: the configured one wins; without it a crawl delay
/// from robots.txt, in milliseconds, applies; without both, the default.
pub open spec fn throttle_choice(robot_delay: Option<u64>, configured: Option<Throttle>) -> Throttle {
    match (robot_delay, configured) {
        (_, Some(t)) => t,
        (Some(ms), None) => Throttle::Delay(ms),
        (None, None) => Throttle::Concurrent(DEFAULT_CONCURRENT),
    }
}

/// Picks the throttle of a run from what robots.txt suggests and what was
/// configured. A robots.txt delay that is not positive is refused, but only
/// where it would be used.
pub fn choose_throttle(robot_delay: Option<u64>, configured: Option<Throttle>) -> (choice: Result<
    Throttle,
    crate::error::CrawlError,
>)
    ensures
        match choice {
            Ok(t) => t == throttle_choice(robot_delay, configured) && !(configured is None
                && robot_delay == Some(0u64)),
            Err(e) => e == crate::error::CrawlError::RobotDelay && configured is None && robot_delay
                == Some(0u64),
        },
{
    match configured {
        Some(t) => Ok(t),
        None => match robot_delay {
            Some(ms) => {
                if ms > 0 {
                    Ok(Throttle::Delay(ms))
                } else {
                    Err(crate::error::CrawlError::RobotDelay)
                }
            },
            None => Ok(Throttle::default()),
        },
    }
}

} // verus!
