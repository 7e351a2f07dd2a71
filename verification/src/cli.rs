//! From command-line arguments to the plan of a run.

use vstd::prelude::*;
use crate::config::{CrawlerConfig, OnError, Throttle};
use crate::error::CrawlError;
use crate::scrapable::{Page, PageLocation, Scrapable, ScrapingContext};
use crate::worker::{after_scrap, outcome_of, Outcome};
use crate::writer::FileMode;

verus! {

/// What a scraper that runs a script is made from.
#[derive(Clone, Debug, PartialEq, Eq)]
pub struct LuaScraperConfig {
    /// The path of the script.
    pub script: String,
    /// The path of the output file; records go to standard output without it.
    pub csv_file: Option<String>,
    /// How the output file is opened; `Create` applies without it.
    pub file_mode: Option<FileMode>,
}

/// The arguments of the `crawl` command. Each option that is given replaces
/// the value of the script's crawler configuration.
#[derive(Clone, Debug, PartialEq, Eq)]
pub struct CrawlArgs {
    pub script: String,
    pub output_file: Option<String>,
    pub append: bool,
    pub truncate: bool,
    pub user_agent: Option<String>,
    pub page_buffer: Option<usize>,
    pub concurrent_downloads: Option<usize>,
    pub requests_per_second: Option<usize>,
    /// The delay between requests, in milliseconds.
    pub requests_delay: Option<u64>,
    pub num_workers: Option<usize>,
    pub on_dl_error: Option<OnError>,
    pub on_xml_error: Option<OnError>,
    pub on_scrap_error: Option<OnError>,
    pub robot: Option<String>,
    pub quiet: bool,
}

/// The arguments of the `scrap` command.
#[derive(Clone, Debug, PartialEq, Eq)]
pub struct ScrapArgs {
    pub script: String,
    /// A remote page to scrape.
    pub url: Option<String>,
    /// A pattern that selects local files to scrape.
    pub glob: Option<String>,
    pub output_file: Option<String>,
    pub append: bool,
    pub truncate: bool,
    pub num_workers: Option<usize>,
    pub on_error: Option<OnError>,
    pub quiet: bool,
}

/// The file mode that the two flags ask for: appending wins over truncating,
/// and without either the choice is left to the default.
pub open spec fn file_mode_of(append: bool, truncate: bool) -> Option<FileMode> {
    if append {
        Some(FileMode::Append)
    } else if truncate {
        Some(FileMode::Truncate)
    } else {
        None
    }
}

/// Picks the file mode from the `append` and `truncate` flags.
pub fn file_mode(append: bool, truncate: bool) -> (mode: Option<FileMode>)
    ensures
        mode == file_mode_of(append, truncate),
{
    if append {
        Some(FileMode::Append)
    } else if truncate {
        Some(FileMode::Truncate)
    } else {
        None
    }
}

/// The throttle that the command line asks for, if any. Of several options
/// the delay wins over the rate, and the rate over the concurrency.
pub open spec fn throttle_override(args: CrawlArgs) -> Option<Throttle> {
    match args.requests_delay {
        Some(ms) => Some(Throttle::Delay(ms)),
        None => match args.requests_per_second {
            Some(n) => Some(Throttle::PerSecond(n)),
            None => match args.concurrent_downloads {
                Some(n) => Some(Throttle::Concurrent(n)),
                None => None,
            },
        },
    }
}

/// True when no throttle option of the command line is zero.
pub open spec fn throttle_options_positive(args: CrawlArgs) -> bool {
    &&& args.concurrent_downloads != Some(0usize)
    &&& args.requests_per_second != Some(0usize)
    &&& args.requests_delay != Some(0u64)
}

/// True when `out` is `base` with every option of `args` that is given put in
/// place of the configured value.
pub open spec fn overridden(base: CrawlerConfig, args: CrawlArgs, out: CrawlerConfig) -> bool {
    &&& out.user_agent@ == match args.user_agent {
        Some(a) => a@,
        None => base.user_agent@,
    }
    &&& out.page_buffer == match args.page_buffer {
        Some(n) => n,
        None => base.page_buffer,
    }
    &&& out.throttle == match throttle_override(args) {
        Some(t) => Some(t),
        None => base.throttle,
    }
    &&& out.num_workers == match args.num_workers {
        Some(n) => n,
        None => base.num_workers,
    }
    &&& out.on_dl_error == match args.on_dl_error {
        Some(p) => p,
        None => base.on_dl_error,
    }
    &&& out.on_xml_error == match args.on_xml_error {
        Some(p) => p,
        None => base.on_xml_error,
    }
    &&& out.on_scrap_error == match args.on_scrap_error {
        Some(p) => p,
        None => base.on_scrap_error,
    }
    &&& match args.robot {
        Some(r) => out.robot matches Some(o) && o@ == r@,
        None => out.robot == base.robot,
    }
}

/// True when `conf` is the scraper configuration that the given script, output
/// file and flags ask for.
pub open spec fn scraper_conf_of(
    script: String,
    output_file: Option<String>,
    append: bool,
    truncate: bool,
    conf: LuaScraperConfig,
) -> bool {
    &&& conf.script == script
    &&& conf.csv_file == output_file
    &&& conf.file_mode == file_mode_of(append, truncate)
}

/// Plans a crawl: the scraper configuration from the arguments, and the
/// crawler configuration of the script with the command line's options put
/// over it. A throttle option of zero is refused.
pub fn crawl(args: CrawlArgs, base: CrawlerConfig) -> (plan: Result<
    (LuaScraperConfig, CrawlerConfig),
    CrawlError,
>)
    ensures
        match plan {
            Ok((scraper_conf, crawler_conf)) => {
                &&& throttle_options_positive(args)
                &&& scraper_conf_of(args.script, args.output_file, args.append, args.truncate, scraper_conf)
                &&& overridden(base, args, crawler_conf)
            },
            Err(e) => e == CrawlError::Config && !throttle_options_positive(args),
        },
{
    let mut conf = base;
    let mode = file_mode(args.append, args.truncate);
    if let Some(user_agent) = args.user_agent {
        conf.user_agent = user_agent;
    }
    if let Some(page_buffer) = args.page_buffer {
        conf.page_buffer = page_buffer;
    }
    if let Some(n) = args.concurrent_downloads {
        if n == 0 {
            return Err(CrawlError::Config);
        }
        conf.throttle = Some(Throttle::Concurrent(n));
    }
    if let Some(n) = args.requests_per_second {
        if n == 0 {
            return Err(CrawlError::Config);
        }
        conf.throttle = Some(Throttle::PerSecond(n));
    }
    if let Some(ms) = args.requests_delay {
        if ms == 0 {
            return Err(CrawlError::Config);
        }
        conf.throttle = Some(Throttle::Delay(ms));
    }
    if let Some(num_workers) = args.num_workers {
        conf.num_workers = num_workers;
    }
    if let Some(policy) = args.on_dl_error {
        conf.on_dl_error = policy;
    }
    if let Some(policy) = args.on_xml_error {
        conf.on_xml_error = policy;
    }
    if let Some(policy) = args.on_scrap_error {
        conf.on_scrap_error = policy;
    }
    if let Some(robot) = args.robot {
        conf.robot = Some(robot);
    }
    let scraper_conf = LuaScraperConfig { script: args.script, csv_file: args.output_file, file_mode: mode };
    Ok((scraper_conf, conf))
}

/// What the `scrap` command is to do.
#[derive(Clone, Debug, PartialEq, Eq)]
pub enum ScrapPlan {
    /// Download one page and scrape it.
    Remote { config: LuaScraperConfig, url: String },
    /// Scrape the local files that a pattern selects, with a pool of workers.
    Local { config: LuaScraperConfig, pattern: String, num_workers: usize, on_error: OnError },
}

/// The number of workers for local files on a machine with `cpus` logical
/// cores, where the command line names none: one per core, and at least one.
pub open spec fn local_workers(cpus: usize) -> usize {
    if cpus >= 1 {
        cpus
    } else {
        1
    }
}

/// Plans a scrape. Exactly one of a URL and a file pattern must be given.
/// For local files the worker count defaults to the number of cores and the
/// error policy to `Fail`.
pub fn scrap(args: ScrapArgs, cpus: usize) -> (plan: Result<ScrapPlan, CrawlError>)
    ensures
        match (args.url, args.glob) {
            (Some(u), None) => plan matches Ok(ScrapPlan::Remote { config, url }) && url == u
                && scraper_conf_of(args.script, args.output_file, args.append, args.truncate, config),
            (None, Some(p)) => plan matches Ok(
                ScrapPlan::Local { config, pattern, num_workers, on_error },
            ) && pattern == p && scraper_conf_of(
                args.script,
                args.output_file,
                args.append,
                args.truncate,
                config,
            ) && num_workers == (match args.num_workers {
                Some(n) => n,
                None => local_workers(cpus),
            }) && on_error == (match args.on_error {
                Some(p) => p,
                None => OnError::Fail,
            }),
            _ => plan == Err::<ScrapPlan, CrawlError>(CrawlError::Arguments),
        },
{
    let config = LuaScraperConfig {
        script: args.script,
        csv_file: args.output_file,
        file_mode: file_mode(args.append, args.truncate),
    };
    match (args.url, args.glob) {
        (Some(url), None) => Ok(ScrapPlan::Remote { config, url }),
        (None, Some(pattern)) => {
            let num_workers = match args.num_workers {
                Some(n) => n,
                None => if cpus >= 1 {
                    cpus
                } else {
                    1
                },
            };
            let on_error = match args.on_error {
                Some(p) => p,
                None => OnError::Fail,
            };
            Ok(ScrapPlan::Local { config, pattern, num_workers, on_error })
        },
        _ => Err(CrawlError::Arguments),
    }
}

/// True when `done` is what comes of scraping one page with the scraper
/// `made`: one call on the page, with a fresh context that names the
/// location and takes no URLs; then the finalizer is called, whether the
/// call succeeded or not. The records that the call left in the context are
/// handed out either way, beside the call's result.
pub open spec fn page_scraped<T: Scrapable>(
    made: T,
    page: String,
    location: PageLocation,
    done: (Vec<Vec<String>>, Result<(), CrawlError>),
    before: ScrapingContext,
    after: T,
    sent: ScrapingContext,
    result: Result<(), String>,
    ended: T,
) -> bool {
    &&& before.fresh(location, false, None, 0)
    &&& made.scraps(page, before, after, sent, result)
    &&& after.finalizes(ended)
    &&& done.0@ == sent.records()
    &&& done.1 == match result {
        Ok(()) => Ok::<(), CrawlError>(()),
        Err(msg) => Err::<(), CrawlError>(CrawlError::Scrape(msg)),
    }
}

/// True when `done` is what comes of making a scraper and scraping one page
/// with it: where the scraper cannot be made, its message is the error and
/// there are no records.
pub open spec fn page_done<T: Scrapable>(
    config: T::Config,
    page: String,
    location: PageLocation,
    done: (Vec<Vec<String>>, Result<(), CrawlError>),
    made: Result<T, String>,
) -> bool {
    &&& T::makes(config, made)
    &&& match made {
        Err(msg) => done.0@.len() == 0 && done.1 == Err::<(), CrawlError>(CrawlError::Scrape(msg)),
        Ok(scraper) => exists|
            before: ScrapingContext,
            after: T,
            sent: ScrapingContext,
            result: Result<(), String>,
            ended: T,
        |
            #[trigger] page_scraped(scraper, page, location, done, before, after, sent, result, ended),
    }
}

/// Scrapes one page outside a crawl: makes a scraper, hands it the page and
/// calls its finalizer, once, whether the scraper succeeded on the page or
/// not. The records that the scraper sent are handed out in both cases; a
/// failure of the scraper is returned beside them. Where the scraper cannot
/// be made there is nothing to finalize. Whether the scraper fails is the
/// scraper's matter.
pub fn scrap_page<T: Scrapable>(config: &T::Config, page: String, location: PageLocation) -> (done: (
    Vec<Vec<String>>,
    Result<(), CrawlError>,
))
    ensures
        exists|made: Result<T, String>| #[trigger] page_done(*config, page, location, done, made),
        done.1 matches Err(e) ==> e is Scrape,
{
    let made = T::new(config);
    let ghost first = made;
    let mut scraper = match made {
        Ok(s) => s,
        Err(msg) => {
            let done = (Vec::new(), Err(CrawlError::Scrape(msg)));
            assert(page_done(*config, page, location, done, first));
            return done;
        },
    };
    let ghost fresh_scraper = scraper;
    let mut ctx = ScrapingContext::with_location(location);
    let ghost before = ctx;
    let result = scraper.scrap(page, &mut ctx);
    let ghost after = scraper;
    let ghost sent = ctx;
    scraper.finalizer();
    let (_, records) = ctx.into_parts();
    let outcome = match result {
        Ok(()) => Ok(()),
        Err(msg) => Err(CrawlError::Scrape(msg)),
    };
    let done = (records, outcome);
    assert(page_scraped(fresh_scraper, page, location, done, before, after, sent, result, scraper));
    assert(page_done(*config, page, location, done, first));
    done
}

/// True when one more local page was scraped after a run of pages that gave
/// the records `so_far` and ended with the scraper `mid` and the result
/// `earlier`: the run did not end the work, the scraper was called on the
/// page with a fresh context without URL outbox, became `end`, returned
/// `done`, and its records follow those of the run.
pub open spec fn one_more<T: Scrapable>(
    mid: T,
    earlier: Result<(), String>,
    so_far: Seq<Vec<String>>,
    policy: OnError,
    page: Page,
    end: T,
    records: Seq<Vec<String>>,
    done: Result<(), String>,
    before: ScrapingContext,
    sent: ScrapingContext,
) -> bool {
    &&& !(outcome_of(policy, earlier) is Failed)
    &&& before.fresh(page.location, false, None, 0)
    &&& mid.scraps(page.page, before, end, sent, done)
    &&& records == so_far + sent.records()
}

/// True when a scraper has gone through a run of local pages: it was called
/// once on each page, in order; no call but the last failed in a way that
/// ends the work; `end` is the scraper after the last call, `records` are
/// the records of all calls in order, and `last` is what the last call
/// returned.
pub open spec fn went_through<T: Scrapable>(
    start: T,
    pages: Seq<Page>,
    policy: OnError,
    end: T,
    records: Seq<Vec<String>>,
    last: Result<(), String>,
) -> bool
    decreases pages.len(),
{
    if pages.len() == 0 {
        end == start && records == Seq::<Vec<String>>::empty() && last is Ok
    } else {
        exists|
            mid: T,
            earlier: Result<(), String>,
            so_far: Seq<Vec<String>>,
            before: ScrapingContext,
            sent: ScrapingContext,
        |
            went_through(start, pages.drop_last(), policy, mid, so_far, earlier)
                && #[trigger] one_more(
                mid,
                earlier,
                so_far,
                policy,
                pages.last(),
                end,
                records,
                last,
                before,
                sent,
            )
    }
}

/// True when the work on local pages stopped after the first `n` of them:
/// the scraper went through these; the work is done where they are all the
/// pages and the last call did not end it, and failed with the error of the
/// last call where that call ended it.
pub open spec fn stopped_after<T: Scrapable>(
    start: T,
    pages: Seq<Page>,
    policy: OnError,
    end: T,
    records: Seq<Vec<String>>,
    result: Result<(), CrawlError>,
    n: int,
    last: Result<(), String>,
) -> bool {
    &&& 0 <= n <= pages.len()
    &&& went_through(start, pages.take(n), policy, end, records, last)
    &&& match result {
        Ok(()) => n == pages.len() && !(outcome_of(policy, last) is Failed),
        Err(e) => outcome_of(policy, last) == Outcome::Failed(e),
    }
}

/// Scrapes local pages one after the other with one scraper, as one worker
/// of the pool does. The scraper cannot send further URLs. Under
/// `SkipAndLog` a page on which the scraper fails is passed over; under
/// `Fail` the first failure ends the work. The records sent up to then are
/// handed out either way.
pub fn scrap_glob<T: Scrapable>(scraper: &mut T, pages: Vec<Page>, on_error: OnError) -> (done: (
    Vec<Vec<String>>,
    Result<(), CrawlError>,
))
    ensures
        exists|n: int, last: Result<(), String>| #[trigger]
            stopped_after(*old(scraper), pages@, on_error, *final(scraper), done.0@, done.1, n, last),
        done.1 matches Err(e) ==> e is Scrape && on_error == OnError::Fail,
        on_error == OnError::SkipAndLog ==> done.1 is Ok,
{
    let mut records: Vec<Vec<String>> = Vec::new();
    let ghost given = pages@;
    let mut queue = pages;
    let ghost mut last: Result<(), String> = Ok(());
    let mut i: usize = 0;
    assert(given.take(0) =~= Seq::<Page>::empty());
    while i < queue.len()
        invariant
            0 <= i <= queue@.len(),
            given == pages@,
            queue@.len() == given.len(),
            forall|j: int| i <= j < given.len() ==> queue@[j] == given[j],
            went_through(*old(scraper), given.take(i as int), on_error, *scraper, records@, last),
            !(outcome_of(on_error, last) is Failed),
        decreases queue@.len() - i,
    {
        let mut page = Page { page: String::new(), location: PageLocation::Path(String::new()) };
        core::mem::swap(&mut queue[i], &mut page);
        assert(page == given[i as int]);
        let ghost mid = *scraper;
        let ghost so_far = records@;
        let ghost earlier = last;
        let mut ctx = ScrapingContext::with_location(page.location);
        let ghost before = ctx;
        let result = scraper.scrap(page.page, &mut ctx);
        let ghost sent = ctx;
        let outcome = after_scrap(on_error, result);
        let (_, mut sent_records) = ctx.into_parts();
        records.append(&mut sent_records);
        proof {
            last = result;
            let run = given.take(i + 1);
            assert(run.drop_last() =~= given.take(i as int));
            assert(run.last() == given[i as int]);
            assert(records@ =~= so_far + sent.records());
            assert(went_through(*old(scraper), run.drop_last(), on_error, mid, so_far, earlier));
            assert(one_more(
                mid,
                earlier,
                so_far,
                on_error,
                run.last(),
                *scraper,
                records@,
                last,
                before,
                sent,
            ));
            assert(went_through(*old(scraper), run, on_error, *scraper, records@, last));
        }
        i = i + 1;
        match outcome {
            Outcome::Failed(e) => {
                let done = (records, Err(e));
                assert(stopped_after(
                    *old(scraper),
                    pages@,
                    on_error,
                    *scraper,
                    done.0@,
                    done.1,
                    i as int,
                    last,
                ));
                return done;
            },
            _ => {},
        }
    }
    let done = (records, Ok(()));
    assert(stopped_after(*old(scraper), pages@, on_error, *scraper, done.0@, done.1, i as int, last));
    done
}

} // verus!
