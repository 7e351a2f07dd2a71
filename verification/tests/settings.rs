use sws::cli::{crawl, file_mode, scrap, scrap_glob, scrap_page, CrawlArgs, LuaScraperConfig, ScrapArgs, ScrapPlan};
use sws::config::{
    default_num_workers, default_on_dl_error, default_on_scrap_error, default_on_xml_error,
    default_page_buffer, default_throttle, default_user_agent, num_workers_for, CrawlerConfig,
    OnError, Throttle,
};
use sws::error::CrawlError;
use sws::limiter::{Finished, Polled, Pulled, RateLimited, RateLimiter, Throttler, TryAcquireError};
use sws::scrapable::{CountedTx, CrawlingContext, Page, PageLocation, Scrapable, ScrapingContext, Seed};
use sws::text::{decimal_text, same_text};
use sws::writer::{
    char_byte, default_csv_delimiter, default_csv_terminator, CsvTerminator, CsvWriterConfig,
    FileMode, OpenFlags, Terminator, WriterSettings,
};

#[test]
fn crawler_defaults() {
    let config = CrawlerConfig::default();
    assert_eq!("SWSbot", config.user_agent);
    assert_eq!(10_000, config.page_buffer);
    assert_eq!(None, config.throttle);
    assert!(config.num_workers >= 1);
    assert_eq!(OnError::SkipAndLog, config.on_dl_error);
    assert_eq!(OnError::SkipAndLog, config.on_xml_error);
    assert_eq!(OnError::SkipAndLog, config.on_scrap_error);
    assert_eq!(None, config.robot);
    assert!(config.is_valid());

    assert_eq!("SWSbot", default_user_agent());
    assert_eq!(10_000, default_page_buffer());
    assert_eq!(None, default_throttle());
    assert!(default_num_workers() >= 1);
    assert_eq!(OnError::SkipAndLog, default_on_dl_error());
    assert_eq!(OnError::SkipAndLog, default_on_xml_error());
    assert_eq!(OnError::SkipAndLog, default_on_scrap_error());
    assert_eq!(Throttle::Concurrent(100), Throttle::default());
}

#[test]
fn workers_leave_two_cores_free() {
    assert_eq!(1, num_workers_for(0));
    assert_eq!(1, num_workers_for(1));
    assert_eq!(1, num_workers_for(2));
    assert_eq!(1, num_workers_for(3));
    assert_eq!(6, num_workers_for(8));
    assert_eq!(usize::MAX - 2, num_workers_for(usize::MAX));
}

#[test]
fn throttle_numbers_must_be_positive() {
    assert!(Throttle::Concurrent(1).is_valid());
    assert!(!Throttle::Concurrent(0).is_valid());
    assert!(Throttle::PerSecond(1).is_valid());
    assert!(!Throttle::PerSecond(0).is_valid());
    assert!(Throttle::Delay(1).is_valid());
    assert!(!Throttle::Delay(0).is_valid());
    let config = CrawlerConfig { throttle: Some(Throttle::Delay(0)), ..CrawlerConfig::default() };
    assert!(!config.is_valid());
    let config = CrawlerConfig { num_workers: 0, ..CrawlerConfig::default() };
    assert!(!config.is_valid());
}

fn crawl_args() -> CrawlArgs {
    CrawlArgs {
        script: "script.lua".to_string(),
        output_file: None,
        append: false,
        truncate: false,
        user_agent: None,
        page_buffer: None,
        concurrent_downloads: None,
        requests_per_second: None,
        requests_delay: None,
        num_workers: None,
        on_dl_error: None,
        on_xml_error: None,
        on_scrap_error: None,
        robot: None,
        quiet: false,
    }
}

#[test]
fn crawl_without_options_keeps_the_configuration() {
    let base = CrawlerConfig { num_workers: 3, ..CrawlerConfig::default() };
    let (scraper_conf, crawler_conf) = crawl(crawl_args(), base.clone()).unwrap();
    assert_eq!(base, crawler_conf);
    assert_eq!(
        LuaScraperConfig { script: "script.lua".to_string(), csv_file: None, file_mode: None },
        scraper_conf
    );
}

#[test]
fn crawl_options_replace_configured_values() {
    let args = CrawlArgs {
        output_file: Some("out.csv".to_string()),
        truncate: true,
        user_agent: Some("bot".to_string()),
        page_buffer: Some(5),
        concurrent_downloads: Some(8),
        num_workers: Some(2),
        on_dl_error: Some(OnError::Fail),
        on_xml_error: Some(OnError::Fail),
        on_scrap_error: Some(OnError::Fail),
        robot: Some("https://example.com/robots.txt".to_string()),
        ..crawl_args()
    };
    let (scraper_conf, crawler_conf) = crawl(args, CrawlerConfig::default()).unwrap();
    assert_eq!(
        CrawlerConfig {
            user_agent: "bot".to_string(),
            page_buffer: 5,
            throttle: Some(Throttle::Concurrent(8)),
            num_workers: 2,
            on_dl_error: OnError::Fail,
            on_xml_error: OnError::Fail,
            on_scrap_error: OnError::Fail,
            robot: Some("https://example.com/robots.txt".to_string()),
        },
        crawler_conf
    );
    assert_eq!(Some("out.csv".to_string()), scraper_conf.csv_file);
    assert_eq!(Some(FileMode::Truncate), scraper_conf.file_mode);
}

#[test]
fn crawl_throttle_options() {
    let rps = CrawlArgs { requests_per_second: Some(4), ..crawl_args() };
    let base = CrawlerConfig { throttle: Some(Throttle::Concurrent(9)), ..CrawlerConfig::default() };
    assert_eq!(Some(Throttle::PerSecond(4)), crawl(rps, base.clone()).unwrap().1.throttle);

    let delay = CrawlArgs { requests_delay: Some(1500), ..crawl_args() };
    assert_eq!(Some(Throttle::Delay(1500)), crawl(delay, base.clone()).unwrap().1.throttle);

    assert_eq!(Some(Throttle::Concurrent(9)), crawl(crawl_args(), base.clone()).unwrap().1.throttle);

    let zero = CrawlArgs { concurrent_downloads: Some(0), ..crawl_args() };
    assert_eq!(Err(CrawlError::Config), crawl(zero, base.clone()));
    let zero = CrawlArgs { requests_per_second: Some(0), ..crawl_args() };
    assert_eq!(Err(CrawlError::Config), crawl(zero, base.clone()));
    let zero = CrawlArgs { requests_delay: Some(0), ..crawl_args() };
    assert_eq!(Err(CrawlError::Config), crawl(zero, base));
}

#[test]
fn file_mode_from_flags() {
    assert_eq!(None, file_mode(false, false));
    assert_eq!(Some(FileMode::Append), file_mode(true, false));
    assert_eq!(Some(FileMode::Truncate), file_mode(false, true));
    assert_eq!(Some(FileMode::Append), file_mode(true, true));
    assert_eq!(FileMode::Create, FileMode::default());
}

fn scrap_args() -> ScrapArgs {
    ScrapArgs {
        script: "script.lua".to_string(),
        url: None,
        glob: None,
        output_file: None,
        append: false,
        truncate: false,
        num_workers: None,
        on_error: None,
        quiet: true,
    }
}

#[test]
fn scrap_needs_exactly_one_source() {
    assert_eq!(Err(CrawlError::Arguments), scrap(scrap_args(), 4));
    let both = ScrapArgs {
        url: Some("https://example.com".to_string()),
        glob: Some("*.html".to_string()),
        ..scrap_args()
    };
    assert_eq!(Err(CrawlError::Arguments), scrap(both, 4));
}

#[test]
fn scrap_plans() {
    let config = LuaScraperConfig {
        script: "script.lua".to_string(),
        csv_file: Some("out.csv".to_string()),
        file_mode: Some(FileMode::Append),
    };
    let remote = ScrapArgs {
        url: Some("https://example.com".to_string()),
        output_file: Some("out.csv".to_string()),
        append: true,
        ..scrap_args()
    };
    assert_eq!(
        Ok(ScrapPlan::Remote { config: config.clone(), url: "https://example.com".to_string() }),
        scrap(remote, 4)
    );

    let local = ScrapArgs {
        glob: Some("pages/*.html".to_string()),
        output_file: Some("out.csv".to_string()),
        append: true,
        ..scrap_args()
    };
    assert_eq!(
        Ok(ScrapPlan::Local {
            config: config.clone(),
            pattern: "pages/*.html".to_string(),
            num_workers: 4,
            on_error: OnError::Fail,
        }),
        scrap(local.clone(), 4)
    );
    match scrap(local.clone(), 0).unwrap() {
        ScrapPlan::Local { num_workers, .. } => assert_eq!(1, num_workers),
        other => panic!("{:?}", other),
    }
    let tuned = ScrapArgs { num_workers: Some(7), on_error: Some(OnError::SkipAndLog), ..local };
    match scrap(tuned, 4).unwrap() {
        ScrapPlan::Local { num_workers, on_error, .. } => {
            assert_eq!(7, num_workers);
            assert_eq!(OnError::SkipAndLog, on_error);
        }
        other => panic!("{:?}", other),
    }
}

struct Lengths {
    finalized: bool,
}

impl Scrapable for Lengths {
    type Config = bool;

    fn new(usable: &bool) -> Result<Self, String> {
        if *usable {
            Ok(Lengths { finalized: false })
        } else {
            Err("no script".to_string())
        }
    }

    fn seed(&self) -> Seed {
        Seed::Pages(vec![])
    }

    fn accept(&self, _: &str, _: CrawlingContext) -> bool {
        true
    }

    fn scrap(&mut self, page: String, ctx: &mut ScrapingContext) -> Result<(), String> {
        if page.is_empty() {
            return Err("empty page".to_string());
        }
        assert!(!ctx.send_url("ignored".to_string()));
        ctx.send_record(vec![ctx.location().kind().to_string(), page.len().to_string()]);
        Ok(())
    }

    fn finalizer(&mut self) {
        self.finalized = true;
    }
}

#[test]
fn scrap_page_hands_out_the_records() {
    let done =
        scrap_page::<Lengths>(&true, "hello".to_string(), PageLocation::Path("a.html".to_string()));
    assert_eq!((vec![vec!["PATH".to_string(), "5".to_string()]], Ok(())), done);

    assert_eq!(
        (vec![], Err(CrawlError::Scrape("empty page".to_string()))),
        scrap_page::<Lengths>(&true, String::new(), PageLocation::Url("u".to_string()))
    );
    assert_eq!(
        (vec![], Err(CrawlError::Scrape("no script".to_string()))),
        scrap_page::<Lengths>(&false, "hello".to_string(), PageLocation::Url("u".to_string()))
    );
}

/// Sends a record for each line of a page and fails at a line that says so.
struct Lines {
    finalized: std::sync::Arc<std::sync::atomic::AtomicUsize>,
}

impl Scrapable for Lines {
    type Config = std::sync::Arc<std::sync::atomic::AtomicUsize>;

    fn new(finalized: &Self::Config) -> Result<Self, String> {
        Ok(Lines { finalized: finalized.clone() })
    }

    fn seed(&self) -> Seed {
        Seed::Pages(vec![])
    }

    fn accept(&self, _: &str, _: CrawlingContext) -> bool {
        true
    }

    fn scrap(&mut self, page: String, ctx: &mut ScrapingContext) -> Result<(), String> {
        for line in page.lines() {
            if line == "fail" {
                return Err("a line failed".to_string());
            }
            ctx.send_record(vec![line.to_string()]);
        }
        Ok(())
    }

    fn finalizer(&mut self) {
        self.finalized.fetch_add(1, std::sync::atomic::Ordering::SeqCst);
    }
}

#[test]
fn scrap_page_finalizes_and_keeps_records_after_a_failure() {
    let finalized = std::sync::Arc::new(std::sync::atomic::AtomicUsize::new(0));
    let location = || PageLocation::Url("u".to_string());

    let done = scrap_page::<Lines>(&finalized, "a\nb\nfail\nc".to_string(), location());
    assert_eq!(
        (
            vec![vec!["a".to_string()], vec!["b".to_string()]],
            Err(CrawlError::Scrape("a line failed".to_string()))
        ),
        done
    );
    assert_eq!(1, finalized.load(std::sync::atomic::Ordering::SeqCst));

    let done = scrap_page::<Lines>(&finalized, "a\nb".to_string(), location());
    assert_eq!((vec![vec!["a".to_string()], vec!["b".to_string()]], Ok(())), done);
    assert_eq!(2, finalized.load(std::sync::atomic::Ordering::SeqCst));
}

fn local_page(text: &str, path: &str) -> Page {
    Page { page: text.to_string(), location: PageLocation::Path(path.to_string()) }
}

#[test]
fn scrap_glob_follows_the_policy() {
    let pages = vec![local_page("one", "1"), local_page("", "2"), local_page("three", "3")];

    let mut scraper = Lengths::new(&true).unwrap();
    let (records, result) = scrap_glob(&mut scraper, pages.clone(), OnError::SkipAndLog);
    assert_eq!(Ok(()), result);
    assert_eq!(
        vec![
            vec!["PATH".to_string(), "3".to_string()],
            vec!["PATH".to_string(), "5".to_string()]
        ],
        records
    );
    assert!(!scraper.finalized);

    let (records, result) = scrap_glob(&mut scraper, pages, OnError::Fail);
    assert_eq!(Err(CrawlError::Scrape("empty page".to_string())), result);
    assert_eq!(vec![vec!["PATH".to_string(), "3".to_string()]], records);

    let (records, result) = scrap_glob(&mut scraper, vec![], OnError::Fail);
    assert_eq!(Ok(()), result);
    assert!(records.is_empty());
}

#[test]
fn counted_tx_counts_what_was_sent() {
    let mut tx = CountedTx::new();
    assert_eq!(0, tx.count());
    tx.send("a".to_string());
    tx.send("b".to_string());
    assert_eq!(2, tx.count());
    assert_eq!(vec!["a".to_string(), "b".to_string()], tx.into_urls());
}

#[test]
fn scraping_context_outboxes() {
    let mut ctx = ScrapingContext::new(
        PageLocation::Url("u".to_string()),
        Some(CountedTx::new()),
        None,
        12,
    );
    assert_eq!("12", ctx.worker_id());
    assert_eq!(12, ctx.worker_index());
    assert!(ctx.robot().is_none());
    assert!(ctx.send_url("next".to_string()));
    assert_eq!(1, ctx.tx_url().unwrap().count());
    ctx.send_record(vec!["x".to_string()]);
    ctx.send_record(vec![]);
    let (urls, records) = ctx.into_parts();
    assert_eq!(vec!["next".to_string()], urls);
    assert_eq!(vec![vec!["x".to_string()], vec![]], records);

    let mut alone = ScrapingContext::with_location(PageLocation::Path("p".to_string()));
    assert!(alone.tx_url().is_none());
    assert!(!alone.send_url("next".to_string()));
    assert_eq!("0", alone.worker_id());
    assert_eq!(&PageLocation::Path("p".to_string()), alone.location());
    let (urls, records) = alone.into_parts();
    assert!(urls.is_empty() && records.is_empty());
}

#[test]
fn seed_needs_exactly_one_kind() {
    let urls = || Some(vec!["u".to_string()]);
    assert_eq!(Ok(Seed::Sitemaps(vec!["u".to_string()])), Seed::from_declared(urls(), None, None));
    assert_eq!(Ok(Seed::Pages(vec!["u".to_string()])), Seed::from_declared(None, urls(), None));
    assert_eq!(
        Ok(Seed::RobotsTxt("r".to_string())),
        Seed::from_declared(None, None, Some("r".to_string()))
    );
    assert_eq!(Err(CrawlError::Config), Seed::from_declared(None, None, None));
    assert_eq!(Err(CrawlError::Config), Seed::from_declared(urls(), urls(), None));
    assert_eq!(
        Err(CrawlError::Config),
        Seed::from_declared(urls(), None, Some("r".to_string()))
    );
    assert_eq!(
        Err(CrawlError::Config),
        Seed::from_declared(urls(), urls(), Some("r".to_string()))
    );
}

#[test]
fn decimal_numerals() {
    assert_eq!("0", decimal_text(0));
    assert_eq!("7", decimal_text(7));
    assert_eq!("10", decimal_text(10));
    assert_eq!("4096", decimal_text(4096));
    assert_eq!(usize::MAX.to_string(), decimal_text(usize::MAX));
    assert!(same_text("abc", "abc"));
    assert!(!same_text("abc", "abd"));
    assert!(!same_text("abc", "ab"));
}

#[test]
fn limiter_starts_empty_and_refills_to_capacity() {
    let mut limiter = RateLimiter::new(2);
    assert_eq!(1000, limiter.period_ms());
    assert_eq!(0, limiter.available_permits());
    assert_eq!(Err(TryAcquireError::NoPermits), limiter.try_acquire_owned());
    limiter.refill();
    assert_eq!(2, limiter.available_permits());
    assert_eq!(Ok(()), limiter.try_acquire_owned());
    limiter.refill();
    assert_eq!(2, limiter.available_permits());
    assert_eq!(Ok(()), limiter.try_acquire_owned());
    assert_eq!(Ok(()), limiter.try_acquire_owned());
    assert_eq!(Err(TryAcquireError::NoPermits), limiter.try_acquire_owned());
    limiter.give_back();
    assert_eq!(1, limiter.available_permits());
    limiter.refill();
    limiter.give_back();
    assert_eq!(2, limiter.available_permits());
}

#[test]
fn delay_is_one_permit_per_period() {
    let mut throttler = Throttler::new(Throttle::Delay(250));
    assert_eq!(Some(250), throttler.refill_period_ms());
    assert_eq!(0, throttler.throttle(0, 3));
    throttler.refill();
    assert_eq!(1, throttler.throttle(0, 3));
    assert_eq!(0, throttler.throttle(0, 2));
    throttler.refill();
    throttler.refill();
    assert_eq!(1, throttler.throttle(5, 2));
    assert_eq!(Some(1000), Throttler::new(Throttle::PerSecond(3)).refill_period_ms());
}

#[test]
fn concurrent_cap_counts_what_is_in_flight() {
    let mut throttler = Throttler::new(Throttle::Concurrent(3));
    assert_eq!(None, throttler.refill_period_ms());
    assert_eq!(3, throttler.throttle(0, 10));
    assert_eq!(1, throttler.throttle(2, 10));
    assert_eq!(0, throttler.throttle(3, 10));
    assert_eq!(0, throttler.throttle(4, 10));
    assert_eq!(2, throttler.throttle(0, 2));
    throttler.refill();
    assert_eq!(3, throttler.throttle(0, 10));
}

#[test]
fn rate_limited_stream_bookkeeping() {
    let mut throttler = Throttler::new(Throttle::PerSecond(2));
    let mut stream = RateLimited::new();
    assert!(!stream.reserve(&mut throttler));
    assert_eq!(Polled::Pending, stream.poll_next(Finished::Empty));
    throttler.refill();

    assert!(stream.reserve(&mut throttler));
    assert!(stream.pulled(&mut throttler, Pulled::Item));
    assert!(stream.reserve(&mut throttler));
    assert!(stream.pulled(&mut throttler, Pulled::Item));
    assert!(!stream.reserve(&mut throttler));
    assert_eq!((5, Some(7)), stream.size_hint((3, Some(5))));
    assert_eq!((usize::MAX, None), stream.size_hint((usize::MAX, Some(usize::MAX - 1))));
    assert_eq!((2, None), stream.size_hint((0, None)));

    assert_eq!(Polled::Pending, stream.poll_next(Finished::Pending));
    assert_eq!(Polled::Item, stream.poll_next(Finished::Item));
    assert_eq!(Polled::Item, stream.poll_next(Finished::Item));
    assert!(!stream.is_terminated());

    throttler.refill();
    assert!(stream.reserve(&mut throttler));
    assert!(!stream.pulled(&mut throttler, Pulled::Pending));
    assert!(stream.reserve(&mut throttler));
    assert!(!stream.reserve(&mut throttler));
    assert!(!stream.pulled(&mut throttler, Pulled::Ended));
    assert!(!stream.pulled(&mut throttler, Pulled::Item));
    assert!(!stream.reserve(&mut throttler));
    assert_eq!(2, throttler.throttle(0, 5));
    assert_eq!(Polled::Ended, stream.poll_next(Finished::Empty));
    assert!(stream.is_terminated());
}

#[test]
fn two_streams_share_one_rate() {
    let mut throttler = Throttler::new(Throttle::PerSecond(3));
    throttler.refill();
    let mut walker = RateLimited::new();
    let mut downloads = RateLimited::new();
    assert!(walker.reserve(&mut throttler));
    assert!(walker.pulled(&mut throttler, Pulled::Item));
    assert!(downloads.reserve(&mut throttler));
    assert!(downloads.pulled(&mut throttler, Pulled::Item));
    assert!(downloads.reserve(&mut throttler));
    assert!(downloads.pulled(&mut throttler, Pulled::Item));
    assert!(!walker.reserve(&mut throttler));
    assert!(!downloads.reserve(&mut throttler));
}

#[test]
fn concurrency_cap_holds_for_each_stream() {
    let mut throttler = Throttler::new(Throttle::Concurrent(2));
    let mut stream = RateLimited::new();
    assert!(stream.reserve(&mut throttler));
    assert!(stream.pulled(&mut throttler, Pulled::Item));
    assert!(stream.reserve(&mut throttler));
    assert!(stream.pulled(&mut throttler, Pulled::Item));
    assert!(!stream.reserve(&mut throttler));
    assert_eq!(Polled::Item, stream.poll_next(Finished::Item));
    assert!(stream.reserve(&mut throttler));
    assert!(!stream.pulled(&mut throttler, Pulled::Pending));
    assert!(stream.reserve(&mut throttler));
}

#[test]
fn csv_defaults_and_settings() {
    let config = CsvWriterConfig::default();
    assert_eq!(',', config.delimiter);
    assert_eq!(None, config.escape);
    assert!(!config.flexible);
    assert_eq!(CsvTerminator::Any('\n'), config.terminator);
    assert_eq!(',', default_csv_delimiter());
    assert_eq!(CsvTerminator::Any('\n'), default_csv_terminator());
    assert_eq!(
        WriterSettings {
            delimiter: b',',
            terminator: Terminator::Any(b'\n'),
            flexible: false,
            double_quote: true,
            escape: None,
        },
        config.settings()
    );

    let tsv = CsvWriterConfig {
        delimiter: '\t',
        escape: Some('\\'),
        flexible: true,
        terminator: CsvTerminator::CRLF,
    };
    assert_eq!(
        WriterSettings {
            delimiter: b'\t',
            terminator: Terminator::CRLF,
            flexible: true,
            double_quote: false,
            escape: Some(b'\\'),
        },
        tsv.settings()
    );
    assert_eq!(0x41, char_byte('A'));
    assert_eq!(0xAC, char_byte('\u{20AC}'));
    assert_eq!(0xE9, char_byte('\u{E9}'));
}

#[test]
fn file_modes_open_flags() {
    assert_eq!(
        OpenFlags { write: true, create_new: true, create: false, append: false, truncate: false },
        FileMode::Create.open_flags()
    );
    assert_eq!(
        OpenFlags { write: true, create_new: false, create: true, append: true, truncate: false },
        FileMode::Append.open_flags()
    );
    assert_eq!(
        OpenFlags { write: true, create_new: false, create: true, append: false, truncate: true },
        FileMode::Truncate.open_flags()
    );
}
