//! The scraper capability and the values that pass between it and the pipeline.

use std::sync::Arc;
use vstd::prelude::*;
use crate::error::{CrawlError, Fault};
use crate::robots::share_robot;
use crate::text::same_text;
use crate::text::texts;

verus! {

/// The starting set of a run. Exactly one kind is given.
#[derive(Clone, Debug, PartialEq, Eq)]
pub enum Seed {
    /// Sitemap URLs to walk.
    Sitemaps(Vec<String>),
    /// Page URLs to download without walking any sitemap.
    Pages(Vec<String>),
    /// A robots.txt URL whose sitemap lines are walked.
    RobotsTxt(String),
}

/// The seed that a scraper declares, out of the three ways of declaring one.
/// Exactly one of them has to be used.
pub open spec fn seed_of(
    sitemaps: Option<Vec<String>>,
    pages: Option<Vec<String>>,
    robots: Option<String>,
) -> Result<Seed, CrawlError> {
    match (sitemaps, pages, robots) {
        (Some(urls), None, None) => Ok(Seed::Sitemaps(urls)),
        (None, Some(urls), None) => Ok(Seed::Pages(urls)),
        (None, None, Some(url)) => Ok(Seed::RobotsTxt(url)),
        _ => Err(CrawlError::Config),
    }
}

impl Seed {
    /// Makes the seed from what a scraper declares: sitemap URLs, page URLs
    /// or a robots.txt URL. None of them, or more than one, is refused.
    pub fn from_declared(
        sitemaps: Option<Vec<String>>,
        pages: Option<Vec<String>>,
        robots: Option<String>,
    ) -> (seed: Result<Seed, CrawlError>)
        ensures
            seed == seed_of(sitemaps, pages, robots),
    {
        match (sitemaps, pages, robots) {
            (Some(urls), None, None) => Ok(Seed::Sitemaps(urls)),
            (None, Some(urls), None) => Ok(Seed::Pages(urls)),
            (None, None, Some(url)) => Ok(Seed::RobotsTxt(url)),
            _ => Err(CrawlError::Config),
        }
    }
}

/// The kind of a sitemap document.
#[derive(Clone, Copy, Debug, PartialEq, Eq, Structural)]
pub enum Sitemap {
    /// The document points at other sitemaps.
    Index,
    /// The document points at pages.
    Urlset,
}

/// The name of the root element of a sitemap index.
pub open spec fn index_root() -> Seq<char> {
    "sitemapindex"@
}

/// The name of the root element of a URL set.
pub open spec fn urlset_root() -> Seq<char> {
    "urlset"@
}

/// The first element among the children of a document's root, by its local
/// name. Comments and processing instructions before it do not count.
pub open spec fn first_element(children: Seq<Option<Seq<char>>>) -> Option<Seq<char>>
    decreases children.len(),
{
    if children.len() == 0 {
        None
    } else {
        match children[0] {
            Some(name) => Some(name),
            None => first_element(children.drop_first()),
        }
    }
}

/// The kind that the children of a document's root stand for, or the reason
/// why they stand for none. The first element among them is the root
/// element: it must be named as an index or as a URL set.
pub open spec fn sitemap_kind(children: Seq<Option<Seq<char>>>) -> Result<Sitemap, Fault> {
    match first_element(children) {
        None => Err(Fault::RootNotElement),
        Some(name) => if name == index_root() {
            Ok(Sitemap::Index)
        } else if name == urlset_root() {
            Ok(Sitemap::Urlset)
        } else {
            Err(Fault::UnknownRoot(name))
        },
    }
}

/// True when a result is the kind, or carries the fault, that was asked for.
pub open spec fn kind_agrees(got: Result<Sitemap, CrawlError>, want: Result<Sitemap, Fault>) -> bool {
    match want {
        Ok(kind) => got == Ok::<Sitemap, CrawlError>(kind),
        Err(fault) => got matches Err(e) && e@ == fault,
    }
}

impl Sitemap {
    /// The name under which scripts know the kind.
    pub fn name(&self) -> (name: &'static str)
        ensures
            name@ == match self {
                Sitemap::Index => "INDEX"@,
                Sitemap::Urlset => "URL_SET"@,
            },
    {
        match self {
            Sitemap::Index => "INDEX",
            Sitemap::Urlset => "URL_SET",
        }
    }

    /// Classifies a document by the children of its root, each given as its
    /// local element name, or `None` where the child is no element. An
    /// unknown root is reported with its name.
    pub fn try_from(children: &Vec<Option<String>>) -> (kind: Result<Sitemap, CrawlError>)
        ensures
            kind_agrees(kind, sitemap_kind(crate::text::opt_texts(children@))),
    {
        let ghost all = crate::text::opt_texts(children@);
        let mut i: usize = 0;
        assert(all.subrange(0, all.len() as int) =~= all);
        while i < children.len()
            invariant
                0 <= i <= children.len(),
                all == crate::text::opt_texts(children@),
                first_element(all) == first_element(all.subrange(i as int, all.len() as int)),
            decreases children.len() - i,
        {
            let ghost rest = all.subrange(i as int, all.len() as int);
            assert(rest[0] == all[i as int]);
            assert(rest.drop_first() =~= all.subrange(i + 1, all.len() as int));
            match &children[i] {
                Some(name) => {
                    assert(first_element(all) == Some(name@));
                    if same_text(name.as_str(), "sitemapindex") {
                        return Ok(Sitemap::Index);
                    } else if same_text(name.as_str(), "urlset") {
                        return Ok(Sitemap::Urlset);
                    } else {
                        return Err(CrawlError::UnknownRoot(name.clone()));
                    }
                },
                None => {},
            }
            i = i + 1;
        }
        Err(CrawlError::RootNotElement)
    }
}

/// Where a page came from.
#[derive(Clone, Debug, PartialEq, Eq)]
pub enum PageLocation {
    /// The URL the page was downloaded from.
    Url(String),
    /// The path of the local file the page was read from.
    Path(String),
}

impl PageLocation {
    /// The name under which scripts know the kind of the location.
    pub fn kind(&self) -> (name: &'static str)
        ensures
            name@ == match self {
                PageLocation::Url(_) => "URL"@,
                PageLocation::Path(_) => "PATH"@,
            },
    {
        match self {
            PageLocation::Url(_) => "URL",
            PageLocation::Path(_) => "PATH",
        }
    }
}

/// A downloaded or loaded page.
#[derive(Clone, Debug, PartialEq, Eq)]
pub struct Page {
    /// The text of the page.
    pub page: String,
    /// Where the text came from.
    pub location: PageLocation,
}

/// What the scraper is told when it is asked whether to follow a URL.
#[derive(Clone)]
pub struct CrawlingContext {
    /// The kind of the sitemap that lists the URL.
    pub sitemap: Sitemap,
    /// The robots.txt of the run, if it has one.
    pub robot: Option<Arc<texting_robots::Robot>>,
}

impl CrawlingContext {
    pub fn new(sm: Sitemap, robot: Option<Arc<texting_robots::Robot>>) -> (ctx: Self)
        ensures
            ctx == (CrawlingContext { sitemap: sm, robot }),
    {
        CrawlingContext { sitemap: sm, robot }
    }

    pub fn sitemap(&self) -> (sm: Sitemap)
        ensures
            sm == self.sitemap,
    {
        self.sitemap
    }

    pub fn robot(&self) -> (robot: Option<Arc<texting_robots::Robot>>)
        ensures
            robot == self.robot,
    {
        share_robot(&self.robot)
    }
}

/// An outbox for URLs that counts what was put into it. Every URL sent here
/// is one more page that the run has to wait for.
#[derive(Clone, Debug, PartialEq, Eq)]
pub struct CountedTx {
    urls: Vec<String>,
}

impl View for CountedTx {
    type V = Seq<Seq<char>>;

    closed spec fn view(&self) -> Seq<Seq<char>> {
        texts(self.urls@)
    }
}

impl CountedTx {
    pub fn new() -> (tx: Self)
        ensures
            tx@ == Seq::<Seq<char>>::empty(),
    {
        let tx = CountedTx { urls: Vec::new() };
        assert(tx@ =~= Seq::<Seq<char>>::empty());
        tx
    }

    /// Puts a URL into the outbox.
    pub fn send(&mut self, s: String)
        ensures
            final(self)@ == old(self)@.push(s@),
    {
        proof {
            crate::text::texts_push(self.urls@, s);
        }
        self.urls.push(s);
    }

    /// The number of URLs sent so far.
    pub fn count(&self) -> (n: usize)
        ensures
            n == self@.len(),
    {
        self.urls.len()
    }

    /// Hands the URLs out, in the order in which they were sent.
    pub fn into_urls(self) -> (urls: Vec<String>)
        ensures
            texts(urls@) == self@,
    {
        self.urls
    }
}

/// What the scraper is given with a page: where the page came from, the
/// robots.txt of the run, and the outboxes for records and for further URLs.
pub struct ScrapingContext {
    location: PageLocation,
    tx_url: Option<CountedTx>,
    records: Vec<Vec<String>>,
    robot: Option<Arc<texting_robots::Robot>>,
    worker: usize,
}

impl ScrapingContext {
    pub closed spec fn location_spec(&self) -> PageLocation {
        self.location
    }

    /// The URLs sent so far, or `None` where the context has no URL outbox.
    pub closed spec fn urls(&self) -> Option<Seq<Seq<char>>> {
        match self.tx_url {
            Some(tx) => Some(tx@),
            None => None,
        }
    }

    /// The records sent so far.
    pub closed spec fn records(&self) -> Seq<Vec<String>> {
        self.records@
    }

    pub closed spec fn robot_spec(&self) -> Option<Arc<texting_robots::Robot>> {
        self.robot
    }

    pub closed spec fn worker_spec(&self) -> usize {
        self.worker
    }

    /// True for the context that the work on a page starts with: nothing is
    /// sent yet.
    pub open spec fn fresh(
        &self,
        location: PageLocation,
        takes_urls: bool,
        robot: Option<Arc<texting_robots::Robot>>,
        worker: usize,
    ) -> bool {
        &&& self.location_spec() == location
        &&& self.urls() == if takes_urls {
            Some(Seq::<Seq<char>>::empty())
        } else {
            None
        }
        &&& self.records() == Seq::<Vec<String>>::empty()
        &&& self.robot_spec() == robot
        &&& self.worker_spec() == worker
    }

    /// The URLs that were sent; none where the context has no URL outbox.
    pub open spec fn urls_sent(&self) -> Seq<Seq<char>> {
        match self.urls() {
            Some(urls) => urls,
            None => Seq::<Seq<char>>::empty(),
        }
    }

    /// A context for a single page outside a crawl: URLs cannot be sent.
    pub fn with_location(location: PageLocation) -> (ctx: Self)
        ensures
            ctx.fresh(location, false, None, 0),
    {
        ScrapingContext { location, tx_url: None, records: Vec::new(), robot: None, worker: 0 }
    }

    /// A context for a page of a crawl, scraped by the worker with index `worker`.
    pub fn new(
        location: PageLocation,
        tx_url: Option<CountedTx>,
        robot: Option<Arc<texting_robots::Robot>>,
        worker: usize,
    ) -> (ctx: Self)
        ensures
            ctx.location_spec() == location,
            ctx.urls() == match tx_url {
                Some(tx) => Some(tx@),
                None => None,
            },
            ctx.records() == Seq::<Vec<String>>::empty(),
            ctx.robot_spec() == robot,
            ctx.worker_spec() == worker,
    {
        ScrapingContext { location, tx_url, records: Vec::new(), robot, worker }
    }

    pub fn location(&self) -> (location: &PageLocation)
        ensures
            *location == self.location_spec(),
    {
        &self.location
    }

    /// The URL outbox, where the context has one.
    pub fn tx_url(&self) -> (tx: Option<&CountedTx>)
        ensures
            match tx {
                Some(t) => self.urls() == Some(t@),
                None => self.urls() is None,
            },
    {
        self.tx_url.as_ref()
    }

    pub fn robot(&self) -> (robot: Option<Arc<texting_robots::Robot>>)
        ensures
            robot == self.robot_spec(),
    {
        share_robot(&self.robot)
    }

    /// The index of the worker that scrapes the page.
    pub fn worker_index(&self) -> (id: usize)
        ensures
            id == self.worker_spec(),
    {
        self.worker
    }

    /// The name of the worker that scrapes the page: its index, written in
    /// decimal.
    pub fn worker_id(&self) -> (name: String)
        ensures
            name@ == crate::text::decimal(self.worker_spec() as nat),
    {
        crate::text::decimal_text(self.worker)
    }

    /// Sends a URL to be downloaded and scraped in this run. Returns `false`,
    /// and sends nothing, where the context has no URL outbox.
    pub fn send_url(&mut self, url: String) -> (sent: bool)
        ensures
            sent == old(self).urls().is_some(),
            final(self).urls() == match old(self).urls() {
                Some(before) => Some(before.push(url@)),
                None => None,
            },
            final(self).records() == old(self).records(),
            final(self).location_spec() == old(self).location_spec(),
            final(self).robot_spec() == old(self).robot_spec(),
            final(self).worker_spec() == old(self).worker_spec(),
    {
        match &mut self.tx_url {
            Some(tx) => {
                tx.send(url);
                true
            },
            None => false,
        }
    }

    /// Sends a record to the sink.
    pub fn send_record(&mut self, record: Vec<String>)
        ensures
            final(self).records() == old(self).records().push(record),
            final(self).urls() == old(self).urls(),
            final(self).location_spec() == old(self).location_spec(),
            final(self).robot_spec() == old(self).robot_spec(),
            final(self).worker_spec() == old(self).worker_spec(),
    {
        self.records.push(record);
    }

    /// Takes the context apart: the URLs and the records that were sent, each
    /// in the order of sending. Without a URL outbox the URL list is empty.
    pub fn into_parts(self) -> (parts: (Vec<String>, Vec<Vec<String>>))
        ensures
            texts(parts.0@) == self.urls_sent(),
            parts.1@ == self.records(),
    {
        let urls = match self.tx_url {
            Some(tx) => tx.into_urls(),
            None => {
                let none: Vec<String> = Vec::new();
                assert(texts(none@) =~= Seq::<Seq<char>>::empty());
                none
            },
        };
        (urls, self.records)
    }
}

/// The user's scraping logic. Each worker owns one instance.
///
/// What an implementation does is its own matter. The three relations
/// `makes`, `scraps` and `finalizes` hold of every call unless an
/// implementation says more; the pipeline's contracts name them to say with
/// what, and how often, the scraper is called.
pub trait Scrapable: Sized {
    /// What an instance is made from.
    type Config: Clone + Send + 'static;

    /// The answer of [`Scrapable::accept`]: an instance answers alike each
    /// time it is asked about the same URL in the same context. Nothing else
    /// is known of the answer unless an implementation says what it is.
    open spec fn accepts(&self, url: Seq<char>, crawling_ctx: CrawlingContext) -> bool {
        let answer = arbitrary::<spec_fn(Self, Seq<char>, CrawlingContext) -> bool>();
        answer(*self, url, crawling_ctx)
    }

    /// What [`Scrapable::new`] may give for a configuration.
    open spec fn makes(config: Self::Config, made: Result<Self, String>) -> bool {
        true
    }

    /// What a call of [`Scrapable::scrap`] may do: with the page and the
    /// context `before`, the scraper becomes `after`, leaves the context as
    /// `sent` and returns `done`.
    open spec fn scraps(
        &self,
        page: String,
        before: ScrapingContext,
        after: Self,
        sent: ScrapingContext,
        done: Result<(), String>,
    ) -> bool {
        true
    }

    /// What a call of [`Scrapable::finalizer`] may do to the scraper.
    open spec fn finalizes(&self, after: Self) -> bool {
        true
    }

    fn new(config: &Self::Config) -> (made: Result<Self, String>)
        ensures
            Self::makes(*config, made),
    ;

    /// The starting set of the run.
    fn seed(&self) -> (seed: Seed);

    /// Tells whether a URL found in a sitemap is to be followed.
    fn accept(&self, url: &str, crawling_ctx: CrawlingContext) -> (accepted: bool)
        ensures
            accepted == self.accepts(url@, crawling_ctx),
    ;

    /// Processes one page. Records and further URLs go into the context.
    fn scrap(&mut self, page: String, scraping_ctx: &mut ScrapingContext) -> (done: Result<
        (),
        String,
    >)
        ensures
            old(self).scraps(page, *old(scraping_ctx), *final(self), *final(scraping_ctx), done),
    ;

    /// Called once, when the run is over.
    fn finalizer(&mut self)
        ensures
            old(self).finalizes(*final(self)),
    ;
}

} // verus!
