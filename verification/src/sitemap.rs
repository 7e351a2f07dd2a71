//! Reading a sitemap document and choosing which of its URLs to follow.

use std::sync::Arc;
use vstd::prelude::*;
use crate::config::{CrawlerConfig, OnError};
use crate::robots::share_robot;
use crate::error::{CrawlError, Fault};
use crate::scrapable::{sitemap_kind, CrawlingContext, Scrapable, Sitemap};
use crate::text::{opt_texts, texts};

verus! {

/// The error of `sxd_document::parser::parse`.
#[verifier::external_type_specification]
#[verifier::external_body]
pub struct ExXmlError(sxd_document::parser::Error);

/// What the children of the root of an XML text are: for each child, in
/// document order, its local name if it is an element. `None` where the text
/// is not well-formed XML. This is what `sxd_document` makes of the text.
pub uninterp spec fn root_names_of(xml: Seq<char>) -> Option<Seq<Option<Seq<char>>>>;

/// Parses the text with `sxd_document::parser::parse` and lists the children
/// of the document's root: the local part of the name where the child is an
/// element, `None` where it is a comment or a processing instruction. The
/// parser's error is handed on.
#[verifier::external_body]
fn root_names(xml: &str) -> (names: Result<Vec<Option<String>>, sxd_document::parser::Error>)
    ensures
        match names {
            Ok(v) => root_names_of(xml@) == Some(opt_texts(v@)),
            Err(_) => root_names_of(xml@) is None,
        },
{
    let package = sxd_document::parser::parse(xml)?;
    let children = package.as_document().root().children();
    Ok(children.iter().map(|c| c.element().map(|e| e.name().local_part().to_string())).collect())
}

/// The outcome of a node query on an XML text.
#[derive(Clone, Debug, PartialEq, Eq)]
pub enum Located {
    /// The text is not well-formed XML.
    Unparsed,
    /// The expression is malformed or empty.
    NoQuery,
    /// The expression could not be evaluated on the document.
    Failed,
    /// The expression gives a value that is no set of nodes.
    Scalar,
    /// The string values of the nodes found, in document order.
    Nodes(Vec<String>),
}

/// The plain form of a [`Located`].
pub enum LocatedView {
    Unparsed,
    NoQuery,
    Failed,
    Scalar,
    Nodes(Seq<Seq<char>>),
}

impl View for Located {
    type V = LocatedView;

    open spec fn view(&self) -> LocatedView {
        match self {
            Located::Unparsed => LocatedView::Unparsed,
            Located::NoQuery => LocatedView::NoQuery,
            Located::Failed => LocatedView::Failed,
            Located::Scalar => LocatedView::Scalar,
            Located::Nodes(v) => LocatedView::Nodes(texts(v@)),
        }
    }
}

/// What an XPath expression selects in an XML text, with one namespace
/// prefix bound. This is what `sxd_xpath` makes of the four texts.
pub uninterp spec fn located_in(
    xml: Seq<char>,
    prefix: Seq<char>,
    uri: Seq<char>,
    path: Seq<char>,
) -> LocatedView;

/// Parses the text with `sxd_document::parser::parse`, builds the expression
/// with `sxd_xpath::Factory::build`, binds the prefix with
/// `sxd_xpath::Context::set_namespace` and evaluates the expression on the
/// document's root. A node set is handed out as the string values of its
/// nodes in document order; each way of failing has its own variant.
///
/// The evaluation does not return where the expression names a prefix that
/// is not bound, and the order is that of the document only among elements.
/// So the wrapper is for the location query alone, with its own prefix
/// bound: it selects elements, and names no other prefix.
#[verifier::external_body]
fn locate(xml: &str, prefix: &str, uri: &str, path: &str) -> (found: Located)
    requires
        prefix@ == sitemap_prefix(),
        path@ == loc_query(),
    ensures
        found@ == located_in(xml@, prefix@, uri@, path@),
{
    let Ok(package) = sxd_document::parser::parse(xml) else { return Located::Unparsed };
    let Ok(Some(xpath)) = sxd_xpath::Factory::new().build(path) else { return Located::NoQuery };
    let mut context = sxd_xpath::Context::new();
    context.set_namespace(prefix, uri);
    match xpath.evaluate(&context, package.as_document().root()) {
        Ok(sxd_xpath::Value::Nodeset(nodes)) => Located::Nodes(
            nodes.document_order().iter().map(|n| n.string_value()).collect(),
        ),
        Ok(_) => Located::Scalar,
        Err(_) => Located::Failed,
    }
}

/// The prefix under which the sitemap namespace is bound in the query.
pub open spec fn sitemap_prefix() -> Seq<char> {
    "sm"@
}

/// The namespace of the sitemap protocol.
pub open spec fn sitemap_namespace() -> Seq<char> {
    "http://www.sitemaps.org/schemas/sitemap/0.9"@
}

/// The query for every location element of a sitemap.
pub open spec fn loc_query() -> Seq<char> {
    "//sm:loc"@
}

/// The URLs of a list that a scraper accepts in a context, in their order.
pub open spec fn accepted_of<T: Scrapable>(
    scraper: &T,
    urls: Seq<Seq<char>>,
    ctx: CrawlingContext,
) -> Seq<Seq<char>> {
    urls.filter(|u: Seq<char>| scraper.accepts(u, ctx))
}

/// Asks the scraper about each URL of a list, as listed in a sitemap of the
/// given kind, and keeps those it accepts.
pub fn keep_accepted<T: Scrapable>(
    scraper: &T,
    urls: &Vec<String>,
    sitemap: Sitemap,
    robot: &Option<Arc<texting_robots::Robot>>,
) -> (kept: Vec<String>)
    ensures
        texts(kept@) == accepted_of(scraper, texts(urls@), CrawlingContext { sitemap, robot: *robot }),
{
    let ghost ctx = CrawlingContext { sitemap, robot: *robot };
    let mut kept: Vec<String> = Vec::new();
    let mut i: usize = 0;
    assert(texts(kept@) =~= Seq::<Seq<char>>::empty());
    assert(texts(urls@).take(0) =~= Seq::<Seq<char>>::empty());
    while i < urls.len()
        invariant
            0 <= i <= urls.len(),
            ctx == (CrawlingContext { sitemap, robot: *robot }),
            texts(kept@) == accepted_of(scraper, texts(urls@).take(i as int), ctx),
        decreases urls.len() - i,
    {
        let url = &urls[i];
        let ok = scraper.accept(url.as_str(), CrawlingContext::new(sitemap, share_robot(robot)));
        proof {
            let all = texts(urls@);
            let prefix = all.take(i as int);
            assert(all.take(i + 1) =~= prefix.push(all[i as int]));
            prefix.lemma_filter_push(all[i as int], |u: Seq<char>| scraper.accepts(u, ctx));
        }
        if ok {
            proof {
                crate::text::texts_push(kept@, *url);
            }
            kept.push(url.clone());
        }
        i = i + 1;
    }
    assert(texts(urls@).take(urls.len() as int) =~= texts(urls@));
    kept
}

/// A URL that the scraper does not accept is in no list of accepted URLs,
/// so nothing is ever downloaded for it on behalf of that list.
pub proof fn rejected_is_dropped<T: Scrapable>(
    scraper: &T,
    urls: Seq<Seq<char>>,
    ctx: CrawlingContext,
    url: Seq<char>,
)
    requires
        !scraper.accepts(url, ctx),
    ensures
        !accepted_of(scraper, urls, ctx).contains(url),
{
    let pred = |u: Seq<char>| scraper.accepts(u, ctx);
    let kept = urls.filter(pred);
    if kept.contains(url) {
        let i = choose|i: int| 0 <= i < kept.len() && kept[i] == url;
        urls.lemma_filter_pred(pred, i);
    }
}

/// An accepted URL of the list is kept, and everything kept is from the list.
pub proof fn accepted_is_kept<T: Scrapable>(
    scraper: &T,
    urls: Seq<Seq<char>>,
    ctx: CrawlingContext,
    url: Seq<char>,
)
    ensures
        accepted_of(scraper, urls, ctx).contains(url) <==> urls.contains(url) && scraper.accepts(
            url,
            ctx,
        ),
{
    let pred = |u: Seq<char>| scraper.accepts(u, ctx);
    let kept = urls.filter(pred);
    if kept.contains(url) {
        let i = choose|i: int| 0 <= i < kept.len() && kept[i] == url;
        urls.lemma_filter_pred(pred, i);
        urls.lemma_filter_contains_rev(pred, url);
    }
    if urls.contains(url) && pred(url) {
        let i = choose|i: int| 0 <= i < urls.len() && urls[i] == url;
        urls.lemma_filter_contains(pred, i);
    }
}

/// What one sitemap document yields.
#[derive(Clone, Debug, PartialEq, Eq)]
pub struct Gathered {
    /// The kind of the document, or `None` where the document was skipped
    /// before its kind was known.
    pub kind: Option<Sitemap>,
    /// The accepted page URLs of a URL set, to be downloaded.
    pub pages: Vec<String>,
    /// The accepted sitemap URLs of an index, to be walked in turn.
    pub sitemaps: Vec<String>,
    /// True where the document was skipped under `SkipAndLog`.
    pub skipped: bool,
}

/// The plain form of a [`Gathered`].
pub struct GatheredView {
    pub kind: Option<Sitemap>,
    pub pages: Seq<Seq<char>>,
    pub sitemaps: Seq<Seq<char>>,
    pub skipped: bool,
}

impl View for Gathered {
    type V = GatheredView;

    open spec fn view(&self) -> GatheredView {
        GatheredView {
            kind: self.kind,
            pages: texts(self.pages@),
            sitemaps: texts(self.sitemaps@),
            skipped: self.skipped,
        }
    }
}

/// A document that was skipped before its kind was known.
pub open spec fn skipped_unread() -> GatheredView {
    GatheredView {
        kind: None,
        pages: Seq::<Seq<char>>::empty(),
        sitemaps: Seq::<Seq<char>>::empty(),
        skipped: true,
    }
}

/// A document of a known kind that yields the given locations, or nothing.
pub open spec fn yield_of(kind: Sitemap, locs: Seq<Seq<char>>, skipped: bool) -> GatheredView {
    GatheredView {
        kind: Some(kind),
        pages: if kind == Sitemap::Urlset {
            locs
        } else {
            Seq::<Seq<char>>::empty()
        },
        sitemaps: if kind == Sitemap::Index {
            locs
        } else {
            Seq::<Seq<char>>::empty()
        },
        skipped,
    }
}

/// What a sitemap yields, given what the XML reader made of it.
///
/// A text that is no XML, and a query that cannot be evaluated, go by the
/// XML policy: skipped under `SkipAndLog`, an error under `Fail`. A root that
/// is neither an index nor a URL set is always an error, and so is a query
/// that cannot be built. Of the locations found, those that the scraper
/// accepts are pages for a URL set and further sitemaps for an index.
pub open spec fn gathered<T: Scrapable>(
    policy: OnError,
    scraper: &T,
    robot: Option<Arc<texting_robots::Robot>>,
    names: Option<Seq<Option<Seq<char>>>>,
    found: LocatedView,
) -> Result<GatheredView, Fault> {
    match names {
        None => match policy {
            OnError::SkipAndLog => Ok(skipped_unread()),
            OnError::Fail => Err(Fault::XmlParse),
        },
        Some(children) => match sitemap_kind(children) {
            Err(fault) => Err(fault),
            Ok(kind) => match found {
                LocatedView::Unparsed => match policy {
                    OnError::SkipAndLog => Ok(skipped_unread()),
                    OnError::Fail => Err(Fault::XmlParse),
                },
                LocatedView::NoQuery => Err(Fault::Xpath),
                LocatedView::Failed => match policy {
                    OnError::SkipAndLog => Ok(yield_of(kind, Seq::<Seq<char>>::empty(), true)),
                    OnError::Fail => Err(Fault::Xpath),
                },
                LocatedView::Scalar => Ok(yield_of(kind, Seq::<Seq<char>>::empty(), false)),
                LocatedView::Nodes(locs) => Ok(
                    yield_of(
                        kind,
                        accepted_of(scraper, locs, CrawlingContext { sitemap: kind, robot }),
                        false,
                    ),
                ),
            },
        },
    }
}

/// True when a result holds the value, or the error, that was asked for.
pub open spec fn agrees(got: Result<Gathered, CrawlError>, want: Result<GatheredView, Fault>) -> bool {
    match want {
        Ok(v) => got matches Ok(g) && g@ == v,
        Err(fault) => got matches Err(e) && e@ == fault,
    }
}

fn nothing() -> (none: Vec<String>)
    ensures
        texts(none@) == Seq::<Seq<char>>::empty(),
{
    let none: Vec<String> = Vec::new();
    assert(texts(none@) =~= Seq::<Seq<char>>::empty());
    none
}

fn skipped(policy: OnError, kind: Option<Sitemap>, error: CrawlError) -> (got: Result<Gathered, CrawlError>)
    ensures
        match policy {
            OnError::SkipAndLog => got matches Ok(g) && g@ == (GatheredView {
                kind,
                pages: Seq::<Seq<char>>::empty(),
                sitemaps: Seq::<Seq<char>>::empty(),
                skipped: true,
            }),
            OnError::Fail => got == Err::<Gathered, CrawlError>(error),
        },
{
    match policy {
        OnError::SkipAndLog => Ok(Gathered { kind, pages: nothing(), sitemaps: nothing(), skipped: true }),
        OnError::Fail => Err(error),
    }
}

/// Decides what a sitemap yields from what the XML reader made of it: the
/// children of the root, or `None` for a text that is no XML, and the
/// outcome of the location query. The query's outcome counts only where the
/// root shows the kind of the document.
pub fn gather_from<T: Scrapable>(
    config: &CrawlerConfig,
    scraper: &T,
    names: Option<Vec<Option<String>>>,
    found: Located,
    robot: Option<Arc<texting_robots::Robot>>,
) -> (got: Result<Gathered, CrawlError>)
    ensures
        agrees(
            got,
            gathered(
                config.on_xml_error,
                scraper,
                robot,
                match names {
                    Some(v) => Some(opt_texts(v@)),
                    None => None,
                },
                found@,
            ),
        ),
{
    let children = match names {
        Some(v) => v,
        None => {
            return skipped(config.on_xml_error, None, CrawlError::XmlParse);
        },
    };
    let kind = match Sitemap::try_from(&children) {
        Ok(kind) => kind,
        Err(e) => {
            return Err(e);
        },
    };
    match found {
        Located::Unparsed => skipped(config.on_xml_error, None, CrawlError::XmlParse),
        Located::NoQuery => Err(CrawlError::Xpath),
        Located::Failed => skipped(config.on_xml_error, Some(kind), CrawlError::Xpath),
        Located::Scalar => Ok(
            Gathered { kind: Some(kind), pages: nothing(), sitemaps: nothing(), skipped: false },
        ),
        Located::Nodes(locs) => {
            let kept = keep_accepted(scraper, &locs, kind, &robot);
            match kind {
                Sitemap::Urlset => Ok(
                    Gathered { kind: Some(kind), pages: kept, sitemaps: nothing(), skipped: false },
                ),
                Sitemap::Index => Ok(
                    Gathered { kind: Some(kind), pages: nothing(), sitemaps: kept, skipped: false },
                ),
            }
        },
    }
}

/// Reads a sitemap document and yields the URLs to follow: the accepted page
/// URLs of a URL set, or the accepted sitemap URLs of an index.
pub fn gather_urls<T: Scrapable>(
    config: &CrawlerConfig,
    scraper: &T,
    sitemap_xml: &str,
    robot: Option<Arc<texting_robots::Robot>>,
) -> (got: Result<Gathered, CrawlError>)
    ensures
        agrees(
            got,
            gathered(
                config.on_xml_error,
                scraper,
                robot,
                root_names_of(sitemap_xml@),
                located_in(sitemap_xml@, sitemap_prefix(), sitemap_namespace(), loc_query()),
            ),
        ),
{
    let names = match root_names(sitemap_xml) {
        Ok(v) => Some(v),
        Err(_) => None,
    };
    let found = locate(sitemap_xml, "sm", "http://www.sitemaps.org/schemas/sitemap/0.9", "//sm:loc");
    gather_from(config, scraper, names, found, robot)
}

} // verus!
