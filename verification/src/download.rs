//! From a response to a page, and what a failed download does to the run.

use vstd::prelude::*;
use crate::config::OnError;
use crate::error::CrawlError;
use crate::scrapable::{Page, PageLocation};
use crate::text::same_text;

verus! {

/// The text that a gzip stream holds, or `None` where the bytes are no gzip
/// stream of UTF-8 text. This is what `flate2` makes of the bytes.
pub uninterp spec fn gunzip_text(bytes: Seq<u8>) -> Option<Seq<char>>;

/// The error of a failed read.
#[verifier::external_type_specification]
#[verifier::external_body]
pub struct ExIoError(std::io::Error);

/// Reads the bytes through `flate2::read::GzDecoder` into a string, with
/// `std::io::Read::read_to_string`: the result is the decoder's text, and an
/// error where the decoder or the UTF-8 check fails.
#[verifier::external_body]
fn gunzip(bytes: &[u8]) -> (text: Result<String, std::io::Error>)
    ensures
        match text {
            Ok(s) => gunzip_text(bytes@) == Some(s@),
            Err(_) => gunzip_text(bytes@) is None,
        },
{
    let mut decoder = flate2::read::GzDecoder::new(bytes);
    let mut page = String::new();
    std::io::Read::read_to_string(&mut decoder, &mut page)?;
    Ok(page)
}

/// The body of a response, as the caller read it.
#[derive(Clone, Debug, PartialEq, Eq)]
pub enum Body {
    /// The decoded text of the response.
    Text(String),
    /// The raw bytes of a response that was declared as gzip.
    Gzip(Vec<u8>),
}

/// True for the two content types that declare a gzip-compressed body.
pub open spec fn gzip_content_type(content_type: Option<Seq<char>>) -> bool {
    content_type == Some("application/x-gzip"@) || content_type == Some("application/gzip"@)
}

/// Tells whether a response with this `Content-Type` has to be read as raw
/// bytes and decompressed, rather than as text.
pub fn needs_gunzip(content_type: Option<&str>) -> (gzip: bool)
    ensures
        gzip == gzip_content_type(
            match content_type {
                Some(c) => Some(c@),
                None => None,
            },
        ),
{
    match content_type {
        Some(c) => same_text(c, "application/x-gzip") || same_text(c, "application/gzip"),
        None => false,
    }
}

/// The page that a response stands for: its text as it is, or the text
/// inside its gzip stream. `None` for a request that brought no response.
pub open spec fn page_text(response: Option<Body>) -> Result<Seq<char>, CrawlError> {
    match response {
        None => Err(CrawlError::Network),
        Some(Body::Text(t)) => Ok(t@),
        Some(Body::Gzip(bytes)) => match gunzip_text(bytes@) {
            Some(t) => Ok(t),
            None => Err(CrawlError::Decode),
        },
    }
}

/// True for the page with the given text that was downloaded from the URL.
pub open spec fn is_page_of(page: Page, url: Seq<char>, text: Seq<char>) -> bool {
    &&& page.page@ == text
    &&& page.location matches PageLocation::Url(u)
    &&& u@ == url
}

/// Makes the page of a URL from a text that was read or decompressed.
pub fn page_from(url: &str, text: Option<String>) -> (page: Result<Page, CrawlError>)
    ensures
        match text {
            Some(t) => page matches Ok(p) && is_page_of(p, url@, t@),
            None => page == Err::<Page, CrawlError>(CrawlError::Decode),
        },
{
    match text {
        Some(t) => Ok(Page { page: t, location: PageLocation::Url(url.to_owned()) }),
        None => Err(CrawlError::Decode),
    }
}

/// Turns what a request brought into a page, or into a download error.
pub fn download(url: &str, response: Option<Body>) -> (page: Result<Page, CrawlError>)
    ensures
        match page_text(response) {
            Ok(t) => page matches Ok(p) && is_page_of(p, url@, t),
            Err(e) => page == Err::<Page, CrawlError>(e),
        },
{
    match response {
        None => Err(CrawlError::Network),
        Some(Body::Text(t)) => page_from(url, Some(t)),
        Some(Body::Gzip(bytes)) => {
            let text = match gunzip(bytes.as_slice()) {
                Ok(t) => Some(t),
                Err(_) => None,
            };
            page_from(url, text)
        },
    }
}

/// Keeps the first error of a stream of results: a success is handed on, a
/// failure is stored in `err` and ends the stream.
pub fn until_err<T, E>(err: &mut Result<(), E>, item: Result<T, E>) -> (next: Option<T>)
    ensures
        match item {
            Ok(v) => next == Some(v) && *final(err) == *old(err),
            Err(e) => next is None && *final(err) == Err::<(), E>(e),
        },
{
    match item {
        Ok(v) => Some(v),
        Err(e) => {
            *err = Err(e);
            None
        },
    }
}

/// What becomes of one finished operation under a policy.
#[derive(Debug, PartialEq, Eq)]
pub enum Settled<T> {
    /// The operation succeeded and its value goes on.
    Deliver(T),
    /// The operation failed; the failure is logged and the item is dropped.
    Discard(CrawlError),
    /// The operation failed and the run ends with this error.
    Abort(CrawlError),
}

/// The fate of one result under a policy: a success is delivered, a failure
/// is discarded under `SkipAndLog` and ends the run under `Fail`.
pub open spec fn settled<T>(policy: OnError, item: Result<T, CrawlError>) -> Settled<T> {
    match item {
        Ok(v) => Settled::Deliver(v),
        Err(e) => match policy {
            OnError::SkipAndLog => Settled::Discard(e),
            OnError::Fail => Settled::Abort(e),
        },
    }
}

/// Applies a policy to one finished operation.
pub fn settle<T>(policy: OnError, item: Result<T, CrawlError>) -> (fate: Settled<T>)
    ensures
        fate == settled(policy, item),
{
    match item {
        Ok(v) => Settled::Deliver(v),
        Err(e) => match policy {
            OnError::SkipAndLog => Settled::Discard(e),
            OnError::Fail => Settled::Abort(e),
        },
    }
}

/// The number of results of a batch that are delivered.
pub open spec fn delivered_count<T>(policy: OnError, items: Seq<Result<T, CrawlError>>) -> nat
    decreases items.len(),
{
    if items.len() == 0 {
        0
    } else {
        delivered_count(policy, items.drop_last()) + if settled(policy, items.last())
            is Deliver {
            1nat
        } else {
            0nat
        }
    }
}

/// The number of results of a batch that are logged and dropped.
pub open spec fn discarded_count<T>(policy: OnError, items: Seq<Result<T, CrawlError>>) -> nat
    decreases items.len(),
{
    if items.len() == 0 {
        0
    } else {
        discarded_count(policy, items.drop_last()) + if settled(policy, items.last())
            is Discard {
            1nat
        } else {
            0nat
        }
    }
}

/// The number of operations of a batch that succeeded.
pub open spec fn successes<T>(items: Seq<Result<T, CrawlError>>) -> nat
    decreases items.len(),
{
    if items.len() == 0 {
        0
    } else {
        successes(items.drop_last()) + if items.last() is Ok {
            1nat
        } else {
            0nat
        }
    }
}

/// Whatever the policy, exactly the operations that succeeded are delivered;
/// under `SkipAndLog` exactly those that failed are discarded.
pub proof fn successes_are_delivered<T>(policy: OnError, items: Seq<Result<T, CrawlError>>)
    ensures
        delivered_count(policy, items) == successes(items),
        successes(items) <= items.len(),
        discarded_count(OnError::SkipAndLog, items) == items.len() - successes(items),
    decreases items.len(),
{
    if items.len() > 0 {
        successes_are_delivered(policy, items.drop_last());
    }
}

/// Under `SkipAndLog` every result is either delivered or discarded, never
/// both and never neither: the two counts add up to the size of the batch,
/// and no result ends the run.
pub proof fn skip_and_log_partitions<T>(items: Seq<Result<T, CrawlError>>)
    ensures
        delivered_count(OnError::SkipAndLog, items) + discarded_count(OnError::SkipAndLog, items)
            == items.len(),
        forall|i: int|
            0 <= i < items.len() ==> (#[trigger] settled(OnError::SkipAndLog, items[i]) is Deliver)
                != (settled(OnError::SkipAndLog, items[i]) is Discard),
        forall|i: int|
            0 <= i < items.len() ==> !(#[trigger] settled(OnError::SkipAndLog, items[i]) is Abort),
    decreases items.len(),
{
    if items.len() > 0 {
        skip_and_log_partitions(items.drop_last());
    }
}

} // verus!
