//! Reading a robots.txt document.

use std::sync::Arc;
use vstd::prelude::*;
use crate::error::CrawlError;
use crate::text::texts;

verus! {

/// A parsed robots.txt. Its rules stay inside `texting_robots`; the pipeline
/// only carries the value to the scraper's contexts.
#[verifier::external_type_specification]
#[verifier::external_body]
pub struct ExRobot(texting_robots::Robot);

/// The error of `texting_robots::Robot::new`.
#[verifier::external_type_specification]
#[verifier::external_body]
pub struct ExAnyhowError(anyhow::Error);

/// A robots.txt document as the pipeline uses it.
pub struct Robots {
    /// The parsed document, shared with the scraper's contexts.
    pub robot: Arc<texting_robots::Robot>,
    /// The URLs of the document's `Sitemap:` lines, in their order.
    pub sitemaps: Vec<String>,
}

/// The sitemap URLs that a robots.txt document lists for a user agent, or
/// `None` where the bytes cannot be read as such a document. This is what
/// `texting_robots` makes of the document.
pub uninterp spec fn listed_in(agent: Seq<char>, txt: Seq<u8>) -> Option<Seq<Seq<char>>>;

/// Calls `texting_robots::Robot::new` with the user agent and the bytes of
/// the document, and copies the `sitemaps` field of the result beside it.
/// The crate's error is handed on.
#[verifier::external_body]
fn robot_new(agent: &str, txt: &[u8]) -> (parsed: Result<
    (texting_robots::Robot, Vec<String>),
    anyhow::Error,
>)
    ensures
        match parsed {
            Ok(r) => listed_in(agent@, txt@) == Some(texts(r.1@)),
            Err(_) => listed_in(agent@, txt@) is None,
        },
{
    let robot = texting_robots::Robot::new(agent, txt)?;
    let sitemaps = robot.sitemaps.clone();
    Ok((robot, sitemaps))
}

/// A second handle on a shared document, made with `std::sync::Arc::clone`:
/// it stands for the same document.
#[verifier::external_body]
fn share(robot: &Arc<texting_robots::Robot>) -> (shared: Arc<texting_robots::Robot>)
    ensures
        shared == *robot,
{
    Arc::clone(robot)
}

/// Another handle on the robots.txt of a run, if the run has one.
pub fn share_robot(robot: &Option<Arc<texting_robots::Robot>>) -> (shared: Option<
    Arc<texting_robots::Robot>,
>)
    ensures
        shared == *robot,
{
    match robot {
        Some(r) => Some(share(r)),
        None => None,
    }
}

impl Robots {
    /// Another handle on the parsed document.
    pub fn shared(&self) -> (robot: Arc<texting_robots::Robot>)
        ensures
            robot == self.robot,
    {
        share(&self.robot)
    }
}

/// Parses a robots.txt document for the given user agent.
pub fn parse_robot(agent: &str, txt: &[u8]) -> (parsed: Result<Robots, CrawlError>)
    ensures
        match parsed {
            Ok(r) => listed_in(agent@, txt@) == Some(texts(r.sitemaps@)),
            Err(e) => e == CrawlError::Robots && listed_in(agent@, txt@) is None,
        },
{
    match robot_new(agent, txt) {
        Ok((robot, sitemaps)) => Ok(Robots { robot: Arc::new(robot), sitemaps }),
        Err(_) => Err(CrawlError::Robots),
    }
}

} // verus!
