//! The failures a run can end with.

use vstd::prelude::*;

verus! {

/// Why a step of the crawl failed.
///
/// `Config` and `Interrupt` always end the run. The others end it only where
/// the policy for their stage is [`crate::config::OnError::Fail`].
#[derive(Clone, Debug, PartialEq, Eq)]
pub enum CrawlError {
    /// The seed and the crawler configuration contradict each other.
    Config,
    /// The robots.txt document could not be read as one.
    Robots,
    /// The robots.txt document suggests a crawl delay that is not positive.
    RobotDelay,
    /// A request failed before a body was received.
    Network,
    /// A body was received but could not be decoded.
    Decode,
    /// A sitemap is not well-formed XML.
    XmlParse,
    /// The root of a sitemap has no element among its children.
    RootNotElement,
    /// The root element of a sitemap is neither an index nor a URL set. The
    /// name that was found is given.
    UnknownRoot(String),
    /// The location query could not be built or evaluated.
    Xpath,
    /// The scraper reported an error for a page.
    Scrape(String),
    /// The process received an interrupt signal.
    Interrupt,
    /// The command line names neither or both of a URL and a file pattern.
    Arguments,
}

/// The plain form of a [`CrawlError`]: the texts it carries as sequences of
/// characters.
pub enum Fault {
    Config,
    Robots,
    RobotDelay,
    Network,
    Decode,
    XmlParse,
    RootNotElement,
    UnknownRoot(Seq<char>),
    Xpath,
    Scrape(Seq<char>),
    Interrupt,
    Arguments,
}

impl View for CrawlError {
    type V = Fault;

    open spec fn view(&self) -> Fault {
        match self {
            CrawlError::Config => Fault::Config,
            CrawlError::Robots => Fault::Robots,
            CrawlError::RobotDelay => Fault::RobotDelay,
            CrawlError::Network => Fault::Network,
            CrawlError::Decode => Fault::Decode,
            CrawlError::XmlParse => Fault::XmlParse,
            CrawlError::RootNotElement => Fault::RootNotElement,
            CrawlError::UnknownRoot(name) => Fault::UnknownRoot(name@),
            CrawlError::Xpath => Fault::Xpath,
            CrawlError::Scrape(msg) => Fault::Scrape(msg@),
            CrawlError::Interrupt => Fault::Interrupt,
            CrawlError::Arguments => Fault::Arguments,
        }
    }
}

/// The text shown for a configuration conflict between seed and robot URL.
pub open spec fn config_message() -> Seq<char> {
    "Invalid seed config, cannot use RobotsTxt seed when the robot URL is also configured"@
}

impl Fault {
    /// The one-line description of a failure.
    pub open spec fn text(self) -> Seq<char> {
        match self {
            Fault::Config => config_message(),
            Fault::Robots => "Couldn't read robots.txt"@,
            Fault::RobotDelay => "Robot delay must be > 0.0"@,
            Fault::Network => "Couldn't download"@,
            Fault::Decode => "Couldn't decode the response"@,
            Fault::XmlParse => "Couldn't parse the sitemap"@,
            Fault::RootNotElement => "The root has no element"@,
            Fault::UnknownRoot(name) => "Unknown root node kind: "@ + name,
            Fault::Xpath => "Couldn't evaluate the location query"@,
            Fault::Scrape(msg) => msg,
            Fault::Interrupt => "Interrupted"@,
            Fault::Arguments => "Invalid arguments"@,
        }
    }
}

impl CrawlError {
    /// Says in one line what went wrong. A scraper's failure is reported
    /// in the scraper's own words.
    pub fn to_text(&self) -> (text: String)
        ensures
            text@ == self@.text(),
    {
        match self {
            CrawlError::Config => CrawlError::config_text(),
            CrawlError::Robots => "Couldn't read robots.txt".to_owned(),
            CrawlError::RobotDelay => "Robot delay must be > 0.0".to_owned(),
            CrawlError::Network => "Couldn't download".to_owned(),
            CrawlError::Decode => "Couldn't decode the response".to_owned(),
            CrawlError::XmlParse => "Couldn't parse the sitemap".to_owned(),
            CrawlError::RootNotElement => "The root has no element".to_owned(),
            CrawlError::UnknownRoot(name) => CrawlError::unknown_root_text(name.as_str()),
            CrawlError::Xpath => "Couldn't evaluate the location query".to_owned(),
            CrawlError::Scrape(msg) => msg.clone(),
            CrawlError::Interrupt => "Interrupted".to_owned(),
            CrawlError::Arguments => "Invalid arguments".to_owned(),
        }
    }

    /// True for the kinds that end the run whatever the policies say.
    pub open spec fn always_aborts(self) -> bool {
        self is Config || self is Interrupt
    }

    /// Tells whether this error ends the run whatever the policies say.
    pub fn is_fatal(&self) -> (fatal: bool)
        ensures
            fatal == self.always_aborts(),
    {
        match self {
            CrawlError::Config => true,
            CrawlError::Interrupt => true,
            _ => false,
        }
    }

    /// The one-line description of a root element of an unknown kind.
    pub fn unknown_root_text(name: &str) -> (text: String)
        ensures
            text@ == "Unknown root node kind: "@ + name@,
    {
        let mut text = "Unknown root node kind: ".to_owned();
        text.append(name);
        text
    }

    /// The one-line description of a configuration conflict.
    pub fn config_text() -> (text: String)
        ensures
            text@ == config_message(),
    {
        "Invalid seed config, cannot use RobotsTxt seed when the robot URL is also configured".to_owned()
    }
}

} // verus!
