//! A sitemap-driven crawler and scraper engine.
//!
//! The crate holds the decisions of the crawl pipeline: how a run starts, how a
//! sitemap turns into page URLs, which downloads may begin, what a worker does
//! with a page, and when the run is over. Every function carries a contract
//! that Verus proves. Network, threads and files are left to the caller, who
//! reports what happened and gets the next action back.

pub mod cli;
pub mod config;
pub mod download;
pub mod error;
pub mod iter;
pub mod limiter;
pub mod robots;
pub mod scrapable;
pub mod shape;
pub mod sitemap;
pub mod supervisor;
pub mod text;
pub mod tree;
pub mod worker;
pub mod writer;

pub use cli::{crawl, scrap, scrap_page, CrawlArgs, LuaScraperConfig, ScrapArgs};
pub use config::{CrawlerConfig, OnError, Throttle};
pub use error::CrawlError;
pub use scrapable::{
    CountedTx, CrawlingContext, Page, PageLocation, Scrapable, ScrapingContext, Seed, Sitemap,
};
pub use tree::{Node, NodeId, NodeRef, Tree};
