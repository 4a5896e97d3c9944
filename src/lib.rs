//! Vortex: a web crawling framework.
//!
//! The library holds the crawl logic: the request queue with its visited set,
//! the scheduler's admission decisions, the downloader's counters, the parser's
//! rule engine and link priorities, the pipeline's element chain and the
//! settings. Actors, timers and the HTTP transport live around it.
use vstd::prelude::*;

pub mod crawler;
pub mod downloader;
pub mod parser;
pub mod pipeline;
pub mod print;
pub mod scheduler;
pub mod settings;
pub mod spider;
pub mod stats;

verus! {

} // verus!
