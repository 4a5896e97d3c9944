//! Settings as read from a user's file: every field may be left out, and a field that
//! is given replaces the default.
use vstd::prelude::*;

use crate::settings::{
    CrawlStrategy, DownloaderMiddlewareType, PipelineElementType, PrintSettings, ProxySettings,
    TimestampingSettings, UserAgentSettings,
};

verus! {

/// User settings by component.
#[derive(Clone, Debug)]
pub struct Settings {
    pub spider: Option<SpiderSettings>,
    pub scheduler: Option<SchedulerSettings>,
    pub downloader: Option<DownloaderSettings>,
    pub parser: Option<ParserSettings>,
    pub pipeline: Option<PipelineSettings>,
}

/// User spider settings.
#[derive(Clone, Debug)]
pub struct SpiderSettings {
    pub name: Option<String>,
    pub version: Option<String>,
}

/// User scheduler settings.
#[derive(Clone, Debug)]
pub struct SchedulerSettings {
    pub download_delay: Option<u64>,
    pub concurrent_requests: Option<usize>,
}

/// User downloader settings.
#[derive(Clone, Debug)]
pub struct DownloaderSettings {
    pub middleware_list: Option<Vec<DownloaderMiddlewareType>>,
    pub middleware: Option<DownloaderMiddlewareSettings>,
}

/// User downloader middleware settings.
#[derive(Clone, Debug)]
pub struct DownloaderMiddlewareSettings {
    pub proxy: Option<ProxySettings>,
    pub user_agent: Option<UserAgentSettings>,
    pub print: Option<PrintSettings>,
}

/// User parser settings.
#[derive(Clone, Debug)]
pub struct ParserSettings {
    pub crawl_strategy: Option<CrawlStrategy>,
}

/// User pipeline settings.
#[derive(Clone, Debug)]
pub struct PipelineSettings {
    pub pipeline_list: Option<Vec<PipelineElementType>>,
    pub element: Option<PipelineElementSettings>,
}

/// User pipeline element settings.
#[derive(Clone, Debug)]
pub struct PipelineElementSettings {
    pub timestamping: Option<TimestampingSettings>,
    pub print: Option<PrintSettings>,
}

} // verus!
