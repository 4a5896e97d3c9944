//! Settings that define the crawler's behaviour.
use vstd::prelude::*;

use crate::pipeline::elements::TimeOffset;

pub mod custom;

verus! {

/// The downloader middleware that settings can enable.
#[derive(Clone, Copy, Debug, PartialEq, Eq, Structural)]
pub enum DownloaderMiddlewareType {
    /// Sets the User-Agent header.
    UserAgent,
    /// Routes requests through a proxy.
    Proxy,
    /// Prints requests and responses for debugging.
    Print,
}

/// Predefined crawl strategies.
#[derive(Clone, Copy, Debug, PartialEq, Eq, Structural)]
pub enum CrawlStrategy {
    /// Breadth first order: shallow links first.
    BFO,
    /// Depth first order: deep links first.
    DFO,
    /// Arbitrary FIFO order: no priority.
    Basic,
}

/// The pipeline elements that settings can enable.
#[derive(Clone, Copy, Debug, PartialEq, Eq, Structural)]
pub enum PipelineElementType {
    /// Adds a timestamp to each item.
    Timestamping,
    /// Prints each item.
    Print,
}

/// Settings by component.
#[derive(Clone, Debug)]
pub struct Settings {
    pub spider: SpiderSettings,
    pub scheduler: SchedulerSettings,
    pub downloader: DownloaderSettings,
    pub parser: ParserSettings,
    pub pipeline: PipelineSettings,
}

/// Spider settings.
#[derive(Clone, Debug)]
pub struct SpiderSettings {
    /// Name of the spider.
    pub name: String,
    /// Version of the spider.
    pub version: String,
}

/// Scheduler settings.
#[derive(Clone, Debug)]
pub struct SchedulerSettings {
    /// Milliseconds between the scheduler's ticks, and the least spacing between two
    /// dispatches.
    pub download_delay: u64,
    /// How many requests may be in flight at the downloader at once.
    pub concurrent_requests: usize,
}

/// Downloader settings.
#[derive(Clone, Debug)]
pub struct DownloaderSettings {
    /// The middleware to enable, in order.
    pub middleware_list: Vec<DownloaderMiddlewareType>,
    /// Settings of each middleware.
    pub middleware: DownloaderMiddlewareSettings,
}

/// Settings of each downloader middleware.
#[derive(Clone, Debug)]
pub struct DownloaderMiddlewareSettings {
    pub proxy: ProxySettings,
    pub user_agent: UserAgentSettings,
    pub print: PrintSettings,
}

/// Proxy middleware settings.
#[derive(Clone, Debug)]
pub struct ProxySettings {
    /// Proxies for http URLs, picked at random.
    pub http: Vec<String>,
    /// Proxies for https URLs, picked at random.
    pub https: Vec<String>,
}

/// User-Agent middleware settings.
#[derive(Clone, Debug)]
pub struct UserAgentSettings {
    /// The User-Agent header value.
    pub value: String,
}

/// Print settings.
#[derive(Clone, Debug)]
pub struct PrintSettings {
    /// The longest field printed in full; 0 prints every field in full.
    pub max_len: usize,
}

/// Parser settings.
#[derive(Clone, Debug)]
pub struct ParserSettings {
    pub crawl_strategy: CrawlStrategy,
}

/// Pipeline settings.
#[derive(Clone, Debug)]
pub struct PipelineSettings {
    /// The elements to enable, in order.
    pub element_list: Vec<PipelineElementType>,
    /// Settings of each element.
    pub element: PipelineElementSettings,
}

/// Settings of each pipeline element.
#[derive(Clone, Debug)]
pub struct PipelineElementSettings {
    pub timestamping: TimestampingSettings,
    pub print: PrintSettings,
}

/// Timestamping settings.
#[derive(Clone, Debug)]
pub struct TimestampingSettings {
    /// The time zone of the timestamp.
    pub offset: TimeOffset,
    /// `Rfc2822`, `Rfc3339`, `Timestamp`, `TimestampMs`, or a strftime format string.
    pub format: String,
    /// The item field that receives the timestamp.
    pub field: String,
}

impl Default for Settings {
    /// A breadth first crawl with one request in flight, a second between dispatches,
    /// and no middleware or pipeline elements enabled.
    fn default() -> (r: Self)
        ensures
            r.spider.name@ == "vortex"@,
            r.scheduler.download_delay == 1000,
            r.scheduler.concurrent_requests == 1,
            r.downloader.middleware_list@.len() == 0,
            r.parser.crawl_strategy == CrawlStrategy::BFO,
            r.pipeline.element_list@.len() == 0,
    {
        Settings {
            spider: SpiderSettings { name: "vortex".to_owned(), version: "0.1.0".to_owned() },
            scheduler: SchedulerSettings { download_delay: 1000, concurrent_requests: 1 },
            downloader: DownloaderSettings {
                middleware_list: Vec::new(),
                middleware: DownloaderMiddlewareSettings {
                    proxy: ProxySettings { http: Vec::new(), https: Vec::new() },
                    user_agent: UserAgentSettings { value: "vortex".to_owned() },
                    print: PrintSettings { max_len: 0 },
                },
            },
            parser: ParserSettings { crawl_strategy: CrawlStrategy::BFO },
            pipeline: PipelineSettings {
                element_list: Vec::new(),
                element: PipelineElementSettings {
                    timestamping: TimestampingSettings {
                        offset: TimeOffset::Utc,
                        format: "Timestamp".to_owned(),
                        field: "timestamp".to_owned(),
                    },
                    print: PrintSettings { max_len: 0 },
                },
            },
        }
    }
}

/// `value` if it is given, else `current`.
pub open spec fn overridden<T>(current: T, value: Option<T>) -> T {
    match value {
        Some(v) => v,
        None => current,
    }
}

impl Settings {
    /// Replaces each component's settings with those that `settings` gives.
    pub fn override_values(self, settings: custom::Settings) -> (r: Self)
        ensures
            match settings.spider {
                Some(p) => r.spider.overridden_by(self.spider, p),
                None => r.spider == self.spider,
            },
            match settings.scheduler {
                Some(p) => r.scheduler.overridden_by(self.scheduler, p),
                None => r.scheduler == self.scheduler,
            },
            match settings.downloader {
                Some(p) => r.downloader.overridden_by(self.downloader, p),
                None => r.downloader == self.downloader,
            },
            match settings.parser {
                Some(p) => r.parser.overridden_by(self.parser, p),
                None => r.parser == self.parser,
            },
            match settings.pipeline {
                Some(p) => r.pipeline.overridden_by(self.pipeline, p),
                None => r.pipeline == self.pipeline,
            },
    {
        let mut s = self;
        if let Some(p) = settings.spider {
            s.spider.override_values(p);
        }
        if let Some(p) = settings.scheduler {
            s.scheduler.override_values(p);
        }
        if let Some(p) = settings.downloader {
            s.downloader.override_values(p);
        }
        if let Some(p) = settings.parser {
            s.parser.override_values(p);
        }
        if let Some(p) = settings.pipeline {
            s.pipeline.override_values(p);
        }
        s
    }
}

impl SpiderSettings {
    /// `self` is `before` with the fields that `p` gives replaced.
    pub open spec fn overridden_by(self, before: Self, p: custom::SpiderSettings) -> bool {
        self.name == overridden(before.name, p.name) && self.version == overridden(
            before.version,
            p.version,
        )
    }

    /// Replaces the fields that `settings` gives.
    pub fn override_values(&mut self, settings: custom::SpiderSettings)
        ensures
            final(self).overridden_by(*old(self), settings),
    {
        if let Some(v) = settings.name {
            self.name = v;
        }
        if let Some(v) = settings.version {
            self.version = v;
        }
    }
}

impl SchedulerSettings {
    /// `self` is `before` with the fields that `p` gives replaced.
    pub open spec fn overridden_by(self, before: Self, p: custom::SchedulerSettings) -> bool {
        self.download_delay == overridden(before.download_delay, p.download_delay)
            && self.concurrent_requests == overridden(
            before.concurrent_requests,
            p.concurrent_requests,
        )
    }

    /// Replaces the fields that `settings` gives.
    pub fn override_values(&mut self, settings: custom::SchedulerSettings)
        ensures
            final(self).overridden_by(*old(self), settings),
    {
        if let Some(v) = settings.download_delay {
            self.download_delay = v;
        }
        if let Some(v) = settings.concurrent_requests {
            self.concurrent_requests = v;
        }
    }
}

impl DownloaderSettings {
    /// `self` is `before` with the fields that `p` gives replaced.
    pub open spec fn overridden_by(self, before: Self, p: custom::DownloaderSettings) -> bool {
        &&& self.middleware_list == overridden(before.middleware_list, p.middleware_list)
        &&& match p.middleware {
            Some(m) => self.middleware.overridden_by(before.middleware, m),
            None => self.middleware == before.middleware,
        }
    }

    /// Replaces the fields that `settings` gives.
    pub fn override_values(&mut self, settings: custom::DownloaderSettings)
        ensures
            final(self).overridden_by(*old(self), settings),
    {
        if let Some(v) = settings.middleware_list {
            self.middleware_list = v;
        }
        if let Some(v) = settings.middleware {
            self.middleware.override_values(v);
        }
    }
}

impl DownloaderMiddlewareSettings {
    /// `self` is `before` with the fields that `p` gives replaced.
    pub open spec fn overridden_by(
        self,
        before: Self,
        p: custom::DownloaderMiddlewareSettings,
    ) -> bool {
        &&& self.proxy == overridden(before.proxy, p.proxy)
        &&& self.user_agent == overridden(before.user_agent, p.user_agent)
        &&& self.print == overridden(before.print, p.print)
    }

    /// Replaces the fields that `settings` gives.
    pub fn override_values(&mut self, settings: custom::DownloaderMiddlewareSettings)
        ensures
            final(self).overridden_by(*old(self), settings),
    {
        if let Some(v) = settings.proxy {
            self.proxy = v;
        }
        if let Some(v) = settings.user_agent {
            self.user_agent = v;
        }
        if let Some(v) = settings.print {
            self.print = v;
        }
    }
}

impl ParserSettings {
    /// `self` is `before` with the fields that `p` gives replaced.
    pub open spec fn overridden_by(self, before: Self, p: custom::ParserSettings) -> bool {
        self.crawl_strategy == overridden(before.crawl_strategy, p.crawl_strategy)
    }

    /// Replaces the fields that `settings` gives.
    pub fn override_values(&mut self, settings: custom::ParserSettings)
        ensures
            final(self).overridden_by(*old(self), settings),
    {
        if let Some(v) = settings.crawl_strategy {
            self.crawl_strategy = v;
        }
    }
}

impl PipelineSettings {
    /// `self` is `before` with the fields that `p` gives replaced.
    pub open spec fn overridden_by(self, before: Self, p: custom::PipelineSettings) -> bool {
        &&& self.element_list == overridden(before.element_list, p.pipeline_list)
        &&& match p.element {
            Some(e) => self.element.overridden_by(before.element, e),
            None => self.element == before.element,
        }
    }

    /// Replaces the fields that `settings` gives.
    pub fn override_values(&mut self, settings: custom::PipelineSettings)
        ensures
            final(self).overridden_by(*old(self), settings),
    {
        if let Some(v) = settings.pipeline_list {
            self.element_list = v;
        }
        if let Some(v) = settings.element {
            self.element.override_values(v);
        }
    }
}

impl PipelineElementSettings {
    /// `self` is `before` with the fields that `p` gives replaced.
    pub open spec fn overridden_by(self, before: Self, p: custom::PipelineElementSettings) -> bool {
        &&& self.timestamping == overridden(before.timestamping, p.timestamping)
        &&& self.print == overridden(before.print, p.print)
    }

    /// Replaces the fields that `settings` gives.
    pub fn override_values(&mut self, settings: custom::PipelineElementSettings)
        ensures
            final(self).overridden_by(*old(self), settings),
    {
        if let Some(v) = settings.timestamping {
            self.timestamping = v;
        }
        if let Some(v) = settings.print {
            self.print = v;
        }
    }
}

} // verus!
