//! The crawl template: which links to follow and what to extract from a page.
//!
//! A `CrawlRule` pairs a `Condition` on URLs with a `ParseRule`. The callbacks that
//! turn extracted text into JSON are the user's code and are held beside the rules,
//! outside the library.
use vstd::prelude::*;

use crate::crawler::{parse_url, url_parsed, RequestVec};
use crate::parser::page::views;
use crate::downloader::middleware::{Proxy, UserAgent};
use crate::pipeline::elements::Timestamping;
use crate::print::Print;
use crate::settings::{
    DownloaderMiddlewareSettings, DownloaderMiddlewareType, PipelineElementSettings,
    PipelineElementType, PrintSettings, ProxySettings, Settings, TimestampingSettings,
    UserAgentSettings,
};

verus! {

/// Whether `pattern` compiles as a regular expression.
pub uninterp spec fn regex_valid(pattern: Seq<char>) -> bool;

/// Whether the regular expression `pattern` matches somewhere in `text`, or `None`
/// where it does not compile.
pub uninterp spec fn regex_found(pattern: Seq<char>, text: Seq<char>) -> Option<bool>;

/// Relies on regex's `Regex::new`: whether a pattern compiles depends on the pattern
/// alone.
#[verifier::external_body]
fn regex_compiles(pattern: &str) -> (r: bool)
    ensures
        r == regex_valid(pattern@),
{
    regex::Regex::new(pattern).is_ok()
}

/// Relies on regex's `Regex::new` and `Regex::is_match`: `None` where the pattern does
/// not compile, else whether it matches somewhere in `text`.
#[verifier::external_body]
fn regex_is_match(pattern: &str, text: &str) -> (r: Option<bool>)
    ensures
        r == regex_found(pattern@, text@),
        r is Some <==> regex_valid(pattern@),
{
    let re = regex::Regex::new(pattern).ok()?;
    Some(re.is_match(text))
}

/// Whether some pattern of `patterns` matches somewhere in `text`.
pub open spec fn any_found(patterns: Seq<String>, text: Seq<char>) -> bool {
    exists|i: int| 0 <= i < patterns.len() && regex_found(#[trigger] patterns[i]@, text) == Some(true)
}

/// A condition on URLs: a URL meets it when it matches at least one `allow` pattern
/// and no `deny` pattern. Patterns are searched in the whole absolute URL, scheme
/// included, so a deny pattern `:` rejects every `http://` URL; write `:[A-Za-z]` to
/// reject namespaced paths such as `/wiki/Talk:Cat`.
#[derive(Clone, Debug)]
pub struct Condition {
    allow: Vec<String>,
    deny: Vec<String>,
}

impl Condition {
    pub closed spec fn allow(self) -> Seq<String> {
        self.allow@
    }

    pub closed spec fn deny(self) -> Seq<String> {
        self.deny@
    }

    /// Every pattern compiles.
    pub closed spec fn wf(self) -> bool {
        &&& forall|i: int| 0 <= i < self.allow@.len() ==> regex_valid(#[trigger] self.allow@[i]@)
        &&& forall|i: int| 0 <= i < self.deny@.len() ==> regex_valid(#[trigger] self.deny@[i]@)
    }

    /// Whether `url` meets the condition.
    pub open spec fn admits(self, url: Seq<char>) -> bool {
        any_found(self.allow(), url) && !any_found(self.deny(), url)
    }

    /// The condition with the given patterns, or `None` where one of them does not
    /// compile.
    pub fn new(allow: Vec<&str>, deny: Vec<&str>) -> (r: Option<Self>)
        ensures
            r is Some <==> (forall|i: int| 0 <= i < allow@.len() ==> regex_valid(#[trigger] allow@[i]@))
                && (forall|i: int| 0 <= i < deny@.len() ==> regex_valid(#[trigger] deny@[i]@)),
            r matches Some(c) ==> c.wf() && c.allow().len() == allow@.len() && c.deny().len()
                == deny@.len() && (forall|i: int| 0 <= i < allow@.len() ==> (#[trigger] c.allow()[i])@ == allow@[i]@)
                && (forall|i: int| 0 <= i < deny@.len() ==> (#[trigger] c.deny()[i])@ == deny@[i]@),
    {
        let allow = compile_all(&allow);
        let deny = compile_all(&deny);
        match (allow, deny) {
            (Some(allow), Some(deny)) => Some(Condition { allow, deny }),
            _ => None,
        }
    }

    /// Whether `url` meets the condition.
    pub fn matches(&self, url: &str) -> (r: bool)
        requires
            self.wf(),
        ensures
            r == self.admits(url@),
    {
        found_any(&self.allow, url) && !found_any(&self.deny, url)
    }
}

/// The patterns as owned strings, or `None` where one of them does not compile.
fn compile_all(patterns: &Vec<&str>) -> (r: Option<Vec<String>>)
    ensures
        r is Some <==> forall|i: int| 0 <= i < patterns@.len() ==> regex_valid(#[trigger] patterns@[i]@),
        r matches Some(v) ==> v@.len() == patterns@.len() && forall|i: int|
            0 <= i < patterns@.len() ==> (#[trigger] v@[i])@ == patterns@[i]@,
{
    let mut out: Vec<String> = Vec::new();
    let mut i: usize = 0;
    while i < patterns.len()
        invariant
            i <= patterns@.len(),
            out@.len() == i,
            forall|j: int| 0 <= j < i ==> regex_valid(#[trigger] patterns@[j]@),
            forall|j: int| 0 <= j < i ==> (#[trigger] out@[j])@ == patterns@[j]@,
        decreases patterns@.len() - i,
    {
        if !regex_compiles(patterns[i]) {
            return None;
        }
        out.push(patterns[i].to_owned());
        i = i + 1;
    }
    Some(out)
}

/// Whether some pattern of `patterns`, all of which compile, matches in `text`.
fn found_any(patterns: &Vec<String>, text: &str) -> (r: bool)
    requires
        forall|i: int| 0 <= i < patterns@.len() ==> regex_valid(#[trigger] patterns@[i]@),
    ensures
        r == any_found(patterns@, text@),
{
    let mut i: usize = 0;
    while i < patterns.len()
        invariant
            i <= patterns@.len(),
            forall|i: int| 0 <= i < patterns@.len() ==> regex_valid(#[trigger] patterns@[i]@),
            forall|j: int| 0 <= j < i ==> regex_found(#[trigger] patterns@[j]@, text@) != Some(true),
        decreases patterns@.len() - i,
    {
        let m = regex_is_match(patterns[i].as_str(), text);
        if let Some(true) = m {
            return true;
        }
        i = i + 1;
    }
    false
}

/// The URLs of `urls` that meet `cnd`, in order.
pub open spec fn kept(cnd: Condition, urls: Seq<String>) -> Seq<String>
    decreases urls.len(),
{
    if urls.len() == 0 {
        Seq::empty()
    } else {
        let before = kept(cnd, urls.drop_last());
        if cnd.admits(urls.last()@) {
            before.push(urls.last())
        } else {
            before
        }
    }
}

/// Keeps the URLs that meet the condition, in order.
pub fn filter_urls(cnd: &Condition, urls: Vec<String>) -> (r: Vec<String>)
    requires
        cnd.wf(),
    ensures
        r@ == kept(*cnd, urls@),
{
    let mut out: Vec<String> = Vec::new();
    let mut i: usize = 0;
    while i < urls.len()
        invariant
            cnd.wf(),
            i <= urls@.len(),
            out@ == kept(*cnd, urls@.subrange(0, i as int)),
        decreases urls@.len() - i,
    {
        assert(urls@.subrange(0, i + 1).drop_last() == urls@.subrange(0, i as int));
        if cnd.matches(urls[i].as_str()) {
            out.push(urls[i].clone());
        }
        i = i + 1;
    }
    assert(urls@.subrange(0, urls@.len() as int) == urls@);
    out
}

/// The ways of extracting text from a page.
#[derive(Clone, Debug)]
pub enum Pattern {
    /// The text of the elements that a CSS selector picks.
    CssSelector(String),
    /// The matches of a regular expression in the serialized page.
    Regex(String),
}

/// Extraction of one field: the pattern whose matches the user's callback turns
/// into the field's value.
#[derive(Clone, Debug)]
pub struct ParsePattern {
    /// The record field that receives the callback's value.
    pub field: String,
    /// What to extract from the page.
    pub pattern: Pattern,
}

/// What a rule does with a page.
#[derive(Clone, Debug)]
pub enum ParseRule {
    /// Keep only the discovered links that meet the rule's condition.
    FilterUrls,
    /// Hand the whole page to the user's callback; each value it returns is a record.
    Page,
    /// Extract one field of the page's record, where the page's own URL meets the
    /// rule's condition.
    Pattern(ParsePattern),
}

impl ParseRule {
    /// A rule that hands the page to a callback.
    pub fn callback() -> (r: Self)
        ensures
            r is Page,
    {
        ParseRule::Page
    }

    /// A rule that extracts `field` with `pattern`.
    pub fn pattern(field: &str, pattern: Pattern) -> (r: Self)
        ensures
            r matches ParseRule::Pattern(p) && p.field@ == field@ && p.pattern == pattern,
    {
        ParseRule::Pattern(ParsePattern { field: field.to_owned(), pattern })
    }
}

/// A condition on URLs and what to do where it holds.
#[derive(Clone, Debug)]
pub struct CrawlRule {
    pub condition: Condition,
    pub parse_rule: ParseRule,
}

/// A downloader middleware that the settings enable.
pub enum Middleware {
    UserAgent(UserAgent),
    Proxy(Proxy),
    Print(Print),
}

/// A pipeline element that the settings enable.
pub enum Element {
    Timestamping(Timestamping),
    Print(Print),
}

/// A crawl that cannot start as configured.
#[derive(Debug, PartialEq, Eq, Structural)]
pub enum ConfigError {
    /// The proxy middleware is enabled with no proxy at all.
    EmptyProxyPool,
    /// The proxy middleware is enabled with a proxy URL that does not parse.
    InvalidProxyUrl,
}

/// Both proxy pools are empty.
pub open spec fn pools_empty(p: ProxySettings) -> bool {
    p.http@.len() == 0 && p.https@.len() == 0
}

/// Every URL of `urls` parses.
pub open spec fn all_parse(urls: Seq<String>) -> bool {
    forall|i: int| 0 <= i < urls.len() ==> url_parsed(#[trigger] urls[i]@) is Some
}

/// `parsed` holds each URL of `urls` parsed and serialized.
pub open spec fn parsed_from(parsed: Seq<String>, urls: Seq<String>) -> bool {
    parsed.len() == urls.len() && forall|i: int| 0 <= i < urls.len() ==> url_parsed(#[trigger] urls[i]@) == Some(parsed[i]@)
}

/// What enabling the proxy middleware with `p` gives: an error where both pools are
/// empty, or else where a proxy URL does not parse.
pub open spec fn proxy_error(p: ProxySettings) -> Option<ConfigError> {
    if pools_empty(p) {
        Some(ConfigError::EmptyProxyPool)
    } else if !(all_parse(p.http@) && all_parse(p.https@)) {
        Some(ConfigError::InvalidProxyUrl)
    } else {
        None
    }
}

/// Each URL parsed and serialized; `None` where one does not parse.
fn parse_all(urls: &Vec<String>) -> (r: Option<Vec<String>>)
    ensures
        r is Some <==> all_parse(urls@),
        r matches Some(v) ==> parsed_from(v@, urls@),
{
    let mut out: Vec<String> = Vec::new();
    let mut i: usize = 0;
    while i < urls.len()
        invariant
            i <= urls@.len(),
            out@.len() == i,
            forall|j: int| 0 <= j < i ==> url_parsed(#[trigger] urls@[j]@) == Some(out@[j]@),
        decreases urls@.len() - i,
    {
        match parse_url(urls[i].as_str()) {
            Some(u) => out.push(u),
            None => return None,
        }
        i = i + 1;
    }
    Some(out)
}

/// `m` is the middleware of type `t` built from `s`.
pub open spec fn middleware_from(t: DownloaderMiddlewareType, s: DownloaderMiddlewareSettings, m: Middleware) -> bool {
    match t {
        DownloaderMiddlewareType::UserAgent => m matches Middleware::UserAgent(u) && u.value@ == s.user_agent.value@,
        DownloaderMiddlewareType::Proxy => m matches Middleware::Proxy(p) && parsed_from(p.http@, s.proxy.http@)
            && parsed_from(p.https@, s.proxy.https@),
        DownloaderMiddlewareType::Print => m matches Middleware::Print(p) && p.max_len == s.print.max_len,
    }
}

/// `e` is the element of type `t` built from `s`.
pub open spec fn element_from(t: PipelineElementType, s: PipelineElementSettings, e: Element) -> bool {
    match t {
        PipelineElementType::Timestamping => e matches Element::Timestamping(ts) && ts.offset
            == s.timestamping.offset && crate::pipeline::elements::timestamping::is_format_named(
            ts.format,
            s.timestamping.format@,
        ) && ts.field@ == s.timestamping.field@,
        PipelineElementType::Print => e matches Element::Print(p) && p.max_len == s.print.max_len,
    }
}

/// The middleware that the settings enable, in the order listed, proxy URLs parsed;
/// an error where the proxy middleware is enabled with no proxy, or with a proxy URL
/// that does not parse.
pub fn configured_middleware(types: &Vec<DownloaderMiddlewareType>, s: &DownloaderMiddlewareSettings) -> (r: Result<Vec<Middleware>, ConfigError>)
    ensures
        r is Err <==> (types@.contains(DownloaderMiddlewareType::Proxy) && proxy_error(s.proxy) is Some),
        r matches Err(e) ==> proxy_error(s.proxy) == Some(e),
        r matches Ok(ms) ==> ms@.len() == types@.len() && forall|i: int|
            0 <= i < types@.len() ==> middleware_from(types@[i], *s, #[trigger] ms@[i]),
{
    let mut out: Vec<Middleware> = Vec::new();
    let mut i: usize = 0;
    while i < types.len()
        invariant
            i <= types@.len(),
            out@.len() == i,
            forall|j: int| 0 <= j < i ==> middleware_from(types@[j], *s, #[trigger] out@[j]),
            !(types@.subrange(0, i as int).contains(DownloaderMiddlewareType::Proxy) && proxy_error(s.proxy) is Some),
        decreases types@.len() - i,
    {
        assert(types@.subrange(0, i + 1) == types@.subrange(0, i as int).push(types@[i as int]));
        let m = match types[i] {
            DownloaderMiddlewareType::UserAgent => Middleware::UserAgent(
                UserAgent::from_settings(UserAgentSettings { value: s.user_agent.value.clone() }),
            ),
            DownloaderMiddlewareType::Proxy => {
                assert(types@[i as int] == DownloaderMiddlewareType::Proxy);
                if s.proxy.http.len() == 0 && s.proxy.https.len() == 0 {
                    return Err(ConfigError::EmptyProxyPool);
                }
                let http = parse_all(&s.proxy.http);
                let https = parse_all(&s.proxy.https);
                match (http, https) {
                    (Some(http), Some(https)) => Middleware::Proxy(Proxy::from_settings(ProxySettings { http, https })),
                    _ => {
                        return Err(ConfigError::InvalidProxyUrl);
                    },
                }
            },
            DownloaderMiddlewareType::Print => Middleware::Print(
                Print::from_settings(PrintSettings { max_len: s.print.max_len }),
            ),
        };
        out.push(m);
        i = i + 1;
    }
    assert(types@.subrange(0, types@.len() as int) == types@);
    Ok(out)
}

/// The pipeline elements that the settings enable, in the order listed.
pub fn configured_elements(types: &Vec<PipelineElementType>, s: &PipelineElementSettings) -> (r: Vec<Element>)
    ensures
        r@.len() == types@.len(),
        forall|i: int| 0 <= i < types@.len() ==> element_from(types@[i], *s, #[trigger] r@[i]),
{
    let mut out: Vec<Element> = Vec::new();
    let mut i: usize = 0;
    while i < types.len()
        invariant
            i <= types@.len(),
            out@.len() == i,
            forall|j: int| 0 <= j < i ==> element_from(types@[j], *s, #[trigger] out@[j]),
        decreases types@.len() - i,
    {
        let e = match types[i] {
            PipelineElementType::Timestamping => Element::Timestamping(
                Timestamping::from_settings(TimestampingSettings {
                    offset: s.timestamping.offset,
                    format: s.timestamping.format.clone(),
                    field: s.timestamping.field.clone(),
                }),
            ),
            PipelineElementType::Print => Element::Print(
                Print::from_settings(PrintSettings { max_len: s.print.max_len }),
            ),
        };
        out.push(e);
        i = i + 1;
    }
    out
}

/// Builds a `Spider`.
pub struct SpiderBuilder {
    /// The requests that start the crawl.
    pub start_requests: RequestVec,
    /// The settings of the crawl.
    pub settings: Settings,
    /// The rules for filtering links and extracting data, in order.
    pub crawl_rules: Vec<CrawlRule>,
}

impl Default for SpiderBuilder {
    fn default() -> (r: Self)
        ensures
            r.start_requests.requests@.len() == 0,
            r.crawl_rules@.len() == 0,
    {
        SpiderBuilder { start_requests: RequestVec::new(Vec::new()), settings: Settings::default(), crawl_rules: Vec::new() }
    }
}

impl SpiderBuilder {
    /// Sets the spider's name.
    pub fn name(self, name: &str) -> (r: Self)
        ensures
            r.settings.spider.name@ == name@,
            r.settings.spider.version == self.settings.spider.version,
            r.start_requests == self.start_requests,
            r.crawl_rules == self.crawl_rules,
    {
        let mut b = self;
        b.settings.spider.name = name.to_owned();
        b
    }

    /// Sets the spider's version.
    pub fn version(self, version: &str) -> (r: Self)
        ensures
            r.settings.spider.version@ == version@,
            r.settings.spider.name == self.settings.spider.name,
            r.start_requests == self.start_requests,
            r.crawl_rules == self.crawl_rules,
    {
        let mut b = self;
        b.settings.spider.version = version.to_owned();
        b
    }

    /// Sets the start URLs: requests at depth 0 with priority 1; `None` where a URL
    /// does not parse.
    pub fn start_urls(self, urls: Vec<&str>) -> (r: Option<Self>)
        ensures
            r is Some <==> forall|i: int| 0 <= i < urls@.len() ==> url_parsed(#[trigger] urls@[i]@) is Some,
            r matches Some(b) ==> b.start_requests.requests@.len() == urls@.len() && (forall|i: int|
                0 <= i < urls@.len() ==> Some((#[trigger] b.start_requests.requests@[i]).url@)
                    == url_parsed(urls@[i]@) && b.start_requests.requests@[i].depth == 0
                    && b.start_requests.requests@[i].priority == 1) && b.crawl_rules == self.crawl_rules,
    {
        match RequestVec::from_strs(urls, 0, 1) {
            Some(reqs) => {
                let mut b = self;
                b.start_requests = reqs;
                Some(b)
            },
            None => None,
        }
    }

    /// Sets the settings.
    pub fn settings(self, settings: Settings) -> (r: Self)
        ensures
            r.settings == settings,
            r.start_requests == self.start_requests,
            r.crawl_rules == self.crawl_rules,
    {
        let mut b = self;
        b.settings = settings;
        b
    }

    /// Adds a crawl rule after those already added.
    pub fn crawl_rule(self, condition: Condition, parse_rule: ParseRule) -> (r: Self)
        ensures
            r.crawl_rules@ == self.crawl_rules@.push(CrawlRule { condition, parse_rule }),
            r.settings == self.settings,
            r.start_requests == self.start_requests,
    {
        let mut b = self;
        b.crawl_rules.push(CrawlRule { condition, parse_rule });
        b
    }

    /// The spider with everything set so far, and the middleware and pipeline
    /// elements that its settings enable; an error where they cannot be built.
    pub fn build(self) -> (r: Result<Spider, ConfigError>)
        ensures
            r is Err <==> (self.settings.downloader.middleware_list@.contains(DownloaderMiddlewareType::Proxy)
                && proxy_error(self.settings.downloader.middleware.proxy) is Some),
            r matches Err(e) ==> proxy_error(self.settings.downloader.middleware.proxy) == Some(e),
            r matches Ok(sp) ==> {
                &&& sp.start_requests == self.start_requests
                &&& sp.settings == self.settings
                &&& sp.crawl_rules == self.crawl_rules
                &&& sp.middleware@.len() == self.settings.downloader.middleware_list@.len()
                &&& forall|i: int| 0 <= i < sp.middleware@.len() ==> middleware_from(
                    self.settings.downloader.middleware_list@[i],
                    self.settings.downloader.middleware,
                    #[trigger] sp.middleware@[i],
                )
                &&& sp.elements@.len() == self.settings.pipeline.element_list@.len()
                &&& forall|i: int| 0 <= i < sp.elements@.len() ==> element_from(
                    self.settings.pipeline.element_list@[i],
                    self.settings.pipeline.element,
                    #[trigger] sp.elements@[i],
                )
            },
    {
        let middleware = configured_middleware(&self.settings.downloader.middleware_list, &self.settings.downloader.middleware);
        match middleware {
            Ok(middleware) => {
                let elements = configured_elements(&self.settings.pipeline.element_list, &self.settings.pipeline.element);
                Ok(Spider {
                    start_requests: self.start_requests,
                    settings: self.settings,
                    crawl_rules: self.crawl_rules,
                    middleware,
                    elements,
                })
            },
            Err(e) => Err(e),
        }
    }
}

/// Everything that defines a crawl, as built by a `SpiderBuilder`.
pub struct Spider {
    pub start_requests: RequestVec,
    pub settings: Settings,
    pub crawl_rules: Vec<CrawlRule>,
    /// The downloader middleware that the settings enable, in order.
    pub middleware: Vec<Middleware>,
    /// The pipeline elements that the settings enable, in order.
    pub elements: Vec<Element>,
}

impl Spider {
    pub fn name(&self) -> (r: &String)
        ensures
            r == self.settings.spider.name,
    {
        &self.settings.spider.name
    }

    pub fn version(&self) -> (r: &String)
        ensures
            r == self.settings.spider.version,
    {
        &self.settings.spider.version
    }

    pub fn start_requests(&self) -> (r: &RequestVec)
        ensures
            r == self.start_requests,
    {
        &self.start_requests
    }

    pub fn settings(&self) -> (r: &Settings)
        ensures
            r == self.settings,
    {
        &self.settings
    }

    pub fn crawl_rules(&self) -> (r: &Vec<CrawlRule>)
        ensures
            r == self.crawl_rules,
    {
        &self.crawl_rules
    }

    pub fn downloader_middleware(&self) -> (r: &Vec<Middleware>)
        ensures
            r == self.middleware,
    {
        &self.middleware
    }

    pub fn pipeline_elements(&self) -> (r: &Vec<Element>)
        ensures
            r == self.elements,
    {
        &self.elements
    }
}

} // verus!
