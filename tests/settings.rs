use vortex::crawler::Record;
use vortex::downloader::middleware::proxy::ProxyScheme;
use vortex::downloader::middleware::{Proxy, UserAgent};
use vortex::pipeline::elements::{TimeFormat, TimeOffset, Timestamping};
use vortex::print::Print;
use vortex::settings::{
    custom, CrawlStrategy, DownloaderMiddlewareType, PipelineElementType, PrintSettings, ProxySettings, Settings, TimestampingSettings, UserAgentSettings,
};
use vortex::spider::{ConfigError, Element, Middleware, SpiderBuilder};

#[test]
fn override_replaces_given_fields_only() {
    let base = Settings::default();
    let user = custom::Settings {
        spider: Some(custom::SpiderSettings { name: Some("wiki".to_string()), version: None }),
        scheduler: Some(custom::SchedulerSettings { download_delay: None, concurrent_requests: Some(4) }),
        downloader: None,
        parser: Some(custom::ParserSettings { crawl_strategy: Some(CrawlStrategy::DFO) }),
        pipeline: None,
    };
    let s = base.clone().override_values(user);
    assert_eq!(s.spider.name, "wiki");
    assert_eq!(s.spider.version, base.spider.version);
    assert_eq!(s.scheduler.concurrent_requests, 4);
    assert_eq!(s.scheduler.download_delay, base.scheduler.download_delay);
    assert_eq!(s.parser.crawl_strategy, CrawlStrategy::DFO);
}

#[test]
fn default_settings() {
    let s = Settings::default();
    assert_eq!(s.scheduler.download_delay, 1000);
    assert_eq!(s.scheduler.concurrent_requests, 1);
    assert_eq!(s.parser.crawl_strategy, CrawlStrategy::BFO);
    assert!(s.downloader.middleware_list.is_empty());
}

#[test]
fn timestamping_from_settings_reads_format_names() {
    let t = |f: &str| {
        Timestamping::from_settings(TimestampingSettings {
            offset: TimeOffset::Local,
            format: f.to_string(),
            field: "at".to_string(),
        })
    };
    assert!(matches!(t("Rfc2822").format, TimeFormat::Rfc2822));
    assert!(matches!(t("Rfc3339").format, TimeFormat::Rfc3339));
    assert!(matches!(t("Timestamp").format, TimeFormat::Timestamp));
    assert!(matches!(t("TimestampMs").format, TimeFormat::TimestampMs));
    assert!(matches!(t("%D").format, TimeFormat::Format(ref f) if f == "%D"));
    assert_eq!(t("Timestamp").field, "at");
    assert_eq!(t("Timestamp").offset, TimeOffset::Local);
}

#[test]
fn timestamping_constructors() {
    let mut t = Timestamping::with_offset(TimeOffset::Local);
    assert_eq!(t.field, "timestamp");
    assert!(matches!(t.format, TimeFormat::Timestamp));
    t.set_field("when");
    assert_eq!(t.field, "when");
    let t = Timestamping::with_format(TimeFormat::Rfc3339);
    assert_eq!(t.offset, TimeOffset::Utc);
}

#[test]
fn middleware_and_print_from_settings() {
    assert_eq!(UserAgent::new("bot").value, "bot");
    assert_eq!(UserAgent::from_settings(UserAgentSettings { value: "b2".to_string() }).value, "b2");
    assert_eq!(Print::new(7).max_len, 7);
    assert_eq!(Print::from_settings(PrintSettings { max_len: 3 }).max_len, 3);
}

#[test]
fn spider_builder_sets_start_requests() {
    let spider = SpiderBuilder::default()
        .name("wiki")
        .version("2")
        .start_urls(vec!["http://en.wikipedia.org"])
        .unwrap()
        .build()
        .unwrap();
    assert_eq!(spider.name(), "wiki");
    assert_eq!(spider.version(), "2");
    let reqs = &spider.start_requests().requests;
    assert_eq!(reqs.len(), 1);
    assert_eq!(reqs[0].url, "http://en.wikipedia.org/");
    assert_eq!(reqs[0].depth, 0);
    assert_eq!(reqs[0].priority, 1);
    assert!(SpiderBuilder::default().start_urls(vec!["not a url"]).is_none());
}

#[test]
fn proxy_picks_from_the_pool_of_the_scheme() {
    let p = Proxy::from_settings(ProxySettings { http: vec!["http://p1:8080".to_string()], https: vec![] })
        .add_https("http://p2:8080")
        .add_https("http://p3:8080");
    assert_eq!(p.pick("http://x/"), Some((ProxyScheme::Http, "http://p1:8080".to_string())));
    let (k, s) = p.pick("https://x/").unwrap();
    assert_eq!(k, ProxyScheme::Https);
    assert!(s == "http://p2:8080" || s == "http://p3:8080");
    assert_eq!(p.pick("ftp://x/"), None);
    assert_eq!(p.pick("not a url"), None);
    let empty = Proxy::from_settings(ProxySettings { http: vec![], https: vec![] });
    assert_eq!(empty.pick("http://x/"), None);
}

#[test]
fn settings_enable_middleware_and_elements_in_order() {
    let mut settings = Settings::default();
    settings.downloader.middleware_list =
        vec![DownloaderMiddlewareType::Print, DownloaderMiddlewareType::UserAgent, DownloaderMiddlewareType::Proxy];
    settings.downloader.middleware.user_agent.value = "bot/1".to_string();
    settings.downloader.middleware.print.max_len = 9;
    settings.pipeline.element_list = vec![PipelineElementType::Timestamping, PipelineElementType::Print];
    settings.pipeline.element.timestamping.format = "Rfc3339".to_string();

    let empty_pool = SpiderBuilder::default().settings(settings.clone()).build();
    assert_eq!(empty_pool.err(), Some(ConfigError::EmptyProxyPool));

    settings.downloader.middleware.proxy.https = vec!["not a url".to_string()];
    let bad_url = SpiderBuilder::default().settings(settings.clone()).build();
    assert_eq!(bad_url.err(), Some(ConfigError::InvalidProxyUrl));

    settings.downloader.middleware.proxy.https = vec!["http://p:1".to_string()];
    let spider = SpiderBuilder::default().settings(settings).build().unwrap();
    let m = spider.downloader_middleware();
    assert_eq!(m.len(), 3);
    assert!(matches!(&m[0], Middleware::Print(p) if p.max_len == 9));
    assert!(matches!(&m[1], Middleware::UserAgent(u) if u.value == "bot/1"));
    assert!(matches!(&m[2], Middleware::Proxy(p) if p.https == vec!["http://p:1/".to_string()] && p.http.is_empty()));
    let e = spider.pipeline_elements();
    assert_eq!(e.len(), 2);
    assert!(matches!(&e[0], Element::Timestamping(t) if matches!(t.format, TimeFormat::Rfc3339)));
    assert!(matches!(&e[1], Element::Print(p) if p.max_len == 0));
}

#[test]
fn record_keeps_each_field_once_with_its_last_value() {
    let mut r = Record::new();
    assert!(r.is_empty());
    r.insert("a".to_string(), serde_json::Value::from(1));
    r.insert("b".to_string(), serde_json::Value::from(2));
    r.insert("a".to_string(), serde_json::Value::from(3));
    assert_eq!(
        r.fields(),
        &vec![("a".to_string(), serde_json::Value::from(3)), ("b".to_string(), serde_json::Value::from(2))]
    );
}
