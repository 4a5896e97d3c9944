use serde_json::Value;
use vortex::crawler::{ItemData, Request, Response};
use vortex::parser::{Extraction, Outcome, Page, Parser};
use vortex::settings::CrawlStrategy;
use vortex::spider::{filter_urls, Condition, CrawlRule, ParseRule, Pattern};

fn response(url: &str, depth: u32, body: &str) -> Response {
    let mut res = Response::new(Request::new(url.to_string(), depth, 1));
    res.body = body.to_string();
    res
}

fn title_rule() -> CrawlRule {
    CrawlRule {
        condition: Condition::new(vec!["."], vec![]).unwrap(),
        parse_rule: ParseRule::pattern("title", Pattern::CssSelector(".title".to_string())),
    }
}

/// The item's data as JSON: a record becomes an object.
fn json(data: &ItemData) -> Value {
    match data {
        ItemData::Record(r) => {
            let mut m = serde_json::Map::new();
            for (k, v) in r.fields() {
                m.insert(k.clone(), v.clone());
            }
            Value::Object(m)
        }
        ItemData::Value(v) => v.clone(),
    }
}

fn object(pairs: &[(&str, &str)]) -> Value {
    let mut m = serde_json::Map::new();
    for (k, v) in pairs {
        m.insert(k.to_string(), Value::String(v.to_string()));
    }
    Value::Object(m)
}

/// The pattern callback of the title rule: the first match as a JSON string.
fn first_match(matches: Vec<String>) -> Option<Value> {
    matches.first().map(|s| Value::String(s.clone()))
}

fn outcomes_for(extractions: Vec<Extraction>) -> Vec<Outcome> {
    extractions
        .into_iter()
        .map(|e| match e {
            Extraction::Pattern(m) => first_match(m).map(Outcome::Value).unwrap_or(Outcome::Nothing),
            _ => Outcome::Nothing,
        })
        .collect()
}

#[test]
fn filter_keeps_wiki_articles_only() {
    let cnd = Condition::new(vec!["/wiki/"], vec![":[A-Za-z]"]).unwrap();
    let base = "http://x/";
    let links: Vec<String> = ["/wiki/Cat", "/wiki/Talk:Cat", "/other"]
        .iter()
        .map(|l| vortex::parser::page::normalize_url(base, l).unwrap())
        .collect();
    assert_eq!(filter_urls(&cnd, links), vec!["http://x/wiki/Cat".to_string()]);
}

#[test]
fn bare_colon_deny_rejects_every_absolute_url() {
    let cnd = Condition::new(vec!["/wiki/"], vec![":"]).unwrap();
    let links = vec!["http://x/wiki/Cat".to_string(), "http://x/wiki/Talk:Cat".to_string()];
    assert!(filter_urls(&cnd, links).is_empty());
}

#[test]
fn invalid_pattern_is_refused() {
    assert!(Condition::new(vec!["("], vec![]).is_none());
    assert!(Condition::new(vec!["a"], vec!["[z-a]"]).is_none());
    assert!(Condition::new(vec!["a"], vec!["b"]).is_some());
}

#[test]
fn condition_needs_an_allow_match_and_no_deny_match() {
    let cnd = Condition::new(vec!["a", "b"], vec!["x"]).unwrap();
    assert!(cnd.matches("b"));
    assert!(!cnd.matches("bx"));
    assert!(!cnd.matches("c"));
    let none_allowed = Condition::new(vec![], vec![]).unwrap();
    assert!(!none_allowed.matches("anything"));
}

#[test]
fn end_to_end_single_page() {
    let body = "<html><body><h1 class=\"title\">Cats</h1>\
        <a href=\"http://x/1\">1</a><a href=\"http://x/2\">2</a><a href=\"http://x/3\">3</a>\
        </body></html>";
    let res = response("http://x/", 0, body);
    let parser = Parser::new(vec![title_rule()], CrawlStrategy::BFO);
    let page = Page::from_response(&res);
    let next = parser.next_requests(&res, &page);
    assert_eq!(next.requests.len(), 3);
    for (r, u) in next.requests.iter().zip(["http://x/1", "http://x/2", "http://x/3"]) {
        assert_eq!(r.url, u);
        assert_eq!(r.depth, 1);
        assert_eq!(r.priority, 500_000_000);
    }
    let items = parser.items(&res.request, outcomes_for(parser.extractions(&res, &page)));
    assert_eq!(items.len(), 1);
    assert_eq!(json(&items[0].data), object(&[("title", "Cats")]));
    assert_eq!(items[0].request, res.request);
}

#[test]
fn records_of_two_responses_are_independent() {
    let parser = Parser::new(vec![title_rule()], CrawlStrategy::BFO);
    let a = response("http://x/a", 0, "<p class=\"title\">A</p>");
    let b = response("http://x/b", 0, "<p>no title here</p>");
    let page_a = Page::from_response(&a);
    let page_b = Page::from_response(&b);
    let items_a = parser.items(&a.request, outcomes_for(parser.extractions(&a, &page_a)));
    let items_b = parser.items(&b.request, outcomes_for(parser.extractions(&b, &page_b)));
    assert_eq!(items_a.len(), 1);
    assert_eq!(json(&items_a[0].data), object(&[("title", "A")]));
    assert!(items_b.is_empty());
    let c = response("http://x/c", 0, "<p class=\"title\">C</p>");
    let page_c = Page::from_response(&c);
    let items_c = parser.items(&c.request, outcomes_for(parser.extractions(&c, &page_c)));
    assert_eq!(json(&items_c[0].data), object(&[("title", "C")]));
}

#[test]
fn rules_apply_in_order_and_page_values_are_separate_records() {
    let body = "<a href=\"/wiki/A\">a</a><a href=\"/talk/B\">b</a><span class=\"title\">T</span>";
    let res = response("http://x/wiki/Start", 2, body);
    let rules = vec![
        CrawlRule { condition: Condition::new(vec!["/wiki/"], vec![]).unwrap(), parse_rule: ParseRule::FilterUrls },
        CrawlRule { condition: Condition::new(vec![], vec![]).unwrap(), parse_rule: ParseRule::callback() },
        title_rule(),
        CrawlRule {
            condition: Condition::new(vec!["/nowhere/"], vec![]).unwrap(),
            parse_rule: ParseRule::pattern("skipped", Pattern::Regex("T".to_string())),
        },
    ];
    let parser = Parser::new(rules, CrawlStrategy::DFO);
    let page = Page::from_response(&res);
    let next = parser.next_requests(&res, &page);
    assert_eq!(next.requests.len(), 1);
    assert_eq!(next.requests[0].url, "http://x/wiki/A");
    assert_eq!(next.requests[0].depth, 3);
    assert_eq!(next.requests[0].priority, 750_000_000);
    let ex = parser.extractions(&res, &page);
    assert_eq!(ex.len(), 4);
    assert!(matches!(ex[0], Extraction::Skip));
    assert!(matches!(ex[1], Extraction::Page));
    assert!(matches!(&ex[2], Extraction::Pattern(m) if m == &vec!["T".to_string()]));
    assert!(matches!(ex[3], Extraction::Skip));
    let outcomes = vec![
        Outcome::Nothing,
        Outcome::Values(vec![Value::from(1), Value::from(2)]),
        Outcome::Value(Value::String("T".to_string())),
        Outcome::Nothing,
    ];
    let items = parser.items(&res.request, outcomes);
    assert_eq!(items.len(), 3);
    assert_eq!(json(&items[0].data), object(&[("title", "T")]));
    assert_eq!(json(&items[1].data), Value::from(1));
    assert_eq!(json(&items[2].data), Value::from(2));
}

#[test]
fn later_value_replaces_earlier_under_one_field() {
    let parser = Parser::new(vec![title_rule(), title_rule()], CrawlStrategy::Basic);
    let res = response("http://x/", 0, "");
    let items = parser.items(
        &res.request,
        vec![Outcome::Value(Value::from("first")), Outcome::Value(Value::from("second"))],
    );
    assert_eq!(items.len(), 1);
    assert_eq!(json(&items[0].data), object(&[("title", "second")]));
    match &items[0].data {
        ItemData::Record(r) => assert_eq!(r.fields().len(), 1),
        ItemData::Value(_) => panic!("expected a record"),
    }
}
