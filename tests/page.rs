use vortex::crawler::{Request, Response};
use vortex::parser::page::normalize_url;
use vortex::parser::Page;

#[test]
fn test_normalize_url() {
    let base = "http://en.wikipedia.org/src/";

    let p = normalize_url(base, "picture.jpg").unwrap();
    assert_eq!(p.as_str(), "http://en.wikipedia.org/src/picture.jpg");

    let p = normalize_url(base, "../picture.jpg").unwrap();
    assert_eq!(p.as_str(), "http://en.wikipedia.org/picture.jpg");

    let p = normalize_url(base, "images/picture.jpg").unwrap();
    assert_eq!(p.as_str(), "http://en.wikipedia.org/src/images/picture.jpg");

    let p = normalize_url(base, "/images/picture.jpg").unwrap();
    assert_eq!(p.as_str(), "http://en.wikipedia.org/images/picture.jpg");

    let p = normalize_url(base, "http://ru.wikipedia.org").unwrap();
    assert_eq!(p.as_str(), "http://ru.wikipedia.org/");

    let p = normalize_url(base, "http://ru.wikipedia.org/index.html").unwrap();
    assert_eq!(p.as_str(), "http://ru.wikipedia.org/index.html");
}

#[test]
fn malformed_candidate_is_dropped() {
    assert_eq!(normalize_url("http://x/", "http://[::1"), None);
    assert_eq!(normalize_url("not a url", "a.html"), None);
}

fn response(url: &str, body: &str) -> Response {
    let mut res = Response::new(Request::new(url.to_string(), 0, 1));
    res.body = body.to_string();
    res
}

#[test]
fn page_links_are_absolute_and_malformed_ones_dropped() {
    let res = response(
        "http://x/dir/page.html",
        "<html><body><a href=\"a.html\">A</a><a href=\"http://[bad\">B</a><a href=\"/b\">C</a><a>none</a></body></html>",
    );
    let page = Page::from_response(&res);
    assert_eq!(page.urls(), &vec!["http://x/dir/a.html".to_string(), "http://x/b".to_string()]);
    assert_eq!(page.body(), &res.body);
}

#[test]
fn selectors_and_regex_extract_text() {
    let res = response("http://x/", "<html><body><h1 class=\"t\">Cat</h1><p>id-42 and id-7</p></body></html>");
    let page = Page::from_response(&res);
    assert_eq!(page.matches_selectors(".t"), vec!["Cat".to_string()]);
    assert_eq!(page.matches_regex("id-[0-9]+"), vec!["id-42".to_string(), "id-7".to_string()]);
    assert!(page.matches_selectors("[[").is_empty());
    assert!(page.matches_regex("(").is_empty());
}

#[test]
fn regex_runs_over_the_serialized_document() {
    let res = response("http://x/", "<p>x</p>");
    let page = Page::from_response(&res);
    assert_eq!(page.matches_regex("<head>"), vec!["<head>".to_string()]);
    assert!(!res.body.contains("<head>"));
}
