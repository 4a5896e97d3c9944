//! A fetched page: its body, and the absolute links found in it.
use kuchiki::traits::TendrilSink;
use vstd::prelude::*;

use crate::crawler::Response;

verus! {

/// A parsed HTML document; the library only hands it to the user's callbacks.
#[verifier::external_type_specification]
#[verifier::external_body]
pub struct ExNodeRef(kuchiki::NodeRef);

/// Relies on kuchiki's `parse_html`: the document tree of `body`. Nothing is assumed
/// of the tree.
#[verifier::external_body]
fn parse_document(body: &str) -> kuchiki::NodeRef {
    kuchiki::parse_html().one(body)
}

/// The `href` values of the page's `a` elements, in document order.
pub uninterp spec fn hrefs_in(body: Seq<char>) -> Seq<Seq<char>>;

/// The text contents of the elements that `selector` picks, in document order, or
/// `None` where the selector does not parse.
pub uninterp spec fn selected_text(body: Seq<char>, selector: Seq<char>) -> Option<Seq<Seq<char>>>;

/// The page parsed and serialized again as HTML.
pub uninterp spec fn serialized_html(body: Seq<char>) -> Seq<char>;

/// `candidate` resolved against the URL `base`, serialized; `None` where either does
/// not parse.
pub uninterp spec fn url_joined(base: Seq<char>, candidate: Seq<char>) -> Option<Seq<char>>;

/// The matches of the regular expression `pattern` in `text`, left to right and not
/// overlapping, or `None` where the pattern does not compile.
pub uninterp spec fn regex_found_all(pattern: Seq<char>, text: Seq<char>) -> Option<Seq<Seq<char>>>;

/// Relies on kuchiki's `parse_html` and `NodeRef::select`: the `href` attribute of
/// each `a` element, in document order.
#[verifier::external_body]
fn html_links(body: &str) -> (r: Vec<String>)
    ensures
        views(r@) == hrefs_in(body@),
{
    let doc = kuchiki::parse_html().one(body);
    let mut hrefs = Vec::new();
    for node in doc.select("a").unwrap() {
        if let Some(href) = node.attributes.borrow().get("href") {
            hrefs.push(href.to_string());
        }
    }
    hrefs
}

/// Relies on kuchiki's `parse_html`, `NodeRef::select` and `text_contents`: the text of
/// each element that the selector picks, or `None` where it does not parse.
#[verifier::external_body]
fn html_select_text(body: &str, selector: &str) -> (r: Option<Vec<String>>)
    ensures
        match r {
            Some(v) => selected_text(body@, selector@) == Some(views(v@)),
            None => selected_text(body@, selector@) is None,
        },
{
    let doc = kuchiki::parse_html().one(body);
    let mut texts = Vec::new();
    for node in doc.select(selector).ok()? {
        texts.push(node.text_contents());
    }
    Some(texts)
}

/// Relies on kuchiki's `parse_html` and its serializer (`ToString` on `NodeRef`).
#[verifier::external_body]
fn html_serialize(body: &str) -> (r: String)
    ensures
        r@ == serialized_html(body@),
{
    kuchiki::parse_html().one(body).to_string()
}

/// Relies on url's `Url::parse` and `Url::join` (reached through reqwest): `candidate`
/// resolved against `base`, serialized.
#[verifier::external_body]
fn join_url(base: &str, candidate: &str) -> (r: Option<String>)
    ensures
        match r {
            Some(u) => url_joined(base@, candidate@) == Some(u@),
            None => url_joined(base@, candidate@) is None,
        },
{
    let base = reqwest::Url::parse(base).ok()?;
    let joined = base.join(candidate).ok()?;
    Some(joined.as_str().to_string())
}

/// Relies on regex's `Regex::new` and `Regex::find_iter`: the text of each match.
#[verifier::external_body]
fn regex_find_all(pattern: &str, text: &str) -> (r: Option<Vec<String>>)
    ensures
        match r {
            Some(v) => regex_found_all(pattern@, text@) == Some(views(v@)),
            None => regex_found_all(pattern@, text@) is None,
        },
{
    let re = regex::Regex::new(pattern).ok()?;
    let mut found = Vec::new();
    for m in re.find_iter(text) {
        found.push(m.as_str().to_string());
    }
    Some(found)
}

/// The contents of each string.
pub open spec fn views(v: Seq<String>) -> Seq<Seq<char>> {
    v.map_values(|s: String| s@)
}

/// The links that resolve against `base`, resolved, in order; the others are dropped.
pub open spec fn joined_links(base: Seq<char>, hrefs: Seq<Seq<char>>) -> Seq<Seq<char>>
    decreases hrefs.len(),
{
    if hrefs.len() == 0 {
        Seq::empty()
    } else {
        let before = joined_links(base, hrefs.drop_last());
        match url_joined(base, hrefs.last()) {
            Some(u) => before.push(u),
            None => before,
        }
    }
}

/// The candidate resolved against `base`, or `None` where it is malformed.
pub fn normalize_url(base: &str, candidate: &str) -> (r: Option<String>)
    ensures
        match r {
            Some(u) => url_joined(base@, candidate@) == Some(u@),
            None => url_joined(base@, candidate@) is None,
        },
{
    join_url(base, candidate)
}

/// A fetched page: its body and the absolute links that it holds.
pub struct Page {
    body: String,
    urls: Vec<String>,
}

impl Page {
    pub closed spec fn body_view(self) -> Seq<char> {
        self.body@
    }

    pub closed spec fn urls_view(self) -> Seq<String> {
        self.urls@
    }

    /// The page of a response: its links resolved against the response's own URL,
    /// with those that do not resolve dropped.
    pub fn from_response(res: &Response) -> (r: Self)
        ensures
            r.body_view() == res.body@,
            views(r.urls_view()) == joined_links(res.request.url@, hrefs_in(res.body@)),
    {
        let hrefs = html_links(res.body.as_str());
        let mut urls: Vec<String> = Vec::new();
        let mut i: usize = 0;
        while i < hrefs.len()
            invariant
                i <= hrefs@.len(),
                views(hrefs@) == hrefs_in(res.body@),
                views(urls@) == joined_links(res.request.url@, views(hrefs@).subrange(0, i as int)),
            decreases hrefs@.len() - i,
        {
            assert(views(hrefs@).subrange(0, i + 1).drop_last() == views(hrefs@).subrange(0, i as int));
            if let Some(u) = join_url(res.request.url.as_str(), hrefs[i].as_str()) {
                assert(views(urls@.push(u)) == views(urls@).push(u@));
                urls.push(u);
            }
            i = i + 1;
        }
        assert(views(hrefs@).subrange(0, hrefs@.len() as int) == views(hrefs@));
        Page { body: res.body.clone(), urls }
    }

    /// The page parsed as an HTML document, for callbacks that walk the tree.
    pub fn doc(&self) -> kuchiki::NodeRef {
        parse_document(self.body.as_str())
    }

    /// The raw body.
    pub fn body(&self) -> (r: &String)
        ensures
            r@ == self.body_view(),
    {
        &self.body
    }

    /// The absolute links.
    pub fn urls(&self) -> (r: &Vec<String>)
        ensures
            r@ == self.urls_view(),
    {
        &self.urls
    }

    /// The text of each element that the CSS selector picks; none where the selector
    /// does not parse.
    pub fn matches_selectors(&self, sel: &str) -> (r: Vec<String>)
        ensures
            views(r@) == or_empty(selected_text(self.body_view(), sel@)),
    {
        match html_select_text(self.body.as_str(), sel) {
            Some(v) => v,
            None => {
                assert(views(Seq::<String>::empty()) == Seq::<Seq<char>>::empty());
                Vec::new()
            },
        }
    }

    /// Each match of the regular expression in the serialized page; none where it
    /// does not compile.
    pub fn matches_regex(&self, exp: &str) -> (r: Vec<String>)
        ensures
            views(r@) == or_empty(regex_found_all(exp@, serialized_html(self.body_view()))),
    {
        let text = html_serialize(self.body.as_str());
        match regex_find_all(exp, text.as_str()) {
            Some(v) => v,
            None => {
                assert(views(Seq::<String>::empty()) == Seq::<Seq<char>>::empty());
                Vec::new()
            },
        }
    }
}

/// The matches, or none.
pub open spec fn or_empty(m: Option<Seq<Seq<char>>>) -> Seq<Seq<char>> {
    match m {
        Some(s) => s,
        None => Seq::empty(),
    }
}

} // verus!
