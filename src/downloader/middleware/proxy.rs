//! The proxy middleware: routes each request through a proxy picked at random from
//! the pool for the request's scheme.
use rand::Rng;
use vstd::prelude::*;

use crate::settings::ProxySettings;

verus! {

/// The scheme of the URL `s`, lower case, or `None` where it does not parse.
pub uninterp spec fn url_scheme(s: Seq<char>) -> Option<Seq<char>>;

/// Relies on url's `Url::parse` and `Url::scheme` (reached through reqwest).
#[verifier::external_body]
fn scheme_of(url: &str) -> (r: Option<String>)
    ensures
        match r {
            Some(s) => url_scheme(url@) == Some(s@),
            None => url_scheme(url@) is None,
        },
{
    let url = reqwest::Url::parse(url).ok()?;
    Some(url.scheme().to_string())
}

/// Relies on rand's `thread_rng` and `Rng::gen_range`, which panics on an empty range
/// and otherwise returns a value inside it.
#[verifier::external_body]
fn random_below(n: usize) -> (r: usize)
    requires
        n > 0,
    ensures
        r < n,
{
    rand::thread_rng().gen_range(0..n)
}

/// Which pool a proxy came from: the one for http URLs or the one for https URLs.
#[derive(Clone, Copy, Debug, PartialEq, Eq, Structural)]
pub enum ProxyScheme {
    Http,
    Https,
}

/// Pools of http and https proxies.
pub struct Proxy {
    pub http: Vec<String>,
    pub https: Vec<String>,
}

impl Proxy {
    /// The pool that serves URLs of `scheme`, if any.
    pub open spec fn pool(self, scheme: Option<Seq<char>>) -> Option<Seq<String>> {
        if scheme == Some("http"@) {
            Some(self.http@)
        } else if scheme == Some("https"@) {
            Some(self.https@)
        } else {
            None
        }
    }

    pub fn from_settings(settings: ProxySettings) -> (r: Self)
        ensures
            r.http == settings.http,
            r.https == settings.https,
    {
        Proxy { http: settings.http, https: settings.https }
    }

    /// Adds an http proxy.
    pub fn add_http(self, url: &str) -> (r: Self)
        ensures
            r.http@.len() == self.http@.len() + 1,
            r.http@.drop_last() == self.http@,
            r.http@.last()@ == url@,
            r.https == self.https,
    {
        let mut p = self;
        p.http.push(url.to_owned());
        p
    }

    /// Adds an https proxy.
    pub fn add_https(self, url: &str) -> (r: Self)
        ensures
            r.https@.len() == self.https@.len() + 1,
            r.https@.drop_last() == self.https@,
            r.https@.last()@ == url@,
            r.http == self.http,
    {
        let mut p = self;
        p.https.push(url.to_owned());
        p
    }

    /// A proxy for `url`, picked at random from the pool of its scheme, with that
    /// scheme; `None` where the scheme has no pool or its pool is empty.
    pub fn pick(&self, url: &str) -> (r: Option<(ProxyScheme, String)>)
        ensures
            self.pool(url_scheme(url@)) is None ==> r is None,
            self.pool(url_scheme(url@)) matches Some(pool) ==> (r is None <==> pool.len() == 0),
            r matches Some((k, p)) ==> self.pool(url_scheme(url@)) matches Some(pool) && pool.contains(p)
                && (k == ProxyScheme::Http <==> url_scheme(url@) == Some("http"@)),
    {
        proof {
            reveal_strlit("http");
            reveal_strlit("https");
        }
        let scheme = scheme_of(url);
        let (kind, pool) = match &scheme {
            Some(s) => {
                if *s == "http".to_owned() {
                    (ProxyScheme::Http, &self.http)
                } else if *s == "https".to_owned() {
                    (ProxyScheme::Https, &self.https)
                } else {
                    return None;
                }
            },
            None => {
                return None;
            },
        };
        assert(self.pool(url_scheme(url@)) == Some(pool@));
        if pool.len() == 0 {
            return None;
        }
        let i = random_below(pool.len());
        let p = pool[i].clone();
        assert(pool@[i as int] == p);
        Some((kind, p))
    }
}

} // verus!
