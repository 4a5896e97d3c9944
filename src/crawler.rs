//! The data that moves between the crawl's components.
use vstd::prelude::*;

verus! {

/// The JSON value type that carries extracted data; the library only passes it on.
#[verifier::external_type_specification]
#[verifier::external_body]
pub struct ExValue(serde_json::Value);

/// The URL `s` parsed and serialized, or `None` where it does not parse.
pub uninterp spec fn url_parsed(s: Seq<char>) -> Option<Seq<char>>;

/// Relies on url's `Url::parse` (reached through reqwest): the URL parsed and serialized.
#[verifier::external_body]
pub(crate) fn parse_url(s: &str) -> (r: Option<String>)
    ensures
        match r {
            Some(u) => url_parsed(s@) == Some(u@),
            None => url_parsed(s@) is None,
        },
{
    let url = reqwest::Url::parse(s).ok()?;
    Some(url.as_str().to_string())
}

/// A unit of crawl work: a URL, its distance from the start URLs, and the priority
/// that the crawl strategy gave it.
#[derive(Debug)]
pub struct Request {
    /// The absolute URL, in its serialized form.
    pub url: String,
    /// The start URLs have depth 0; a link found on a page at depth `d` has depth `d + 1`.
    pub depth: u32,
    /// Larger values are dispatched first by an ordered queue.
    pub priority: u32,
}

impl Request {
    pub fn new(url: String, depth: u32, priority: u32) -> (r: Self)
        ensures
            r.url == url,
            r.depth == depth,
            r.priority == priority,
    {
        Request { url, depth, priority }
    }

    /// A copy of this request.
    pub fn duplicate(&self) -> (r: Self)
        ensures
            r == *self,
    {
        Request { url: self.url.clone(), depth: self.depth, priority: self.priority }
    }
}

impl Clone for Request {
    fn clone(&self) -> (r: Self)
        ensures
            r == *self,
    {
        self.duplicate()
    }
}

impl PartialEq for Request {
    fn eq(&self, other: &Request) -> (r: bool)
        ensures
            r == (self.url@ == other.url@ && self.depth == other.depth && self.priority
                == other.priority),
    {
        self.url == other.url && self.depth == other.depth && self.priority == other.priority
    }
}

impl vstd::std_specs::cmp::PartialEqSpecImpl for Request {
    open spec fn obeys_eq_spec() -> bool {
        true
    }

    open spec fn eq_spec(&self, other: &Request) -> bool {
        self.url@ == other.url@ && self.depth == other.depth && self.priority == other.priority
    }
}

/// A batch of requests sent to the scheduler.
#[derive(Debug)]
pub struct RequestVec {
    pub requests: Vec<Request>,
}

impl RequestVec {
    pub fn new(requests: Vec<Request>) -> (r: Self)
        ensures
            r.requests@ == requests@,
    {
        RequestVec { requests }
    }

    /// One request for each URL, parsed and serialized, all with the given depth and
    /// priority; `None` where a URL does not parse.
    pub fn from_strs(urls: Vec<&str>, depth: u32, priority: u32) -> (r: Option<Self>)
        ensures
            r is Some <==> forall|i: int| 0 <= i < urls@.len() ==> url_parsed(#[trigger] urls@[i]@) is Some,
            r matches Some(v) ==> v.requests@.len() == urls@.len() && forall|i: int|
                0 <= i < urls@.len() ==> Some((#[trigger] v.requests@[i]).url@) == url_parsed(urls@[i]@)
                    && v.requests@[i].depth == depth && v.requests@[i].priority == priority,
    {
        let mut requests: Vec<Request> = Vec::new();
        let mut i: usize = 0;
        while i < urls.len()
            invariant
                i <= urls@.len(),
                requests@.len() == i,
                forall|j: int| 0 <= j < i ==> url_parsed(#[trigger] urls@[j]@) is Some,
                forall|j: int|
                    0 <= j < i ==> Some((#[trigger] requests@[j]).url@) == url_parsed(urls@[j]@)
                        && requests@[j].depth == depth && requests@[j].priority == priority,
            decreases urls@.len() - i,
        {
            match parse_url(urls[i]) {
                Some(u) => requests.push(Request::new(u, depth, priority)),
                None => return None,
            }
            i = i + 1;
        }
        Some(RequestVec { requests })
    }

    /// One request for each URL, all with the given depth and priority.
    pub fn from_urls(urls: Vec<String>, depth: u32, priority: u32) -> (r: Self)
        ensures
            r.requests@.len() == urls@.len(),
            forall|i: int|
                0 <= i < urls@.len() ==> (#[trigger] r.requests@[i]).url == urls@[i]
                    && r.requests@[i].depth == depth && r.requests@[i].priority == priority,
    {
        let mut requests: Vec<Request> = Vec::new();
        let mut i: usize = 0;
        while i < urls.len()
            invariant
                i <= urls@.len(),
                requests@.len() == i,
                forall|j: int|
                    0 <= j < i ==> (#[trigger] requests@[j]).url == urls@[j]
                        && requests@[j].depth == depth && requests@[j].priority == priority,
            decreases urls@.len() - i,
        {
            requests.push(Request::new(urls[i].clone(), depth, priority));
            i = i + 1;
        }
        RequestVec { requests }
    }
}

/// The result of a fulfilled request.
#[derive(Debug)]
pub struct Response {
    /// The request that produced this response.
    pub request: Request,
    /// Response headers as name and value, in the order received; a name may repeat.
    pub headers: Vec<(String, String)>,
    /// Response body.
    pub body: String,
}

impl Response {
    /// A response to `request` with no headers and an empty body.
    pub fn new(request: Request) -> (r: Self)
        ensures
            r.request == request,
            r.headers@.len() == 0,
            r.body@.len() == 0,
    {
        Response { request, headers: Vec::new(), body: String::new() }
    }
}

/// No two entries share a key.
pub open spec fn keys_unique(s: Seq<(String, serde_json::Value)>) -> bool {
    forall|i: int, j: int| 0 <= i < j < s.len() ==> s[i].0@ != s[j].0@
}

/// The map from each entry's key to its value.
pub open spec fn entries_map(s: Seq<(String, serde_json::Value)>) -> Map<Seq<char>, serde_json::Value> {
    Map::new(
        |k: Seq<char>| exists|i: int| 0 <= i < s.len() && s[i].0@ == k,
        |k: Seq<char>| s[choose|i: int| 0 <= i < s.len() && s[i].0@ == k].1,
    )
}

/// The pairs merged in order: a later value under a key replaces an earlier one.
pub open spec fn merged(pairs: Seq<(String, serde_json::Value)>) -> Map<Seq<char>, serde_json::Value>
    decreases pairs.len(),
{
    if pairs.len() == 0 {
        Map::empty()
    } else {
        merged(pairs.drop_last()).insert(pairs.last().0@, pairs.last().1)
    }
}

/// Replacing the value of an entry keeps the keys unique and sets that key.
proof fn lemma_entries_update(s: Seq<(String, serde_json::Value)>, i: int, pair: (String, serde_json::Value))
    requires
        keys_unique(s),
        0 <= i < s.len(),
        s[i].0@ == pair.0@,
    ensures
        keys_unique(s.update(i, pair)),
        entries_map(s.update(i, pair)) =~= entries_map(s).insert(pair.0@, pair.1),
{
    let t = s.update(i, pair);
    assert forall|a: int, b: int| 0 <= a < b < t.len() implies t[a].0@ != t[b].0@ by {
        assert(s[a].0@ != s[b].0@);
    }
    let m = entries_map(s);
    let m2 = entries_map(t);
    assert forall|k: Seq<char>| m2.dom().contains(k) <==> m.insert(pair.0@, pair.1).dom().contains(k) by {
        if m.dom().contains(k) && k != pair.0@ {
            let j = choose|j: int| 0 <= j < s.len() && s[j].0@ == k;
            assert(t[j].0@ == k);
        }
        if m2.dom().contains(k) && k != pair.0@ {
            let j = choose|j: int| 0 <= j < t.len() && t[j].0@ == k;
            assert(s[j].0@ == k);
        }
        if k == pair.0@ {
            assert(t[i].0@ == k);
        }
    }
    assert forall|k: Seq<char>| m2.dom().contains(k) implies m2[k] == m.insert(pair.0@, pair.1)[k] by {
        let j2 = choose|j: int| 0 <= j < t.len() && t[j].0@ == k;
        if k == pair.0@ {
            assert(t[i].0@ == k);
            assert(j2 == i);
        } else {
            assert(j2 != i);
            let j1 = choose|j: int| 0 <= j < s.len() && s[j].0@ == k;
            assert(s[j2].0@ == k);
            assert(j1 == j2);
        }
    }
}

/// Appending an entry under a new key keeps the keys unique and adds that key.
proof fn lemma_entries_push(s: Seq<(String, serde_json::Value)>, pair: (String, serde_json::Value))
    requires
        keys_unique(s),
        forall|j: int| 0 <= j < s.len() ==> s[j].0@ != pair.0@,
    ensures
        keys_unique(s.push(pair)),
        entries_map(s.push(pair)) =~= entries_map(s).insert(pair.0@, pair.1),
{
    let t = s.push(pair);
    let n = s.len() as int;
    assert forall|a: int, b: int| 0 <= a < b < t.len() implies t[a].0@ != t[b].0@ by {
        if b < n {
            assert(s[a].0@ != s[b].0@);
        }
    }
    let m = entries_map(s);
    let m2 = entries_map(t);
    assert forall|k: Seq<char>| m2.dom().contains(k) <==> m.insert(pair.0@, pair.1).dom().contains(k) by {
        if m.dom().contains(k) {
            let j = choose|j: int| 0 <= j < s.len() && s[j].0@ == k;
            assert(t[j].0@ == k);
        }
        if m2.dom().contains(k) && k != pair.0@ {
            let j = choose|j: int| 0 <= j < t.len() && t[j].0@ == k;
            assert(j != n);
            assert(s[j].0@ == k);
        }
        if k == pair.0@ {
            assert(t[n].0@ == k);
        }
    }
    assert forall|k: Seq<char>| m2.dom().contains(k) implies m2[k] == m.insert(pair.0@, pair.1)[k] by {
        let j2 = choose|j: int| 0 <= j < t.len() && t[j].0@ == k;
        if k == pair.0@ {
            assert(t[n].0@ == k);
            assert(j2 == n);
        } else {
            assert(j2 != n);
            let j1 = choose|j: int| 0 <= j < s.len() && s[j].0@ == k;
            assert(s[j2].0@ == k);
            assert(j1 == j2);
        }
    }
}

/// The fields extracted from one page: each key once, in the order first set.
#[derive(Debug)]
pub struct Record {
    fields: Vec<(String, serde_json::Value)>,
}

impl View for Record {
    type V = Map<Seq<char>, serde_json::Value>;

    open spec fn view(&self) -> Map<Seq<char>, serde_json::Value> {
        entries_map(self.entries())
    }
}

impl Record {
    pub closed spec fn entries(self) -> Seq<(String, serde_json::Value)> {
        self.fields@
    }

    /// Each key appears once.
    pub open spec fn wf(self) -> bool {
        keys_unique(self.entries())
    }

    /// A record with no fields.
    pub fn new() -> (r: Self)
        ensures
            r.wf(),
            r.entries().len() == 0,
            r@ == Map::<Seq<char>, serde_json::Value>::empty(),
    {
        let r = Record { fields: Vec::new() };
        assert(r@ =~= Map::<Seq<char>, serde_json::Value>::empty());
        r
    }

    /// Sets `key` to `value`, replacing any value that it had.
    pub fn insert(&mut self, key: String, value: serde_json::Value)
        requires
            old(self).wf(),
        ensures
            final(self).wf(),
            final(self)@ == old(self)@.insert(key@, value),
            final(self).entries().len() > 0,
    {
        let mut i: usize = 0;
        while i < self.fields.len()
            invariant
                i <= self.fields@.len(),
                *self == *old(self),
                keys_unique(self.fields@),
                forall|j: int| 0 <= j < i ==> self.fields@[j].0@ != key@,
            decreases self.fields@.len() - i,
        {
            if self.fields[i].0 == key {
                let ghost before = self.fields@;
                let ghost pair = (key, value);
                proof {
                    lemma_entries_update(before, i as int, pair);
                }
                self.fields.set(i, (key, value));
                assert(self.fields@ == before.update(i as int, pair));
                return;
            }
            i = i + 1;
        }
        let ghost before = self.fields@;
        let ghost pair = (key, value);
        proof {
            lemma_entries_push(before, pair);
        }
        self.fields.push((key, value));
    }

    /// The fields, each key once, in the order first set.
    pub fn fields(&self) -> (r: &Vec<(String, serde_json::Value)>)
        ensures
            r@ == self.entries(),
    {
        &self.fields
    }

    /// Whether the record has no field.
    pub fn is_empty(&self) -> (r: bool)
        ensures
            r == (self.entries().len() == 0),
    {
        self.fields.len() == 0
    }
}

/// What an item holds: the fields that the pattern rules extracted, or one value
/// that a page callback returned.
#[derive(Debug)]
pub enum ItemData {
    Record(Record),
    Value(serde_json::Value),
}

/// Data extracted from a response, sent to the pipeline.
#[derive(Debug)]
pub struct Item {
    /// The request from which this item was extracted.
    pub request: Request,
    /// The extracted data.
    pub data: ItemData,
}

impl Item {
    pub fn new(request: Request, data: ItemData) -> (r: Self)
        ensures
            r.request == request,
            r.data == data,
    {
        Item { request, data }
    }
}

/// Runs a crawl; the actor system that drives it lives outside the library.
pub struct Crawler;

} // verus!
