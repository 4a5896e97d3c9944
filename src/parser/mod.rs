//! Parses responses: applies the crawl rules to a page, and gives the links
//! that it keeps a depth and a priority.
use vstd::prelude::*;

use crate::crawler::{merged, Item, ItemData, Record, Request, RequestVec, Response};
use crate::parser::page::{or_empty, selected_text, serialized_html, regex_found_all, views};
use crate::settings::CrawlStrategy;
use crate::spider::{filter_urls, kept, CrawlRule, ParseRule, Pattern};

pub mod page;

pub use crate::parser::page::Page;

verus! {

/// The scale of priorities: a strategy's ratio in [0, 1] times this value.
pub const PRIORITY_SCALE: u64 = 1_000_000_000;

/// `a / b` rounded to the nearest integer, halves rounded up.
pub open spec fn rounded_div(a: int, b: int) -> int {
    (2 * a + b) / (2 * b)
}

/// The priority of a link at `depth` (the depth of the link itself) under `strategy`:
/// breadth first `1 - depth / (depth + 1)`, depth first `depth / (depth + 1)`,
/// no order `1`, each scaled and rounded to an integer.
pub open spec fn priority_of(strategy: CrawlStrategy, depth: nat) -> int {
    match strategy {
        CrawlStrategy::BFO => rounded_div(PRIORITY_SCALE as int, depth + 1int),
        CrawlStrategy::DFO => rounded_div(PRIORITY_SCALE * depth, depth + 1int),
        CrawlStrategy::Basic => PRIORITY_SCALE as int,
    }
}

/// `x / d` is at least `k` when `x` is at least `d * k`, and at most `k` when `x` is
/// below `d * (k + 1)`.
proof fn lemma_div_bounds(x: int, d: int, k: int)
    requires
        d > 0,
        x >= 0,
    ensures
        x >= d * k ==> x / d >= k,
        x < d * (k + 1) ==> x / d <= k,
{
    let q = x / d;
    let r = x % d;
    vstd::arithmetic::div_mod::lemma_fundamental_div_mod(x, d);
    assert(x == d * q + r && 0 <= r < d);
    if x >= d * k && q < k {
        assert(d * q + r < d * k) by (nonlinear_arith)
            requires
                q < k,
                0 <= r < d,
                d > 0,
        ;
    }
    if x < d * (k + 1) && q > k {
        assert(d * q + r >= d * (k + 1)) by (nonlinear_arith)
            requires
                q >= k + 1,
                0 <= r,
                d > 0,
        ;
    }
}

/// A ratio larger by at least one rounds to a value larger by at least one.
proof fn lemma_rounded_div_step(a: int, b: int, a2: int, b2: int)
    requires
        b > 0,
        b2 > 0,
        a >= 0,
        a2 >= 0,
        a * b2 >= a2 * b + b * b2,
    ensures
        rounded_div(a, b) >= rounded_div(a2, b2) + 1,
{
    let q2 = rounded_div(a2, b2);
    lemma_div_bounds(2 * a2 + b2, 2 * b2, q2);
    vstd::arithmetic::div_mod::lemma_fundamental_div_mod(2 * a2 + b2, 2 * b2);
    assert(2 * b2 * q2 <= 2 * a2 + b2);
    assert(2 * b * (q2 + 1) <= 2 * a + b) by (nonlinear_arith)
        requires
            b > 0,
            b2 > 0,
            2 * b2 * q2 <= 2 * a2 + b2,
            a * b2 >= a2 * b + b * b2,
    ;
    lemma_div_bounds(2 * a + b, 2 * b, q2 + 1);
}

/// Bounds of a rounded ratio: below `n + 1` when `a <= n * b`, and positive when
/// `2 * a >= b`.
proof fn lemma_rounded_div_range(a: int, b: int, n: int)
    requires
        b > 0,
        a >= 0,
    ensures
        a <= n * b ==> rounded_div(a, b) <= n,
        a < n * b - b / 2 ==> rounded_div(a, b) <= n - 1,
        2 * a >= b ==> rounded_div(a, b) >= 1,
        rounded_div(a, b) >= 0,
{
    if a <= n * b {
        assert(2 * a + b < 2 * b * (n + 1)) by (nonlinear_arith)
            requires
                a <= n * b,
                b > 0,
        ;
        lemma_div_bounds(2 * a + b, 2 * b, n);
    }
    if a < n * b - b / 2 {
        assert(2 * a + b < 2 * b * n) by (nonlinear_arith)
            requires
                a < n * b - b / 2,
                b > 0,
        ;
        lemma_div_bounds(2 * a + b, 2 * b, n - 1);
    }
    if 2 * a >= b {
        lemma_div_bounds(2 * a + b, 2 * b, 1);
    }
    lemma_div_bounds(2 * a + b, 2 * b, 0);
}

/// Computes the priority of a link at `depth` under `strategy`.
pub fn calc_priority(strategy: CrawlStrategy, depth: u32) -> (r: u32)
    ensures
        r == priority_of(strategy, depth as nat),
{
    let b: u64 = depth as u64 + 1;
    match strategy {
        CrawlStrategy::BFO => {
            proof {
                lemma_rounded_div_range(PRIORITY_SCALE as int, b as int, PRIORITY_SCALE as int);
                assert(PRIORITY_SCALE as int <= PRIORITY_SCALE * b) by (nonlinear_arith)
                    requires
                        b >= 1,
                ;
            }
            ((2 * PRIORITY_SCALE + b) / (2 * b)) as u32
        },
        CrawlStrategy::DFO => {
            let d: u64 = depth as u64;
            assert(2 * PRIORITY_SCALE * d <= 2 * PRIORITY_SCALE * 4294967295) by (nonlinear_arith)
                requires
                    d <= 4294967295,
            ;
            proof {
                lemma_rounded_div_range(PRIORITY_SCALE * d, b as int, PRIORITY_SCALE as int);
                assert(PRIORITY_SCALE * d <= PRIORITY_SCALE * b) by (nonlinear_arith)
                    requires
                        d < b,
                ;
            }
            ((2 * PRIORITY_SCALE * d + b) / (2 * b)) as u32
        },
        CrawlStrategy::Basic => PRIORITY_SCALE as u32,
    }
}


/// What the parser asks of the user's callback for one rule.
#[derive(Debug)]
pub enum Extraction {
    /// No callback: the rule filters links, or its pattern does not apply here.
    Skip,
    /// Call the rule's page callback on the page.
    Page,
    /// Call the rule's pattern callback on these matches.
    Pattern(Vec<String>),
}

/// What the user's callback returned for one rule.
#[derive(Debug)]
pub enum Outcome {
    /// No callback ran, or it returned nothing.
    Nothing,
    /// A page callback's values: each becomes a record of its own.
    Values(Vec<serde_json::Value>),
    /// A pattern callback's value for the rule's field.
    Value(serde_json::Value),
}

/// The text that a pattern extracts from a page.
pub open spec fn pattern_matches(pattern: Pattern, body: Seq<char>) -> Seq<Seq<char>> {
    match pattern {
        Pattern::CssSelector(sel) => or_empty(selected_text(body, sel@)),
        Pattern::Regex(exp) => or_empty(regex_found_all(exp@, serialized_html(body))),
    }
}

/// What `rule` asks of its callback on the page `body` fetched from `url`: a page
/// rule always runs; a pattern rule runs where `url` meets its condition and the
/// pattern matches something.
pub open spec fn extraction_for(e: Extraction, rule: CrawlRule, url: Seq<char>, body: Seq<char>) -> bool {
    match rule.parse_rule {
        ParseRule::FilterUrls => e is Skip,
        ParseRule::Page => e is Page,
        ParseRule::Pattern(p) => if rule.condition.admits(url) && pattern_matches(p.pattern, body).len() > 0 {
            e matches Extraction::Pattern(m) && views(m@) == pattern_matches(p.pattern, body)
        } else {
            e is Skip
        },
    }
}

/// The links that survive each link filter among `rules`, applied in order.
pub open spec fn links_kept(rules: Seq<CrawlRule>, links: Seq<String>) -> Seq<String>
    decreases rules.len(),
{
    if rules.len() == 0 {
        links
    } else {
        let before = links_kept(rules.drop_last(), links);
        match rules.last().parse_rule {
            ParseRule::FilterUrls => kept(rules.last().condition, before),
            _ => before,
        }
    }
}

/// The record's fields: for each pattern rule, in order, whose callback returned a
/// value, the rule's field and that value.
pub open spec fn record_fields(rules: Seq<CrawlRule>, outcomes: Seq<Outcome>) -> Seq<(String, serde_json::Value)>
    decreases outcomes.len(),
{
    if outcomes.len() == 0 || rules.len() < outcomes.len() {
        Seq::empty()
    } else {
        let n = outcomes.len() - 1;
        let before = record_fields(rules, outcomes.drop_last());
        match (rules[n].parse_rule, outcomes.last()) {
            (ParseRule::Pattern(p), Outcome::Value(v)) => before.push((p.field, v)),
            _ => before,
        }
    }
}

/// The values of the page callbacks, in order; each is a record of its own.
pub open spec fn page_values(rules: Seq<CrawlRule>, outcomes: Seq<Outcome>) -> Seq<serde_json::Value>
    decreases outcomes.len(),
{
    if outcomes.len() == 0 || rules.len() < outcomes.len() {
        Seq::empty()
    } else {
        let n = outcomes.len() - 1;
        let before = page_values(rules, outcomes.drop_last());
        match (rules[n].parse_rule, outcomes.last()) {
            (ParseRule::Page, Outcome::Values(vs)) => before + vs@,
            _ => before,
        }
    }
}

/// Each value of the merged pairs is the value of one of them.
proof fn lemma_merged_values(pairs: Seq<(String, serde_json::Value)>, k: Seq<char>)
    requires
        merged(pairs).dom().contains(k),
    ensures
        exists|j: int| 0 <= j < pairs.len() && pairs[j].1 == merged(pairs)[k],
    decreases pairs.len(),
{
    let n = pairs.len() - 1;
    if pairs.last().0@ == k {
        assert(pairs[n].1 == merged(pairs)[k]);
    } else {
        lemma_merged_values(pairs.drop_last(), k);
        let j = choose|j: int|
            0 <= j < pairs.drop_last().len() && pairs.drop_last()[j].1 == merged(pairs.drop_last())[k];
        assert(pairs[j] == pairs.drop_last()[j]);
    }
}

/// Each record field comes from a pattern callback's value among `outcomes`.
proof fn lemma_fields_from_outcomes(rules: Seq<CrawlRule>, outcomes: Seq<Outcome>, j: int)
    requires
        0 <= j < record_fields(rules, outcomes).len(),
    ensures
        exists|i: int|
            0 <= i < outcomes.len() && outcomes[i] == Outcome::Value(
                #[trigger] record_fields(rules, outcomes)[j].1,
            ),
    decreases outcomes.len(),
{
    let n = outcomes.len() - 1;
    let before = record_fields(rules, outcomes.drop_last());
    if j < before.len() {
        lemma_fields_from_outcomes(rules, outcomes.drop_last(), j);
        let i = choose|i: int|
            0 <= i < outcomes.drop_last().len() && outcomes.drop_last()[i] == Outcome::Value(
                #[trigger] record_fields(rules, outcomes.drop_last())[j].1,
            );
        assert(outcomes[i] == outcomes.drop_last()[i]);
    } else {
        assert(outcomes[n] == outcomes.last());
    }
}

/// Every value in a page's record came from that page's own callbacks: a record
/// never holds a value extracted from another response.
pub proof fn record_values_are_own(rules: Seq<CrawlRule>, outcomes: Seq<Outcome>, field: Seq<char>)
    requires
        merged(record_fields(rules, outcomes)).dom().contains(field),
    ensures
        exists|i: int|
            0 <= i < outcomes.len() && outcomes[i] == Outcome::Value(
                merged(record_fields(rules, outcomes))[field],
            ),
{
    let pairs = record_fields(rules, outcomes);
    lemma_merged_values(pairs, field);
    let j = choose|j: int| 0 <= j < pairs.len() && pairs[j].1 == merged(pairs)[field];
    lemma_fields_from_outcomes(rules, outcomes, j);
}

/// Applies the crawl rules to fetched pages.
pub struct Parser {
    pub rules: Vec<CrawlRule>,
    pub strategy: CrawlStrategy,
}

impl Parser {
    /// Every rule's condition has patterns that compile.
    pub open spec fn wf(self) -> bool {
        forall|i: int| 0 <= i < self.rules@.len() ==> (#[trigger] self.rules@[i]).condition.wf()
    }

    pub fn new(rules: Vec<CrawlRule>, strategy: CrawlStrategy) -> (r: Self)
        ensures
            r.rules@ == rules@,
            r.strategy == strategy,
    {
        Parser { rules, strategy }
    }

    /// The links of `page` that every link filter keeps, as requests one level deeper
    /// than `res`, with the strategy's priority for that depth.
    pub fn next_requests(&self, res: &Response, page: &Page) -> (r: RequestVec)
        requires
            self.wf(),
            res.request.depth < u32::MAX,
        ensures
            r.requests@.len() == links_kept(self.rules@, page.urls_view()).len(),
            forall|i: int|
                0 <= i < r.requests@.len() ==> (#[trigger] r.requests@[i]).url
                    == links_kept(self.rules@, page.urls_view())[i] && r.requests@[i].depth
                    == res.request.depth + 1 && r.requests@[i].priority == priority_of(
                    self.strategy,
                    (res.request.depth + 1) as nat,
                ),
    {
        let mut urls: Vec<String> = page.urls().clone();
        let mut i: usize = 0;
        while i < self.rules.len()
            invariant
                self.wf(),
                i <= self.rules@.len(),
                urls@ == links_kept(self.rules@.subrange(0, i as int), page.urls_view()),
            decreases self.rules@.len() - i,
        {
            assert(self.rules@.subrange(0, i + 1).drop_last() == self.rules@.subrange(0, i as int));
            let rule = &self.rules[i];
            if let ParseRule::FilterUrls = rule.parse_rule {
                urls = filter_urls(&rule.condition, urls);
            }
            i = i + 1;
        }
        assert(self.rules@.subrange(0, self.rules@.len() as int) == self.rules@);
        let depth = res.request.depth + 1;
        let priority = calc_priority(self.strategy, depth);
        RequestVec::from_urls(urls, depth, priority)
    }

    /// For each rule, in order, what its callback is to be asked on this page.
    pub fn extractions(&self, res: &Response, page: &Page) -> (r: Vec<Extraction>)
        requires
            self.wf(),
            page.body_view() == res.body@,
        ensures
            r@.len() == self.rules@.len(),
            forall|i: int|
                0 <= i < r@.len() ==> extraction_for(
                    #[trigger] r@[i],
                    self.rules@[i],
                    res.request.url@,
                    res.body@,
                ),
    {
        let mut out: Vec<Extraction> = Vec::new();
        let mut i: usize = 0;
        while i < self.rules.len()
            invariant
                self.wf(),
                page.body_view() == res.body@,
                i <= self.rules@.len(),
                out@.len() == i,
                forall|j: int|
                    0 <= j < i ==> extraction_for(
                        #[trigger] out@[j],
                        self.rules@[j],
                        res.request.url@,
                        res.body@,
                    ),
            decreases self.rules@.len() - i,
        {
            let rule = &self.rules[i];
            let e = match &rule.parse_rule {
                ParseRule::FilterUrls => Extraction::Skip,
                ParseRule::Page => Extraction::Page,
                ParseRule::Pattern(p) => {
                    if rule.condition.matches(res.request.url.as_str()) {
                        let m = match &p.pattern {
                            Pattern::CssSelector(sel) => page.matches_selectors(sel.as_str()),
                            Pattern::Regex(exp) => page.matches_regex(exp.as_str()),
                        };
                        if m.len() > 0 {
                            Extraction::Pattern(m)
                        } else {
                            Extraction::Skip
                        }
                    } else {
                        Extraction::Skip
                    }
                },
            };
            out.push(e);
            i = i + 1;
        }
        out
    }

    /// The items of a page: one record with the pattern rules' fields merged in rule
    /// order (a later value for a field replaces an earlier one), where there is at
    /// least one, then one item for each value of the page callbacks; each carries
    /// `request`. `outcomes` holds one entry per rule, in order.
    pub fn items(&self, request: &Request, outcomes: Vec<Outcome>) -> (r: Vec<Item>)
        requires
            outcomes@.len() == self.rules@.len(),
        ensures
            ({
                let fields = record_fields(self.rules@, outcomes@);
                let values = page_values(self.rules@, outcomes@);
                let first: int = if fields.len() > 0 { 1 } else { 0 };
                &&& r@.len() == first + values.len()
                &&& forall|i: int| 0 <= i < r@.len() ==> (#[trigger] r@[i]).request == *request
                &&& fields.len() > 0 ==> (r@[0].data matches ItemData::Record(rec) && rec.wf() && rec@
                    == merged(fields))
                &&& forall|i: int|
                    0 <= i < values.len() ==> r@[first + i].data == ItemData::Value(#[trigger] values[i])
            }),
    {
        let ghost rules = self.rules@;
        let ghost all = outcomes@;
        let n: usize = outcomes.len();
        let mut outcomes = outcomes;
        let mut record = Record::new();
        let mut has_fields = false;
        let mut values: Vec<serde_json::Value> = Vec::new();
        let mut i: usize = 0;
        while outcomes.len() > 0
            invariant
                i + outcomes@.len() == all.len(),
                all.len() == n,
                outcomes@ == all.subrange(i as int, all.len() as int),
                all.len() == rules.len(),
                rules == self.rules@,
                record.wf(),
                record@ == merged(record_fields(rules, all.subrange(0, i as int))),
                has_fields == (record_fields(rules, all.subrange(0, i as int)).len() > 0),
                values@ == page_values(rules, all.subrange(0, i as int)),
            decreases outcomes@.len(),
        {
            let o = outcomes.remove(0);
            proof {
                let pre = all.subrange(0, i + 1);
                assert(pre.drop_last() == all.subrange(0, i as int));
                assert(pre.last() == o);
            }
            match o {
                Outcome::Value(v) => {
                    if let ParseRule::Pattern(p) = &self.rules[i].parse_rule {
                        proof {
                            let prev = record_fields(rules, all.subrange(0, i as int));
                            let next = record_fields(rules, all.subrange(0, i + 1));
                            assert(next == prev.push((p.field, v)));
                            assert(next.drop_last() == prev);
                        }
                        record.insert(p.field.clone(), v);
                        has_fields = true;
                    }
                },
                Outcome::Values(vs) => {
                    if let ParseRule::Page = &self.rules[i].parse_rule {
                        let mut vs = vs;
                        values.append(&mut vs);
                    }
                },
                Outcome::Nothing => {},
            }
            i = i + 1;
        }
        assert(all.subrange(0, all.len() as int) == all);
        let ghost vals = values@;
        let mut items: Vec<Item> = Vec::new();
        if has_fields {
            items.push(Item::new(request.duplicate(), ItemData::Record(record)));
        }
        let ghost first = items@.len() as int;
        let ghost head = items@;
        let m: usize = values.len();
        let mut k: usize = 0;
        while values.len() > 0
            invariant
                k + values@.len() == vals.len(),
                vals.len() == m,
                0 <= first <= 1,
                head.len() == first,
                values@ == vals.subrange(k as int, vals.len() as int),
                items@.len() == first + k,
                items@.subrange(0, first) == head,
                forall|j: int| 0 <= j < items@.len() ==> (#[trigger] items@[j]).request == *request,
                forall|j: int| 0 <= j < k ==> items@[first + j].data == ItemData::Value(#[trigger] vals[j]),
            decreases values@.len(),
        {
            let v = values.remove(0);
            assert(v == vals[k as int]);
            let ghost before = items@;
            let item = Item::new(request.duplicate(), ItemData::Value(v));
            let ghost pushed_item = item;
            items.push(item);
            assert(items@ == before.push(pushed_item));
            assert(items@.subrange(0, first) == before.subrange(0, first));
            assert forall|j: int| 0 <= j < k + 1 implies items@[first + j].data == ItemData::Value(#[trigger] vals[j]) by {
                if j < k {
                    assert(items@[first + j] == before[first + j]);
                }
            }
            k = k + 1;
        }
        proof {
            if first == 1 {
                assert(items@[0] == items@.subrange(0, first)[0]);
            }
        }
        items
    }
}

/// Breadth first priorities fall strictly with depth over `[0, 1000]`, stay above
/// zero there, and never exceed the scale.
pub proof fn breadth_first_priority_decreasing(d1: nat, d2: nat)
    requires
        d1 < d2 <= 1000,
    ensures
        priority_of(CrawlStrategy::BFO, d1) > priority_of(CrawlStrategy::BFO, d2),
        priority_of(CrawlStrategy::BFO, d2) > 0,
        priority_of(CrawlStrategy::BFO, d1) <= PRIORITY_SCALE,
{
    let n = PRIORITY_SCALE as int;
    let (d1, d2) = (d1 as int, d2 as int);
    assert(n * (d2 + 1) >= n * (d1 + 1) + (d1 + 1) * (d2 + 1)) by (nonlinear_arith)
        requires
            0 <= d1 < d2 <= 1000,
            n == 1_000_000_000,
    ;
    lemma_rounded_div_step(n, d1 + 1, n, d2 + 1);
    lemma_rounded_div_range(n, d2 + 1, n);
    lemma_rounded_div_range(n, d1 + 1, n);
    assert(n <= n * (d1 + 1)) by (nonlinear_arith)
        requires
            n >= 0,
            d1 >= 0,
    ;
}

/// Depth first priorities rise strictly with depth over `[0, 1000]` and stay below
/// the scale there.
pub proof fn depth_first_priority_increasing(d1: nat, d2: nat)
    requires
        d1 < d2 <= 1000,
    ensures
        priority_of(CrawlStrategy::DFO, d1) < priority_of(CrawlStrategy::DFO, d2),
        priority_of(CrawlStrategy::DFO, d2) < PRIORITY_SCALE,
        priority_of(CrawlStrategy::DFO, d1) >= 0,
{
    let n = PRIORITY_SCALE as int;
    let (d1, d2) = (d1 as int, d2 as int);
    assert((n * d2) * (d1 + 1) >= (n * d1) * (d2 + 1) + (d2 + 1) * (d1 + 1)) by (nonlinear_arith)
        requires
            0 <= d1 < d2 <= 1000,
            n == 1_000_000_000,
    ;
    assert(n * d1 >= 0 && n * d2 >= 0) by (nonlinear_arith)
        requires
            n >= 0,
            d1 >= 0,
            d2 >= 0,
    ;
    lemma_rounded_div_step(n * d2, d2 + 1, n * d1, d1 + 1);
    assert(n * d2 < n * (d2 + 1) - (d2 + 1) / 2) by (nonlinear_arith)
        requires
            0 <= d2 <= 1000,
            n == 1_000_000_000,
    ;
    lemma_rounded_div_range(n * d2, d2 + 1, n);
    lemma_rounded_div_range(n * d1, d1 + 1, n);
}

/// With no order every link gets the full scale, whatever its depth.
pub proof fn unordered_priority_constant(depth: nat)
    ensures
        priority_of(CrawlStrategy::Basic, depth) == PRIORITY_SCALE,
{
}

} // verus!
