//! The remote listing: where it lives, how a page is asked for, how an
//! answer is read, and the protocol that pages through all of it.

use crate::error::{ScannerError, ScannerErrorView};
use crate::text::{
    decimal_string, decimal_text, join2, join3, pair, pair_seq, signed_decimal_string,
    signed_decimal_text,
};
use crate::json::{array_text, json_text_array, parse_scalar_array, scalar_array};
use crate::types::{market_views, opt_text, opt_text_clone, Market, MarketView};
use vstd::prelude::*;
use vstd::string::StringExecFns;

verus! {

/// Base address of the service that lists the markets.
pub const GAMMA_API_BASE: &'static str = "https://gamma-api.polymarket.com";

/// Base address of the service that describes single markets.
pub const CLOB_API_BASE: &'static str = "https://clob.polymarket.com";

/// Seconds after which a request is given up.
pub const REQUEST_TIMEOUT_SECS: u64 = 30;

/// The number of markets asked for where the caller names none.
pub const DEFAULT_LIMIT: u32 = 100;

/// Address of the listing.
pub fn markets_url() -> (r: String)
    ensures
        r@ == GAMMA_API_BASE@ + "/markets"@,
{
    join2(GAMMA_API_BASE, "/markets")
}

/// Address of the price histories.
pub fn price_history_url() -> (r: String)
    ensures
        r@ == GAMMA_API_BASE@ + "/prices-history"@,
{
    join2(GAMMA_API_BASE, "/prices-history")
}

/// Address of the description of the market `condition_id`.
pub fn market_url(condition_id: &str) -> (r: String)
    ensures
        r@ == CLOB_API_BASE@ + "/markets/"@ + condition_id@,
{
    join3(CLOB_API_BASE, "/markets/", condition_id)
}

/// Address of the statistics of the market `condition_id`.
pub fn market_stats_url(condition_id: &str) -> (r: String)
    ensures
        r@ == CLOB_API_BASE@ + "/markets/"@ + condition_id@ + "/stats"@,
{
    let mut s = join3(CLOB_API_BASE, "/markets/", condition_id);
    s.append("/stats");
    s
}

/// The query that asks for the first `limit` active markets.
pub open spec fn markets_query(limit: nat) -> Seq<(Seq<char>, Seq<char>)> {
    seq![("limit"@, decimal_text(limit)), ("active"@, "true"@)]
}

/// The query that asks for `limit` active markets behind the first `offset`.
pub open spec fn page_query(limit: nat, offset: nat) -> Seq<(Seq<char>, Seq<char>)> {
    seq![("limit"@, decimal_text(limit)), ("offset"@, decimal_text(offset)), ("active"@, "true"@)]
}

/// The number of markets to ask for: the one named, or the default.
pub open spec fn limit_or_default(limit: Option<u32>) -> nat {
    match limit {
        Some(n) => n as nat,
        None => DEFAULT_LIMIT as nat,
    }
}

/// The query of a request for the first active markets, `limit` of them or
/// the default number.
pub fn get_markets(limit: Option<u32>) -> (r: Vec<(String, String)>)
    ensures
        pair_seq(r@) == markets_query(limit_or_default(limit)),
{
    let n: u32 = match limit {
        Some(n) => n,
        None => DEFAULT_LIMIT,
    };
    let mut q: Vec<(String, String)> = Vec::new();
    q.push(pair("limit", decimal_string(n as u64).as_str()));
    q.push(pair("active", "true"));
    assert(pair_seq(q@) =~= markets_query(limit_or_default(limit)));
    q
}

/// The query of a request for one page: `limit` active markets behind the
/// first `offset`.
pub fn get_markets_paginated(limit: u32, offset: u64) -> (r: Vec<(String, String)>)
    ensures
        pair_seq(r@) == page_query(limit as nat, offset as nat),
{
    let mut q: Vec<(String, String)> = Vec::new();
    q.push(pair("limit", decimal_string(limit as u64).as_str()));
    q.push(pair("offset", decimal_string(offset).as_str()));
    q.push(pair("active", "true"));
    assert(pair_seq(q@) =~= page_query(limit as nat, offset as nat));
    q
}

/// A member of a query for a time, if one is given.
pub open spec fn time_member(name: Seq<char>, t: Option<i64>) -> Seq<(Seq<char>, Seq<char>)> {
    match t {
        Some(n) => seq![(name, signed_decimal_text(n as int))],
        None => Seq::empty(),
    }
}

/// The query that asks for the price history of a market, from `start_ts`
/// to `end_ts` as far as these are given.
pub open spec fn history_query(market_id: Seq<char>, start_ts: Option<i64>, end_ts: Option<i64>) -> Seq<
    (Seq<char>, Seq<char>),
> {
    seq![("market"@, market_id)] + time_member("startTs"@, start_ts) + time_member(
        "endTs"@,
        end_ts,
    )
}

/// The query of a request for the price history of `market_id`.
pub fn get_price_history(market_id: &str, start_ts: Option<i64>, end_ts: Option<i64>) -> (r: Vec<
    (String, String),
>)
    ensures
        pair_seq(r@) == history_query(market_id@, start_ts, end_ts),
{
    let mut q: Vec<(String, String)> = Vec::new();
    q.push(pair("market", market_id));
    match start_ts {
        Some(n) => {
            q.push(pair("startTs", signed_decimal_string(n).as_str()));
        },
        None => {},
    }
    match end_ts {
        Some(n) => {
            q.push(pair("endTs", signed_decimal_string(n).as_str()));
        },
        None => {},
    }
    assert(pair_seq(q@) =~= history_query(market_id@, start_ts, end_ts));
    q
}

/// Prices in their one form. The listing writes the prices of a market now
/// as a JSON array of strings, now as one of numbers: both are taken, and
/// both become the array of strings that holds each price as it was written.
/// Prices that are no such array, or that cannot be written again, stay as
/// they are.
pub open spec fn normalized_prices(prices: Option<Seq<char>>) -> Option<Seq<char>> {
    match prices {
        Some(text) => match scalar_array(text) {
            Some(items) => match json_text_array(items) {
                Some(again) => Some(again),
                None => Some(text),
            },
            None => Some(text),
        },
        None => None,
    }
}

/// A market with its prices in their one form.
pub open spec fn normalized(m: MarketView) -> MarketView {
    MarketView { outcome_prices: normalized_prices(m.outcome_prices), ..m }
}

/// The markets of a page, each with its prices in their one form.
pub open spec fn normalized_page(page: Seq<MarketView>) -> Seq<MarketView> {
    Seq::new(page.len(), |i: int| normalized(page[i]))
}

/// The prices `prices` in their one form.
pub fn normalize_prices(prices: &Option<String>) -> (r: Option<String>)
    ensures
        opt_text(r) == normalized_prices(opt_text(*prices)),
{
    match prices {
        Some(text) => match parse_scalar_array(text.as_str()) {
            Some(items) => match array_text(&items) {
                Some(again) => Some(again),
                None => Some(text.clone()),
            },
            None => Some(text.clone()),
        },
        None => None,
    }
}

/// The market `market` with its prices in their one form.
pub fn normalize(market: &Market) -> (r: Market)
    ensures
        r@ == normalized(market@),
{
    Market {
        condition_id: market.condition_id.clone(),
        question_id: opt_text_clone(&market.question_id),
        question: market.question.clone(),
        description: opt_text_clone(&market.description),
        market_slug: opt_text_clone(&market.market_slug),
        outcomes: market.outcomes.clone(),
        outcome_prices: normalize_prices(&market.outcome_prices),
        volume: opt_text_clone(&market.volume),
        liquidity: opt_text_clone(&market.liquidity),
        end_date: opt_text_clone(&market.end_date),
        active: market.active,
        closed: market.closed,
    }
}

/// The markets of `page`, each with its prices in their one form.
pub fn normalize_page(page: &Vec<Market>) -> (r: Vec<Market>)
    ensures
        market_views(r@) == normalized_page(market_views(page@)),
{
    let mut out: Vec<Market> = Vec::new();
    let mut i: usize = 0;
    while i < page.len()
        invariant
            i <= page.len(),
            out.len() == i,
            forall|j: int| 0 <= j < i ==> (#[trigger] out[j])@ == normalized(page[j]@),
        decreases page.len() - i,
    {
        out.push(normalize(&page[i]));
        i += 1;
    }
    assert(market_views(out@) =~= normalized_page(market_views(page@)));
    out
}

/// Whether a status says that the request succeeded.
pub open spec fn is_success(status: u16) -> bool {
    200 <= status <= 299
}

/// Value of the result of reading a page.
pub open spec fn page_result_view(r: Result<Vec<Market>, ScannerError>) -> Result<
    Seq<MarketView>,
    ScannerErrorView,
> {
    match r {
        Ok(page) => Ok(market_views(page@)),
        Err(e) => Err(e@),
    }
}

/// What an answer of the listing amounts to: with a status of success, the
/// markets read from its body, their prices in their one form, or no markets
/// where the body could not be read; with any other status, an error that
/// carries status and body.
pub open spec fn page_of_answer(status: u16, body: Seq<char>, decoded: Option<Seq<MarketView>>) -> Result<
    Seq<MarketView>,
    ScannerErrorView,
> {
    if is_success(status) {
        match decoded {
            Some(page) => Ok(normalized_page(page)),
            None => Ok(Seq::empty()),
        }
    } else {
        Err(ScannerErrorView::ApiError { status, body })
    }
}

/// Value of an optional page.
pub open spec fn opt_page_view(p: Option<Vec<Market>>) -> Option<Seq<MarketView>> {
    match p {
        Some(page) => Some(market_views(page@)),
        None => None,
    }
}

/// Reads an answer of the listing. `decoded` holds the markets that the body
/// was read as, `None` where it could not be read.
pub fn page_from_response(status: u16, body: String, decoded: Option<Vec<Market>>) -> (r: Result<
    Vec<Market>,
    ScannerError,
>)
    ensures
        page_result_view(r) == page_of_answer(status, body@, opt_page_view(decoded)),
{
    if 200 <= status && status <= 299 {
        match decoded {
            Some(page) => Ok(normalize_page(&page)),
            None => {
                let page: Vec<Market> = Vec::new();
                assert(market_views(page@) =~= Seq::<MarketView>::empty());
                Ok(page)
            },
        }
    } else {
        Err(ScannerError::ApiError { status, body })
    }
}

/// What an answer about one market amounts to: with a status of success,
/// the market read from its body, its prices in their one form, or the error
/// that says why the body could not be read; with any other status, an error
/// that carries status and body.
pub open spec fn market_of_answer(
    status: u16,
    body: Seq<char>,
    decoded: Result<MarketView, Seq<char>>,
) -> Result<MarketView, ScannerErrorView> {
    if is_success(status) {
        match decoded {
            Ok(m) => Ok(normalized(m)),
            Err(why) => Err(ScannerErrorView::DecodeError(why)),
        }
    } else {
        Err(ScannerErrorView::ApiError { status, body })
    }
}

/// Value of the result of reading one market.
pub open spec fn market_result_view(r: Result<Market, ScannerError>) -> Result<
    MarketView,
    ScannerErrorView,
> {
    match r {
        Ok(m) => Ok(m@),
        Err(e) => Err(e@),
    }
}

/// Value of what a body was read as.
pub open spec fn decoded_view(d: Result<Market, String>) -> Result<MarketView, Seq<char>> {
    match d {
        Ok(m) => Ok(m@),
        Err(why) => Err(why@),
    }
}

/// Reads an answer about one market. `decoded` holds the market that the
/// body was read as, or the reason why it could not be read.
pub fn get_market(status: u16, body: String, decoded: Result<Market, String>) -> (r: Result<
    Market,
    ScannerError,
>)
    ensures
        market_result_view(r) == market_of_answer(status, body@, decoded_view(decoded)),
{
    if 200 <= status && status <= 299 {
        match decoded {
            Ok(m) => Ok(normalize(&m)),
            Err(why) => Err(ScannerError::DecodeError(why)),
        }
    } else {
        Err(ScannerError::ApiError { status, body })
    }
}

/// What the stream does after a page.
#[derive(Clone, Copy, Debug, PartialEq, Eq, Structural)]
pub enum StreamStep {
    /// Ask for the next page.
    Continue,
    /// The page was the last one; `total` markets came in all.
    Done { total: u64 },
}

/// Where a stream through the whole listing stands: the size of its pages,
/// the place of the next page, and how many markets have come so far.
#[derive(Clone, Copy, Debug, PartialEq, Eq, Structural)]
pub struct PageCursor {
    pub batch_size: u32,
    pub offset: u64,
    pub total: u64,
}

/// What is said when the stream cannot count any further.
pub const STREAM_TOO_LONG: &'static str = "the listing is longer than can be counted";

/// Whether a page of `count` markets ends a stream of pages of `batch`: a
/// page that is shorter than asked for does.
pub open spec fn is_last_page(batch: nat, count: nat) -> bool {
    count < batch
}

/// The place of the next page and the count so far, after a page of `count`
/// markets has been handed on. The place moves on only behind a full page.
pub open spec fn after_page(batch: nat, offset: nat, total: nat, count: nat) -> (nat, nat) {
    if is_last_page(batch, count) {
        (offset, total + count)
    } else {
        (offset + batch, total + count)
    }
}

/// The course of a stream over the pages that the remote would serve, given
/// by their sizes.
pub struct StreamRun {
    /// How many pages were fetched and handed on.
    pub pages: nat,
    /// The place at which each of them was asked for.
    pub offsets: Seq<nat>,
    /// How many markets came in all.
    pub total: nat,
    /// Whether the stream saw its last page.
    pub finished: bool,
}

/// Runs a stream that stands at `offset` with `total` markets counted over
/// the pages of the given sizes: it hands each page on and stops behind the
/// first that is shorter than `batch`.
pub open spec fn stream_run(batch: nat, offset: nat, total: nat, sizes: Seq<nat>) -> StreamRun
    decreases sizes.len(),
{
    if sizes.len() == 0 {
        StreamRun { pages: 0, offsets: Seq::empty(), total, finished: false }
    } else {
        let next = after_page(batch, offset, total, sizes[0]);
        if is_last_page(batch, sizes[0]) {
            StreamRun { pages: 1, offsets: seq![offset], total: next.1, finished: true }
        } else {
            let rest = stream_run(batch, next.0, next.1, sizes.drop_first());
            StreamRun {
                pages: rest.pages + 1,
                offsets: seq![offset] + rest.offsets,
                total: rest.total,
                finished: rest.finished,
            }
        }
    }
}

impl PageCursor {
    /// A stream at its start.
    pub fn new(batch_size: u32) -> (r: PageCursor)
        ensures
            r == (PageCursor { batch_size, offset: 0, total: 0 }),
    {
        PageCursor { batch_size, offset: 0, total: 0 }
    }

    /// The query of the request for the page at which the stream stands.
    pub fn request(&self) -> (r: Vec<(String, String)>)
        ensures
            pair_seq(r@) == page_query(self.batch_size as nat, self.offset as nat),
    {
        get_markets_paginated(self.batch_size, self.offset)
    }

    /// Takes note of a page of `count` markets, after the page has been
    /// handed on: counts its markets, and either moves to the next page or
    /// ends the stream behind a short page. Fails, and changes nothing, where
    /// the count or the place would not fit.
    pub fn advance(&mut self, count: usize) -> (r: Result<StreamStep, ScannerError>)
        ensures
            final(self).batch_size == old(self).batch_size,
            match r {
                Ok(step) => {
                    let next = after_page(
                        old(self).batch_size as nat,
                        old(self).offset as nat,
                        old(self).total as nat,
                        count as nat,
                    );
                    &&& final(self).offset == next.0
                    &&& final(self).total == next.1
                    &&& step == if is_last_page(old(self).batch_size as nat, count as nat) {
                        StreamStep::Done { total: final(self).total }
                    } else {
                        StreamStep::Continue
                    }
                },
                Err(e) => {
                    let next = after_page(
                        old(self).batch_size as nat,
                        old(self).offset as nat,
                        old(self).total as nat,
                        count as nat,
                    );
                    &&& *final(self) == *old(self)
                    &&& (next.0 > u64::MAX || next.1 > u64::MAX)
                    &&& e@ == ScannerErrorView::StorageError(STREAM_TOO_LONG@)
                },
            },
    {
        let count64: u64 = count as u64;
        if count64 > u64::MAX - self.total {
            return Err(ScannerError::StorageError(String::from_str(STREAM_TOO_LONG)));
        }
        if count64 < self.batch_size as u64 {
            self.total = self.total + count64;
            Ok(StreamStep::Done { total: self.total })
        } else {
            if self.batch_size as u64 > u64::MAX - self.offset {
                return Err(ScannerError::StorageError(String::from_str(STREAM_TOO_LONG)));
            }
            self.total = self.total + count64;
            self.offset = self.offset + self.batch_size as u64;
            Ok(StreamStep::Continue)
        }
    }
}

impl PageCursor {
    /// As [`PageCursor::advance`], for a caller that gathers all pages: an
    /// empty page ends the stream whatever the size of the pages.
    pub fn advance_gathering(&mut self, count: usize) -> (r: Result<StreamStep, ScannerError>)
        ensures
            count == 0 ==> *final(self) == *old(self) && r == Ok::<StreamStep, ScannerError>(
                StreamStep::Done { total: old(self).total },
            ),
            count != 0 ==> final(self).batch_size == old(self).batch_size && match r {
                Ok(step) => {
                    let next = after_page(
                        old(self).batch_size as nat,
                        old(self).offset as nat,
                        old(self).total as nat,
                        count as nat,
                    );
                    &&& final(self).offset == next.0
                    &&& final(self).total == next.1
                    &&& step == if is_last_page(old(self).batch_size as nat, count as nat) {
                        StreamStep::Done { total: final(self).total }
                    } else {
                        StreamStep::Continue
                    }
                },
                Err(e) => {
                    let next = after_page(
                        old(self).batch_size as nat,
                        old(self).offset as nat,
                        old(self).total as nat,
                        count as nat,
                    );
                    &&& *final(self) == *old(self)
                    &&& (next.0 > u64::MAX || next.1 > u64::MAX)
                    &&& e@ == ScannerErrorView::StorageError(STREAM_TOO_LONG@)
                },
            },
    {
        if count == 0 {
            Ok(StreamStep::Done { total: self.total })
        } else {
            self.advance(count)
        }
    }
}

/// Milliseconds that a caller who gathers all pages waits between two pages.
pub const GATHER_PAUSE_MILLIS: u64 = 500;

/// A stream over pages of `batch` markets that meets `n` full pages and then
/// a shorter one of `k` markets hands on exactly these `n + 1` pages, asks
/// for them at the places `0, batch, 2 * batch, ..`, and counts `n * batch +
/// k` markets, whatever the remote would serve behind the short page.
pub proof fn lemma_stream_stops_at_short_page(batch: nat, n: nat, k: nat, sizes: Seq<nat>)
    requires
        sizes.len() > n,
        forall|i: int| 0 <= i < n ==> sizes[i] == batch,
        sizes[n as int] == k,
        k < batch,
    ensures
        stream_run(batch, 0, 0, sizes).finished,
        stream_run(batch, 0, 0, sizes).pages == n + 1,
        stream_run(batch, 0, 0, sizes).total == n * batch + k,
        stream_run(batch, 0, 0, sizes).offsets == Seq::new(n + 1, |i: int| (i * batch) as nat),
{
    lemma_stream_from(batch, 0, 0, n, k, sizes);
    assert(0 * batch == 0) by (nonlinear_arith);
    assert(stream_run(batch, 0, 0, sizes).offsets =~= Seq::new(n + 1, |i: int| (i * batch) as nat));
}

proof fn lemma_stream_from(batch: nat, offset: nat, total: nat, n: nat, k: nat, sizes: Seq<nat>)
    requires
        sizes.len() > n,
        forall|i: int| 0 <= i < n ==> sizes[i] == batch,
        sizes[n as int] == k,
        k < batch,
    ensures
        stream_run(batch, offset, total, sizes).finished,
        stream_run(batch, offset, total, sizes).pages == n + 1,
        stream_run(batch, offset, total, sizes).total == total + n * batch + k,
        stream_run(batch, offset, total, sizes).offsets == Seq::new(
            n + 1,
            |i: int| (offset + i * batch) as nat,
        ),
    decreases n,
{
    let run = stream_run(batch, offset, total, sizes);
    if n == 0 {
        assert(0 * batch == 0) by (nonlinear_arith);
        assert(run.offsets =~= Seq::new(1, |i: int| (offset + i * batch) as nat));
    } else {
        let rest_sizes = sizes.drop_first();
        assert(sizes[0] == batch);
        assert forall|i: int| 0 <= i < n - 1 implies rest_sizes[i] == batch by {
            assert(rest_sizes[i] == sizes[i + 1]);
        }
        assert(rest_sizes[n - 1] == sizes[n as int]);
        lemma_stream_from(batch, offset + batch, total + batch, (n - 1) as nat, k, rest_sizes);
        let rest = stream_run(batch, offset + batch, total + batch, rest_sizes);
        assert(total + batch + (n - 1) * batch + k == total + n * batch + k) by (nonlinear_arith);
        assert(0 * batch == 0) by (nonlinear_arith);
        assert forall|i: int| 0 <= i < n + 1 implies run.offsets[i] == (offset + i * batch) as nat by {
            if i > 0 {
                assert(run.offsets[i] == rest.offsets[i - 1]);
                assert(offset + batch + (i - 1) * batch == offset + i * batch)
                    by (nonlinear_arith);
            }
        }
        assert(run.offsets =~= Seq::new(n + 1, |i: int| (offset + i * batch) as nat));
    }
}

} // verus!
