//! Record shapes shared by every component.

use crate::clock::Timestamp;
use crate::text::text_eq;
use vstd::prelude::*;

verus! {

/// View of an optional string.
pub open spec fn opt_text(s: Option<String>) -> Option<Seq<char>> {
    match s {
        Some(t) => Some(t@),
        None => None,
    }
}

/// Compares two optional strings by their contents.
pub fn opt_text_eq(a: &Option<String>, b: &Option<String>) -> (r: bool)
    ensures
        r == (opt_text(*a) == opt_text(*b)),
{
    match (a, b) {
        (Some(x), Some(y)) => *x == *y,
        (None, None) => true,
        _ => false,
    }
}

/// Copies an optional string.
pub fn opt_text_clone(a: &Option<String>) -> (r: Option<String>)
    ensures
        r == *a,
{
    match a {
        Some(x) => Some(x.clone()),
        None => None,
    }
}

/// What is known of a market, as the remote listing reports it.
#[derive(Debug, PartialEq, Eq)]
pub struct Market {
    pub condition_id: String,
    pub question_id: Option<String>,
    pub question: String,
    pub description: Option<String>,
    pub market_slug: Option<String>,
    pub outcomes: String,
    pub outcome_prices: Option<String>,
    pub volume: Option<String>,
    pub liquidity: Option<String>,
    pub end_date: Option<String>,
    pub active: Option<bool>,
    pub closed: Option<bool>,
}

/// Mathematical value of a [`Market`].
pub struct MarketView {
    pub condition_id: Seq<char>,
    pub question_id: Option<Seq<char>>,
    pub question: Seq<char>,
    pub description: Option<Seq<char>>,
    pub market_slug: Option<Seq<char>>,
    pub outcomes: Seq<char>,
    pub outcome_prices: Option<Seq<char>>,
    pub volume: Option<Seq<char>>,
    pub liquidity: Option<Seq<char>>,
    pub end_date: Option<Seq<char>>,
    pub active: Option<bool>,
    pub closed: Option<bool>,
}

impl View for Market {
    type V = MarketView;

    open spec fn view(&self) -> MarketView {
        MarketView {
            condition_id: self.condition_id@,
            question_id: opt_text(self.question_id),
            question: self.question@,
            description: opt_text(self.description),
            market_slug: opt_text(self.market_slug),
            outcomes: self.outcomes@,
            outcome_prices: opt_text(self.outcome_prices),
            volume: opt_text(self.volume),
            liquidity: opt_text(self.liquidity),
            end_date: opt_text(self.end_date),
            active: self.active,
            closed: self.closed,
        }
    }
}

impl Clone for Market {
    fn clone(&self) -> (r: Self)
        ensures
            r == *self,
    {
        Market {
            condition_id: self.condition_id.clone(),
            question_id: opt_text_clone(&self.question_id),
            question: self.question.clone(),
            description: opt_text_clone(&self.description),
            market_slug: opt_text_clone(&self.market_slug),
            outcomes: self.outcomes.clone(),
            outcome_prices: opt_text_clone(&self.outcome_prices),
            volume: opt_text_clone(&self.volume),
            liquidity: opt_text_clone(&self.liquidity),
            end_date: opt_text_clone(&self.end_date),
            active: self.active,
            closed: self.closed,
        }
    }
}

/// Values of the markets of a sequence.
pub open spec fn market_views(markets: Seq<Market>) -> Seq<MarketView> {
    Seq::new(markets.len(), |i: int| markets[i]@)
}

/// The kind of change that an event reports.
#[derive(Clone, Copy, Debug, PartialEq, Eq, Structural)]
pub enum EventType {
    NewMarket,
    PriceChange,
    VolumeUpdate,
    MarketClosed,
}

/// The short text under which a kind of event is stored.
pub open spec fn kind_name(kind: EventType) -> Seq<char> {
    match kind {
        EventType::NewMarket => "NewMarket"@,
        EventType::PriceChange => "PriceChange"@,
        EventType::VolumeUpdate => "VolumeUpdate"@,
        EventType::MarketClosed => "MarketClosed"@,
    }
}

impl EventType {
    /// The short text under which this kind is stored.
    pub fn name(&self) -> (r: &'static str)
        ensures
            r@ == kind_name(*self),
    {
        match self {
            EventType::NewMarket => "NewMarket",
            EventType::PriceChange => "PriceChange",
            EventType::VolumeUpdate => "VolumeUpdate",
            EventType::MarketClosed => "MarketClosed",
        }
    }

    /// The kind that a stored text names, if it names one.
    pub fn from_name(name: &str) -> (r: Option<EventType>)
        ensures
            match r {
                Some(kind) => kind_name(kind) == name@,
                None => forall|kind: EventType| kind_name(kind) != name@,
            },
    {
        if text_eq(name, "NewMarket") {
            Some(EventType::NewMarket)
        } else if text_eq(name, "PriceChange") {
            Some(EventType::PriceChange)
        } else if text_eq(name, "VolumeUpdate") {
            Some(EventType::VolumeUpdate)
        } else if text_eq(name, "MarketClosed") {
            Some(EventType::MarketClosed)
        } else {
            None
        }
    }
}

/// A change seen on a market: the market as it stood after the change, the
/// time the change was seen, and what changed.
#[derive(Debug, PartialEq, Eq)]
pub struct MarketEvent {
    pub market: Market,
    pub timestamp: Timestamp,
    pub event_type: EventType,
}

/// Mathematical value of a [`MarketEvent`].
pub struct MarketEventView {
    pub market: MarketView,
    pub timestamp: Timestamp,
    pub event_type: EventType,
}

impl View for MarketEvent {
    type V = MarketEventView;

    open spec fn view(&self) -> MarketEventView {
        MarketEventView {
            market: self.market@,
            timestamp: self.timestamp,
            event_type: self.event_type,
        }
    }
}

impl Clone for MarketEvent {
    fn clone(&self) -> (r: Self)
        ensures
            r == *self,
    {
        MarketEvent {
            market: self.market.clone(),
            timestamp: self.timestamp,
            event_type: self.event_type,
        }
    }
}

/// Values of the events of a sequence.
pub open spec fn event_views(events: Seq<MarketEvent>) -> Seq<MarketEventView> {
    Seq::new(events.len(), |i: int| events[i]@)
}

/// One page of the remote listing in its enveloped form.
#[derive(Debug, PartialEq, Eq)]
pub struct MarketsResponse {
    pub data: Vec<Market>,
    pub next_cursor: Option<String>,
}

/// Prices and volume of a market at one point in time.
#[derive(Debug, PartialEq, Eq)]
pub struct PricePoint {
    pub outcome_prices: String,
    pub volume: String,
    pub timestamp: Timestamp,
}

/// Mathematical value of a [`PricePoint`].
pub struct PricePointView {
    pub outcome_prices: Seq<char>,
    pub volume: Seq<char>,
    pub timestamp: Timestamp,
}

impl View for PricePoint {
    type V = PricePointView;

    open spec fn view(&self) -> PricePointView {
        PricePointView {
            outcome_prices: self.outcome_prices@,
            volume: self.volume@,
            timestamp: self.timestamp,
        }
    }
}

impl Clone for PricePoint {
    fn clone(&self) -> (r: Self)
        ensures
            r == *self,
    {
        PricePoint {
            outcome_prices: self.outcome_prices.clone(),
            volume: self.volume.clone(),
            timestamp: self.timestamp,
        }
    }
}

/// Values of the price points of a sequence.
pub open spec fn point_views(points: Seq<PricePoint>) -> Seq<PricePointView> {
    Seq::new(points.len(), |i: int| points[i]@)
}

} // verus!
