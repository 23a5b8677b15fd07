//! Change detection: the markets seen so far, and what a new page of the
//! listing changes about them.

use crate::clock::Timestamp;
use crate::error::ScannerError;
use crate::table::KeyedTable;
use crate::text::text_seq;
use crate::types::{
    market_views, opt_text, opt_text_clone, opt_text_eq, EventType, Market, MarketEvent,
    MarketEventView, MarketView,
};
use vstd::prelude::*;

verus! {

/// The market last seen under each id.
pub struct TrackedMarkets {
    table: KeyedTable<Market>,
}

impl TrackedMarkets {
    /// The invariant of the table underneath.
    pub closed spec fn wf(&self) -> bool {
        self.table.wf()
    }

    /// The tracked markets as a map from id to market.
    pub closed spec fn view(&self) -> Map<Seq<char>, MarketView> {
        Map::new(|k: Seq<char>| self.table@.contains_key(k), |k: Seq<char>| self.table@[k]@)
    }

    /// The tracked ids, in the order in which they were first seen.
    pub closed spec fn ids(&self) -> Seq<Seq<char>> {
        self.table.ids()
    }

    /// The ids are those of the map, each once.
    pub proof fn lemma_ids(&self)
        requires
            self.wf(),
        ensures
            self.ids().no_duplicates(),
            forall|k: Seq<char>| self.ids().contains(k) <==> self@.contains_key(k),
    {
        self.table.lemma_shape();
        assert forall|k: Seq<char>| self.ids().contains(k) <==> self@.contains_key(k) by {
            if self@.contains_key(k) {
                assert(self.table@.contains_key(k));
                assert(self.ids()[self.table.place(k)] == k);
            }
        }
    }

    /// Nothing seen yet.
    pub fn new() -> (r: Self)
        ensures
            r.wf(),
            r@ == Map::<Seq<char>, MarketView>::empty(),
            r.ids() == Seq::<Seq<char>>::empty(),
    {
        let r = TrackedMarkets { table: KeyedTable::new() };
        assert(r@ =~= Map::<Seq<char>, MarketView>::empty());
        r
    }

    /// How many markets are tracked.
    pub fn len(&self) -> (r: usize)
        requires
            self.wf(),
        ensures
            r == self.ids().len(),
    {
        self.table.len()
    }

    /// The market last seen under `condition_id`.
    pub fn get(&self, condition_id: &str) -> (r: Option<&Market>)
        requires
            self.wf(),
        ensures
            match r {
                Some(m) => self@.contains_key(condition_id@) && m@ == self@[condition_id@],
                None => !self@.contains_key(condition_id@),
            },
    {
        self.table.get(condition_id)
    }

    /// Tracks `market` under its own id, in place of what was tracked there.
    pub fn insert(&mut self, market: Market)
        requires
            old(self).wf(),
        ensures
            final(self).wf(),
            final(self)@ == old(self)@.insert(market@.condition_id, market@),
            final(self).ids() == if old(self)@.contains_key(market@.condition_id) {
                old(self).ids()
            } else {
                old(self).ids().push(market@.condition_id)
            },
    {
        let key = market.condition_id.clone();
        self.table.insert(key, market);
        assert(final(self)@ =~= old(self)@.insert(market@.condition_id, market@));
    }

    /// The tracked ids, in the order in which they were first seen.
    pub fn condition_ids(&self) -> (r: Vec<String>)
        requires
            self.wf(),
        ensures
            text_seq(r@) == self.ids(),
    {
        let mut out: Vec<String> = Vec::new();
        let n = self.table.len();
        let mut i: usize = 0;
        while i < n
            invariant
                self.wf(),
                i <= n,
                n == self.ids().len(),
                out.len() == i,
                forall|j: int| 0 <= j < i ==> out[j]@ == self.ids()[j],
            decreases n - i,
        {
            out.push(self.table.key_at(i).clone());
            i += 1;
        }
        assert(text_seq(out@) =~= self.ids());
        out
    }
}

/// What is tracked under an id, if anything.
pub open spec fn tracked_under(seen: Map<Seq<char>, MarketView>, id: Seq<char>) -> Option<
    MarketView,
> {
    if seen.contains_key(id) {
        Some(seen[id])
    } else {
        None
    }
}

/// The kinds of change that a market shows against what was tracked under
/// its id, in the order in which they are reported: a market not tracked
/// before is new; a tracked one may have changed its prices, changed its
/// volume, and closed.
pub open spec fn market_changes(prior: Option<MarketView>, m: MarketView) -> Seq<EventType> {
    match prior {
        None => seq![EventType::NewMarket],
        Some(p) => {
            let prices = if m.outcome_prices != p.outcome_prices {
                seq![EventType::PriceChange]
            } else {
                Seq::<EventType>::empty()
            };
            let volume = if m.volume != p.volume {
                seq![EventType::VolumeUpdate]
            } else {
                Seq::<EventType>::empty()
            };
            let closed = if m.closed == Some(true) && p.closed != Some(true) {
                seq![EventType::MarketClosed]
            } else {
                Seq::<EventType>::empty()
            };
            prices + volume + closed
        },
    }
}

/// What is tracked after a page has been scanned: each market of the page
/// stands under its id, a later one in place of an earlier one.
pub open spec fn tracked_after(seen: Map<Seq<char>, MarketView>, page: Seq<MarketView>) -> Map<
    Seq<char>,
    MarketView,
>
    decreases page.len(),
{
    if page.len() == 0 {
        seen
    } else {
        tracked_after(seen, page.drop_last()).insert(page.last().condition_id, page.last())
    }
}

/// The changes that a page shows, market by market in the order of the page:
/// each with its kind and the market as the page reports it. A market is held
/// against what was tracked when its turn came, so against an earlier entry
/// of the same page where there is one.
pub open spec fn page_changes(seen: Map<Seq<char>, MarketView>, page: Seq<MarketView>) -> Seq<
    (EventType, MarketView),
>
    decreases page.len(),
{
    if page.len() == 0 {
        Seq::empty()
    } else {
        let m = page.last();
        let before = tracked_after(seen, page.drop_last());
        page_changes(seen, page.drop_last()) + market_changes(
            tracked_under(before, m.condition_id),
            m,
        ).map_values(|k: EventType| (k, m))
    }
}

/// Kind and market of each event of a sequence.
pub open spec fn event_changes(events: Seq<MarketEvent>) -> Seq<(EventType, MarketView)> {
    Seq::new(events.len(), |i: int| (events[i].event_type, events[i].market@))
}

/// Value of an optional reference to a market.
pub open spec fn opt_market_view(m: Option<&Market>) -> Option<MarketView> {
    match m {
        Some(x) => Some(x@),
        None => None,
    }
}

/// The kinds of change that `market` shows against `prior`, the market
/// tracked under its id so far.
pub fn diff_market(prior: Option<&Market>, market: &Market) -> (r: Vec<EventType>)
    ensures
        r@ == market_changes(opt_market_view(prior), market@),
{
    let mut kinds: Vec<EventType> = Vec::new();
    match prior {
        None => {
            kinds.push(EventType::NewMarket);
        },
        Some(p) => {
            if !opt_text_eq(&market.outcome_prices, &p.outcome_prices) {
                kinds.push(EventType::PriceChange);
            }
            if !opt_text_eq(&market.volume, &p.volume) {
                kinds.push(EventType::VolumeUpdate);
            }
            let closes = match market.closed {
                Some(true) => match p.closed {
                    Some(true) => false,
                    _ => true,
                },
                _ => false,
            };
            if closes {
                kinds.push(EventType::MarketClosed);
            }
        },
    }
    assert(kinds@ =~= market_changes(opt_market_view(prior), market@));
    kinds
}

/// Whether every event of a sequence carries the time `at`, where one is
/// given.
pub open spec fn stamped(events: Seq<MarketEvent>, at: Option<Timestamp>) -> bool {
    at is Some ==> forall|i: int| 0 <= i < events.len() ==> (#[trigger] events[i]).timestamp
        == at->0
}

/// Appends one event per kind, all about the same market, each stamped with
/// `at`, or with the time at which it is made where no time is given.
fn push_events(
    events: &mut Vec<MarketEvent>,
    market: &Market,
    kinds: &Vec<EventType>,
    at: Option<Timestamp>,
)
    requires
        stamped(old(events)@, at),
    ensures
        stamped(final(events)@, at),
        event_changes(final(events)@) == event_changes(old(events)@) + kinds@.map_values(
            |k: EventType| (k, market@),
        ),
{
    let mut i: usize = 0;
    while i < kinds.len()
        invariant
            i <= kinds.len(),
            stamped(events@, at),
            event_changes(events@) == event_changes(old(events)@) + kinds@.take(i as int).map_values(
                |k: EventType| (k, market@),
            ),
        decreases kinds.len() - i,
    {
        let ghost before = events@;
        let timestamp = match at {
            Some(t) => t,
            None => Timestamp::now(),
        };
        events.push(MarketEvent { market: market.clone(), timestamp, event_type: kinds[i] });
        assert(event_changes(events@) =~= event_changes(before).push((kinds[i as int], market@)));
        assert(kinds@.take(i + 1).map_values(|k: EventType| (k, market@)) =~= kinds@.take(
            i as int,
        ).map_values(|k: EventType| (k, market@)).push((kinds[i as int], market@)));
        i += 1;
    }
    assert(kinds@.take(kinds.len() as int) =~= kinds@);
}

fn scan_page(seen: &mut TrackedMarkets, page: &Vec<Market>, at: Option<Timestamp>) -> (events: Vec<
    MarketEvent,
>)
    requires
        old(seen).wf(),
    ensures
        final(seen).wf(),
        final(seen)@ == tracked_after(old(seen)@, market_views(page@)),
        event_changes(events@) == page_changes(old(seen)@, market_views(page@)),
        stamped(events@, at),
{
    let ghost views = market_views(page@);
    let mut events: Vec<MarketEvent> = Vec::new();
    let mut i: usize = 0;
    assert(views.take(0) =~= Seq::<MarketView>::empty());
    assert(event_changes(events@) =~= Seq::<(EventType, MarketView)>::empty());
    while i < page.len()
        invariant
            i <= page.len(),
            views == market_views(page@),
            seen.wf(),
            seen@ == tracked_after(old(seen)@, views.take(i as int)),
            event_changes(events@) == page_changes(old(seen)@, views.take(i as int)),
            stamped(events@, at),
        decreases page.len() - i,
    {
        let market = &page[i];
        proof {
            assert(views.take(i + 1).drop_last() =~= views.take(i as int));
            assert(views.take(i + 1).last() == market@);
        }
        let kinds = diff_market(seen.get(market.condition_id.as_str()), market);
        push_events(&mut events, market, &kinds, at);
        seen.insert(market.clone());
        i += 1;
    }
    assert(views.take(page.len() as int) =~= views);
    events
}

/// Holds a page of the listing against the tracked markets: reports every
/// change as an event, in the order of the page, and tracks each market of
/// the page from then on. Each event carries the time at which it was made.
pub fn scan_markets(seen: &mut TrackedMarkets, page: &Vec<Market>) -> (events: Vec<MarketEvent>)
    requires
        old(seen).wf(),
    ensures
        final(seen).wf(),
        final(seen)@ == tracked_after(old(seen)@, market_views(page@)),
        event_changes(events@) == page_changes(old(seen)@, market_views(page@)),
{
    scan_page(seen, page, None)
}

/// As [`scan_markets`], with every event stamped with the time `now`.
pub fn scan_markets_at(seen: &mut TrackedMarkets, page: &Vec<Market>, now: Timestamp) -> (events:
    Vec<MarketEvent>)
    requires
        old(seen).wf(),
    ensures
        final(seen).wf(),
        final(seen)@ == tracked_after(old(seen)@, market_views(page@)),
        event_changes(events@) == page_changes(old(seen)@, market_views(page@)),
        forall|i: int| 0 <= i < events.len() ==> (#[trigger] events[i]).timestamp == now,
{
    scan_page(seen, page, Some(now))
}

/// A market that comes again with the same prices, the same volume and the
/// same closed flag as it is tracked with yields no event.
pub proof fn lemma_unchanged_market_is_silent(seen: Map<Seq<char>, MarketView>, m: MarketView)
    requires
        seen.contains_key(m.condition_id),
        seen[m.condition_id].outcome_prices == m.outcome_prices,
        seen[m.condition_id].volume == m.volume,
        seen[m.condition_id].closed == m.closed,
    ensures
        page_changes(seen, seq![m]) == Seq::<(EventType, MarketView)>::empty(),
{
    let page = seq![m];
    assert(page.drop_last() =~= Seq::<MarketView>::empty());
    assert(tracked_after(seen, page.drop_last()) == seen);
    assert(page_changes(seen, page.drop_last()) == Seq::<(EventType, MarketView)>::empty());
    assert(page.last() == m);
    assert(tracked_under(seen, m.condition_id) == Some(seen[m.condition_id]));
    assert(market_changes(Some(seen[m.condition_id]), m) =~= Seq::<EventType>::empty());
    assert(page_changes(seen, page) =~= Seq::<(EventType, MarketView)>::empty());
}

/// Whatever was tracked before: once a market has been scanned, scanning a
/// market of the same id with the same prices, volume and closed flag yields
/// no event.
pub proof fn lemma_second_sight_is_silent(
    seen: Map<Seq<char>, MarketView>,
    first: MarketView,
    second: MarketView,
)
    requires
        first.condition_id == second.condition_id,
        first.outcome_prices == second.outcome_prices,
        first.volume == second.volume,
        first.closed == second.closed,
    ensures
        page_changes(tracked_after(seen, seq![first]), seq![second]) == Seq::<
            (EventType, MarketView),
        >::empty(),
{
    let page = seq![first];
    assert(page.drop_last() =~= Seq::<MarketView>::empty());
    assert(tracked_after(seen, page.drop_last()) == seen);
    assert(tracked_after(seen, page) == seen.insert(first.condition_id, first));
    lemma_unchanged_market_is_silent(tracked_after(seen, page), second);
}

/// A tracked market whose prices and volume both change and which closes in
/// the same step yields three events, in this order: price change, volume
/// update, market closed.
pub proof fn lemma_changes_come_in_order(seen: Map<Seq<char>, MarketView>, m: MarketView)
    requires
        seen.contains_key(m.condition_id),
        seen[m.condition_id].outcome_prices != m.outcome_prices,
        seen[m.condition_id].volume != m.volume,
        m.closed == Some(true),
        seen[m.condition_id].closed != Some(true),
    ensures
        page_changes(seen, seq![m]) == seq![
            (EventType::PriceChange, m),
            (EventType::VolumeUpdate, m),
            (EventType::MarketClosed, m),
        ],
{
    let page = seq![m];
    assert(page.drop_last() =~= Seq::<MarketView>::empty());
    assert(tracked_after(seen, page.drop_last()) == seen);
    assert(page_changes(seen, page.drop_last()) == Seq::<(EventType, MarketView)>::empty());
    assert(page.last() == m);
    assert(tracked_under(seen, m.condition_id) == Some(seen[m.condition_id]));
    assert(market_changes(Some(seen[m.condition_id]), m) =~= seq![
        EventType::PriceChange,
        EventType::VolumeUpdate,
        EventType::MarketClosed,
    ]);
    assert(page_changes(seen, page) =~= seq![
        (EventType::PriceChange, m),
        (EventType::VolumeUpdate, m),
        (EventType::MarketClosed, m),
    ]);
}

/// The changes of one market always form a part of the fixed order: either
/// the single kind for a new market, or price change before volume update
/// before market closed, each at most once.
pub proof fn lemma_changes_keep_order(prior: Option<MarketView>, m: MarketView)
    ensures
        prior is None ==> market_changes(prior, m) == seq![EventType::NewMarket],
        prior is Some ==> forall|i: int, j: int|
            0 <= i < j < market_changes(prior, m).len() ==> kind_rank(
                #[trigger] market_changes(prior, m)[i],
            ) < kind_rank(#[trigger] market_changes(prior, m)[j]),
        prior is Some ==> !market_changes(prior, m).contains(EventType::NewMarket),
{
    if prior is Some {
        let c = market_changes(prior, m);
        assert forall|i: int| 0 <= i < c.len() implies c[i] != EventType::NewMarket by {}
    }
}

/// Place of a kind in the order in which changes of one market are reported.
pub open spec fn kind_rank(kind: EventType) -> int {
    match kind {
        EventType::NewMarket => 0,
        EventType::PriceChange => 1,
        EventType::VolumeUpdate => 2,
        EventType::MarketClosed => 3,
    }
}

/// A market that is tracked as closed never yields another closing event.
pub proof fn lemma_closed_once(prior: MarketView, m: MarketView)
    requires
        prior.closed == Some(true),
    ensures
        !market_changes(Some(prior), m).contains(EventType::MarketClosed),
{
    let c = market_changes(Some(prior), m);
    assert forall|i: int| 0 <= i < c.len() implies c[i] != EventType::MarketClosed by {}
}

/// One write that follows from an event.
#[derive(Debug, PartialEq, Eq)]
pub enum StoreAction {
    /// Append the event to the stored events.
    SaveEvent(MarketEvent),
    /// Store the market as it stands now.
    SaveMarket(Market),
    /// Append the market's prices and volume to its price history.
    SavePriceHistory { condition_id: String, outcome_prices: Option<String>, volume: Option<String> },
}

/// Mathematical value of a [`StoreAction`].
pub enum StoreActionView {
    SaveEvent(MarketEventView),
    SaveMarket(MarketView),
    SavePriceHistory {
        condition_id: Seq<char>,
        outcome_prices: Option<Seq<char>>,
        volume: Option<Seq<char>>,
    },
}

impl View for StoreAction {
    type V = StoreActionView;

    open spec fn view(&self) -> StoreActionView {
        match self {
            StoreAction::SaveEvent(e) => StoreActionView::SaveEvent(e@),
            StoreAction::SaveMarket(m) => StoreActionView::SaveMarket(m@),
            StoreAction::SavePriceHistory { condition_id, outcome_prices, volume } =>
                StoreActionView::SavePriceHistory {
                condition_id: condition_id@,
                outcome_prices: opt_text(*outcome_prices),
                volume: opt_text(*volume),
            },
        }
    }
}

/// Values of the actions of a sequence.
pub open spec fn action_views(actions: Seq<StoreAction>) -> Seq<StoreActionView> {
    Seq::new(actions.len(), |i: int| actions[i]@)
}

/// Whether a market is stored: every market is, but one that is closed.
pub open spec fn still_open(m: MarketView) -> bool {
    m.closed != Some(true)
}

/// Whether an event of this kind adds a point to the price history.
pub open spec fn moves_price(kind: EventType) -> bool {
    kind == EventType::NewMarket || kind == EventType::PriceChange
}

/// The writes that follow from an event, in their order: the event itself;
/// the market, unless it is closed; a price point, for a new market and for
/// a change of price.
pub open spec fn event_actions(e: MarketEventView) -> Seq<StoreActionView> {
    let market = if still_open(e.market) {
        seq![StoreActionView::SaveMarket(e.market)]
    } else {
        Seq::<StoreActionView>::empty()
    };
    let point = if moves_price(e.event_type) {
        seq![
            StoreActionView::SavePriceHistory {
                condition_id: e.market.condition_id,
                outcome_prices: e.market.outcome_prices,
                volume: e.market.volume,
            },
        ]
    } else {
        Seq::<StoreActionView>::empty()
    };
    seq![StoreActionView::SaveEvent(e)] + market + point
}

fn is_open(market: &Market) -> (r: bool)
    ensures
        r == still_open(market@),
{
    match market.closed {
        Some(true) => false,
        _ => true,
    }
}

/// The writes that follow from `event`, in their order.
pub fn handle_event(event: &MarketEvent) -> (r: Vec<StoreAction>)
    ensures
        action_views(r@) == event_actions(event@),
{
    let mut actions: Vec<StoreAction> = Vec::new();
    actions.push(StoreAction::SaveEvent(event.clone()));
    if is_open(&event.market) {
        actions.push(StoreAction::SaveMarket(event.market.clone()));
    }
    let with_point = match event.event_type {
        EventType::NewMarket => true,
        EventType::PriceChange => true,
        _ => false,
    };
    if with_point {
        actions.push(
            StoreAction::SavePriceHistory {
                condition_id: event.market.condition_id.clone(),
                outcome_prices: opt_text_clone(&event.market.outcome_prices),
                volume: opt_text_clone(&event.market.volume),
            },
        );
    }
    assert(action_views(actions@) =~= event_actions(event@));
    actions
}

/// The markets of a page that are stored: those that are not closed, in the
/// order of the page.
pub open spec fn open_markets(page: Seq<MarketView>) -> Seq<MarketView>
    decreases page.len(),
{
    if page.len() == 0 {
        Seq::empty()
    } else {
        let rest = open_markets(page.drop_last());
        if still_open(page.last()) {
            rest.push(page.last())
        } else {
            rest
        }
    }
}

/// No closed market is among those that are stored, and each of them comes
/// from the page.
pub proof fn lemma_open_markets(page: Seq<MarketView>)
    ensures
        forall|i: int|
            0 <= i < open_markets(page).len() ==> still_open(#[trigger] open_markets(page)[i])
                && page.contains(open_markets(page)[i]),
        forall|i: int|
            0 <= i < page.len() && still_open(page[i]) ==> open_markets(page).contains(
                #[trigger] page[i],
            ),
        open_markets(page).len() <= page.len(),
    decreases page.len(),
{
    if page.len() > 0 {
        let before = page.drop_last();
        lemma_open_markets(before);
        let kept = open_markets(page);
        let rest = open_markets(before);
        assert forall|i: int| 0 <= i < kept.len() implies still_open(#[trigger] kept[i])
            && page.contains(kept[i]) by {
            if i < rest.len() {
                assert(kept[i] == rest[i]);
                assert(before.contains(rest[i]));
                let j = choose|j: int| 0 <= j < before.len() && before[j] == rest[i];
                assert(page[j] == rest[i]);
            } else {
                assert(kept[i] == page.last());
                assert(page[page.len() - 1] == page.last());
            }
        }
        assert forall|i: int| 0 <= i < page.len() && still_open(page[i]) implies kept.contains(
            #[trigger] page[i],
        ) by {
            if i < before.len() {
                assert(before[i] == page[i]);
                assert(rest.contains(before[i]));
                let j = choose|j: int| 0 <= j < rest.len() && rest[j] == before[i];
                assert(kept[j] == page[i]);
            } else {
                assert(kept[kept.len() - 1] == page[i]);
            }
        }
    }
}

/// The markets of `page` that are to be stored: all but the closed ones.
pub fn markets_to_save(page: &Vec<Market>) -> (r: Vec<Market>)
    ensures
        market_views(r@) == open_markets(market_views(page@)),
        forall|i: int| 0 <= i < r.len() ==> (#[trigger] r[i])@.closed != Some(true),
{
    let ghost views = market_views(page@);
    let mut out: Vec<Market> = Vec::new();
    let mut i: usize = 0;
    assert(views.take(0) =~= Seq::<MarketView>::empty());
    assert(market_views(out@) =~= Seq::<MarketView>::empty());
    while i < page.len()
        invariant
            i <= page.len(),
            views == market_views(page@),
            market_views(out@) == open_markets(views.take(i as int)),
        decreases page.len() - i,
    {
        proof {
            assert(views.take(i + 1).drop_last() =~= views.take(i as int));
            assert(views.take(i + 1).last() == page[i as int]@);
        }
        let ghost before = out@;
        if is_open(&page[i]) {
            out.push(page[i].clone());
            assert(market_views(out@) =~= market_views(before).push(page[i as int]@));
        }
        i += 1;
    }
    assert(views.take(page.len() as int) =~= views);
    proof {
        lemma_open_markets(views);
        assert forall|i: int| 0 <= i < out.len() implies (#[trigger] out[i])@.closed != Some(
            true,
        ) by {
            assert(market_views(out@)[i] == out[i]@);
            assert(still_open(open_markets(views)[i]));
        }
    }
    out
}

/// The markets that the lookups of a warm-up found, in their order.
pub open spec fn found_markets(lookups: Seq<Option<Market>>) -> Seq<MarketView>
    decreases lookups.len(),
{
    if lookups.len() == 0 {
        Seq::empty()
    } else {
        let rest = found_markets(lookups.drop_last());
        match lookups.last() {
            Some(m) => rest.push(m@),
            None => rest,
        }
    }
}

/// The scanner's state and decisions. It performs no I/O: the caller fetches
/// pages, waits between rounds and carries out the writes that the scanner
/// asks for.
pub struct MarketScanner {
    seen: TrackedMarkets,
    persists: bool,
}

impl MarketScanner {
    /// The invariant of the tracked markets.
    pub closed spec fn wf(&self) -> bool {
        self.seen.wf()
    }

    /// The tracked markets, as a map from id to market.
    pub closed spec fn view(&self) -> Map<Seq<char>, MarketView> {
        self.seen@
    }

    /// Whether a store stands behind the scanner.
    pub closed spec fn has_database(&self) -> bool {
        self.persists
    }

    /// A scanner without a store: it reports events and asks for no write.
    pub fn new() -> (r: Self)
        ensures
            r.wf(),
            r@ == Map::<Seq<char>, MarketView>::empty(),
            !r.has_database(),
    {
        MarketScanner { seen: TrackedMarkets::new(), persists: false }
    }

    /// A scanner with a store behind it.
    pub fn with_database() -> (r: Self)
        ensures
            r.wf(),
            r@ == Map::<Seq<char>, MarketView>::empty(),
            r.has_database(),
    {
        MarketScanner { seen: TrackedMarkets::new(), persists: true }
    }

    /// How many markets are tracked.
    pub fn tracked_count(&self) -> (r: usize)
        requires
            self.wf(),
        ensures
            r == self.tracked_ids().len(),
    {
        self.seen.len()
    }

    /// The tracked ids, in the order in which they were first seen.
    pub closed spec fn tracked_ids(&self) -> Seq<Seq<char>> {
        self.seen.ids()
    }

    /// The market tracked under `condition_id`.
    pub fn tracked_market(&self, condition_id: &str) -> (r: Option<&Market>)
        requires
            self.wf(),
        ensures
            match r {
                Some(m) => self@.contains_key(condition_id@) && m@ == self@[condition_id@],
                None => !self@.contains_key(condition_id@),
            },
    {
        self.seen.get(condition_id)
    }

    /// Warms the scanner up before its first round. `lookups` holds what the
    /// store returned for each of its ids, `None` where it returned nothing
    /// or failed. With a store, the markets found are tracked from now on, in
    /// place of whatever was tracked; without one, nothing changes.
    pub fn start_scanning(&mut self, lookups: &Vec<Option<Market>>)
        requires
            old(self).wf(),
        ensures
            final(self).wf(),
            final(self).has_database() == old(self).has_database(),
            final(self)@ == if old(self).has_database() {
                tracked_after(Map::<Seq<char>, MarketView>::empty(), found_markets(lookups@))
            } else {
                old(self)@
            },
    {
        if !self.persists {
            return ;
        }
        let mut seen = TrackedMarkets::new();
        let mut i: usize = 0;
        assert(lookups@.take(0) =~= Seq::<Option<Market>>::empty());
        while i < lookups.len()
            invariant
                i <= lookups.len(),
                seen.wf(),
                seen@ == tracked_after(
                    Map::<Seq<char>, MarketView>::empty(),
                    found_markets(lookups@.take(i as int)),
                ),
            decreases lookups.len() - i,
        {
            proof {
                assert(lookups@.take(i + 1).drop_last() =~= lookups@.take(i as int));
                assert(lookups@.take(i + 1).last() == lookups[i as int]);
            }
            match &lookups[i] {
                Some(m) => {
                    let ghost found = found_markets(lookups@.take(i as int));
                    assert(found.push(m@).drop_last() =~= found);
                    seen.insert(m.clone());
                },
                None => {},
            }
            i += 1;
        }
        assert(lookups@.take(lookups.len() as int) =~= lookups@);
        self.seen = seen;
    }

    /// One round of the live loop, given what fetching the live window
    /// returned. A page is held against the tracked markets and its changes
    /// come back as events; a failed fetch changes nothing and is handed
    /// back, for the caller to note before the next round.
    pub fn scan_markets(&mut self, fetched: Result<Vec<Market>, ScannerError>) -> (r: Result<
        Vec<MarketEvent>,
        ScannerError,
    >)
        requires
            old(self).wf(),
        ensures
            final(self).wf(),
            final(self).has_database() == old(self).has_database(),
            match fetched {
                Ok(page) => r is Ok && final(self)@ == tracked_after(
                    old(self)@,
                    market_views(page@),
                ) && event_changes(r->Ok_0@) == page_changes(old(self)@, market_views(page@)),
                Err(e) => r == Err::<Vec<MarketEvent>, ScannerError>(e) && final(self)@ == old(
                    self,
                )@,
            },
    {
        match fetched {
            Ok(page) => Ok(scan_markets(&mut self.seen, &page)),
            Err(e) => Err(e),
        }
    }

    /// The writes that follow from `event`: none without a store.
    pub fn handle_event(&self, event: &MarketEvent) -> (r: Vec<StoreAction>)
        ensures
            action_views(r@) == if self.has_database() {
                event_actions(event@)
            } else {
                Seq::<StoreActionView>::empty()
            },
    {
        if self.persists {
            handle_event(event)
        } else {
            let r: Vec<StoreAction> = Vec::new();
            assert(action_views(r@) =~= Seq::<StoreActionView>::empty());
            r
        }
    }

    /// What to store of one page of the full listing: its markets that are
    /// not closed, as one batch; nothing without a store.
    pub fn scan_all_markets(&self, page: &Vec<Market>) -> (r: Vec<Market>)
        ensures
            market_views(r@) == if self.has_database() {
                open_markets(market_views(page@))
            } else {
                Seq::<MarketView>::empty()
            },
            forall|i: int| 0 <= i < r.len() ==> (#[trigger] r[i])@.closed != Some(true),
    {
        if self.persists {
            markets_to_save(page)
        } else {
            let r: Vec<Market> = Vec::new();
            assert(market_views(r@) =~= Seq::<MarketView>::empty());
            r
        }
    }
}

/// The number of markets asked for in each round of the live loop.
pub const LIVE_WINDOW: u32 = 50;

} // verus!
