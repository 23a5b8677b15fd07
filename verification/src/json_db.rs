//! The snapshot store: markets, events and price histories held in memory,
//! from where the caller writes them to two files of one directory.

use crate::clock::Timestamp;
use crate::db::{event_summary, RecentEvent, RecentEventView};
use crate::error::{ScannerError, ScannerErrorView};
use crate::table::KeyedTable;
use crate::text::{join2, or_blank, text_or_blank, text_seq};
use crate::types::{
    event_views, kind_name, market_views, opt_text, point_views, EventType, Market, MarketEvent,
    MarketEventView, MarketView, PricePoint, PricePointView,
};
use vstd::prelude::*;
use vstd::string::StringExecFns;

verus! {

/// Name of the file that holds the markets.
pub const MARKETS_FILE: &'static str = "markets.json";

/// Name of the file that holds the recent events.
pub const EVENTS_FILE: &'static str = "events.json";

/// How many price points the store keeps of one market.
pub const HISTORY_CAP: usize = 1000;

/// How many events the store keeps.
pub const EVENTS_CAP: usize = 1000;

/// What is said when a count has reached the largest number it can take.
pub const COUNT_EXHAUSTED: &'static str = "the count cannot grow any further";

/// A market as the store holds it: the market as last seen, the time at
/// which the store first saw its id, and the time of the last update.
#[derive(Debug, PartialEq, Eq)]
pub struct StoredMarket {
    pub market: Market,
    pub first_seen_at: Timestamp,
    pub last_updated_at: Timestamp,
}

/// Mathematical value of a [`StoredMarket`].
pub struct StoredMarketView {
    pub market: MarketView,
    pub first_seen_at: Timestamp,
    pub last_updated_at: Timestamp,
}

impl View for StoredMarket {
    type V = StoredMarketView;

    open spec fn view(&self) -> StoredMarketView {
        StoredMarketView {
            market: self.market@,
            first_seen_at: self.first_seen_at,
            last_updated_at: self.last_updated_at,
        }
    }
}

impl Clone for StoredMarket {
    fn clone(&self) -> (r: Self)
        ensures
            r == *self,
    {
        StoredMarket {
            market: self.market.clone(),
            first_seen_at: self.first_seen_at,
            last_updated_at: self.last_updated_at,
        }
    }
}

/// A time read from a file, or `default` where the file gave none.
pub open spec fn time_or(t: Option<Timestamp>, default: Timestamp) -> Timestamp {
    match t {
        Some(x) => x,
        None => default,
    }
}

impl StoredMarket {
    /// A stored market as read from a file at the time `loaded_at`. Where
    /// the file gave no time of first sight, the time of loading stands in;
    /// where it gave no time of the last update, the time of first sight.
    pub fn restored(
        market: Market,
        first_seen_at: Option<Timestamp>,
        last_updated_at: Option<Timestamp>,
        loaded_at: Timestamp,
    ) -> (r: StoredMarket)
        ensures
            r.market == market,
            r.first_seen_at == time_or(first_seen_at, loaded_at),
            r.last_updated_at == time_or(last_updated_at, time_or(first_seen_at, loaded_at)),
    {
        let first = match first_seen_at {
            Some(t) => t,
            None => loaded_at,
        };
        let last = match last_updated_at {
            Some(t) => t,
            None => first,
        };
        StoredMarket { market, first_seen_at: first, last_updated_at: last }
    }
}

/// Values of the stored markets of a sequence.
pub open spec fn stored_views(records: Seq<StoredMarket>) -> Seq<StoredMarketView> {
    Seq::new(records.len(), |i: int| records[i]@)
}

/// How many events of each kind were saved.
#[derive(Clone, Copy, Debug, PartialEq, Eq, Structural)]
pub struct KindCounts {
    pub new_market: u64,
    pub price_change: u64,
    pub volume_update: u64,
    pub market_closed: u64,
}

impl KindCounts {
    /// The count of one kind.
    pub open spec fn of(self, kind: EventType) -> int {
        match kind {
            EventType::NewMarket => self.new_market as int,
            EventType::PriceChange => self.price_change as int,
            EventType::VolumeUpdate => self.volume_update as int,
            EventType::MarketClosed => self.market_closed as int,
        }
    }

    /// The count of all kinds together.
    pub open spec fn total(self) -> int {
        self.new_market + self.price_change + self.volume_update + self.market_closed
    }

    /// The counts after one more event of `kind`.
    pub open spec fn plus_one(self, kind: EventType) -> KindCounts
        recommends
            self.of(kind) < u64::MAX,
    {
        match kind {
            EventType::NewMarket => KindCounts {
                new_market: (self.new_market + 1) as u64,
                ..self
            },
            EventType::PriceChange => KindCounts {
                price_change: (self.price_change + 1) as u64,
                ..self
            },
            EventType::VolumeUpdate => KindCounts {
                volume_update: (self.volume_update + 1) as u64,
                ..self
            },
            EventType::MarketClosed => KindCounts {
                market_closed: (self.market_closed + 1) as u64,
                ..self
            },
        }
    }
}

/// What the store holds.
pub struct JsonDatabaseView {
    /// The stored market under each id.
    pub markets: Map<Seq<char>, StoredMarketView>,
    /// The price points kept of each market, oldest first.
    pub histories: Map<Seq<char>, Seq<PricePointView>>,
    /// The events kept, oldest first.
    pub events: Seq<MarketEventView>,
    /// How many events were saved, by kind.
    pub counts: KindCounts,
}

/// The markets after `m` was saved at the time `now`: `m` stands under its
/// id with `now` as the time of its last update; the time of first sight is
/// the one that stood there before, or `now` for an id that is new.
pub open spec fn upsert(markets: Map<Seq<char>, StoredMarketView>, m: MarketView, now: Timestamp) -> Map<
    Seq<char>,
    StoredMarketView,
> {
    let first = if markets.contains_key(m.condition_id) {
        markets[m.condition_id].first_seen_at
    } else {
        now
    };
    markets.insert(
        m.condition_id,
        StoredMarketView { market: m, first_seen_at: first, last_updated_at: now },
    )
}

/// The markets after a batch was saved at the time `now`: the same as after
/// saving its markets one by one, in their order.
pub open spec fn upsert_all(
    markets: Map<Seq<char>, StoredMarketView>,
    batch: Seq<MarketView>,
    now: Timestamp,
) -> Map<Seq<char>, StoredMarketView>
    decreases batch.len(),
{
    if batch.len() == 0 {
        markets
    } else {
        upsert(upsert_all(markets, batch.drop_last(), now), batch.last(), now)
    }
}

/// A sequence cut to a cap by dropping its first element: what becomes of a
/// sequence that was within the cap before one element was appended.
pub open spec fn capped<T>(s: Seq<T>, cap: int) -> Seq<T> {
    if s.len() > cap {
        s.drop_first()
    } else {
        s
    }
}

/// The last elements of a sequence, the last one first: `limit` of them, or
/// all where there are fewer, or none where `limit` is not positive.
pub open spec fn newest_first<T>(s: Seq<T>, limit: int) -> Seq<T> {
    let n = if limit <= 0 {
        0
    } else if limit < s.len() {
        limit
    } else {
        s.len() as int
    };
    Seq::new(n as nat, |i: int| s[s.len() - 1 - i])
}

/// What the list of recent events shows of each event of a sequence.
pub open spec fn event_summaries(events: Seq<MarketEventView>) -> Seq<RecentEventView> {
    Seq::new(events.len(), |i: int| event_summary(events[i]))
}

/// Values of the recent events of a sequence.
pub open spec fn recent_views(events: Seq<RecentEvent>) -> Seq<RecentEventView> {
    Seq::new(events.len(), |i: int| events[i]@)
}

/// The entry of the statistics for one kind: its name and count, and no
/// entry for a kind of which no event was saved.
pub open spec fn kind_entry(counts: KindCounts, kind: EventType) -> Seq<(Seq<char>, i64)> {
    if counts.of(kind) > 0 {
        seq![(kind_name(kind), counts.of(kind) as i64)]
    } else {
        Seq::empty()
    }
}

/// The statistics: an entry for each kind of which events were saved, then
/// the entry named `Total` with the count of all events.
pub open spec fn stats_of(counts: KindCounts) -> Seq<(Seq<char>, i64)> {
    kind_entry(counts, EventType::NewMarket) + kind_entry(counts, EventType::PriceChange)
        + kind_entry(counts, EventType::VolumeUpdate) + kind_entry(counts, EventType::MarketClosed)
        + seq![(crate::db::TOTAL@, counts.total() as i64)]
}

/// Name and count of each entry of a sequence.
pub open spec fn entry_views(entries: Seq<(String, i64)>) -> Seq<(Seq<char>, i64)> {
    Seq::new(entries.len(), |i: int| (entries[i].0@, entries[i].1))
}

/// The price points kept of a market, oldest first; none for a market of
/// which no point was saved.
pub open spec fn history_of(histories: Map<Seq<char>, Seq<PricePointView>>, id: Seq<char>) -> Seq<
    PricePointView,
> {
    if histories.contains_key(id) {
        histories[id]
    } else {
        Seq::empty()
    }
}

/// The price point that is saved for the given prices and volume at the
/// time `now`: absent prices or volume are saved as the empty text.
pub open spec fn new_point(prices: Option<Seq<char>>, volume: Option<Seq<char>>, now: Timestamp) -> PricePointView {
    PricePointView {
        outcome_prices: text_or_blank(prices),
        volume: text_or_blank(volume),
        timestamp: now,
    }
}

/// The histories after a point was appended to that of `id`: the point
/// stands last, and the oldest point has left where the cap was reached.
pub open spec fn append_point(
    histories: Map<Seq<char>, Seq<PricePointView>>,
    id: Seq<char>,
    point: PricePointView,
) -> Map<Seq<char>, Seq<PricePointView>> {
    histories.insert(id, capped(history_of(histories, id).push(point), HISTORY_CAP as int))
}

/// The markets that a list of stored markets amounts to: each under the id
/// of its market, a later one in place of an earlier one of the same id.
pub open spec fn loaded_markets(records: Seq<StoredMarketView>) -> Map<Seq<char>, StoredMarketView>
    decreases records.len(),
{
    if records.len() == 0 {
        Map::empty()
    } else {
        loaded_markets(records.drop_last()).insert(
            records.last().market.condition_id,
            records.last(),
        )
    }
}

/// The newest elements of a sequence, in their order: the last `cap` of
/// them, or all where there are no more than that.
pub open spec fn newest<T>(s: Seq<T>, cap: int) -> Seq<T> {
    if s.len() > cap {
        s.subrange(s.len() - cap, s.len() as int)
    } else {
        s
    }
}

/// How many events of a sequence are of the given kind.
pub open spec fn kind_count(events: Seq<MarketEventView>, kind: EventType) -> nat
    decreases events.len(),
{
    if events.len() == 0 {
        0
    } else {
        kind_count(events.drop_last(), kind) + if events.last().event_type == kind {
            1nat
        } else {
            0nat
        }
    }
}

/// The counts by kind of the events of a sequence.
pub open spec fn tally(events: Seq<MarketEventView>) -> KindCounts {
    KindCounts {
        new_market: kind_count(events, EventType::NewMarket) as u64,
        price_change: kind_count(events, EventType::PriceChange) as u64,
        volume_update: kind_count(events, EventType::VolumeUpdate) as u64,
        market_closed: kind_count(events, EventType::MarketClosed) as u64,
    }
}

/// Of a sequence of events, no more are of one kind than there are events.
pub proof fn lemma_kind_count_bound(events: Seq<MarketEventView>)
    ensures
        kind_count(events, EventType::NewMarket) + kind_count(events, EventType::PriceChange)
            + kind_count(events, EventType::VolumeUpdate) + kind_count(
            events,
            EventType::MarketClosed,
        ) == events.len(),
    decreases events.len(),
{
    if events.len() > 0 {
        lemma_kind_count_bound(events.drop_last());
    }
}

/// The markets after each market of a sequence was saved at its own time,
/// one after the other.
pub open spec fn upsert_each(
    markets: Map<Seq<char>, StoredMarketView>,
    saves: Seq<(MarketView, Timestamp)>,
) -> Map<Seq<char>, StoredMarketView>
    decreases saves.len(),
{
    if saves.len() == 0 {
        markets
    } else {
        upsert(upsert_each(markets, saves.drop_last()), saves.last().0, saves.last().1)
    }
}

/// Saving a market never changes the time of first sight of a market that
/// is stored already, be it the saved one or another.
pub proof fn lemma_save_keeps_first_sight(
    markets: Map<Seq<char>, StoredMarketView>,
    m: MarketView,
    now: Timestamp,
    id: Seq<char>,
)
    requires
        markets.contains_key(id),
    ensures
        upsert(markets, m, now).contains_key(id),
        upsert(markets, m, now)[id].first_seen_at == markets[id].first_seen_at,
{
}

/// A market that is saved, and then saved again any number of times with
/// whatever else changed, keeps the time of first sight that it had after
/// the first save: for an id that was new, the time of that first save.
pub proof fn lemma_first_sight_is_kept(
    markets: Map<Seq<char>, StoredMarketView>,
    first: MarketView,
    at: Timestamp,
    later: Seq<(MarketView, Timestamp)>,
)
    requires
        forall|i: int| 0 <= i < later.len() ==> (#[trigger] later[i]).0.condition_id
            == first.condition_id,
    ensures
        upsert_each(upsert(markets, first, at), later).contains_key(first.condition_id),
        upsert_each(upsert(markets, first, at), later)[first.condition_id].first_seen_at == upsert(
            markets,
            first,
            at,
        )[first.condition_id].first_seen_at,
        !markets.contains_key(first.condition_id) ==> upsert_each(
            upsert(markets, first, at),
            later,
        )[first.condition_id].first_seen_at == at,
        later.len() > 0 ==> upsert_each(
            upsert(markets, first, at),
            later,
        )[first.condition_id].last_updated_at == later.last().1,
    decreases later.len(),
{
    if later.len() > 0 {
        let before = later.drop_last();
        assert forall|i: int| 0 <= i < before.len() implies (#[trigger] before[i]).0.condition_id
            == first.condition_id by {
            assert(before[i] == later[i]);
        }
        lemma_first_sight_is_kept(markets, first, at, before);
        assert(later.last() == later[later.len() - 1]);
    }
}

/// One more event of any kind makes the count of all events one larger.
pub proof fn lemma_event_count_grows(counts: KindCounts, kind: EventType)
    requires
        counts.total() < i64::MAX,
    ensures
        counts.plus_one(kind).total() == counts.total() + 1,
        counts.plus_one(kind).of(kind) == counts.of(kind) + 1,
{
}

/// The snapshot store.
pub struct JsonDatabase {
    base_path: String,
    markets: KeyedTable<StoredMarket>,
    price_history: KeyedTable<Vec<PricePoint>>,
    events: Vec<MarketEvent>,
    counts: KindCounts,
}

impl JsonDatabase {
    /// The invariant: the tables are in order, no more events and price
    /// points are kept than the caps allow, and the count of all events fits
    /// the type in which it is reported.
    pub closed spec fn wf(&self) -> bool {
        &&& self.markets.wf()
        &&& self.price_history.wf()
        &&& self.events.len() <= EVENTS_CAP
        &&& self.counts.total() <= i64::MAX
        &&& forall|i: int|
            0 <= i < self.price_history.entries().len() ==> (
            #[trigger] self.price_history.entries()[i]).len() <= HISTORY_CAP
    }

    /// What the store holds.
    pub closed spec fn view(&self) -> JsonDatabaseView {
        JsonDatabaseView {
            markets: Map::new(
                |k: Seq<char>| self.markets@.contains_key(k),
                |k: Seq<char>| self.markets@[k]@,
            ),
            histories: Map::new(
                |k: Seq<char>| self.price_history@.contains_key(k),
                |k: Seq<char>| point_views(self.price_history@[k]@),
            ),
            events: event_views(self.events@),
            counts: self.counts,
        }
    }

    /// The ids of the stored markets, each once, in the order in which the
    /// store reports them.
    pub closed spec fn ids(&self) -> Seq<Seq<char>> {
        self.markets.ids()
    }

    /// The directory in which the caller keeps the files.
    pub closed spec fn path(&self) -> Seq<char> {
        self.base_path@
    }

    /// The ids are those of the stored markets, each once; so there are as
    /// many ids as markets.
    pub proof fn lemma_ids(&self)
        requires
            self.wf(),
        ensures
            self.ids().no_duplicates(),
            forall|k: Seq<char>| self.ids().contains(k) <==> self@.markets.contains_key(k),
            self@.markets.dom().finite(),
            self.ids().len() == self@.markets.dom().len(),
    {
        self.markets.lemma_shape();
        assert forall|k: Seq<char>| self.ids().contains(k) <==> self@.markets.contains_key(k) by {
            if self@.markets.contains_key(k) {
                assert(self.markets@.contains_key(k));
                assert(self.ids()[self.markets.place(k)] == k);
            }
        }
        assert(self.ids().to_set() =~= self@.markets.dom());
        self.ids().unique_seq_to_set();
    }

    /// What the invariant says of what the store holds: no more events and
    /// price points are kept than the caps allow, and the count of all events
    /// fits the type in which it is reported.
    pub proof fn lemma_bounds(&self)
        requires
            self.wf(),
        ensures
            self@.events.len() <= EVENTS_CAP,
            self@.counts.total() <= i64::MAX,
            forall|k: Seq<char>| #[trigger]
                self@.histories.contains_key(k) ==> self@.histories[k].len() <= HISTORY_CAP,
    {
        self.price_history.lemma_shape();
        assert forall|k: Seq<char>| #[trigger] self@.histories.contains_key(k) implies self@.histories[k].len()
            <= HISTORY_CAP by {
            assert(self.price_history@.contains_key(k));
            let i = self.price_history.place(k);
            assert(self.price_history.entries()[i] == self.price_history@[k]);
        }
    }

    /// An empty store for the directory `path`.
    pub fn new(path: &str) -> (r: Self)
        ensures
            r.wf(),
            r.path() == path@,
            r.ids() == Seq::<Seq<char>>::empty(),
            r@ == (JsonDatabaseView {
                markets: Map::empty(),
                histories: Map::empty(),
                events: Seq::empty(),
                counts: KindCounts {
                    new_market: 0,
                    price_change: 0,
                    volume_update: 0,
                    market_closed: 0,
                },
            }),
    {
        let r = JsonDatabase {
            base_path: String::from_str(path),
            markets: KeyedTable::new(),
            price_history: KeyedTable::new(),
            events: Vec::new(),
            counts: KindCounts { new_market: 0, price_change: 0, volume_update: 0, market_closed: 0 },
        };
        assert(r@.markets =~= Map::empty());
        assert(r@.histories =~= Map::empty());
        assert(r@.events =~= Seq::empty());
        r
    }

    /// The directory in which the caller keeps the files.
    pub fn base_path(&self) -> (r: &String)
        ensures
            r@ == self.path(),
    {
        &self.base_path
    }

    /// Saves `market` as seen at the time `now`.
    pub fn save_market_at(&mut self, market: &Market, now: Timestamp)
        requires
            old(self).wf(),
        ensures
            final(self).wf(),
            final(self).path() == old(self).path(),
            final(self)@ == (JsonDatabaseView {
                markets: upsert(old(self)@.markets, market@, now),
                ..old(self)@
            }),
            final(self).ids() == if old(self)@.markets.contains_key(market@.condition_id) {
                old(self).ids()
            } else {
                old(self).ids().push(market@.condition_id)
            },
    {
        let first = match self.markets.get(market.condition_id.as_str()) {
            Some(stored) => stored.first_seen_at,
            None => now,
        };
        let record = StoredMarket { market: market.clone(), first_seen_at: first, last_updated_at: now };
        self.markets.insert(market.condition_id.clone(), record);
        assert(self@.markets =~= upsert(old(self)@.markets, market@, now));
        assert(self@.histories =~= old(self)@.histories);
    }

    /// Saves `market` as seen now.
    pub fn save_market(&mut self, market: &Market)
        requires
            old(self).wf(),
        ensures
            final(self).wf(),
            final(self).path() == old(self).path(),
            exists|now: Timestamp|
                final(self)@ == (JsonDatabaseView {
                    markets: #[trigger] upsert(old(self)@.markets, market@, now),
                    ..old(self)@
                }),
    {
        let now = Timestamp::now();
        self.save_market_at(market, now);
        assert(self@ == (JsonDatabaseView {
            markets: upsert(old(self)@.markets, market@, now),
            ..old(self)@
        }));
    }

    /// Saves a batch of markets as seen at the time `now`: the same as
    /// saving them one by one.
    pub fn save_markets_at(&mut self, batch: &Vec<Market>, now: Timestamp)
        requires
            old(self).wf(),
        ensures
            final(self).wf(),
            final(self).path() == old(self).path(),
            final(self)@ == (JsonDatabaseView {
                markets: upsert_all(old(self)@.markets, market_views(batch@), now),
                ..old(self)@
            }),
    {
        let ghost views = market_views(batch@);
        let mut i: usize = 0;
        assert(views.take(0) =~= Seq::<MarketView>::empty());
        while i < batch.len()
            invariant
                i <= batch.len(),
                views == market_views(batch@),
                self.wf(),
                self.path() == old(self).path(),
                self@ == (JsonDatabaseView {
                    markets: upsert_all(old(self)@.markets, views.take(i as int), now),
                    ..old(self)@
                }),
            decreases batch.len() - i,
        {
            proof {
                assert(views.take(i + 1).drop_last() =~= views.take(i as int));
                assert(views.take(i + 1).last() == batch[i as int]@);
            }
            self.save_market_at(&batch[i], now);
            i += 1;
        }
        assert(views.take(batch.len() as int) =~= views);
    }

    /// Saves a batch of markets as seen now.
    pub fn save_markets(&mut self, batch: &Vec<Market>)
        requires
            old(self).wf(),
        ensures
            final(self).wf(),
            final(self).path() == old(self).path(),
            exists|now: Timestamp|
                final(self)@ == (JsonDatabaseView {
                    markets: #[trigger] upsert_all(old(self)@.markets, market_views(batch@), now),
                    ..old(self)@
                }),
    {
        let now = Timestamp::now();
        self.save_markets_at(batch, now);
        assert(self@ == (JsonDatabaseView {
            markets: upsert_all(old(self)@.markets, market_views(batch@), now),
            ..old(self)@
        }));
    }

    /// The market stored under `condition_id`, with its times.
    pub fn get_stored_market(&self, condition_id: &str) -> (r: Option<StoredMarket>)
        requires
            self.wf(),
        ensures
            match r {
                Some(s) => self@.markets.contains_key(condition_id@) && s@
                    == self@.markets[condition_id@],
                None => !self@.markets.contains_key(condition_id@),
            },
    {
        match self.markets.get(condition_id) {
            Some(s) => Some(s.clone()),
            None => None,
        }
    }

    /// The market stored under `condition_id`.
    pub fn get_market(&self, condition_id: &str) -> (r: Option<Market>)
        requires
            self.wf(),
        ensures
            match r {
                Some(m) => self@.markets.contains_key(condition_id@) && m@
                    == self@.markets[condition_id@].market,
                None => !self@.markets.contains_key(condition_id@),
            },
    {
        match self.markets.get(condition_id) {
            Some(s) => Some(s.market.clone()),
            None => None,
        }
    }

    /// The ids of the stored markets, each once.
    pub fn get_all_market_ids(&self) -> (r: Vec<String>)
        requires
            self.wf(),
        ensures
            text_seq(r@) == self.ids(),
            text_seq(r@).no_duplicates(),
            forall|k: Seq<char>| text_seq(r@).contains(k) <==> self@.markets.contains_key(k),
            r.len() == self@.markets.dom().len(),
    {
        proof {
            self.lemma_ids();
        }
        let mut out: Vec<String> = Vec::new();
        let n = self.markets.len();
        let mut i: usize = 0;
        while i < n
            invariant
                self.wf(),
                i <= n,
                n == self.ids().len(),
                out.len() == i,
                forall|j: int| 0 <= j < i ==> out[j]@ == self.ids()[j],
            decreases n - i,
        {
            out.push(self.markets.key_at(i).clone());
            i += 1;
        }
        assert(text_seq(out@) =~= self.ids());
        out
    }

    /// The number of stored markets; an error where the number does not fit
    /// the type of the result.
    pub fn get_market_count(&self) -> (r: Result<i64, ScannerError>)
        requires
            self.wf(),
        ensures
            match r {
                Ok(n) => n == self.ids().len() && n == self@.markets.dom().len(),
                Err(e) => self.ids().len() > i64::MAX && e@ == ScannerErrorView::StorageError(
                    COUNT_EXHAUSTED@,
                ),
            },
    {
        proof {
            self.lemma_ids();
        }
        let n = self.markets.len();
        if n as u64 <= 0x7fff_ffff_ffff_ffffu64 {
            Ok(n as i64)
        } else {
            Err(ScannerError::StorageError(String::from_str(COUNT_EXHAUSTED)))
        }
    }

    /// Sets the store up from what the two files held: `markets` and
    /// `events` are what was read from them, `None` for a file that is not
    /// there, which counts as empty. Of the events only the newest are kept,
    /// up to the cap, and the counts start from those. Price histories are
    /// not part of the files and stay as they are.
    pub fn init(&mut self, markets: Option<Vec<StoredMarket>>, events: Option<Vec<MarketEvent>>)
        requires
            old(self).wf(),
        ensures
            final(self).wf(),
            final(self).path() == old(self).path(),
            final(self)@.markets == match markets {
                Some(records) => loaded_markets(stored_views(records@)),
                None => Map::empty(),
            },
            final(self)@.events == match events {
                Some(list) => newest(event_views(list@), EVENTS_CAP as int),
                None => Seq::empty(),
            },
            final(self)@.counts == tally(final(self)@.events),
            final(self)@.histories == old(self)@.histories,
    {
        let mut table: KeyedTable<StoredMarket> = KeyedTable::new();
        let ghost mut loaded: Map<Seq<char>, StoredMarketView> = Map::empty();
        match &markets {
            Some(records) => {
                let ghost views = stored_views(records@);
                let mut i: usize = 0;
                assert(views.take(0) =~= Seq::<StoredMarketView>::empty());
                while i < records.len()
                    invariant
                        i <= records.len(),
                        views == stored_views(records@),
                        table.wf(),
                        loaded == loaded_markets(views.take(i as int)),
                        forall|k: Seq<char>| #[trigger]
                            table@.contains_key(k) <==> loaded.contains_key(k),
                        forall|k: Seq<char>| #[trigger]
                            table@.contains_key(k) ==> table@[k]@ == loaded[k],
                    decreases records.len() - i,
                {
                    proof {
                        assert(views.take(i + 1).drop_last() =~= views.take(i as int));
                        assert(views.take(i + 1).last() == records[i as int]@);
                        loaded = loaded.insert(records[i as int]@.market.condition_id, records[i as int]@);
                    }
                    table.insert(records[i].market.condition_id.clone(), records[i].clone());
                    i += 1;
                }
                assert(views.take(records.len() as int) =~= views);
            },
            None => {},
        }
        let mut kept: Vec<MarketEvent> = Vec::new();
        let mut counts = KindCounts { new_market: 0, price_change: 0, volume_update: 0, market_closed: 0 };
        match &events {
            Some(list) => {
                let len = list.len();
                let start: usize = if len > EVENTS_CAP {
                    len - EVENTS_CAP
                } else {
                    0
                };
                let ghost target = newest(event_views(list@), EVENTS_CAP as int);
                assert(target =~= event_views(list@).subrange(start as int, len as int));
                let mut i: usize = start;
                assert(target.take(0) =~= Seq::<MarketEventView>::empty());
                assert(event_views(kept@) =~= target.take(0));
                while i < len
                    invariant
                        start <= i <= len,
                        len == list.len(),
                        len - start <= EVENTS_CAP,
                        target == event_views(list@).subrange(start as int, len as int),
                        kept.len() == i - start,
                        event_views(kept@) == target.take(i - start),
                        counts == tally(target.take(i - start)),
                    decreases len - i,
                {
                    let ghost before = kept@;
                    proof {
                        lemma_kind_count_bound(target.take(i - start));
                        assert(target.take(i - start + 1).drop_last() =~= target.take(i - start));
                        assert(target.take(i - start + 1).last() == list[i as int]@);
                    }
                    counts = match list[i].event_type {
                        EventType::NewMarket => KindCounts {
                            new_market: counts.new_market + 1,
                            ..counts
                        },
                        EventType::PriceChange => KindCounts {
                            price_change: counts.price_change + 1,
                            ..counts
                        },
                        EventType::VolumeUpdate => KindCounts {
                            volume_update: counts.volume_update + 1,
                            ..counts
                        },
                        EventType::MarketClosed => KindCounts {
                            market_closed: counts.market_closed + 1,
                            ..counts
                        },
                    };
                    kept.push(list[i].clone());
                    assert(event_views(kept@) =~= event_views(before).push(list[i as int]@));
                    assert(event_views(kept@) =~= target.take(i - start + 1));
                    i += 1;
                }
                assert(target.take(len - start) =~= target);
                proof {
                    lemma_kind_count_bound(target);
                }
            },
            None => {
                assert(event_views(kept@) =~= Seq::<MarketEventView>::empty());
            },
        }
        self.markets = table;
        self.events = kept;
        self.counts = counts;
        assert(self@.markets =~= loaded);
        assert(self@.histories =~= old(self)@.histories);
    }

    /// The stored markets, each once, in the order of the ids.
    pub fn stored_markets(&self) -> (r: Vec<StoredMarket>)
        requires
            self.wf(),
        ensures
            r.len() == self.ids().len(),
            forall|i: int|
                0 <= i < r.len() ==> self@.markets.contains_key(self.ids()[i]) && (#[trigger] r[i])@
                    == self@.markets[self.ids()[i]],
    {
        let mut out: Vec<StoredMarket> = Vec::new();
        let n = self.markets.len();
        proof {
            self.markets.lemma_shape();
        }
        let mut i: usize = 0;
        while i < n
            invariant
                self.wf(),
                i <= n,
                n == self.ids().len(),
                n == self.markets.entries().len(),
                out.len() == i,
                forall|j: int| 0 <= j < i ==> (#[trigger] out[j]) == self.markets.entries()[j],
            decreases n - i,
        {
            out.push(self.markets.value_at(i).clone());
            i += 1;
        }
        out
    }

    /// The events that the store keeps, oldest first.
    pub fn stored_events(&self) -> (r: Vec<MarketEvent>)
        requires
            self.wf(),
        ensures
            event_views(r@) == self@.events,
    {
        let mut out: Vec<MarketEvent> = Vec::new();
        let mut i: usize = 0;
        while i < self.events.len()
            invariant
                i <= self.events.len(),
                out.len() == i,
                forall|j: int| 0 <= j < i ==> (#[trigger] out[j]) == self.events[j],
            decreases self.events.len() - i,
        {
            out.push(self.events[i].clone());
            i += 1;
        }
        assert(event_views(out@) =~= self@.events);
        out
    }

    /// Appends `event` to the stored events and counts it. Of the events
    /// themselves only the newest are kept, up to the cap. Fails, and changes
    /// nothing, where the count of all events cannot grow any further.
    pub fn save_event(&mut self, event: &MarketEvent) -> (r: Result<(), ScannerError>)
        requires
            old(self).wf(),
        ensures
            final(self).wf(),
            final(self).path() == old(self).path(),
            final(self).ids() == old(self).ids(),
            match r {
                Ok(_) => old(self)@.counts.total() < i64::MAX && final(self)@ == (JsonDatabaseView {
                    events: capped(old(self)@.events.push(event@), EVENTS_CAP as int),
                    counts: old(self)@.counts.plus_one(event.event_type),
                    ..old(self)@
                }) && final(self)@.counts.total() == old(self)@.counts.total() + 1,
                Err(e) => old(self)@.counts.total() >= i64::MAX && final(self)@ == old(self)@ && e@
                    == ScannerErrorView::StorageError(COUNT_EXHAUSTED@),
            },
    {
        let c = self.counts;
        let total: u64 = c.new_market + c.price_change + c.volume_update + c.market_closed;
        if total >= 0x7fff_ffff_ffff_ffffu64 {
            return Err(ScannerError::StorageError(String::from_str(COUNT_EXHAUSTED)));
        }
        self.counts = match event.event_type {
            EventType::NewMarket => KindCounts { new_market: c.new_market + 1, ..c },
            EventType::PriceChange => KindCounts { price_change: c.price_change + 1, ..c },
            EventType::VolumeUpdate => KindCounts { volume_update: c.volume_update + 1, ..c },
            EventType::MarketClosed => KindCounts { market_closed: c.market_closed + 1, ..c },
        };
        let ghost before = self.events@;
        self.events.push(event.clone());
        assert(event_views(self.events@) =~= event_views(before).push(event@));
        if self.events.len() > EVENTS_CAP {
            let ghost full = self.events@;
            self.events.remove(0);
            assert(event_views(self.events@) =~= event_views(full).drop_first());
        }
        assert(self@.markets =~= old(self)@.markets);
        assert(self@.histories =~= old(self)@.histories);
        Ok(())
    }

    /// The number of events saved so far.
    pub fn get_event_count(&self) -> (r: i64)
        requires
            self.wf(),
        ensures
            r == self@.counts.total(),
    {
        let c = self.counts;
        let total: u64 = c.new_market + c.price_change + c.volume_update + c.market_closed;
        total as i64
    }

    /// The newest events that the store keeps, the newest first, at most
    /// `limit` of them.
    pub fn get_recent_events(&self, limit: i32) -> (r: Vec<RecentEvent>)
        requires
            self.wf(),
        ensures
            recent_views(r@) == newest_first(event_summaries(self@.events), limit as int),
    {
        let mut out: Vec<RecentEvent> = Vec::new();
        let len = self.events.len();
        let n: usize = if limit <= 0 {
            0
        } else if (limit as usize) < len {
            limit as usize
        } else {
            len
        };
        let mut i: usize = 0;
        while i < n
            invariant
                i <= n <= len,
                len == self.events.len(),
                out.len() == i,
                forall|j: int|
                    0 <= j < i ==> (#[trigger] out[j])@ == event_summary(self.events[len - 1 - j]@),
            decreases n - i,
        {
            out.push(RecentEvent::from_event(&self.events[len - 1 - i]));
            i += 1;
        }
        assert(recent_views(out@) =~= newest_first(event_summaries(self@.events), limit as int));
        out
    }

    /// The statistics of the saved events.
    pub fn get_event_stats(&self) -> (r: Vec<(String, i64)>)
        requires
            self.wf(),
        ensures
            entry_views(r@) == stats_of(self@.counts),
    {
        let c = self.counts;
        let mut out: Vec<(String, i64)> = Vec::new();
        if c.new_market > 0 {
            out.push((String::from_str(EventType::NewMarket.name()), c.new_market as i64));
        }
        assert(entry_views(out@) =~= kind_entry(c, EventType::NewMarket));
        let ghost e1 = entry_views(out@);
        if c.price_change > 0 {
            out.push((String::from_str(EventType::PriceChange.name()), c.price_change as i64));
        }
        assert(entry_views(out@) =~= e1 + kind_entry(c, EventType::PriceChange));
        let ghost e2 = entry_views(out@);
        if c.volume_update > 0 {
            out.push((String::from_str(EventType::VolumeUpdate.name()), c.volume_update as i64));
        }
        assert(entry_views(out@) =~= e2 + kind_entry(c, EventType::VolumeUpdate));
        let ghost e3 = entry_views(out@);
        if c.market_closed > 0 {
            out.push((String::from_str(EventType::MarketClosed.name()), c.market_closed as i64));
        }
        assert(entry_views(out@) =~= e3 + kind_entry(c, EventType::MarketClosed));
        let ghost e4 = entry_views(out@);
        let total: u64 = c.new_market + c.price_change + c.volume_update + c.market_closed;
        out.push((String::from_str(crate::db::TOTAL), total as i64));
        assert(entry_views(out@) =~= e4 + seq![(crate::db::TOTAL@, c.total() as i64)]);
        out
    }

    /// Appends a price point, taken at the time `now`, to the history of
    /// `condition_id`. Of a history only the newest points are kept, up to
    /// the cap.
    pub fn save_price_history_at(
        &mut self,
        condition_id: &str,
        outcome_prices: &Option<String>,
        volume: &Option<String>,
        now: Timestamp,
    )
        requires
            old(self).wf(),
        ensures
            final(self).wf(),
            final(self).path() == old(self).path(),
            final(self).ids() == old(self).ids(),
            final(self)@ == (JsonDatabaseView {
                histories: append_point(
                    old(self)@.histories,
                    condition_id@,
                    new_point(opt_text(*outcome_prices), opt_text(*volume), now),
                ),
                ..old(self)@
            }),
    {
        let point = PricePoint {
            outcome_prices: or_blank(outcome_prices),
            volume: or_blank(volume),
            timestamp: now,
        };
        proof {
            self.price_history.lemma_shape();
        }
        match self.price_history.position(condition_id) {
            Some(i) => {
                let mut history: Vec<PricePoint> = Vec::new();
                self.price_history.swap_value(i, &mut history);
                let ghost kept = history@;
                assert(point_views(kept) == old(self)@.histories[condition_id@]);
                history.push(point);
                assert(point_views(history@) =~= point_views(kept).push(point@));
                if history.len() > HISTORY_CAP {
                    let ghost full = history@;
                    history.remove(0);
                    assert(point_views(history@) =~= point_views(full).drop_first());
                }
                let ghost done = history;
                self.price_history.swap_value(i, &mut history);
                assert(self.price_history.entries() =~= old(self).price_history.entries().update(
                    i as int,
                    done,
                ));
                assert(self.price_history@ =~= old(self).price_history@.insert(condition_id@, done));
            },
            None => {
                let mut history: Vec<PricePoint> = Vec::new();
                history.push(point);
                assert(point_views(history@) =~= Seq::<PricePointView>::empty().push(point@));
                self.price_history.insert(String::from_str(condition_id), history);
            },
        }
        assert(self@.histories =~= append_point(
            old(self)@.histories,
            condition_id@,
            new_point(opt_text(*outcome_prices), opt_text(*volume), now),
        ));
        assert(self@.markets =~= old(self)@.markets);
    }

    /// Appends a price point, taken now, to the history of `condition_id`.
    pub fn save_price_history(
        &mut self,
        condition_id: &str,
        outcome_prices: &Option<String>,
        volume: &Option<String>,
    )
        requires
            old(self).wf(),
        ensures
            final(self).wf(),
            final(self).path() == old(self).path(),
            final(self).ids() == old(self).ids(),
            exists|now: Timestamp|
                final(self)@ == (JsonDatabaseView {
                    histories: append_point(
                        old(self)@.histories,
                        condition_id@,
                        #[trigger] new_point(opt_text(*outcome_prices), opt_text(*volume), now),
                    ),
                    ..old(self)@
                }),
    {
        let now = Timestamp::now();
        self.save_price_history_at(condition_id, outcome_prices, volume, now);
        assert(self@ == (JsonDatabaseView {
            histories: append_point(
                old(self)@.histories,
                condition_id@,
                new_point(opt_text(*outcome_prices), opt_text(*volume), now),
            ),
            ..old(self)@
        }));
    }

    /// The newest price points kept of `condition_id`, the newest first, at
    /// most `limit` of them.
    pub fn get_price_history(&self, condition_id: &str, limit: i32) -> (r: Vec<PricePoint>)
        requires
            self.wf(),
        ensures
            point_views(r@) == newest_first(
                history_of(self@.histories, condition_id@),
                limit as int,
            ),
    {
        let mut out: Vec<PricePoint> = Vec::new();
        match self.price_history.get(condition_id) {
            Some(history) => {
                let len = history.len();
                let n: usize = if limit <= 0 {
                    0
                } else if (limit as usize) < len {
                    limit as usize
                } else {
                    len
                };
                let mut i: usize = 0;
                while i < n
                    invariant
                        i <= n <= len,
                        len == history.len(),
                        out.len() == i,
                        forall|j: int| 0 <= j < i ==> (#[trigger] out[j])@ == history[len - 1 - j]@,
                    decreases n - i,
                {
                    out.push(history[len - 1 - i].clone());
                    i += 1;
                }
                assert(point_views(out@) =~= newest_first(point_views(history@), limit as int));
            },
            None => {
                assert(point_views(out@) =~= newest_first(
                    Seq::<PricePointView>::empty(),
                    limit as int,
                ));
            },
        }
        out
    }
}

/// Name of the file that is written in place of `name` until the writing is
/// done.
pub fn temp_file_name(name: &str) -> (r: String)
    ensures
        r@ == name@ + ".tmp"@,
{
    join2(name, ".tmp")
}

} // verus!
