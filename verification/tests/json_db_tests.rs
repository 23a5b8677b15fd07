use polymarket_scanner::clock::Timestamp;
use polymarket_scanner::db::RecentEvent;
use polymarket_scanner::error::ScannerError;
use polymarket_scanner::json_db::{
    temp_file_name, JsonDatabase, StoredMarket, EVENTS_CAP, EVENTS_FILE, HISTORY_CAP, MARKETS_FILE,
};
use polymarket_scanner::types::{EventType, Market, MarketEvent, PricePoint};

fn market(id: &str, prices: &str) -> Market {
    Market {
        condition_id: id.to_string(),
        question_id: Some(format!("q-{}", id)),
        question: format!("Question {}", id),
        description: None,
        market_slug: None,
        outcomes: "[\"Yes\", \"No\"]".to_string(),
        outcome_prices: Some(prices.to_string()),
        volume: Some("1000".to_string()),
        liquidity: None,
        end_date: None,
        active: Some(true),
        closed: Some(false),
    }
}

fn at(millis: i64) -> Timestamp {
    Timestamp { millis }
}

fn event(id: &str, kind: EventType, millis: i64) -> MarketEvent {
    MarketEvent { market: market(id, "[0.5,0.5]"), timestamp: at(millis), event_type: kind }
}

#[test]
fn fresh_store_is_empty() {
    let store = JsonDatabase::new("some/dir");
    assert_eq!(store.base_path(), "some/dir");
    assert_eq!(store.get_market_count(), Ok(0));
    assert!(store.get_all_market_ids().is_empty());
    assert_eq!(store.get_market("a"), None);
    assert_eq!(store.get_event_count(), 0);
    assert!(store.get_recent_events(10).is_empty());
    assert!(store.get_price_history("a", 10).is_empty());
    assert_eq!(store.get_event_stats(), vec![("Total".to_string(), 0)]);
    assert!(store.stored_markets().is_empty());
    assert!(store.stored_events().is_empty());
}

#[test]
fn second_save_keeps_first_sight() {
    let mut store = JsonDatabase::new("data");
    let t0 = at(1_000);
    let t1 = at(2_000);
    store.save_market_at(&market("a", "[0.5,0.5]"), t0);
    store.save_market_at(&market("a", "[0.6,0.4]"), t1);
    let stored = store.get_stored_market("a").unwrap();
    assert_eq!(stored.first_seen_at, t0);
    assert_eq!(stored.last_updated_at, t1);
    assert_eq!(stored.market, market("a", "[0.6,0.4]"));
    assert_eq!(store.get_market("a"), Some(market("a", "[0.6,0.4]")));
    assert_eq!(store.get_market_count(), Ok(1));
}

#[test]
fn first_sight_survives_many_saves_and_other_markets() {
    let mut store = JsonDatabase::new("data");
    store.save_market_at(&market("a", "[0.5,0.5]"), at(10));
    for i in 0..20 {
        store.save_market_at(&market("b", "[0.1,0.9]"), at(100 + i));
        store.save_market_at(&market("a", &format!("[0.{},0.5]", i)), at(200 + i));
    }
    let a = store.get_stored_market("a").unwrap();
    assert_eq!(a.first_seen_at, at(10));
    assert_eq!(a.last_updated_at, at(219));
    let b = store.get_stored_market("b").unwrap();
    assert_eq!(b.first_seen_at, at(100));
    assert_eq!(b.last_updated_at, at(119));
}

#[test]
fn first_save_sets_both_times() {
    let mut store = JsonDatabase::new("data");
    store.save_market_at(&market("a", "[0.5,0.5]"), at(77));
    assert_eq!(
        store.get_stored_market("a"),
        Some(StoredMarket {
            market: market("a", "[0.5,0.5]"),
            first_seen_at: at(77),
            last_updated_at: at(77),
        })
    );
}

#[test]
fn save_with_the_clock() {
    let mut store = JsonDatabase::new("data");
    let before = Timestamp::now();
    store.save_market(&market("a", "[0.5,0.5]"));
    let middle = Timestamp::now();
    store.save_market(&market("a", "[0.6,0.4]"));
    let after = Timestamp::now();
    let a = store.get_stored_market("a").unwrap();
    assert!(before.millis <= a.first_seen_at.millis && a.first_seen_at.millis <= middle.millis);
    assert!(middle.millis <= a.last_updated_at.millis && a.last_updated_at.millis <= after.millis);
}

#[test]
fn batch_equals_single_saves() {
    let batch = vec![
        market("a", "[0.5,0.5]"),
        market("b", "[0.1,0.9]"),
        market("a", "[0.7,0.3]"),
    ];
    let mut one = JsonDatabase::new("data");
    one.save_market_at(&market("b", "[0.2,0.8]"), at(1));
    let mut other = JsonDatabase::new("data");
    other.save_market_at(&market("b", "[0.2,0.8]"), at(1));
    one.save_markets_at(&batch, at(5));
    for m in &batch {
        other.save_market_at(m, at(5));
    }
    assert_eq!(one.stored_markets(), other.stored_markets());
    assert_eq!(one.get_all_market_ids(), other.get_all_market_ids());
    assert_eq!(one.get_stored_market("a").unwrap().market, market("a", "[0.7,0.3]"));
    assert_eq!(one.get_stored_market("b").unwrap().first_seen_at, at(1));
    assert_eq!(one.get_stored_market("b").unwrap().last_updated_at, at(5));
}

#[test]
fn batch_of_ten() {
    let mut store = JsonDatabase::new("test_data");
    let mut batch = Vec::new();
    for i in 0..10 {
        batch.push(market(&format!("condition_{}", i), "[0.5, 0.5]"));
    }
    store.save_markets(&batch);
    assert_eq!(store.get_market_count(), Ok(10));
    assert_eq!(store.get_market("condition_0").unwrap().question, "Question condition_0");
    assert_eq!(store.stored_markets().len(), 10);
}

#[test]
fn count_is_the_number_of_ids() {
    let mut store = JsonDatabase::new("data");
    for round in 0..3 {
        for i in 0..(5 + round) {
            store.save_market_at(&market(&format!("m{}", i), "[1,0]"), at(round));
            let ids = store.get_all_market_ids();
            assert_eq!(store.get_market_count(), Ok(ids.len() as i64));
            let mut unique = ids.clone();
            unique.sort();
            unique.dedup();
            assert_eq!(unique.len(), ids.len());
        }
    }
    assert_eq!(store.get_market_count(), Ok(7));
}

#[test]
fn each_event_counts_once() {
    let mut store = JsonDatabase::new("data");
    for i in 0..25 {
        let before = store.get_event_count();
        assert_eq!(store.save_event(&event("a", EventType::PriceChange, i)), Ok(()));
        assert_eq!(store.get_event_count(), before + 1);
    }
    assert_eq!(store.get_event_count(), 25);
}

#[test]
fn events_count_on_beyond_the_cap() {
    let mut store = JsonDatabase::new("data");
    let n = EVENTS_CAP as i64 + 5;
    for i in 0..n {
        store.save_event(&event("a", EventType::VolumeUpdate, i)).unwrap();
    }
    assert_eq!(store.get_event_count(), n);
    let kept = store.stored_events();
    assert_eq!(kept.len(), EVENTS_CAP);
    assert_eq!(kept[0].timestamp, at(5));
    assert_eq!(kept[EVENTS_CAP - 1].timestamp, at(n - 1));
    assert_eq!(store.get_recent_events(i32::MAX).len(), EVENTS_CAP);
}

#[test]
fn recent_events_come_newest_first() {
    let mut store = JsonDatabase::new("data");
    store.save_event(&event("a", EventType::NewMarket, 1)).unwrap();
    store.save_event(&event("b", EventType::PriceChange, 2)).unwrap();
    store.save_event(&event("c", EventType::MarketClosed, 3)).unwrap();
    let recent = store.get_recent_events(2);
    assert_eq!(
        recent,
        vec![
            RecentEvent {
                kind: "MarketClosed".to_string(),
                question: "Question c".to_string(),
                outcome_prices: "[0.5,0.5]".to_string(),
                timestamp: at(3),
            },
            RecentEvent {
                kind: "PriceChange".to_string(),
                question: "Question b".to_string(),
                outcome_prices: "[0.5,0.5]".to_string(),
                timestamp: at(2),
            },
        ]
    );
    assert_eq!(store.get_recent_events(10).len(), 3);
    assert_eq!(store.get_recent_events(3)[2].kind, "NewMarket");
    assert!(store.get_recent_events(0).is_empty());
    assert!(store.get_recent_events(-1).is_empty());
}

#[test]
fn recent_event_without_prices() {
    let mut store = JsonDatabase::new("data");
    let mut e = event("a", EventType::NewMarket, 1);
    e.market.outcome_prices = None;
    store.save_event(&e).unwrap();
    assert_eq!(store.get_recent_events(1)[0].outcome_prices, "");
}

#[test]
fn statistics_by_kind_with_total() {
    let mut store = JsonDatabase::new("data");
    store.save_event(&event("a", EventType::NewMarket, 1)).unwrap();
    store.save_event(&event("a", EventType::PriceChange, 2)).unwrap();
    store.save_event(&event("a", EventType::PriceChange, 3)).unwrap();
    store.save_event(&event("a", EventType::MarketClosed, 4)).unwrap();
    assert_eq!(
        store.get_event_stats(),
        vec![
            ("NewMarket".to_string(), 1),
            ("PriceChange".to_string(), 2),
            ("MarketClosed".to_string(), 1),
            ("Total".to_string(), 4),
        ]
    );
    store.save_event(&event("a", EventType::VolumeUpdate, 5)).unwrap();
    let stats = store.get_event_stats();
    assert_eq!(stats.len(), 5);
    assert_eq!(stats[2], ("VolumeUpdate".to_string(), 1));
    let total: i64 = stats[..4].iter().map(|s| s.1).sum();
    assert_eq!(stats[4], ("Total".to_string(), total));
    assert_eq!(total, store.get_event_count());
}

#[test]
fn events_leave_markets_alone() {
    let mut store = JsonDatabase::new("data");
    store.save_market_at(&market("a", "[1,0]"), at(1));
    store.save_event(&event("b", EventType::NewMarket, 2)).unwrap();
    store.save_price_history_at("c", &None, &None, at(3));
    assert_eq!(store.get_all_market_ids(), vec!["a".to_string()]);
    assert_eq!(store.get_market("b"), None);
    assert_eq!(store.get_market("c"), None);
}

#[test]
fn price_history_comes_newest_first() {
    let mut store = JsonDatabase::new("data");
    store.save_price_history_at("a", &Some("[0.5,0.5]".to_string()), &Some("10".to_string()), at(1));
    store.save_price_history_at("a", &Some("[0.6,0.4]".to_string()), &None, at(2));
    store.save_price_history_at("b", &None, &Some("7".to_string()), at(3));
    store.save_price_history_at("a", &None, &None, at(4));
    assert_eq!(
        store.get_price_history("a", 2),
        vec![
            PricePoint { outcome_prices: "".to_string(), volume: "".to_string(), timestamp: at(4) },
            PricePoint {
                outcome_prices: "[0.6,0.4]".to_string(),
                volume: "".to_string(),
                timestamp: at(2),
            },
        ]
    );
    let all = store.get_price_history("a", 100);
    assert_eq!(all.len(), 3);
    assert_eq!(
        all[2],
        PricePoint {
            outcome_prices: "[0.5,0.5]".to_string(),
            volume: "10".to_string(),
            timestamp: at(1),
        }
    );
    assert_eq!(
        store.get_price_history("b", 1),
        vec![PricePoint {
            outcome_prices: "".to_string(),
            volume: "7".to_string(),
            timestamp: at(3),
        }]
    );
    assert!(store.get_price_history("a", 0).is_empty());
    assert!(store.get_price_history("a", -3).is_empty());
    assert!(store.get_price_history("zzz", 5).is_empty());
}

#[test]
fn price_history_keeps_the_last_thousand() {
    let mut store = JsonDatabase::new("data");
    let n = HISTORY_CAP as i64 + 3;
    for i in 0..n {
        store.save_price_history_at("a", &Some(format!("[{}]", i)), &None, at(i));
    }
    let all = store.get_price_history("a", i32::MAX);
    assert_eq!(all.len(), HISTORY_CAP);
    assert_eq!(all[0].timestamp, at(n - 1));
    assert_eq!(all[HISTORY_CAP - 1].timestamp, at(3));
    assert_eq!(all[HISTORY_CAP - 1].outcome_prices, "[3]");
    assert_eq!(HISTORY_CAP, 1000);
    assert_eq!(EVENTS_CAP, 1000);
}

#[test]
fn price_history_with_the_clock() {
    let mut store = JsonDatabase::new("data");
    let before = Timestamp::now();
    store.save_price_history("a", &Some("[1]".to_string()), &Some("2".to_string()));
    let after = Timestamp::now();
    let points = store.get_price_history("a", 5);
    assert_eq!(points.len(), 1);
    assert_eq!(points[0].outcome_prices, "[1]");
    assert_eq!(points[0].volume, "2");
    assert!(before.millis <= points[0].timestamp.millis);
    assert!(points[0].timestamp.millis <= after.millis);
}

#[test]
fn set_up_from_files() {
    let mut store = JsonDatabase::new("data");
    store.save_market_at(&market("old", "[1,0]"), at(1));
    store.save_price_history_at("old", &None, &None, at(1));
    let records = vec![
        StoredMarket { market: market("a", "[0.5,0.5]"), first_seen_at: at(5), last_updated_at: at(9) },
        StoredMarket { market: market("b", "[0.1,0.9]"), first_seen_at: at(6), last_updated_at: at(6) },
    ];
    let events = vec![
        event("a", EventType::NewMarket, 5),
        event("b", EventType::NewMarket, 6),
        event("a", EventType::PriceChange, 9),
    ];
    store.init(Some(records.clone()), Some(events.clone()));
    assert_eq!(store.get_market_count(), Ok(2));
    assert_eq!(store.get_market("old"), None);
    assert_eq!(store.get_stored_market("a"), Some(records[0].clone()));
    assert_eq!(store.get_stored_market("b"), Some(records[1].clone()));
    assert_eq!(store.stored_events(), events);
    assert_eq!(store.get_event_count(), 3);
    assert_eq!(
        store.get_event_stats(),
        vec![
            ("NewMarket".to_string(), 2),
            ("PriceChange".to_string(), 1),
            ("Total".to_string(), 3),
        ]
    );
    assert_eq!(store.get_price_history("old", 5).len(), 1);
    store.save_market_at(&market("a", "[0.9,0.1]"), at(20));
    assert_eq!(store.get_stored_market("a").unwrap().first_seen_at, at(5));
}

#[test]
fn set_up_without_files_is_empty() {
    let mut store = JsonDatabase::new("data");
    store.save_market_at(&market("old", "[1,0]"), at(1));
    store.save_event(&event("old", EventType::NewMarket, 1)).unwrap();
    store.init(None, None);
    assert_eq!(store.get_market_count(), Ok(0));
    assert_eq!(store.get_event_count(), 0);
    assert!(store.stored_events().is_empty());
    store.init(None, None);
    assert_eq!(store.get_market_count(), Ok(0));
}

#[test]
fn set_up_keeps_the_newest_events() {
    let mut store = JsonDatabase::new("data");
    let mut events = Vec::new();
    for i in 0..(EVENTS_CAP as i64 + 10) {
        let kind = if i < 10 { EventType::MarketClosed } else { EventType::VolumeUpdate };
        events.push(event("a", kind, i));
    }
    store.init(None, Some(events));
    let kept = store.stored_events();
    assert_eq!(kept.len(), EVENTS_CAP);
    assert_eq!(kept[0].timestamp, at(10));
    assert_eq!(store.get_event_count(), EVENTS_CAP as i64);
    assert_eq!(
        store.get_event_stats(),
        vec![
            ("VolumeUpdate".to_string(), EVENTS_CAP as i64),
            ("Total".to_string(), EVENTS_CAP as i64),
        ]
    );
}

#[test]
fn set_up_takes_the_later_of_two_records() {
    let mut store = JsonDatabase::new("data");
    let records = vec![
        StoredMarket { market: market("a", "[0.5,0.5]"), first_seen_at: at(5), last_updated_at: at(5) },
        StoredMarket { market: market("a", "[0.6,0.4]"), first_seen_at: at(7), last_updated_at: at(8) },
    ];
    store.init(Some(records.clone()), None);
    assert_eq!(store.get_market_count(), Ok(1));
    assert_eq!(store.get_stored_market("a"), Some(records[1].clone()));
}

#[test]
fn file_names() {
    assert_eq!(MARKETS_FILE, "markets.json");
    assert_eq!(EVENTS_FILE, "events.json");
    assert_eq!(temp_file_name(MARKETS_FILE), "markets.json.tmp");
    assert_eq!(temp_file_name(""), ".tmp");
}

#[test]
fn save_event_error_is_a_storage_error() {
    let e = ScannerError::StorageError(polymarket_scanner::json_db::COUNT_EXHAUSTED.to_string());
    assert_eq!(e.message(), "storage error: the count cannot grow any further");
}
