use polymarket_scanner::clock::{Timestamp, FALLBACK_MILLIS};
use polymarket_scanner::database::{
    find_field, get_event_stats, get_market, history_range, kind_counter_key, kind_counter_keys, market_fields, market_from_fields,
    market_key, price_history_key, price_point_command, price_point_from_member,
    price_points_from_members, save_event_commands, save_market, save_markets,
    save_markets_at, save_markets_commands, save_price_history, KvCommand, CLOCK_OUT_OF_RANGE,
    EVENT_TOTAL,
    MARKETS_SET, RECENT_EVENTS, RECENT_EVENTS_CAP,
};
use polymarket_scanner::error::ScannerError;
use polymarket_scanner::json::member_text;
use polymarket_scanner::types::{EventType, Market, PricePoint};

fn full_market() -> Market {
    Market {
        condition_id: "0xabc".to_string(),
        question_id: Some("q1".to_string()),
        question: "Will it rain?".to_string(),
        description: Some("About rain".to_string()),
        market_slug: Some("will-it-rain".to_string()),
        outcomes: "[\"Yes\", \"No\"]".to_string(),
        outcome_prices: Some("[\"0.5\", \"0.5\"]".to_string()),
        volume: Some("1000".to_string()),
        liquidity: Some("250".to_string()),
        end_date: Some("2025-01-01T00:00:00Z".to_string()),
        active: Some(true),
        closed: Some(false),
    }
}

fn bare_market() -> Market {
    Market {
        condition_id: "0xdef".to_string(),
        question_id: None,
        question: "Bare?".to_string(),
        description: None,
        market_slug: None,
        outcomes: "[]".to_string(),
        outcome_prices: None,
        volume: None,
        liquidity: None,
        end_date: None,
        active: None,
        closed: None,
    }
}

fn pairs(v: &[(&str, &str)]) -> Vec<(String, String)> {
    v.iter().map(|(a, b)| (a.to_string(), b.to_string())).collect()
}

fn flat(fields: &[(String, String)]) -> Vec<String> {
    let mut out = Vec::new();
    for (k, v) in fields {
        out.push(k.clone());
        out.push(v.clone());
    }
    out
}

fn strings(v: &[&str]) -> Vec<String> {
    v.iter().map(|s| s.to_string()).collect()
}

#[test]
fn keys() {
    assert_eq!(market_key("0xabc"), "market:0xabc");
    assert_eq!(price_history_key("0xabc"), "market:0xabc:price_history");
    assert_eq!(kind_counter_key("NewMarket"), "stats:events:NewMarket");
    assert_eq!(MARKETS_SET, "markets:all");
    assert_eq!(RECENT_EVENTS, "events:recent");
    assert_eq!(EVENT_TOTAL, "stats:events:total");
    assert_eq!(RECENT_EVENTS_CAP, 1000);
}

#[test]
fn fields_of_a_full_market() {
    assert_eq!(
        market_fields(&full_market(), "2024-05-05T00:00:00+00:00"),
        pairs(&[
            ("condition_id", "0xabc"),
            ("question_id", "q1"),
            ("question", "Will it rain?"),
            ("description", "About rain"),
            ("market_slug", "will-it-rain"),
            ("outcomes", "[\"Yes\", \"No\"]"),
            ("outcome_prices", "[\"0.5\", \"0.5\"]"),
            ("volume", "1000"),
            ("liquidity", "250"),
            ("end_date", "2025-01-01T00:00:00Z"),
            ("active", "1"),
            ("closed", "0"),
            ("last_updated_at", "2024-05-05T00:00:00+00:00"),
        ])
    );
}

#[test]
fn fields_of_a_bare_market() {
    assert_eq!(
        market_fields(&bare_market(), "now"),
        pairs(&[
            ("condition_id", "0xdef"),
            ("question_id", ""),
            ("question", "Bare?"),
            ("description", ""),
            ("market_slug", ""),
            ("outcomes", "[]"),
            ("outcome_prices", ""),
            ("volume", ""),
            ("liquidity", ""),
            ("end_date", ""),
            ("active", ""),
            ("closed", ""),
            ("last_updated_at", "now"),
        ])
    );
}

#[test]
fn written_market_reads_back() {
    for m in [full_market(), bare_market()] {
        let mut data = flat(&market_fields(&m, "2024-05-05T00:00:00+00:00"));
        data.push("first_seen_at".to_string());
        data.push("2024-01-01T00:00:00+00:00".to_string());
        assert_eq!(market_from_fields(&data), m);
        data.reverse();
        let mut swapped = Vec::new();
        for pair in data.chunks(2) {
            swapped.push(pair[1].clone());
            swapped.push(pair[0].clone());
        }
        assert_eq!(market_from_fields(&swapped), m);
    }
}

#[test]
fn empty_hash_reads_as_defaults() {
    let m = market_from_fields(&Vec::new());
    assert_eq!(
        m,
        Market {
            condition_id: "".to_string(),
            question_id: None,
            question: "".to_string(),
            description: None,
            market_slug: None,
            outcomes: "[]".to_string(),
            outcome_prices: Some("[]".to_string()),
            volume: None,
            liquidity: None,
            end_date: None,
            active: None,
            closed: None,
        }
    );
}

#[test]
fn flags_read_back() {
    let data = strings(&["active", "1", "closed", "0"]);
    let m = market_from_fields(&data);
    assert_eq!(m.active, Some(true));
    assert_eq!(m.closed, Some(false));
    let odd = strings(&["active", "yes", "closed", ""]);
    let m = market_from_fields(&odd);
    assert_eq!(m.active, Some(false));
    assert_eq!(m.closed, None);
}

#[test]
fn last_pair_of_a_name_counts_and_a_lone_element_is_ignored() {
    let data = strings(&["question", "first", "volume", "1", "question", "second", "volume"]);
    assert_eq!(find_field(&data, "question"), Some("second".to_string()));
    assert_eq!(find_field(&data, "volume"), Some("1".to_string()));
    assert_eq!(find_field(&data, "first"), None);
    assert_eq!(find_field(&data, "liquidity"), None);
    assert_eq!(find_field(&strings(&["question"]), "question"), None);
    assert_eq!(market_from_fields(&data).question, "second");
}

#[test]
fn market_of_a_key_that_does_not_exist() {
    let data = flat(&market_fields(&full_market(), "now"));
    assert_eq!(get_market(false, &data), None);
    assert_eq!(get_market(true, &data), Some(full_market()));
}

#[test]
fn commands_of_a_batch() {
    let batch = vec![full_market(), bare_market()];
    let commands = save_markets_commands(&batch, "T");
    assert_eq!(
        commands,
        vec![
            KvCommand::HashSet {
                key: "market:0xabc".to_string(),
                fields: market_fields(&full_market(), "T"),
            },
            KvCommand::HashSetIfAbsent {
                key: "market:0xabc".to_string(),
                field: "first_seen_at".to_string(),
                value: "T".to_string(),
            },
            KvCommand::SetAdd { key: "markets:all".to_string(), member: "0xabc".to_string() },
            KvCommand::HashSet {
                key: "market:0xdef".to_string(),
                fields: market_fields(&bare_market(), "T"),
            },
            KvCommand::HashSetIfAbsent {
                key: "market:0xdef".to_string(),
                field: "first_seen_at".to_string(),
                value: "T".to_string(),
            },
            KvCommand::SetAdd { key: "markets:all".to_string(), member: "0xdef".to_string() },
        ]
    );
    assert!(save_markets_commands(&Vec::new(), "T").is_empty());
}

#[test]
fn first_sight_is_never_among_the_overwritten_fields() {
    for m in [full_market(), bare_market()] {
        let fields = market_fields(&m, "T");
        assert!(fields.iter().all(|(name, _)| name != "first_seen_at"));
        assert_eq!(fields.len(), 13);
    }
}

#[test]
fn batch_with_the_clock() {
    let before = Timestamp::now();
    let commands = save_markets(&vec![full_market(), bare_market()]).unwrap();
    let after = Timestamp::now();
    assert_eq!(commands.len(), 6);
    let now = match &commands[1] {
        KvCommand::HashSetIfAbsent { value, .. } => value.clone(),
        other => panic!("unexpected command {:?}", other),
    };
    let t = Timestamp::parse_rfc3339(&now).unwrap();
    assert!(before.millis <= t.millis && t.millis <= after.millis);
    assert_eq!(commands, save_markets_commands(&vec![full_market(), bare_market()], &now));
    let single = save_market(&bare_market()).unwrap();
    assert_eq!(single.len(), 3);
    assert_eq!(
        single[2],
        KvCommand::SetAdd { key: "markets:all".to_string(), member: "0xdef".to_string() }
    );
}

#[test]
fn batch_at_a_given_time() {
    let batch = vec![full_market(), bare_market()];
    let at = Timestamp { millis: 1_704_067_200_000 };
    assert_eq!(
        save_markets_at(&batch, at),
        Ok(save_markets_commands(&batch, "2024-01-01T00:00:00+00:00"))
    );
    assert_eq!(
        save_markets_at(&batch, Timestamp { millis: i64::MAX }),
        Err(ScannerError::StorageError(CLOCK_OUT_OF_RANGE.to_string()))
    );
    assert_eq!(save_markets_at(&Vec::new(), at), Ok(Vec::new()));
}

#[test]
fn commands_of_an_event() {
    assert_eq!(
        save_event_commands(EventType::PriceChange, "{\"k\":1}"),
        vec![
            KvCommand::ListPushFront {
                key: "events:recent".to_string(),
                value: "{\"k\":1}".to_string(),
            },
            KvCommand::ListTrim { key: "events:recent".to_string(), start: 0, stop: 999 },
            KvCommand::Increment { key: "stats:events:PriceChange".to_string() },
            KvCommand::Increment { key: "stats:events:total".to_string() },
        ]
    );
}

#[test]
fn command_of_a_price_point() {
    let at = Timestamp { millis: 1_704_067_200_123 };
    let command = price_point_command(
        "0xabc",
        &Some("[\"0.5\"]".to_string()),
        &None,
        at,
    )
    .unwrap();
    match command {
        KvCommand::SortedSetAdd { key, score, member } => {
            assert_eq!(key, "market:0xabc:price_history");
            assert_eq!(score, 1_704_067_200_123);
            assert_eq!(member_text(&member, "outcome_prices"), Some(Some("[\"0.5\"]".to_string())));
            assert_eq!(member_text(&member, "volume"), Some(Some("".to_string())));
            assert_eq!(
                member_text(&member, "timestamp"),
                Some(Some("2024-01-01T00:00:00.123+00:00".to_string()))
            );
            assert_eq!(
                price_point_from_member(&member),
                Some(PricePoint {
                    outcome_prices: "[\"0.5\"]".to_string(),
                    volume: "".to_string(),
                    timestamp: at,
                })
            );
        }
        other => panic!("unexpected command {:?}", other),
    }
}

#[test]
fn price_point_at_a_time_without_notation() {
    let r = price_point_command("a", &None, &None, Timestamp { millis: i64::MAX });
    assert_eq!(r, Err(ScannerError::StorageError(CLOCK_OUT_OF_RANGE.to_string())));
}

#[test]
fn price_point_with_the_clock() {
    let before = Timestamp::now();
    let command = save_price_history("a", &Some("[1]".to_string()), &Some("5".to_string())).unwrap();
    let after = Timestamp::now();
    match command {
        KvCommand::SortedSetAdd { key, score, member } => {
            assert_eq!(key, "market:a:price_history");
            assert!(before.millis <= score && score <= after.millis);
            let point = price_point_from_member(&member).unwrap();
            assert_eq!(point.outcome_prices, "[1]");
            assert_eq!(point.volume, "5");
            assert_eq!(point.timestamp, Timestamp { millis: score });
        }
        other => panic!("unexpected command {:?}", other),
    }
}

#[test]
fn ranks_of_a_history() {
    assert_eq!(history_range(10), Some((0, 9)));
    assert_eq!(history_range(1), Some((0, 0)));
    assert_eq!(history_range(i32::MAX), Some((0, 2147483646)));
    assert_eq!(history_range(0), None);
    assert_eq!(history_range(-1), None);
    assert_eq!(history_range(i32::MIN), None);
}

#[test]
fn members_are_read() {
    let members = strings(&[
        "{\"outcome_prices\":\"[0.6]\",\"timestamp\":\"2024-01-01T00:00:01+00:00\",\"volume\":\"12\"}",
        "not json",
        "{\"volume\":\"3\"}",
        "[1]",
        "{\"outcome_prices\":7,\"timestamp\":\"garbled\",\"volume\":\"4\"}",
    ]);
    assert_eq!(
        price_points_from_members(&members),
        vec![
            PricePoint {
                outcome_prices: "[0.6]".to_string(),
                volume: "12".to_string(),
                timestamp: Timestamp { millis: 1_704_067_201_000 },
            },
            PricePoint {
                outcome_prices: "".to_string(),
                volume: "3".to_string(),
                timestamp: Timestamp { millis: FALLBACK_MILLIS },
            },
            PricePoint {
                outcome_prices: "".to_string(),
                volume: "".to_string(),
                timestamp: Timestamp { millis: FALLBACK_MILLIS },
            },
            PricePoint {
                outcome_prices: "".to_string(),
                volume: "4".to_string(),
                timestamp: Timestamp { millis: FALLBACK_MILLIS },
            },
        ]
    );
    assert!(price_points_from_members(&Vec::new()).is_empty());
    assert_eq!(price_point_from_member("{"), None);
}

#[test]
fn counters_by_kind() {
    assert_eq!(
        kind_counter_keys(),
        strings(&[
            "stats:events:NewMarket",
            "stats:events:PriceChange",
            "stats:events:VolumeUpdate",
            "stats:events:MarketClosed",
        ])
    );
}

#[test]
fn statistics_from_counters() {
    assert_eq!(
        get_event_stats(Some(3), None, Some(0), Some(4)),
        Ok(vec![
            ("NewMarket".to_string(), 3),
            ("MarketClosed".to_string(), 4),
            ("Total".to_string(), 7),
        ])
    );
    assert_eq!(get_event_stats(None, None, None, None), Ok(vec![("Total".to_string(), 0)]));
    assert_eq!(
        get_event_stats(Some(1), Some(2), Some(3), Some(4)),
        Ok(vec![
            ("NewMarket".to_string(), 1),
            ("PriceChange".to_string(), 2),
            ("VolumeUpdate".to_string(), 3),
            ("MarketClosed".to_string(), 4),
            ("Total".to_string(), 10),
        ])
    );
    assert!(get_event_stats(Some(i64::MAX), Some(1), None, None).is_err());
    assert!(get_event_stats(Some(-1), None, None, None).is_err());
}
