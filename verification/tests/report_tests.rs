use polymarket_scanner::clock::Timestamp;
use polymarket_scanner::report::{
    event_lines, market_info_lines, price_change_lines, priced_outcomes, HEAVY_RULE, LIGHT_RULE,
};
use polymarket_scanner::types::{EventType, Market, MarketEvent};

fn market(outcomes: &str, prices: Option<&str>) -> Market {
    Market {
        condition_id: "a".to_string(),
        question_id: None,
        question: "Will it rain?".to_string(),
        description: None,
        market_slug: None,
        outcomes: outcomes.to_string(),
        outcome_prices: prices.map(|p| p.to_string()),
        volume: None,
        liquidity: None,
        end_date: None,
        active: None,
        closed: None,
    }
}

fn pairs(v: &[(&str, &str)]) -> Vec<(String, String)> {
    v.iter().map(|(a, b)| (a.to_string(), b.to_string())).collect()
}

#[test]
fn outcomes_with_prices_as_strings() {
    let m = market("[\"Yes\", \"No\"]", Some("[\"0.6\", \"0.4\"]"));
    assert_eq!(priced_outcomes(&m), Some(pairs(&[("Yes", "0.6"), ("No", "0.4")])));
}

#[test]
fn outcomes_with_prices_as_numbers() {
    let m = market("[\"Yes\", \"No\"]", Some("[0.6, 0.4]"));
    assert_eq!(priced_outcomes(&m), Some(pairs(&[("Yes", "0.6"), ("No", "0.4")])));
}

#[test]
fn lists_of_different_length_are_refused() {
    assert_eq!(priced_outcomes(&market("[\"Yes\", \"No\"]", Some("[\"0.6\"]"))), None);
    assert_eq!(priced_outcomes(&market("[\"Yes\"]", Some("[0.6, 0.4]"))), None);
    assert_eq!(priced_outcomes(&market("[]", Some("[0.6]"))), None);
    assert_eq!(priced_outcomes(&market("[]", Some("[]"))), Some(Vec::new()));
}

#[test]
fn lists_that_cannot_be_read_are_refused() {
    assert_eq!(priced_outcomes(&market("Yes, No", Some("[0.6, 0.4]"))), None);
    assert_eq!(priced_outcomes(&market("[\"Yes\", \"No\"]", Some("0.6, 0.4"))), None);
    assert_eq!(priced_outcomes(&market("[\"Yes\", \"No\"]", Some("[true, false]"))), None);
    assert_eq!(priced_outcomes(&market("[1, 2]", Some("[0.6, 0.4]"))), None);
    assert_eq!(priced_outcomes(&market("[\"Yes\", \"No\"]", None)), None);
}

#[test]
fn presentation_of_a_full_market() {
    let mut m = market("[\"Yes\", \"No\"]", Some("[\"0.6\", \"0.4\"]"));
    m.description = Some("About rain".to_string());
    m.volume = Some("1000".to_string());
    m.liquidity = Some("250".to_string());
    m.end_date = Some("2025-01-01".to_string());
    assert_eq!(
        market_info_lines(&m),
        vec![
            "".to_string(),
            HEAVY_RULE.to_string(),
            "Question: Will it rain?".to_string(),
            "Description: About rain".to_string(),
            LIGHT_RULE.to_string(),
            "  Yes - price: 0.6".to_string(),
            "  No - price: 0.4".to_string(),
            LIGHT_RULE.to_string(),
            "Volume: $1000".to_string(),
            "Liquidity: $250".to_string(),
            "End date: 2025-01-01".to_string(),
            HEAVY_RULE.to_string(),
            "".to_string(),
        ]
    );
}

#[test]
fn presentation_without_prices() {
    let m = market("[\"Yes\", \"No\"]", None);
    assert_eq!(
        market_info_lines(&m),
        vec![
            "".to_string(),
            HEAVY_RULE.to_string(),
            "Question: Will it rain?".to_string(),
            LIGHT_RULE.to_string(),
            "  Yes - price: N/A".to_string(),
            "  No - price: N/A".to_string(),
            LIGHT_RULE.to_string(),
            HEAVY_RULE.to_string(),
            "".to_string(),
        ]
    );
}

#[test]
fn presentation_with_lists_that_do_not_fit() {
    let bare = vec![
        "".to_string(),
        HEAVY_RULE.to_string(),
        "Question: Will it rain?".to_string(),
        LIGHT_RULE.to_string(),
        LIGHT_RULE.to_string(),
        HEAVY_RULE.to_string(),
        "".to_string(),
    ];
    assert_eq!(market_info_lines(&market("[\"Yes\", \"No\"]", Some("[\"0.6\"]"))), bare);
    assert_eq!(market_info_lines(&market("oops", Some("[\"0.6\"]"))), bare);
    assert_eq!(market_info_lines(&market("oops", None)), bare);
    assert_eq!(market_info_lines(&market("[\"Yes\"]", Some("oops"))), bare);
}

#[test]
fn announcement_of_new_prices() {
    let m = market("[\"Yes\", \"No\"]", Some("[0.6, 0.4]"));
    assert_eq!(
        price_change_lines(&m),
        vec![
            "".to_string(),
            "Will it rain? - price update:".to_string(),
            "  Yes -> 0.6".to_string(),
            "  No -> 0.4".to_string(),
            "".to_string(),
        ]
    );
    assert_eq!(
        price_change_lines(&market("[\"Yes\", \"No\"]", None)),
        vec!["".to_string(), "Will it rain? - price update:".to_string(), "".to_string()]
    );
}

#[test]
fn lines_by_kind_of_event() {
    let m = market("[\"Yes\", \"No\"]", Some("[0.6, 0.4]"));
    let event = |kind| MarketEvent {
        market: m.clone(),
        timestamp: Timestamp { millis: 0 },
        event_type: kind,
    };
    assert_eq!(event_lines(&event(EventType::NewMarket)), market_info_lines(&m));
    assert_eq!(event_lines(&event(EventType::PriceChange)), price_change_lines(&m));
    assert_eq!(
        event_lines(&event(EventType::VolumeUpdate)),
        vec!["Volume update: Will it rain?".to_string()]
    );
    assert_eq!(
        event_lines(&event(EventType::MarketClosed)),
        vec!["Market closed: Will it rain?".to_string()]
    );
}
