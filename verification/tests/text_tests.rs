use polymarket_scanner::config::{
    Config, StorageKind, DEFAULT_DATABASE_URL, DEFAULT_JSON_DB_PATH, DEFAULT_KV_URL,
    SCAN_ALL_BATCH, SCAN_INTERVAL_SECS, SQL_POOL_SIZE,
};
use polymarket_scanner::error::ScannerError;
use polymarket_scanner::text::{
    decimal_string, join2, join3, or_blank, pair, signed_decimal_string, text_eq,
};
use polymarket_scanner::types::{opt_text_clone, opt_text_eq, EventType, Market, MarketsResponse};

#[test]
fn decimal_notation() {
    assert_eq!(decimal_string(0), "0");
    assert_eq!(decimal_string(7), "7");
    assert_eq!(decimal_string(10), "10");
    assert_eq!(decimal_string(1037), "1037");
    assert_eq!(decimal_string(u64::MAX), "18446744073709551615");
    for n in [1u64, 9, 99, 100, 101, 65535, 4294967296, 1234567890123] {
        assert_eq!(decimal_string(n), n.to_string());
    }
}

#[test]
fn signed_decimal_notation() {
    assert_eq!(signed_decimal_string(0), "0");
    assert_eq!(signed_decimal_string(-1), "-1");
    assert_eq!(signed_decimal_string(42), "42");
    assert_eq!(signed_decimal_string(i64::MAX), "9223372036854775807");
    assert_eq!(signed_decimal_string(i64::MIN), "-9223372036854775808");
}

#[test]
fn texts_are_equal_by_content() {
    assert!(text_eq("", ""));
    assert!(text_eq("abc", "abc"));
    assert!(!text_eq("abc", "abd"));
    assert!(!text_eq("abc", "ab"));
    assert!(!text_eq("", "a"));
    assert!(text_eq("prices \u{1F514} \u{4EF7}", "prices \u{1F514} \u{4EF7}"));
    assert!(!text_eq("\u{e9}", "e"));
}

#[test]
fn joining() {
    assert_eq!(join2("a", "b"), "ab");
    assert_eq!(join2("", ""), "");
    assert_eq!(join3("a", "", "c"), "ac");
    assert_eq!(pair("k", "v"), ("k".to_string(), "v".to_string()));
    assert_eq!(or_blank(&None), "");
    assert_eq!(or_blank(&Some("x".to_string())), "x");
}

#[test]
fn optional_texts() {
    let a = Some("x".to_string());
    let b = Some("y".to_string());
    assert!(opt_text_eq(&a, &a.clone()));
    assert!(!opt_text_eq(&a, &b));
    assert!(!opt_text_eq(&a, &None));
    assert!(!opt_text_eq(&None, &b));
    assert!(opt_text_eq(&None, &None));
    assert_eq!(opt_text_clone(&a), a);
    assert_eq!(opt_text_clone(&None), None);
}

#[test]
fn kinds_have_names() {
    assert_eq!(EventType::NewMarket.name(), "NewMarket");
    assert_eq!(EventType::PriceChange.name(), "PriceChange");
    assert_eq!(EventType::VolumeUpdate.name(), "VolumeUpdate");
    assert_eq!(EventType::MarketClosed.name(), "MarketClosed");
    for kind in [
        EventType::NewMarket,
        EventType::PriceChange,
        EventType::VolumeUpdate,
        EventType::MarketClosed,
    ] {
        assert_eq!(EventType::from_name(kind.name()), Some(kind));
    }
    assert_eq!(EventType::from_name("Total"), None);
    assert_eq!(EventType::from_name("newmarket"), None);
    assert_eq!(EventType::from_name(""), None);
}

#[test]
fn market_is_copied_whole() {
    let m = Market {
        condition_id: "a".to_string(),
        question_id: Some("q".to_string()),
        question: "Q?".to_string(),
        description: Some("d".to_string()),
        market_slug: Some("s".to_string()),
        outcomes: "[]".to_string(),
        outcome_prices: Some("[]".to_string()),
        volume: Some("1".to_string()),
        liquidity: Some("2".to_string()),
        end_date: Some("e".to_string()),
        active: Some(false),
        closed: Some(true),
    };
    assert_eq!(m.clone(), m);
    let page = MarketsResponse { data: vec![m.clone()], next_cursor: Some("c".to_string()) };
    assert_eq!(page.data[0], m);
    assert_eq!(page.next_cursor, Some("c".to_string()));
}

#[test]
fn error_messages() {
    assert_eq!(
        ScannerError::ApiError { status: 503, body: "down".to_string() }.message(),
        "API request failed: HTTP 503: down"
    );
    assert_eq!(
        ScannerError::NetworkError("timed out".to_string()).message(),
        "network error: timed out"
    );
    assert_eq!(
        ScannerError::DecodeError("eof".to_string()).message(),
        "JSON decode error: eof"
    );
    assert_eq!(
        ScannerError::InvalidResponse("odd".to_string()).message(),
        "invalid response: odd"
    );
    assert_eq!(ScannerError::StorageError("full".to_string()).message(), "storage error: full");
    assert_eq!(
        ScannerError::ConfigError("no url".to_string()).message(),
        "configuration error: no url"
    );
}

fn some(s: &str) -> Option<String> {
    Some(s.to_string())
}

#[test]
fn configuration_defaults() {
    let c = Config::from_settings(&None, &None, &None, &None, &None);
    assert_eq!(
        c,
        Config {
            storage: StorageKind::Json,
            database_url: "sqlite:data.db".to_string(),
            kv_url: "redis://127.0.0.1:6379".to_string(),
            json_db_path: "data".to_string(),
            scan_all_first: false,
        }
    );
    assert_eq!(DEFAULT_DATABASE_URL, "sqlite:data.db");
    assert_eq!(DEFAULT_KV_URL, "redis://127.0.0.1:6379");
    assert_eq!(DEFAULT_JSON_DB_PATH, "data");
    assert_eq!(SCAN_INTERVAL_SECS, 10);
    assert_eq!(SCAN_ALL_BATCH, 100);
    assert_eq!(SQL_POOL_SIZE, 5);
}

#[test]
fn configuration_as_set() {
    let c = Config::from_settings(
        &some("sql"),
        &some("sqlite:other.db"),
        &some("redis://host:1"),
        &some("snapshots"),
        &some("true"),
    );
    assert_eq!(
        c,
        Config {
            storage: StorageKind::Sql,
            database_url: "sqlite:other.db".to_string(),
            kv_url: "redis://host:1".to_string(),
            json_db_path: "snapshots".to_string(),
            scan_all_first: true,
        }
    );
}

#[test]
fn storage_kinds_by_name() {
    assert_eq!(StorageKind::from_setting(&some("sql")), StorageKind::Sql);
    assert_eq!(StorageKind::from_setting(&some("sqlite")), StorageKind::Sql);
    assert_eq!(StorageKind::from_setting(&some("kv")), StorageKind::Kv);
    assert_eq!(StorageKind::from_setting(&some("redis")), StorageKind::Kv);
    assert_eq!(StorageKind::from_setting(&some("json")), StorageKind::Json);
    assert_eq!(StorageKind::from_setting(&some("SQL")), StorageKind::Json);
    assert_eq!(StorageKind::from_setting(&some("")), StorageKind::Json);
    assert_eq!(StorageKind::from_setting(&None), StorageKind::Json);
}

#[test]
fn only_true_switches_the_full_scan_on() {
    for v in ["True", "1", "yes", "", "false", " true"] {
        let c = Config::from_settings(&None, &None, &None, &None, &some(v));
        assert!(!c.scan_all_first);
    }
}
