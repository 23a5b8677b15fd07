//! Statements and row shapes of the relational backend.

use crate::clock::{rfc3339_text, stored_time, Timestamp};
use crate::error::{ScannerError, ScannerErrorView};
use crate::text::{or_blank, text_or_blank};
use crate::types::{
    kind_name, opt_text, Market, MarketEvent, MarketEventView, MarketView, PricePoint,
    PricePointView,
};
use vstd::prelude::*;
use vstd::string::StringExecFns;

verus! {

pub const CREATE_MARKETS: &'static str =
    "CREATE TABLE IF NOT EXISTS markets (\
 id INTEGER PRIMARY KEY AUTOINCREMENT,\
 condition_id TEXT NOT NULL UNIQUE,\
 question_id TEXT,\
 question TEXT NOT NULL,\
 description TEXT,\
 market_slug TEXT,\
 outcomes TEXT NOT NULL,\
 outcome_prices TEXT NOT NULL,\
 volume TEXT,\
 liquidity TEXT,\
 end_date TEXT,\
 active INTEGER,\
 closed INTEGER,\
 first_seen_at TEXT NOT NULL,\
 last_updated_at TEXT NOT NULL,\
 created_at TEXT NOT NULL DEFAULT CURRENT_TIMESTAMP)";

pub const CREATE_MARKET_EVENTS: &'static str =
    "CREATE TABLE IF NOT EXISTS market_events (\
 id INTEGER PRIMARY KEY AUTOINCREMENT,\
 condition_id TEXT NOT NULL,\
 event_type TEXT NOT NULL,\
 question TEXT NOT NULL,\
 outcomes TEXT,\
 outcome_prices TEXT,\
 volume TEXT,\
 liquidity TEXT,\
 timestamp TEXT NOT NULL,\
 created_at TEXT NOT NULL DEFAULT CURRENT_TIMESTAMP,\
 FOREIGN KEY (condition_id) REFERENCES markets(condition_id))";

pub const CREATE_PRICE_HISTORY: &'static str =
    "CREATE TABLE IF NOT EXISTS price_history (\
 id INTEGER PRIMARY KEY AUTOINCREMENT,\
 condition_id TEXT NOT NULL,\
 outcome_prices TEXT NOT NULL,\
 volume TEXT,\
 timestamp TEXT NOT NULL,\
 created_at TEXT NOT NULL DEFAULT CURRENT_TIMESTAMP,\
 FOREIGN KEY (condition_id) REFERENCES markets(condition_id))";

pub const INDEX_MARKETS_ID: &'static str =
    "CREATE INDEX IF NOT EXISTS idx_markets_condition_id ON markets(condition_id)";

pub const INDEX_EVENTS_ID: &'static str =
    "CREATE INDEX IF NOT EXISTS idx_events_condition_id ON market_events(condition_id)";

pub const INDEX_EVENTS_TIME: &'static str =
    "CREATE INDEX IF NOT EXISTS idx_events_timestamp ON market_events(timestamp)";

pub const INDEX_HISTORY_ID: &'static str =
    "CREATE INDEX IF NOT EXISTS idx_price_history_condition_id ON price_history(condition_id)";

pub const MARKET_EXISTS: &'static str =
    "SELECT EXISTS(SELECT 1 FROM markets WHERE condition_id = ?)";

pub const UPDATE_MARKET: &'static str =
    "UPDATE markets SET question_id = ?, question = ?, description = ?, market_slug = ?,\
 outcomes = ?, outcome_prices = ?, volume = ?, liquidity = ?, end_date = ?, active = ?,\
 closed = ?, last_updated_at = ? WHERE condition_id = ?";

pub const INSERT_MARKET: &'static str =
    "INSERT INTO markets (condition_id, question_id, question, description, market_slug,\
 outcomes, outcome_prices, volume, liquidity, end_date, active, closed, first_seen_at,\
 last_updated_at) VALUES (?, ?, ?, ?, ?, ?, ?, ?, ?, ?, ?, ?, ?, ?)";

pub const INSERT_EVENT: &'static str =
    "INSERT INTO market_events (condition_id, event_type, question, outcomes, outcome_prices,\
 volume, liquidity, timestamp) VALUES (?, ?, ?, ?, ?, ?, ?, ?)";

pub const INSERT_PRICE_POINT: &'static str =
    "INSERT INTO price_history (condition_id, outcome_prices, volume, timestamp)\
 VALUES (?, ?, ?, ?)";

pub const COUNT_MARKETS: &'static str = "SELECT COUNT(*) FROM markets";

pub const COUNT_EVENTS: &'static str = "SELECT COUNT(*) FROM market_events";

pub const SELECT_PRICE_HISTORY: &'static str =
    "SELECT outcome_prices, volume, timestamp FROM price_history WHERE condition_id = ?\
 ORDER BY timestamp DESC LIMIT ?";

pub const SELECT_RECENT_EVENTS: &'static str =
    "SELECT event_type, question, outcome_prices, timestamp FROM market_events\
 ORDER BY timestamp DESC LIMIT ?";

pub const SELECT_MARKET: &'static str = "SELECT * FROM markets WHERE condition_id = ?";

pub const SELECT_MARKET_IDS: &'static str = "SELECT condition_id FROM markets";

pub const SELECT_EVENT_STATS: &'static str =
    "SELECT event_type, COUNT(*) as count FROM market_events GROUP BY event_type";

/// Name of the entry of the event statistics that holds the sum.
pub const TOTAL: &'static str = "Total";

/// A value bound to a placeholder of a statement.
#[derive(Debug, PartialEq, Eq)]
pub enum SqlValue {
    Text(String),
    Int(i64),
    Null,
}

/// Mathematical value of a [`SqlValue`].
pub enum SqlValueView {
    Text(Seq<char>),
    Int(i64),
    Null,
}

impl View for SqlValue {
    type V = SqlValueView;

    open spec fn view(&self) -> SqlValueView {
        match self {
            SqlValue::Text(t) => SqlValueView::Text(t@),
            SqlValue::Int(i) => SqlValueView::Int(*i),
            SqlValue::Null => SqlValueView::Null,
        }
    }
}

/// A statement with the values of its placeholders, in order.
#[derive(Debug, PartialEq, Eq)]
pub struct SqlStatement {
    pub sql: String,
    pub params: Vec<SqlValue>,
}

/// Mathematical value of a [`SqlStatement`].
pub struct SqlStatementView {
    pub sql: Seq<char>,
    pub params: Seq<SqlValueView>,
}

impl View for SqlStatement {
    type V = SqlStatementView;

    open spec fn view(&self) -> SqlStatementView {
        SqlStatementView {
            sql: self.sql@,
            params: Seq::new(self.params@.len(), |i: int| self.params@[i]@),
        }
    }
}

/// How an optional text is bound: the text, or NULL.
pub open spec fn nullable_text(t: Option<Seq<char>>) -> SqlValueView {
    match t {
        Some(s) => SqlValueView::Text(s),
        None => SqlValueView::Null,
    }
}

/// How an optional text of a column that cannot be NULL is bound: the text,
/// or the empty text.
pub open spec fn text_or_empty(t: Option<Seq<char>>) -> SqlValueView {
    match t {
        Some(s) => SqlValueView::Text(s),
        None => SqlValueView::Text(Seq::empty()),
    }
}

/// How an optional flag is bound: 1, 0, or NULL.
pub open spec fn nullable_flag(b: Option<bool>) -> SqlValueView {
    match b {
        Some(true) => SqlValueView::Int(1),
        Some(false) => SqlValueView::Int(0),
        None => SqlValueView::Null,
    }
}

fn bind_text(t: &String) -> (r: SqlValue)
    ensures
        r@ == SqlValueView::Text(t@),
{
    SqlValue::Text(t.clone())
}

fn bind_nullable(t: &Option<String>) -> (r: SqlValue)
    ensures
        r@ == nullable_text(opt_text(*t)),
{
    match t {
        Some(s) => SqlValue::Text(s.clone()),
        None => SqlValue::Null,
    }
}

fn bind_or_empty(t: &Option<String>) -> (r: SqlValue)
    ensures
        r@ == text_or_empty(opt_text(*t)),
{
    match t {
        Some(s) => SqlValue::Text(s.clone()),
        None => SqlValue::Text(String::new()),
    }
}

fn bind_flag(b: Option<bool>) -> (r: SqlValue)
    ensures
        r@ == nullable_flag(b),
{
    match b {
        Some(true) => SqlValue::Int(1),
        Some(false) => SqlValue::Int(0),
        None => SqlValue::Null,
    }
}

/// The statement that tells whether a market is stored.
pub open spec fn exists_spec(id: Seq<char>) -> SqlStatementView {
    SqlStatementView { sql: MARKET_EXISTS@, params: seq![SqlValueView::Text(id)] }
}

/// The statement that stores a market seen at the time written `now`: an
/// update of every column but the key and the time of first sight where the
/// market is stored already, else an insert with both times set to `now`.
pub open spec fn upsert_spec(stored: bool, m: MarketView, now: Seq<char>) -> SqlStatementView {
    if stored {
        SqlStatementView {
            sql: UPDATE_MARKET@,
            params: seq![
                nullable_text(m.question_id),
                SqlValueView::Text(m.question),
                nullable_text(m.description),
                nullable_text(m.market_slug),
                SqlValueView::Text(m.outcomes),
                text_or_empty(m.outcome_prices),
                nullable_text(m.volume),
                nullable_text(m.liquidity),
                nullable_text(m.end_date),
                nullable_flag(m.active),
                nullable_flag(m.closed),
                SqlValueView::Text(now),
                SqlValueView::Text(m.condition_id),
            ],
        }
    } else {
        SqlStatementView {
            sql: INSERT_MARKET@,
            params: seq![
                SqlValueView::Text(m.condition_id),
                nullable_text(m.question_id),
                SqlValueView::Text(m.question),
                nullable_text(m.description),
                nullable_text(m.market_slug),
                SqlValueView::Text(m.outcomes),
                text_or_empty(m.outcome_prices),
                nullable_text(m.volume),
                nullable_text(m.liquidity),
                nullable_text(m.end_date),
                nullable_flag(m.active),
                nullable_flag(m.closed),
                SqlValueView::Text(now),
                SqlValueView::Text(now),
            ],
        }
    }
}

/// The statement that tells whether the market `condition_id` is stored.
pub fn exists_statement(condition_id: &str) -> (r: SqlStatement)
    ensures
        r@ == exists_spec(condition_id@),
{
    let mut params: Vec<SqlValue> = Vec::new();
    params.push(SqlValue::Text(String::from_str(condition_id)));
    let r = SqlStatement { sql: String::from_str(MARKET_EXISTS), params };
    assert(r@.params =~= exists_spec(condition_id@).params);
    r
}

/// The statement that stores `market`, seen at the time written `now`, given
/// whether the table holds the market already.
pub fn upsert_statement(stored: bool, market: &Market, now: &str) -> (r: SqlStatement)
    ensures
        r@ == upsert_spec(stored, market@, now@),
{
    let mut params: Vec<SqlValue> = Vec::new();
    if stored {
        params.push(bind_nullable(&market.question_id));
        params.push(bind_text(&market.question));
        params.push(bind_nullable(&market.description));
        params.push(bind_nullable(&market.market_slug));
        params.push(bind_text(&market.outcomes));
        params.push(bind_or_empty(&market.outcome_prices));
        params.push(bind_nullable(&market.volume));
        params.push(bind_nullable(&market.liquidity));
        params.push(bind_nullable(&market.end_date));
        params.push(bind_flag(market.active));
        params.push(bind_flag(market.closed));
        params.push(SqlValue::Text(String::from_str(now)));
        params.push(bind_text(&market.condition_id));
        let r = SqlStatement { sql: String::from_str(UPDATE_MARKET), params };
        assert(r@.params =~= upsert_spec(stored, market@, now@).params);
        r
    } else {
        params.push(bind_text(&market.condition_id));
        params.push(bind_nullable(&market.question_id));
        params.push(bind_text(&market.question));
        params.push(bind_nullable(&market.description));
        params.push(bind_nullable(&market.market_slug));
        params.push(bind_text(&market.outcomes));
        params.push(bind_or_empty(&market.outcome_prices));
        params.push(bind_nullable(&market.volume));
        params.push(bind_nullable(&market.liquidity));
        params.push(bind_nullable(&market.end_date));
        params.push(bind_flag(market.active));
        params.push(bind_flag(market.closed));
        params.push(SqlValue::Text(String::from_str(now)));
        params.push(SqlValue::Text(String::from_str(now)));
        let r = SqlStatement { sql: String::from_str(INSERT_MARKET), params };
        assert(r@.params =~= upsert_spec(stored, market@, now@).params);
        r
    }
}

/// What is said when the clock shows a time that cannot be written down.
pub const TIME_OUT_OF_RANGE: &'static str = "the time cannot be written in RFC 3339 notation";

/// What is said when the counts of the event statistics cannot be summed.
pub const COUNTS_OUT_OF_RANGE: &'static str = "the event counts are out of range";

/// Value of the result of planning a statement.
pub open spec fn statement_result_view(r: Result<SqlStatement, ScannerError>) -> Result<
    SqlStatementView,
    ScannerErrorView,
> {
    match r {
        Ok(s) => Ok(s@),
        Err(e) => Err(e@),
    }
}

/// The statement that stores a market seen at the time `at`, or the error
/// that says that this time cannot be written down.
pub open spec fn upsert_at(stored: bool, m: MarketView, at: Timestamp) -> Result<
    SqlStatementView,
    ScannerErrorView,
> {
    match rfc3339_text(at.millis) {
        Some(now) => Ok(upsert_spec(stored, m, now)),
        None => Err(ScannerErrorView::StorageError(TIME_OUT_OF_RANGE@)),
    }
}

/// The statement that stores `market`, seen at the time `at`, given whether
/// the table holds the market already.
pub fn save_market_at(stored: bool, market: &Market, at: Timestamp) -> (r: Result<
    SqlStatement,
    ScannerError,
>)
    ensures
        statement_result_view(r) == upsert_at(stored, market@, at),
{
    match at.to_rfc3339() {
        Some(now) => Ok(upsert_statement(stored, market, now.as_str())),
        None => Err(ScannerError::StorageError(String::from_str(TIME_OUT_OF_RANGE))),
    }
}

/// The statement that stores `market`, seen now, given whether the table
/// holds the market already.
pub fn save_market(stored: bool, market: &Market) -> (r: Result<SqlStatement, ScannerError>)
    ensures
        exists|at: Timestamp| #[trigger]
            upsert_at(stored, market@, at) == statement_result_view(r),
{
    let at = Timestamp::now();
    let r = save_market_at(stored, market, at);
    assert(upsert_at(stored, market@, at) == statement_result_view(r));
    r
}

/// One statement of the schema, and whether setup fails when it fails.
#[derive(Debug, PartialEq, Eq)]
pub struct SchemaStatement {
    pub sql: String,
    pub required: bool,
}

/// The schema: the three tables, which must be there, then the four indexes,
/// whose failure is passed over.
pub open spec fn schema_spec() -> Seq<(Seq<char>, bool)> {
    seq![
        (CREATE_MARKETS@, true),
        (CREATE_MARKET_EVENTS@, true),
        (CREATE_PRICE_HISTORY@, true),
        (INDEX_MARKETS_ID@, false),
        (INDEX_EVENTS_ID@, false),
        (INDEX_EVENTS_TIME@, false),
        (INDEX_HISTORY_ID@, false),
    ]
}

/// Text and flag of each statement of a sequence.
pub open spec fn schema_view(statements: Seq<SchemaStatement>) -> Seq<(Seq<char>, bool)> {
    Seq::new(statements.len(), |i: int| (statements[i].sql@, statements[i].required))
}

/// The statements that set the schema up, in the order in which they run.
/// Each can be run any number of times.
pub fn init() -> (r: Vec<SchemaStatement>)
    ensures
        schema_view(r@) == schema_spec(),
{
    let mut out: Vec<SchemaStatement> = Vec::new();
    out.push(SchemaStatement { sql: String::from_str(CREATE_MARKETS), required: true });
    out.push(SchemaStatement { sql: String::from_str(CREATE_MARKET_EVENTS), required: true });
    out.push(SchemaStatement { sql: String::from_str(CREATE_PRICE_HISTORY), required: true });
    out.push(SchemaStatement { sql: String::from_str(INDEX_MARKETS_ID), required: false });
    out.push(SchemaStatement { sql: String::from_str(INDEX_EVENTS_ID), required: false });
    out.push(SchemaStatement { sql: String::from_str(INDEX_EVENTS_TIME), required: false });
    out.push(SchemaStatement { sql: String::from_str(INDEX_HISTORY_ID), required: false });
    assert(schema_view(out@) =~= schema_spec());
    out
}

/// The statement that appends an event whose time is written `time`.
pub open spec fn event_insert_spec(e: MarketEventView, time: Seq<char>) -> SqlStatementView {
    SqlStatementView {
        sql: INSERT_EVENT@,
        params: seq![
            SqlValueView::Text(e.market.condition_id),
            SqlValueView::Text(kind_name(e.event_type)),
            SqlValueView::Text(e.market.question),
            SqlValueView::Text(e.market.outcomes),
            text_or_empty(e.market.outcome_prices),
            nullable_text(e.market.volume),
            nullable_text(e.market.liquidity),
            SqlValueView::Text(time),
        ],
    }
}

/// The statement that appends an event, or the error that says that the time
/// of the event cannot be written down.
pub open spec fn save_event_spec(e: MarketEventView) -> Result<SqlStatementView, ScannerErrorView> {
    match rfc3339_text(e.timestamp.millis) {
        Some(time) => Ok(event_insert_spec(e, time)),
        None => Err(ScannerErrorView::StorageError(TIME_OUT_OF_RANGE@)),
    }
}

/// The statement that appends `event` to the table of events.
pub fn save_event(event: &MarketEvent) -> (r: Result<SqlStatement, ScannerError>)
    ensures
        statement_result_view(r) == save_event_spec(event@),
{
    match event.timestamp.to_rfc3339() {
        Some(time) => {
            let mut params: Vec<SqlValue> = Vec::new();
            params.push(bind_text(&event.market.condition_id));
            params.push(SqlValue::Text(String::from_str(event.event_type.name())));
            params.push(bind_text(&event.market.question));
            params.push(bind_text(&event.market.outcomes));
            params.push(bind_or_empty(&event.market.outcome_prices));
            params.push(bind_nullable(&event.market.volume));
            params.push(bind_nullable(&event.market.liquidity));
            params.push(SqlValue::Text(time));
            let r = SqlStatement { sql: String::from_str(INSERT_EVENT), params };
            assert(r@.params =~= event_insert_spec(event@, time@).params);
            Ok(r)
        },
        None => Err(ScannerError::StorageError(String::from_str(TIME_OUT_OF_RANGE))),
    }
}

/// The statement that appends a price point taken at the time written `now`.
pub open spec fn point_insert_spec(
    id: Seq<char>,
    prices: Option<Seq<char>>,
    volume: Option<Seq<char>>,
    now: Seq<char>,
) -> SqlStatementView {
    SqlStatementView {
        sql: INSERT_PRICE_POINT@,
        params: seq![
            SqlValueView::Text(id),
            text_or_empty(prices),
            nullable_text(volume),
            SqlValueView::Text(now),
        ],
    }
}

/// The statement that appends a price point, taken at the time written
/// `now`, to the history of `condition_id`.
pub fn price_point_statement(
    condition_id: &str,
    outcome_prices: &Option<String>,
    volume: &Option<String>,
    now: &str,
) -> (r: SqlStatement)
    ensures
        r@ == point_insert_spec(condition_id@, opt_text(*outcome_prices), opt_text(*volume), now@),
{
    let mut params: Vec<SqlValue> = Vec::new();
    params.push(SqlValue::Text(String::from_str(condition_id)));
    params.push(bind_or_empty(outcome_prices));
    params.push(bind_nullable(volume));
    params.push(SqlValue::Text(String::from_str(now)));
    let r = SqlStatement { sql: String::from_str(INSERT_PRICE_POINT), params };
    assert(r@.params =~= point_insert_spec(
        condition_id@,
        opt_text(*outcome_prices),
        opt_text(*volume),
        now@,
    ).params);
    r
}

/// The statement that appends a price point taken at the time `at`, or the
/// error that says that this time cannot be written down.
pub open spec fn point_insert_at(
    id: Seq<char>,
    prices: Option<Seq<char>>,
    volume: Option<Seq<char>>,
    at: Timestamp,
) -> Result<SqlStatementView, ScannerErrorView> {
    match rfc3339_text(at.millis) {
        Some(now) => Ok(point_insert_spec(id, prices, volume, now)),
        None => Err(ScannerErrorView::StorageError(TIME_OUT_OF_RANGE@)),
    }
}

/// The statement that appends a price point, taken at the time `at`, to the
/// history of `condition_id`.
pub fn save_price_history_at(
    condition_id: &str,
    outcome_prices: &Option<String>,
    volume: &Option<String>,
    at: Timestamp,
) -> (r: Result<SqlStatement, ScannerError>)
    ensures
        statement_result_view(r) == point_insert_at(
            condition_id@,
            opt_text(*outcome_prices),
            opt_text(*volume),
            at,
        ),
{
    match at.to_rfc3339() {
        Some(now) => Ok(price_point_statement(condition_id, outcome_prices, volume, now.as_str())),
        None => Err(ScannerError::StorageError(String::from_str(TIME_OUT_OF_RANGE))),
    }
}

/// The statement that appends a price point, taken now, to the history of
/// `condition_id`.
pub fn save_price_history(
    condition_id: &str,
    outcome_prices: &Option<String>,
    volume: &Option<String>,
) -> (r: Result<SqlStatement, ScannerError>)
    ensures
        exists|at: Timestamp| #[trigger]
            point_insert_at(condition_id@, opt_text(*outcome_prices), opt_text(*volume), at)
                == statement_result_view(r),
{
    let at = Timestamp::now();
    let r = save_price_history_at(condition_id, outcome_prices, volume, at);
    assert(point_insert_at(condition_id@, opt_text(*outcome_prices), opt_text(*volume), at)
        == statement_result_view(r));
    r
}

/// The number of rows asked for: `limit`, or none for a negative limit.
pub open spec fn row_limit(limit: i32) -> i64 {
    if limit < 0 {
        0
    } else {
        limit as i64
    }
}

fn bind_limit(limit: i32) -> (r: SqlValue)
    ensures
        r@ == SqlValueView::Int(row_limit(limit)),
{
    if limit < 0 {
        SqlValue::Int(0)
    } else {
        SqlValue::Int(limit as i64)
    }
}

/// The statement that reads at most `limit` price points of a market,
/// newest first.
pub open spec fn history_query_spec(id: Seq<char>, limit: i32) -> SqlStatementView {
    SqlStatementView {
        sql: SELECT_PRICE_HISTORY@,
        params: seq![SqlValueView::Text(id), SqlValueView::Int(row_limit(limit))],
    }
}

/// The statement that reads at most `limit` price points of `condition_id`,
/// newest first.
pub fn get_price_history(condition_id: &str, limit: i32) -> (r: SqlStatement)
    ensures
        r@ == history_query_spec(condition_id@, limit),
{
    let mut params: Vec<SqlValue> = Vec::new();
    params.push(SqlValue::Text(String::from_str(condition_id)));
    params.push(bind_limit(limit));
    let r = SqlStatement { sql: String::from_str(SELECT_PRICE_HISTORY), params };
    assert(r@.params =~= history_query_spec(condition_id@, limit).params);
    r
}

/// The statement that reads at most `limit` events, newest first.
pub open spec fn recent_events_spec(limit: i32) -> SqlStatementView {
    SqlStatementView {
        sql: SELECT_RECENT_EVENTS@,
        params: seq![SqlValueView::Int(row_limit(limit))],
    }
}

/// The statement that reads at most `limit` events, newest first.
pub fn get_recent_events(limit: i32) -> (r: SqlStatement)
    ensures
        r@ == recent_events_spec(limit),
{
    let mut params: Vec<SqlValue> = Vec::new();
    params.push(bind_limit(limit));
    let r = SqlStatement { sql: String::from_str(SELECT_RECENT_EVENTS), params };
    assert(r@.params =~= recent_events_spec(limit).params);
    r
}

/// The statement that reads one market.
pub open spec fn market_query_spec(id: Seq<char>) -> SqlStatementView {
    SqlStatementView { sql: SELECT_MARKET@, params: seq![SqlValueView::Text(id)] }
}

/// The statement that reads the market `condition_id`.
pub fn get_market(condition_id: &str) -> (r: SqlStatement)
    ensures
        r@ == market_query_spec(condition_id@),
{
    let mut params: Vec<SqlValue> = Vec::new();
    params.push(SqlValue::Text(String::from_str(condition_id)));
    let r = SqlStatement { sql: String::from_str(SELECT_MARKET), params };
    assert(r@.params =~= market_query_spec(condition_id@).params);
    r
}

/// A row of the table of markets, column by column.
#[derive(Debug, PartialEq, Eq)]
pub struct MarketRow {
    pub condition_id: String,
    pub question_id: Option<String>,
    pub question: String,
    pub description: Option<String>,
    pub market_slug: Option<String>,
    pub outcomes: String,
    pub outcome_prices: Option<String>,
    pub volume: Option<String>,
    pub liquidity: Option<String>,
    pub end_date: Option<String>,
    pub active: Option<i32>,
    pub closed: Option<i32>,
}

/// The flag that a stored integer stands for: false for 0, true for any
/// other number, none for NULL.
pub open spec fn flag_of(v: Option<i32>) -> Option<bool> {
    match v {
        Some(n) => Some(n != 0),
        None => None,
    }
}

/// The prices that a stored text stands for: none for NULL and for the empty
/// text, as which absent prices are stored.
pub open spec fn prices_of(v: Option<Seq<char>>) -> Option<Seq<char>> {
    match v {
        Some(t) => if t.len() == 0 {
            None
        } else {
            Some(t)
        },
        None => None,
    }
}

/// The market that a row stands for.
pub open spec fn market_of_row(row: MarketRow) -> MarketView {
    MarketView {
        condition_id: row.condition_id@,
        question_id: opt_text(row.question_id),
        question: row.question@,
        description: opt_text(row.description),
        market_slug: opt_text(row.market_slug),
        outcomes: row.outcomes@,
        outcome_prices: prices_of(opt_text(row.outcome_prices)),
        volume: opt_text(row.volume),
        liquidity: opt_text(row.liquidity),
        end_date: opt_text(row.end_date),
        active: flag_of(row.active),
        closed: flag_of(row.closed),
    }
}

/// The column that a bound value is read back as, where the column holds
/// text: the text, or NULL.
pub open spec fn text_column(v: SqlValueView) -> Option<Seq<char>> {
    match v {
        SqlValueView::Text(t) => Some(t),
        _ => None,
    }
}

/// The column that a bound value is read back as, where the column holds a
/// number: the number, or NULL.
pub open spec fn int_column(v: SqlValueView) -> Option<i32> {
    match v {
        SqlValueView::Int(n) => Some(n as i32),
        _ => None,
    }
}

/// Whether a row holds, column by column, the values that the insert of a
/// market binds: the values at the places of the statement's placeholders.
pub open spec fn row_holds(row: MarketRow, params: Seq<SqlValueView>) -> bool {
    &&& Some(row.condition_id@) == text_column(params[0])
    &&& opt_text(row.question_id) == text_column(params[1])
    &&& Some(row.question@) == text_column(params[2])
    &&& opt_text(row.description) == text_column(params[3])
    &&& opt_text(row.market_slug) == text_column(params[4])
    &&& Some(row.outcomes@) == text_column(params[5])
    &&& opt_text(row.outcome_prices) == text_column(params[6])
    &&& opt_text(row.volume) == text_column(params[7])
    &&& opt_text(row.liquidity) == text_column(params[8])
    &&& opt_text(row.end_date) == text_column(params[9])
    &&& row.active == int_column(params[10])
    &&& row.closed == int_column(params[11])
}

/// A market as it reads back from its row: prices that are the empty text
/// read back as absent, everything else as it is.
pub open spec fn as_stored(m: MarketView) -> MarketView {
    MarketView { outcome_prices: prices_of(m.outcome_prices), ..m }
}

/// What was written is read back: a row that holds the values that the
/// insert of a market binds reads as that market, but for empty prices,
/// which read as absent.
pub proof fn lemma_market_reads_back(m: MarketView, now: Seq<char>, row: MarketRow)
    requires
        row_holds(row, upsert_spec(false, m, now).params),
    ensures
        market_of_row(row) == as_stored(m),
{
    let p = upsert_spec(false, m, now).params;
    assert(p[0] == SqlValueView::Text(m.condition_id));
    assert(p[1] == nullable_text(m.question_id));
    assert(p[2] == SqlValueView::Text(m.question));
    assert(p[3] == nullable_text(m.description));
    assert(p[4] == nullable_text(m.market_slug));
    assert(p[5] == SqlValueView::Text(m.outcomes));
    assert(p[6] == text_or_empty(m.outcome_prices));
    assert(p[7] == nullable_text(m.volume));
    assert(p[8] == nullable_text(m.liquidity));
    assert(p[9] == nullable_text(m.end_date));
    assert(p[10] == nullable_flag(m.active));
    assert(p[11] == nullable_flag(m.closed));
}

fn read_flag(v: Option<i32>) -> (r: Option<bool>)
    ensures
        r == flag_of(v),
{
    match v {
        Some(n) => Some(n != 0),
        None => None,
    }
}

/// The market that a row of the table of markets stands for.
pub fn market_from_row(row: MarketRow) -> (r: Market)
    ensures
        r@ == market_of_row(row),
{
    let prices = match row.outcome_prices {
        Some(t) => if t.as_str().is_empty() {
            None
        } else {
            Some(t)
        },
        None => None,
    };
    Market {
        condition_id: row.condition_id,
        question_id: row.question_id,
        question: row.question,
        description: row.description,
        market_slug: row.market_slug,
        outcomes: row.outcomes,
        outcome_prices: prices,
        volume: row.volume,
        liquidity: row.liquidity,
        end_date: row.end_date,
        active: read_flag(row.active),
        closed: read_flag(row.closed),
    }
}

/// The price point that a row of the price history stands for: a volume of
/// NULL reads as the empty text, a time that cannot be read as the fallback
/// instant.
pub fn price_point_from_row(outcome_prices: String, volume: Option<String>, timestamp: &str) -> (r:
    PricePoint)
    ensures
        r@ == (PricePointView {
            outcome_prices: outcome_prices@,
            volume: text_or_blank(opt_text(volume)),
            timestamp: stored_time(timestamp@),
        }),
{
    PricePoint {
        outcome_prices,
        volume: or_blank(&volume),
        timestamp: Timestamp::from_stored(timestamp),
    }
}

/// A stored event, as the list of recent events shows it.
#[derive(Debug, PartialEq, Eq)]
pub struct RecentEvent {
    pub kind: String,
    pub question: String,
    pub outcome_prices: String,
    pub timestamp: Timestamp,
}

/// Mathematical value of a [`RecentEvent`].
pub struct RecentEventView {
    pub kind: Seq<char>,
    pub question: Seq<char>,
    pub outcome_prices: Seq<char>,
    pub timestamp: Timestamp,
}

impl View for RecentEvent {
    type V = RecentEventView;

    open spec fn view(&self) -> RecentEventView {
        RecentEventView {
            kind: self.kind@,
            question: self.question@,
            outcome_prices: self.outcome_prices@,
            timestamp: self.timestamp,
        }
    }
}

/// The event that a row of the table of events stands for: prices of NULL
/// read as the empty text, a time that cannot be read as the fallback
/// instant.
pub fn recent_event_from_row(
    kind: String,
    question: String,
    outcome_prices: Option<String>,
    timestamp: &str,
) -> (r: RecentEvent)
    ensures
        r@ == (RecentEventView {
            kind: kind@,
            question: question@,
            outcome_prices: text_or_blank(opt_text(outcome_prices)),
            timestamp: stored_time(timestamp@),
        }),
{
    RecentEvent {
        kind,
        question,
        outcome_prices: or_blank(&outcome_prices),
        timestamp: Timestamp::from_stored(timestamp),
    }
}

/// Name and count of each row of a sequence.
pub open spec fn stat_views(rows: Seq<(String, i64)>) -> Seq<(Seq<char>, i64)> {
    Seq::new(rows.len(), |i: int| (rows[i].0@, rows[i].1))
}

/// The sum of the counts of the first `n` rows.
pub open spec fn count_sum(rows: Seq<(Seq<char>, i64)>, n: nat) -> int
    decreases n,
{
    if n == 0 {
        0
    } else {
        count_sum(rows, (n - 1) as nat) + rows[n - 1].1
    }
}

/// Whether the counts can be summed: none is negative, and the sum fits.
pub open spec fn counts_in_range(rows: Seq<(Seq<char>, i64)>) -> bool {
    &&& forall|i: int| 0 <= i < rows.len() ==> (#[trigger] rows[i]).1 >= 0
    &&& count_sum(rows, rows.len()) <= i64::MAX
}

/// The event statistics that the counts by kind amount to: the rows as they
/// are, and behind them the entry named `Total` with the sum of all counts;
/// an error where a count is negative or the sum does not fit.
pub open spec fn stats_with_total(rows: Seq<(Seq<char>, i64)>) -> Result<
    Seq<(Seq<char>, i64)>,
    ScannerErrorView,
> {
    if counts_in_range(rows) {
        Ok(rows.push((TOTAL@, count_sum(rows, rows.len()) as i64)))
    } else {
        Err(ScannerErrorView::StorageError(COUNTS_OUT_OF_RANGE@))
    }
}

/// Value of the result of making statistics.
pub open spec fn stats_result_view(r: Result<Vec<(String, i64)>, ScannerError>) -> Result<
    Seq<(Seq<char>, i64)>,
    ScannerErrorView,
> {
    match r {
        Ok(stats) => Ok(stat_views(stats@)),
        Err(e) => Err(e@),
    }
}

proof fn lemma_count_sum_grows(rows: Seq<(Seq<char>, i64)>, a: nat, b: nat)
    requires
        a <= b <= rows.len(),
        forall|i: int| 0 <= i < rows.len() ==> (#[trigger] rows[i]).1 >= 0,
    ensures
        0 <= count_sum(rows, a) <= count_sum(rows, b),
    decreases b,
{
    if a == 0 && b == 0 {
    } else if a < b {
        lemma_count_sum_grows(rows, a, (b - 1) as nat);
    } else {
        lemma_count_sum_grows(rows, (a - 1) as nat, (b - 1) as nat);
    }
}

/// The event statistics, given the count of each kind: the rows as they
/// are, and behind them the entry named `Total` with the sum of all counts.
/// Fails where a count is negative or the sum does not fit.
pub fn get_event_stats(rows: &Vec<(String, i64)>) -> (r: Result<Vec<(String, i64)>, ScannerError>)
    ensures
        stats_result_view(r) == stats_with_total(stat_views(rows@)),
{
    let ghost views = stat_views(rows@);
    let mut stats: Vec<(String, i64)> = Vec::new();
    let mut total: i64 = 0;
    let mut i: usize = 0;
    while i < rows.len()
        invariant
            i <= rows.len(),
            views == stat_views(rows@),
            stats.len() == i,
            0 <= total,
            total == count_sum(views, i as nat),
            forall|j: int| 0 <= j < i ==> (#[trigger] views[j]).1 >= 0,
            forall|j: int| 0 <= j < i ==> (#[trigger] stats[j]).0@ == rows[j].0@ && stats[j].1 == rows[j].1,
        decreases rows.len() - i,
    {
        let count = rows[i].1;
        assert(views[i as int].1 == count);
        if count < 0 {
            return Err(ScannerError::StorageError(String::from_str(COUNTS_OUT_OF_RANGE)));
        }
        if count > i64::MAX - total {
            proof {
                if forall|j: int| 0 <= j < views.len() ==> (#[trigger] views[j]).1 >= 0 {
                    lemma_count_sum_grows(views, (i + 1) as nat, views.len());
                }
            }
            return Err(ScannerError::StorageError(String::from_str(COUNTS_OUT_OF_RANGE)));
        }
        total = total + count;
        stats.push((rows[i].0.clone(), count));
        i += 1;
    }
    stats.push((String::from_str(TOTAL), total));
    assert(stat_views(stats@) =~= views.push((TOTAL@, count_sum(views, views.len()) as i64)));
    Ok(stats)
}

/// What the list of recent events shows of an event: the name of its kind,
/// the question of its market, the prices, absent ones as the empty text,
/// and its time.
pub open spec fn event_summary(e: MarketEventView) -> RecentEventView {
    RecentEventView {
        kind: kind_name(e.event_type),
        question: e.market.question,
        outcome_prices: text_or_blank(e.market.outcome_prices),
        timestamp: e.timestamp,
    }
}

impl RecentEvent {
    /// What the list of recent events shows of `event`.
    pub fn from_event(event: &MarketEvent) -> (r: RecentEvent)
        ensures
            r@ == event_summary(event@),
    {
        RecentEvent {
            kind: String::from_str(event.event_type.name()),
            question: event.market.question.clone(),
            outcome_prices: or_blank(&event.market.outcome_prices),
            timestamp: event.timestamp,
        }
    }
}

} // verus!
