//! Layout of the key-value backend: the keys, the fields of a market's hash,
//! and the commands that each save operation sends.

use crate::clock::{rfc3339_text, stored_time, Timestamp};
use crate::db::{stat_views, stats_result_view, stats_with_total};
use crate::error::{ScannerError, ScannerErrorView};
use crate::json::{json_member_text, json_object_text, member_text, object_text};
use crate::text::{join2, join3, or_blank, pair, pair_seq, text_eq, text_or_blank, text_seq};
use crate::types::{
    kind_name, market_views, opt_text, point_views, EventType, Market, MarketView, PricePoint,
    PricePointView,
};
use vstd::prelude::*;
use vstd::string::StringExecFns;

verus! {

/// Key of the set that holds the id of every stored market.
pub const MARKETS_SET: &'static str = "markets:all";

/// Key of the list of recent events, newest first.
pub const RECENT_EVENTS: &'static str = "events:recent";

/// Key of the counter of all events.
pub const EVENT_TOTAL: &'static str = "stats:events:total";

/// How many entries the list of recent events keeps.
pub const RECENT_EVENTS_CAP: i64 = 1000;

/// Key of the hash that holds one market.
pub open spec fn market_key_text(id: Seq<char>) -> Seq<char> {
    "market:"@ + id
}

/// Key of the sorted set that holds one market's price history.
pub open spec fn history_key_text(id: Seq<char>) -> Seq<char> {
    "market:"@ + id + ":price_history"@
}

/// Key of the counter of the events of one kind.
pub open spec fn kind_counter_text(kind: Seq<char>) -> Seq<char> {
    "stats:events:"@ + kind
}

/// Key of the hash that holds the market `condition_id`.
pub fn market_key(condition_id: &str) -> (r: String)
    ensures
        r@ == market_key_text(condition_id@),
{
    join2("market:", condition_id)
}

/// Key of the sorted set that holds the price history of `condition_id`.
pub fn price_history_key(condition_id: &str) -> (r: String)
    ensures
        r@ == history_key_text(condition_id@),
{
    join3("market:", condition_id, ":price_history")
}

/// Key of the counter of the events named `kind`.
pub fn kind_counter_key(kind: &str) -> (r: String)
    ensures
        r@ == kind_counter_text(kind@),
{
    join2("stats:events:", kind)
}

/// In a flat reply `[name, value, name, value, ..]`, the value of the last of
/// the first `pairs` pairs whose name is `name`.
pub open spec fn field_among(data: Seq<Seq<char>>, name: Seq<char>, pairs: nat) -> Option<
    Seq<char>,
>
    decreases pairs,
{
    if pairs == 0 {
        None
    } else if data[2 * (pairs - 1)] == name {
        Some(data[2 * (pairs - 1) + 1])
    } else {
        field_among(data, name, (pairs - 1) as nat)
    }
}

/// The value that a flat reply holds under `name`. A name that occurs more
/// than once counts where it stands last; an element without a partner at the
/// end of the reply is ignored.
pub open spec fn field_value(data: Seq<Seq<char>>, name: Seq<char>) -> Option<Seq<char>> {
    field_among(data, name, (data.len() / 2) as nat)
}

/// Looks a field up in a flat reply.
pub fn find_field(data: &Vec<String>, name: &str) -> (r: Option<String>)
    ensures
        opt_text(r) == field_value(text_seq(data@), name@),
{
    let mut k: usize = data.len() / 2;
    while k > 0
        invariant
            k <= data.len() / 2,
            field_value(text_seq(data@), name@) == field_among(text_seq(data@), name@, k as nat),
        decreases k,
    {
        if text_eq(data[2 * (k - 1)].as_str(), name) {
            return Some(data[2 * (k - 1) + 1].clone());
        }
        k -= 1;
    }
    None
}

/// A stored text that must be there: its value, or `default` where the field
/// is missing.
pub open spec fn text_or(v: Option<Seq<char>>, default: Seq<char>) -> Seq<char> {
    match v {
        Some(t) => t,
        None => default,
    }
}

/// A stored optional text: absent where the field is missing or empty.
pub open spec fn text_if_any(v: Option<Seq<char>>) -> Option<Seq<char>> {
    match v {
        Some(t) => if t.len() == 0 {
            None
        } else {
            Some(t)
        },
        None => None,
    }
}

/// A stored optional flag: absent where the field is missing or empty, true
/// for `1`, false for any other text.
pub open spec fn flag_if_any(v: Option<Seq<char>>) -> Option<bool> {
    match v {
        Some(t) => if t.len() == 0 {
            None
        } else {
            Some(t == "1"@)
        },
        None => None,
    }
}

/// Stored prices: absent where the field is empty, an empty JSON array where
/// the field is missing.
pub open spec fn prices_if_any(v: Option<Seq<char>>) -> Option<Seq<char>> {
    match v {
        Some(t) => if t.len() == 0 {
            None
        } else {
            Some(t)
        },
        None => Some("[]"@),
    }
}

/// The market that a hash holds, given the flat reply that lists its fields.
pub open spec fn market_of_fields(data: Seq<Seq<char>>) -> MarketView {
    MarketView {
        condition_id: text_or(field_value(data, "condition_id"@), Seq::empty()),
        question_id: text_if_any(field_value(data, "question_id"@)),
        question: text_or(field_value(data, "question"@), Seq::empty()),
        description: text_if_any(field_value(data, "description"@)),
        market_slug: text_if_any(field_value(data, "market_slug"@)),
        outcomes: text_or(field_value(data, "outcomes"@), "[]"@),
        outcome_prices: prices_if_any(field_value(data, "outcome_prices"@)),
        volume: text_if_any(field_value(data, "volume"@)),
        liquidity: text_if_any(field_value(data, "liquidity"@)),
        end_date: text_if_any(field_value(data, "end_date"@)),
        active: flag_if_any(field_value(data, "active"@)),
        closed: flag_if_any(field_value(data, "closed"@)),
    }
}

fn required_field(data: &Vec<String>, name: &str, default: &str) -> (r: String)
    ensures
        r@ == text_or(field_value(text_seq(data@), name@), default@),
{
    match find_field(data, name) {
        Some(t) => t,
        None => String::from_str(default),
    }
}

fn optional_field(data: &Vec<String>, name: &str) -> (r: Option<String>)
    ensures
        opt_text(r) == text_if_any(field_value(text_seq(data@), name@)),
{
    match find_field(data, name) {
        Some(t) => if t.as_str().is_empty() {
            None
        } else {
            Some(t)
        },
        None => None,
    }
}

fn flag_field(data: &Vec<String>, name: &str) -> (r: Option<bool>)
    ensures
        r == flag_if_any(field_value(text_seq(data@), name@)),
{
    match find_field(data, name) {
        Some(t) => if t.as_str().is_empty() {
            None
        } else {
            Some(text_eq(t.as_str(), "1"))
        },
        None => None,
    }
}

fn prices_field(data: &Vec<String>) -> (r: Option<String>)
    ensures
        opt_text(r) == prices_if_any(field_value(text_seq(data@), "outcome_prices"@)),
{
    match find_field(data, "outcome_prices") {
        Some(t) => if t.as_str().is_empty() {
            None
        } else {
            Some(t)
        },
        None => Some(String::from_str("[]")),
    }
}

/// Rebuilds a market from the flat reply `[name, value, name, value, ..]`
/// that lists the fields of its hash.
pub fn market_from_fields(data: &Vec<String>) -> (r: Market)
    ensures
        r@ == market_of_fields(text_seq(data@)),
{
    proof {
        reveal_strlit("");
        assert(""@ =~= Seq::<char>::empty());
    }
    Market {
        condition_id: required_field(data, "condition_id", ""),
        question_id: optional_field(data, "question_id"),
        question: required_field(data, "question", ""),
        description: optional_field(data, "description"),
        market_slug: optional_field(data, "market_slug"),
        outcomes: required_field(data, "outcomes", "[]"),
        outcome_prices: prices_field(data),
        volume: optional_field(data, "volume"),
        liquidity: optional_field(data, "liquidity"),
        end_date: optional_field(data, "end_date"),
        active: flag_field(data, "active"),
        closed: flag_field(data, "closed"),
    }
}

/// Value of an optional market.
pub open spec fn opt_market(m: Option<Market>) -> Option<MarketView> {
    match m {
        Some(x) => Some(x@),
        None => None,
    }
}

/// The market under a key, given whether the key exists and the flat reply
/// that lists the fields of its hash: none for a key that does not exist.
pub fn get_market(present: bool, data: &Vec<String>) -> (r: Option<Market>)
    ensures
        opt_market(r) == if present {
            Some(market_of_fields(text_seq(data@)))
        } else {
            None
        },
{
    if present {
        Some(market_from_fields(data))
    } else {
        None
    }
}

/// How an optional flag is stored: `1`, `0`, or the empty text where there is
/// none.
pub open spec fn flag_text(b: Option<bool>) -> Seq<char> {
    match b {
        Some(true) => "1"@,
        Some(false) => "0"@,
        None => Seq::empty(),
    }
}

/// The fields of the hash of a market that was seen at the time written
/// `now`: every field of the market, an absent one as the empty text, and the
/// time of the last update.
pub open spec fn market_fields_spec(m: MarketView, now: Seq<char>) -> Seq<(Seq<char>, Seq<char>)> {
    seq![
        ("condition_id"@, m.condition_id),
        ("question_id"@, text_or_blank(m.question_id)),
        ("question"@, m.question),
        ("description"@, text_or_blank(m.description)),
        ("market_slug"@, text_or_blank(m.market_slug)),
        ("outcomes"@, m.outcomes),
        ("outcome_prices"@, text_or_blank(m.outcome_prices)),
        ("volume"@, text_or_blank(m.volume)),
        ("liquidity"@, text_or_blank(m.liquidity)),
        ("end_date"@, text_or_blank(m.end_date)),
        ("active"@, flag_text(m.active)),
        ("closed"@, flag_text(m.closed)),
        ("last_updated_at"@, now),
    ]
}

/// Whether a flat reply holds each of the given fields with its value.
pub open spec fn holds_fields(data: Seq<Seq<char>>, fields: Seq<(Seq<char>, Seq<char>)>) -> bool {
    forall|i: int| 0 <= i < fields.len() ==> field_value(data, (#[trigger] fields[i]).0) == Some(
        fields[i].1,
    )
}

/// A market as it reads back from its hash: an optional text that is empty
/// reads back as absent, everything else as it is.
pub open spec fn as_stored(m: MarketView) -> MarketView {
    MarketView {
        condition_id: m.condition_id,
        question_id: text_if_any(m.question_id),
        question: m.question,
        description: text_if_any(m.description),
        market_slug: text_if_any(m.market_slug),
        outcomes: m.outcomes,
        outcome_prices: text_if_any(m.outcome_prices),
        volume: text_if_any(m.volume),
        liquidity: text_if_any(m.liquidity),
        end_date: text_if_any(m.end_date),
        active: m.active,
        closed: m.closed,
    }
}

proof fn lemma_optional_reads_back(t: Option<Seq<char>>)
    ensures
        text_if_any(Some(text_or_blank(t))) == text_if_any(t),
        prices_if_any(Some(text_or_blank(t))) == text_if_any(t),
{
}

proof fn lemma_flag_reads_back(b: Option<bool>)
    ensures
        flag_if_any(Some(flag_text(b))) == b,
{
    reveal_strlit("1");
    reveal_strlit("0");
    match b {
        Some(true) => {
            assert("1"@.len() == 1);
        },
        Some(false) => {
            assert("0"@.len() == 1);
            assert("0"@[0] != "1"@[0]);
        },
        None => {},
    }
}

/// What was written is read back: a hash that holds the fields under which
/// a market was stored, whatever else it holds and in whatever order, reads
/// as that market, but for empty optional texts, which read as absent.
pub proof fn lemma_market_reads_back(m: MarketView, now: Seq<char>, data: Seq<Seq<char>>)
    requires
        holds_fields(data, market_fields_spec(m, now)),
    ensures
        market_of_fields(data) == as_stored(m),
{
    let f = market_fields_spec(m, now);
    assert(f[0] == ("condition_id"@, m.condition_id));
    assert(f[1] == ("question_id"@, text_or_blank(m.question_id)));
    assert(f[2] == ("question"@, m.question));
    assert(f[3] == ("description"@, text_or_blank(m.description)));
    assert(f[4] == ("market_slug"@, text_or_blank(m.market_slug)));
    assert(f[5] == ("outcomes"@, m.outcomes));
    assert(f[6] == ("outcome_prices"@, text_or_blank(m.outcome_prices)));
    assert(f[7] == ("volume"@, text_or_blank(m.volume)));
    assert(f[8] == ("liquidity"@, text_or_blank(m.liquidity)));
    assert(f[9] == ("end_date"@, text_or_blank(m.end_date)));
    assert(f[10] == ("active"@, flag_text(m.active)));
    assert(f[11] == ("closed"@, flag_text(m.closed)));
    lemma_optional_reads_back(m.question_id);
    lemma_optional_reads_back(m.description);
    lemma_optional_reads_back(m.market_slug);
    lemma_optional_reads_back(m.outcome_prices);
    lemma_optional_reads_back(m.volume);
    lemma_optional_reads_back(m.liquidity);
    lemma_optional_reads_back(m.end_date);
    lemma_flag_reads_back(m.active);
    lemma_flag_reads_back(m.closed);
}

fn flag_str(b: Option<bool>) -> (r: &'static str)
    ensures
        r@ == flag_text(b),
{
    proof {
        reveal_strlit("");
        assert(""@ =~= Seq::<char>::empty());
    }
    match b {
        Some(true) => "1",
        Some(false) => "0",
        None => "",
    }
}

/// The fields under which `market` is stored, with `now` as the time of the
/// update.
pub fn market_fields(market: &Market, now: &str) -> (r: Vec<(String, String)>)
    ensures
        pair_seq(r@) == market_fields_spec(market@, now@),
{
    let mut f: Vec<(String, String)> = Vec::new();
    f.push(pair("condition_id", market.condition_id.as_str()));
    f.push(pair("question_id", or_blank(&market.question_id).as_str()));
    f.push(pair("question", market.question.as_str()));
    f.push(pair("description", or_blank(&market.description).as_str()));
    f.push(pair("market_slug", or_blank(&market.market_slug).as_str()));
    f.push(pair("outcomes", market.outcomes.as_str()));
    f.push(pair("outcome_prices", or_blank(&market.outcome_prices).as_str()));
    f.push(pair("volume", or_blank(&market.volume).as_str()));
    f.push(pair("liquidity", or_blank(&market.liquidity).as_str()));
    f.push(pair("end_date", or_blank(&market.end_date).as_str()));
    f.push(pair("active", flag_str(market.active)));
    f.push(pair("closed", flag_str(market.closed)));
    f.push(pair("last_updated_at", now));
    assert(pair_seq(f@) =~= market_fields_spec(market@, now@));
    f
}

/// One command to the key-value service.
#[derive(Debug, PartialEq, Eq)]
pub enum KvCommand {
    /// Set the given fields of the hash at `key`, over what they held.
    HashSet { key: String, fields: Vec<(String, String)> },
    /// Set one field of the hash at `key`, unless the hash has the field.
    HashSetIfAbsent { key: String, field: String, value: String },
    /// Add a member to the set at `key`.
    SetAdd { key: String, member: String },
    /// Put a value at the head of the list at `key`.
    ListPushFront { key: String, value: String },
    /// Keep of the list at `key` the entries from `start` to `stop`, both
    /// counted from the head and included.
    ListTrim { key: String, start: i64, stop: i64 },
    /// Add one to the counter at `key`.
    Increment { key: String },
    /// Add a member with its score to the sorted set at `key`.
    SortedSetAdd { key: String, score: i64, member: String },
}

/// Mathematical value of a [`KvCommand`].
pub enum KvCommandView {
    HashSet { key: Seq<char>, fields: Seq<(Seq<char>, Seq<char>)> },
    HashSetIfAbsent { key: Seq<char>, field: Seq<char>, value: Seq<char> },
    SetAdd { key: Seq<char>, member: Seq<char> },
    ListPushFront { key: Seq<char>, value: Seq<char> },
    ListTrim { key: Seq<char>, start: i64, stop: i64 },
    Increment { key: Seq<char> },
    SortedSetAdd { key: Seq<char>, score: i64, member: Seq<char> },
}

impl View for KvCommand {
    type V = KvCommandView;

    open spec fn view(&self) -> KvCommandView {
        match self {
            KvCommand::HashSet { key, fields } => KvCommandView::HashSet {
                key: key@,
                fields: pair_seq(fields@),
            },
            KvCommand::HashSetIfAbsent { key, field, value } => KvCommandView::HashSetIfAbsent {
                key: key@,
                field: field@,
                value: value@,
            },
            KvCommand::SetAdd { key, member } => KvCommandView::SetAdd {
                key: key@,
                member: member@,
            },
            KvCommand::ListPushFront { key, value } => KvCommandView::ListPushFront {
                key: key@,
                value: value@,
            },
            KvCommand::ListTrim { key, start, stop } => KvCommandView::ListTrim {
                key: key@,
                start: *start,
                stop: *stop,
            },
            KvCommand::Increment { key } => KvCommandView::Increment { key: key@ },
            KvCommand::SortedSetAdd { key, score, member } => KvCommandView::SortedSetAdd {
                key: key@,
                score: *score,
                member: member@,
            },
        }
    }
}

/// Values of the commands of a sequence.
pub open spec fn command_views(commands: Seq<KvCommand>) -> Seq<KvCommandView> {
    Seq::new(commands.len(), |i: int| commands[i]@)
}

/// The three commands that store one market seen at the time written `now`:
/// its hash is overwritten field by field, the time of first sight is set
/// only where the hash has none, and the id joins the set of all ids.
pub open spec fn market_commands(m: MarketView, now: Seq<char>) -> Seq<KvCommandView> {
    seq![
        KvCommandView::HashSet {
            key: market_key_text(m.condition_id),
            fields: market_fields_spec(m, now),
        },
        KvCommandView::HashSetIfAbsent {
            key: market_key_text(m.condition_id),
            field: "first_seen_at"@,
            value: now,
        },
        KvCommandView::SetAdd { key: MARKETS_SET@, member: m.condition_id },
    ]
}

/// A hash after the given fields were set, one after the other.
pub open spec fn hash_with(hash: Map<Seq<char>, Seq<char>>, fields: Seq<(Seq<char>, Seq<char>)>) -> Map<
    Seq<char>,
    Seq<char>,
>
    decreases fields.len(),
{
    if fields.len() == 0 {
        hash
    } else {
        hash_with(hash, fields.drop_last()).insert(fields.last().0, fields.last().1)
    }
}

/// The hash at `key` after the service has carried out `command`: setting
/// fields overwrites them, setting a field if absent leaves a field that is
/// there alone, and a command for another key or another structure changes
/// nothing.
pub open spec fn hash_after(hash: Map<Seq<char>, Seq<char>>, key: Seq<char>, command: KvCommandView) -> Map<
    Seq<char>,
    Seq<char>,
> {
    match command {
        KvCommandView::HashSet { key: k, fields } => if k == key {
            hash_with(hash, fields)
        } else {
            hash
        },
        KvCommandView::HashSetIfAbsent { key: k, field, value } => if k == key
            && !hash.contains_key(field) {
            hash.insert(field, value)
        } else {
            hash
        },
        _ => hash,
    }
}

/// The hash at `key` after the service has carried out the commands one
/// after the other.
pub open spec fn hash_after_all(
    hash: Map<Seq<char>, Seq<char>>,
    key: Seq<char>,
    commands: Seq<KvCommandView>,
) -> Map<Seq<char>, Seq<char>>
    decreases commands.len(),
{
    if commands.len() == 0 {
        hash
    } else {
        hash_after(hash_after_all(hash, key, commands.drop_last()), key, commands.last())
    }
}

proof fn lemma_hash_with_keeps(
    hash: Map<Seq<char>, Seq<char>>,
    fields: Seq<(Seq<char>, Seq<char>)>,
    name: Seq<char>,
)
    requires
        forall|i: int| 0 <= i < fields.len() ==> (#[trigger] fields[i]).0 != name,
    ensures
        hash_with(hash, fields).contains_key(name) == hash.contains_key(name),
        hash.contains_key(name) ==> hash_with(hash, fields)[name] == hash[name],
    decreases fields.len(),
{
    if fields.len() > 0 {
        let before = fields.drop_last();
        assert forall|i: int| 0 <= i < before.len() implies (#[trigger] before[i]).0 != name by {
            assert(before[i] == fields[i]);
        }
        lemma_hash_with_keeps(hash, before, name);
        assert(fields.last() == fields[fields.len() - 1]);
    }
}

/// Saving a market never overwrites the time of first sight: after the
/// commands that store a market, the hash of the market holds the time of
/// first sight that it held before, or the time of this save where it held
/// none.
pub proof fn lemma_commands_keep_first_sight(
    hash: Map<Seq<char>, Seq<char>>,
    m: MarketView,
    now: Seq<char>,
)
    ensures
        hash_after_all(
            hash,
            market_key_text(m.condition_id),
            market_commands(m, now),
        ).contains_key("first_seen_at"@),
        hash_after_all(hash, market_key_text(m.condition_id), market_commands(m, now))[
            "first_seen_at"@
        ] == if hash.contains_key("first_seen_at"@) {
            hash["first_seen_at"@]
        } else {
            now
        },
{
    let key = market_key_text(m.condition_id);
    let commands = market_commands(m, now);
    let fields = market_fields_spec(m, now);
    let name = "first_seen_at"@;
    reveal_strlit("first_seen_at");
    reveal_strlit("condition_id");
    reveal_strlit("question_id");
    reveal_strlit("question");
    reveal_strlit("description");
    reveal_strlit("market_slug");
    reveal_strlit("outcomes");
    reveal_strlit("outcome_prices");
    reveal_strlit("volume");
    reveal_strlit("liquidity");
    reveal_strlit("end_date");
    reveal_strlit("active");
    reveal_strlit("closed");
    reveal_strlit("last_updated_at");
    assert forall|i: int| 0 <= i < fields.len() implies (#[trigger] fields[i]).0 != name by {
        assert(fields[i].0.len() != name.len());
    }
    lemma_hash_with_keeps(hash, fields, name);
    let c2 = commands.drop_last();
    let c1 = c2.drop_last();
    let c0 = c1.drop_last();
    assert(c0 =~= Seq::<KvCommandView>::empty());
    assert(c1.last() == commands[0]);
    assert(c2.last() == commands[1]);
    assert(commands.last() == commands[2]);
    let h0 = hash_after_all(hash, key, c0);
    assert(h0 == hash);
    let h1 = hash_after_all(hash, key, c1);
    assert(h1 == hash_with(hash, fields));
    let h2 = hash_after_all(hash, key, c2);
    assert(h2 == hash_after(h1, key, commands[1]));
    let h3 = hash_after_all(hash, key, commands);
    assert(h3 == h2);
}

/// The commands that store a batch of markets: those of each market, in the
/// order of the batch.
pub open spec fn batch_commands(markets: Seq<MarketView>, now: Seq<char>) -> Seq<KvCommandView> {
    Seq::new(3 * markets.len(), |i: int| market_commands(markets[i / 3], now)[i % 3])
}

/// The commands that store a batch of markets seen at the time written `now`.
pub fn save_markets_commands(markets: &Vec<Market>, now: &str) -> (r: Vec<KvCommand>)
    ensures
        command_views(r@) == batch_commands(market_views(markets@), now@),
{
    let mut out: Vec<KvCommand> = Vec::new();
    let mut i: usize = 0;
    while i < markets.len()
        invariant
            i <= markets.len(),
            out.len() == 3 * i,
            forall|j: int|
                0 <= j < out.len() ==> (#[trigger] out[j])@ == market_commands(
                    markets[j / 3]@,
                    now@,
                )[j % 3],
        decreases markets.len() - i,
    {
        let m = &markets[i];
        let id = m.condition_id.as_str();
        out.push(KvCommand::HashSet { key: market_key(id), fields: market_fields(m, now) });
        out.push(
            KvCommand::HashSetIfAbsent {
                key: market_key(id),
                field: String::from_str("first_seen_at"),
                value: String::from_str(now),
            },
        );
        out.push(KvCommand::SetAdd { key: String::from_str(MARKETS_SET), member: m.condition_id.clone() });
        i += 1;
    }
    assert(command_views(out@) =~= batch_commands(market_views(markets@), now@));
    out
}

/// What is said when the clock shows a time that cannot be written down.
pub const CLOCK_OUT_OF_RANGE: &'static str = "the time cannot be written in RFC 3339 notation";

/// What is said when a JSON text cannot be written.
pub const JSON_NOT_WRITTEN: &'static str = "the JSON text cannot be written";

/// Value of the result of planning a list of commands.
pub open spec fn commands_result_view(r: Result<Vec<KvCommand>, ScannerError>) -> Result<
    Seq<KvCommandView>,
    ScannerErrorView,
> {
    match r {
        Ok(commands) => Ok(command_views(commands@)),
        Err(e) => Err(e@),
    }
}

/// The commands that store a batch of markets seen at the time `at`, or the
/// error that says that this time cannot be written down.
pub open spec fn batch_at(markets: Seq<MarketView>, at: Timestamp) -> Result<
    Seq<KvCommandView>,
    ScannerErrorView,
> {
    match rfc3339_text(at.millis) {
        Some(now) => Ok(batch_commands(markets, now)),
        None => Err(ScannerErrorView::StorageError(CLOCK_OUT_OF_RANGE@)),
    }
}

/// The commands that store a batch of markets seen at the time `at`.
pub fn save_markets_at(markets: &Vec<Market>, at: Timestamp) -> (r: Result<
    Vec<KvCommand>,
    ScannerError,
>)
    ensures
        commands_result_view(r) == batch_at(market_views(markets@), at),
{
    match at.to_rfc3339() {
        Some(now) => Ok(save_markets_commands(markets, now.as_str())),
        None => Err(ScannerError::StorageError(String::from_str(CLOCK_OUT_OF_RANGE))),
    }
}

/// The commands that store a batch of markets, stamped with the current
/// time.
pub fn save_markets(markets: &Vec<Market>) -> (r: Result<Vec<KvCommand>, ScannerError>)
    ensures
        exists|at: Timestamp| #[trigger]
            batch_at(market_views(markets@), at) == commands_result_view(r),
{
    let at = Timestamp::now();
    let r = save_markets_at(markets, at);
    assert(batch_at(market_views(markets@), at) == commands_result_view(r));
    r
}

/// The commands that store one market, stamped with the current time: those
/// of a batch of this one market.
pub fn save_market(market: &Market) -> (r: Result<Vec<KvCommand>, ScannerError>)
    ensures
        exists|at: Timestamp| #[trigger] batch_at(seq![market@], at) == commands_result_view(r),
{
    let mut batch: Vec<Market> = Vec::new();
    batch.push(market.clone());
    assert(market_views(batch@) =~= seq![market@]);
    let at = Timestamp::now();
    let r = save_markets_at(&batch, at);
    assert(batch_at(seq![market@], at) == commands_result_view(r));
    r
}

/// The commands that record one event of the kind named `kind`, given the
/// JSON text that stands for it: the text goes to the head of the list of
/// recent events, the list is cut to its cap, and the counters of the kind
/// and of all events go up by one.
pub open spec fn event_commands(kind: Seq<char>, event_json: Seq<char>) -> Seq<KvCommandView> {
    seq![
        KvCommandView::ListPushFront { key: RECENT_EVENTS@, value: event_json },
        KvCommandView::ListTrim { key: RECENT_EVENTS@, start: 0, stop: (RECENT_EVENTS_CAP - 1) as i64 },
        KvCommandView::Increment { key: kind_counter_text(kind) },
        KvCommandView::Increment { key: EVENT_TOTAL@ },
    ]
}

/// The commands that record one event of the given kind, `event_json` being
/// the JSON text that stands for the event.
pub fn save_event_commands(kind: EventType, event_json: &str) -> (r: Vec<KvCommand>)
    ensures
        command_views(r@) == event_commands(kind_name(kind), event_json@),
{
    let mut out: Vec<KvCommand> = Vec::new();
    out.push(
        KvCommand::ListPushFront {
            key: String::from_str(RECENT_EVENTS),
            value: String::from_str(event_json),
        },
    );
    out.push(
        KvCommand::ListTrim {
            key: String::from_str(RECENT_EVENTS),
            start: 0,
            stop: RECENT_EVENTS_CAP - 1,
        },
    );
    out.push(KvCommand::Increment { key: kind_counter_key(kind.name()) });
    out.push(KvCommand::Increment { key: String::from_str(EVENT_TOTAL) });
    assert(command_views(out@) =~= event_commands(kind_name(kind), event_json@));
    out
}

/// The row of the statistics that a counter gives: the name of the kind with
/// the count, and no row for a counter that is missing or stands at zero.
pub open spec fn counter_row(kind: EventType, count: Option<i64>) -> Seq<(Seq<char>, i64)> {
    match count {
        Some(n) => if n != 0 {
            seq![(kind_name(kind), n)]
        } else {
            Seq::empty()
        },
        None => Seq::empty(),
    }
}

/// The rows of the statistics that the four counters by kind give.
pub open spec fn counter_rows(
    new_market: Option<i64>,
    price_change: Option<i64>,
    volume_update: Option<i64>,
    market_closed: Option<i64>,
) -> Seq<(Seq<char>, i64)> {
    counter_row(EventType::NewMarket, new_market) + counter_row(
        EventType::PriceChange,
        price_change,
    ) + counter_row(EventType::VolumeUpdate, volume_update) + counter_row(
        EventType::MarketClosed,
        market_closed,
    )
}

fn push_counter(rows: &mut Vec<(String, i64)>, kind: EventType, count: Option<i64>)
    ensures
        stat_views(final(rows)@) == stat_views(old(rows)@) + counter_row(kind, count),
{
    match count {
        Some(n) => {
            if n != 0 {
                rows.push((String::from_str(kind.name()), n));
            }
        },
        None => {},
    }
    assert(stat_views(rows@) =~= stat_views(old(rows)@) + counter_row(kind, count));
}

/// The keys of the four counters by kind, in the order of the kinds.
pub fn kind_counter_keys() -> (r: Vec<String>)
    ensures
        text_seq(r@) == seq![
            kind_counter_text(kind_name(EventType::NewMarket)),
            kind_counter_text(kind_name(EventType::PriceChange)),
            kind_counter_text(kind_name(EventType::VolumeUpdate)),
            kind_counter_text(kind_name(EventType::MarketClosed)),
        ],
{
    let mut keys: Vec<String> = Vec::new();
    keys.push(kind_counter_key(EventType::NewMarket.name()));
    keys.push(kind_counter_key(EventType::PriceChange.name()));
    keys.push(kind_counter_key(EventType::VolumeUpdate.name()));
    keys.push(kind_counter_key(EventType::MarketClosed.name()));
    assert(text_seq(keys@) =~= seq![
        kind_counter_text(kind_name(EventType::NewMarket)),
        kind_counter_text(kind_name(EventType::PriceChange)),
        kind_counter_text(kind_name(EventType::VolumeUpdate)),
        kind_counter_text(kind_name(EventType::MarketClosed)),
    ]);
    keys
}

/// The event statistics, given what the four counters by kind hold, `None`
/// for a counter that is not there: a row for each kind that was counted,
/// and behind them the entry named `Total` with the sum.
pub fn get_event_stats(
    new_market: Option<i64>,
    price_change: Option<i64>,
    volume_update: Option<i64>,
    market_closed: Option<i64>,
) -> (r: Result<Vec<(String, i64)>, ScannerError>)
    ensures
        stats_result_view(r) == stats_with_total(
            counter_rows(new_market, price_change, volume_update, market_closed),
        ),
{
    let mut rows: Vec<(String, i64)> = Vec::new();
    assert(stat_views(rows@) =~= Seq::<(Seq<char>, i64)>::empty());
    push_counter(&mut rows, EventType::NewMarket, new_market);
    push_counter(&mut rows, EventType::PriceChange, price_change);
    push_counter(&mut rows, EventType::VolumeUpdate, volume_update);
    push_counter(&mut rows, EventType::MarketClosed, market_closed);
    assert(stat_views(rows@) =~= counter_rows(
        new_market,
        price_change,
        volume_update,
        market_closed,
    ));
    crate::db::get_event_stats(&rows)
}

/// The members of the JSON object that stands for a price point.
pub open spec fn point_members(
    prices: Option<Seq<char>>,
    volume: Option<Seq<char>>,
    time: Seq<char>,
) -> Seq<(Seq<char>, Seq<char>)> {
    seq![
        ("outcome_prices"@, text_or_blank(prices)),
        ("volume"@, text_or_blank(volume)),
        ("timestamp"@, time),
    ]
}

/// The command that appends a price point taken at `at` to the history of a
/// market: the point goes into the sorted set of the market as a JSON
/// object, scored by the milliseconds of its time. Where the time or the
/// object cannot be written, the error that says so.
pub open spec fn point_command(
    id: Seq<char>,
    prices: Option<Seq<char>>,
    volume: Option<Seq<char>>,
    at: Timestamp,
) -> Result<KvCommandView, ScannerErrorView> {
    match rfc3339_text(at.millis) {
        Some(time) => match json_object_text(point_members(prices, volume, time)) {
            Some(member) => Ok(
                KvCommandView::SortedSetAdd { key: history_key_text(id), score: at.millis, member },
            ),
            None => Err(ScannerErrorView::StorageError(JSON_NOT_WRITTEN@)),
        },
        None => Err(ScannerErrorView::StorageError(CLOCK_OUT_OF_RANGE@)),
    }
}

/// Value of the result of planning a command.
pub open spec fn command_result_view(r: Result<KvCommand, ScannerError>) -> Result<
    KvCommandView,
    ScannerErrorView,
> {
    match r {
        Ok(c) => Ok(c@),
        Err(e) => Err(e@),
    }
}

/// The command that appends a price point taken at `at` to the history of
/// `condition_id`; an error where the time or the JSON object cannot be
/// written.
pub fn price_point_command(
    condition_id: &str,
    outcome_prices: &Option<String>,
    volume: &Option<String>,
    at: Timestamp,
) -> (r: Result<KvCommand, ScannerError>)
    ensures
        command_result_view(r) == point_command(
            condition_id@,
            opt_text(*outcome_prices),
            opt_text(*volume),
            at,
        ),
{
    match at.to_rfc3339() {
        Some(time) => {
            let mut members: Vec<(String, String)> = Vec::new();
            members.push(pair("outcome_prices", or_blank(outcome_prices).as_str()));
            members.push(pair("volume", or_blank(volume).as_str()));
            members.push(pair("timestamp", time.as_str()));
            assert(pair_seq(members@) =~= point_members(
                opt_text(*outcome_prices),
                opt_text(*volume),
                time@,
            ));
            match object_text(&members) {
                Some(member) => Ok(
                    KvCommand::SortedSetAdd {
                        key: price_history_key(condition_id),
                        score: at.millis,
                        member,
                    },
                ),
                None => Err(ScannerError::StorageError(String::from_str(JSON_NOT_WRITTEN))),
            }
        },
        None => Err(ScannerError::StorageError(String::from_str(CLOCK_OUT_OF_RANGE))),
    }
}

/// The command that appends a price point, taken now, to the history of
/// `condition_id`; an error where the time or the JSON object cannot be
/// written.
pub fn save_price_history(
    condition_id: &str,
    outcome_prices: &Option<String>,
    volume: &Option<String>,
) -> (r: Result<KvCommand, ScannerError>)
    ensures
        exists|at: Timestamp| #[trigger]
            point_command(condition_id@, opt_text(*outcome_prices), opt_text(*volume), at)
                == command_result_view(r),
{
    let at = Timestamp::now();
    let r = price_point_command(condition_id, outcome_prices, volume, at);
    assert(point_command(condition_id@, opt_text(*outcome_prices), opt_text(*volume), at)
        == command_result_view(r));
    r
}

/// The first and the last rank to ask the sorted set for, so that at most
/// `limit` of the newest members come back; none where `limit` allows no
/// member at all.
pub open spec fn history_range_spec(limit: i32) -> Option<(i64, i64)> {
    if limit <= 0 {
        None
    } else {
        Some((0i64, (limit - 1) as i64))
    }
}

/// The ranks to read from a price history, newest first, for at most `limit`
/// entries; `None` where nothing is to be read.
pub fn history_range(limit: i32) -> (r: Option<(i64, i64)>)
    ensures
        r == history_range_spec(limit),
{
    if limit <= 0 {
        None
    } else {
        let last: i64 = (limit - 1) as i64;
        Some((0, last))
    }
}

/// The price point that a member of a history stands for: its three texts
/// read from the JSON object, a missing one as the empty text, the time read
/// from its notation. A member that is not JSON stands for nothing.
pub open spec fn point_of_member(member: Seq<char>) -> Option<PricePointView> {
    match (
        json_member_text(member, "outcome_prices"@),
        json_member_text(member, "volume"@),
        json_member_text(member, "timestamp"@),
    ) {
        (Some(prices), Some(volume), Some(time)) => Some(
            PricePointView {
                outcome_prices: text_or_blank(prices),
                volume: text_or_blank(volume),
                timestamp: stored_time(text_or_blank(time)),
            },
        ),
        _ => None,
    }
}

/// The price points that the members of a history stand for, in their order,
/// without the members that stand for nothing.
pub open spec fn points_of_members(members: Seq<Seq<char>>) -> Seq<PricePointView>
    decreases members.len(),
{
    if members.len() == 0 {
        Seq::empty()
    } else {
        let rest = points_of_members(members.drop_last());
        match point_of_member(members.last()) {
            Some(p) => rest.push(p),
            None => rest,
        }
    }
}

/// Value of an optional price point.
pub open spec fn opt_point_view(p: Option<PricePoint>) -> Option<PricePointView> {
    match p {
        Some(x) => Some(x@),
        None => None,
    }
}

/// Reads one member of a price history.
pub fn price_point_from_member(member: &str) -> (r: Option<PricePoint>)
    ensures
        opt_point_view(r) == point_of_member(member@),
{
    let prices = member_text(member, "outcome_prices");
    let volume = member_text(member, "volume");
    let time = member_text(member, "timestamp");
    match (prices, volume, time) {
        (Some(p), Some(v), Some(t)) => Some(
            PricePoint {
                outcome_prices: or_blank(&p),
                volume: or_blank(&v),
                timestamp: Timestamp::from_stored(or_blank(&t).as_str()),
            },
        ),
        _ => None,
    }
}

/// Reads the members of a price history, in their order; a member that is
/// not JSON is left out.
pub fn price_points_from_members(members: &Vec<String>) -> (r: Vec<PricePoint>)
    ensures
        point_views(r@) == points_of_members(text_seq(members@)),
{
    let ghost texts = text_seq(members@);
    let mut out: Vec<PricePoint> = Vec::new();
    let mut i: usize = 0;
    assert(texts.take(0) =~= Seq::<Seq<char>>::empty());
    assert(point_views(out@) =~= Seq::<PricePointView>::empty());
    while i < members.len()
        invariant
            i <= members.len(),
            texts == text_seq(members@),
            point_views(out@) == points_of_members(texts.take(i as int)),
        decreases members.len() - i,
    {
        proof {
            assert(texts.take(i + 1).drop_last() =~= texts.take(i as int));
            assert(texts.take(i + 1).last() == members[i as int]@);
        }
        let ghost before = out@;
        match price_point_from_member(members[i].as_str()) {
            Some(p) => {
                out.push(p);
                assert(point_views(out@) =~= point_views(before).push(p@));
            },
            None => {},
        }
        i += 1;
    }
    assert(texts.take(members.len() as int) =~= texts);
    out
}

} // verus!
