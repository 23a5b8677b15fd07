//! The lines that describe a market to a reader.

use crate::json::{parse_scalar_array, parse_string_array, scalar_array, string_array};
use crate::text::{join2, join3, pair_seq, text_seq};
use crate::types::{opt_text, EventType, Market, MarketEvent, MarketEventView, MarketView};
use vstd::prelude::*;
use vstd::string::StringExecFns;

verus! {

pub const HEAVY_RULE: &'static str = "===========================================";

pub const LIGHT_RULE: &'static str = "-------------------------------------------";

/// Each outcome of a market with its price: there where the outcomes are a
/// JSON array of strings, the prices a JSON array of strings or numbers, and
/// both of one length. A market whose two lists do not fit has no pairs.
pub open spec fn priced_outcomes_spec(m: MarketView) -> Option<Seq<(Seq<char>, Seq<char>)>> {
    match (string_array(m.outcomes), m.outcome_prices) {
        (Some(names), Some(text)) => match scalar_array(text) {
            Some(prices) => if names.len() == prices.len() {
                Some(Seq::new(names.len(), |i: int| (names[i], prices[i])))
            } else {
                None
            },
            None => None,
        },
        _ => None,
    }
}

/// Contents of an optional list of pairs.
pub open spec fn opt_pair_seq(v: Option<Vec<(String, String)>>) -> Option<
    Seq<(Seq<char>, Seq<char>)>,
> {
    match v {
        Some(p) => Some(pair_seq(p@)),
        None => None,
    }
}

/// Each outcome of `market` with its price, or `None` where the market does
/// not list both in lists of one length.
pub fn priced_outcomes(market: &Market) -> (r: Option<Vec<(String, String)>>)
    ensures
        opt_pair_seq(r) == priced_outcomes_spec(market@),
{
    let names = match parse_string_array(market.outcomes.as_str()) {
        Some(n) => n,
        None => {
            return None;
        },
    };
    let text = match &market.outcome_prices {
        Some(t) => t,
        None => {
            return None;
        },
    };
    let prices = match parse_scalar_array(text.as_str()) {
        Some(p) => p,
        None => {
            return None;
        },
    };
    if names.len() != prices.len() {
        return None;
    }
    let mut out: Vec<(String, String)> = Vec::new();
    let mut i: usize = 0;
    while i < names.len()
        invariant
            i <= names.len(),
            names.len() == prices.len(),
            out.len() == i,
            forall|j: int|
                0 <= j < i ==> (#[trigger] out[j]).0@ == names[j]@ && out[j].1@ == prices[j]@,
        decreases names.len() - i,
    {
        out.push((names[i].clone(), prices[i].clone()));
        i += 1;
    }
    assert(pair_seq(out@) =~= Seq::new(
        text_seq(names@).len(),
        |i: int| (text_seq(names@)[i], text_seq(prices@)[i]),
    ));
    Some(out)
}

/// One line per pair: two blanks, the first text, the text `between`, the
/// second text.
pub open spec fn pair_lines(pairs: Seq<(Seq<char>, Seq<char>)>, between: Seq<char>) -> Seq<
    Seq<char>,
> {
    Seq::new(pairs.len(), |i: int| "  "@ + pairs[i].0 + between + pairs[i].1)
}

fn push_pair_lines(lines: &mut Vec<String>, pairs: &Vec<(String, String)>, between: &str)
    ensures
        text_seq(final(lines)@) == text_seq(old(lines)@) + pair_lines(pair_seq(pairs@), between@),
{
    let ghost all = pair_lines(pair_seq(pairs@), between@);
    let mut i: usize = 0;
    assert(text_seq(lines@) =~= text_seq(old(lines)@) + all.take(0));
    while i < pairs.len()
        invariant
            i <= pairs.len(),
            all == pair_lines(pair_seq(pairs@), between@),
            text_seq(lines@) == text_seq(old(lines)@) + all.take(i as int),
        decreases pairs.len() - i,
    {
        let ghost before = text_seq(lines@);
        let mut line = join3("  ", pairs[i].0.as_str(), between);
        line.append(pairs[i].1.as_str());
        lines.push(line);
        assert(line@ == all[i as int]);
        assert(text_seq(lines@) =~= before.push(line@));
        assert(all.take(i + 1) =~= all.take(i as int).push(all[i as int]));
        assert(text_seq(lines@) =~= text_seq(old(lines)@) + all.take(i + 1));
        i += 1;
    }
    assert(all.take(pairs.len() as int) =~= all);
}

/// One line per name: two blanks, the name, and the note that no price is
/// known.
pub open spec fn unpriced_lines(names: Seq<Seq<char>>) -> Seq<Seq<char>> {
    Seq::new(names.len(), |i: int| "  "@ + names[i] + " - price: N/A"@)
}

fn push_unpriced_lines(lines: &mut Vec<String>, names: &Vec<String>)
    ensures
        text_seq(final(lines)@) == text_seq(old(lines)@) + unpriced_lines(text_seq(names@)),
{
    let ghost all = unpriced_lines(text_seq(names@));
    let mut i: usize = 0;
    assert(text_seq(lines@) =~= text_seq(old(lines)@) + all.take(0));
    while i < names.len()
        invariant
            i <= names.len(),
            all == unpriced_lines(text_seq(names@)),
            text_seq(lines@) == text_seq(old(lines)@) + all.take(i as int),
        decreases names.len() - i,
    {
        let ghost before = text_seq(lines@);
        let line = join3("  ", names[i].as_str(), " - price: N/A");
        lines.push(line);
        assert(line@ == all[i as int]);
        assert(text_seq(lines@) =~= before.push(line@));
        assert(all.take(i + 1) =~= all.take(i as int).push(all[i as int]));
        assert(text_seq(lines@) =~= text_seq(old(lines)@) + all.take(i + 1));
        i += 1;
    }
    assert(all.take(names.len() as int) =~= all);
}

/// The lines that list the outcomes of a market: none where the outcomes
/// cannot be read; each outcome without a price where the market has no
/// prices; each outcome with its price where both lists fit; none where they
/// do not.
pub open spec fn outcome_lines(m: MarketView) -> Seq<Seq<char>> {
    match string_array(m.outcomes) {
        Some(names) => match m.outcome_prices {
            Some(_) => match priced_outcomes_spec(m) {
                Some(pairs) => pair_lines(pairs, " - price: "@),
                None => Seq::empty(),
            },
            None => unpriced_lines(names),
        },
        None => Seq::empty(),
    }
}

/// A line made of a label and a text, if there is a text.
pub open spec fn labelled(label: Seq<char>, t: Option<Seq<char>>) -> Seq<Seq<char>> {
    match t {
        Some(s) => seq![label + s],
        None => Seq::empty(),
    }
}

fn push_labelled(lines: &mut Vec<String>, label: &str, t: &Option<String>)
    ensures
        text_seq(final(lines)@) == text_seq(old(lines)@) + labelled(label@, opt_text(*t)),
{
    match t {
        Some(s) => {
            lines.push(join2(label, s.as_str()));
        },
        None => {},
    }
    assert(text_seq(lines@) =~= text_seq(old(lines)@) + labelled(label@, opt_text(*t)));
}

fn push_line(lines: &mut Vec<String>, line: String)
    ensures
        text_seq(final(lines)@) == text_seq(old(lines)@) + seq![line@],
{
    lines.push(line);
    assert(text_seq(lines@) =~= text_seq(old(lines)@) + seq![line@]);
}

/// The lines that present a market: its question and description, its
/// outcomes, then volume, liquidity and end date as far as they are known.
pub open spec fn info_lines(m: MarketView) -> Seq<Seq<char>> {
    seq![Seq::<char>::empty(), HEAVY_RULE@, "Question: "@ + m.question] + labelled(
        "Description: "@,
        m.description,
    ) + seq![LIGHT_RULE@] + outcome_lines(m) + seq![LIGHT_RULE@] + labelled(
        "Volume: $"@,
        m.volume,
    ) + labelled("Liquidity: $"@, m.liquidity) + labelled("End date: "@, m.end_date) + seq![
        HEAVY_RULE@,
        Seq::<char>::empty(),
    ]
}

fn push_outcome_lines(lines: &mut Vec<String>, market: &Market)
    ensures
        text_seq(final(lines)@) == text_seq(old(lines)@) + outcome_lines(market@),
{
    match parse_string_array(market.outcomes.as_str()) {
        Some(names) => {
            match &market.outcome_prices {
                Some(_) => {
                    match priced_outcomes(market) {
                        Some(pairs) => {
                            push_pair_lines(lines, &pairs, " - price: ");
                        },
                        None => {},
                    }
                },
                None => {
                    push_unpriced_lines(lines, &names);
                },
            }
        },
        None => {},
    }
    assert(text_seq(lines@) =~= text_seq(old(lines)@) + outcome_lines(market@));
}

/// The lines that present `market` to a reader.
pub fn market_info_lines(market: &Market) -> (r: Vec<String>)
    ensures
        text_seq(r@) == info_lines(market@),
{
    let mut lines: Vec<String> = Vec::new();
    push_line(&mut lines, String::new());
    push_line(&mut lines, String::from_str(HEAVY_RULE));
    push_line(&mut lines, join2("Question: ", market.question.as_str()));
    push_labelled(&mut lines, "Description: ", &market.description);
    push_line(&mut lines, String::from_str(LIGHT_RULE));
    push_outcome_lines(&mut lines, market);
    push_line(&mut lines, String::from_str(LIGHT_RULE));
    push_labelled(&mut lines, "Volume: $", &market.volume);
    push_labelled(&mut lines, "Liquidity: $", &market.liquidity);
    push_labelled(&mut lines, "End date: ", &market.end_date);
    push_line(&mut lines, String::from_str(HEAVY_RULE));
    push_line(&mut lines, String::new());
    assert(text_seq(lines@) =~= info_lines(market@));
    lines
}

/// The lines that announce new prices of a market: a heading with the
/// question, then each outcome with its price where the two lists fit.
pub open spec fn price_lines(m: MarketView) -> Seq<Seq<char>> {
    seq![Seq::<char>::empty(), m.question + " - price update:"@] + (match priced_outcomes_spec(m) {
        Some(pairs) => pair_lines(pairs, " -> "@),
        None => Seq::empty(),
    }) + seq![Seq::<char>::empty()]
}

/// The lines that announce the new prices of `market`.
pub fn price_change_lines(market: &Market) -> (r: Vec<String>)
    ensures
        text_seq(r@) == price_lines(market@),
{
    let mut lines: Vec<String> = Vec::new();
    push_line(&mut lines, String::new());
    push_line(&mut lines, join2(market.question.as_str(), " - price update:"));
    let ghost head = text_seq(lines@);
    match priced_outcomes(market) {
        Some(pairs) => {
            push_pair_lines(&mut lines, &pairs, " -> ");
        },
        None => {
            assert(text_seq(lines@) =~= head + Seq::<Seq<char>>::empty());
        },
    }
    push_line(&mut lines, String::new());
    assert(text_seq(lines@) =~= price_lines(market@));
    lines
}

/// The lines that an event is shown with: a new market is presented in
/// full, a change of price with its new prices, any other event with its
/// kind and question.
pub open spec fn lines_of_event(e: MarketEventView) -> Seq<Seq<char>> {
    match e.event_type {
        EventType::NewMarket => info_lines(e.market),
        EventType::PriceChange => price_lines(e.market),
        EventType::VolumeUpdate => seq!["Volume update: "@ + e.market.question],
        EventType::MarketClosed => seq!["Market closed: "@ + e.market.question],
    }
}

/// The lines that `event` is shown with.
pub fn event_lines(event: &MarketEvent) -> (r: Vec<String>)
    ensures
        text_seq(r@) == lines_of_event(event@),
{
    match event.event_type {
        EventType::NewMarket => market_info_lines(&event.market),
        EventType::PriceChange => price_change_lines(&event.market),
        EventType::VolumeUpdate => {
            let mut lines: Vec<String> = Vec::new();
            lines.push(join2("Volume update: ", event.market.question.as_str()));
            assert(text_seq(lines@) =~= lines_of_event(event@));
            lines
        },
        EventType::MarketClosed => {
            let mut lines: Vec<String> = Vec::new();
            lines.push(join2("Market closed: ", event.market.question.as_str()));
            assert(text_seq(lines@) =~= lines_of_event(event@));
            lines
        },
    }
}

} // verus!
