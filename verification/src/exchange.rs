//! Plain-value models of the exchange API: the streaming subscription
//! message, order requests, and market metadata.
//!
//! The HTTP and streaming transport lives with the process entry point; the
//! library builds and checks the values that cross that edge, bit for bit
//! where the protocol asks for it.

use vstd::prelude::*;
use crate::strings::{spec_decimal, u64_to_string};

verus! {

/// One market's metadata as the exchange lists it.
#[derive(Debug, Clone, PartialEq)]
pub struct MarketInfo {
    /// Market code, such as "KRW-BTC".
    pub market: String,
    pub korean_name: String,
    pub english_name: String,
    /// The exchange's caution flag, when one is set.
    pub market_warning: Option<String>,
}

/// One order as sent to the exchange. Numbers travel as decimal text.
#[derive(Debug, Clone, PartialEq)]
pub struct OrderRequest {
    pub market: String,
    /// "bid" to buy, "ask" to sell.
    pub side: String,
    /// Order volume in volume units, for sells and limit orders.
    pub volume: Option<String>,
    /// Order price: the KRW amount to spend for market buys, the unit price
    /// for limit orders.
    pub price: Option<String>,
    /// "price" for a market buy, "market" for a market sell, "limit" else.
    pub ord_type: String,
}

impl OrderRequest {
    /// A market buy spending the given KRW amount.
    pub fn market_buy(market: &str, amount_krw: u64) -> (r: OrderRequest)
        ensures
            r.market@ == market@,
            r.side@ == "bid"@,
            r.volume is None,
            r.price matches Some(p) && p@ == spec_decimal(amount_krw as int),
            r.ord_type@ == "price"@,
    {
        OrderRequest {
            market: String::from_str(market),
            side: String::from_str("bid"),
            volume: None,
            price: Some(u64_to_string(amount_krw)),
            ord_type: String::from_str("price"),
        }
    }

    /// A market sell of the given volume.
    pub fn market_sell(market: &str, volume: u64) -> (r: OrderRequest)
        ensures
            r.market@ == market@,
            r.side@ == "ask"@,
            r.volume matches Some(v) && v@ == spec_decimal(volume as int),
            r.price is None,
            r.ord_type@ == "market"@,
    {
        OrderRequest {
            market: String::from_str(market),
            side: String::from_str("ask"),
            volume: Some(u64_to_string(volume)),
            price: None,
            ord_type: String::from_str("market"),
        }
    }

    /// A limit buy of the given volume at the given unit price.
    pub fn limit_buy(market: &str, price: u64, volume: u64) -> (r: OrderRequest)
        ensures
            r.market@ == market@,
            r.side@ == "bid"@,
            r.volume matches Some(v) && v@ == spec_decimal(volume as int),
            r.price matches Some(p) && p@ == spec_decimal(price as int),
            r.ord_type@ == "limit"@,
    {
        OrderRequest {
            market: String::from_str(market),
            side: String::from_str("bid"),
            volume: Some(u64_to_string(volume)),
            price: Some(u64_to_string(price)),
            ord_type: String::from_str("limit"),
        }
    }

    /// A limit sell of the given volume at the given unit price.
    pub fn limit_sell(market: &str, price: u64, volume: u64) -> (r: OrderRequest)
        ensures
            r.market@ == market@,
            r.side@ == "ask"@,
            r.volume matches Some(v) && v@ == spec_decimal(volume as int),
            r.price matches Some(p) && p@ == spec_decimal(price as int),
            r.ord_type@ == "limit"@,
    {
        OrderRequest {
            market: String::from_str(market),
            side: String::from_str("ask"),
            volume: Some(u64_to_string(volume)),
            price: Some(u64_to_string(price)),
            ord_type: String::from_str("limit"),
        }
    }
}

/// One streaming subscription request: a ticket, a subscription type, and
/// the market codes.
#[derive(Debug, Clone, PartialEq)]
pub struct WsSubscription {
    pub ticket: String,
    /// "trade" or "ticker".
    pub subscription_type: String,
    pub codes: Vec<String>,
}

/// A string in JSON quotes.
pub open spec fn spec_quoted(s: Seq<char>) -> Seq<char> {
    seq!['"'] + s + seq!['"']
}

/// The JSON list body of the market codes: quoted, separated by commas.
pub open spec fn spec_codes_list(codes: Seq<String>) -> Seq<char>
    decreases codes.len(),
{
    if codes.len() == 0 {
        Seq::<char>::empty()
    } else if codes.len() == 1 {
        spec_quoted(codes[0]@)
    } else {
        spec_codes_list(codes.drop_last()) + seq![','] + spec_quoted(codes.last()@)
    }
}

/// The subscription message, bit for bit: a JSON object holding the ticket,
/// the type and the codes, in that order, without any whitespace. The ticket,
/// type and market codes are plain text without JSON metacharacters.
pub open spec fn spec_subscription_json(
    ticket: Seq<char>,
    subscription_type: Seq<char>,
    codes: Seq<String>,
) -> Seq<char> {
    "{\"ticket\":"@ + spec_quoted(ticket) + ",\"type\":"@ + spec_quoted(subscription_type)
        + ",\"codes\":["@ + spec_codes_list(codes) + "]}"@
}

impl WsSubscription {
    /// A subscription request with the given type.
    pub fn new(ticket: String, subscription_type: &str, codes: Vec<String>) -> (r: WsSubscription)
        ensures
            r.ticket == ticket,
            r.subscription_type@ == subscription_type@,
            r.codes == codes,
    {
        WsSubscription { ticket, subscription_type: String::from_str(subscription_type), codes }
    }

    /// A subscription to trade events.
    pub fn trade(ticket: String, codes: Vec<String>) -> (r: WsSubscription)
        ensures
            r.ticket == ticket,
            r.subscription_type@ == "trade"@,
            r.codes == codes,
    {
        Self::new(ticket, "trade", codes)
    }

    /// A subscription to ticker events.
    pub fn ticker(ticket: String, codes: Vec<String>) -> (r: WsSubscription)
        ensures
            r.ticket == ticket,
            r.subscription_type@ == "ticker"@,
            r.codes == codes,
    {
        Self::new(ticket, "ticker", codes)
    }

    /// Render the subscription message, exactly as `spec_subscription_json`
    /// states it.
    pub fn to_json(&self) -> (r: String)
        ensures
            r@ == spec_subscription_json(self.ticket@, self.subscription_type@, self.codes@),
    {
        let mut s = String::from_str("{\"ticket\":\"");
        s.append(self.ticket.as_str());
        s.append("\",\"type\":\"");
        s.append(self.subscription_type.as_str());
        s.append("\",\"codes\":[");
        let mut i: usize = 0;
        proof {
            reveal_strlit("{\"ticket\":\"");
            reveal_strlit("\",\"type\":\"");
            reveal_strlit("\",\"codes\":[");
            reveal_strlit("{\"ticket\":");
            reveal_strlit(",\"type\":");
            reveal_strlit(",\"codes\":[");
            reveal_strlit("\"");
            assert(s@ =~= "{\"ticket\":"@ + spec_quoted(self.ticket@) + ",\"type\":"@
                + spec_quoted(self.subscription_type@) + ",\"codes\":["@ + spec_codes_list(
                self.codes@.subrange(0, 0),
            ));
        }
        while i < self.codes.len()
            invariant
                i <= self.codes@.len(),
                s@ == "{\"ticket\":"@ + spec_quoted(self.ticket@) + ",\"type\":"@ + spec_quoted(
                    self.subscription_type@,
                ) + ",\"codes\":["@ + spec_codes_list(self.codes@.subrange(0, i as int)),
            decreases self.codes@.len() - i,
        {
            if i > 0 {
                s.append(",");
            }
            s.append("\"");
            s.append(self.codes[i].as_str());
            s.append("\"");
            proof {
                reveal_strlit(",");
                reveal_strlit("\"");
                assert(self.codes@.subrange(0, i as int + 1).drop_last() =~= self.codes@.subrange(
                    0,
                    i as int,
                ));
                assert(s@ =~= "{\"ticket\":"@ + spec_quoted(self.ticket@) + ",\"type\":"@
                    + spec_quoted(self.subscription_type@) + ",\"codes\":["@ + spec_codes_list(
                    self.codes@.subrange(0, i as int + 1),
                ));
            }
            i = i + 1;
        }
        s.append("]}");
        proof {
            reveal_strlit("]}");
            assert(self.codes@.subrange(0, self.codes@.len() as int) =~= self.codes@);
            assert(s@ =~= spec_subscription_json(
                self.ticket@,
                self.subscription_type@,
                self.codes@,
            ));
        }
        s
    }
}

/// Whether a market code names a KRW market.
pub open spec fn spec_is_krw_market(m: Seq<char>) -> bool {
    m.len() >= 4 && m.subrange(0, 4) == "KRW-"@
}

/// Whether a market code starts with the KRW prefix.
fn is_krw_market(market: &str) -> (r: bool)
    ensures
        r == spec_is_krw_market(market@),
{
    proof {
        reveal_strlit("KRW-");
    }
    let len = market.unicode_len();
    if len < 4 {
        return false;
    }
    let r = market.get_char(0) == 'K' && market.get_char(1) == 'R' && market.get_char(2) == 'W'
        && market.get_char(3) == '-';
    proof {
        if r {
            assert(market@.subrange(0, 4) =~= "KRW-"@);
        } else {
            assert(market@.subrange(0, 4) != "KRW-"@) by {
                if market@.subrange(0, 4) == "KRW-"@ {
                    assert(market@.subrange(0, 4)[0] == 'K' && market@.subrange(0, 4)[1] == 'R'
                        && market@.subrange(0, 4)[2] == 'W' && market@.subrange(0, 4)[3] == '-');
                }
            }
        }
    }
    r
}

/// The market codes of the KRW markets, in listing order.
pub open spec fn spec_krw_markets(markets: Seq<MarketInfo>) -> Seq<String> {
    markets.map_values(|mi: MarketInfo| mi.market).filter(|m: String| spec_is_krw_market(m@))
}

/// The first `top_n` KRW market codes out of the exchange's market list, in
/// listing order; all of them when fewer exist.
pub fn top_krw_markets(markets: &Vec<MarketInfo>, top_n: usize) -> (r: Vec<String>)
    ensures
        r@ == spec_krw_markets(markets@).take(
            crate::signal::min_int(top_n as int, spec_krw_markets(markets@).len() as int),
        ),
{
    let ghost pred = |m: String| spec_is_krw_market(m@);
    let ghost f = |mi: MarketInfo| mi.market;
    let mut out: Vec<String> = Vec::new();
    let mut i: usize = 0;
    proof {
        assert(markets@.subrange(0, 0).map_values(f).filter(pred) =~= Seq::<String>::empty()) by {
            assert(markets@.subrange(0, 0).map_values(f) =~= Seq::<String>::empty());
            reveal(Seq::filter);
        }
    }
    while i < markets.len() && out.len() < top_n
        invariant
            i <= markets@.len(),
            out@.len() <= top_n,
            pred == (|m: String| spec_is_krw_market(m@)),
            f == (|mi: MarketInfo| mi.market),
            out@ == markets@.subrange(0, i as int).map_values(f).filter(pred).take(
                crate::signal::min_int(
                    top_n as int,
                    markets@.subrange(0, i as int).map_values(f).filter(pred).len() as int,
                ),
            ),
            out@.len() == crate::signal::min_int(
                top_n as int,
                markets@.subrange(0, i as int).map_values(f).filter(pred).len() as int,
            ),
        decreases markets@.len() - i,
    {
        let ghost prefix = markets@.subrange(0, i as int).map_values(f);
        proof {
            assert(markets@.subrange(0, i as int + 1).map_values(f) =~= prefix.push(
                f(markets@[i as int]),
            ));
            lemma_filter_push_strings(prefix, pred, f(markets@[i as int]));
        }
        if is_krw_market(markets[i].market.as_str()) {
            out.push(markets[i].market.clone());
        }
        proof {
            let longer = markets@.subrange(0, i as int + 1).map_values(f).filter(pred);
            assert(out@ =~= longer.take(
                crate::signal::min_int(top_n as int, longer.len() as int),
            ));
        }
        i = i + 1;
    }
    proof {
        let all = spec_krw_markets(markets@);
        let prefix_list = markets@.subrange(0, i as int).map_values(f).filter(pred);
        if i < markets@.len() {
            assert(out@.len() == top_n);
            assert(markets@ =~= markets@.subrange(0, i as int) + markets@.subrange(
                i as int,
                markets@.len() as int,
            ));
            assert((markets@.subrange(0, i as int) + markets@.subrange(
                i as int,
                markets@.len() as int,
            )).map_values(f) =~= markets@.subrange(0, i as int).map_values(f) + markets@.subrange(
                i as int,
                markets@.len() as int,
            ).map_values(f));
            Seq::filter_distributes_over_add(
                markets@.subrange(0, i as int).map_values(f),
                markets@.subrange(i as int, markets@.len() as int).map_values(f),
                pred,
            );
            assert(all.take(crate::signal::min_int(top_n as int, all.len() as int)) =~= out@);
        } else {
            assert(markets@.subrange(0, i as int) =~= markets@);
        }
    }
    out
}

/// Filtering a string list extended by one element keeps the filtered prefix
/// and appends the element exactly when it satisfies the predicate.
proof fn lemma_filter_push_strings(s: Seq<String>, pred: spec_fn(String) -> bool, x: String)
    ensures
        s.push(x).filter(pred) == (if pred(x) {
            s.filter(pred).push(x)
        } else {
            s.filter(pred)
        }),
{
    reveal(Seq::filter);
    assert(s.push(x).drop_last() =~= s);
    assert(s.push(x).last() == x);
}

} // verus!
