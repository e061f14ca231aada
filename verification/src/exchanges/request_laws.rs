use vstd::prelude::*;

use crate::decimal::Decimal;
use crate::exchanges::aster::auth as aster_auth;
use crate::exchanges::bybit::types::{BybitOrderBookResult, BybitWsPrivateMessage};
use crate::exchanges::bybit::ws;
use crate::exchanges::bybit::ws::BybitWsRawMessage;
use crate::exchanges::requests;
use crate::http::auth as http_auth;
use crate::kinds::{ExecutionMode, FundingInterval, InstrumentType};
use crate::orders::Position;
use crate::registry;
use crate::text;
use crate::types;
use crate::types::{Instrument, InstrumentKey, OrderBookSnapshot};

verus! {

/// A funding rate is asked for on a perpetual future that is registered under the very key.
pub proof fn funding_is_of_the_future(instruments: Seq<Instrument>, key: InstrumentKey)
    ensures
        requests::funding_target(instruments, key) matches Some(i) ==> i.key == key && instruments.contains(i),
        requests::funding_target(instruments, key) is Some <==> key.instrument_type == InstrumentType::Swap && exists|
            j: int,
        | 0 <= j < instruments.len() && (#[trigger] instruments[j]).key == key,
{
    if requests::funding_target(instruments, key) is Some {
        let j = choose|j: int| 0 <= j < instruments.len() && (#[trigger] instruments[j]).key == key;
        assert(instruments.contains(instruments[j]));
    }
}

/// An instrument pays funding as often as it says.
pub proof fn interval_is_as_it_says(i: Instrument)
    ensures
        i.funding_interval matches Some(interval) ==> requests::interval_of(i) == interval,
        i.funding_interval is None ==> requests::interval_of(i) == FundingInterval::Every8Hours,
{
}

/// No more entries are asked for than were wanted, nor more than the exchange gives.
pub proof fn limit_is_kept(limit: usize, max: usize)
    ensures
        requests::at_most(limit, max) <= limit,
        requests::at_most(limit, max) <= max,
        requests::at_most(limit, max) == limit || requests::at_most(limit, max) == max,
{
}

/// A history is asked for from the start to the end, in this order.
pub proof fn history_runs_from_start_to_end(
    start: Seq<char>,
    symbol: Seq<char>,
    start_ms: i64,
    end_ms: i64,
    limit: usize,
    max: usize,
)
    ensures
        (start + symbol + "&startTime="@ + text::signed_digits(start_ms as int)).is_prefix_of(
            requests::history_text(start, symbol, start_ms, end_ms, limit, max),
        ),
        limit <= max ==> ("&endTime="@ + text::signed_digits(end_ms as int) + "&limit="@ + text::digits(
            limit as nat,
        )).is_suffix_of(requests::history_text(start, symbol, start_ms, end_ms, limit, max)),
        max <= limit ==> ("&endTime="@ + text::signed_digits(end_ms as int) + "&limit="@ + text::digits(
            max as nat,
        )).is_suffix_of(requests::history_text(start, symbol, start_ms, end_ms, limit, max)),
{
    let t = requests::history_text(start, symbol, start_ms, end_ms, limit, max);
    let head = start + symbol + "&startTime="@ + text::signed_digits(start_ms as int);
    let tail = "&endTime="@ + text::signed_digits(end_ms as int) + "&limit="@ + text::digits(
        requests::at_most(limit, max),
    );
    assert(t.subrange(0, head.len() as int) =~= head);
    assert(t.subrange(t.len() - tail.len(), t.len() as int) =~= tail);
}

/// Every registered instrument of a kind that is asked for is streamed under its name.
pub proof fn asked_for_is_streamed(
    instruments: Seq<Instrument>,
    keys: Seq<InstrumentKey>,
    kind: InstrumentType,
    lower: bool,
    j: int,
)
    requires
        0 <= j < keys.len(),
        keys[j].instrument_type == kind,
        registry::found(instruments, keys[j]) is Some,
    ensures
        requests::stream_map(instruments, keys, kind, lower).contains_key(
            if lower {
                text::lowercase((registry::found(instruments, keys[j])->0).exchange_symbol@)
            } else {
                (registry::found(instruments, keys[j])->0).exchange_symbol@
            },
        ),
    decreases keys.len(),
{
    if j < keys.len() - 1 {
        assert(keys.drop_last()[j] == keys[j]);
        asked_for_is_streamed(instruments, keys.drop_last(), kind, lower, j);
    }
}

/// A message of a stream is about the instrument whose name the stream was opened under.
pub proof fn stream_is_of_its_name(names: Map<Seq<char>, InstrumentKey>, name: Seq<char>)
    requires
        names.contains_key(name),
        !name.contains('@'),
    ensures
        requests::streamed_key(names, name + "@depth5@100ms"@) == Some(names[name]),
{
    reveal_strlit("@depth5@100ms");
    text::before_of_plain(name, "@depth5@100ms"@, '@');
}

/// A position takes over the leverage that was set for its instrument, and keeps all else.
pub proof fn leverage_is_the_one_set(p: Position, leverage: Map<InstrumentKey, Decimal>)
    ensures
        requests::levered(p, leverage).key == p.key,
        requests::levered(p, leverage).size == p.size,
        requests::levered(p, leverage).entry_price == p.entry_price,
        requests::levered(p, leverage).unrealized_pnl == p.unrealized_pnl,
        requests::levered(p, leverage).liquidation_price == p.liquidation_price,
        leverage.contains_key(p.key) ==> requests::levered(p, leverage).leverage == leverage[p.key],
        !leverage.contains_key(p.key) ==> requests::levered(p, leverage).leverage == p.leverage,
{
}

/// Live trading needs a key and a secret, and only live trading does.
pub proof fn only_live_trading_needs_credentials(
    name: Seq<char>,
    api_key: Option<String>,
    api_secret: Option<String>,
    mode: ExecutionMode,
)
    ensures
        requests::lacks(name, api_key, api_secret, mode) is None <==> mode != ExecutionMode::Live || api_key is Some
            && api_secret is Some,
{
}

/// Texts that keys write read back as those keys, one for one.
pub proof fn written_keys_read_back(texts: Seq<String>, keys: Seq<InstrumentKey>)
    requires
        texts.len() == keys.len(),
        forall|i: int| 0 <= i < texts.len() ==> (#[trigger] texts[i])@ == keys[i].text(),
    ensures
        requests::keys_of(texts) == keys,
    decreases texts.len(),
{
    if texts.len() > 0 {
        let (front, shown) = (texts.drop_last(), keys.drop_last());
        assert forall|i: int| 0 <= i < front.len() implies (#[trigger] front[i])@ == shown[i].text() by {
            assert(texts[i] == front[i]);
        }
        written_keys_read_back(front, shown);
        assert(texts[texts.len() - 1]@ == keys[keys.len() - 1].text());
        types::instrument_key_text_round_trip(keys.last());
        assert(shown.push(keys.last()) =~= keys);
    } else {
        assert(keys =~= Seq::<InstrumentKey>::empty());
    }
}

/// A topic that asks for the order book of a symbol names that symbol.
pub proof fn topic_names_its_symbol(depth: u32, symbol: Seq<char>)
    requires
        !symbol.contains('.'),
    ensures
        ws::topic_symbol("orderbook."@ + text::digits(depth as nat) + "."@ + symbol) == Some(symbol),
{
    reveal_strlit("orderbook.");
    reveal_strlit(".");
    reveal_strlit("orderbook");
    let d = text::digits(depth as nat);
    text::digits_are_digits(depth as nat);
    assert forall|i: int| 0 <= i < d.len() implies d[i] != '.' by {
        assert(text::is_digit(d[i]));
    }
    let word = "orderbook"@;
    assert("orderbook."@ =~= word + seq!['.']);
    assert("."@ =~= seq!['.']);
    assert forall|i: int| 0 <= i < word.len() implies word[i] != '.' by {}
    text::pieces_of_plain(word, '.');
    text::pieces_after_separator(word, d, '.');
    text::pieces_after_separator(word + seq!['.'] + d, symbol, '.');
    assert("orderbook."@ + d + "."@ + symbol =~= word + seq!['.'] + d + seq!['.'] + symbol);
}

/// A message that carries an order book is no answer to a request, and its book goes to the
/// instrument of the symbol that its topic names.
pub proof fn carried_book_is_of_its_symbol(
    message: BybitWsRawMessage,
    names: Map<Seq<char>, InstrumentKey>,
    book: BybitOrderBookResult,
    key: InstrumentKey,
)
    requires
        ws::carried(message, names) == Some((book, key)),
    ensures
        message.op is None,
        message.data == Some(book),
        message.topic matches Some(topic) && (ws::topic_symbol(topic@) matches Some(symbol) && names.contains_key(symbol)
            && names[symbol] == key),
{
}

/// A private message is an answer to a request where it names one, else what its topic says.
pub proof fn private_topic_is_what_it_says(message: BybitWsPrivateMessage)
    ensures
        ws::topic_of(message) is Control <==> message.op is Some,
        ws::topic_of(message) is Orders <==> message.op is None && (message.topic matches Some(t) && t@ == "order"@),
        ws::topic_of(message) is Positions <==> message.op is None && (message.topic matches Some(t) && t@ == "position"@),
        ws::refuses_user(message) ==> ws::topic_of(message) is Control && message.success != Some(true),
        (message.op matches Some(op) && op@ == "auth"@) && message.success == Some(true) ==> !ws::refuses_user(message),
        (message.op matches Some(op) && op@ == "auth"@) && message.success == Some(false) ==> ws::refuses_user(message),
{
    reveal_strlit("order");
    reveal_strlit("position");
    assert("order"@.len() != "position"@.len());
}

/// An error that tells of one of the two statuses of an expired key, or that is the refusal itself,
/// means that the key has expired, and no other does.
pub proof fn expired_key_is_told_by_its_status(message: Seq<char>)
    ensures
        text::has_part(message, "410"@) ==> requests::listen_key_expired(message),
        text::has_part(message, "401"@) ==> requests::listen_key_expired(message),
        message == "unauthorized"@ ==> requests::listen_key_expired(message),
        !text::has_part(message, "410"@) && !text::has_part(message, "401"@) && message != "unauthorized"@
            ==> !requests::listen_key_expired(message),
{
}

/// Each topic that a policy subscribes to names the symbol of its row, and each name of a depth
/// stream leads back to the key of its row.
pub proof fn subscriptions_lead_back(
    rows: Seq<(String, InstrumentKey)>,
    depth: u32,
    names: Map<Seq<char>, InstrumentKey>,
    i: int,
)
    requires
        0 <= i < rows.len(),
        !rows[i].0@.contains('.'),
        !rows[i].0@.contains('@'),
        names.contains_key(rows[i].0@),
    ensures
        ws::topic_symbol(ws::topics(rows, depth)[i]) == Some(rows[i].0@),
        requests::streamed_key(names, requests::depth_names(rows)[i]) == Some(names[rows[i].0@]),
{
    topic_names_its_symbol(depth, rows[i].0@);
    stream_is_of_its_name(names, rows[i].0@);
}

/// A book that is handed on is the same in all that it tells.
pub proof fn same_book_tells_the_same(a: OrderBookSnapshot, b: OrderBookSnapshot)
    requires
        a.same_book(b),
    ensures
        a.key == b.key,
        a.bids@ == b.bids@,
        a.asks@ == b.asks@,
        a.best_bid == b.best_bid,
        a.best_ask == b.best_ask,
        a.mid == b.mid,
        a.spread == b.spread,
        a.timestamp_ms == b.timestamp_ms,
        a.timestamp_utc == b.timestamp_utc,
{
}

/// What Aster's signing adds is dropped when a request is signed again, so that nothing is signed
/// twice; key and time are what is added.
pub proof fn aster_signing_starts_afresh(now_ms: u64, api_key: Seq<char>, i: int)
    requires
        0 <= i < aster_auth::extra_pairs(now_ms, api_key).len(),
    ensures
        http_auth::is_stale_name(aster_auth::extra_pairs(now_ms, api_key)[i].0, aster_auth::stale_names()),
        aster_auth::extra_pairs(now_ms, api_key).contains(("nonce"@, text::digits(now_ms as nat))),
        aster_auth::extra_pairs(now_ms, api_key).contains(("user"@, api_key)),
        aster_auth::extra_pairs(now_ms, api_key).contains(("signer"@, api_key)),
{
    let extra = aster_auth::extra_pairs(now_ms, api_key);
    let stale = aster_auth::stale_names();
    assert(extra[0] == ("nonce"@, text::digits(now_ms as nat)));
    assert(extra[1] == ("user"@, api_key));
    assert(extra[2] == ("signer"@, api_key));
    assert(stale[0] == "nonce"@ && stale[1] == "user"@ && stale[2] == "signer"@);
}

} // verus!
