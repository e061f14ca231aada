use vstd::prelude::*;
use vstd::string::*;

use crate::decimal::Decimal;
use crate::errors::{ClientError, MarketDataError, TradingError};
use crate::http::auth::Method;
use crate::kinds::{Exchange, ExecutionMode, FundingInterval, InstrumentType};
use crate::manager::account::AccountManagerError;
use crate::orders::Position;
use crate::registry;
use crate::registry::InstrumentRegistry;
use crate::table::Table;
use crate::text;
use crate::text::{concat, concat3, contains, number, same, signed_number, to_lower};
use crate::types::{Instrument, InstrumentKey};

verus! {

/// The instrument whose funding rate can be asked for.
pub open spec fn funding_target(instruments: Seq<Instrument>, key: InstrumentKey) -> Option<Instrument> {
    if key.instrument_type == InstrumentType::Swap {
        registry::found(instruments, key)
    } else {
        None
    }
}

/// How often an instrument pays funding; every eight hours unless it says otherwise.
pub open spec fn interval_of(i: Instrument) -> FundingInterval {
    match i.funding_interval {
        Some(interval) => interval,
        None => FundingInterval::Every8Hours,
    }
}

/// Symbol and interval of an instrument whose funding rate is asked for.
pub fn find_funding_target(registry: &InstrumentRegistry, key: InstrumentKey) -> (r: Result<
    (String, FundingInterval),
    MarketDataError,
>)
    ensures
        match r {
            Ok((symbol, interval)) => funding_target(registry@, key) matches Some(i) && symbol@ == i.exchange_symbol@
                && interval == interval_of(i),
            Err(e) => funding_target(registry@, key) is None && e == MarketDataError::UnsupportedInstrument,
        },
{
    if key.instrument_type != InstrumentType::Swap {
        return Err(MarketDataError::UnsupportedInstrument);
    }
    match registry.get(&key) {
        Some(instrument) => {
            let interval = match instrument.funding_interval {
                Some(interval) => interval,
                None => FundingInterval::Every8Hours,
            };
            Ok((instrument.exchange_symbol, interval))
        },
        None => Err(MarketDataError::UnsupportedInstrument),
    }
}

/// The smaller of two numbers.
pub open spec fn at_most(limit: usize, max: usize) -> nat {
    if limit < max {
        limit as nat
    } else {
        max as nat
    }
}

/// The path that asks for a history: from one time to another, and no more entries than the
/// exchange gives.
pub open spec fn history_text(
    start: Seq<char>,
    symbol: Seq<char>,
    start_ms: i64,
    end_ms: i64,
    limit: usize,
    max: usize,
) -> Seq<char> {
    start + symbol + "&startTime="@ + text::signed_digits(start_ms as int) + "&endTime="@ + text::signed_digits(
        end_ms as int,
    ) + "&limit="@ + text::digits(at_most(limit, max))
}

pub fn history_path(start: &str, symbol: &str, start_ms: i64, end_ms: i64, limit: usize, max: usize) -> (r: String)
    ensures
        r@ == history_text(start@, symbol@, start_ms, end_ms, limit, max),
{
    let mut out: String = concat3(start, symbol, "&startTime=");
    out.append(signed_number(start_ms).as_str());
    out.append("&endTime=");
    out.append(signed_number(end_ms).as_str());
    out.append("&limit=");
    let shown: usize = if limit < max {
        limit
    } else {
        max
    };
    out.append(number(shown as u64).as_str());
    out
}

/// The name under which an instrument is streamed.
pub open spec fn stream_name(i: Instrument, lower: bool) -> Seq<char> {
    if lower {
        text::lowercase(i.exchange_symbol@)
    } else {
        i.exchange_symbol@
    }
}

/// The names under which the instruments of one kind among some keys are streamed. A key that is
/// not registered has none; of two instruments with one name the later counts.
pub open spec fn stream_map(
    instruments: Seq<Instrument>,
    keys: Seq<InstrumentKey>,
    kind: InstrumentType,
    lower: bool,
) -> Map<Seq<char>, InstrumentKey>
    decreases keys.len(),
{
    if keys.len() == 0 {
        Map::empty()
    } else {
        let front = stream_map(instruments, keys.drop_last(), kind, lower);
        let key = keys.last();
        if key.instrument_type == kind {
            match registry::found(instruments, key) {
                Some(i) => front.insert(stream_name(i, lower), key),
                None => front,
            }
        } else {
            front
        }
    }
}

/// Whether some key is of a kind.
pub open spec fn has_kind(keys: Seq<InstrumentKey>, kind: InstrumentType) -> bool {
    exists|i: int| 0 <= i < keys.len() && (#[trigger] keys[i]).instrument_type == kind
}

pub fn any_of_kind(keys: &[InstrumentKey], kind: InstrumentType) -> (r: bool)
    ensures
        r == has_kind(keys@, kind),
{
    for i in 0..keys.len()
        invariant
            forall|j: int| 0 <= j < i ==> (#[trigger] keys@[j]).instrument_type != kind,
    {
        if keys[i].instrument_type == kind {
            return true;
        }
    }
    false
}

pub fn make_stream_map(registry: &InstrumentRegistry, keys: &[InstrumentKey], kind: InstrumentType, lower: bool) -> (r: Table<
    String,
    InstrumentKey,
>)
    ensures
        r@ == stream_map(registry@, keys@, kind, lower),
{
    let mut map: Table<String, InstrumentKey> = Table::new();
    for i in 0..keys.len()
        invariant
            map@ == stream_map(registry@, keys@.take(i as int), kind, lower),
    {
        assert(keys@.take(i + 1).drop_last() =~= keys@.take(i as int));
        if keys[i].instrument_type == kind {
            if let Some(instrument) = registry.get(&keys[i]) {
                let name = if lower {
                    to_lower(instrument.exchange_symbol.as_str())
                } else {
                    instrument.exchange_symbol
                };
                map.insert(name, keys[i]);
            }
        }
    }
    assert(keys@.take(keys@.len() as int) =~= keys@);
    map
}

/// Every name that is streamed belongs to an instrument that was asked for.
pub proof fn streamed_was_asked_for(
    instruments: Seq<Instrument>,
    keys: Seq<InstrumentKey>,
    kind: InstrumentType,
    lower: bool,
    name: Seq<char>,
)
    requires
        stream_map(instruments, keys, kind, lower).contains_key(name),
    ensures
        keys.contains(stream_map(instruments, keys, kind, lower)[name]),
        stream_map(instruments, keys, kind, lower)[name].instrument_type == kind,
        registry::found(instruments, stream_map(instruments, keys, kind, lower)[name]) matches Some(i) && stream_name(
            i,
            lower,
        ) == name,
    decreases keys.len(),
{
    let front = stream_map(instruments, keys.drop_last(), kind, lower);
    let key = stream_map(instruments, keys, kind, lower)[name];
    let last_counts = keys.last().instrument_type == kind && (registry::found(instruments, keys.last()) matches Some(i)
        && stream_name(i, lower) == name);
    if last_counts {
        assert(keys[keys.len() - 1] == key);
    } else {
        streamed_was_asked_for(instruments, keys.drop_last(), kind, lower, name);
        let i = choose|i: int| 0 <= i < keys.drop_last().len() && keys.drop_last()[i] == key;
        assert(keys[i] == key);
    }
}

/// What each name is followed by in the address of a depth stream.
pub open spec fn depth_names(rows: Seq<(String, InstrumentKey)>) -> Seq<Seq<char>> {
    rows.map_values(|row: (String, InstrumentKey)| row.0@ + "@depth5@100ms"@)
}

/// The address that streams the depth of all names.
pub fn depth_url(base_url: &str, names: &Table<String, InstrumentKey>) -> (r: String)
    ensures
        r@ == base_url@ + "/stream?streams="@ + text::joined(depth_names(names.rows()), "/"@),
{
    let mut list: String = String::new();
    let n: usize = names.len();
    assert(depth_names(names.rows().take(0)) =~= Seq::<Seq<char>>::empty());
    for i in 0..n
        invariant
            n == names.rows().len(),
            list@ == text::joined(depth_names(names.rows().take(i as int)), "/"@),
    {
        let ghost so_far = depth_names(names.rows().take(i as int));
        let (name, _) = names.row(i);
        let ghost this = name@ + "@depth5@100ms"@;
        assert(depth_names(names.rows().take(i + 1)) =~= so_far.push(this));
        assert(so_far.push(this).drop_last() =~= so_far);
        if i > 0 {
            list.append("/");
        }
        list.append(name.as_str());
        list.append("@depth5@100ms");
        if i > 0 {
            assert(list@ =~= text::joined(so_far, "/"@) + "/"@ + this);
        } else {
            assert(list@ =~= this);
        }
    }
    assert(names.rows().take(n as int) =~= names.rows());
    concat3(base_url, "/stream?streams=", list.as_str())
}

/// The instrument that a message of a depth stream is about: the part of the stream's name before
/// the first `@` tells.
pub open spec fn streamed_key(names: Map<Seq<char>, InstrumentKey>, stream: Seq<char>) -> Option<InstrumentKey> {
    let name = text::before(stream, '@');
    if names.contains_key(name) {
        Some(names[name])
    } else {
        None
    }
}

pub fn find_streamed_key(names: &Table<String, InstrumentKey>, stream: &str) -> (r: Option<InstrumentKey>)
    ensures
        r == streamed_key(names@, stream@),
{
    match names.get(&text::first_piece(stream, '@')) {
        Some(key) => Some(*key),
        None => None,
    }
}

/// The address of a stream that a listen key opens.
pub fn listen_url(base_url: &str, listen_key: &str) -> (r: String)
    ensures
        r@ == base_url@ + "/ws/"@ + listen_key@,
{
    concat3(base_url, "/ws/", listen_key)
}

/// The path that keeps a listen key alive.
pub fn keep_alive_path(listen_key: &str) -> (r: String)
    ensures
        r@ == "/fapi/v1/listenKey?listenKey="@ + listen_key@,
{
    concat("/fapi/v1/listenKey?listenKey=", listen_key)
}

/// Seconds between two requests that keep a listen key alive.
pub const KEEP_ALIVE_SECS: u64 = 1_800;

/// Whether an error tells that a listen key has expired: its words are those of a reply that the
/// key is gone or that the request was not authorized.
pub open spec fn listen_key_expired(message: Seq<char>) -> bool {
    ||| text::has_part(message, "410"@)
    ||| text::has_part(message, "401"@)
    ||| message == ClientError::Unauthorized.text()
}

/// A heartbeat that is answered with status 401 tells that the key has expired, whatever the body.
pub proof fn unauthorized_means_expired(e: ClientError)
    requires
        e is Unauthorized,
    ensures
        listen_key_expired(e.text()),
{
}

/// A heartbeat that is answered with status 410 tells that the key has expired, whatever the body:
/// the words of the status start with its number.
pub proof fn gone_means_expired(e: ClientError, status_words: Seq<char>, body: Seq<char>)
    requires
        text::digits(410).is_prefix_of(status_words),
        e matches ClientError::InvalidResponse(m) && m@ == "HTTP "@ + status_words + ": "@ + body,
    ensures
        listen_key_expired(e.text()),
{
    reveal_strlit("410");
    let m = e->InvalidResponse_0@;
    let start: int = ("invalid response: "@.len() + "HTTP "@.len()) as int;
    assert(text::digits(410) =~= "410"@) by {
        reveal_with_fuel(text::digits, 3);
    }
    assert(status_words.subrange(0, 3) =~= "410"@);
    assert(e.text().subrange(start, start + 3) =~= "410"@) by {
        assert forall|i: int| 0 <= i < 3 implies e.text()[start + i] == #[trigger] status_words[i] by {
            assert(m["HTTP "@.len() + i] == status_words[i]);
        }
        assert forall|i: int| 0 <= i < 3 implies #[trigger] e.text().subrange(start, start + 3)[i] == "410"@[i] by {
            assert(status_words.subrange(0, 3)[i] == status_words[i]);
        }
    }
    assert(text::part_at(e.text(), "410"@, start));
}

pub fn is_listen_key_expired(message: &str) -> (r: bool)
    ensures
        r == listen_key_expired(message@),
{
    contains(message, "410") || contains(message, "401") || same(message, "unauthorized")
}

/// A position with the leverage that was set for its instrument, if one was.
pub open spec fn levered(p: Position, leverage: Map<InstrumentKey, Decimal>) -> Position {
    if leverage.contains_key(p.key) {
        Position { leverage: leverage[p.key], ..p }
    } else {
        p
    }
}

pub fn with_leverage(p: Position, leverage: &Table<InstrumentKey, Decimal>) -> (r: Position)
    ensures
        r == levered(p, leverage@),
{
    match leverage.get(&p.key) {
        Some(l) => Position { leverage: *l, ..p },
        None => p,
    }
}

/// Whether an error tells that a client is of another exchange.
pub open spec fn is_other_exchange(e: AccountManagerError, client: Seq<char>, exchange: Exchange) -> bool {
    e matches AccountManagerError::Other { reason } && reason@ == "unsupported exchange for "@ + client + ": "@
        + exchange.variant()
}

pub fn other_exchange(client: &str, exchange: Exchange) -> (r: AccountManagerError)
    ensures
        is_other_exchange(r, client@, exchange),
{
    let mut reason: String = concat3("unsupported exchange for ", client, ": ");
    reason.append(exchange.variant_name());
    AccountManagerError::Other { reason }
}

/// A request, signed or not.
#[derive(Debug)]
pub struct ApiCall {
    pub method: Method,
    pub signed: bool,
    pub path: String,
}

impl ApiCall {
    pub open spec fn is(self, method: Method, signed: bool, path: Seq<char>) -> bool {
        self.method == method && self.signed == signed && self.path@ == path
    }
}

/// The keys that texts denote, in order; a text that denotes none is left out.
pub open spec fn keys_of(texts: Seq<String>) -> Seq<InstrumentKey>
    decreases texts.len(),
{
    if texts.len() == 0 {
        Seq::empty()
    } else {
        let front = keys_of(texts.drop_last());
        match InstrumentKey::read(texts.last()@) {
            Ok(key) => front.push(key),
            Err(_) => front,
        }
    }
}

pub fn read_keys(texts: &Vec<String>) -> (r: Vec<InstrumentKey>)
    ensures
        r@ == keys_of(texts@),
{
    let mut keys: Vec<InstrumentKey> = Vec::new();
    for i in 0..texts.len()
        invariant
            keys@ == keys_of(texts@.take(i as int)),
    {
        assert(texts@.take(i + 1).drop_last() =~= texts@.take(i as int));
        if let Ok(key) = InstrumentKey::from_str(texts[i].as_str()) {
            keys.push(key);
        }
    }
    assert(texts@.take(texts@.len() as int) =~= texts@);
    keys
}

/// What live trading lacks: first the key, then the secret.
pub open spec fn lacks(name: Seq<char>, api_key: Option<String>, api_secret: Option<String>, mode: ExecutionMode) -> Option<
    Seq<char>,
> {
    if mode != ExecutionMode::Live {
        None
    } else if api_key is None {
        Some(name + " api_key is required for live trading"@)
    } else if api_secret is None {
        Some(name + " api_secret is required for live trading"@)
    } else {
        None
    }
}

pub fn find_lack(name: &str, api_key: &Option<String>, api_secret: &Option<String>, mode: ExecutionMode) -> (r: Option<
    String,
>)
    ensures
        match r {
            Some(m) => lacks(name@, *api_key, *api_secret, mode) == Some(m@),
            None => lacks(name@, *api_key, *api_secret, mode) is None,
        },
{
    if mode != ExecutionMode::Live {
        None
    } else if api_key.is_none() {
        Some(concat(name, " api_key is required for live trading"))
    } else if api_secret.is_none() {
        Some(concat(name, " api_secret is required for live trading"))
    } else {
        None
    }
}

/// Whether an error tells that a key is not registered.
pub open spec fn is_not_registered(e: TradingError, key: InstrumentKey) -> bool {
    e matches TradingError::Other(m) && m@ == "instrument not found: "@ + key.text()
}

pub fn not_registered(key: InstrumentKey) -> (r: TradingError)
    ensures
        is_not_registered(r, key),
{
    TradingError::Other(concat("instrument not found: ", key.to_string().as_str()))
}

} // verus!
