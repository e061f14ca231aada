use vstd::prelude::*;
use vstd::utf8;

use crate::kinds::Exchange;
use crate::manager::order;
use crate::text;

verus! {

/// The most bytes of a client order identifier that an exchange takes.
pub const MAX_LEN: usize = 36;

/// The client order identifier of an order: its own, as far as the exchange takes it. `None` where
/// the cut would go through a character.
pub open spec fn client_id(internal_id: Seq<char>) -> Option<Seq<char>> {
    text::cut_at(internal_id, MAX_LEN as nat)
}

/// The strategy that a client order identifier names: what stands before its first dash.
pub open spec fn strategy_in(client_order_id: Seq<char>) -> Option<Seq<char>> {
    let name = text::before(client_order_id, '-');
    if name.len() == 0 {
        None
    } else {
        Some(name)
    }
}

/// The strategy, or nothing where none is named.
pub open spec fn strategy_or_none(client_order_id: Seq<char>) -> Seq<char> {
    match strategy_in(client_order_id) {
        Some(s) => s,
        None => Seq::empty(),
    }
}

/// Whether a character can stand behind the strategy in an order's identifier.
pub open spec fn is_tail_char(c: char) -> bool {
    text::is_digit(c) || c == '-' || ('A' <= c && c <= 'Z')
}

/// Whether an identifier ends as an order's does from a dash on: with a number, and behind it only
/// numbers, capital letters and dashes.
pub open spec fn ends_from(client_order_id: Seq<char>, i: int) -> bool {
    &&& 0 <= i && i + 1 < client_order_id.len()
    &&& client_order_id[i] == '-' && text::is_digit(client_order_id[i + 1])
    &&& forall|j: int| i < j < client_order_id.len() ==> is_tail_char(#[trigger] client_order_id[j])
}

/// The strategy of a client order identifier that was made here. Behind the strategy it goes on as
/// an order's identifier does; where it is as long as an exchange takes, the cut may have left
/// nothing behind the name, or the dash alone. Any other identifier counts as made elsewhere, also
/// one that was cut inside a name with dashes: nothing tells it from a foreign one.
pub open spec fn own_strategy(client_order_id: Seq<char>) -> Option<Seq<char>> {
    if (exists|i: int| ends_from(client_order_id, i)) || (utf8::encode_utf8(client_order_id).len() == MAX_LEN
        && text::before(client_order_id, '-').len() + 1 >= client_order_id.len()) {
        strategy_in(client_order_id)
    } else {
        None
    }
}

/// An identifier that fits is kept as it is.
pub proof fn short_id_is_kept(internal_id: Seq<char>)
    requires
        utf8::encode_utf8(internal_id).len() <= MAX_LEN,
    ensures
        client_id(internal_id) == Some(internal_id),
{
}

/// A client order identifier is never longer than the exchange takes.
pub proof fn client_id_fits(internal_id: Seq<char>)
    ensures
        client_id(internal_id) matches Some(c) ==> utf8::encode_utf8(c).len() <= MAX_LEN,
{
    if client_id(internal_id) is Some {
        assert(Seq::<char>::empty() + internal_id =~= internal_id);
        text::cut_keeps_beginning(Seq::empty(), internal_id, MAX_LEN as nat);
    }
}

/// The strategy whose name starts an order's identifier is read back from the client order
/// identifier, whether that was cut or not: the name has to fit, and must not hold a dash.
pub proof fn strategy_reads_back(strategy: Seq<char>, rest: Seq<char>)
    requires
        strategy.len() > 0,
        !strategy.contains('-'),
        rest.len() == 0 || rest[0] == '-',
        utf8::encode_utf8(strategy).len() <= MAX_LEN,
        client_id(strategy + rest) is Some,
    ensures
        strategy_in(client_id(strategy + rest)->0) == Some(strategy),
{
    text::cut_keeps_beginning(strategy, rest, MAX_LEN as nat);
    let c = client_id(strategy + rest)->0;
    let kept = rest.take(c.len() - strategy.len());
    assert(c =~= strategy + kept);
    text::before_of_plain(strategy, kept, '-');
}

/// The strategy of an order that the order manager has named is read back from the client order
/// identifier.
pub proof fn order_strategy_reads_back(strategy: Seq<char>, timestamp_ms: i64, exchange: Exchange, seq: u32)
    requires
        strategy.len() > 0,
        !strategy.contains('-'),
        utf8::encode_utf8(strategy).len() <= MAX_LEN,
        client_id(order::order_id(strategy, timestamp_ms, exchange, seq)) is Some,
    ensures
        strategy_in(client_id(order::order_id(strategy, timestamp_ms, exchange, seq))->0) == Some(strategy),
{
    let rest = seq!['-'] + text::signed_digits(timestamp_ms as int) + seq!['-'] + exchange.code() + seq!['-']
        + text::digits(seq as nat);
    assert(order::order_id(strategy, timestamp_ms, exchange, seq) =~= strategy + rest);
    strategy_reads_back(strategy, rest);
}

/// An identifier without a dash was not made here, unless it may have been cut.
pub proof fn plain_id_is_foreign(client_order_id: Seq<char>)
    requires
        !client_order_id.contains('-'),
        utf8::encode_utf8(client_order_id).len() != MAX_LEN,
    ensures
        own_strategy(client_order_id) is None,
{
}

/// Behind its strategy an order's identifier goes on as one.
proof fn order_id_has_tail(strategy: Seq<char>, timestamp_ms: i64, exchange: Exchange, seq: u32)
    requires
        timestamp_ms >= 0,
    ensures
        ends_from(order::order_id(strategy, timestamp_ms, exchange, seq), strategy.len() as int),
{
    let id = order::order_id(strategy, timestamp_ms, exchange, seq);
    let time = text::digits(timestamp_ms as nat);
    let code = exchange.code();
    let count = text::digits(seq as nat);
    text::digits_are_digits(timestamp_ms as nat);
    text::digits_are_digits(seq as nat);
    reveal_strlit("BN");
    reveal_strlit("BY");
    reveal_strlit("GT");
    reveal_strlit("AS");
    reveal_strlit("OK");
    let n = strategy.len() as int;
    let a = n + 1 + time.len();
    let b = a + 1 + code.len();
    assert(id[n] == '-');
    assert(id[n + 1] == time[0]);
    assert forall|j: int| n < j < id.len() implies is_tail_char(#[trigger] id[j]) by {
        if j < a {
            assert(id[j] == time[j - n - 1]);
        } else if j == a || j == b {
            assert(id[j] == '-');
        } else if j < b {
            assert(id[j] == code[j - a - 1]);
        } else {
            assert(id[j] == count[j - b - 1]);
        }
    }
}

/// The order manager's own identifiers are told from foreign ones, also where they were cut: what
/// they name as their strategy is read back. Where the strategy's name holds a dash, a digit of the
/// time has to be left.
pub proof fn own_order_is_known(strategy: Seq<char>, timestamp_ms: i64, exchange: Exchange, seq: u32)
    requires
        timestamp_ms >= 0,
        !strategy.contains('-') || utf8::encode_utf8(strategy).len() + 2 <= MAX_LEN,
        client_id(order::order_id(strategy, timestamp_ms, exchange, seq)) is Some,
    ensures
        own_strategy(client_id(order::order_id(strategy, timestamp_ms, exchange, seq))->0) == strategy_in(
            client_id(order::order_id(strategy, timestamp_ms, exchange, seq))->0,
        ),
{
    let id = order::order_id(strategy, timestamp_ms, exchange, seq);
    let n = strategy.len() as int;
    order_id_has_tail(strategy, timestamp_ms, exchange, seq);
    let c = client_id(id)->0;
    assert(Seq::<char>::empty() + id =~= id);
    text::cut_keeps_beginning(Seq::empty(), id, MAX_LEN as nat);
    assert(id.take(n) =~= strategy);
    let tail = id.subrange(n, n + 2);
    assert(strategy + tail =~= id.take(n + 2));
    text::bytes_of_concat(strategy, tail);
    assert(utf8::is_ascii_chars(tail));
    utf8::is_ascii_chars_encode_utf8(tail);
    if c.len() >= n + 2 {
        assert(ends_from(c, n));
    } else {
        if utf8::encode_utf8(strategy).len() + 2 <= MAX_LEN {
            assert(id.take(n + 2) + id.skip(n + 2) =~= id);
            text::cut_keeps_beginning(id.take(n + 2), id.skip(n + 2), MAX_LEN as nat);
        }
        assert(c.len() < id.len());
        if c.len() <= n {
            assert(c =~= strategy.take(c.len() as int));
            assert forall|x: char| c.contains(x) implies strategy.contains(x) by {
                let k = choose|k: int| 0 <= k < c.len() && c[k] == x;
                assert(strategy[k] == x);
            }
            text::before_of_plain(c, Seq::empty(), '-');
            assert(c + Seq::<char>::empty() =~= c);
        } else {
            text::before_of_plain(strategy, seq!['-'], '-');
            assert(c =~= strategy + seq!['-']);
        }
    }
}

/// The strategy of the order manager's own order is read back, wherever its name fits and holds no
/// dash.
pub proof fn own_strategy_reads_back(strategy: Seq<char>, timestamp_ms: i64, exchange: Exchange, seq: u32)
    requires
        strategy.len() > 0,
        !strategy.contains('-'),
        timestamp_ms >= 0,
        utf8::encode_utf8(strategy).len() <= MAX_LEN,
        client_id(order::order_id(strategy, timestamp_ms, exchange, seq)) is Some,
    ensures
        own_strategy(client_id(order::order_id(strategy, timestamp_ms, exchange, seq))->0) == Some(strategy),
{
    own_order_is_known(strategy, timestamp_ms, exchange, seq);
    order_strategy_reads_back(strategy, timestamp_ms, exchange, seq);
}

/// Identifiers of ASCII characters can always be cut.
pub proof fn ascii_id_is_cut(internal_id: Seq<char>)
    requires
        utf8::is_ascii_chars(internal_id),
    ensures
        client_id(internal_id) == Some(
            if internal_id.len() <= MAX_LEN {
                internal_id
            } else {
                internal_id.take(MAX_LEN as int)
            },
        ),
{
    utf8::is_ascii_chars_encode_utf8(internal_id);
    if internal_id.len() > MAX_LEN {
        let bytes = utf8::encode_utf8(internal_id);
        let head = internal_id.take(MAX_LEN as int);
        let tail = internal_id.skip(MAX_LEN as int);
        assert(head + tail =~= internal_id);
        text::bytes_of_concat(head, tail);
        utf8::is_ascii_chars_encode_utf8(head);
        assert(bytes.subrange(0, MAX_LEN as int) =~= utf8::encode_utf8(head));
        utf8::encode_utf8_valid_utf8(internal_id);
        assert(bytes[MAX_LEN as int] == internal_id[MAX_LEN as int] as u8);
        assert(!utf8::is_continuation_byte(bytes[MAX_LEN as int]));
        utf8::is_char_boundary_iff_not_is_continuation_byte(bytes, MAX_LEN as int);
        utf8::encode_utf8_decode_utf8(head);
    }
}

pub fn encode_id(internal_id: &str) -> (r: Option<String>)
    ensures
        match r {
            Some(s) => client_id(internal_id@) == Some(s@),
            None => client_id(internal_id@) is None,
        },
{
    text::cut(internal_id, MAX_LEN)
}

pub fn decode_strategy(client_order_id: &str) -> (r: Option<String>)
    ensures
        match r {
            Some(s) => strategy_in(client_order_id@) == Some(s@),
            None => strategy_in(client_order_id@) is None,
        },
{
    let name = text::first_piece(client_order_id, '-');
    if name.as_str().is_empty() {
        None
    } else {
        Some(name)
    }
}

fn ends_as_order(client_order_id: &str) -> (r: bool)
    ensures
        r == exists|i: int| ends_from(client_order_id@, i),
{
    let chars = text::to_chars(client_order_id);
    let n: usize = chars.len();
    let mut i: usize = n;
    while i > 0
        invariant
            i <= n,
            n == chars@.len(),
            chars@ == client_order_id@,
            forall|j: int| i <= j < n ==> is_tail_char(#[trigger] chars@[j]),
            forall|k: int| i <= k ==> !ends_from(chars@, k),
        decreases i,
    {
        let c = chars[i - 1];
        if c == '-' && i < n && '0' <= chars[i] && chars[i] <= '9' {
            assert(ends_from(client_order_id@, i - 1));
            return true;
        }
        if !(c == '-' || ('0' <= c && c <= '9') || ('A' <= c && c <= 'Z')) {
            assert forall|k: int| !ends_from(chars@, k) by {
                assert(!is_tail_char(chars@[i - 1]));
            }
            return false;
        }
        i = i - 1;
    }
    false
}

/// The strategy of a client order identifier that was made here.
pub fn decode_own_strategy(client_order_id: &str) -> (r: Option<String>)
    ensures
        match r {
            Some(s) => own_strategy(client_order_id@) == Some(s@),
            None => own_strategy(client_order_id@) is None,
        },
{
    let named: usize = text::to_chars(text::first_piece(client_order_id, '-').as_str()).len();
    let length: usize = text::to_chars(client_order_id).len();
    if ends_as_order(client_order_id) || (client_order_id.as_bytes().len() == MAX_LEN && (named >= length || length
        - named <= 1)) {
        decode_strategy(client_order_id)
    } else {
        None
    }
}

pub fn decode_strategy_or_none(client_order_id: &str) -> (r: String)
    ensures
        r@ == strategy_or_none(client_order_id@),
{
    match decode_strategy(client_order_id) {
        Some(s) => s,
        None => String::new(),
    }
}

} // verus!
