use vstd::prelude::*;
use vstd::utf8;

use crate::errors::ClientError;
use crate::http::auth;
use crate::http::auth::{Method, RequestParts};
use crate::http::client;
use crate::http::client::Verdict;
use crate::text;

verus! {

/// Which statuses mean what: only an answer that was accepted is a success, whatever is refused or
/// failed is none.
pub proof fn status_means_one_thing(status: u16)
    ensures
        client::verdict(status) is Success <==> 200 <= status <= 202,
        client::verdict(status) is Unauthorized <==> status == 401 || status == 403,
        client::verdict(status) is RateLimited <==> status == 429,
        client::verdict(status) is Timeout <==> status == 408 || status == 504,
        client::verdict(status) is ServerError <==> 500 <= status <= 599 && status != 504,
        status >= 300 ==> !(client::verdict(status) is Success),
{
}

/// What a hexadecimal digit stands for.
pub open spec fn hex_value(c: char) -> int {
    if '0' <= c && c <= '9' {
        c as int - '0' as int
    } else {
        c as int - 'a' as int + 10
    }
}

/// Every byte reads back from its two digits, the one of sixteens first.
pub proof fn hex_reads_back(b: Seq<u8>, i: int)
    requires
        0 <= i < b.len(),
    ensures
        auth::hex_text(b).len() == 2 * b.len(),
        16 * hex_value(auth::hex_text(b)[2 * i]) + hex_value(auth::hex_text(b)[2 * i + 1]) == b[i],
{
    let v = b[i] as int;
    assert(0 <= v / 16 < 16 && 0 <= v % 16 < 16);
    assert((2 * i) / 2 == i && (2 * i + 1) / 2 == i);
    assert((2 * i) % 2 == 0 && (2 * i + 1) % 2 == 1);
}

/// Different bytes are written differently.
pub proof fn hex_tells_bytes_apart(a: Seq<u8>, b: Seq<u8>)
    requires
        auth::hex_text(a) == auth::hex_text(b),
    ensures
        a == b,
{
    assert(auth::hex_text(a).len() == 2 * a.len() && auth::hex_text(b).len() == 2 * b.len());
    assert forall|i: int| 0 <= i < a.len() implies a[i] == b[i] by {
        hex_reads_back(a, i);
        hex_reads_back(b, i);
    }
}

/// What Bybit signs starts with the time and ends with what is sent; key and window stand between
/// them, in this order.
pub proof fn bybit_message_starts_with_time(api_key: Seq<char>, timestamp_ms: u64, recv_window_ms: u64, payload: Seq<char>)
    ensures
        (text::digits(timestamp_ms as nat) + api_key).is_prefix_of(
            auth::bybit_message(api_key, timestamp_ms, recv_window_ms, payload),
        ),
        (text::digits(recv_window_ms as nat) + payload).is_suffix_of(
            auth::bybit_message(api_key, timestamp_ms, recv_window_ms, payload),
        ),
        auth::bybit_message(api_key, timestamp_ms, recv_window_ms, payload).len() == text::digits(
            timestamp_ms as nat,
        ).len() + api_key.len() + text::digits(recv_window_ms as nat).len() + payload.len(),
{
    let m = auth::bybit_message(api_key, timestamp_ms, recv_window_ms, payload);
    let head = text::digits(timestamp_ms as nat) + api_key;
    let tail = text::digits(recv_window_ms as nat) + payload;
    assert(m.subrange(0, head.len() as int) =~= head);
    assert(m.subrange(m.len() - tail.len(), m.len() as int) =~= tail);
}

/// A request for Bybit that is signed carries the signature of the very request: of its query where
/// it has no body, else of its body, with the time and the window that it carries too.
pub proof fn bybit_signature_is_of_the_request(
    before: RequestParts,
    after: RequestParts,
    api_key: Seq<char>,
    api_secret: Seq<char>,
    recv_window_ms: u64,
    timestamp_ms: u64,
    payload: Seq<char>,
)
    requires
        auth::is_bybit_signed(Ok(()), before, after, api_key, api_secret, recv_window_ms, timestamp_ms),
        before.method == Method::Get || before.method == Method::Delete ==> payload == auth::query_text(before.query),
        before.method != Method::Get && before.method != Method::Delete ==> (match before.body {
            Some(body) => payload == auth::lossy_text(body@),
            None => payload.len() == 0,
        }),
    ensures
        after.query == before.query,
        after.body == before.body,
        after.headers@["x-bapi-api-key"@]@ == api_key,
        text::unsigned(after.headers@["x-bapi-timestamp"@]@) == Some(timestamp_ms),
        text::unsigned(after.headers@["x-bapi-recv-window"@]@) == Some(recv_window_ms),
        after.headers@["x-bapi-sign"@]@ == auth::hex_text(
            auth::hmac_sha256(
                utf8::encode_utf8(api_secret),
                utf8::encode_utf8(
                    after.headers@["x-bapi-timestamp"@]@ + after.headers@["x-bapi-api-key"@]@
                        + after.headers@["x-bapi-recv-window"@]@ + payload,
                ),
            ),
        ),
{
    text::digits_read_back(timestamp_ms as nat);
    text::digits_read_back(recv_window_ms as nat);
    if payload.len() == 0 {
        assert(payload =~= Seq::<char>::empty());
    }
}

/// A request for Binance that is signed ends with the signature of all that stands before it, and
/// that reads back with the time and the window.
pub proof fn binance_signature_is_of_the_query(
    r: Result<(), ClientError>,
    before: RequestParts,
    after: RequestParts,
    api_key: Seq<char>,
    api_secret: Seq<char>,
    recv_window_ms: u64,
    extra: Seq<(Seq<char>, Seq<char>)>,
    strip: Seq<Seq<char>>,
    now_ms: u64,
)
    requires
        auth::is_binance_signed_at(
            r,
            before,
            after,
            api_key,
            api_secret,
            recv_window_ms,
            extra,
            strip,
            now_ms,
        ),
    ensures
        exists|sent: Seq<char>|
            auth::query_text(after.query) == #[trigger] (sent + "&signature="@) + auth::hex_text(
                auth::hmac_sha256(utf8::encode_utf8(api_secret), utf8::encode_utf8(sent)),
            ),
        auth::form_pairs(auth::query_text(after.query)).contains(("timestamp"@, text::digits(now_ms as nat))),
        auth::form_pairs(auth::query_text(after.query)).contains(("recvWindow"@, text::digits(recv_window_ms as nat))),
        after.method == before.method,
        after.body == before.body,
{
    let own = auth::form_pairs(auth::query_text(before.query));
    let pairs = auth::signed_pairs(own, strip, now_ms, recv_window_ms, extra);
    let sent = auth::form_text(pairs);
    assert(auth::query_text(after.query) == (sent + "&signature="@) + auth::hex_text(
        auth::hmac_sha256(utf8::encode_utf8(api_secret), utf8::encode_utf8(sent)),
    ));
    let all = auth::form_pairs(auth::query_text(after.query));
    let n = auth::kept_pairs(own, strip).len() as int;
    assert(pairs[n] == ("timestamp"@, text::digits(now_ms as nat)));
    assert(pairs[n + 1] == ("recvWindow"@, text::digits(recv_window_ms as nat)));
    assert(all[n] == pairs[n]);
    assert(all[n + 1] == pairs[n + 1]);
}

/// Signing keeps what the request asks for, in its order and before all that signing adds, and
/// keeps nothing under a name that signing sets itself or that is to be dropped.
pub proof fn signing_keeps_the_question(
    pairs: Seq<(Seq<char>, Seq<char>)>,
    strip: Seq<Seq<char>>,
    now_ms: u64,
    recv_window_ms: u64,
    extra: Seq<(Seq<char>, Seq<char>)>,
    p: (Seq<char>, Seq<char>),
)
    requires
        pairs.contains(p),
        p.0 != "timestamp"@,
        p.0 != "signature"@,
        p.0 != "recvWindow"@,
        !strip.contains(p.0),
    ensures
        auth::signed_pairs(pairs, strip, now_ms, recv_window_ms, extra).contains(p),
{
    let keep = |q: (Seq<char>, Seq<char>)| !auth::is_stale_name(q.0, strip);
    filter_keeps(pairs, keep, p);
    let kept = auth::kept_pairs(pairs, strip);
    let i = choose|i: int| 0 <= i < kept.len() && kept[i] == p;
    assert(auth::signed_pairs(pairs, strip, now_ms, recv_window_ms, extra)[i] == p);
}

proof fn filter_keeps(
    pairs: Seq<(Seq<char>, Seq<char>)>,
    keep: spec_fn((Seq<char>, Seq<char>)) -> bool,
    p: (Seq<char>, Seq<char>),
)
    requires
        pairs.contains(p),
        keep(p),
    ensures
        pairs.filter(keep).contains(p),
    decreases pairs.len(),
{
    reveal(Seq::filter);
    let front = pairs.drop_last();
    if pairs.last() == p {
        assert(pairs.filter(keep).last() == p);
    } else {
        let i = choose|i: int| 0 <= i < pairs.len() && pairs[i] == p;
        assert(front[i] == p);
        filter_keeps(front, keep, p);
        let j = choose|j: int| 0 <= j < front.filter(keep).len() && front.filter(keep)[j] == p;
        assert(pairs.filter(keep)[j] == p);
    }
}

} // verus!
