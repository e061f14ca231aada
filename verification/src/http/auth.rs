use vstd::prelude::*;
use vstd::string::*;
use vstd::utf8;

use crate::errors::ClientError;
use crate::table::Table;
use crate::text;
use crate::text::{concat, concat3, number, same};

verus! {

/// The methods of requests.
#[derive(Clone, Copy, Debug, PartialEq, Eq, Structural)]
pub enum Method {
    Get,
    Post,
    Put,
    Delete,
    Other,
}

/// The parts of a request that signing reads and changes.
#[derive(Debug)]
pub struct RequestParts {
    pub method: Method,
    /// The query, without the question mark.
    pub query: Option<String>,
    /// The headers, by their names in lower case.
    pub headers: Table<String, String>,
    pub body: Option<Vec<u8>>,
}

/// The text of a query; empty without one.
pub open spec fn query_text(query: Option<String>) -> Seq<char> {
    match query {
        Some(q) => q@,
        None => Seq::empty(),
    }
}

/// Names and values as plain texts.
pub open spec fn pair_views(pairs: Seq<(String, String)>) -> Seq<(Seq<char>, Seq<char>)> {
    pairs.map_values(|p: (String, String)| (p.0@, p.1@))
}

/// Characters that stand for themselves in a form.
pub open spec fn plain_char(c: char) -> bool {
    ||| '0' <= c && c <= '9'
    ||| 'A' <= c && c <= 'Z'
    ||| 'a' <= c && c <= 'z'
    ||| c == '*'
    ||| c == '-'
    ||| c == '.'
    ||| c == '_'
}

/// A text that stands for itself in a form.
pub open spec fn plain(s: Seq<char>) -> bool {
    forall|i: int| 0 <= i < s.len() ==> plain_char(#[trigger] s[i])
}

/// Whether a text can be the value of a header: tabs and what is not a control character.
pub open spec fn header_value(s: Seq<char>) -> bool {
    forall|i: int| 0 <= i < s.len() ==> ((#[trigger] s[i]) as u32 >= 32 && s[i] as u32 != 127) || s[i] == '\t'
}

/// The character of a hexadecimal digit.
pub open spec fn hex_digit(d: int) -> char {
    if d < 10 {
        (48 + d) as char
    } else {
        (87 + d) as char
    }
}

/// Two hexadecimal digits for each byte, letters in lower case.
pub open spec fn hex_text(b: Seq<u8>) -> Seq<char> {
    Seq::new(
        2 * b.len(),
        |i: int| if i % 2 == 0 { hex_digit(b[i / 2] as int / 16) } else { hex_digit(b[i / 2] as int % 16) },
    )
}

/// The names and values that the form parser of `url` reads from a query.
pub uninterp spec fn form_pairs(query: Seq<char>) -> Seq<(Seq<char>, Seq<char>)>;

/// How the form serializer of `url` writes a name or a value.
pub uninterp spec fn form_component(s: Seq<char>) -> Seq<char>;

/// The HMAC-SHA256 of a message under a key.
pub uninterp spec fn hmac_sha256(key: Seq<u8>, message: Seq<u8>) -> Seq<u8>;

/// The standard Base64 form of bytes, with padding.
pub uninterp spec fn base64_text(b: Seq<u8>) -> Seq<char>;

/// What a text becomes as the name of a header; `None` where it cannot be one.
pub uninterp spec fn header_name(s: Seq<char>) -> Option<Seq<char>>;

/// The text of bytes, with a replacement character for what is not UTF-8.
pub uninterp spec fn lossy_text(b: Seq<u8>) -> Seq<char>;

/// Calls `url::form_urlencoded::parse`. An empty query has no pairs; what is read from any other is
/// left to the name.
#[verifier::external_body]
fn outside_form_parse(query: &str) -> (r: Vec<(String, String)>)
    ensures
        pair_views(r@) == form_pairs(query@),
        query@.len() == 0 ==> r@.len() == 0,
{
    url::form_urlencoded::parse(query.as_bytes()).into_owned().collect()
}

/// Calls `append_pair` of a `url::form_urlencoded::Serializer` that was made on what is written so
/// far. It writes a name, an equals sign and a value, behind an ampersand unless it is the first
/// pair. Letters, digits and `*-._` stand for themselves. What it wrote is read back by
/// `url::form_urlencoded::parse` as one more pair.
#[verifier::external_body]
fn outside_form_append(so_far: String, name: &str, value: &str) -> (r: String)
    ensures
        r@ == so_far@ + separator(so_far@) + form_component(name@) + seq!['='] + form_component(value@),
        plain(name@) && plain(value@) ==> r@ == so_far@ + separator(so_far@) + name@ + seq!['='] + value@,
        form_pairs(r@) == form_pairs(so_far@).push((name@, value@)),
{
    url::form_urlencoded::Serializer::new(so_far).append_pair(name, value).finish()
}

/// What stands between two pairs.
pub open spec fn separator(so_far: Seq<char>) -> Seq<char> {
    if so_far.len() == 0 {
        Seq::empty()
    } else {
        seq!['&']
    }
}

/// Calls `hmac::Hmac::<sha2::Sha256>`: `new_from_slice`, which accepts a key of any length,
/// `update` and `finalize`. The digest has 32 bytes; which ones is left to the name.
#[verifier::external_body]
fn outside_hmac(key: &[u8], message: &[u8]) -> (r: Vec<u8>)
    ensures
        r@ == hmac_sha256(key@, message@),
        r@.len() == 32,
{
    let mut mac = <hmac::Hmac<sha2::Sha256> as hmac::Mac>::new_from_slice(key).expect("any key length is accepted");
    hmac::Mac::update(&mut mac, message);
    hmac::Mac::finalize(mac).into_bytes().to_vec()
}

/// Calls `hex::encode`, documented as two lower-case hexadecimal digits for each byte.
#[verifier::external_body]
fn outside_hex(b: &Vec<u8>) -> (r: String)
    ensures
        r@ == hex_text(b@),
{
    hex::encode(b)
}

/// Calls `encode` of `base64`'s standard engine. The form is left to the name.
#[verifier::external_body]
fn outside_base64(b: &[u8]) -> (r: String)
    ensures
        r@ == base64_text(b@),
{
    base64::Engine::encode(&base64::engine::general_purpose::STANDARD, b)
}

/// Calls `http::HeaderValue::from_str`, which accepts a text without control characters other than
/// tabs.
#[verifier::external_body]
fn outside_is_header_value(s: &str) -> (r: bool)
    ensures
        r == header_value(s@),
{
    http::HeaderValue::from_str(s).is_ok()
}

/// Calls `http::HeaderName::from_bytes`. Which texts it accepts and how it writes them is left to
/// the name.
#[verifier::external_body]
fn outside_header_name(s: &str) -> (r: Option<String>)
    ensures
        match r {
            Some(name) => header_name(s@) == Some(name@),
            None => header_name(s@) is None,
        },
{
    match http::HeaderName::from_bytes(s.as_bytes()) {
        Ok(name) => Some(name.as_str().to_string()),
        Err(_) => None,
    }
}

/// Calls `String::from_utf8_lossy`. The text is left to the name.
#[verifier::external_body]
fn outside_lossy(b: &[u8]) -> (r: String)
    ensures
        r@ == lossy_text(b@),
{
    String::from_utf8_lossy(b).to_string()
}

/// Reads the clock through `std::time::SystemTime::duration_since`: the milliseconds since the
/// start of 1970, or nothing where the clock is before it. Which number depends on the clock.
#[verifier::external_body]
pub(crate) fn outside_epoch_millis() -> (r: Option<u64>) {
    match std::time::SystemTime::now().duration_since(std::time::UNIX_EPOCH) {
        Ok(elapsed) => Some(elapsed.as_millis() as u64),
        Err(_) => None,
    }
}

/// The signature of a message: the hexadecimal HMAC-SHA256.
pub open spec fn signature(secret: Seq<u8>, message: Seq<u8>) -> Seq<char> {
    hex_text(hmac_sha256(secret, message))
}

/// The signature of a text under a secret text.
pub open spec fn text_signature(secret: Seq<char>, message: Seq<char>) -> Seq<char> {
    signature(utf8::encode_utf8(secret), utf8::encode_utf8(message))
}

/// A signature has 64 characters, all of them plain.
pub proof fn signature_is_plain(b: Seq<u8>)
    ensures
        plain(hex_text(b)),
        hex_text(b).len() == 2 * b.len(),
{
    assert forall|i: int| 0 <= i < hex_text(b).len() implies plain_char(#[trigger] hex_text(b)[i]) by {
        let v = b[i / 2] as int;
        assert(0 <= v / 16 < 16 && 0 <= v % 16 < 16);
    }
}

/// The hexadecimal HMAC-SHA256 of a message.
pub fn hmac_sha256_hex(secret: &[u8], data: &[u8]) -> (r: String)
    ensures
        r@ == signature(secret@, data@),
        r@.len() == 64,
{
    let digest = outside_hmac(secret, data);
    proof {
        signature_is_plain(digest@);
    }
    outside_hex(&digest)
}

/// A name that signing sets itself, or that the caller wants dropped.
pub open spec fn is_stale_name(name: Seq<char>, strip: Seq<Seq<char>>) -> bool {
    name == "timestamp"@ || name == "signature"@ || name == "recvWindow"@ || strip.contains(name)
}

/// The pairs that signing keeps.
pub open spec fn kept_pairs(pairs: Seq<(Seq<char>, Seq<char>)>, strip: Seq<Seq<char>>) -> Seq<(Seq<char>, Seq<char>)> {
    pairs.filter(|p: (Seq<char>, Seq<char>)| !is_stale_name(p.0, strip))
}

/// The pairs that are signed: those that are kept, the time, the window and the extra ones.
pub open spec fn signed_pairs(
    pairs: Seq<(Seq<char>, Seq<char>)>,
    strip: Seq<Seq<char>>,
    now_ms: u64,
    recv_window_ms: u64,
    extra: Seq<(Seq<char>, Seq<char>)>,
) -> Seq<(Seq<char>, Seq<char>)> {
    kept_pairs(pairs, strip) + seq![
        ("timestamp"@, text::digits(now_ms as nat)),
        ("recvWindow"@, text::digits(recv_window_ms as nat)),
    ] + extra
}

/// Pairs as a form.
pub open spec fn form_text(pairs: Seq<(Seq<char>, Seq<char>)>) -> Seq<char>
    decreases pairs.len(),
{
    if pairs.len() == 0 {
        Seq::empty()
    } else {
        let front = form_text(pairs.drop_last());
        front + separator(front) + form_component(pairs.last().0) + seq!['='] + form_component(pairs.last().1)
    }
}

/// A query with its signature: the pairs as a form, and the signature of that form behind them.
pub open spec fn signed_query(pairs: Seq<(Seq<char>, Seq<char>)>, secret: Seq<char>) -> Seq<char> {
    form_text(pairs) + "&signature="@ + text_signature(secret, form_text(pairs))
}

/// Texts of a slice of pairs.
pub open spec fn extra_views(extra: Seq<(&str, &str)>) -> Seq<(Seq<char>, Seq<char>)> {
    extra.map_values(|p: (&str, &str)| (p.0@, p.1@))
}

/// Texts of a slice.
pub open spec fn strip_views(strip: Seq<&str>) -> Seq<Seq<char>> {
    strip.map_values(|s: &str| s@)
}

fn is_stale(name: &str, strip: &[&str]) -> (r: bool)
    ensures
        r == is_stale_name(name@, strip_views(strip@)),
{
    if same(name, "timestamp") || same(name, "signature") || same(name, "recvWindow") {
        return true;
    }
    for i in 0..strip.len()
        invariant
            forall|j: int| 0 <= j < i ==> (#[trigger] strip@[j])@ != name@,
    {
        if same(strip[i], name) {
            assert(strip_views(strip@)[i as int] == name@);
            return true;
        }
    }
    proof {
        if strip_views(strip@).contains(name@) {
            let k = choose|k: int| 0 <= k < strip_views(strip@).len() && strip_views(strip@)[k] == name@;
            assert(strip@[k]@ == name@);
        }
    }
    false
}

/// Writes pairs as a form, which reads back as the same pairs.
fn form_encode(pairs: &Vec<(String, String)>) -> (r: String)
    ensures
        r@ == form_text(pair_views(pairs@)),
        form_pairs(r@) == pair_views(pairs@),
{
    let mut out: String = String::new();
    let none = outside_form_parse(out.as_str());
    assert(form_pairs(out@) =~= Seq::<(Seq<char>, Seq<char>)>::empty());
    for i in 0..pairs.len()
        invariant
            out@ == form_text(pair_views(pairs@.take(i as int))),
            form_pairs(out@) == pair_views(pairs@.take(i as int)),
    {
        let ghost now = pair_views(pairs@.take(i + 1));
        assert(now.drop_last() =~= pair_views(pairs@.take(i as int)));
        assert(now.last() == (pairs@[i as int].0@, pairs@[i as int].1@));
        out = outside_form_append(out, pairs[i].0.as_str(), pairs[i].1.as_str());
        assert(now =~= pair_views(pairs@.take(i as int)).push(now.last()));
    }
    assert(pairs@.take(pairs@.len() as int) =~= pairs@);
    out
}

/// The pairs of a query that are signed.
fn pairs_to_sign(
    query: &str,
    now_ms: u64,
    recv_window_ms: u64,
    extra_params: &[(&str, &str)],
    strip_params: &[&str],
) -> (r: Vec<(String, String)>)
    ensures
        pair_views(r@) == signed_pairs(
            form_pairs(query@),
            strip_views(strip_params@),
            now_ms,
            recv_window_ms,
            extra_views(extra_params@),
        ),
{
    let parsed = outside_form_parse(query);
    let ghost strip = strip_views(strip_params@);
    let ghost keep = |p: (Seq<char>, Seq<char>)| !is_stale_name(p.0, strip);
    let mut pairs: Vec<(String, String)> = Vec::new();
    for i in 0..parsed.len()
        invariant
            strip == strip_views(strip_params@),
            keep == (|p: (Seq<char>, Seq<char>)| !is_stale_name(p.0, strip)),
            pair_views(pairs@) == pair_views(parsed@.take(i as int)).filter(keep),
    {
        let ghost now = pair_views(parsed@.take(i + 1));
        let ghost before = pairs@;
        proof {
            reveal(Seq::filter);
            assert(now.drop_last() =~= pair_views(parsed@.take(i as int)));
        }
        if !is_stale(parsed[i].0.as_str(), strip_params) {
            pairs.push((parsed[i].0.clone(), parsed[i].1.clone()));
            assert(pair_views(pairs@) =~= pair_views(before).push(now.last()));
        }
    }
    assert(parsed@.take(parsed@.len() as int) =~= parsed@);
    let ghost kept = pair_views(pairs@);
    pairs.push(("timestamp".to_owned(), number(now_ms)));
    pairs.push(("recvWindow".to_owned(), number(recv_window_ms)));
    let ghost base = kept + seq![
        ("timestamp"@, text::digits(now_ms as nat)),
        ("recvWindow"@, text::digits(recv_window_ms as nat)),
    ];
    assert(pair_views(pairs@) =~= base);
    for i in 0..extra_params.len()
        invariant
            pair_views(pairs@) == base + extra_views(extra_params@.take(i as int)),
    {
        let ghost before = pairs@;
        let (name, value) = extra_params[i];
        pairs.push((name.to_owned(), value.to_owned()));
        assert(extra_views(extra_params@.take(i + 1)) =~= extra_views(extra_params@.take(i as int)).push(
            (name@, value@),
        ));
        assert(pair_views(pairs@) =~= pair_views(before).push((name@, value@)));
        assert(pair_views(pairs@) =~= base + extra_views(extra_params@.take(i + 1)));
    }
    assert(extra_params@.take(extra_params@.len() as int) =~= extra_params@);
    pairs
}

/// What signing a request for Binance at a time comes to: the query is signed in any case, and the
/// API key goes into a header where it can.
pub open spec fn is_binance_signed_at(
    r: Result<(), ClientError>,
    before: RequestParts,
    after: RequestParts,
    api_key: Seq<char>,
    api_secret: Seq<char>,
    recv_window_ms: u64,
    extra: Seq<(Seq<char>, Seq<char>)>,
    strip: Seq<Seq<char>>,
    now_ms: u64,
) -> bool {
    let pairs = signed_pairs(form_pairs(query_text(before.query)), strip, now_ms, recv_window_ms, extra);
    &&& after.query is Some
    &&& query_text(after.query) == signed_query(pairs, api_secret)
    // The signed query reads back as the signed pairs and the signature.
    &&& form_pairs(query_text(after.query)) == pairs.push(
        ("signature"@, text_signature(api_secret, form_text(pairs))),
    )
    &&& after.method == before.method
    &&& after.body == before.body
    &&& r is Ok <==> header_value(api_key)
    &&& r is Ok ==> {
        &&& after.headers@.dom() == before.headers@.dom().insert("x-mbx-apikey"@)
        &&& after.headers@["x-mbx-apikey"@]@ == api_key
        &&& forall|h: Seq<char>|
            h != "x-mbx-apikey"@ && before.headers@.contains_key(h) ==> #[trigger] after.headers@[h] == before.headers@[h]
    }
    &&& r matches Err(e) ==> {
        &&& after.headers == before.headers
        &&& e matches ClientError::AuthError(m)
        &&& m@ == "API key contains invalid header characters"@
    }
}

/// Signs a request for Binance at a time: what an earlier signing set is dropped from the query,
/// time and window are added, and the signature comes last. The API key goes into a header; where
/// it cannot, the query is signed all the same and the error says so.
pub fn apply_binance_hmac_auth_at(
    request: &mut RequestParts,
    api_key: &str,
    api_secret: &str,
    recv_window_ms: u64,
    extra_params: &[(&str, &str)],
    strip_params: &[&str],
    now_ms: u64,
) -> (r: Result<(), ClientError>)
    ensures
        is_binance_signed_at(
            r,
            *old(request),
            *final(request),
            api_key@,
            api_secret@,
            recv_window_ms,
            extra_views(extra_params@),
            strip_views(strip_params@),
            now_ms,
        ),
{
    let empty: String = String::new();
    let query: &str = match &request.query {
        Some(q) => q.as_str(),
        None => empty.as_str(),
    };
    assert(query@ =~= query_text(old(request).query));
    let pairs = pairs_to_sign(query, now_ms, recv_window_ms, extra_params, strip_params);
    let to_sign = form_encode(&pairs);
    let sig = hmac_sha256_hex(api_secret.as_bytes(), to_sign.as_str().as_bytes());
    proof {
        signature_is_plain(hmac_sha256(utf8::encode_utf8(api_secret@), utf8::encode_utf8(to_sign@)));
        reveal_strlit("signature");
        reveal_strlit("&signature=");
        form_text_nonempty(pair_views(pairs@));
    }
    let ghost signed = to_sign@;
    let full = outside_form_append(to_sign, "signature", sig.as_str());
    assert(full@ =~= signed + "&signature="@ + sig@) by {
        assert("&signature="@ =~= seq!['&'] + "signature"@ + seq!['=']);
    }
    request.query = Some(full);
    if outside_is_header_value(api_key) {
        request.headers.insert("x-mbx-apikey".to_owned(), api_key.to_owned());
        Ok(())
    } else {
        Err(ClientError::AuthError("API key contains invalid header characters".to_owned()))
    }
}

/// A form of at least one pair is not empty.
proof fn form_text_nonempty(pairs: Seq<(Seq<char>, Seq<char>)>)
    requires
        pairs.len() > 0,
    ensures
        form_text(pairs).len() > 0,
{
    let front = form_text(pairs.drop_last());
}

/// What signing a request for Binance at the time that the clock shows comes to; nothing is changed
/// where the clock is before 1970.
pub open spec fn is_binance_signed(
    r: Result<(), ClientError>,
    before: RequestParts,
    after: RequestParts,
    api_key: Seq<char>,
    api_secret: Seq<char>,
    recv_window_ms: u64,
    extra: Seq<(Seq<char>, Seq<char>)>,
    strip: Seq<Seq<char>>,
) -> bool {
    ||| r matches Err(ClientError::AuthError(m)) && m@ == "system clock is before UNIX epoch"@ && after == before
    ||| exists|now_ms: u64| #[trigger]
        is_binance_signed_at(r, before, after, api_key, api_secret, recv_window_ms, extra, strip, now_ms)
}

/// Signs a request for Binance at the time that the clock shows: what `apply_binance_hmac_auth_at`
/// does for some time.
pub fn apply_binance_hmac_auth(
    request: &mut RequestParts,
    api_key: &str,
    api_secret: &str,
    recv_window_ms: u64,
    extra_params: &[(&str, &str)],
    strip_params: &[&str],
) -> (r: Result<(), ClientError>)
    ensures
        is_binance_signed(
            r,
            *old(request),
            *final(request),
            api_key@,
            api_secret@,
            recv_window_ms,
            extra_views(extra_params@),
            strip_views(strip_params@),
        ),
{
    match outside_epoch_millis() {
        Some(now_ms) => apply_binance_hmac_auth_at(
            request,
            api_key,
            api_secret,
            recv_window_ms,
            extra_params,
            strip_params,
            now_ms,
        ),
        None => Err(ClientError::AuthError("system clock is before UNIX epoch".to_owned())),
    }
}

/// A request that is signed again is signed as if it had never been: of what signing added before,
/// nothing is left. This holds where every extra name is one that is dropped.
pub proof fn signing_again_starts_afresh(
    pairs: Seq<(Seq<char>, Seq<char>)>,
    strip: Seq<Seq<char>>,
    now_ms: u64,
    recv_window_ms: u64,
    extra: Seq<(Seq<char>, Seq<char>)>,
    sig: Seq<char>,
)
    requires
        forall|i: int| 0 <= i < extra.len() ==> is_stale_name((#[trigger] extra[i]).0, strip),
    ensures
        kept_pairs(signed_pairs(pairs, strip, now_ms, recv_window_ms, extra).push(("signature"@, sig)), strip)
            == kept_pairs(pairs, strip),
{
    let keep = |p: (Seq<char>, Seq<char>)| !is_stale_name(p.0, strip);
    let kept = kept_pairs(pairs, strip);
    let times = seq![
        ("timestamp"@, text::digits(now_ms as nat)),
        ("recvWindow"@, text::digits(recv_window_ms as nat)),
    ];
    let tail = times + extra + seq![("signature"@, sig)];
    let all = signed_pairs(pairs, strip, now_ms, recv_window_ms, extra).push(("signature"@, sig));
    assert(all =~= kept + tail);
    filter_of_filtered(pairs, keep);
    drop_stale_tail(kept, tail, strip);
}

proof fn filter_of_filtered(pairs: Seq<(Seq<char>, Seq<char>)>, keep: spec_fn((Seq<char>, Seq<char>)) -> bool)
    ensures
        pairs.filter(keep).filter(keep) == pairs.filter(keep),
    decreases pairs.len(),
{
    reveal(Seq::filter);
    if pairs.len() > 0 {
        filter_of_filtered(pairs.drop_last(), keep);
        let front = pairs.drop_last().filter(keep);
        if keep(pairs.last()) {
            assert(front.push(pairs.last()).drop_last() =~= front);
        }
    }
}

proof fn drop_stale_tail(kept: Seq<(Seq<char>, Seq<char>)>, tail: Seq<(Seq<char>, Seq<char>)>, strip: Seq<Seq<char>>)
    requires
        forall|i: int| 0 <= i < tail.len() ==> is_stale_name((#[trigger] tail[i]).0, strip),
    ensures
        kept_pairs(kept + tail, strip) == kept_pairs(kept, strip),
    decreases tail.len(),
{
    reveal(Seq::filter);
    if tail.len() > 0 {
        let front = tail.drop_last();
        assert forall|i: int| 0 <= i < front.len() implies is_stale_name((#[trigger] front[i]).0, strip) by {
            assert(front[i] == tail[i]);
        }
        drop_stale_tail(kept, front, strip);
        assert((kept + tail).drop_last() =~= kept + front);
        assert((kept + tail).last() == tail[tail.len() - 1]);
    } else {
        assert(kept + tail =~= kept);
    }
}

/// What Bybit signs besides key, time and window: the query of a request that has no body, else
/// the body.
pub open spec fn bybit_payload(request: RequestParts) -> Seq<char> {
    if request.method == Method::Get || request.method == Method::Delete {
        query_text(request.query)
    } else {
        match request.body {
            Some(body) => lossy_text(body@),
            None => Seq::empty(),
        }
    }
}

/// What Bybit signs.
pub open spec fn bybit_message(api_key: Seq<char>, timestamp_ms: u64, recv_window_ms: u64, payload: Seq<char>) -> Seq<char> {
    text::digits(timestamp_ms as nat) + api_key + text::digits(recv_window_ms as nat) + payload
}

/// What signing a request for Bybit at a time comes to: key, time, window and signature are in
/// headers, and nothing else changes.
pub open spec fn is_bybit_signed(
    r: Result<(), ClientError>,
    before: RequestParts,
    after: RequestParts,
    api_key: Seq<char>,
    api_secret: Seq<char>,
    recv_window_ms: u64,
    timestamp_ms: u64,
) -> bool {
    &&& after.method == before.method
    &&& after.query == before.query
    &&& after.body == before.body
    &&& r is Ok <==> header_value(api_key)
    &&& r is Ok ==> ({
        let h = after.headers@;
        &&& h.dom() == before.headers@.dom().insert("x-bapi-api-key"@).insert("x-bapi-timestamp"@).insert(
            "x-bapi-recv-window"@,
        ).insert("x-bapi-sign"@)
        &&& h["x-bapi-api-key"@]@ == api_key
        &&& h["x-bapi-timestamp"@]@ == text::digits(timestamp_ms as nat)
        &&& h["x-bapi-recv-window"@]@ == text::digits(recv_window_ms as nat)
        &&& h["x-bapi-sign"@]@ == text_signature(
            api_secret,
            bybit_message(api_key, timestamp_ms, recv_window_ms, bybit_payload(before)),
        )
        &&& forall|n: Seq<char>|
            n != "x-bapi-api-key"@ && n != "x-bapi-timestamp"@ && n != "x-bapi-recv-window"@ && n != "x-bapi-sign"@
                && before.headers@.contains_key(n) ==> #[trigger] h[n] == before.headers@[n]
    })
    &&& r is Err ==> after.headers == before.headers && (r matches Err(ClientError::AuthError(m)) && m@
        == "Bybit auth header 'x-bapi-api-key' contains invalid characters"@)
}

/// Signs a request for Bybit at a time. Where the key cannot be a header, no header is set.
pub fn apply_bybit_hmac_auth(
    request: &mut RequestParts,
    api_key: &str,
    api_secret: &str,
    recv_window_ms: u64,
    timestamp_ms: u64,
) -> (r: Result<(), ClientError>)
    ensures
        is_bybit_signed(
            r,
            *old(request),
            *final(request),
            api_key@,
            api_secret@,
            recv_window_ms,
            timestamp_ms,
        ),
{
    let timestamp = number(timestamp_ms);
    let recv_window = number(recv_window_ms);
    let payload = if request.method == Method::Get || request.method == Method::Delete {
        match &request.query {
            Some(q) => q.clone(),
            None => String::new(),
        }
    } else {
        match &request.body {
            Some(body) => outside_lossy(body.as_slice()),
            None => String::new(),
        }
    };
    assert(payload@ =~= bybit_payload(*old(request)));
    let mut message = concat3(timestamp.as_str(), api_key, recv_window.as_str());
    message.append(payload.as_str());
    let sig = hmac_sha256_hex(api_secret.as_bytes(), message.as_str().as_bytes());
    if !outside_is_header_value(api_key) {
        return Err(
            ClientError::AuthError("Bybit auth header 'x-bapi-api-key' contains invalid characters".to_owned()),
        );
    }
    proof {
        reveal_strlit("x-bapi-api-key");
        reveal_strlit("x-bapi-timestamp");
        reveal_strlit("x-bapi-recv-window");
        reveal_strlit("x-bapi-sign");
        assert("x-bapi-api-key"@.len() == 14);
        assert("x-bapi-timestamp"@.len() == 16);
        assert("x-bapi-recv-window"@.len() == 18);
        assert("x-bapi-sign"@.len() == 11);
    }
    request.headers.insert("x-bapi-api-key".to_owned(), api_key.to_owned());
    request.headers.insert("x-bapi-timestamp".to_owned(), timestamp);
    request.headers.insert("x-bapi-recv-window".to_owned(), recv_window);
    request.headers.insert("x-bapi-sign".to_owned(), sig);
    assert(request.headers@.dom() =~= old(request).headers@.dom().insert("x-bapi-api-key"@).insert(
        "x-bapi-timestamp"@,
    ).insert("x-bapi-recv-window"@).insert("x-bapi-sign"@));
    Ok(())
}

/// The request with one header set and nothing else changed.
pub open spec fn with_header(before: RequestParts, after: RequestParts, name: Seq<char>, value: Seq<char>) -> bool {
    &&& after.method == before.method
    &&& after.query == before.query
    &&& after.body == before.body
    &&& after.headers@.dom() == before.headers@.dom().insert(name)
    &&& after.headers@[name]@ == value
    &&& forall|h: Seq<char>|
        h != name && before.headers@.contains_key(h) ==> #[trigger] after.headers@[h] == before.headers@[h]
}

/// A user name and a password.
#[derive(Debug)]
pub struct BasicAuth {
    username: String,
    password: Option<String>,
}

impl BasicAuth {
    pub closed spec fn user(&self) -> Seq<char> {
        self.username@
    }

    pub closed spec fn pass(&self) -> Seq<char> {
        query_text(self.password)
    }

    /// The header that goes with name and password.
    pub open spec fn header(&self) -> Seq<char> {
        "Basic "@ + base64_text(utf8::encode_utf8(self.user() + ":"@ + self.pass()))
    }

    pub fn new(username: String, password: Option<String>) -> (r: BasicAuth)
        ensures
            r.user() == username@,
            r.pass() == query_text(password),
    {
        BasicAuth { username, password }
    }

    /// Sets the authorization header.
    pub fn apply_auth(&self, request: &mut RequestParts) -> (r: Result<(), ClientError>)
        ensures
            r is Ok <==> header_value(self.header()),
            r is Ok ==> with_header(*old(request), *final(request), "authorization"@, self.header()),
            r is Err ==> *final(request) == *old(request) && (r matches Err(ClientError::AuthError(m)) && m@
                == "Basic Auth header contains invalid characters"@),
    {
        let empty: String = String::new();
        let password: &str = match &self.password {
            Some(p) => p.as_str(),
            None => empty.as_str(),
        };
        assert(password@ =~= self.pass());
        let credentials = concat3(self.username.as_str(), ":", password);
        let value = concat("Basic ", outside_base64(credentials.as_str().as_bytes()).as_str());
        if outside_is_header_value(value.as_str()) {
            request.headers.insert("authorization".to_owned(), value);
            Ok(())
        } else {
            Err(ClientError::AuthError("Basic Auth header contains invalid characters".to_owned()))
        }
    }
}

/// A token that whoever bears may use.
#[derive(Debug)]
pub struct BearerAuth {
    token: String,
}

impl BearerAuth {
    pub closed spec fn token(&self) -> Seq<char> {
        self.token@
    }

    pub fn new(token: String) -> (r: BearerAuth)
        ensures
            r.token() == token@,
    {
        BearerAuth { token }
    }

    /// Sets the authorization header.
    pub fn apply_auth(&self, request: &mut RequestParts) -> (r: Result<(), ClientError>)
        ensures
            r is Ok <==> header_value("Bearer "@ + self.token()),
            r is Ok ==> with_header(*old(request), *final(request), "authorization"@, "Bearer "@ + self.token()),
            r is Err ==> *final(request) == *old(request) && (r matches Err(ClientError::AuthError(m)) && m@
                == "Bearer token contains invalid header characters"@),
    {
        let value = concat("Bearer ", self.token.as_str());
        if outside_is_header_value(value.as_str()) {
            request.headers.insert("authorization".to_owned(), value);
            Ok(())
        } else {
            Err(ClientError::AuthError("Bearer token contains invalid header characters".to_owned()))
        }
    }
}

/// A key that goes into a header of its own.
#[derive(Debug)]
pub struct ApiKeyAuth {
    header_name: String,
    api_key: String,
}

impl ApiKeyAuth {
    pub closed spec fn name(&self) -> Seq<char> {
        self.header_name@
    }

    pub closed spec fn key(&self) -> Seq<char> {
        self.api_key@
    }

    pub fn new(header_name: String, api_key: String) -> (r: ApiKeyAuth)
        ensures
            r.name() == header_name@,
            r.key() == api_key@,
    {
        ApiKeyAuth { header_name, api_key }
    }

    /// Sets the header; a bad name is told before a bad value.
    pub fn apply_auth(&self, request: &mut RequestParts) -> (r: Result<(), ClientError>)
        ensures
            r is Ok <==> header_name(self.name()) is Some && header_value(self.key()),
            r is Ok ==> with_header(*old(request), *final(request), header_name(self.name())->0, self.key()),
            r is Err ==> *final(request) == *old(request) && (r matches Err(ClientError::AuthError(m)) && m@ == (
            if header_name(self.name()) is None {
                "Invalid API key header name: "@ + self.name()
            } else {
                "API key value contains invalid header characters"@
            })),
    {
        let name = match outside_header_name(self.header_name.as_str()) {
            Some(name) => name,
            None => return Err(
                ClientError::AuthError(concat("Invalid API key header name: ", self.header_name.as_str())),
            ),
        };
        if outside_is_header_value(self.api_key.as_str()) {
            request.headers.insert(name, self.api_key.clone());
            Ok(())
        } else {
            Err(ClientError::AuthError("API key value contains invalid header characters".to_owned()))
        }
    }
}

/// No authentication.
#[derive(Clone, Copy, Debug)]
pub struct NoAuth;

impl NoAuth {
    /// Leaves the request as it is.
    pub fn apply_auth(&self, request: &mut RequestParts) -> (r: Result<(), ClientError>)
        ensures
            r is Ok,
            *final(request) == *old(request),
    {
        Ok(())
    }
}

/// No authentication on a stream.
#[derive(Clone, Copy, Debug)]
pub struct NoWsAuth;

impl NoWsAuth {
    /// Nothing is sent once the stream is open.
    pub fn auth_message(&self) -> (r: Result<Option<String>, ClientError>)
        ensures
            r == Ok::<Option<String>, ClientError>(None),
    {
        Ok(None)
    }
}

} // verus!
