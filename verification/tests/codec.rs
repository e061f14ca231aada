use boldtrax::exchanges::aster::codec::AsterClientOrderIdCodec;
use boldtrax::exchanges::bybit::codec::BybitClientOrderIdCodec;
use boldtrax::exchanges::codec::{decode_own_strategy, decode_strategy, decode_strategy_or_none, encode_id, MAX_LEN};
use boldtrax::kinds::Exchange;
use boldtrax::manager::order::{make_order_id, ClientOrderIds};

fn codec() -> AsterClientOrderIdCodec {
    AsterClientOrderIdCodec
}

#[test]
fn round_trip_standard() {
    let c = codec();
    let internal_id = "funding_arb-1737410400000-AS-0";
    let encoded = c.encode(internal_id, "funding_arb");
    assert_eq!(encoded, internal_id);
    assert_eq!(c.decode_strategy_id(&encoded), Some("funding_arb".into()));
    assert_eq!(c.decode_internal_id(&encoded), internal_id);
}

#[test]
fn truncated_still_decodes_strategy() {
    let c = codec();
    let long_id = "very_long_strategy_name-1737410400000-AS-0";
    assert!(long_id.len() > 36);
    let encoded = c.encode(long_id, "very_long_strategy_name");
    assert_eq!(encoded.len(), 36);
    assert_eq!(c.decode_strategy_id(&encoded), Some("very_long_strategy_name".into()));
}

#[test]
fn encoded_length_within_limit() {
    let c = codec();
    let id = "a".repeat(100);
    assert!(c.encode(&id, "").len() <= MAX_LEN);
}

#[test]
fn identifier_of_an_order_names_its_strategy() {
    let id = make_order_id("funding_arb", 1737410400000, Exchange::Aster, 7);
    assert_eq!(id, "funding_arb-1737410400000-AS-7");
    let c = BybitClientOrderIdCodec;
    let encoded = c.encode(&id, "funding_arb");
    assert_eq!(encoded, id);
    assert_eq!(c.decode_strategy_id(&encoded), Some("funding_arb".to_string()));
    assert_eq!(c.decode_internal_id(&encoded), id);
}

#[test]
fn character_across_the_limit_cannot_be_cut() {
    let id = format!("{}é{}", "a".repeat(35), "b".repeat(10));
    assert_eq!(encode_id(&id), None);
    let fits = format!("{}é{}", "a".repeat(34), "b".repeat(10));
    assert_eq!(encode_id(&fits), Some(format!("{}é", "a".repeat(34))));
    assert_eq!(encode_id(""), Some(String::new()));
}

#[test]
fn nameless_identifier_has_no_strategy() {
    assert_eq!(decode_strategy("-1-AS-0"), None);
    assert_eq!(decode_strategy(""), None);
    assert_eq!(decode_strategy("web_order"), Some("web_order".to_string()));
    assert_eq!(decode_strategy_or_none("funding_arb-1-AS-0"), "funding_arb");
}

fn strategy_of<C: ClientOrderIds>(ids: &C, client_order_id: &str) -> Option<String> {
    ids.decode_strategy_id(client_order_id)
}

#[test]
fn identifier_made_elsewhere_has_no_strategy() {
    let uuid = "c0ffee00-1bcd-4eef-8abc-0123456789ab";
    assert_eq!(uuid.len(), MAX_LEN);
    for foreign in ["web_x9f3", "web-order", "-1-AS-0", "", "web-", "ios-3ab", uuid] {
        assert_eq!(strategy_of(&AsterClientOrderIdCodec, foreign), None);
        assert_eq!(strategy_of(&BybitClientOrderIdCodec, foreign), None);
    }
}

#[test]
fn own_identifier_names_its_strategy_even_where_it_was_cut() {
    let long = make_order_id("very_long_strategy_name", 1737410400000, Exchange::Aster, 0);
    let cut = encode_id(&long).unwrap();
    assert_eq!(cut, "very_long_strategy_name-173741040000");
    assert_eq!(strategy_of(&AsterClientOrderIdCodec, &cut), Some("very_long_strategy_name".to_string()));
    let short = make_order_id("arb", 1, Exchange::Bybit, 3);
    assert_eq!(strategy_of(&BybitClientOrderIdCodec, &short), Some("arb".to_string()));
    assert_eq!(decode_own_strategy("arb-1-BY-3"), Some("arb".to_string()));
}

#[test]
fn name_that_fills_the_identifier_is_read_back() {
    for length in [33, 34, 35, 36] {
        let strategy = "s".repeat(length);
        let encoded = encode_id(&make_order_id(&strategy, 1737410400000, Exchange::Bybit, 0)).unwrap();
        assert_eq!(encoded.len(), MAX_LEN);
        assert_eq!(strategy_of(&AsterClientOrderIdCodec, &encoded), Some(strategy.clone()));
        assert_eq!(strategy_of(&BybitClientOrderIdCodec, &encoded), Some(strategy));
    }
    let longer = encode_id(&make_order_id(&"s".repeat(50), 1737410400000, Exchange::Bybit, 0)).unwrap();
    assert_eq!(strategy_of(&BybitClientOrderIdCodec, &longer), Some("s".repeat(36)));
}

#[test]
fn own_identifier_is_known_by_its_end() {
    let dashed = make_order_id("spot-perp", 1737410400000, Exchange::Aster, 12);
    assert_eq!(strategy_of(&AsterClientOrderIdCodec, &dashed), Some("spot".to_string()));
    let cut = encode_id(&make_order_id("spot-perp-of-a-longer-name", 1737410400000, Exchange::Aster, 12)).unwrap();
    assert_eq!(strategy_of(&AsterClientOrderIdCodec, &cut), Some("spot".to_string()));
}
