use vstd::prelude::*;

use crate::exchanges::codec;
use crate::exchanges::codec::{decode_own_strategy, decode_strategy, encode_id};
use crate::manager::order::ClientOrderIds;

verus! {

/// Client order identifiers for Aster: an order's own identifier, of which the exchange takes 36
/// bytes.
#[derive(Clone, Copy, Debug)]
pub struct AsterClientOrderIdCodec;

impl AsterClientOrderIdCodec {
    /// The client order identifier of an order.
    pub fn encode(&self, internal_id: &str, strategy_id: &str) -> (r: String)
        requires
            codec::client_id(internal_id@) is Some,
        ensures
            codec::client_id(internal_id@) == Some(r@),
    {
        encode_id(internal_id).unwrap()
    }

    /// The strategy that a client order identifier names.
    pub fn decode_strategy_id(&self, client_order_id: &str) -> (r: Option<String>)
        ensures
            match r {
                Some(s) => codec::strategy_in(client_order_id@) == Some(s@),
                None => codec::strategy_in(client_order_id@) is None,
            },
    {
        decode_strategy(client_order_id)
    }

    /// The order's own identifier, as far as the client order identifier tells it.
    pub fn decode_internal_id(&self, client_order_id: &str) -> (r: String)
        ensures
            r@ == client_order_id@,
    {
        client_order_id.to_owned()
    }
}

impl ClientOrderIds for AsterClientOrderIdCodec {
    open spec fn encoded(&self, internal_id: Seq<char>, strategy_id: Seq<char>) -> Option<Seq<char>> {
        codec::client_id(internal_id)
    }

    open spec fn decoded_strategy(&self, client_order_id: Seq<char>) -> Option<Seq<char>> {
        codec::own_strategy(client_order_id)
    }

    fn encode_client_order_id(&self, internal_id: &str, strategy_id: &str) -> (r: Option<String>) {
        encode_id(internal_id)
    }

    fn decode_strategy_id(&self, client_order_id: &str) -> (r: Option<String>) {
        decode_own_strategy(client_order_id)
    }
}

} // verus!
