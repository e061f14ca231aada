use vstd::prelude::*;
use vstd::string::*;

use crate::kinds::Exchange;

verus! {

/// What a service offers: a stream of events or answers to commands.
#[derive(Clone, Copy, Debug, PartialEq, Eq, Structural)]
pub enum ServiceType {
    Pub,
    Router,
}

impl ServiceType {
    pub open spec fn text(self) -> Seq<char> {
        match self {
            ServiceType::Pub => "pub"@,
            ServiceType::Router => "router"@,
        }
    }

    pub fn as_str(&self) -> (r: &'static str)
        ensures
            r@ == self.text(),
    {
        match self {
            ServiceType::Pub => "pub",
            ServiceType::Router => "router",
        }
    }
}

/// The key under which the address of a service is found.
pub open spec fn service_key(exchange: Exchange, service_type: ServiceType) -> Seq<char> {
    "discovery:"@ + exchange.text() + ":"@ + service_type.text()
}

/// The key under which the address of a service is found.
pub fn build_key(exchange: Exchange, service_type: ServiceType) -> (r: String)
    ensures
        r@ == service_key(exchange, service_type),
{
    let mut out: String = "discovery:".to_owned();
    out.append(exchange.to_string().as_str());
    out.append(":");
    out.append(service_type.as_str());
    out
}

/// The key under which the address of a strategy is found.
pub open spec fn strategy_key(strategy_id: Seq<char>) -> Seq<char> {
    "discovery:strategy:"@ + strategy_id
}

/// The key under which the address of a strategy is found.
pub fn build_strategy_key(strategy_id: &str) -> (r: String)
    ensures
        r@ == strategy_key(strategy_id@),
{
    let mut out: String = "discovery:strategy:".to_owned();
    out.append(strategy_id);
    out
}

/// Seconds between two renewals of an entry: a third of its lifetime.
pub fn heartbeat_interval(ttl_secs: u64) -> (r: u64)
    ensures
        r == ttl_secs / 3,
        3 * r <= ttl_secs,
{
    ttl_secs / 3
}

/// Services of one exchange have different keys.
pub proof fn service_keys_differ(exchange: Exchange)
    ensures
        service_key(exchange, ServiceType::Pub) != service_key(exchange, ServiceType::Router),
{
    reveal_strlit("pub");
    reveal_strlit("router");
    let a = service_key(exchange, ServiceType::Pub);
    let b = service_key(exchange, ServiceType::Router);
    assert(a.len() == "discovery:"@.len() + exchange.text().len() + ":"@.len() + 3);
    assert(b.len() == "discovery:"@.len() + exchange.text().len() + ":"@.len() + 6);
}

/// Two strategies have different keys.
pub proof fn strategy_keys_differ(a: Seq<char>, b: Seq<char>)
    requires
        a != b,
    ensures
        strategy_key(a) != strategy_key(b),
{
    let n = "discovery:strategy:"@.len() as int;
    if strategy_key(a) == strategy_key(b) {
        assert(strategy_key(a).subrange(n, strategy_key(a).len() as int) =~= a);
        assert(strategy_key(b).subrange(n, strategy_key(b).len() as int) =~= b);
    }
}

/// No strategy has the key of a service.
pub proof fn strategy_key_is_no_service_key(strategy_id: Seq<char>, exchange: Exchange, service_type: ServiceType)
    ensures
        strategy_key(strategy_id) != service_key(exchange, service_type),
{
    reveal_strlit("discovery:");
    reveal_strlit("discovery:strategy:");
    reveal_strlit("binance");
    reveal_strlit("bybit");
    reveal_strlit("gateio");
    reveal_strlit("aster");
    reveal_strlit("okx");
    assert(strategy_key(strategy_id)[10] == 's');
    assert(service_key(exchange, service_type)[10] == exchange.text()[0]);
}

} // verus!
