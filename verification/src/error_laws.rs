use vstd::prelude::*;

use crate::errors::{AccountError, ClientError, MarketDataError, PriceError, TradingError};

verus! {

/// Whether a request failed on its way, so that it may be made again.
pub open spec fn failed_on_the_way(err: ClientError) -> bool {
    err is Timeout || err is Request || err is ServerError
}

/// Whether an answer came that cannot be read.
pub open spec fn cannot_be_read(err: ClientError) -> bool {
    err is Serialization || err is InvalidResponse
}

/// Whoever asks, a request that the exchange counts as one too many is told as such, one that
/// failed on its way as a fault of the network, and an answer that cannot be read as such.
pub proof fn failures_keep_their_kind(err: ClientError, m: MarketDataError, a: AccountError, p: PriceError, t: TradingError)
    requires
        m.is_from_client(err),
        a.is_from_client(err),
        p.is_from_client(err),
        t.is_from_client(err),
    ensures
        err is RateLimited <==> m is RateLimited,
        err is RateLimited <==> a is RateLimited,
        err is RateLimited <==> p is RateLimited,
        err is RateLimited <==> t is RateLimited,
        failed_on_the_way(err) <==> m is Network,
        failed_on_the_way(err) <==> a is Network,
        failed_on_the_way(err) <==> p is Network,
        failed_on_the_way(err) <==> t is Network,
        cannot_be_read(err) <==> m is Parse,
        cannot_be_read(err) <==> a is Parse,
        cannot_be_read(err) <==> p is Parse,
        cannot_be_read(err) <==> t is Parse,
        err is Unauthorized <==> a is Unauthorized,
{
}

/// What an account's request fails with, trading fails with, whichever way the error takes.
pub proof fn account_errors_pass_on(err: ClientError, a: AccountError, direct: TradingError, passed: TradingError)
    requires
        a.is_from_client(err),
        direct.is_from_client(err),
        passed.is_from_account(a),
    ensures
        direct.text() == passed.text(),
{
}

} // verus!
