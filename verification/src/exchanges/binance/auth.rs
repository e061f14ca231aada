use vstd::prelude::*;

use crate::errors::ClientError;
use crate::http::auth;
use crate::http::auth::{apply_binance_hmac_auth, RequestParts};

verus! {

/// Signs requests for Binance.
#[derive(Debug)]
pub struct BinanceHmacAuth {
    api_key: String,
    api_secret: String,
    recv_window_ms: u64,
}

impl BinanceHmacAuth {
    pub closed spec fn key(&self) -> Seq<char> {
        self.api_key@
    }

    pub closed spec fn secret(&self) -> Seq<char> {
        self.api_secret@
    }

    /// For how many milliseconds a request is good.
    pub closed spec fn window(&self) -> u64 {
        self.recv_window_ms
    }

    /// Five seconds, unless set otherwise.
    pub fn new(api_key: String, api_secret: String) -> (r: BinanceHmacAuth)
        ensures
            r.key() == api_key@,
            r.secret() == api_secret@,
            r.window() == 5_000,
    {
        BinanceHmacAuth { api_key, api_secret, recv_window_ms: 5_000 }
    }

    pub fn with_recv_window_ms(self, recv_window_ms: u64) -> (r: BinanceHmacAuth)
        ensures
            r.key() == self.key(),
            r.secret() == self.secret(),
            r.window() == recv_window_ms,
    {
        BinanceHmacAuth { api_key: self.api_key, api_secret: self.api_secret, recv_window_ms }
    }

    /// Signs a request.
    pub fn apply_auth(&self, request: &mut RequestParts) -> (r: Result<(), ClientError>)
        ensures
            auth::is_binance_signed(
                r,
                *old(request),
                *final(request),
                self.key(),
                self.secret(),
                self.window(),
                Seq::empty(),
                Seq::empty(),
            ),
    {
        let extra: Vec<(&str, &str)> = Vec::new();
        let strip: Vec<&str> = Vec::new();
        proof {
            assert(auth::extra_views(extra@) =~= Seq::empty());
            assert(auth::strip_views(strip@) =~= Seq::empty());
        }
        apply_binance_hmac_auth(
            request,
            self.api_key.as_str(),
            self.api_secret.as_str(),
            self.recv_window_ms,
            extra.as_slice(),
            strip.as_slice(),
        )
    }
}

} // verus!
