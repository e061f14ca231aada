use vstd::prelude::*;

use crate::errors::ClientError;
use crate::http::auth;
use crate::http::auth::{apply_bybit_hmac_auth, outside_epoch_millis, RequestParts};

verus! {

/// Signs requests for Bybit.
#[derive(Debug)]
pub struct BybitHmacAuth {
    api_key: String,
    api_secret: String,
    recv_window_ms: u64,
}

impl BybitHmacAuth {
    pub closed spec fn key(&self) -> Seq<char> {
        self.api_key@
    }

    pub closed spec fn secret(&self) -> Seq<char> {
        self.api_secret@
    }

    /// For how many milliseconds a request is good.
    pub closed spec fn window(&self) -> u64 {
        self.recv_window_ms
    }

    /// Five seconds, unless set otherwise.
    pub fn new(api_key: String, api_secret: String) -> (r: BybitHmacAuth)
        ensures
            r.key() == api_key@,
            r.secret() == api_secret@,
            r.window() == 5_000,
    {
        BybitHmacAuth { api_key, api_secret, recv_window_ms: 5_000 }
    }

    pub fn with_recv_window_ms(self, recv_window_ms: u64) -> (r: BybitHmacAuth)
        ensures
            r.key() == self.key(),
            r.secret() == self.secret(),
            r.window() == recv_window_ms,
    {
        BybitHmacAuth { api_key: self.api_key, api_secret: self.api_secret, recv_window_ms }
    }

    /// Whether a request was signed at a time.
    pub open spec fn signed_at(&self, r: Result<(), ClientError>, before: RequestParts, after: RequestParts, now_ms: u64) -> bool {
        auth::is_bybit_signed(r, before, after, self.key(), self.secret(), self.window(), now_ms)
    }

    /// Signs a request at the time that the clock shows.
    pub fn apply_auth(&self, request: &mut RequestParts) -> (r: Result<(), ClientError>)
        ensures
            (r matches Err(ClientError::AuthError(m)) && m@ == "system clock is before UNIX epoch"@ && *final(request)
                == *old(request)) || exists|now_ms: u64| #[trigger]
                self.signed_at(r, *old(request), *final(request), now_ms),
    {
        match outside_epoch_millis() {
            Some(now_ms) => {
                let r = apply_bybit_hmac_auth(
                    request,
                    self.api_key.as_str(),
                    self.api_secret.as_str(),
                    self.recv_window_ms,
                    now_ms,
                );
                assert(self.signed_at(r, *old(request), *request, now_ms));
                r
            },
            None => Err(ClientError::AuthError("system clock is before UNIX epoch".to_owned())),
        }
    }
}

} // verus!
