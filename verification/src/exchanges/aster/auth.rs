use vstd::prelude::*;

use crate::errors::ClientError;
use crate::http::auth;
use crate::http::auth::{apply_binance_hmac_auth, outside_epoch_millis, RequestParts};
use crate::text;
use crate::text::number;

verus! {

/// Signs requests for Aster.
#[derive(Debug)]
pub struct AsterHmacAuth {
    api_key: String,
    api_secret: String,
    recv_window_ms: u64,
}

/// What is signed besides the request itself.
pub open spec fn extra_pairs(now_ms: u64, api_key: Seq<char>) -> Seq<(Seq<char>, Seq<char>)> {
    seq![("nonce"@, text::digits(now_ms as nat)), ("user"@, api_key), ("signer"@, api_key)]
}

/// What an earlier signing set.
pub open spec fn stale_names() -> Seq<Seq<char>> {
    seq!["nonce"@, "user"@, "signer"@]
}

impl AsterHmacAuth {
    pub closed spec fn key(&self) -> Seq<char> {
        self.api_key@
    }

    pub closed spec fn secret(&self) -> Seq<char> {
        self.api_secret@
    }

    /// For how many milliseconds a request is good.
    pub closed spec fn window(&self) -> u64 {
        self.recv_window_ms
    }

    /// Five seconds, unless set otherwise.
    pub fn new(api_key: String, api_secret: String) -> (r: AsterHmacAuth)
        ensures
            r.key() == api_key@,
            r.secret() == api_secret@,
            r.window() == 5_000,
    {
        AsterHmacAuth { api_key, api_secret, recv_window_ms: 5_000 }
    }

    pub fn with_recv_window_ms(self, recv_window_ms: u64) -> (r: AsterHmacAuth)
        ensures
            r.key() == self.key(),
            r.secret() == self.secret(),
            r.window() == recv_window_ms,
    {
        AsterHmacAuth { api_key: self.api_key, api_secret: self.api_secret, recv_window_ms }
    }

    /// Signs a request, with the time as a nonce.
    pub fn apply_auth(&self, request: &mut RequestParts) -> (r: Result<(), ClientError>)
        ensures
            match r {
                Err(ClientError::AuthError(m)) => m@ == "system clock is before UNIX epoch"@ && *final(request) == *old(
                    request) || self.signed_at_some_time(r, *old(request), *final(request)),
                _ => self.signed_at_some_time(r, *old(request), *final(request)),
            },
    {
        match outside_epoch_millis() {
            Some(now_ms) => self.apply_auth_at(request, now_ms),
            None => Err(ClientError::AuthError("system clock is before UNIX epoch".to_owned())),
        }
    }

    /// Whether a request was signed with some time as a nonce.
    pub open spec fn signed_at_some_time(&self, r: Result<(), ClientError>, before: RequestParts, after: RequestParts) -> bool {
        exists|now_ms: u64| #[trigger] self.signed_at(r, before, after, now_ms)
    }

    /// Whether a request was signed with a time as a nonce.
    pub open spec fn signed_at(&self, r: Result<(), ClientError>, before: RequestParts, after: RequestParts, now_ms: u64) -> bool {
        auth::is_binance_signed(
            r,
            before,
            after,
            self.key(),
            self.secret(),
            self.window(),
            extra_pairs(now_ms, self.key()),
            stale_names(),
        )
    }

    /// Signs a request with a given time as a nonce.
    pub fn apply_auth_at(&self, request: &mut RequestParts, now_ms: u64) -> (r: Result<(), ClientError>)
        ensures
            self.signed_at(r, *old(request), *final(request), now_ms),
    {
        let nonce = number(now_ms);
        let mut extra: Vec<(&str, &str)> = Vec::new();
        extra.push(("nonce", nonce.as_str()));
        extra.push(("user", self.api_key.as_str()));
        extra.push(("signer", self.api_key.as_str()));
        let mut strip: Vec<&str> = Vec::new();
        strip.push("nonce");
        strip.push("user");
        strip.push("signer");
        proof {
            assert(auth::extra_views(extra@) =~= extra_pairs(now_ms, self.key()));
            assert(auth::strip_views(strip@) =~= stale_names());
        }
        apply_binance_hmac_auth(
            request,
            self.api_key.as_str(),
            self.api_secret.as_str(),
            self.recv_window_ms,
            extra.as_slice(),
            strip.as_slice(),
        )
    }
}

} // verus!
