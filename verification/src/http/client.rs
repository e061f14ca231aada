use vstd::prelude::*;
use vstd::string::*;

use crate::errors::ClientError;
use crate::text;
use crate::text::concat;

verus! {

/// Settings of an HTTP client.
#[derive(Debug)]
pub struct HttpClientBuilder {
    base_url: String,
    timeout: u64,
    max_retries: u32,
}

impl HttpClientBuilder {
    pub closed spec fn base(&self) -> Seq<char> {
        self.base_url@
    }

    /// Seconds.
    pub closed spec fn timeout_secs(&self) -> u64 {
        self.timeout
    }

    pub closed spec fn retries(&self) -> u32 {
        self.max_retries
    }

    /// Thirty seconds and three retries, unless set otherwise.
    pub fn new(base_url: String) -> (r: HttpClientBuilder)
        ensures
            r.base() == base_url@,
            r.timeout_secs() == 30,
            r.retries() == 3,
    {
        HttpClientBuilder { base_url, timeout: 30, max_retries: 3 }
    }

    pub fn timeout(self, secs: u64) -> (r: HttpClientBuilder)
        ensures
            r.base() == self.base(),
            r.timeout_secs() == secs,
            r.retries() == self.retries(),
    {
        HttpClientBuilder { base_url: self.base_url, timeout: secs, max_retries: self.max_retries }
    }

    pub fn max_retries(self, retries: u32) -> (r: HttpClientBuilder)
        ensures
            r.base() == self.base(),
            r.timeout_secs() == self.timeout_secs(),
            r.retries() == retries,
    {
        HttpClientBuilder { base_url: self.base_url, timeout: self.timeout, max_retries: retries }
    }

    /// Base address, timeout in seconds and number of retries.
    pub fn settings(&self) -> (r: (&String, u64, u32))
        ensures
            r.0@ == self.base(),
            r.1 == self.timeout_secs(),
            r.2 == self.retries(),
    {
        (&self.base_url, self.timeout, self.max_retries)
    }

    /// The base address as a client writes it, or why no client can be made for it.
    pub fn base_address(&self) -> (r: Result<String, ClientError>)
        ensures
            match parsed_url(self.base()) {
                Ok(address) => r matches Ok(s) && s@ == address,
                Err(why) => r matches Err(ClientError::InvalidUrl(m)) && m@ == why,
            },
    {
        match outside_url_parse(self.base_url.as_str()) {
            Ok(address) => Ok(address),
            Err(why) => Err(ClientError::InvalidUrl(why)),
        }
    }
}

/// How `url` writes an address, or why it refuses it.
pub uninterp spec fn parsed_url(s: Seq<char>) -> Result<Seq<char>, Seq<char>>;

/// How `url` writes an address that is reached from another by a path, or why it cannot be.
pub uninterp spec fn joined_url(base: Seq<char>, path: Seq<char>) -> Result<Seq<char>, Seq<char>>;

/// How `http` writes a status: its number and what it stands for.
pub uninterp spec fn status_text(code: u16) -> Seq<char>;

/// How `serde_json` writes a document with indentation; `None` where a text is no document.
pub uninterp spec fn pretty_json(s: Seq<char>) -> Option<Seq<char>>;

/// The texts of a result.
pub open spec fn text_result(r: Result<String, String>) -> Result<Seq<char>, Seq<char>> {
    match r {
        Ok(s) => Ok(s@),
        Err(s) => Err(s@),
    }
}

/// The text of an option.
pub open spec fn text_option(r: Option<String>) -> Option<Seq<char>> {
    match r {
        Some(s) => Some(s@),
        None => None,
    }
}

/// Calls `url::Url::parse`. Which addresses it accepts and how it writes them is left to the name.
#[verifier::external_body]
fn outside_url_parse(s: &str) -> (r: Result<String, String>)
    ensures
        text_result(r) == parsed_url(s@),
{
    match url::Url::parse(s) {
        Ok(u) => Ok(u.to_string()),
        Err(e) => Err(e.to_string()),
    }
}

/// Calls `url::Url::join` on an address that `url::Url::parse` accepts. Where the path leads is
/// left to the name.
#[verifier::external_body]
fn outside_url_join(base: &str, path: &str) -> (r: Result<String, String>)
    requires
        parsed_url(base@) is Ok,
    ensures
        text_result(r) == joined_url(base@, path@),
{
    match url::Url::parse(base).and_then(|b| b.join(path)) {
        Ok(u) => Ok(u.to_string()),
        Err(e) => Err(e.to_string()),
    }
}

/// Calls `Display` of `http::StatusCode`, which writes the number first. What stands behind it is
/// left to the name.
#[verifier::external_body]
fn outside_status_text(code: u16) -> (r: String)
    requires
        100 <= code <= 999,
    ensures
        r@ == status_text(code),
        text::digits(code as nat).is_prefix_of(r@),
{
    http::StatusCode::from_u16(code).unwrap_or_default().to_string()
}

/// Calls `serde_json::from_str` for a document of any shape and `serde_json::to_string_pretty`.
/// What is written is left to the name.
#[verifier::external_body]
fn outside_pretty_json(s: &str) -> (r: Option<String>)
    ensures
        text_option(r) == pretty_json(s@),
{
    match serde_json::from_str::<serde_json::Value>(s) {
        Ok(v) => serde_json::to_string_pretty(&v).ok(),
        Err(_) => None,
    }
}

/// Whether an error is that of a full address that cannot be built.
pub open spec fn url_error(e: ClientError, what: Seq<char>) -> bool {
    e matches ClientError::InvalidUrl(m) && m@ == what
}

/// The full address of a path below a base address.
pub fn build_url(base_url: &str, path: &str) -> (r: Result<String, ClientError>)
    ensures
        match (parsed_url(base_url@), joined_url(base_url@, path@)) {
            (Err(why), _) => r matches Err(e) && url_error(e, "invalid base_url: "@ + why),
            (Ok(_), Err(why)) => r matches Err(e) && url_error(e, "invalid path: "@ + why),
            (Ok(_), Ok(url)) => r matches Ok(s) && s@ == url,
        },
{
    match outside_url_parse(base_url) {
        Err(why) => Err(ClientError::InvalidUrl(concat("invalid base_url: ", why.as_str()))),
        Ok(_) => match outside_url_join(base_url, path) {
            Err(why) => Err(ClientError::InvalidUrl(concat("invalid path: ", why.as_str()))),
            Ok(url) => Ok(url),
        },
    }
}

/// What is shown of an error's body: a document with indentation, any other text as it is, and a
/// remark where there is none to read.
pub open spec fn shown_body(body: Option<Seq<char>>) -> Seq<char> {
    match body {
        None => "Unable to read error body"@,
        Some(s) => match pretty_json(s) {
            Some(pretty) => pretty,
            None => s,
        },
    }
}

/// What is shown of an error's body.
pub fn extract_error_body(body: Option<String>) -> (r: String)
    ensures
        r@ == shown_body(text_option(body)),
{
    match body {
        None => "Unable to read error body".to_owned(),
        Some(s) => match outside_pretty_json(s.as_str()) {
            Some(pretty) => pretty,
            None => s,
        },
    }
}

/// What a status means.
pub enum Verdict {
    Success,
    Unauthorized,
    RateLimited,
    Timeout,
    ServerError,
    Other,
}

/// The meaning of every status.
pub open spec fn verdict(status: u16) -> Verdict {
    if status == 200 || status == 201 || status == 202 {
        Verdict::Success
    } else if status == 401 || status == 403 {
        Verdict::Unauthorized
    } else if status == 429 {
        Verdict::RateLimited
    } else if status == 408 || status == 504 {
        Verdict::Timeout
    } else if 500 <= status <= 599 {
        Verdict::ServerError
    } else {
        Verdict::Other
    }
}

/// Whether a response is a success, else which error it is. The body counts only where the status
/// says nothing more precise.
pub fn handle_response(status: u16, error_body: &str) -> (r: Result<(), ClientError>)
    requires
        100 <= status <= 999,
    ensures
        match verdict(status) {
            Verdict::Success => r is Ok,
            Verdict::Unauthorized => r matches Err(e) && e is Unauthorized,
            Verdict::RateLimited => r matches Err(e) && e is RateLimited,
            Verdict::Timeout => r matches Err(e) && e is Timeout,
            Verdict::ServerError => r == Err::<(), ClientError>(ClientError::ServerError(status)),
            Verdict::Other => r matches Err(ClientError::InvalidResponse(m)) && m@ == "HTTP "@ + status_text(status)
                + ": "@ + error_body@ && text::digits(status as nat).is_prefix_of(status_text(status)),
        },
{
    if status == 200 || status == 201 || status == 202 {
        Ok(())
    } else if status == 401 || status == 403 {
        Err(ClientError::Unauthorized)
    } else if status == 429 {
        Err(ClientError::RateLimited)
    } else if status == 408 || status == 504 {
        Err(ClientError::Timeout)
    } else if 500 <= status && status <= 599 {
        Err(ClientError::ServerError(status))
    } else {
        let mut message: String = "HTTP ".to_owned();
        message.append(outside_status_text(status).as_str());
        message.append(": ");
        message.append(error_body);
        Err(ClientError::InvalidResponse(message))
    }
}

/// Whether a response that was read may be parsed: not where the exchange's own error was found in
/// it, which is then told with the context.
pub fn check_body(context: &str, exchange_error: Option<String>) -> (r: Result<(), ClientError>)
    ensures
        match exchange_error {
            None => r is Ok,
            Some(why) => r matches Err(ClientError::InvalidResponse(m)) && m@ == context@ + ": "@ + why@,
        },
{
    match exchange_error {
        None => Ok(()),
        Some(why) => Err(ClientError::InvalidResponse(text::concat3(context, ": ", why.as_str()))),
    }
}

} // verus!
