//! The token that authenticates each request: what it is before the first fetch, after each
//! fetch, and the `authorization` header made of it.
use vstd::prelude::*;
use vstd::string::{StringExecFns, StringSliceAdditionalSpecFns};

use crate::auth::hyper_fetcher::TokenResponse;
use crate::text::utf8_of;

verus! {

/// The gRPC status codes this library answers with.
#[derive(Debug, Clone, Copy, PartialEq, Eq, Structural)]
pub enum RpcCode {
    InvalidArgument,
    Unavailable,
    Internal,
}

/// A gRPC status: a code and a message.
#[derive(Debug)]
pub struct RpcStatus {
    pub code: RpcCode,
    pub message: String,
}

impl Clone for RpcStatus {
    fn clone(&self) -> (r: Self)
        ensures
            r == *self,
    {
        RpcStatus { code: self.code, message: self.message.clone() }
    }
}

/// A byte that an HTTP header value may hold: a visible byte or a tab, not DEL.
pub open spec fn header_byte_ok(b: u8) -> bool {
    (b >= 32 && b != 127) || b == 9
}

/// Every UTF-8 byte of `s` may stand in a header value.
pub open spec fn valid_metadata_text(s: Seq<char>) -> bool {
    forall|i: int| 0 <= i < utf8_of(s).len() ==> header_byte_ok(#[trigger] utf8_of(s)[i])
}

/// Calls `FromStr::from_str` for `tonic::metadata::AsciiMetadataValue` (`str::parse`), which
/// hands `s` to `http::HeaderValue::from_str`: it fails exactly where a byte of `s` is below 32
/// and not a tab, or is 127. Says whether it succeeded.
#[verifier::external_body]
pub(crate) fn ascii_metadata_accepts(s: &str) -> (r: bool)
    ensures
        r == valid_metadata_text(s@),
{
    s.parse::<tonic::metadata::AsciiMetadataValue>().is_ok()
}

/// How often a fresh token is fetched: every 55 minutes, in seconds.
pub const TOKEN_REFRESH_INTERVAL_SECS: u64 = 3300;

/// The name of the header that carries the token.
pub const AUTHORIZATION_HEADER: &'static str = "authorization";

/// The value of the `authorization` header for `token`, `Bearer <token>`, or an internal
/// status where that holds a byte that a header value cannot.
pub fn bearer_metadata(token: &str) -> (r: Result<String, RpcStatus>)
    ensures
        r is Ok <==> valid_metadata_text("Bearer "@ + token@),
        r matches Ok(v) ==> v@ == "Bearer "@ + token@,
        r matches Err(e) ==> e.code == RpcCode::Internal && e.message@
            == "Unable to authenticate gcp token"@,
{
    let mut bearer = String::from_str("Bearer ");
    bearer.append(token);
    if ascii_metadata_accepts(bearer.as_str()) {
        Ok(bearer)
    } else {
        Err(
            RpcStatus {
                code: RpcCode::Internal,
                message: String::from_str("Unable to authenticate gcp token"),
            },
        )
    }
}

/// The token that authenticates requests: a token once one was fetched, a status otherwise.
pub struct TokenState {
    pub token: Result<String, RpcStatus>,
}

/// The status requests get before the first token arrives.
pub open spec fn not_fetched_yet(s: RpcStatus) -> bool {
    s.code == RpcCode::Unavailable && s.message@
        == "Hasnt fetched token yet. If you want to wait for the token, use get_client_when_ready()!"@
}

/// What a fetch leaves for requests: its access token, or an internal status with the message
/// of the fetch error.
pub open spec fn token_after_fetch(fetched: Result<TokenResponse, String>, r: Result<String, RpcStatus>) -> bool {
    match fetched {
        Ok(t) => r == Ok::<String, RpcStatus>(t.access_token),
        Err(msg) => r matches Err(s) && s.code == RpcCode::Internal && s.message@
            == "Unable to fetch token: "@ + msg@,
    }
}

/// What a fetch leaves for requests, given the token or the message of its error.
pub fn token_from_fetch(fetched: Result<TokenResponse, String>) -> (r: Result<String, RpcStatus>)
    ensures
        token_after_fetch(fetched, r),
{
    match fetched {
        Ok(t) => Ok(t.access_token),
        Err(msg) => {
            let mut m = String::from_str("Unable to fetch token: ");
            m.append(msg.as_str());
            Err(RpcStatus { code: RpcCode::Internal, message: m })
        },
    }
}

/// What a request carries for a stored token: `Bearer <token>` where that can stand in a
/// header, an internal status where it cannot, and the stored status where there is no token.
pub open spec fn authorizes(token: Result<String, RpcStatus>, r: Result<String, RpcStatus>) -> bool {
    match token {
        Err(s) => r == Err::<String, RpcStatus>(s),
        Ok(t) => if valid_metadata_text("Bearer "@ + t@) {
            r matches Ok(v) && v@ == "Bearer "@ + t@
        } else {
            r matches Err(e) && e.code == RpcCode::Internal && e.message@
                == "Unable to authenticate gcp token"@
        },
    }
}

/// A token that a fetch stored is what the next request carries: the interceptor is ready,
/// and (where it can stand in a header) the request gets `Bearer <access token>`.
pub proof fn lemma_fetched_token_is_sent(fetched: TokenResponse, stored: Result<String, RpcStatus>, sent: Result<String, RpcStatus>)
    requires
        token_after_fetch(Ok(fetched), stored),
        authorizes(stored, sent),
        valid_metadata_text("Bearer "@ + fetched.access_token@),
    ensures
        stored is Ok,
        sent matches Ok(v) && v@ == "Bearer "@ + fetched.access_token@,
{
}

/// After a failed fetch, requests are refused with the fetch's error and nothing is sent.
pub proof fn lemma_failed_fetch_refuses(msg: String, stored: Result<String, RpcStatus>, sent: Result<String, RpcStatus>)
    requires
        token_after_fetch(Err(msg), stored),
        authorizes(stored, sent),
    ensures
        stored is Err,
        sent matches Err(e) && e.code == RpcCode::Internal && e.message@ == "Unable to fetch token: "@ + msg@,
{
}

/// A header value never holds a line break, so a token cannot add headers of its own.
pub proof fn lemma_header_has_no_line_break(s: Seq<char>)
    requires
        valid_metadata_text(s),
    ensures
        forall|i: int| 0 <= i < utf8_of(s).len() ==> #[trigger] utf8_of(s)[i] != 10u8 && utf8_of(s)[i] != 13u8,
{
    assert forall|i: int| 0 <= i < utf8_of(s).len() implies #[trigger] utf8_of(s)[i] != 10u8 && utf8_of(s)[i] != 13u8 by {
        assert(header_byte_ok(utf8_of(s)[i]));
    }
}

impl TokenState {
    /// The state before the first fetch.
    pub fn new() -> (r: Self)
        ensures
            r.token matches Err(s) && not_fetched_yet(s),
    {
        TokenState {
            token: Err(
                RpcStatus {
                    code: RpcCode::Unavailable,
                    message: String::from_str(
                        "Hasnt fetched token yet. If you want to wait for the token, use get_client_when_ready()!",
                    ),
                },
            ),
        }
    }

    /// Replaces the token.
    pub fn set_token(&mut self, token: Result<String, RpcStatus>)
        ensures
            final(self).token == token,
    {
        self.token = token;
    }

    ///Check if the Token is Ok()
    pub fn is_ready(&self) -> (r: bool)
        ensures
            r == self.token is Ok,
    {
        self.token.is_ok()
    }

    /// The `authorization` header value for the current token; the stored status where there is
    /// no token.
    pub fn authorization(&self) -> (r: Result<String, RpcStatus>)
        ensures
            authorizes(self.token, r),
    {
        match &self.token {
            Err(s) => Err(s.clone()),
            Ok(t) => bearer_metadata(t.as_str()),
        }
    }
}

} // verus!
