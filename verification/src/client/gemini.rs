//! The API key of the Gemini API, as a request header.
use vstd::prelude::*;
use vstd::string::StringExecFns;

use crate::auth::auth_interceptor::{ascii_metadata_accepts, valid_metadata_text, RpcCode, RpcStatus};

verus! {

/// The name of the header that carries the API key.
pub const API_KEY_HEADER: &'static str = "x-goog-api-key";

/// Holds the API key that every request carries.
pub struct ApiKeyInterceptor(pub String);

impl ApiKeyInterceptor {
    /// An interceptor for `api_key`.
    pub fn new(api_key: String) -> (r: Self)
        ensures
            r.0 == api_key,
    {
        ApiKeyInterceptor(api_key)
    }

    /// The value of the `x-goog-api-key` header: the key itself, or an invalid-argument status
    /// where the key holds a byte that a header value cannot.
    pub fn api_key_value(&self) -> (r: Result<String, RpcStatus>)
        ensures
            r is Ok <==> valid_metadata_text(self.0@),
            r matches Ok(v) ==> v == self.0,
            r matches Err(e) ==> e.code == RpcCode::InvalidArgument && e.message@ == "Invalid API key format"@,
    {
        if ascii_metadata_accepts(self.0.as_str()) {
            Ok(self.0.clone())
        } else {
            Err(
                RpcStatus {
                    code: RpcCode::InvalidArgument,
                    message: String::from_str("Invalid API key format"),
                },
            )
        }
    }
}

} // verus!
