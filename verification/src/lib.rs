//! A client library for Google Gemini and Vertex AI: the accounts and the tokens they are
//! trusted with, the requests to the token endpoints and what their answers come to, and the
//! request and response types of generating content.
use vstd::prelude::*;

use crate::auth::hyper_fetcher::FetchAccount;
pub use crate::auth::user_account::{ImpersonatedAccount, UserAccount};
pub use crate::client::gemini::ApiKeyInterceptor;
pub use crate::client::vertex::ModelString;

pub mod auth;
pub mod client;
pub mod codegen;
pub mod gemini_types;
pub mod interceptor;
pub mod region;
pub mod request;
pub mod schema;
pub mod text;
pub mod value;
pub mod vertex_types;

verus! {

impl From<ImpersonatedAccount> for FetchAccount {
    fn from(value: ImpersonatedAccount) -> (r: Self)
        ensures
            r == FetchAccount::ImpersonatedAccount(value),
    {
        FetchAccount::ImpersonatedAccount(value)
    }
}

impl vstd::std_specs::convert::FromSpecImpl<ImpersonatedAccount> for FetchAccount {
    open spec fn obeys_from_spec() -> bool {
        true
    }

    open spec fn from_spec(value: ImpersonatedAccount) -> FetchAccount {
        FetchAccount::ImpersonatedAccount(value)
    }
}

impl From<UserAccount> for FetchAccount {
    fn from(value: UserAccount) -> (r: Self)
        ensures
            r == FetchAccount::UserAccount(value),
    {
        FetchAccount::UserAccount(value)
    }
}

impl vstd::std_specs::convert::FromSpecImpl<UserAccount> for FetchAccount {
    open spec fn obeys_from_spec() -> bool {
        true
    }

    open spec fn from_spec(value: UserAccount) -> FetchAccount {
        FetchAccount::UserAccount(value)
    }
}

/// The endpoint of the Gemini API.
pub const GENERATIVE_LANGUAGE_URL: &'static str = "https://generativelanguage.googleapis.com";

/// The Vertex AI endpoint in `europe-west1`.
pub const VERTEX_AI_EUW: &'static str = "https://europe-west1-aiplatform.googleapis.com:443";

/// A Vertex AI region: its id and the URL of its endpoint.
pub struct Region(pub &'static str, pub &'static str);

} // verus!
