//! The kinds of Google Cloud accounts, and the signed assertions they make.
use vstd::prelude::*;

use crate::auth::error::JwtError;
use crate::auth::jwt::{rs256_jwt, sign_rs256};
use crate::auth::token::Claims;
use crate::text::utf8_of;

verus! {

/// Where a workload identity finds its subject token.
pub struct CredentialSource {
    /// File path containing the subject token (e.g. OIDC token mounted by k8s/CI)
    pub file: Option<String>,
    /// URL to fetch the subject token from (e.g. cloud provider metadata server)
    pub url: Option<String>,
    /// Optional headers for the URL request, in the order they are sent. The account file holds
    /// them as a JSON object, so each name occurs once (`distinct_names`).
    pub headers: Option<Vec<(String, String)>>,
}

/// An external workload that trades its own token for a Google Cloud one.
pub struct WorkloadIdentityAccount {
    pub project_id: String,
    pub audience: String,
    pub subject_token_type: String,
    pub token_url: String,
    pub credential_source: CredentialSource,
    /// If set, exchanged token is used to impersonate this service account
    /// e.g. "https://iam.googleapis.com/v1/projects/-/serviceAccounts/sa@project.iam.gserviceaccount.com:generateAccessToken"
    pub service_account_impersonation_url: Option<String>,
}

/// A user credential that impersonates a service account.
pub struct ImpersonatedAccount {
    pub service_account_impersonation_url: String,
    pub source_credentials: SourceCredentials,
    pub project_id: Option<String>,
}

/// The refresh-token credential of an impersonated account.
pub struct SourceCredentials {
    pub account: String,
    pub client_id: String,
    pub client_secret: String,
    pub refresh_token: String,
    pub type_: String,
    pub universe_domain: String,
}

///User Account for GCP
pub struct UserAccount {
    pub client_email: String,
    pub private_key: String,
    pub project_id: String,
    pub auth_uri: String,
    pub token_uri: String,
}

/// The OAuth scope that every token asks for.
pub open spec fn cloud_platform_scope() -> Seq<char> {
    "https://www.googleapis.com/auth/cloud-platform"@
}

/// The audience of a service account assertion: Google's token endpoint.
pub open spec fn token_endpoint() -> Seq<char> {
    "https://oauth2.googleapis.com/token"@
}

/// The assertion a service account signs at `now`: valid for an hour.
pub open spec fn service_account_jwt(email: Seq<char>, key_pem: Seq<char>, now: usize) -> Option<
    Seq<char>,
> {
    rs256_jwt(
        email,
        cloud_platform_scope(),
        token_endpoint(),
        now,
        (now + 3600) as usize,
        utf8_of(key_pem),
    )
}

/// Signs the service account claims of `email` at `now` with the PEM key.
fn sign_service_claims(email: &str, key_pem: &str, now: usize) -> (r: Result<
    String,
    jsonwebtoken::errors::Error,
>)
    requires
        now + 3600 <= usize::MAX,
    ensures
        r is Ok <==> service_account_jwt(email@, key_pem@, now) is Some,
        r matches Ok(t) ==> t@ == service_account_jwt(email@, key_pem@, now)->0,
{
    let claims = Claims {
        iss: email,
        scope: "https://www.googleapis.com/auth/cloud-platform",
        aud: "https://oauth2.googleapis.com/token",
        iat: now,
        exp: now + 3600,
    };
    sign_rs256(&claims, key_pem.as_bytes())
}

impl WorkloadIdentityAccount {
    /// Signs a service account assertion for `client_email` at `now_secs` (seconds since the
    /// epoch), valid for an hour.
    pub fn create_jwt(client_email: &str, private_key_pem: &str, now_secs: u64) -> (r: Result<
        String,
        jsonwebtoken::errors::Error,
    >)
        requires
            (now_secs as usize) + 3600 <= usize::MAX,
        ensures
            r is Ok <==> service_account_jwt(client_email@, private_key_pem@, now_secs as usize) is Some,
            r matches Ok(t) ==> t@ == service_account_jwt(
                client_email@,
                private_key_pem@,
                now_secs as usize,
            )->0,
    {
        sign_service_claims(client_email, private_key_pem, now_secs as usize)
    }

    /// Signs a short-lived (5 min) subject token at `now_secs` with an empty key, which
    /// `jsonwebtoken` always refuses: the result is always a JWT error.
    pub fn create_subject_token(now_secs: u64) -> (r: Result<String, JwtError>)
        requires
            now_secs + 300 <= u64::MAX,
        ensures
            r matches Err(e) && e is Jwt,
    {
        let claims = Claims {
            iss: "my-vps",
            scope: "https://www.googleapis.com/auth/cloud-platform",
            aud: "google-wif",
            iat: now_secs as usize,
            exp: (now_secs + 300) as usize,
        };
        let empty: Vec<u8> = Vec::new();
        assert(empty@ =~= Seq::<u8>::empty());
        match sign_rs256(&claims, empty.as_slice()) {
            Ok(jwt) => Ok(jwt),
            Err(e) => Err(JwtError::Jwt(e)),
        }
    }

    /// The account with its project id replaced, where one is given.
    pub fn with_project_id(self, project_id: Option<String>) -> (r: Self)
        ensures
            r.project_id@ == (match project_id {
                Some(p) => p@,
                None => self.project_id@,
            }),
            r.audience == self.audience,
            r.subject_token_type == self.subject_token_type,
            r.token_url == self.token_url,
            r.credential_source == self.credential_source,
            r.service_account_impersonation_url == self.service_account_impersonation_url,
    {
        let mut s = self;
        if let Some(p) = project_id {
            s.project_id = p;
        }
        s
    }
}

impl ImpersonatedAccount {
    /// The account with its project id set.
    pub fn with_project_id(self, project_id: String) -> (r: Self)
        ensures
            r.project_id == Some(project_id),
            r.service_account_impersonation_url == self.service_account_impersonation_url,
            r.source_credentials == self.source_credentials,
    {
        let mut s = self;
        s.project_id = Some(project_id);
        s
    }
}

impl UserAccount {
    /// Signs this account's assertion at `now_secs` (seconds since the epoch), valid for an
    /// hour. A key that `jsonwebtoken` refuses gives `JwtError::Jwt`.
    pub fn create_jwt(&self, now_secs: u64) -> (r: Result<String, JwtError>)
        requires
            (now_secs as usize) + 3600 <= usize::MAX,
        ensures
            r is Ok <==> service_account_jwt(self.client_email@, self.private_key@, now_secs as usize) is Some,
            r matches Ok(t) ==> t@ == service_account_jwt(
                self.client_email@,
                self.private_key@,
                now_secs as usize,
            )->0,
            r matches Err(e) ==> e is Jwt,
    {
        match sign_service_claims(self.client_email.as_str(), self.private_key.as_str(), now_secs as usize) {
            Ok(jwt) => Ok(jwt),
            Err(e) => Err(JwtError::Jwt(e)),
        }
    }

    /// The same assertion as `create_jwt`.
    pub fn create_jwt_hyper(&self, now_secs: u64) -> (r: Result<String, JwtError>)
        requires
            (now_secs as usize) + 3600 <= usize::MAX,
        ensures
            r is Ok <==> service_account_jwt(self.client_email@, self.private_key@, now_secs as usize) is Some,
            r matches Ok(t) ==> t@ == service_account_jwt(
                self.client_email@,
                self.private_key@,
                now_secs as usize,
            )->0,
            r matches Err(e) ==> e is Jwt,
    {
        self.create_jwt(now_secs)
    }
}

} // verus!
