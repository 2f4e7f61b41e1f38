//! Signing claims with an RSA key.
use vstd::prelude::*;

use crate::auth::token::Claims;

verus! {

/// The RS256 JWT that `jsonwebtoken` makes of the claims `{iss, scope, aud, iat, exp}` (in that
/// order) with the RSA private key in PEM form, or `None` where it refuses the key.
pub uninterp spec fn rs256_jwt(
    iss: Seq<char>,
    scope: Seq<char>,
    aud: Seq<char>,
    iat: usize,
    exp: usize,
    private_key_pem: Seq<u8>,
) -> Option<Seq<char>>;

/// Calls `jsonwebtoken::EncodingKey::from_rsa_pem` on the key and `jsonwebtoken::encode` with
/// `Header::new(Algorithm::RS256)` on the claims, written as a JSON object in field order.
/// RS256 signs with RSASSA-PKCS1-v1_5, which is deterministic, so the token is a function of
/// the claims and the key. An empty key is always refused: `pem::parse`, which `from_rsa_pem`
/// calls first, finds no PEM block in it. Which other keys are refused is left unsaid.
#[verifier::external_body]
pub(crate) fn sign_rs256(claims: &Claims, private_key_pem: &[u8]) -> (r: Result<String, jsonwebtoken::errors::Error>)
    ensures
        r is Ok <==> rs256_jwt(claims.iss@, claims.scope@, claims.aud@, claims.iat, claims.exp, private_key_pem@) is Some,
        r matches Ok(t) ==> t@ == rs256_jwt(claims.iss@, claims.scope@, claims.aud@, claims.iat, claims.exp, private_key_pem@)->0,
        private_key_pem@.len() == 0 ==> r is Err,
{
    let mut m = serde_json::Map::new();
    m.insert("iss".to_string(), claims.iss.into());
    m.insert("scope".to_string(), claims.scope.into());
    m.insert("aud".to_string(), claims.aud.into());
    m.insert("iat".to_string(), claims.iat.into());
    m.insert("exp".to_string(), claims.exp.into());
    let key = jsonwebtoken::EncodingKey::from_rsa_pem(private_key_pem)?;
    jsonwebtoken::encode(&jsonwebtoken::Header::new(jsonwebtoken::Algorithm::RS256), &m, &key)
}

} // verus!
