//! The signed-token encoding, provided by the jsonwebtoken crate.
use vstd::prelude::*;

use crate::claims::PayloadFields;
use jsonwebtoken::errors::ErrorKind;

verus! {

/// The signature algorithms that tokens may use.
#[derive(PartialEq, Eq, Structural, Clone, Copy, Debug)]
pub enum SigningAlgorithm {
    /// HMAC with SHA-256.
    Hs256,
}

/// The one algorithm with which tokens are signed and verified.
pub const SIGNING_ALGORITHM: SigningAlgorithm = SigningAlgorithm::Hs256;

/// Why a token could not be read back.
#[derive(PartialEq, Eq, Structural, Clone, Copy, Debug)]
pub enum DecodeFailure {
    /// The token is well formed but its signature does not match its content.
    SignatureMismatch,
    /// The token is not a readable token of the accepted algorithm of a JSON object with an `exp`.
    Unreadable,
}

/// The compact token (`header.payload.signature`, each part base64url) signed
/// with `alg` and `secret`, whose header carries key id `key_id` and whose
/// payload is the JSON object `{"sub", "iat", "exp"}`.
pub uninterp spec fn hs256_token(
    alg: SigningAlgorithm,
    key_id: Seq<char>,
    sub: Seq<char>,
    iat: u64,
    exp: u64,
    secret: Seq<char>,
) -> Seq<char>;

/// What reading `token` as a token signed with `alg` and `secret` gives, with
/// no check of its times and any other algorithm refused: the payload's claims
/// fields, or why it failed.
pub uninterp spec fn hs256_decoded(alg: SigningAlgorithm, token: Seq<char>, secret: Seq<char>) -> Result<
    (Option<Seq<char>>, Option<u64>, Option<u64>),
    DecodeFailure,
>;

/// Relies on jsonwebtoken::encode with a header of algorithm `alg` and an HMAC
/// key: the token of the given claims, a function of its arguments alone. With
/// an HMAC algorithm and key, and a map with string keys, it does not fail.
#[verifier::external_body]
pub(crate) fn encode_hs256(
    alg: SigningAlgorithm,
    key_id: &str,
    sub: &str,
    iat: u64,
    exp: u64,
    secret: &str,
) -> (r: Option<String>)
    ensures
        r is Some,
        r matches Some(t) ==> t@ == hs256_token(alg, key_id@, sub@, iat, exp, secret@),
{
    let mut claims = serde_json::Map::new();
    claims.insert("sub".to_owned(), serde_json::Value::from(sub));
    claims.insert("iat".to_owned(), serde_json::Value::from(iat));
    claims.insert("exp".to_owned(), serde_json::Value::from(exp));
    let mut header = jsonwebtoken::Header::new(match alg {
        SigningAlgorithm::Hs256 => jsonwebtoken::Algorithm::HS256,
    });
    header.kid = Some(key_id.to_owned());
    jsonwebtoken::encode(&header, &claims, &jsonwebtoken::EncodingKey::from_secret(secret.as_bytes())).ok()
}

/// Relies on jsonwebtoken::decode, accepting `alg` only and with its expiry check
/// off: the claims fields of a token whose signature matches, a signature
/// mismatch told apart from every other failure. A token that `encode` made
/// with the same algorithm and secret reads back as the claims it was made of.
#[verifier::external_body]
pub(crate) fn decode_hs256(alg: SigningAlgorithm, token: &str, secret: &str) -> (r: Result<PayloadFields, DecodeFailure>)
    ensures
        match r {
            Ok(f) => hs256_decoded(alg, token@, secret@) == Ok::<_, DecodeFailure>(f.spec_view()),
            Err(e) => hs256_decoded(alg, token@, secret@) == Err::<(Option<Seq<char>>, Option<u64>, Option<u64>), _>(e),
        },
        forall|key_id: Seq<char>, sub: Seq<char>, iat: u64, exp: u64|
            token@ == #[trigger] hs256_token(alg, key_id, sub, iat, exp, secret@) ==> (r is Ok
                && r->Ok_0.spec_view() == (Some(sub), Some(iat), Some(exp))),
{
    let mut validation = jsonwebtoken::Validation::new(match alg {
        SigningAlgorithm::Hs256 => jsonwebtoken::Algorithm::HS256,
    });
    validation.validate_exp = false;
    let key = jsonwebtoken::DecodingKey::from_secret(secret.as_bytes());
    match jsonwebtoken::decode::<serde_json::Map<String, serde_json::Value>>(token, &key, &validation) {
        Ok(data) => Ok(PayloadFields {
            sub: data.claims.get("sub").and_then(|v| v.as_str()).map(String::from),
            iat: data.claims.get("iat").and_then(|v| v.as_u64()),
            exp: data.claims.get("exp").and_then(|v| v.as_u64()),
        }),
        Err(e) if matches!(e.kind(), ErrorKind::InvalidSignature) => Err(DecodeFailure::SignatureMismatch),
        Err(_) => Err(DecodeFailure::Unreadable),
    }
}

} // verus!
