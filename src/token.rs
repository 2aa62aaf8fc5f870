//! Issuing and verifying signed tokens.
use vstd::prelude::*;

use crate::claims::{Claims, PayloadFields};
use crate::clock::{current_time, seconds_since_epoch};
use crate::config::{validity_window_of, AuthConfig};
use crate::jwt::{
    decode_hs256, encode_hs256, hs256_decoded, hs256_token, DecodeFailure, SIGNING_ALGORITHM,
};

verus! {

/// The key id written in the header of every issued token.
pub const SIGNING_KEY_ID: &'static str = "signing_key";

/// The character of the decimal digit `d`.
pub open spec fn digit_char(d: nat) -> char {
    seq!['0', '1', '2', '3', '4', '5', '6', '7', '8', '9'][d as int]
}

/// The decimal numeral of `n`, without leading zeros.
pub open spec fn nat_text(n: nat) -> Seq<char>
    decreases n,
{
    if n < 10 {
        seq![digit_char(n)]
    } else {
        nat_text(n / 10).push(digit_char(n % 10))
    }
}

/// The decimal numeral of `n`, with `-` before a negative number.
pub open spec fn int_text(n: int) -> Seq<char> {
    if n < 0 {
        seq!['-'] + nat_text((-n) as nat)
    } else {
        nat_text(n as nat)
    }
}

/// Relies on the `ToString` of `i32` (its `Display`): the decimal numeral.
#[verifier::external_body]
fn decimal_text(n: i32) -> (r: String)
    ensures
        r@ == int_text(n as int),
{
    n.to_string()
}

/// Why a token could not be issued.
#[derive(PartialEq, Eq, Structural, Clone, Copy, Debug)]
pub enum IssueError {
    /// The clock reads a time before the epoch.
    ClockBeforeEpoch,
    /// The expiry time does not fit in 64 bits.
    ExpiryOutOfRange,
    /// The signing library reported a failure; with an HMAC key it reports none.
    SigningFailed,
}

/// Why a token was refused.
#[derive(PartialEq, Eq, Structural, Clone, Copy, Debug)]
pub enum VerifyError {
    /// The token is not a well-formed token of this service.
    Malformed,
    /// The signature does not match the content under the configured secret.
    SignatureInvalid,
    /// The token's validity window has passed.
    Expired,
}

/// The expiry time of a token issued at `now` with a window of `minutes`.
pub open spec fn expiry_of(now: u64, minutes: u64) -> int {
    now + minutes * 60
}

/// The token issued at `now` to principal `id` under `config`.
pub open spec fn issued_token(config: AuthConfig, id: i32, now: u64) -> Seq<char> {
    hs256_token(
        SIGNING_ALGORITHM,
        SIGNING_KEY_ID@,
        int_text(id as int),
        now,
        expiry_of(now, config.validity_minutes) as u64,
        config.secret@,
    )
}

/// The claims fields read back from a token, or why reading failed.
pub type DecodedView = Result<(Option<Seq<char>>, Option<u64>, Option<u64>), DecodeFailure>;

/// What the checks on a read-back token give at time `now`: the claims, or the
/// reason of the refusal. An expired token is told apart from a forged or
/// garbled one.
pub open spec fn classify_outcome(decoded: DecodedView, now: u64) -> Result<
    (Seq<char>, u64, u64),
    VerifyError,
> {
    match decoded {
        Err(DecodeFailure::SignatureMismatch) => Err(VerifyError::SignatureInvalid),
        Err(DecodeFailure::Unreadable) => Err(VerifyError::Malformed),
        Ok((Some(sub), Some(iat), Some(exp))) => {
            if exp <= iat {
                Err(VerifyError::Malformed)
            } else if exp < now {
                Err(VerifyError::Expired)
            } else {
                Ok((sub, iat, exp))
            }
        },
        Ok(_) => Err(VerifyError::Malformed),
    }
}

/// What verifying `token` under `secret` at time `now` gives.
pub open spec fn verify_outcome(token: Seq<char>, secret: Seq<char>, now: u64) -> Result<
    (Seq<char>, u64, u64),
    VerifyError,
> {
    classify_outcome(hs256_decoded(SIGNING_ALGORITHM, token, secret), now)
}

/// A read-back token as plain values.
pub open spec fn decoded_view(decoded: Result<PayloadFields, DecodeFailure>) -> DecodedView {
    match decoded {
        Ok(f) => Ok(f.spec_view()),
        Err(e) => Err(e),
    }
}

/// A verification result as plain values.
pub open spec fn claims_result_view(r: Result<Claims, VerifyError>) -> Result<(Seq<char>, u64, u64), VerifyError> {
    match r {
        Ok(c) => Ok(c.spec_view()),
        Err(e) => Err(e),
    }
}

/// Issuance and verification of the service's bearer tokens.
#[derive(Clone, Copy, Debug)]
pub struct Token;

impl Token {
    /// Issues the token of principal `id` at time `now`: issued at `now`, valid
    /// for the configured window.
    pub fn issue_at(config: &AuthConfig, id: i32, now: u64) -> (r: Result<String, IssueError>)
        requires
            config.wf(),
        ensures
            expiry_of(now, config.validity_minutes) > u64::MAX <==> r == Err::<String, IssueError>(
                IssueError::ExpiryOutOfRange,
            ),
            expiry_of(now, config.validity_minutes) <= u64::MAX ==> r is Ok,
            r matches Ok(t) ==> t@ == issued_token(*config, id, now),
    {
        let minutes = config.validity_minutes;
        if minutes > (u64::MAX - now) / 60 {
            assert(minutes * 60 > u64::MAX - now) by (nonlinear_arith)
                requires
                    minutes > (u64::MAX - now) / 60,
            ;
            return Err(IssueError::ExpiryOutOfRange);
        }
        assert(minutes * 60 <= u64::MAX - now) by (nonlinear_arith)
            requires
                minutes <= (u64::MAX - now) / 60,
        ;
        let exp = now + minutes * 60;
        let sub = decimal_text(id);
        match encode_hs256(SIGNING_ALGORITHM, SIGNING_KEY_ID, sub.as_str(), now, exp, config.secret.as_str()) {
            Some(t) => Ok(t),
            None => Err(IssueError::SigningFailed),
        }
    }

    /// Issues the token of principal `id` at the current time. It fails only
    /// where the clock reads before the epoch or the expiry does not fit.
    pub fn authenticate(config: &AuthConfig, id: i32) -> (r: Result<String, IssueError>)
        requires
            config.wf(),
        ensures
            r matches Ok(t) ==> exists|now: u64| t@ == #[trigger] issued_token(*config, id, now),
            r == Err::<String, IssueError>(IssueError::ExpiryOutOfRange) ==> exists|now: u64|
                #[trigger] expiry_of(now, config.validity_minutes) > u64::MAX,
            r matches Err(e) ==> e != IssueError::SigningFailed,
    {
        match seconds_since_epoch() {
            Some(now) => Token::issue_at(config, id, now),
            None => Err(IssueError::ClockBeforeEpoch),
        }
    }

    /// Verifies `token` at time `now` under the configured secret. A token
    /// issued under the same secret verifies, until its expiry, to the claims
    /// it was issued with.
    pub fn verify_at(config: &AuthConfig, token: &str, now: u64) -> (r: Result<Claims, VerifyError>)
        ensures
            verify_outcome(token@, config.secret@, now) == claims_result_view(r),
            r matches Ok(c) ==> c.wf(),
            forall|key_id: Seq<char>, sub: Seq<char>, iat: u64, exp: u64|
                token@ == #[trigger] hs256_token(
                    SIGNING_ALGORITHM,
                    key_id,
                    sub,
                    iat,
                    exp,
                    config.secret@,
                ) && iat < exp && now <= exp ==> claims_result_view(r) == Ok::<_, VerifyError>(
                    (sub, iat, exp),
                ),
    {
        let decoded = decode_hs256(SIGNING_ALGORITHM, token, config.secret.as_str());
        Token::classify_decoded(decoded, now)
    }

    /// The checks on a read-back token at time `now`: a signature mismatch is
    /// an invalid signature, an unreadable token or incomplete claims are
    /// malformed, an expiry not after the issue time is malformed, and an
    /// expiry before `now` is expired.
    pub fn classify_decoded(decoded: Result<PayloadFields, DecodeFailure>, now: u64) -> (r: Result<
        Claims,
        VerifyError,
    >)
        ensures
            claims_result_view(r) == classify_outcome(decoded_view(decoded), now),
            r matches Ok(c) ==> c.wf(),
    {
        match decoded {
            Err(DecodeFailure::SignatureMismatch) => Err(VerifyError::SignatureInvalid),
            Err(DecodeFailure::Unreadable) => Err(VerifyError::Malformed),
            Ok(PayloadFields { sub: Some(sub), iat: Some(iat), exp: Some(exp) }) => {
                if exp <= iat {
                    Err(VerifyError::Malformed)
                } else if exp < now {
                    Err(VerifyError::Expired)
                } else {
                    Ok(Claims { sub, iat, exp })
                }
            },
            Ok(_) => Err(VerifyError::Malformed),
        }
    }

    /// Verifies `token` at the current time; a clock before the epoch reads as
    /// the epoch.
    pub fn verify(config: &AuthConfig, token: &str) -> (r: Result<Claims, VerifyError>)
        ensures
            exists|now: u64| #[trigger] verify_outcome(token@, config.secret@, now) == claims_result_view(r),
    {
        let now = current_time();
        Token::verify_at(config, token, now)
    }

    /// Whether `token` is accepted at the current time.
    pub fn validate(config: &AuthConfig, token: &str) -> (r: bool)
        ensures
            exists|now: u64| r == (#[trigger] verify_outcome(token@, config.secret@, now) is Ok),
    {
        let r = Token::verify(config, token);
        r.is_ok()
    }
}

/// With no window configured, a token issued at `now` expires exactly twenty
/// minutes later.
pub proof fn default_window_is_twenty_minutes(config: AuthConfig, id: i32, now: u64)
    requires
        config.validity_minutes == validity_window_of(None),
        now + 20 * 60 <= u64::MAX,
    ensures
        issued_token(config, id, now) == hs256_token(
            SIGNING_ALGORITHM,
            SIGNING_KEY_ID@,
            int_text(id as int),
            now,
            (now + 20 * 60) as u64,
            config.secret@,
        ),
{
}

/// A token whose expiry time has passed is refused as expired, and only as
/// expired, whenever it is otherwise sound: its signature matches and its
/// claims are complete and well formed.
pub proof fn expired_token_is_refused_as_expired(token: Seq<char>, secret: Seq<char>, now: u64)
    requires
        hs256_decoded(SIGNING_ALGORITHM, token, secret) matches Ok((Some(sub), Some(iat), Some(exp))) && iat < exp
            && exp < now,
    ensures
        verify_outcome(token, secret, now) == Err::<(Seq<char>, u64, u64), _>(VerifyError::Expired),
{
}

} // verus!
