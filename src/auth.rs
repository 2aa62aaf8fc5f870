//! The guard in front of protected handlers: a request reaches its handler only
//! after its bearer token has been verified.
use vstd::prelude::*;
use vstd::utf8::{decode_utf8, encode_utf8, encode_utf8_decode_utf8, encode_utf8_valid_utf8, valid_utf8};

use crate::config::AuthConfig;
use crate::error::Error;
use crate::token::{verify_outcome, Token, VerifyError};

verus! {

/// The status of every refusal by the guard.
pub const UNAUTHORIZED: u16 = 401;

pub const MISSING_HEADER_MESSAGE: &'static str = "Authorization header not present";

pub const NOT_TEXT_MESSAGE: &'static str = "Token is not a valid string";

pub const EXPIRED_MESSAGE: &'static str = "This token has expired, you must login again.";

pub const INVALID_MESSAGE: &'static str = "Invalid token";

/// The scheme word that may precede the token in the header.
pub open spec fn bearer_prefix() -> Seq<char> {
    seq!['B', 'e', 'a', 'r', 'e', 'r', ' ']
}

/// The token carried by a header value: the value less a leading `Bearer `,
/// or the whole value when it does not start so.
pub open spec fn bearer_token(s: Seq<char>) -> Seq<char> {
    if s.len() >= 7 && s.subrange(0, 7) == bearer_prefix() {
        s.subrange(7, s.len() as int)
    } else {
        s
    }
}

/// What the guard decides for a request whose `Authorization` header is
/// `header` (its bytes, absent when the request has none): the authenticated
/// principal, or the message of the refusal.
pub open spec fn guard_outcome(header: Option<Seq<u8>>, secret: Seq<char>, now: u64) -> Result<
    Seq<char>,
    Seq<char>,
> {
    match header {
        None => Err(MISSING_HEADER_MESSAGE@),
        Some(b) => if !valid_utf8(b) {
            Err(NOT_TEXT_MESSAGE@)
        } else {
            match verify_outcome(bearer_token(decode_utf8(b)), secret, now) {
                Ok((sub, _, _)) => Ok(sub),
                Err(VerifyError::Expired) => Err(EXPIRED_MESSAGE@),
                Err(_) => Err(INVALID_MESSAGE@),
            }
        },
    }
}

pub open spec fn header_view(header: Option<&[u8]>) -> Option<Seq<u8>> {
    match header {
        Some(b) => Some(b@),
        None => None,
    }
}

/// Whether `r` carries out the decision `outcome`: the principal on success,
/// a 401 with the decided message on refusal.
pub open spec fn carries_out(r: Result<String, Error>, outcome: Result<Seq<char>, Seq<char>>) -> bool {
    match outcome {
        Ok(p) => r matches Ok(s) && s@ == p,
        Err(m) => r matches Err(e) && e.status_code == UNAUTHORIZED && e.message@ == m,
    }
}

/// Relies on std::str::from_utf8: the text of `b` exactly when `b` is valid UTF-8.
#[verifier::external_body]
fn utf8_text(b: &[u8]) -> (r: Option<&str>)
    ensures
        r is Some <==> valid_utf8(b@),
        r matches Some(s) ==> s@ == decode_utf8(b@),
{
    std::str::from_utf8(b).ok()
}

/// The token carried by the header value `s`.
pub fn strip_bearer(s: &str) -> (r: &str)
    ensures
        r@ == bearer_token(s@),
{
    let n = s.unicode_len();
    if n >= 7 && s.get_char(0) == 'B' && s.get_char(1) == 'e' && s.get_char(2) == 'a'
        && s.get_char(3) == 'r' && s.get_char(4) == 'e' && s.get_char(5) == 'r' && s.get_char(6)
        == ' ' {
        assert(s@.subrange(0, 7) =~= bearer_prefix());
        s.substring_char(7, n)
    } else {
        assert(n >= 7 ==> s@.subrange(0, 7)[0] == s@[0] && s@.subrange(0, 7)[1] == s@[1]
            && s@.subrange(0, 7)[2] == s@[2] && s@.subrange(0, 7)[3] == s@[3]
            && s@.subrange(0, 7)[4] == s@[4] && s@.subrange(0, 7)[5] == s@[5]
            && s@.subrange(0, 7)[6] == s@[6]);
        s
    }
}

/// The refusal of a request, with `message` as its reason.
fn unauthorized(message: &str) -> (r: Error)
    ensures
        r.status_code == UNAUTHORIZED,
        r.message@ == message@,
{
    Error::new(UNAUTHORIZED, message.to_owned())
}

/// The guard's settings.
pub struct Auth {
    pub config: AuthConfig,
}

impl Auth {
    pub fn new(config: AuthConfig) -> (r: Auth)
        ensures
            r.config == config,
    {
        Auth { config }
    }

    /// Decides a request at time `now` from its `Authorization` header.
    pub fn check(&self, header: Option<&[u8]>, now: u64) -> (r: Result<String, Error>)
        ensures
            carries_out(r, guard_outcome(header_view(header), self.config.secret@, now)),
    {
        let bytes = match header {
            Some(b) => b,
            None => {
                return Err(unauthorized(MISSING_HEADER_MESSAGE));
            },
        };
        let text = match utf8_text(bytes) {
            Some(t) => t,
            None => {
                return Err(unauthorized(NOT_TEXT_MESSAGE));
            },
        };
        let token = strip_bearer(text);
        match Token::verify_at(&self.config, token, now) {
            Ok(claims) => Ok(claims.sub),
            Err(VerifyError::Expired) => Err(unauthorized(EXPIRED_MESSAGE)),
            Err(_) => Err(unauthorized(INVALID_MESSAGE)),
        }
    }
}

/// A downstream service behind the guard.
pub struct AuthMiddleware<S> {
    pub auth: Auth,
    pub service: S,
}

impl<S> AuthMiddleware<S> {
    pub fn new(auth: Auth, service: S) -> (r: AuthMiddleware<S>)
        ensures
            r.auth == auth,
            r.service == service,
    {
        AuthMiddleware { auth, service }
    }

    /// Handles a request at time `now`: the token is verified first, and only
    /// once it is accepted is `handler` run, on the service and the
    /// authenticated principal. A refused request never reaches `handler`.
    pub fn call<R, F: FnOnce(&S, String) -> R>(
        &self,
        header: Option<&[u8]>,
        now: u64,
        handler: F,
    ) -> (r: Result<R, Error>)
        requires
            forall|s: &S, p: String| handler.requires((s, p)),
        ensures
            match guard_outcome(header_view(header), self.auth.config.secret@, now) {
                Ok(p) => r matches Ok(x) && exists|s: String|
                    s@ == p && #[trigger] handler.ensures((&self.service, s), x),
                Err(m) => r matches Err(e) && e.status_code == UNAUTHORIZED && e.message@ == m,
            },
    {
        match self.auth.check(header, now) {
            Ok(principal) => {
                let ghost p = principal;
                let x = handler(&self.service, principal);
                assert(handler.ensures((&self.service, p), x));
                let r: Result<R, Error> = Ok(x);
                assert(r->Ok_0 == x);
                r
            },
            Err(e) => Err(e),
        }
    }
}

/// A request without an `Authorization` header is refused with the message
/// `Authorization header not present`, whatever the secret and the time; by
/// `AuthMiddleware::call` its handler is then never run.
pub proof fn missing_header_is_refused(secret: Seq<char>, now: u64)
    ensures
        guard_outcome(None, secret, now) == Err::<Seq<char>, _>(MISSING_HEADER_MESSAGE@),
{
}

/// A request whose header is `Bearer ` followed by a token that verification
/// finds expired is refused with the message that asks for a new login.
pub proof fn expired_bearer_token_is_refused(token: Seq<char>, secret: Seq<char>, now: u64)
    requires
        verify_outcome(token, secret, now) == Err::<(Seq<char>, u64, u64), _>(VerifyError::Expired),
    ensures
        guard_outcome(Some(encode_utf8(bearer_prefix() + token)), secret, now) == Err::<
            Seq<char>,
            _,
        >(EXPIRED_MESSAGE@),
{
    lemma_bearer_header(token);
}

/// A request whose header is `Bearer ` followed by a token that verification
/// accepts is admitted with the token's subject as its principal, which
/// `AuthMiddleware::call` hands to the handler.
pub proof fn valid_bearer_token_is_admitted(
    token: Seq<char>,
    secret: Seq<char>,
    now: u64,
    sub: Seq<char>,
    iat: u64,
    exp: u64,
)
    requires
        verify_outcome(token, secret, now) == Ok::<_, VerifyError>((sub, iat, exp)),
    ensures
        guard_outcome(Some(encode_utf8(bearer_prefix() + token)), secret, now) == Ok::<
            _,
            Seq<char>,
        >(sub),
{
    lemma_bearer_header(token);
}

proof fn lemma_bearer_header(token: Seq<char>)
    ensures
        valid_utf8(encode_utf8(bearer_prefix() + token)),
        bearer_token(decode_utf8(encode_utf8(bearer_prefix() + token))) == token,
{
    let s = bearer_prefix() + token;
    encode_utf8_valid_utf8(s);
    encode_utf8_decode_utf8(s);
    assert(s.subrange(0, 7) =~= bearer_prefix());
    assert(s.subrange(7, s.len() as int) =~= token);
}

} // verus!
