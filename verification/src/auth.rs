use vstd::prelude::*;
use crate::error::AuthError;
use crate::token::{
    claims_from_fields, claims_of, field_view, is_token_char, is_token_text,
    jwt_decode_hs256, jwt_hs256_decode, lemma_issued_claims, clock_now, clock_reading, token_expired,
    token_issued_for, dot_count, EXPIRY_LEEWAY_SECS,
};

verus! {

/// The scheme prefix of a bearer credential: `Bearer ` (with its space).
pub open spec fn bearer_prefix() -> Seq<char> {
    seq!['B', 'e', 'a', 'r', 'e', 'r', ' ']
}

/// The text left after every leading `Bearer ` is removed, as
/// `str::trim_start_matches("Bearer ")` leaves it.
pub open spec fn strip_bearer(s: Seq<char>) -> Seq<char>
    decreases s.len(),
{
    if s.len() >= 7 && s.take(7) == bearer_prefix() {
        strip_bearer(s.skip(7))
    } else {
        s
    }
}

/// Whether `s` continues with `Bearer ` at character `start`.
fn bearer_prefix_at(s: &str, start: usize, n: usize) -> (b: bool)
    requires
        n == s@.len(),
        start <= n,
    ensures
        b == (s@.skip(start as int).len() >= 7 && s@.skip(start as int).take(7) == bearer_prefix()),
{
    if n - start < 7 {
        return false;
    }
    let b = s.get_char(start) == 'B' && s.get_char(start + 1) == 'e' && s.get_char(start + 2)
        == 'a' && s.get_char(start + 3) == 'r' && s.get_char(start + 4) == 'e' && s.get_char(
        start + 5,
    ) == 'r' && s.get_char(start + 6) == ' ';
    let ghost t = s@.skip(start as int).take(7);
    assert(t =~= seq![
        s@[start as int],
        s@[start + 1],
        s@[start + 2],
        s@[start + 3],
        s@[start + 4],
        s@[start + 5],
        s@[start + 6],
    ]);
    assert(b ==> t =~= bearer_prefix());
    assert(t == bearer_prefix() ==> t[0] == 'B' && t[1] == 'e' && t[2] == 'a' && t[3] == 'r'
        && t[4] == 'e' && t[5] == 'r' && t[6] == ' ');
    b
}

/// Removes every leading `Bearer ` from `s`.
pub fn trim_bearer(s: &str) -> (r: &str)
    ensures
        r@ == strip_bearer(s@),
{
    let n = s.unicode_len();
    let mut start: usize = 0;
    assert(s@.skip(0) =~= s@);
    loop
        invariant
            start <= n,
            n == s@.len(),
            strip_bearer(s@) == strip_bearer(s@.skip(start as int)),
        ensures
            start <= n,
            strip_bearer(s@) == strip_bearer(s@.skip(start as int)),
            !(s@.skip(start as int).len() >= 7 && s@.skip(start as int).take(7) == bearer_prefix()),
        decreases n - start,
    {
        if !bearer_prefix_at(s, start, n) {
            break;
        }
        assert(s@.skip(start as int).skip(7) =~= s@.skip(start + 7));
        start = start + 7;
    }
    let r = s.substring_char(start, n);
    assert(r@ =~= s@.skip(start as int));
    assert(strip_bearer(s@.skip(start as int)) == s@.skip(start as int));
    r
}

/// The token that an `Authorization` header carries: the header's text with
/// every leading `Bearer ` removed. A request without the header is refused
/// with `MissingAuthHeader`.
pub fn bearer_token(header: Option<&str>) -> (r: Result<String, AuthError>)
    ensures
        header is None ==> r == Err::<String, AuthError>(AuthError::MissingAuthHeader),
        header matches Some(h) ==> (r is Ok && r->Ok_0@ == strip_bearer(h@)),
{
    match header {
        None => Err(AuthError::MissingAuthHeader),
        Some(h) => Ok(String::from_str(trim_bearer(h))),
    }
}

/// The outcome of authentication for decoded claims (`None` where the token
/// did not decode) and a clock reading (`None` where the clock reads earlier
/// than the epoch): `TokenInvalid` without claims or without integer `sub` and
/// `exp`; then `InternalServerError` without a reading; then `TokenExpired`
/// for an expired token; else the user that `sub` names.
pub open spec fn authorization(
    decoded: Option<Seq<(Seq<char>, Option<i64>)>>,
    now: Option<u64>,
) -> Result<i64, AuthError> {
    match decoded {
        None => Err(AuthError::TokenInvalid),
        Some(f) => match claims_of(f) {
            None => Err(AuthError::TokenInvalid),
            Some(c) => match now {
                None => Err(AuthError::InternalServerError),
                Some(n) => if token_expired(c.exp as int, n as int) {
                    Err(AuthError::TokenExpired)
                } else {
                    Ok(c.sub)
                },
            },
        },
    }
}

/// Decides authentication from the decoded claims and the clock reading.
pub fn authorize(decoded: Option<Vec<(String, Option<i64>)>>, now: Option<u64>) -> (r: Result<i64, AuthError>)
    ensures
        r == authorization(
            match decoded {
                Some(f) => Some(field_view(f@)),
                None => None,
            },
            now,
        ),
{
    match decoded {
        None => Err(AuthError::TokenInvalid),
        Some(fields) => match claims_from_fields(&fields) {
            None => Err(AuthError::TokenInvalid),
            Some(c) => match now {
                None => Err(AuthError::InternalServerError),
                Some(n) => {
                    if (c.exp as i128) + (EXPIRY_LEEWAY_SECS as i128) < (n as i128) {
                        Err(AuthError::TokenExpired)
                    } else {
                        Ok(c.sub)
                    }
                },
            },
        },
    }
}

/// The text of a header, where the request has one.
pub open spec fn header_text(header: Option<&str>) -> Option<Seq<char>> {
    match header {
        Some(h) => Some(h@),
        None => None,
    }
}

/// What authenticating a request with `header` (its text, if present) under
/// `secret` at clock reading `now` answers: `MissingAuthHeader` without the
/// header; else the decision of `authorization` on the claims of the bearer
/// token.
pub open spec fn authentication_at(
    header: Option<Seq<char>>,
    secret: Seq<char>,
    now: Option<u64>,
) -> Result<i64, AuthError> {
    match header {
        None => Err(AuthError::MissingAuthHeader),
        Some(h) => authorization(jwt_hs256_decode(strip_bearer(h), secret), now),
    }
}

/// Authenticates a request from its `Authorization` header (its text, where
/// the header is present and readable as text) with the signing secret, at
/// clock reading `now`, and gives the id of the user that the bearer token
/// names.
pub fn auth_middleware_at(header: Option<&str>, secret: &str, now: Option<u64>) -> (r: Result<i64, AuthError>)
    ensures
        r == authentication_at(header_text(header), secret@, now),
        header matches Some(h) && dot_count(strip_bearer(h@)) != 2 ==> r == Err::<i64, AuthError>(
            AuthError::TokenInvalid,
        ),
{
    let token = match bearer_token(header) {
        Ok(t) => t,
        Err(e) => return Err(e),
    };
    let decoded = jwt_decode_hs256(token.as_str(), secret);
    authorize(decoded, now)
}

/// Authenticates a request from its `Authorization` header with the signing
/// secret, at the system clock's reading, and gives the id of the user that
/// the bearer token names. Which reading the clock gives is not stated.
pub fn auth_middleware(header: Option<&str>, secret: &str) -> (r: Result<i64, AuthError>)
    ensures
        exists|now: Option<u64>| r == #[trigger] authentication_at(header_text(header), secret@, now),
        header matches Some(h) && dot_count(strip_bearer(h@)) != 2 ==> r == Err::<i64, AuthError>(
            AuthError::TokenInvalid,
        ),
        authenticated_at_clock(header_text(header), secret@, r),
{
    let now = clock_now();
    auth_middleware_at(header, secret, now)
}

/// `r` is what authentication answers for `header` under `secret` at a reading
/// that the system clock gave.
pub open spec fn authenticated_at_clock(header: Option<Seq<char>>, secret: Seq<char>, r: Result<i64, AuthError>) -> bool {
    exists|now: Option<u64>| clock_reading(now) && r == #[trigger] authentication_at(header, secret, now)
}

/// A token issued to `sub` expiring at `exp`, sent back in a bearer header
/// and checked against the system clock, authenticates `sub` exactly when the
/// clock's reading is no later than `exp` plus the leeway; at a later reading
/// it is refused as `TokenExpired`, and without a reading the answer is
/// `InternalServerError`.
pub proof fn lemma_clock_decides_expiry(
    token: Seq<char>,
    secret: Seq<char>,
    sub: i64,
    exp: i64,
    r: Result<i64, AuthError>,
)
    requires
        token_issued_for(token, secret, sub, exp),
        0 <= exp,
        authenticated_at_clock(Some(bearer_prefix() + token), secret, r),
    ensures
        exists|now: Option<u64>|
            #[trigger] clock_reading(now) && match now {
                None => r == Err::<i64, AuthError>(AuthError::InternalServerError),
                Some(n) => (r == Ok::<i64, AuthError>(sub) <==> exp + EXPIRY_LEEWAY_SECS >= n)
                    && (r == Err::<i64, AuthError>(AuthError::TokenExpired) <==> exp
                    + EXPIRY_LEEWAY_SECS < n),
            },
{
    let now = choose|now: Option<u64>|
        clock_reading(now) && r == #[trigger] authentication_at(Some(bearer_prefix() + token), secret, now);
    lemma_bearer_header_round_trip(token);
    lemma_issued_claims(sub, exp);
    assert(clock_reading(now));
}

/// The id of the authenticated user, as the authentication step recorded it
/// on the request; a request that carries none is refused with `Unauthorized`.
pub fn get_user_id(recorded: Option<i64>) -> (r: Result<i64, AuthError>)
    ensures
        match recorded {
            Some(id) => r == Ok::<i64, AuthError>(id),
            None => r == Err::<i64, AuthError>(AuthError::Unauthorized),
        },
{
    match recorded {
        Some(id) => Ok(id),
        None => Err(AuthError::Unauthorized),
    }
}

/// A bearer header made for a token is read back as that token: a token's
/// characters never include the space that ends `Bearer `.
pub proof fn lemma_bearer_header_round_trip(token: Seq<char>)
    requires
        is_token_text(token),
    ensures
        strip_bearer(bearer_prefix() + token) == token,
{
    let h = bearer_prefix() + token;
    assert(h.take(7) =~= bearer_prefix());
    assert(h.skip(7) =~= token);
    assert(!(token.len() >= 7 && token.take(7) == bearer_prefix())) by {
        if token.len() >= 7 && token.take(7) == bearer_prefix() {
            assert(token.take(7)[6] == token[6]);
            assert(bearer_prefix()[6] == ' ');
            assert(is_token_char(token[6]));
        }
    }
    assert(strip_bearer(token) == token);
    assert(strip_bearer(h) == strip_bearer(h.skip(7)));
}

/// A token issued to a user and sent back in a bearer header authenticates
/// that user until its expiry (with the leeway) has passed, and from then on
/// is refused as expired.
pub proof fn lemma_issued_token_authenticates(token: Seq<char>, secret: Seq<char>, sub: i64, exp: i64, now: u64)
    requires
        token_issued_for(token, secret, sub, exp),
        0 <= exp,
    ensures
        authentication_at(Some(bearer_prefix() + token), secret, Some(now)) == (if token_expired(
            exp as int,
            now as int,
        ) {
            Err::<i64, AuthError>(AuthError::TokenExpired)
        } else {
            Ok::<i64, AuthError>(sub)
        }),
{
    lemma_bearer_header_round_trip(token);
    lemma_issued_claims(sub, exp);
}

} // verus!
