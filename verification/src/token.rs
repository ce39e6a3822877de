use vstd::prelude::*;

verus! {

/// What a session token says: the user it was issued to and when it expires
/// (seconds since the Unix epoch).
#[derive(Debug, Clone, Copy, PartialEq, Eq, Structural)]
pub struct Claims {
    pub sub: i64,
    pub exp: i64,
}

/// How long a token stays valid after it is issued: 24 hours.
pub const TOKEN_LIFETIME_SECS: i64 = 86400;

/// The latest instant, in seconds since the Unix epoch, that a chrono
/// `DateTime<Utc>` can represent (the last second of the year 262142). A
/// token's expiry is computed as such a date, so it cannot lie later.
pub const MAX_CLOCK_TIMESTAMP: i64 = 8210266876799;

/// How long after its expiry a token is still accepted: 60 seconds.
pub const EXPIRY_LEEWAY_SECS: i64 = 60;

/// A character that can occur in an encoded token: the URL-safe base64
/// alphabet and the `.` that separates a token's parts.
pub open spec fn is_token_char(c: char) -> bool {
    ('A' <= c && c <= 'Z') || ('a' <= c && c <= 'z') || ('0' <= c && c <= '9') || c == '-' || c
        == '_' || c == '.'
}

pub open spec fn is_token_text(s: Seq<char>) -> bool {
    forall|i: int| 0 <= i < s.len() ==> #[trigger] is_token_char(s[i])
}

/// The number of `.` in a text; a token has exactly two, between its header,
/// its payload and its signature.
pub open spec fn dot_count(s: Seq<char>) -> nat {
    s.filter(|c: char| c == '.').len()
}

/// The claim set of a token issued to `sub` expiring at `exp`, in the order
/// in which it is written: `sub`, then `exp`.
pub open spec fn issued_claims(sub: i64, exp: i64) -> Seq<(Seq<char>, Option<i64>)> {
    seq![("sub"@, Some(sub)), ("exp"@, Some(exp))]
}

/// The HS256 JSON Web Token with header `{"typ":"JWT","alg":"HS256"}` and
/// claims `{"sub":sub,"exp":exp}`, signed with the bytes of `secret`.
pub uninterp spec fn jwt_hs256_token(sub: i64, exp: i64, secret: Seq<char>) -> Seq<char>;

/// What `jwt_decode_hs256` gives for `token` and `secret`: the claims of a
/// token whose HS256 signature checks under the bytes of `secret`, whose
/// payload reads as a JSON object and which carries an `exp` claim that is a
/// nonnegative number; each claim's name and, where its value is an integer
/// that fits in an `i64`, that value, in the order of the payload. `None` for
/// every other token.
pub uninterp spec fn jwt_hs256_decode(token: Seq<char>, secret: Seq<char>) -> Option<Seq<(Seq<char>, Option<i64>)>>;

/// `token` is the token issued for `sub`, expiring at `exp`, under `secret`:
/// it has three parts of URL-safe base64, and, where `exp` is nonnegative, it
/// decodes under the same secret to exactly the claims `sub` and `exp`.
pub open spec fn token_issued_for(token: Seq<char>, secret: Seq<char>, sub: i64, exp: i64) -> bool {
    &&& token == jwt_hs256_token(sub, exp, secret)
    &&& is_token_text(token)
    &&& dot_count(token) == 2
    &&& 0 <= exp ==> jwt_hs256_decode(token, secret) == Some(issued_claims(sub, exp))
}

#[verifier::external_type_specification]
#[verifier::external_body]
pub struct ExJwtError(jsonwebtoken::errors::Error);

/// `jsonwebtoken::encode` with the default header (HS256), the claims
/// `{"sub":sub,"exp":exp}` and a key made from the bytes of `secret`.
/// For an HMAC key and an HMAC header nothing in the crate can fail, so the
/// result is `Ok`; the token is the one that `jwt_hs256_token` names, made of
/// three URL-safe base64 parts joined by `.`. Its signature checks under the
/// same secret and its payload is the JSON object `{"sub":sub,"exp":exp}`, so
/// where `exp` is nonnegative it decodes to those two claims, in that order.
#[verifier::external_body]
fn jwt_encode_hs256(sub: i64, exp: i64, secret: &str) -> (r: Result<String, jsonwebtoken::errors::Error>)
    ensures
        r is Ok,
        r->Ok_0@ == jwt_hs256_token(sub, exp, secret@),
        token_issued_for(r->Ok_0@, secret@, sub, exp),
{
    let mut claims = serde_json::Map::new();
    claims.insert("sub".to_string(), serde_json::Value::from(sub));
    claims.insert("exp".to_string(), serde_json::Value::from(exp));
    jsonwebtoken::encode(
        &jsonwebtoken::Header::default(),
        &claims,
        &jsonwebtoken::EncodingKey::from_secret(secret.as_bytes()),
    )
}

/// The system clock (`std::time::SystemTime::now`), in whole seconds since the
/// Unix epoch; `None` where the clock reads earlier than the epoch. Nothing is
/// stated of the reading.
#[verifier::external_body]
pub(crate) fn system_clock() -> (r: Option<u64>) {
    std::time::SystemTime::now().duration_since(std::time::UNIX_EPOCH).ok().map(|d| d.as_secs())
}

/// `now` is a reading that the system clock gave: `system_clock` returned it.
pub closed spec fn clock_reading(now: Option<u64>) -> bool {
    call_ensures(system_clock, (), now)
}

/// Reads the clock passed in; the reading is one that the clock gave.
fn read_clock<F: Fn() -> Option<u64>>(clock: F) -> (r: Option<u64>)
    requires
        clock.requires(()),
    ensures
        clock.ensures((), r),
{
    clock()
}

/// Reads the system clock.
pub(crate) fn clock_now() -> (r: Option<u64>)
    ensures
        clock_reading(r),
{
    read_clock(system_clock)
}

/// The claims in a list of decoded claims, each name taken by its view.
pub open spec fn field_view(fields: Seq<(String, Option<i64>)>) -> Seq<(Seq<char>, Option<i64>)> {
    fields.map_values(|p: (String, Option<i64>)| (p.0@, p.1))
}

/// `jsonwebtoken::decode` of `token` into a JSON object of claims, with a key
/// made from the bytes of `secret` and the default validation (HS256 only, the
/// `exp` claim required, no audience) except that the expiry is not compared
/// with the clock: the call reads no clock, so its result is a function of the
/// token and the secret, which `jwt_hs256_decode` names. Each claim's value is
/// taken as an integer where it is one; every error becomes `None`. A token
/// without exactly two `.` never decodes: fewer leave the crate without a
/// header or a payload, more leave a `.` in the base64 header.
#[verifier::external_body]
pub(crate) fn jwt_decode_hs256(token: &str, secret: &str) -> (r: Option<Vec<(String, Option<i64>)>>)
    ensures
        r is Some ==> jwt_hs256_decode(token@, secret@) == Some(field_view(r->Some_0@)),
        r is None <==> jwt_hs256_decode(token@, secret@) is None,
        dot_count(token@) != 2 ==> r is None,
{
    let mut validation = jsonwebtoken::Validation::default();
    validation.validate_exp = false;
    jsonwebtoken::decode::<serde_json::Map<String, serde_json::Value>>(
        token,
        &jsonwebtoken::DecodingKey::from_secret(secret.as_bytes()),
        &validation,
    ).ok().map(|data| data.claims.into_iter().map(|(k, v)| (k, v.as_i64())).collect())
}

/// A token whose expiry is `exp` has expired at time `now`: more than the
/// leeway has passed since `exp`.
pub open spec fn token_expired(exp: int, now: int) -> bool {
    exp + EXPIRY_LEEWAY_SECS < now
}

/// The value of the first claim named `name`, if there is one.
pub open spec fn claim_value(fields: Seq<(Seq<char>, Option<i64>)>, name: Seq<char>) -> Option<Option<i64>>
    decreases fields.len(),
{
    if fields.len() == 0 {
        None
    } else if fields[0].0 == name {
        Some(fields[0].1)
    } else {
        claim_value(fields.skip(1), name)
    }
}

/// The `Claims` that a claim set holds: `sub` and `exp` must both be there,
/// and both integers.
pub open spec fn claims_of(fields: Seq<(Seq<char>, Option<i64>)>) -> Option<Claims> {
    match (claim_value(fields, "sub"@), claim_value(fields, "exp"@)) {
        (Some(Some(sub)), Some(Some(exp))) => Some(Claims { sub, exp }),
        _ => None,
    }
}

/// The claims written into a token are read back as the same `Claims`.
pub proof fn lemma_issued_claims(sub: i64, exp: i64)
    ensures
        claims_of(issued_claims(sub, exp)) == Some(Claims { sub, exp }),
{
    reveal_strlit("sub");
    reveal_strlit("exp");
    let f = issued_claims(sub, exp);
    assert("sub"@[0] != "exp"@[0]);
    assert(f[0].0 != "exp"@);
    assert(f.skip(1)[0] == f[1]);
    assert(claim_value(f, "sub"@) == Some(Some(sub)));
    assert(claim_value(f.skip(1), "exp"@) == Some(Some(exp)));
}

/// The user that a token names under `secret`, if it carries well-formed claims.
pub open spec fn token_user(token: Seq<char>, secret: Seq<char>) -> Option<i64> {
    match jwt_hs256_decode(token, secret) {
        Some(f) => match claims_of(f) {
            Some(c) => Some(c.sub),
            None => None,
        },
        None => None,
    }
}

fn find_claim(fields: &Vec<(String, Option<i64>)>, name: &String) -> (r: Option<Option<i64>>)
    ensures
        r == claim_value(field_view(fields@), name@),
{
    let ghost fv = field_view(fields@);
    let mut i: usize = 0;
    assert(fv.skip(0) =~= fv);
    while i < fields.len()
        invariant
            i <= fields.len(),
            fv == field_view(fields@),
            claim_value(fv, name@) == claim_value(fv.skip(i as int), name@),
        decreases fields.len() - i,
    {
        let ghost rest = fv.skip(i as int);
        assert(rest[0] == (fields@[i as int].0@, fields@[i as int].1));
        if fields[i].0 == *name {
            return Some(fields[i].1);
        }
        assert(rest.skip(1) =~= fv.skip(i + 1));
        i += 1;
    }
    None
}

/// Reads the claims of a token out of its decoded claim set.
pub fn claims_from_fields(fields: &Vec<(String, Option<i64>)>) -> (r: Option<Claims>)
    ensures
        r == claims_of(field_view(fields@)),
{
    let sub_name = String::from_str("sub");
    let exp_name = String::from_str("exp");
    match (find_claim(fields, &sub_name), find_claim(fields, &exp_name)) {
        (Some(Some(sub)), Some(Some(exp))) => Some(Claims { sub, exp }),
        _ => None,
    }
}

impl Claims {
    /// The claims of a token issued to `user_id` at `now`: it expires 24 hours later.
    pub fn issued_at(user_id: i64, now: i64) -> (c: Claims)
        requires
            now <= MAX_CLOCK_TIMESTAMP - TOKEN_LIFETIME_SECS,
        ensures
            c.sub == user_id,
            c.exp == now + TOKEN_LIFETIME_SECS,
    {
        Claims { sub: user_id, exp: now + TOKEN_LIFETIME_SECS }
    }
}

/// A token can be issued at clock reading `now`: the clock reads no earlier
/// than the epoch, and a day later still lies within `MAX_CLOCK_TIMESTAMP`.
pub open spec fn issuable_at(now: Option<u64>) -> bool {
    now matches Some(n) && n <= MAX_CLOCK_TIMESTAMP - TOKEN_LIFETIME_SECS
}

/// What issuing a token for `user_id` under `secret` at reading `now` gives:
/// a token exactly where one can be issued at that reading, issued for the
/// user and expiring 24 hours after `now`.
pub open spec fn issue_outcome(user_id: i64, secret: Seq<char>, now: Option<u64>, r: Option<String>) -> bool {
    &&& r is Some <==> issuable_at(now)
    &&& r is Some ==> token_issued_for(
        r->Some_0@,
        secret,
        user_id,
        (now->Some_0 + TOKEN_LIFETIME_SECS) as i64,
    )
    &&& r is Some ==> token_user(r->Some_0@, secret) == Some(user_id)
}

/// Issues a token for `user_id` at clock reading `now`, signed with `secret`;
/// it expires 24 hours after `now`. `None` where no token can be issued at
/// that reading.
pub fn generate_jwt_at(user_id: i64, secret: &str, now: Option<u64>) -> (r: Option<String>)
    ensures
        r is Some <==> issuable_at(now),
        r is Some ==> token_issued_for(
            r->Some_0@,
            secret@,
            user_id,
            (now->Some_0 + TOKEN_LIFETIME_SECS) as i64,
        ),
        r is Some ==> token_user(r->Some_0@, secret@) == Some(user_id),
        issue_outcome(user_id, secret@, now, r),
{
    match now {
        Some(n) => {
            if n > (MAX_CLOCK_TIMESTAMP - TOKEN_LIFETIME_SECS) as u64 {
                return None;
            }
            let claims = Claims::issued_at(user_id, n as i64);
            let encoded = jwt_encode_hs256(claims.sub, claims.exp, secret);
            proof {
                lemma_issued_claims(claims.sub, claims.exp);
            }
            match encoded {
                Ok(t) => Some(t),
                Err(_) => None,
            }
        },
        None => None,
    }
}

/// Issues a token for `user_id` now, signed with `secret`: the system clock is
/// read once, and the outcome is that of `generate_jwt_at` at that reading; the
/// token expires 24 hours after it.
pub fn generate_jwt(user_id: i64, secret: &str) -> (r: Option<String>)
    ensures
        r is Some ==> exists|exp: i64|
            TOKEN_LIFETIME_SECS <= exp <= MAX_CLOCK_TIMESTAMP && #[trigger] token_issued_for(
                r->Some_0@,
                secret@,
                user_id,
                exp,
            ),
        r is Some ==> token_user(r->Some_0@, secret@) == Some(user_id),
        exists|now: Option<u64>| clock_reading(now) && #[trigger] issue_outcome(user_id, secret@, now, r),
{
    let now = clock_now();
    generate_jwt_at(user_id, secret, now)
}

/// A token issued now expires exactly 24 hours after a reading that the
/// system clock gave, and decodes under the same secret to the user and that
/// expiry; where no token is issued, the clock gave a reading at which none
/// can be.
pub proof fn lemma_issued_now_expires_a_day_after_reading(user_id: i64, secret: Seq<char>, r: Option<String>)
    requires
        exists|now: Option<u64>| clock_reading(now) && #[trigger] issue_outcome(user_id, secret, now, r),
    ensures
        r is Some ==> exists|n: u64|
            #[trigger] clock_reading(Some(n)) && n + TOKEN_LIFETIME_SECS <= MAX_CLOCK_TIMESTAMP
                && jwt_hs256_decode(r->Some_0@, secret) == Some(
                issued_claims(user_id, (n + TOKEN_LIFETIME_SECS) as i64),
            ),
        r is None ==> exists|now: Option<u64>| #[trigger] clock_reading(now) && !issuable_at(now),
{
    let now = choose|now: Option<u64>| clock_reading(now) && #[trigger] issue_outcome(user_id, secret, now, r);
    if r is Some {
        let n = now->Some_0;
        assert(clock_reading(Some(n)));
    }
}

} // verus!
