use vstd::prelude::*;
use crate::error::AuthError;
use crate::models::{LoginReply, RegisterReply, UserRecord};
use crate::auth::{authentication_at, bearer_prefix, lemma_issued_token_authenticates};
use crate::token::{
    clock_now, clock_reading, generate_jwt_at, issuable_at, token_expired, token_issued_for, token_user,
    TOKEN_LIFETIME_SECS,
};

verus! {

#[verifier::external_type_specification]
#[verifier::external_body]
pub struct ExBcryptError(bcrypt::BcryptError);

/// What `bcrypt::verify(password, hash)` gives: `Some(b)` where it returns
/// `Ok(b)`, `None` where it returns an error (a malformed hash).
pub uninterp spec fn bcrypt_verify_result(password: Seq<char>, hash: Seq<char>) -> Option<bool>;

/// The password matches the stored hash.
pub open spec fn password_accepted(password: Seq<char>, hash: Seq<char>) -> bool {
    bcrypt_verify_result(password, hash) == Some(true)
}

/// The shape of a bcrypt hash at the default cost: 60 characters, starting
/// with the version and cost `$2b$12$`, then the salt and the digest.
pub open spec fn is_default_cost_hash(h: Seq<char>) -> bool {
    h.len() == 60 && h.take(7) == "$2b$12$"@
}

/// Hashes a password with bcrypt at the default cost (`bcrypt::hash`), under a
/// fresh random salt, so two calls give different hashes. It fails only where
/// the system gives no random bytes. A hash it returns verifies the password
/// it was made from: `bcrypt::verify` splits it back into cost, salt and
/// digest and recomputes the same digest. It is written as `$2b$12$`, then the
/// 22 characters of the salt and the 31 of the digest.
#[verifier::external_body]
pub fn hash_password(password: &str) -> (r: Result<String, bcrypt::BcryptError>)
    ensures
        r is Ok ==> password_accepted(password@, r->Ok_0@),
        r is Ok ==> is_default_cost_hash(r->Ok_0@),
{
    bcrypt::hash(password, bcrypt::DEFAULT_COST)
}

/// `bcrypt::verify(password, hash)`, its error turned into `None`.
#[verifier::external_body]
fn bcrypt_verify(password: &str, hash: &str) -> (r: Option<bool>)
    ensures
        r == bcrypt_verify_result(password@, hash@),
{
    bcrypt::verify(password, hash).ok()
}

/// Whether `password` matches the stored `hash`; a malformed hash matches nothing.
pub fn password_matches(password: &str, hash: &str) -> (b: bool)
    ensures
        b == password_accepted(password@, hash@),
{
    match bcrypt_verify(password, hash) {
        Some(b) => b,
        None => false,
    }
}

/// What hashing a new account's password may give: a default-cost bcrypt hash
/// that accepts the password, or `InternalServerError`.
pub open spec fn registration_hash_outcome(password: Seq<char>, r: Result<String, AuthError>) -> bool {
    &&& r is Ok ==> password_accepted(password, r->Ok_0@)
    &&& r is Ok ==> is_default_cost_hash(r->Ok_0@)
    &&& r is Err ==> r->Err_0 == AuthError::InternalServerError
}

/// The hash to store for a new account's password; a failure to hash is an
/// `InternalServerError`.
pub fn registration_password_hash(password: &str) -> (r: Result<String, AuthError>)
    ensures
        registration_hash_outcome(password@, r),
        registration_hashed(password, r),
{
    let hashed = call_hash(hash_password, password);
    assert(hash_password_gave(password, hashed));
    match hashed {
        Ok(h) => Ok(h),
        Err(e) => {
            assert(hash_password_gave(password, Err::<String, bcrypt::BcryptError>(e)));
            Err(AuthError::InternalServerError)
        },
    }
}

/// `res` is what `hash_password` returned for `password`.
pub open spec fn hash_password_gave(password: &str, res: Result<String, bcrypt::BcryptError>) -> bool {
    call_ensures(hash_password, (password,), res)
}

/// Calls the hashing function passed in; its result is one that it gave.
fn call_hash<F: Fn(&str) -> Result<String, bcrypt::BcryptError>>(hash: F, password: &str) -> (r: Result<String, bcrypt::BcryptError>)
    requires
        hash.requires((password,)),
    ensures
        hash.ensures((password,), r),
{
    hash(password)
}

/// The registration hash is the one `hash_password` gave for the password,
/// and a registration fails only where `hash_password` failed.
pub open spec fn registration_hashed(password: &str, r: Result<String, AuthError>) -> bool {
    &&& r is Ok ==> hash_password_gave(password, Ok::<String, bcrypt::BcryptError>(r->Ok_0))
    &&& r is Err ==> exists|e: bcrypt::BcryptError| #[trigger] hash_password_gave(password, Err::<String, bcrypt::BcryptError>(e))
}

/// Registration fails only where bcrypt could not hash the password (the
/// system gave no random bytes); a hash it stores is one that bcrypt gave, in
/// the default-cost format, and accepts the password.
pub proof fn lemma_registration_fails_only_when_hashing_fails(password: &str, r: Result<String, AuthError>)
    requires
        registration_hashed(password, r),
        registration_hash_outcome(password@, r),
    ensures
        r is Err ==> r->Err_0 == AuthError::InternalServerError && exists|e: bcrypt::BcryptError|
            #[trigger] hash_password_gave(password, Err::<String, bcrypt::BcryptError>(e)),
        r is Ok ==> hash_password_gave(password, Ok::<String, bcrypt::BcryptError>(r->Ok_0))
            && password_accepted(password@, r->Ok_0@) && is_default_cost_hash(r->Ok_0@),
        forall|h: String| #[trigger] hash_password_gave(password, Ok::<String, bcrypt::BcryptError>(h))
            ==> password_accepted(password@, h@) && is_default_cost_hash(h@),
{
}

/// The reply to a registration: the stored account and a confirmation.
pub fn registration_reply(user: UserRecord) -> (r: RegisterReply)
    ensures
        r.user == user,
        r.message@ == "User registered successfully"@,
{
    RegisterReply { user, message: String::from_str("User registered successfully") }
}

/// What a login at clock reading `now` answers: with a wrong password,
/// `WrongCredentials`; with the right one, `InternalServerError` where no
/// token can be issued at that reading, else a reply for the user whose token
/// is issued for the user and expires 24 hours after `now`.
pub open spec fn login_at_outcome(
    user: UserRecord,
    password: Seq<char>,
    secret: Seq<char>,
    now: Option<u64>,
    r: Result<LoginReply, AuthError>,
) -> bool {
    &&& !password_accepted(password, user.password_hash@) ==> r == Err::<LoginReply, AuthError>(
        AuthError::WrongCredentials,
    )
    &&& password_accepted(password, user.password_hash@) && !issuable_at(now) ==> r == Err::<
        LoginReply,
        AuthError,
    >(AuthError::InternalServerError)
    &&& password_accepted(password, user.password_hash@) && issuable_at(now) ==> {
        &&& r is Ok
        &&& r->Ok_0.user == user
        &&& r->Ok_0.message@ == "Login successful"@
        &&& token_issued_for(
            r->Ok_0.token@,
            secret,
            user.id,
            (now->Some_0 + TOKEN_LIFETIME_SECS) as i64,
        )
        &&& token_user(r->Ok_0.token@, secret) == Some(user.id)
    }
}

/// Logs `user` in with `password` at clock reading `now`.
pub fn login_at(user: UserRecord, password: &str, secret: &str, now: Option<u64>) -> (r: Result<LoginReply, AuthError>)
    ensures
        login_at_outcome(user, password@, secret@, now, r),
{
    if password_matches(password, user.password_hash.as_str()) {
        match generate_jwt_at(user.id, secret, now) {
            Some(token) => Ok(
                LoginReply { token, user, message: String::from_str("Login successful") },
            ),
            None => Err(AuthError::InternalServerError),
        }
    } else {
        Err(AuthError::WrongCredentials)
    }
}

/// Logs `user` in with `password` now: the system clock is read once, and the
/// outcome is that of `login_at` at that reading.
pub fn login(user: UserRecord, password: &str, secret: &str) -> (r: Result<LoginReply, AuthError>)
    ensures
        exists|now: Option<u64>| #[trigger] login_at_outcome(user, password@, secret@, now, r),
        exists|now: Option<u64>| clock_reading(now) && #[trigger] login_at_outcome(user, password@, secret@, now, r),
{
    let now = clock_now();
    login_at(user, password, secret, now)
}

/// A login now with the right password gives a token issued for the account
/// that expires exactly 24 hours after a reading the system clock gave, or,
/// where the clock gave a reading at which no token can be issued,
/// `InternalServerError`; with a wrong password it gives `WrongCredentials`.
pub proof fn lemma_login_token_expires_a_day_after_reading(
    user: UserRecord,
    password: Seq<char>,
    secret: Seq<char>,
    r: Result<LoginReply, AuthError>,
)
    requires
        exists|now: Option<u64>| clock_reading(now) && #[trigger] login_at_outcome(user, password, secret, now, r),
    ensures
        !password_accepted(password, user.password_hash@) ==> r == Err::<LoginReply, AuthError>(
            AuthError::WrongCredentials,
        ),
        r is Ok ==> password_accepted(password, user.password_hash@) && r->Ok_0.user == user
            && exists|n: u64|
            #[trigger] clock_reading(Some(n)) && token_issued_for(
                r->Ok_0.token@,
                secret,
                user.id,
                (n + TOKEN_LIFETIME_SECS) as i64,
            ),
        password_accepted(password, user.password_hash@) && r is Err ==> r == Err::<LoginReply, AuthError>(
            AuthError::InternalServerError,
        ) && exists|now: Option<u64>| #[trigger] clock_reading(now) && !issuable_at(now),
{
    let now = choose|now: Option<u64>| clock_reading(now) && #[trigger] login_at_outcome(user, password, secret, now, r);
    assert(clock_reading(now));
    if r is Ok {
        assert(clock_reading(Some(now->Some_0)));
    }
}

/// At any clock reading at which a token can be issued, an account registered
/// with a password logs in with that password, and the token it gets names the
/// account.
pub proof fn lemma_registered_password_logs_in_at(
    user: UserRecord,
    password: Seq<char>,
    secret: Seq<char>,
    now: u64,
    hashed: Result<String, AuthError>,
    r: Result<LoginReply, AuthError>,
)
    requires
        registration_hash_outcome(password, hashed),
        hashed is Ok,
        user.password_hash == hashed->Ok_0,
        now <= crate::token::MAX_CLOCK_TIMESTAMP - TOKEN_LIFETIME_SECS,
        login_at_outcome(user, password, secret, Some(now), r),
    ensures
        r is Ok,
        r->Ok_0.user == user,
        token_issued_for(r->Ok_0.token@, secret, user.id, (now + TOKEN_LIFETIME_SECS) as i64),
        token_user(r->Ok_0.token@, secret) == Some(user.id),
{
}

/// The token of a login at reading `now`, sent back in a bearer header at a
/// later reading `later`, authenticates the account until 24 hours (and the
/// leeway) after `now`, and is refused as expired after that.
pub proof fn lemma_login_token_authenticates(
    user: UserRecord,
    password: Seq<char>,
    secret: Seq<char>,
    now: u64,
    later: u64,
    r: Result<LoginReply, AuthError>,
)
    requires
        password_accepted(password, user.password_hash@),
        now <= crate::token::MAX_CLOCK_TIMESTAMP - TOKEN_LIFETIME_SECS,
        login_at_outcome(user, password, secret, Some(now), r),
    ensures
        r is Ok,
        authentication_at(Some(bearer_prefix() + r->Ok_0.token@), secret, Some(later)) == (if token_expired(
            now + TOKEN_LIFETIME_SECS,
            later as int,
        ) {
            Err::<i64, AuthError>(AuthError::TokenExpired)
        } else {
            Ok::<i64, AuthError>(user.id)
        }),
{
    lemma_issued_token_authenticates(
        r->Ok_0.token@,
        secret,
        user.id,
        (now + TOKEN_LIFETIME_SECS) as i64,
        later,
    );
}

} // verus!
