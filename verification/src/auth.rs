//! Authentication: argon2id password hashing and the decisions that turn a
//! session's contents into an authenticated user or administrator.
use vstd::prelude::*;
use argon2::password_hash::rand_core::OsRng;
use argon2::password_hash::{PasswordHash, PasswordHasher, PasswordVerifier, SaltString};
use argon2::Argon2;

verus! {

/// The session key under which the authenticated user's id is stored.
pub const SESSION_USER_ID_KEY: &'static str = "user_id";

/// The session key under which the authenticated user's admin flag is stored.
pub const SESSION_IS_ADMIN_KEY: &'static str = "is_admin";

#[verifier::external_type_specification]
#[verifier::external_body]
pub struct ExSaltString(SaltString);

/// Whether `hash` parses as a PHC hash string (`PasswordHash::new`
/// succeeds on it).
pub uninterp spec fn spec_is_phc_hash(hash: Seq<char>) -> bool;

/// Whether `password` matches the PHC hash string `hash` under argon2's
/// verification (`Argon2::default().verify_password` on the parsed hash
/// succeeds): the hash recomputed with the algorithm, version, parameters and
/// salt that the string records equals the stored one.
pub uninterp spec fn spec_password_matches(password: Seq<char>, hash: Seq<char>) -> bool;

/// A salt drawn by `generate_salt`: 16 random bytes in B64. No other salt
/// can be made, as the field is private to this module.
struct FreshSalt {
    salt: SaltString,
}

/// Whether argon2 accepts a password for hashing: its UTF-8 bytes number at
/// most `0xFFFF_FFFF` (argon2's `MAX_PWD_LEN`).
pub open spec fn spec_password_hashable(password: Seq<char>) -> bool {
    vstd::utf8::encode_utf8(password).len() <= 0xFFFF_FFFF
}

/// Draws a fresh random salt from the operating system.
///
/// Trusted: calls `SaltString::generate` with `OsRng`, which B64-encodes 16
/// random bytes; nothing is stated of the salt, which is random.
#[verifier::external_body]
fn generate_salt() -> (r: FreshSalt) {
    FreshSalt { salt: SaltString::generate(&mut OsRng) }
}

/// Hashes a password with argon2id (default parameters) and the given salt,
/// rendering the result as a PHC string.
///
/// Trusted: calls `Argon2::default().hash_password` and `to_string`. In
/// argon2's source, hashing with default parameters and a salt of 16 bytes
/// fails only where the password is longer than `MAX_PWD_LEN` bytes
/// (`PwdTooLong`). The contract also states that verifying the same password
/// against the result succeeds, which holds because verification recomputes
/// the hash with the algorithm, version, parameters and salt that the PHC
/// string records. The hash bytes themselves are not stated.
#[verifier::external_body]
fn argon2_hash(password: &str, salt: &FreshSalt) -> (r: Result<String, String>)
    ensures
        r is Ok <==> spec_password_hashable(password@),
        r matches Ok(h) ==> spec_is_phc_hash(h@) && spec_password_matches(password@, h@),
{
    Argon2::default().hash_password(password.as_bytes(), &salt.salt).map(|h| h.to_string()).map_err(
        |e| format!("Failed to hash password: {e}"),
    )
}

/// Checks a password against a PHC hash string with argon2.
///
/// Trusted: calls `PasswordHash::new`, whose outcome is named by
/// `spec_is_phc_hash`, and then `Argon2::default().verify_password`, whose
/// outcome is named by `spec_password_matches`. Whether another password
/// also matches a hash (a collision of argon2) is not stated.
#[verifier::external_body]
fn argon2_verify(password: &str, hash: &str) -> (r: Result<bool, String>)
    ensures
        r is Err <==> !spec_is_phc_hash(hash@),
        r matches Ok(b) ==> b == spec_password_matches(password@, hash@),
{
    let parsed = PasswordHash::new(hash).map_err(|e| format!("Malformed password hash: {e}"))?;
    Ok(Argon2::default().verify_password(password.as_bytes(), &parsed).is_ok())
}

/// Hashes a plaintext password with argon2id and a fresh random salt. The
/// returned string holds algorithm, parameters, salt and hash, and verifies
/// against the same password. Hashing succeeds for every password of at most
/// `0xFFFF_FFFF` bytes and fails for longer ones.
pub fn hash_password(password: &str) -> (r: Result<String, String>)
    ensures
        r is Ok <==> spec_password_hashable(password@),
        r matches Ok(h) ==> spec_is_phc_hash(h@) && spec_password_matches(password@, h@),
{
    let salt = generate_salt();
    argon2_hash(password, &salt)
}

/// Verifies a plaintext password against a stored hash: `Ok(true)` if it
/// matches, `Ok(false)` if not, and `Err`, whatever the password, exactly
/// when the hash string is not a PHC string.
pub fn verify_password(password: &str, hash: &str) -> (r: Result<bool, String>)
    ensures
        r is Err <==> !spec_is_phc_hash(hash@),
        r matches Ok(b) ==> b == spec_password_matches(password@, hash@),
{
    argon2_verify(password, hash)
}

/// An authenticated user, taken from the session.
pub struct AuthUser {
    pub user_id: i64,
}

/// Refusal of an unauthenticated request: the client is sent to `/login`.
#[derive(Debug)]
pub struct AuthRedirect;

/// Refusal of a request that needs an administrator: `403 Forbidden`.
#[derive(Debug)]
pub struct AuthForbidden;

/// An authenticated administrator, taken from the session.
pub struct AuthAdmin {
    pub user_id: i64,
}

/// The user id a session authenticates, if any.
pub open spec fn spec_authenticated_user(user_id: Option<i64>) -> Option<i64> {
    user_id
}

/// The administrator id a session authenticates, if any: the user id, where
/// the admin flag is present and true.
pub open spec fn spec_authenticated_admin(user_id: Option<i64>, is_admin: Option<bool>) -> Option<i64> {
    if is_admin == Some(true) {
        user_id
    } else {
        None
    }
}

impl AuthUser {
    /// Authenticates from the user id read from the session: `None` stands
    /// for a missing session, a failed read or an absent key alike.
    pub fn from_session(user_id: Option<i64>) -> (r: Result<AuthUser, AuthRedirect>)
        ensures
            r is Ok <==> spec_authenticated_user(user_id) is Some,
            r matches Ok(u) ==> Some(u.user_id) == spec_authenticated_user(user_id),
    {
        match user_id {
            Some(id) => Ok(AuthUser { user_id: id }),
            None => Err(AuthRedirect),
        }
    }
}

impl AuthAdmin {
    /// Authenticates an administrator from the user id and admin flag read
    /// from the session (each `None` where the session, the read or the key
    /// is missing). A missing flag counts as "not an administrator".
    pub fn from_session(user_id: Option<i64>, is_admin: Option<bool>) -> (r: Result<
        AuthAdmin,
        AuthForbidden,
    >)
        ensures
            r is Ok <==> spec_authenticated_admin(user_id, is_admin) is Some,
            r matches Ok(a) ==> Some(a.user_id) == spec_authenticated_admin(user_id, is_admin),
    {
        let id = match user_id {
            Some(id) => id,
            None => {
                return Err(AuthForbidden);
            },
        };
        let admin = match is_admin {
            Some(b) => b,
            None => false,
        };
        if !admin {
            return Err(AuthForbidden);
        }
        Ok(AuthAdmin { user_id: id })
    }
}

/// Whatever the session holds, an administrator is also an authenticated
/// user, with the same id.
pub proof fn lemma_admin_is_user(user_id: Option<i64>, is_admin: Option<bool>)
    ensures
        spec_authenticated_admin(user_id, is_admin) is Some ==> spec_authenticated_user(user_id)
            == spec_authenticated_admin(user_id, is_admin),
{
}

} // verus!
