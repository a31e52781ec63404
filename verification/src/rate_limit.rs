//! Rate-limit keys: requests are counted per authenticated user, and per
//! peer address for requests without an authenticated user.
use vstd::prelude::*;
use crate::text::{decimal_i64, lemma_decimal_injective, spec_decimal};

verus! {

/// The authenticated user's id, attached to a request for the rate limiter.
/// It can only be made from a session lookup (`from_session_lookup`).
#[derive(Clone, Copy, Debug)]
pub struct SessionUserId(i64);

impl SessionUserId {
    /// The id held.
    pub closed spec fn spec_user_id(self) -> i64 {
        self.0
    }

    /// Returns the authenticated user's id.
    pub fn user_id(&self) -> (r: i64)
        ensures
            r == self.spec_user_id(),
    {
        self.0
    }

    /// Turns the user id read from the session into the value to attach to
    /// the request: one exists exactly when the session holds a user id.
    pub fn from_session_lookup(user_id: Option<i64>) -> (r: Option<SessionUserId>)
        ensures
            r is Some <==> user_id is Some,
            r matches Some(s) ==> Some(s.spec_user_id()) == user_id,
    {
        match user_id {
            Some(id) => Some(SessionUserId(id)),
            None => None,
        }
    }
}

/// Why no key could be made for a request.
#[derive(Clone, Copy, Debug, PartialEq, Eq, Structural)]
pub enum KeyExtractError {
    /// The request has neither an authenticated user nor a peer address.
    UnableToExtractKey,
}

/// The key of an authenticated user: `u:` and the id in decimal.
pub open spec fn spec_user_key(user_id: i64) -> Seq<char> {
    "u:"@ + spec_decimal(user_id as int)
}

/// The key of an unauthenticated request: `ip:` and the peer address.
pub open spec fn spec_ip_key(ip: Seq<char>) -> Seq<char> {
    "ip:"@ + ip
}

/// Keys requests for the rate limiter.
#[derive(Clone, Copy, Debug)]
pub struct UserIdKeyExtractor;

impl UserIdKeyExtractor {
    /// Makes a request's key from its attached user id and its peer IP
    /// address (rendered as text); the user id takes precedence.
    pub fn extract(&self, user: Option<SessionUserId>, peer_ip: Option<&str>) -> (r: Result<
        String,
        KeyExtractError,
    >)
        ensures
            user matches Some(u) ==> (r matches Ok(k) && k@ == spec_user_key(u.spec_user_id())),
            user is None && peer_ip is Some ==> (r matches Ok(k) && k@ == spec_ip_key(peer_ip->0@)),
            user is None && peer_ip is None ==> r == Err::<String, KeyExtractError>(
                KeyExtractError::UnableToExtractKey,
            ),
    {
        match user {
            Some(u) => {
                let mut key = String::from_str("u:");
                let digits = decimal_i64(u.user_id());
                key.append(digits.as_str());
                Ok(key)
            },
            None => match peer_ip {
                Some(ip) => {
                    let mut key = String::from_str("ip:");
                    key.append(ip);
                    Ok(key)
                },
                None => Err(KeyExtractError::UnableToExtractKey),
            },
        }
    }
}

/// Distinct users are counted under distinct keys.
pub proof fn lemma_user_keys_distinct(a: i64, b: i64)
    requires
        a != b,
    ensures
        spec_user_key(a) != spec_user_key(b),
{
    lemma_decimal_injective(a as int, b as int);
    let p = "u:"@;
    if spec_user_key(a) == spec_user_key(b) {
        assert(spec_user_key(a).skip(p.len() as int) =~= spec_decimal(a as int));
        assert(spec_user_key(b).skip(p.len() as int) =~= spec_decimal(b as int));
    }
}

/// Distinct peer addresses are counted under distinct keys.
pub proof fn lemma_ip_keys_distinct(a: Seq<char>, b: Seq<char>)
    requires
        a != b,
    ensures
        spec_ip_key(a) != spec_ip_key(b),
{
    let p = "ip:"@;
    if spec_ip_key(a) == spec_ip_key(b) {
        assert(spec_ip_key(a).skip(p.len() as int) =~= a);
        assert(spec_ip_key(b).skip(p.len() as int) =~= b);
    }
}

/// A user's key never equals an address's key, so authenticated and
/// unauthenticated traffic never share a budget.
pub proof fn lemma_user_and_ip_keys_differ(user_id: i64, ip: Seq<char>)
    ensures
        spec_user_key(user_id) != spec_ip_key(ip),
{
    reveal_strlit("u:");
    reveal_strlit("ip:");
    assert(spec_user_key(user_id)[0] == 'u');
    assert(spec_ip_key(ip)[0] == 'i');
}

} // verus!
