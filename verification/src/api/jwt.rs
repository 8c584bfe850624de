//! The claims of the service's access tokens.

use vstd::prelude::*;
use vstd::string::StringExecFns;

verus! {

/// A point in time of the `time` crate.
#[verifier::external_type_specification]
#[verifier::external_body]
pub struct ExOffsetDateTime(time::OffsetDateTime);

/// How long a token stays valid: ten years of 365 days, in seconds.
pub const TOKEN_LIFETIME_SECONDS: i64 = 315_360_000;

/// A bound on the Unix timestamps (in seconds) of the points in time that the
/// `time` crate represents, which lie within a million years of the epoch.
pub const TIMESTAMP_BOUND: i64 = 100_000_000_000_000;

/// The user that a token speaks for.
pub struct User {
    pub id: i64,
    pub first_name: String,
    pub last_name: String,
}

/// What a token claims: its user and the Unix time at which it expires.
pub struct Claims {
    pub user: User,
    pub exp: usize,
}

/// The error of the token library, held as the text that describes it.
pub struct Error(pub String);

/// The expiry of a token issued at Unix time `now`, as a `usize`.
pub open spec fn expiry(now: i64) -> usize {
    (now + TOKEN_LIFETIME_SECONDS) as usize
}

/// `time::OffsetDateTime::now_utc`, converted to its Unix timestamp in
/// seconds. The contract claims only that the timestamp lies within the
/// range of the points in time that `time` represents; which instant is read
/// is the clock's.
#[verifier::external_body]
fn now_unix_timestamp() -> (r: i64)
    ensures
        -TIMESTAMP_BOUND <= r <= TIMESTAMP_BOUND,
{
    time::OffsetDateTime::now_utc().unix_timestamp()
}

impl Claims {
    /// The claims of a token for `user` issued at Unix time `now`: it expires
    /// ten years later.
    pub fn issued_at(user: User, now: i64) -> (c: Claims)
        requires
            now <= i64::MAX - TOKEN_LIFETIME_SECONDS,
        ensures
            c.user == user,
            c.exp == expiry(now),
    {
        let exp = (now + TOKEN_LIFETIME_SECONDS) as usize;
        Claims { user, exp }
    }

    /// The claims of a token for `user` issued now: it expires ten years after
    /// the clock's reading.
    pub fn issued_now(user: User) -> (c: Claims)
        ensures
            c.user == user,
            exists|now: i64| -TIMESTAMP_BOUND <= now <= TIMESTAMP_BOUND && c.exp == expiry(now),
    {
        let now = now_unix_timestamp();
        Claims::issued_at(user, now)
    }

    /// The id of the user that the claims speak for.
    pub fn user_id(&self) -> (id: i64)
        ensures
            id == self.user.id,
    {
        self.user.id
    }
}

impl Error {
    /// The text that describes this error: "jsonwebtoken error: " and the
    /// library's own description.
    pub fn text(&self) -> (r: String)
        ensures
            r@ == "jsonwebtoken error: "@ + self.0@,
    {
        String::from_str("jsonwebtoken error: ").concat(self.0.as_str())
    }
}

/// A token issued at a time whose expiry fits a `usize` expires exactly ten
/// years later.
pub proof fn lemma_expiry_is_ten_years_later(now: i64)
    requires
        0 <= now + TOKEN_LIFETIME_SECONDS <= usize::MAX,
    ensures
        expiry(now) as int == now + TOKEN_LIFETIME_SECONDS,
{
}

} // verus!
