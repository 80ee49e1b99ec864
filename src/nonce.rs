//! Nonce request material: an ephemeral public key, an expiry epoch and
//! binding randomness, as handed to a client for its OIDC nonce field.
use vstd::prelude::*;

verus! {

/// How long issued nonce material stays valid, in seconds.
pub const NONCE_VALIDITY_SECS: i64 = 3600;

/// The material that a client commits to in its OIDC nonce.
pub struct Nonce {
    pub eph_pk: String,
    pub max_epoch: i64,
    pub jwt_randomness: String,
}

/// The opaque encoded nonce returned to the client.
pub struct NonceResponse {
    pub nonce: String,
}

/// The expiry epoch of material issued at `now`.
pub open spec fn expiry_of(now: int) -> int {
    now + NONCE_VALIDITY_SECS
}

impl Nonce {
    /// Packages an ephemeral public key and binding randomness with the
    /// expiry epoch of material issued at `now` (seconds since the epoch).
    /// `None` when that epoch does not fit in an `i64`.
    pub fn new(eph_pk: String, now: i64, jwt_randomness: String) -> (r: Option<Nonce>)
        ensures
            expiry_of(now as int) <= i64::MAX ==> (r matches Some(n) && n.eph_pk@ == eph_pk@
                && n.jwt_randomness@ == jwt_randomness@ && n.max_epoch == expiry_of(now as int)
                && n.max_epoch > now),
            expiry_of(now as int) > i64::MAX ==> r is None,
    {
        if now > i64::MAX - NONCE_VALIDITY_SECS {
            None
        } else {
            Some(Nonce { eph_pk, max_epoch: now + NONCE_VALIDITY_SECS, jwt_randomness })
        }
    }
}

} // verus!
