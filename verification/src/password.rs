//! Password hashing with bcrypt.

use vstd::prelude::*;

verus! {

/// What `bcrypt::verify` answers for a password and a stored hash: whether the
/// password matches the hash, or `None` where it reports an error (a hash it
/// cannot read).
pub uninterp spec fn bcrypt_verified(password: Seq<char>, hash: Seq<char>) -> Option<bool>;

/// The cost with which account passwords are hashed.
pub const HASH_COST: u32 = 4;

/// `bcrypt::verify` on the UTF-8 bytes of `password`, with its error dropped.
/// The contract names its answer.
#[verifier::external_body]
pub(crate) fn bcrypt_verify(password: &str, hash: &str) -> (r: Option<bool>)
    ensures
        r == bcrypt_verified(password@, hash@),
{
    bcrypt::verify(password, hash).ok()
}

/// `bcrypt::hash` on the UTF-8 bytes of `password`, with its error dropped.
/// The salt is drawn at random, so the hash itself is not named. The source
/// refuses a cost outside 4 to 31; otherwise it fails only where the system
/// gives no random bytes. A hash it returns is `$2b$`, the cost in two digits,
/// `$`, then 53 characters of salt and digest (60 in all), and `bcrypt::verify`
/// accepts the same password against it: it reads the cost and salt back from
/// the hash and hashes the password again in the same way.
#[verifier::external_body]
pub(crate) fn bcrypt_hash(password: &str, cost: u32) -> (r: Option<String>)
    ensures
        !(4 <= cost <= 31) ==> r is None,
        r matches Some(h) ==> {
            &&& bcrypt_verified(password@, h@) == Some(true)
            &&& h@.len() == 60
            &&& h@.take(4) == seq!['$', '2', 'b', '$']
            &&& h@[4] as u32 == ('0' as u32) + cost / 10
            &&& h@[5] as u32 == ('0' as u32) + cost % 10
            &&& h@[6] == '$'
        },
{
    bcrypt::hash(password, cost).ok()
}

} // verus!
