//! Password hashing with bcrypt.
use crate::helpers::socket::digit_char;
use vstd::prelude::*;

verus! {

/// The bcrypt cost used for stored passwords.
pub const DEFAULT_COST: u32 = 8;

/// What `bcrypt::verify(password, hash)` returns: `Some(matches)`, or `None`
/// where `hash` is not a well-formed bcrypt hash.
pub uninterp spec fn bcrypt_verify(password: Seq<char>, hash: Seq<char>) -> Option<bool>;

/// The cost of a bcrypt hash as its text writes it: two decimal digits.
pub open spec fn cost_digits(cost: nat) -> Seq<char> {
    seq![digit_char((cost / 10) as int), digit_char((cost % 10) as int)]
}

/// The first seven characters of a bcrypt hash of the given cost:
/// `$2b$`, the cost in two digits, `$`.
pub open spec fn hash_prefix(cost: nat) -> Seq<char> {
    "$2b$"@ + cost_digits(cost) + "$"@
}

/// Calls `bcrypt::hash(password, cost)`. The salt is random, so the hash text
/// is not fixed; what is said is what the crate's source shows: a cost
/// outside 4..=31 is refused; a hash is 60 characters written as `$2b$`,
/// the cost in two digits, `$`, then 53 base64 characters of salt and hash;
/// and `bcrypt::verify` accepts the password against it (it re-hashes with
/// the salt and cost read back from the hash). `None` also where the
/// operating system gives no random salt. The base64 tail is not described.
#[verifier::external_body]
fn bcrypt_hash(password: &str, cost: u32) -> (r: Option<String>)
    ensures
        cost < 4 || cost > 31 ==> r is None,
        r matches Some(h) ==> {
            &&& bcrypt_verify(password@, h@) == Some(true)
            &&& h@.len() == 60
            &&& h@.subrange(0, 7) == hash_prefix(cost as nat)
        },
{
    ::bcrypt::hash(password, cost).ok()
}

/// Calls `bcrypt::verify(password, hash)`; its result is named `bcrypt_verify`.
#[verifier::external_body]
fn bcrypt_check(password: &str, hash: &str) -> (r: Option<bool>)
    ensures
        r == bcrypt_verify(password@, hash@),
{
    ::bcrypt::verify(password, hash).ok()
}

/// Hashes a password for storage; the stored hash verifies the password.
/// With the cost used here (within bcrypt's 4..=31), hashing fails, giving
/// `None`, only where the operating system gives no random salt; since that
/// depends on the machine and not on the password, no clause promises
/// success.
pub fn encrypt_password(password: &String) -> (r: Option<String>)
    ensures
        r matches Some(h) ==> {
            &&& bcrypt_verify(password@, h@) == Some(true)
            &&& h@.len() == 60
            &&& h@.subrange(0, 7) == "$2b$08$"@
        },
{
    proof {
        reveal_strlit("$2b$08$");
        reveal_strlit("$2b$");
        reveal_strlit("$");
        assert(hash_prefix(DEFAULT_COST as nat) =~= "$2b$08$"@);
    }
    bcrypt_hash(password.as_str(), DEFAULT_COST)
}

/// Checks a password against a stored hash; `None` where the stored hash is
/// not a bcrypt hash.
pub fn compare_password(user_password: &String, given_password: &String) -> (r: Option<bool>)
    ensures
        r == bcrypt_verify(given_password@, user_password@),
{
    bcrypt_check(given_password.as_str(), user_password.as_str())
}

} // verus!
