//! Password policy applied at registration, and the password hashing that
//! registration and login rely on.
use vstd::prelude::*;
use vstd::string::*;
use crate::claims::decimal_digits;

verus! {

/// Whether `char::is_uppercase` holds of a character (Unicode `Uppercase`).
pub uninterp spec fn uppercase_char(c: char) -> bool;

/// Whether `char::is_lowercase` holds of a character (Unicode `Lowercase`).
pub uninterp spec fn lowercase_char(c: char) -> bool;

/// Whether `char::is_numeric` holds of a character (Unicode `Nd`, `Nl` or `No`).
pub uninterp spec fn numeric_char(c: char) -> bool;

/// Relies on `char::is_uppercase`.
#[verifier::external_body]
fn char_is_upper(c: char) -> (r: bool)
    ensures
        r == uppercase_char(c),
{
    c.is_uppercase()
}

/// Relies on `char::is_lowercase`.
#[verifier::external_body]
fn char_is_lower(c: char) -> (r: bool)
    ensures
        r == lowercase_char(c),
{
    c.is_lowercase()
}

/// Relies on `char::is_numeric`.
#[verifier::external_body]
fn char_is_numeric(c: char) -> (r: bool)
    ensures
        r == numeric_char(c),
{
    c.is_numeric()
}

pub open spec fn has_uppercase(s: Seq<char>) -> bool {
    exists|i: int| 0 <= i < s.len() && #[trigger] uppercase_char(s[i])
}

pub open spec fn has_lowercase(s: Seq<char>) -> bool {
    exists|i: int| 0 <= i < s.len() && #[trigger] lowercase_char(s[i])
}

pub open spec fn has_numeric(s: Seq<char>) -> bool {
    exists|i: int| 0 <= i < s.len() && #[trigger] numeric_char(s[i])
}

/// The smallest accepted password length, counted in UTF-8 bytes.
pub const MIN_PASSWORD_BYTES: usize = 8;

/// The first rule of the password policy that `password` breaks, as the
/// message shown to the caller; `None` when it meets every rule.
pub open spec fn password_verdict(password: Seq<char>) -> Option<&'static str> {
    if (vstd::utf8::encode_utf8(password).len() as usize) < MIN_PASSWORD_BYTES {
        Some("Password must be at least 8 characters long")
    } else if !has_uppercase(password) {
        Some("Password must include at least one uppercase letter")
    } else if !has_lowercase(password) {
        Some("Password must include at least one lowercase letter")
    } else if !has_numeric(password) {
        Some("Password must include at least one number")
    } else {
        None
    }
}

/// Checks a candidate password against the policy: at least eight bytes,
/// an upper-case letter, a lower-case letter and a digit, tested in that
/// order. Returns the message for the first rule broken.
pub fn test_password(password: &str) -> (r: Option<&'static str>)
    ensures
        r == password_verdict(password@),
{
    if password.len() < MIN_PASSWORD_BYTES {
        return Some("Password must be at least 8 characters long");
    }
    let n = password.unicode_len();
    let mut upper = false;
    let mut lower = false;
    let mut numeric = false;
    let mut i: usize = 0;
    while i < n
        invariant
            n == password@.len(),
            i <= n,
            upper <==> exists|j: int| 0 <= j < i && #[trigger] uppercase_char(password@[j]),
            lower <==> exists|j: int| 0 <= j < i && #[trigger] lowercase_char(password@[j]),
            numeric <==> exists|j: int| 0 <= j < i && #[trigger] numeric_char(password@[j]),
        decreases n - i,
    {
        let c = password.get_char(i);
        if char_is_upper(c) {
            upper = true;
        }
        if char_is_lower(c) {
            lower = true;
        }
        if char_is_numeric(c) {
            numeric = true;
        }
        i = i + 1;
    }
    if !upper {
        Some("Password must include at least one uppercase letter")
    } else if !lower {
        Some("Password must include at least one lowercase letter")
    } else if !numeric {
        Some("Password must include at least one number")
    } else {
        None
    }
}

/// What `bcrypt::verify` returns for a password and a stored digest:
/// whether they match, or none where the digest is malformed.
pub uninterp spec fn bcrypt_verdict(password: Seq<char>, digest: Seq<char>) -> Option<bool>;

/// The bcrypt work factor for new digests.
pub const HASH_COST: u32 = 12;

/// The start of a bcrypt digest made at `cost`: `$2b$`, the cost in two
/// digits, `$`.
pub open spec fn bcrypt_prefix(cost: u32) -> Seq<char> {
    "$2b$"@ + seq![decimal_digits()[(cost / 10) as int], decimal_digits()[(cost % 10) as int]] + "$"@
}

/// Relies on `bcrypt::hash`: a 60-character digest of the password with a
/// fresh random salt at the given cost, written as `$2b$`, the cost in two
/// digits, `$`, then salt and hash. `bcrypt::verify` reads the cost and salt
/// back out of the digest and re-hashes, so the digest verifies against the
/// same password.
#[verifier::external_body]
pub(crate) fn hash_password(password: &str, cost: u32) -> (r: Option<String>)
    requires
        4 <= cost <= 31,
    ensures
        r is Some ==> bcrypt_verdict(password@, r->0@) == Some(true),
        r is Some ==> r->0@.len() == 60 && r->0@.subrange(0, 7) == bcrypt_prefix(cost),
{
    bcrypt::hash(password, cost).ok()
}

/// Relies on `bcrypt::verify`: whether the password matches the digest;
/// an error where the digest is malformed.
#[verifier::external_body]
pub(crate) fn verify_password(password: &str, digest: &str) -> (r: Option<bool>)
    ensures
        r == bcrypt_verdict(password@, digest@),
{
    bcrypt::verify(password, digest).ok()
}

} // verus!
