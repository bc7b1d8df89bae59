use vstd::prelude::*;
use vstd::string::StrSliceExecFns;

use argon2::PasswordHasher;

verus! {

/// The password-hash string the memory-hard backend computes for a
/// password and a B64-encoded salt. The backend fixes its own
/// parameters, so the result is a function of these two arguments
/// alone; no shorter statement of it exists, hence the bare name.
pub uninterp spec fn argon2_phc_of(password: Seq<char>, salt_b64: Seq<char>) -> Seq<char>;

/// Whether the memory-hard backend accepts a password and salt pair at
/// all. With the configuration fixed at compile time the call is
/// deterministic, so acceptance too is a function of the two arguments
/// alone.
pub uninterp spec fn argon2_accepts(password: Seq<char>, salt_b64: Seq<char>) -> bool;

/// The longest password, in characters, that hashing is promised to
/// accept: the backend bounds the password by 2^32 - 1 bytes, and a
/// character encodes as at most four bytes.
pub const MAX_HASH_PASSWORD_LEN: usize = 0x3FFFFFFF;

/// A character of a B64-encoded salt: the unpadded standard base64
/// alphabet.
pub open spec fn is_salt_char(c: char) -> bool {
    (48 <= c as u32 && c as u32 <= 57) || (65 <= c as u32 && c as u32 <= 90) || (97 <= c as u32
        && c as u32 <= 122) || c as u32 == 43 || c as u32 == 47
}

/// A character that random passcodes and tokens are made of: an ASCII
/// digit or letter.
pub open spec fn is_token_char(c: char) -> bool {
    (48 <= c as u32 && c as u32 <= 57) || (65 <= c as u32 && c as u32 <= 90) || (97 <= c as u32
        && c as u32 <= 122)
}

/// A byte that random passcodes and tokens are made of.
pub open spec fn is_token_byte(b: u8) -> bool {
    (48 <= b && b <= 57) || (65 <= b && b <= 90) || (97 <= b && b <= 122)
}

/// Relies on argon2's `Argon2::default` together with
/// `PasswordHasher::hash_password` and `Salt::from_b64`: for a fixed
/// default configuration the call is deterministic, so whether it
/// succeeds and the PHC string it returns on success depend on the
/// password bytes and the salt text alone.
#[verifier::external_body]
pub(crate) fn argon2_hash(password: &str, salt_b64: &str) -> (r: Option<String>)
    ensures
        r is Some <==> argon2_accepts(password@, salt_b64@),
        r is Some ==> r->0@ == argon2_phc_of(password@, salt_b64@),
{
    let salt = match argon2::password_hash::Salt::from_b64(salt_b64) {
        Ok(s) => s,
        Err(_) => {
            return None;
        },
    };
    match argon2::Argon2::default().hash_password(password.as_bytes(), salt) {
        Ok(h) => Some(h.to_string()),
        Err(_) => None,
    }
}

/// Relies on password_hash's `SaltString::generate` over the operating
/// system's random source. Whatever bytes are drawn, the result is
/// their B64 encoding: 16 bytes as 22 characters of the B64 alphabet,
/// a salt within every bound the hashing backend checks, so hashing
/// under it is refused only for passwords beyond the size bound.
#[verifier::external_body]
pub(crate) fn generate_salt() -> (s: String)
    ensures
        s@.len() == 22,
        forall|i: int| 0 <= i < s@.len() ==> is_salt_char(s@[i]),
        forall|password: Seq<char>|
            password.len() <= MAX_HASH_PASSWORD_LEN ==> argon2_accepts(password, s@),
{
    argon2::password_hash::SaltString::generate(&mut rand::rngs::OsRng).as_str().to_owned()
}

#[verifier::external_type_specification]
#[verifier::external_body]
pub struct ExThreadRng(rand::rngs::ThreadRng);

/// Relies on rand's `thread_rng` for a generator handle.
#[verifier::external_body]
fn rng_handle() -> (rng: rand::rngs::ThreadRng) {
    rand::thread_rng()
}

/// Relies on rand's `Alphanumeric` distribution: every sampled byte is
/// an ASCII digit, uppercase letter or lowercase letter.
#[verifier::external_body]
fn sample_alphanumeric(rng: &mut rand::rngs::ThreadRng) -> (b: u8)
    ensures
        is_token_byte(b),
{
    rand::Rng::sample(rng, rand::distributions::Alphanumeric)
}

/// Relies on `String::from_utf8`: bytes below 128 are valid UTF-8 and
/// decode to one character per byte with the same code point.
#[verifier::external_body]
fn ascii_to_string(bytes: Vec<u8>) -> (s: String)
    requires
        forall|i: int| 0 <= i < bytes@.len() ==> bytes@[i] < 128,
    ensures
        s@.len() == bytes@.len(),
        forall|i: int| 0 <= i < s@.len() ==> s@[i] as u32 == bytes@[i] as u32,
{
    String::from_utf8(bytes).unwrap()
}

/// Draws a fresh random token of `len` ASCII digits and letters.
pub(crate) fn random_token(len: usize) -> (t: String)
    ensures
        t@.len() == len as nat,
        forall|i: int| 0 <= i < t@.len() ==> is_token_char(t@[i]),
{
    let mut rng = rng_handle();
    let mut bytes: Vec<u8> = Vec::new();
    while bytes.len() < len
        invariant
            bytes@.len() <= len,
            forall|i: int| 0 <= i < bytes@.len() ==> is_token_byte(bytes@[i]),
        decreases len - bytes@.len(),
    {
        let b = sample_alphanumeric(&mut rng);
        bytes.push(b);
    }
    let t = ascii_to_string(bytes);
    t
}

/// Compares a borrowed string with an owned one.
pub fn str_eq_string(a: &str, b: &String) -> (r: bool)
    ensures
        r == (a@ == b@),
{
    let ao: String = a.to_owned();
    ao == *b
}

/// Compares two strings character by character without an early exit on
/// the first mismatch, the comparison posture asked of stored-hash
/// checks.
pub fn eq_strings_fixed_scan(a: &str, b: &str) -> (r: bool)
    ensures
        r == (a@ == b@),
{
    let n1 = a.unicode_len();
    let n2 = b.unicode_len();
    let min = if n1 < n2 {
        n1
    } else {
        n2
    };
    let mut same: bool = n1 == n2;
    let mut i: usize = 0;
    while i < min
        invariant
            i <= min,
            min <= n1 == a@.len(),
            min <= n2 == b@.len(),
            same == (n1 == n2 && (forall|j: int| 0 <= j < i ==> a@[j] == b@[j])),
        decreases min - i,
    {
        let ca = a.get_char(i);
        let cb = b.get_char(i);
        same = if ca == cb {
            same
        } else {
            false
        };
        i += 1;
    }
    proof {
        if same {
            assert(a@ =~= b@);
        } else {
            if a@.len() == b@.len() {
                assert(exists|j: int| 0 <= j < min && a@[j] != b@[j]);
            }
        }
    }
    same
}

} // verus!
