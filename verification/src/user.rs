use argon2::Error as Argon2Error;
use rand::distributions::Alphanumeric;
use rand::Rng;
use vstd::prelude::*;
use vstd::string::StringSliceAdditionalSpecFns;

verus! {

/// The ASCII codes of the digits and of the upper and lower case letters.
pub open spec fn is_alphanumeric_code(c: int) -> bool {
    ||| 48 <= c <= 57
    ||| 65 <= c <= 90
    ||| 97 <= c <= 122
}

/// `rand::thread_rng().sample(Alphanumeric)`: a random byte, which the
/// distribution draws from the ASCII codes of `A`-`Z`, `a`-`z` and `0`-`9`.
#[verifier::external_body]
fn random_alphanumeric() -> (b: u8)
    ensures
        is_alphanumeric_code(b as int),
{
    rand::thread_rng().sample(Alphanumeric)
}

/// `String::push`: appends one character.
#[verifier::external_body]
fn push_char(s: &mut String, c: char)
    ensures
        final(s)@ == old(s)@.push(c),
{
    s.push(c);
}

/// A random string of `len` ASCII letters and digits.
pub fn rand_string(len: usize) -> (s: String)
    ensures
        s@.len() == len,
        forall|i: int| 0 <= i < len ==> is_alphanumeric_code(#[trigger] s@[i] as int),
{
    let mut s = String::new();
    let mut i: usize = 0;
    while i < len
        invariant
            i <= len,
            s@.len() == i,
            forall|j: int| 0 <= j < i ==> is_alphanumeric_code(#[trigger] s@[j] as int),
        decreases len - i,
    {
        let b = random_alphanumeric();
        push_char(&mut s, b as char);
        i = i + 1;
    }
    s
}

/// The Argon2 hash, encoded as a PHC string, of `password` with `salt` under
/// the default configuration of the `argon2` crate.
pub uninterp spec fn argon2_default_hash(password: Seq<u8>, salt: Seq<u8>) -> Seq<char>;

/// `argon2::hash_encoded` under `argon2::Config::default()`. With that
/// configuration it fails exactly when the password is longer than
/// `0xFFFF_FFFF` bytes or the salt is shorter than 8 or longer than
/// `0xFFFF_FFFF` bytes; its hash is named by `argon2_default_hash`.
#[verifier::external_body]
fn argon2_hash_encoded(pwd: &[u8], salt: &[u8]) -> (r: Result<String, Argon2Error>)
    ensures
        r is Ok <==> (pwd@.len() <= 0xFFFF_FFFF && 8 <= salt@.len() <= 0xFFFF_FFFF),
        r matches Ok(h) ==> h@ == argon2_default_hash(pwd@, salt@),
{
    argon2::hash_encoded(pwd, salt, &argon2::Config::default())
}

/// Whether `salt` is a salt that `hash_password` may draw: thirty ASCII
/// letters and digits.
pub open spec fn is_password_salt(salt: Seq<u8>) -> bool {
    &&& salt.len() == 30
    &&& forall|i: int| 0 <= i < salt.len() ==> is_alphanumeric_code(#[trigger] salt[i] as int)
}

/// The stored form of a new password: its Argon2 hash, under a fresh random
/// salt of thirty letters and digits.
pub fn hash_password(password: &str) -> (hash: String)
    requires
        password.spec_bytes().len() <= 0xFFFF_FFFF,
    ensures
        exists|salt: Seq<u8>|
            is_password_salt(salt) && hash@ == argon2_default_hash(password.spec_bytes(), salt),
{
    let salt = rand_string(30);
    let salt_str = salt.as_str();
    let salt_bytes = salt_str.as_bytes();
    proof {
        assert(vstd::string::is_ascii(salt_str));
        vstd::string::is_ascii_spec_bytes(salt_str);
        assert(is_password_salt(salt_bytes@));
    }
    let pwd_bytes = password.as_bytes();
    argon2_hash_encoded(pwd_bytes, salt_bytes).unwrap()
}

} // verus!
