//! Password hashing: PBKDF2-HMAC-SHA512 with a per-user random salt.
use vstd::prelude::*;

verus! {

/// Iterations of the key derivation.
pub const PBKDF2_ITERATIONS: u32 = 600_000;
/// Length in bytes of a derived credential (the SHA-512 output length).
pub const CREDENTIAL_LEN: usize = 64;
/// Length in bytes of a freshly generated salt.
pub const SALT_LEN: usize = 32;

/// The 64-byte PBKDF2-HMAC-SHA512 key derived from `secret` and `salt` in
/// `iterations` rounds.
pub uninterp spec fn pbkdf2_hmac_sha512(iterations: u32, salt: Seq<u8>, secret: Seq<u8>) -> Seq<u8>;

/// The credential stored for `password` under `salt`.
pub open spec fn derived_credential(password: Seq<char>, salt: Seq<u8>) -> Seq<u8> {
    pbkdf2_hmac_sha512(PBKDF2_ITERATIONS, salt, password_bytes(password))
}

/// The bytes that are hashed for a password: its UTF-8 encoding.
pub open spec fn password_bytes(password: Seq<char>) -> Seq<u8> {
    vstd::utf8::encode_utf8(password)
}

/// Whether `expected` is the credential of `password` under `salt`.
pub open spec fn credential_matches(password: Seq<char>, salt: Seq<u8>, expected: Seq<u8>) -> bool {
    expected.len() == CREDENTIAL_LEN && expected == derived_credential(password, salt)
}

/// Relies on `ring::pbkdf2::derive` with `PBKDF2_HMAC_SHA512`: it writes the
/// derived key into a 64-byte buffer.
#[verifier::external_body]
fn pbkdf2_derive(iterations: u32, salt: &[u8], secret: &[u8]) -> (r: Vec<u8>)
    requires
        iterations > 0,
    ensures
        r@ == pbkdf2_hmac_sha512(iterations, salt@, secret@),
        r@.len() == CREDENTIAL_LEN,
{
    let mut out = [0u8; ring::digest::SHA512_OUTPUT_LEN];
    ring::pbkdf2::derive(
        ring::pbkdf2::PBKDF2_HMAC_SHA512,
        std::num::NonZeroU32::new(iterations).unwrap(),
        salt,
        secret,
        &mut out,
    );
    out.to_vec()
}

/// Relies on `ring::pbkdf2::verify` with `PBKDF2_HMAC_SHA512`: it re-derives
/// the key and compares it with `previously_derived` without an early exit; a
/// 64-byte `previously_derived` matches exactly when it is the derived key.
#[verifier::external_body]
fn pbkdf2_verify(iterations: u32, salt: &[u8], secret: &[u8], previously_derived: &[u8]) -> (r: bool)
    requires
        iterations > 0,
    ensures
        previously_derived@.len() == CREDENTIAL_LEN ==> (r == (previously_derived@
            == pbkdf2_hmac_sha512(iterations, salt@, secret@))),
{
    ring::pbkdf2::verify(
        ring::pbkdf2::PBKDF2_HMAC_SHA512,
        std::num::NonZeroU32::new(iterations).unwrap(),
        salt,
        secret,
        previously_derived,
    ).is_ok()
}

/// Relies on `rand::Rng::fill` on `rand::thread_rng()`: it overwrites every
/// byte of the buffer with cryptographically secure random data. It panics
/// if the operating system's random source fails, which no argument can rule
/// out.
#[verifier::external_body]
fn fill_random(buf: &mut Vec<u8>)
    ensures
        final(buf)@.len() == old(buf)@.len(),
{
    rand::Rng::fill(&mut rand::thread_rng(), buf.as_mut_slice())
}

/// A fresh salt of `SALT_LEN` random bytes.
pub fn generate_salt() -> (r: Vec<u8>)
    ensures
        r@.len() == SALT_LEN,
{
    let mut salt: Vec<u8> = Vec::new();
    let mut i: usize = 0;
    while i < SALT_LEN
        invariant
            i <= SALT_LEN,
            salt@.len() == i,
        decreases SALT_LEN - i,
    {
        salt.push(0u8);
        i = i + 1;
    }
    fill_random(&mut salt);
    salt
}

/// Derives `(salt, hash)` for `password`. With `salt` given it is kept, else
/// a fresh random one is generated; the hash is the PBKDF2-HMAC-SHA512 key of
/// the password under that salt.
pub fn hash_password(password: &str, salt: Option<Vec<u8>>) -> (r: (Vec<u8>, Vec<u8>))
    ensures
        salt matches Some(s) ==> r.0 == s,
        salt is None ==> r.0@.len() == SALT_LEN,
        r.1@ == derived_credential(password@, r.0@),
        r.1@.len() == CREDENTIAL_LEN,
{
    let used = match salt {
        Some(s) => s,
        None => generate_salt(),
    };
    let hash = pbkdf2_derive(PBKDF2_ITERATIONS, used.as_slice(), password.as_bytes());
    (used, hash)
}

/// Whether `expected` is the credential of `password` under `salt`, compared
/// in constant time.
pub fn verify_password(password: &str, salt: &[u8], expected: &[u8]) -> (r: bool)
    ensures
        r == credential_matches(password@, salt@, expected@),
{
    if expected.len() != CREDENTIAL_LEN {
        return false;
    }
    pbkdf2_verify(PBKDF2_ITERATIONS, salt, password.as_bytes(), expected)
}

/// A credential derived for a password always verifies against that
/// password under the same salt.
pub proof fn lemma_derived_credential_verifies(password: Seq<char>, salt: Seq<u8>, hash: Seq<u8>)
    requires
        hash == derived_credential(password, salt),
        hash.len() == CREDENTIAL_LEN,
    ensures
        credential_matches(password, salt, hash),
{
}

/// A credential derived for one password does not verify another password
/// under the same salt, wherever the two derived keys differ.
pub proof fn lemma_other_password_rejected(
    password: Seq<char>,
    other: Seq<char>,
    salt: Seq<u8>,
    hash: Seq<u8>,
)
    requires
        hash == derived_credential(other, salt),
        derived_credential(password, salt) != derived_credential(other, salt),
    ensures
        !credential_matches(password, salt, hash),
{
}

} // verus!
