//! Trusted bindings to the cryptographic building blocks.
//!
//! Each function here wraps one call into an outside crate (or a part of std
//! that vstd leaves unspecified) and states, as its contract, exactly what
//! that crate's source shows. The named spec functions stand for results
//! that are functions of the arguments alone but whose definitions are the
//! outside algorithms themselves (SHA-256, AES-GCM, base64, PBKDF2).

use vstd::prelude::*;

use crate::error::AeroBaseError;
use base64::Engine as _;
use rand::RngCore as _;
use zeroize::Zeroize as _;

verus! {

/// The base64 (standard alphabet, padded) text of a byte sequence.
pub uninterp spec fn b64_of(b: Seq<u8>) -> Seq<char>;

/// What base64 decoding of a text yields: the bytes, or nothing when the
/// text is not valid base64.
pub uninterp spec fn b64_decode_spec(s: Seq<char>) -> Option<Seq<u8>>;

/// The SHA-256 digest (32 bytes) of a byte sequence.
pub uninterp spec fn sha256_of(data: Seq<u8>) -> Seq<u8>;

/// The key of `n` bytes that PBKDF2-HMAC-SHA256 derives from a password and
/// salt after the given number of rounds.
pub uninterp spec fn pbkdf2_sha256(password: Seq<u8>, salt: Seq<u8>, rounds: u32, n: nat) -> Seq<
    u8,
>;

/// The AES-256-GCM ciphertext (with appended tag) of a plaintext under a
/// 32-byte key and 12-byte nonce.
pub uninterp spec fn aes_gcm_cipher(key: Seq<u8>, nonce: Seq<u8>, plaintext: Seq<u8>) -> Seq<u8>;

/// What AES-256-GCM decryption yields for a ciphertext under a 32-byte key
/// and 12-byte nonce: the plaintext when the integrity tag verifies, nothing
/// otherwise.
pub uninterp spec fn aes_gcm_open_spec(key: Seq<u8>, nonce: Seq<u8>, ciphertext: Seq<u8>) -> Option<
    Seq<u8>,
>;

/// Relies on rand's `OsRng::fill_bytes`: fills the buffer from the operating
/// system's secure randomness source. Nothing can be promised of the values,
/// only of the length.
#[verifier::external_body]
pub(crate) fn fill_random(n: usize) -> (r: Vec<u8>)
    ensures
        r@.len() == n,
{
    let mut buf = vec![0u8; n];
    rand::rngs::OsRng.fill_bytes(&mut buf);
    buf
}

/// Relies on chrono's `Utc::now`: the current Unix timestamp in seconds.
/// The clock is outside the library's control, so nothing is promised of
/// the value.
#[verifier::external_body]
pub(crate) fn now_timestamp() -> i64 {
    chrono::Utc::now().timestamp()
}

/// Relies on base64's `Engine::encode` with the standard, padded alphabet:
/// deterministic text of four characters per three-byte group, which
/// `Engine::decode` maps back to the input bytes.
#[verifier::external_body]
pub(crate) fn b64_encode(b: &[u8]) -> (r: String)
    ensures
        r@ == b64_of(b@),
        b64_decode_spec(r@) == Some(b@),
        r@.len() == 4 * ((b@.len() + 2) / 3),
{
    base64::engine::general_purpose::STANDARD.encode(b)
}

/// Relies on base64's `Engine::decode` with the standard, padded alphabet:
/// returns the decoded bytes exactly when the text is valid base64.
#[verifier::external_body]
pub(crate) fn b64_decode(s: &str) -> (r: Result<Vec<u8>, AeroBaseError>)
    ensures
        match r {
            Ok(v) => b64_decode_spec(s@) == Some(v@),
            Err(e) => b64_decode_spec(s@) is None && e is DecodeFailure,
        },
{
    match base64::engine::general_purpose::STANDARD.decode(s) {
        Ok(v) => Ok(v),
        Err(e) => Err(AeroBaseError::DecodeFailure(e.to_string())),
    }
}

/// Relies on sha2's `Sha256`: the 32-byte digest of the input, a pure
/// function of the input bytes.
#[verifier::external_body]
pub(crate) fn sha256_digest(data: &[u8]) -> (r: Vec<u8>)
    ensures
        r@ == sha256_of(data@),
        r@.len() == 32,
{
    let mut hasher = <sha2::Sha256 as sha2::Digest>::new();
    sha2::Digest::update(&mut hasher, data);
    sha2::Digest::finalize(hasher).to_vec()
}

/// Relies on pbkdf2's `pbkdf2_hmac` with SHA-256: fills a buffer of the
/// requested length deterministically from password, salt and round count.
#[verifier::external_body]
pub(crate) fn pbkdf2_derive(password: &[u8], salt: &[u8], rounds: u32, out_len: usize) -> (r: Vec<
    u8,
>)
    ensures
        r@ == pbkdf2_sha256(password@, salt@, rounds, out_len as nat),
        r@.len() == out_len,
{
    let mut key = vec![0u8; out_len];
    pbkdf2::pbkdf2_hmac::<sha2::Sha256>(password, salt, rounds, &mut key);
    key
}

/// Relies on aes-gcm's `Aead::encrypt` for `Aes256Gcm`: deterministic in
/// key, nonce and plaintext; appends the 16-byte tag; succeeds for any
/// plaintext within the GCM length bound; and its output is what
/// `Aead::decrypt` under the same key and nonce maps back to the plaintext.
#[verifier::external_body]
pub(crate) fn aes_gcm_seal(key: &[u8], nonce: &[u8], plaintext: &[u8]) -> (r: Vec<u8>)
    requires
        key@.len() == 32,
        nonce@.len() == 12,
        plaintext@.len() <= 0x10_0000_0000,
    ensures
        r@ == aes_gcm_cipher(key@, nonce@, plaintext@),
        r@.len() == plaintext@.len() + 16,
        aes_gcm_open_spec(key@, nonce@, r@) == Some(plaintext@),
{
    let cipher = <aes_gcm::Aes256Gcm as aes_gcm::KeyInit>::new(
        aes_gcm::Key::<aes_gcm::Aes256Gcm>::from_slice(key),
    );
    aes_gcm::aead::Aead::encrypt(&cipher, aes_gcm::Nonce::from_slice(nonce), plaintext).expect(
        "AES-GCM encryption within the length bound cannot fail",
    )
}

/// Relies on aes-gcm's `Aead::decrypt` for `Aes256Gcm`: returns the
/// plaintext exactly when the integrity tag verifies, a pure function of
/// key, nonce and ciphertext.
#[verifier::external_body]
pub(crate) fn aes_gcm_open(key: &[u8], nonce: &[u8], ciphertext: &[u8]) -> (r: Option<Vec<u8>>)
    requires
        key@.len() == 32,
        nonce@.len() == 12,
    ensures
        match r {
            Some(p) => aes_gcm_open_spec(key@, nonce@, ciphertext@) == Some(p@),
            None => aes_gcm_open_spec(key@, nonce@, ciphertext@) is None,
        },
{
    let cipher = <aes_gcm::Aes256Gcm as aes_gcm::KeyInit>::new(
        aes_gcm::Key::<aes_gcm::Aes256Gcm>::from_slice(key),
    );
    aes_gcm::aead::Aead::decrypt(&cipher, aes_gcm::Nonce::from_slice(nonce), ciphertext).ok()
}

/// Relies on std's `String::from_utf8`, whose validity test and decoding
/// vstd models with `valid_utf8` and `decode_utf8`.
#[verifier::external_body]
pub(crate) fn utf8_to_string(bytes: Vec<u8>) -> (r: Result<String, AeroBaseError>)
    ensures
        match r {
            Ok(s) => vstd::utf8::valid_utf8(bytes@) && s@ == vstd::utf8::decode_utf8(bytes@)
                && vstd::utf8::encode_utf8(s@) == bytes@,
            Err(e) => !vstd::utf8::valid_utf8(bytes@) && e is Utf8Failure,
        },
{
    match String::from_utf8(bytes) {
        Ok(s) => Ok(s),
        Err(e) => Err(AeroBaseError::Utf8Failure(e.to_string())),
    }
}

/// Relies on zeroize's `Zeroize for String`: overwrites the text's bytes
/// and spare capacity with zeros, then clears it.
#[verifier::external_body]
pub(crate) fn zeroize_string(s: &mut String)
    ensures
        final(s)@.len() == 0,
    opens_invariants none
    no_unwind
{
    s.zeroize();
}

/// Relies on zeroize's `Zeroize for Vec<u8>`: overwrites the contents and
/// the spare capacity with zeros, then clears the vector.
#[verifier::external_body]
pub(crate) fn zeroize_bytes(v: &mut Vec<u8>)
    ensures
        final(v)@.len() == 0,
    opens_invariants none
    no_unwind
{
    v.zeroize();
}

} // verus!
