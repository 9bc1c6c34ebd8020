//! Symmetric, asymmetric and hybrid encryption over device identity data.

use vstd::prelude::*;

use crate::bindings::{
    aes_gcm_cipher, aes_gcm_open, aes_gcm_open_spec, aes_gcm_seal, b64_decode, b64_decode_spec,
    b64_encode, b64_of, fill_random, pbkdf2_derive, pbkdf2_sha256, sha256_digest, sha256_of,
    zeroize_bytes, zeroize_string,
};
use crate::error::AeroBaseError;
use vstd::string::{StrSliceExecFns, StringExecFns};
use vstd::utf8::{decode_utf8, encode_utf8, valid_utf8};

verus! {

/// Length in bytes of a symmetric key.
pub const AES_KEY_SIZE: usize = 32;

/// Length in bytes of a GCM nonce.
pub const NONCE_SIZE: usize = 12;

/// Rounds of PBKDF2-HMAC-SHA256 used to derive a key from a password.
pub const PBKDF2_ITERATIONS: u32 = 100000;

/// The GCM length bound: no plaintext longer than this can be sealed.
pub const GCM_MAX_PLAINTEXT: u64 = 0x10_0000_0000;

/// The algorithm tag that the symmetric cipher emits, and the only tag it
/// accepts back.
pub open spec fn aes_gcm_tag() -> Seq<char> {
    "AES-256-GCM"@
}

/// An encrypted blob: ciphertext and nonce as base64 text, plus the
/// algorithm tag.
#[derive(Debug, Clone)]
pub struct EncryptedData {
    pub ciphertext: String,
    pub nonce: String,
    pub algorithm: String,
}

/// The blob is an encryption of `pt` under `key`: its nonce is the base64
/// text of some 12-byte nonce, its ciphertext the base64 text of the GCM
/// sealing of `pt` under `key` and that nonce (the plaintext plus the
/// 16-byte tag), and its tag the one the cipher emits.
pub open spec fn sym_encrypted(key: Seq<u8>, blob: EncryptedData, pt: Seq<u8>) -> bool {
    exists|nb: Seq<u8>|
        {
            &&& nb.len() == NONCE_SIZE
            &&& blob.nonce@ == b64_of(nb)
            &&& b64_decode_spec(blob.nonce@) == Some(nb)
            &&& blob.ciphertext@ == b64_of(#[trigger] aes_gcm_cipher(key, nb, pt))
            &&& b64_decode_spec(blob.ciphertext@) == Some(aes_gcm_cipher(key, nb, pt))
            &&& aes_gcm_cipher(key, nb, pt).len() == pt.len() + 16
            &&& aes_gcm_open_spec(key, nb, aes_gcm_cipher(key, nb, pt)) == Some(pt)
            &&& blob.algorithm@ == aes_gcm_tag()
        }
}

/// The blob's text fields cannot be decoded: a nonce or ciphertext that is
/// not valid base64, or a nonce of the wrong length.
pub open spec fn sym_malformed(blob: EncryptedData) -> bool {
    ||| b64_decode_spec(blob.nonce@) is None
    ||| (b64_decode_spec(blob.nonce@) matches Some(nb) && nb.len() != NONCE_SIZE)
    ||| b64_decode_spec(blob.ciphertext@) is None
}

/// The plaintext that symmetric decryption owes for a blob under a key:
/// decode nonce and ciphertext, then open with GCM; absent whenever any
/// step fails.
pub open spec fn sym_plain_of(key: Seq<u8>, blob: EncryptedData) -> Option<Seq<u8>> {
    if blob.algorithm@ == aes_gcm_tag() {
        match b64_decode_spec(blob.nonce@) {
            Some(nb) => if nb.len() == NONCE_SIZE {
                match b64_decode_spec(blob.ciphertext@) {
                    Some(ct) => aes_gcm_open_spec(key, nb, ct),
                    None => None,
                }
            } else {
                None
            },
            None => None,
        }
    } else {
        None
    }
}

/// The text that symmetric decryption owes when a text result is expected:
/// the decrypted bytes, decoded as UTF-8.
pub open spec fn sym_text_of(key: Seq<u8>, blob: EncryptedData) -> Option<Seq<char>> {
    match sym_plain_of(key, blob) {
        Some(b) => if valid_utf8(b) {
            Some(decode_utf8(b))
        } else {
            None
        },
        None => None,
    }
}

/// The error variant that symmetric decryption owes when it fails: the
/// first failing stage decides. A foreign tag, undecodable text, and a
/// failed integrity check each carry their own variant.
pub open spec fn sym_error_is(blob: EncryptedData, e: AeroBaseError) -> bool {
    if blob.algorithm@ != aes_gcm_tag() {
        e is UnsupportedAlgorithm
    } else if sym_malformed(blob) {
        e is DecodeFailure
    } else {
        e is AuthenticationFailure
    }
}

/// The error variant that symmetric text decryption owes when it fails: a
/// decryption failure keeps its variant; bytes that decrypt but are not
/// valid UTF-8 are exactly the UTF-8 failure.
pub open spec fn sym_text_error(key: Seq<u8>, blob: EncryptedData, e: AeroBaseError) -> bool {
    match sym_plain_of(key, blob) {
        Some(b) => !valid_utf8(b) && e is Utf8Failure,
        None => sym_error_is(blob, e),
    }
}

/// Law: a blob produced by symmetric encryption decrypts to the original
/// plaintext, and to nothing else.
pub proof fn lemma_symmetric_round_trip(key: Seq<u8>, blob: EncryptedData, pt: Seq<u8>)
    requires
        sym_encrypted(key, blob, pt),
    ensures
        sym_plain_of(key, blob) == Some(pt),
{
    let nb = choose|nb: Seq<u8>|
        {
            &&& nb.len() == NONCE_SIZE
            &&& blob.nonce@ == b64_of(nb)
            &&& b64_decode_spec(blob.nonce@) == Some(nb)
            &&& blob.ciphertext@ == b64_of(#[trigger] aes_gcm_cipher(key, nb, pt))
            &&& b64_decode_spec(blob.ciphertext@) == Some(aes_gcm_cipher(key, nb, pt))
            &&& aes_gcm_cipher(key, nb, pt).len() == pt.len() + 16
            &&& aes_gcm_open_spec(key, nb, aes_gcm_cipher(key, nb, pt)) == Some(pt)
            &&& blob.algorithm@ == aes_gcm_tag()
        };
    assert(sym_plain_of(key, blob) == Some(pt));
}

/// Law: a blob produced by symmetric encryption of a text decrypts back to
/// that very text.
pub proof fn lemma_symmetric_text_round_trip(key: Seq<u8>, blob: EncryptedData, s: Seq<char>)
    requires
        sym_encrypted(key, blob, encode_utf8(s)),
    ensures
        sym_text_of(key, blob) == Some(s),
{
    broadcast use vstd::utf8::encode_utf8_valid_utf8, vstd::utf8::encode_utf8_decode_utf8;

    lemma_symmetric_round_trip(key, blob, encode_utf8(s));
}

/// Law: decryption never silently substitutes a plaintext. Whatever was
/// done to a blob, if decryption of a blob that encrypts `pt` succeeds at
/// all, it returns exactly `pt`. (That a flipped bit makes the GCM tag
/// check fail is the cipher's probabilistic guarantee and is exercised by
/// tests, not proved here.)
pub proof fn lemma_no_silent_substitution(
    key: Seq<u8>,
    blob: EncryptedData,
    pt: Seq<u8>,
    p: Seq<u8>,
)
    requires
        sym_encrypted(key, blob, pt),
        sym_plain_of(key, blob) == Some(p),
    ensures
        p == pt,
{
    lemma_symmetric_round_trip(key, blob, pt);
}

/// The UTF-8 encoding of a text takes at most four bytes per character;
/// callers use this to meet the GCM length bound from a text's length.
pub proof fn lemma_encode_utf8_len(s: Seq<char>)
    ensures
        encode_utf8(s).len() <= 4 * s.len(),
    decreases s.len(),
{
    if s.len() > 0 {
        lemma_encode_utf8_len(s.drop_first());
    }
}

/// The hexadecimal digit for a value below 16, lower case.
pub open spec fn hex_digit(n: u8) -> char
    recommends
        n < 16,
{
    if n == 0 {
        '0'
    } else if n == 1 {
        '1'
    } else if n == 2 {
        '2'
    } else if n == 3 {
        '3'
    } else if n == 4 {
        '4'
    } else if n == 5 {
        '5'
    } else if n == 6 {
        '6'
    } else if n == 7 {
        '7'
    } else if n == 8 {
        '8'
    } else if n == 9 {
        '9'
    } else if n == 10 {
        'a'
    } else if n == 11 {
        'b'
    } else if n == 12 {
        'c'
    } else if n == 13 {
        'd'
    } else if n == 14 {
        'e'
    } else {
        'f'
    }
}

/// The lower-case hexadecimal text of a byte sequence: two digits per byte,
/// high nibble first.
pub open spec fn hex_of(b: Seq<u8>) -> Seq<char> {
    Seq::new(
        2 * b.len(),
        |i: int|
            if i % 2 == 0 {
                hex_digit(b[i / 2] / 16)
            } else {
                hex_digit(b[i / 2] % 16)
            },
    )
}

fn hex_digit_str(n: u8) -> (r: &'static str)
    requires
        n < 16,
    ensures
        r@ =~= seq![hex_digit(n)],
{
    proof {
        reveal_strlit("0");
        reveal_strlit("1");
        reveal_strlit("2");
        reveal_strlit("3");
        reveal_strlit("4");
        reveal_strlit("5");
        reveal_strlit("6");
        reveal_strlit("7");
        reveal_strlit("8");
        reveal_strlit("9");
        reveal_strlit("a");
        reveal_strlit("b");
        reveal_strlit("c");
        reveal_strlit("d");
        reveal_strlit("e");
        reveal_strlit("f");
    }
    if n == 0 {
        "0"
    } else if n == 1 {
        "1"
    } else if n == 2 {
        "2"
    } else if n == 3 {
        "3"
    } else if n == 4 {
        "4"
    } else if n == 5 {
        "5"
    } else if n == 6 {
        "6"
    } else if n == 7 {
        "7"
    } else if n == 8 {
        "8"
    } else if n == 9 {
        "9"
    } else if n == 10 {
        "a"
    } else if n == 11 {
        "b"
    } else if n == 12 {
        "c"
    } else if n == 13 {
        "d"
    } else if n == 14 {
        "e"
    } else {
        "f"
    }
}

/// The lower-case hexadecimal text of the SHA-256 digest of the input.
pub fn hash_sha256(data: &[u8]) -> (r: String)
    ensures
        r@ == hex_of(sha256_of(data@)),
        r@.len() == 64,
{
    let digest = sha256_digest(data);
    let mut out = String::new();
    let mut i: usize = 0;
    while i < digest.len()
        invariant
            digest@ == sha256_of(data@),
            digest@.len() == 32,
            i <= 32,
            out@ =~= hex_of(digest@.take(i as int)),
        decreases 32 - i,
    {
        let b = digest[i];
        out.append(hex_digit_str(b / 16));
        out.append(hex_digit_str(b % 16));
        proof {
            assert(out@ =~= hex_of(digest@.take(i + 1)));
        }
        i += 1;
    }
    proof {
        assert(digest@.take(32) =~= digest@);
    }
    out
}

/// A fresh 16-byte salt from the secure randomness source.
pub fn generate_salt() -> (r: Vec<u8>)
    ensures
        r@.len() == 16,
{
    fill_random(16)
}

/// The symmetric cipher: authenticated encryption and decryption under one
/// exclusively owned 256-bit key.
pub struct AesEncryptor {
    key: Vec<u8>,
}

impl AesEncryptor {
    /// The raw key bytes the cipher holds.
    pub closed spec fn key_bytes(&self) -> Seq<u8> {
        self.key@
    }

    /// The cipher is well formed: its key has exactly 32 bytes.
    pub open spec fn wf(&self) -> bool {
        self.key_bytes().len() == AES_KEY_SIZE
    }

    /// A cipher under a fresh key from the secure randomness source.
    pub fn new() -> (r: Result<Self, AeroBaseError>)
        ensures
            r matches Ok(a) && a.wf(),
    {
        let key = fill_random(AES_KEY_SIZE);
        Ok(AesEncryptor { key })
    }

    /// A cipher under the given key; rejects any length other than 32.
    pub fn from_key(key: Vec<u8>) -> (r: Result<Self, AeroBaseError>)
        ensures
            key@.len() == AES_KEY_SIZE <==> r is Ok,
            r matches Ok(a) ==> a.key_bytes() == key@ && a.wf(),
            r matches Err(e) ==> e is InvalidKeyLength,
    {
        if key.len() != AES_KEY_SIZE {
            return Err(
                AeroBaseError::InvalidKeyLength(String::from_str("AES key must be 32 bytes")),
            );
        }
        Ok(AesEncryptor { key })
    }

    /// A cipher under the key derived from a password and salt by 100,000
    /// rounds of PBKDF2-HMAC-SHA256. The same password and salt always
    /// yield the same key; the salt is the caller's to keep.
    pub fn from_password(password: &str, salt: &[u8]) -> (r: Result<Self, AeroBaseError>)
        ensures
            r matches Ok(a) && a.wf() && a.key_bytes() == pbkdf2_sha256(
                encode_utf8(password@),
                salt@,
                PBKDF2_ITERATIONS,
                AES_KEY_SIZE as nat,
            ),
    {
        let key = pbkdf2_derive(password.as_bytes(), salt, PBKDF2_ITERATIONS, AES_KEY_SIZE);
        Ok(AesEncryptor { key })
    }

    /// A copy of the key bytes.
    pub fn get_key(&self) -> (r: Vec<u8>)
        ensures
            r@ == self.key_bytes(),
    {
        self.key.clone()
    }

    /// Encrypts a plaintext under the held key with a fresh 12-byte nonce.
    pub fn encrypt(&self, plaintext: &[u8]) -> (r: Result<EncryptedData, AeroBaseError>)
        requires
            self.wf(),
            plaintext@.len() <= GCM_MAX_PLAINTEXT,
        ensures
            r matches Ok(blob) && sym_encrypted(self.key_bytes(), blob, plaintext@),
    {
        let nonce_bytes = fill_random(NONCE_SIZE);
        let sealed = aes_gcm_seal(self.key.as_slice(), nonce_bytes.as_slice(), plaintext);
        let blob = EncryptedData {
            ciphertext: b64_encode(sealed.as_slice()),
            nonce: b64_encode(nonce_bytes.as_slice()),
            algorithm: String::from_str("AES-256-GCM"),
        };
        proof {
            assert(sym_encrypted(self.key_bytes(), blob, plaintext@));
        }
        Ok(blob)
    }

    /// Decrypts a blob under the held key. Rejects a foreign algorithm tag,
    /// text that does not decode, and any ciphertext whose integrity tag
    /// does not verify; never returns partial plaintext.
    pub fn decrypt(&self, encrypted: &EncryptedData) -> (r: Result<Vec<u8>, AeroBaseError>)
        requires
            self.wf(),
        ensures
            match r {
                Ok(p) => sym_plain_of(self.key_bytes(), *encrypted) == Some(p@),
                Err(_) => sym_plain_of(self.key_bytes(), *encrypted) is None,
            },
            encrypted.algorithm@ != aes_gcm_tag() <==> (r matches Err(e)
                && e is UnsupportedAlgorithm),
            encrypted.algorithm@ == aes_gcm_tag() ==> ((r matches Err(e) && e is DecodeFailure)
                <==> sym_malformed(*encrypted)),
            (encrypted.algorithm@ == aes_gcm_tag() && !sym_malformed(*encrypted)) ==> ((r matches
            Err(e) && e is AuthenticationFailure) <==> sym_plain_of(self.key_bytes(), *encrypted)
                is None),
    {
        let tag = String::from_str("AES-256-GCM");
        if encrypted.algorithm != tag {
            return Err(
                AeroBaseError::UnsupportedAlgorithm(
                    String::from_str("unsupported encryption algorithm"),
                ),
            );
        }
        let nonce_bytes = match b64_decode(encrypted.nonce.as_str()) {
            Ok(v) => v,
            Err(e) => { return Err(e) },
        };
        if nonce_bytes.len() != NONCE_SIZE {
            return Err(AeroBaseError::DecodeFailure(String::from_str("nonce is not 12 bytes")));
        }
        let ciphertext = match b64_decode(encrypted.ciphertext.as_str()) {
            Ok(v) => v,
            Err(e) => { return Err(e) },
        };
        match aes_gcm_open(self.key.as_slice(), nonce_bytes.as_slice(), ciphertext.as_slice()) {
            Some(p) => Ok(p),
            None => Err(
                AeroBaseError::AuthenticationFailure(
                    String::from_str("GCM integrity check failed"),
                ),
            ),
        }
    }

    /// Encrypts the UTF-8 bytes of a text.
    pub fn encrypt_string(&self, plaintext: &str) -> (r: Result<EncryptedData, AeroBaseError>)
        requires
            self.wf(),
            encode_utf8(plaintext@).len() <= GCM_MAX_PLAINTEXT,
        ensures
            r matches Ok(blob) && sym_encrypted(self.key_bytes(), blob, encode_utf8(plaintext@)),
    {
        self.encrypt(plaintext.as_bytes())
    }

    /// A cipher under a fresh key; identical to `new`, which cannot fail.
    fn fresh() -> (r: Self)
        ensures
            r.wf(),
    {
        AesEncryptor { key: fill_random(AES_KEY_SIZE) }
    }

    /// Decrypts a blob and decodes the plaintext as UTF-8 text.
    pub fn decrypt_string(&self, encrypted: &EncryptedData) -> (r: Result<String, AeroBaseError>)
        requires
            self.wf(),
        ensures
            match r {
                Ok(s) => sym_text_of(self.key_bytes(), *encrypted) == Some(s@) && sym_plain_of(
                    self.key_bytes(),
                    *encrypted,
                ) == Some(encode_utf8(s@)),
                Err(e) => sym_text_of(self.key_bytes(), *encrypted) is None && sym_text_error(
                    self.key_bytes(),
                    *encrypted,
                    e,
                ),
            },
    {
        let plaintext = match self.decrypt(encrypted) {
            Ok(p) => p,
            Err(e) => { return Err(e) },
        };
        match crate::bindings::utf8_to_string(plaintext) {
            Ok(s) => Ok(s),
            Err(e) => Err(e),
        }
    }
}

impl Drop for AesEncryptor {
    /// Overwrites the key bytes with zeros before the memory is released.
    fn drop(&mut self)
        opens_invariants none
        no_unwind
    {
        zeroize_bytes(&mut self.key);
    }
}

impl Default for AesEncryptor {
    /// A cipher under a fresh key from the secure randomness source.
    fn default() -> (r: Self)
        ensures
            r.wf(),
    {
        AesEncryptor { key: fill_random(AES_KEY_SIZE) }
    }
}

#[verifier::external_type_specification]
#[verifier::external_body]
pub struct ExRsaPublicKey(rsa::RsaPublicKey);

#[verifier::external_type_specification]
#[verifier::external_body]
pub struct ExRsaPrivateKey(rsa::RsaPrivateKey);

/// The canonical PKCS#8 PEM text of the key encoded in a PEM text: what
/// re-exporting the parsed key yields. An export is already canonical.
pub uninterp spec fn canon_pem_of(pem: Seq<char>) -> Seq<char>;

/// The PKCS#8 public-key PEM of the pair whose private PEM is given.
pub uninterp spec fn rsa_public_pem_of(pem: Seq<char>) -> Seq<char>;

/// Whether a text parses as a PKCS#8 private-key PEM: parsing is
/// deterministic, and an export always parses back.
pub uninterp spec fn pem_parses(pem: Seq<char>) -> bool;

/// Whether the pair of a canonical private PEM passes the rsa crate's
/// public-key checks — a pure function of the key.
pub uninterp spec fn pem_usable(pem: Seq<char>) -> bool;

/// The modulus size in bytes of the pair of a canonical private PEM.
pub uninterp spec fn pem_modulus_bytes(pem: Seq<char>) -> nat;

/// What RSA-PKCS1v15 decryption yields for a ciphertext under the pair
/// whose private PKCS#8 PEM is given: the plaintext when the padding check
/// passes, nothing otherwise.
pub uninterp spec fn rsa_decrypt_spec(pem: Seq<char>, ct: Seq<u8>) -> Option<Seq<u8>>;

/// The base64 text holds an RSA-PKCS1v15 encryption of `pt` under the pair
/// whose private PEM is `pem`.
pub open spec fn rsa_sealed_text(pem: Seq<char>, ct_b64: Seq<char>, pt: Seq<u8>) -> bool {
    match b64_decode_spec(ct_b64) {
        Some(ct) => rsa_decrypt_spec(pem, ct) == Some(pt),
        None => false,
    }
}

/// The bytes that unwrapping a base64-encoded RSA ciphertext owes.
pub open spec fn rsa_open_bytes(pem: Seq<char>, ct_b64: Seq<char>) -> Option<Seq<u8>> {
    match b64_decode_spec(ct_b64) {
        Some(ct) => rsa_decrypt_spec(pem, ct),
        None => None,
    }
}

/// The text that unwrapping and UTF-8-decoding a base64-encoded RSA
/// ciphertext owes.
pub open spec fn rsa_open_text(pem: Seq<char>, ct_b64: Seq<char>) -> Option<Seq<char>> {
    match rsa_open_bytes(pem, ct_b64) {
        Some(p) => if valid_utf8(p) {
            Some(decode_utf8(p))
        } else {
            None
        },
        None => None,
    }
}

/// The error variant that unwrapping a base64-encoded RSA ciphertext owes
/// when it fails: invalid base64 is exactly the decode failure; a failed
/// padding check is exactly the undistinguished unwrap failure (wrong key
/// and corruption look alike by design).
pub open spec fn rsa_open_error(ct_b64: Seq<char>, e: AeroBaseError) -> bool {
    if b64_decode_spec(ct_b64) is None {
        e is DecodeFailure
    } else {
        e is UnwrapFailure
    }
}

/// The error variant that unwrapping and UTF-8-decoding a base64-encoded
/// RSA ciphertext owes when it fails: an unwrap failure keeps its variant;
/// bytes that unwrap but are not valid UTF-8 are exactly the UTF-8 failure.
pub open spec fn rsa_text_error(pem: Seq<char>, ct_b64: Seq<char>, e: AeroBaseError) -> bool {
    match rsa_open_bytes(pem, ct_b64) {
        Some(p) => !valid_utf8(p) && e is Utf8Failure,
        None => rsa_open_error(ct_b64, e),
    }
}

/// An RSA-2048 key pair. The public component is freely shareable; the
/// private component is exclusively owned by the pair (the pair cannot be
/// cloned). The rsa crate's own zeroize-on-drop erases the private key's
/// numbers, and the pair's drop erases the retained PEM text.
pub struct RsaKeyPair {
    public_key: rsa::RsaPublicKey,
    private_key: rsa::RsaPrivateKey,
    pem: String,
    size: usize,
    usable: bool,
}

impl RsaKeyPair {
    /// The canonical private PKCS#8 PEM text that identifies the pair.
    pub closed spec fn key_id(&self) -> Seq<char> {
        self.pem@
    }

    /// The modulus size in bytes (256 for an RSA-2048 pair).
    pub closed spec fn modulus_size(&self) -> nat {
        self.size as nat
    }

    /// The pair passes the rsa crate's public-key checks, so encryption
    /// under it succeeds within the length bound.
    pub closed spec fn usable(&self) -> bool {
        self.usable
    }

    /// The pair's PEM is in canonical form: re-importing and re-exporting
    /// it reproduces it.
    pub open spec fn canonical(&self) -> bool {
        canon_pem_of(self.key_id()) == self.key_id()
    }

    /// Relies on rsa's `RsaPrivateKey::new` (2048 bits, e = 65537) and its
    /// PKCS#8 PEM export: a fresh pair passes the crate's public-key
    /// checks, has a 256-byte modulus, and its PEM export is canonical,
    /// parses back, and keeps those properties under re-import.
    #[verifier::external_body]
    pub fn generate() -> (r: Result<Self, AeroBaseError>)
        ensures
            r matches Ok(kp) ==> {
                &&& kp.usable()
                &&& kp.modulus_size() == 256
                &&& kp.canonical()
                &&& pem_parses(kp.key_id())
                &&& pem_usable(kp.key_id())
                &&& pem_modulus_bytes(kp.key_id()) == 256
            },
            r matches Err(e) ==> e is KeyGenerationFailure,
    {
        let mut rng = rand::thread_rng();
        let sk = match rsa::RsaPrivateKey::new(&mut rng, 2048) {
            Ok(k) => k,
            Err(e) => { return Err(AeroBaseError::KeyGenerationFailure(e.to_string())) },
        };
        let pem = match rsa::pkcs8::EncodePrivateKey::to_pkcs8_pem(&sk, rsa::pkcs8::LineEnding::LF) {
            Ok(p) => p.to_string(),
            Err(e) => { return Err(AeroBaseError::KeyGenerationFailure(e.to_string())) },
        };
        let size = rsa::traits::PublicKeyParts::size(&sk);
        Ok(RsaKeyPair { public_key: rsa::RsaPublicKey::from(&sk), private_key: sk, pem, size, usable: true })
    }

    /// Relies on rsa's `RsaPrivateKey::from_pkcs8_pem`, its PKCS#8
    /// re-export, `PublicKeyParts::size` and the `RsaPublicKey::new`
    /// checks: parsing is deterministic, so import succeeds exactly on
    /// texts that parse; the imported pair is keyed by the canonical
    /// re-export of the given text, and its usability and modulus size are
    /// the key's own.
    #[verifier::external_body]
    pub fn from_pem(pem: &str) -> (r: Result<Self, AeroBaseError>)
        ensures
            r is Ok <==> pem_parses(pem@),
            r matches Ok(kp) ==> {
                &&& kp.key_id() == canon_pem_of(pem@)
                &&& kp.canonical()
                &&& pem_parses(kp.key_id())
                &&& kp.usable() == pem_usable(kp.key_id())
                &&& kp.modulus_size() == pem_modulus_bytes(kp.key_id())
            },
            r matches Err(e) ==> e is PemParseFailure,
    {
        let sk = <rsa::RsaPrivateKey as rsa::pkcs8::DecodePrivateKey>::from_pkcs8_pem(pem)
            .map_err(|e| AeroBaseError::PemParseFailure(e.to_string()))?;
        let canon = rsa::pkcs8::EncodePrivateKey::to_pkcs8_pem(&sk, rsa::pkcs8::LineEnding::LF)
            .map_err(|e| AeroBaseError::PemParseFailure(e.to_string()))?
            .to_string();
        let size = rsa::traits::PublicKeyParts::size(&sk);
        let pk = rsa::traits::PublicKeyParts::n(&sk).clone();
        let usable = rsa::RsaPublicKey::new(pk, rsa::traits::PublicKeyParts::e(&sk).clone()).is_ok();
        Ok(RsaKeyPair { public_key: rsa::RsaPublicKey::from(&sk), private_key: sk, pem: canon, size, usable })
    }

    /// The pair's private key as canonical PKCS#8 PEM text.
    pub fn to_pem(&self) -> (r: Result<String, AeroBaseError>)
        ensures
            r matches Ok(p) && p@ == self.key_id(),
    {
        Ok(self.pem.clone())
    }

    /// Relies on rsa's `EncodePublicKey::to_public_key_pem`: the public PEM
    /// is a pure function of the pair, and the export cannot fail for any
    /// pair this library constructs (the DER length limits sit far above a
    /// 4096-bit key). The error arm below is unreachable.
    #[verifier::external_body]
    pub fn public_key_to_pem(&self) -> (r: Result<String, AeroBaseError>)
        ensures
            r is Ok,
            r matches Ok(p) ==> p@ == rsa_public_pem_of(self.key_id()),
    {
        match rsa::pkcs8::EncodePublicKey::to_public_key_pem(
            &self.public_key,
            rsa::pkcs8::LineEnding::LF,
        ) {
            Ok(p) => Ok(p),
            Err(e) => Err(AeroBaseError::PemParseFailure(e.to_string())),
        }
    }
}

impl Drop for RsaKeyPair {
    /// Overwrites the retained private PEM text with zeros before the
    /// memory is released; the rsa crate's own zeroize-on-drop handles the
    /// private key's numbers.
    fn drop(&mut self)
        opens_invariants none
        no_unwind
    {
        zeroize_string(&mut self.pem);
    }
}

/// Relies on rsa's `RsaPublicKey::encrypt` with `Pkcs1v15Encrypt`: succeeds
/// exactly within the crate's checks and the modulus-minus-11 length bound,
/// pads to the modulus size, and what it returns decrypts back to the
/// plaintext under the same pair.
#[verifier::external_body]
fn rsa_encrypt_bytes(kp: &RsaKeyPair, plaintext: &[u8]) -> (r: Result<Vec<u8>, AeroBaseError>)
    ensures
        r matches Ok(ct) ==> rsa_decrypt_spec(kp.key_id(), ct@) == Some(plaintext@) && ct@.len()
            == kp.modulus_size(),
        kp.usable() && plaintext@.len() + 11 <= kp.modulus_size() ==> r is Ok,
        r matches Err(e) ==> e is InvalidInput,
{
    let mut rng = rand::thread_rng();
    match kp.public_key.encrypt(&mut rng, rsa::Pkcs1v15Encrypt, plaintext) {
        Ok(ct) => Ok(ct),
        Err(e) => Err(AeroBaseError::InvalidInput(e.to_string())),
    }
}

/// Relies on rsa's `RsaPrivateKey::decrypt` with `Pkcs1v15Encrypt`: a pure
/// function of the pair and ciphertext, failing exactly where the padding
/// check fails.
#[verifier::external_body]
fn rsa_decrypt_bytes(kp: &RsaKeyPair, ciphertext: &[u8]) -> (r: Result<Vec<u8>, AeroBaseError>)
    ensures
        match r {
            Ok(p) => rsa_decrypt_spec(kp.key_id(), ciphertext@) == Some(p@),
            Err(e) => rsa_decrypt_spec(kp.key_id(), ciphertext@) is None && e is UnwrapFailure,
        },
{
    match kp.private_key.decrypt(rsa::Pkcs1v15Encrypt, ciphertext) {
        Ok(p) => Ok(p),
        Err(e) => Err(AeroBaseError::UnwrapFailure(e.to_string())),
    }
}

/// Law: a wrapped key that decrypts to a text's UTF-8 bytes under a pair
/// unwraps to exactly that text.
pub proof fn lemma_asymmetric_round_trip(pem: Seq<char>, ct_b64: Seq<char>, s: Seq<char>)
    requires
        rsa_sealed_text(pem, ct_b64, encode_utf8(s)),
    ensures
        rsa_open_text(pem, ct_b64) == Some(s),
{
    broadcast use vstd::utf8::encode_utf8_valid_utf8, vstd::utf8::encode_utf8_decode_utf8;

}

/// Law: re-importing an exported pair yields a pair under the same key:
/// whatever was wrapped under the original opens under the re-import.
pub proof fn lemma_pem_round_trip(pem: Seq<char>, ct_b64: Seq<char>, pt: Seq<u8>)
    requires
        canon_pem_of(pem) == pem,
        rsa_sealed_text(pem, ct_b64, pt),
    ensures
        rsa_sealed_text(canon_pem_of(pem), ct_b64, pt),
{
}

/// The asymmetric cipher: wraps small payloads (in this library, only
/// 32-byte symmetric keys) under the pair it owns.
pub struct RsaEncryptor {
    key_pair: RsaKeyPair,
}

impl RsaEncryptor {
    /// The canonical private PEM text that identifies the held pair.
    pub closed spec fn key_id(&self) -> Seq<char> {
        self.key_pair.key_id()
    }

    /// The modulus size in bytes of the held pair.
    pub closed spec fn modulus_size(&self) -> nat {
        self.key_pair.modulus_size()
    }

    /// The held pair passes the rsa crate's public-key checks.
    pub closed spec fn usable(&self) -> bool {
        self.key_pair.usable()
    }

    /// An encryptor under a freshly generated pair.
    pub fn new() -> (r: Result<Self, AeroBaseError>)
        ensures
            r matches Ok(x) ==> {
                &&& x.usable()
                &&& x.modulus_size() == 256
                &&& canon_pem_of(x.key_id()) == x.key_id()
                &&& pem_parses(x.key_id())
                &&& pem_usable(x.key_id())
                &&& pem_modulus_bytes(x.key_id()) == 256
            },
            r matches Err(e) ==> e is KeyGenerationFailure,
    {
        match RsaKeyPair::generate() {
            Ok(key_pair) => Ok(RsaEncryptor { key_pair }),
            Err(e) => Err(e),
        }
    }

    /// An encryptor under the given pair.
    pub fn from_keypair(key_pair: RsaKeyPair) -> (r: Self)
        ensures
            r.key_id() == key_pair.key_id(),
            r.modulus_size() == key_pair.modulus_size(),
            r.usable() == key_pair.usable(),
    {
        RsaEncryptor { key_pair }
    }

    /// Encrypts a small payload under the pair's public key.
    pub fn encrypt(&self, plaintext: &[u8]) -> (r: Result<Vec<u8>, AeroBaseError>)
        ensures
            r matches Ok(ct) ==> rsa_decrypt_spec(self.key_id(), ct@) == Some(plaintext@),
            self.usable() && plaintext@.len() + 11 <= self.modulus_size() ==> r is Ok,
            r matches Err(e) ==> e is InvalidInput,
    {
        rsa_encrypt_bytes(&self.key_pair, plaintext)
    }

    /// Decrypts a payload under the pair's private key.
    pub fn decrypt(&self, ciphertext: &[u8]) -> (r: Result<Vec<u8>, AeroBaseError>)
        ensures
            match r {
                Ok(p) => rsa_decrypt_spec(self.key_id(), ciphertext@) == Some(p@),
                Err(e) => rsa_decrypt_spec(self.key_id(), ciphertext@) is None
                    && e is UnwrapFailure,
            },
    {
        rsa_decrypt_bytes(&self.key_pair, ciphertext)
    }

    /// Encrypts the UTF-8 bytes of a text and returns the result as base64.
    pub fn encrypt_string(&self, plaintext: &str) -> (r: Result<String, AeroBaseError>)
        ensures
            r matches Ok(c) ==> rsa_sealed_text(self.key_id(), c@, encode_utf8(plaintext@)),
            self.usable() && encode_utf8(plaintext@).len() + 11 <= self.modulus_size() ==> r is Ok,
            r matches Err(e) ==> e is InvalidInput,
    {
        let ct = match self.encrypt(plaintext.as_bytes()) {
            Ok(c) => c,
            Err(e) => { return Err(e) },
        };
        Ok(b64_encode(ct.as_slice()))
    }

    /// Decodes a base64 ciphertext, decrypts it, and decodes the plaintext
    /// as UTF-8 text.
    pub fn decrypt_string(&self, ciphertext_b64: &str) -> (r: Result<String, AeroBaseError>)
        ensures
            match r {
                Ok(s) => rsa_open_text(self.key_id(), ciphertext_b64@) == Some(s@),
                Err(e) => rsa_open_text(self.key_id(), ciphertext_b64@) is None
                    && rsa_text_error(self.key_id(), ciphertext_b64@, e),
            },
    {
        let ct = match b64_decode(ciphertext_b64) {
            Ok(v) => v,
            Err(e) => { return Err(e) },
        };
        let plaintext = match self.decrypt(ct.as_slice()) {
            Ok(p) => p,
            Err(e) => { return Err(e) },
        };
        match crate::bindings::utf8_to_string(plaintext) {
            Ok(s) => Ok(s),
            Err(e) => Err(e),
        }
    }

    /// The held pair's public key as PEM text; the export cannot fail.
    pub fn public_key_pem(&self) -> (r: Result<String, AeroBaseError>)
        ensures
            r matches Ok(p) && p@ == rsa_public_pem_of(self.key_id()),
    {
        self.key_pair.public_key_to_pem()
    }

    /// The held pair's private key as canonical PKCS#8 PEM text.
    pub fn private_key_pem(&self) -> (r: Result<String, AeroBaseError>)
        ensures
            r matches Ok(p) && p@ == self.key_id(),
    {
        self.key_pair.to_pem()
    }

    /// Wraps a symmetric key under the pair's public key, base64-encoded.
    pub fn encrypt_aes_key(&self, aes_key: &[u8]) -> (r: Result<String, AeroBaseError>)
        ensures
            r matches Ok(w) ==> rsa_sealed_text(self.key_id(), w@, aes_key@),
            self.usable() && aes_key@.len() + 11 <= self.modulus_size() ==> r is Ok,
            r matches Err(e) ==> e is InvalidInput,
    {
        let ct = match self.encrypt(aes_key) {
            Ok(c) => c,
            Err(e) => { return Err(e) },
        };
        Ok(b64_encode(ct.as_slice()))
    }

    /// Unwraps a base64-encoded wrapped symmetric key.
    pub fn decrypt_aes_key(&self, encrypted_key_b64: &str) -> (r: Result<Vec<u8>, AeroBaseError>)
        ensures
            match r {
                Ok(k) => rsa_open_bytes(self.key_id(), encrypted_key_b64@) == Some(k@),
                Err(e) => rsa_open_bytes(self.key_id(), encrypted_key_b64@) is None
                    && rsa_open_error(encrypted_key_b64@, e),
            },
    {
        let ct = match b64_decode(encrypted_key_b64) {
            Ok(v) => v,
            Err(e) => { return Err(e) },
        };
        self.decrypt(ct.as_slice())
    }
}

/// The plaintext that hybrid decryption owes: unwrap the symmetric key
/// under the pair, then decrypt the blob under it; absent whenever any
/// step fails.
pub open spec fn hybrid_plain_of(pem: Seq<char>, blob: EncryptedData, wrapped: Seq<char>) -> Option<
    Seq<u8>,
> {
    match rsa_open_bytes(pem, wrapped) {
        Some(k) => if k.len() == AES_KEY_SIZE {
            sym_plain_of(k, blob)
        } else {
            None
        },
        None => None,
    }
}

/// The text that hybrid decryption owes when a text result is expected.
pub open spec fn hybrid_text_of(pem: Seq<char>, blob: EncryptedData, wrapped: Seq<char>) -> Option<
    Seq<char>,
> {
    match hybrid_plain_of(pem, blob, wrapped) {
        Some(b) => if valid_utf8(b) {
            Some(decode_utf8(b))
        } else {
            None
        },
        None => None,
    }
}

/// The error variant that hybrid decryption owes when it fails: the first
/// failing stage of the pipeline decides. A wrapped key that is not base64
/// is exactly the decode failure; a failed RSA padding check is exactly the
/// undistinguished unwrap failure (wrong pair and corruption look alike by
/// design); an unwrapped key of the wrong size is the invalid-key-length
/// error; past the key, the symmetric stage's own taxonomy applies.
pub open spec fn hybrid_error_is(
    pem: Seq<char>,
    blob: EncryptedData,
    wrapped: Seq<char>,
    e: AeroBaseError,
) -> bool {
    match b64_decode_spec(wrapped) {
        None => e is DecodeFailure,
        Some(ct) => match rsa_decrypt_spec(pem, ct) {
            None => e is UnwrapFailure,
            Some(k) => if k.len() != AES_KEY_SIZE {
                e is InvalidKeyLength
            } else {
                sym_error_is(blob, e)
            },
        },
    }
}

/// The error variant that hybrid text decryption owes when it fails: a
/// decryption failure keeps its variant; bytes that decrypt but are not
/// valid UTF-8 are exactly the UTF-8 failure.
pub open spec fn hybrid_text_error(
    pem: Seq<char>,
    blob: EncryptedData,
    wrapped: Seq<char>,
    e: AeroBaseError,
) -> bool {
    match hybrid_plain_of(pem, blob, wrapped) {
        Some(b) => !valid_utf8(b) && e is Utf8Failure,
        None => hybrid_error_is(pem, blob, wrapped, e),
    }
}

/// Law: a blob and wrapped key produced by hybrid encryption decrypt to the
/// original plaintext.
pub proof fn lemma_hybrid_round_trip(
    pem: Seq<char>,
    aes_key: Seq<u8>,
    blob: EncryptedData,
    wrapped: Seq<char>,
    pt: Seq<u8>,
)
    requires
        aes_key.len() == AES_KEY_SIZE,
        sym_encrypted(aes_key, blob, pt),
        rsa_sealed_text(pem, wrapped, aes_key),
    ensures
        hybrid_plain_of(pem, blob, wrapped) == Some(pt),
{
    lemma_symmetric_round_trip(aes_key, blob, pt);
}

/// Law: a blob and wrapped key produced by hybrid encryption of a text
/// decrypt back to that very text.
pub proof fn lemma_hybrid_text_round_trip(
    pem: Seq<char>,
    aes_key: Seq<u8>,
    blob: EncryptedData,
    wrapped: Seq<char>,
    s: Seq<char>,
)
    requires
        aes_key.len() == AES_KEY_SIZE,
        sym_encrypted(aes_key, blob, encode_utf8(s)),
        rsa_sealed_text(pem, wrapped, aes_key),
    ensures
        hybrid_text_of(pem, blob, wrapped) == Some(s),
{
    broadcast use vstd::utf8::encode_utf8_valid_utf8, vstd::utf8::encode_utf8_decode_utf8;

    lemma_hybrid_round_trip(pem, aes_key, blob, wrapped, encode_utf8(s));
}

/// The hybrid envelope: one symmetric key for bulk data, generated at
/// construction and reused for the instance's lifetime, wrapped under one
/// RSA pair. Repeated encryptions under one instance reuse the key and
/// differ only in the nonce.
pub struct HybridEncryptor {
    aes: AesEncryptor,
    rsa: RsaEncryptor,
}

impl HybridEncryptor {
    /// The symmetric key the envelope holds.
    pub closed spec fn aes_key(&self) -> Seq<u8> {
        self.aes.key_bytes()
    }

    /// The canonical private PEM text that identifies the held pair.
    pub closed spec fn key_id(&self) -> Seq<char> {
        self.rsa.key_id()
    }

    /// The modulus size in bytes of the held pair.
    pub closed spec fn modulus_size(&self) -> nat {
        self.rsa.modulus_size()
    }

    /// The held pair passes the rsa crate's public-key checks.
    pub closed spec fn usable(&self) -> bool {
        self.rsa.usable()
    }

    /// The envelope is well formed: its symmetric key has 32 bytes.
    pub open spec fn wf(&self) -> bool {
        self.aes_key().len() == AES_KEY_SIZE
    }

    /// An envelope under a fresh symmetric key and a fresh RSA pair.
    pub fn new() -> (r: Result<Self, AeroBaseError>)
        ensures
            r matches Ok(h) ==> {
                &&& h.wf()
                &&& h.usable()
                &&& h.modulus_size() == 256
                &&& canon_pem_of(h.key_id()) == h.key_id()
                &&& pem_parses(h.key_id())
                &&& pem_usable(h.key_id())
                &&& pem_modulus_bytes(h.key_id()) == 256
            },
            r matches Err(e) ==> e is KeyGenerationFailure,
    {
        let rsa = match RsaEncryptor::new() {
            Ok(x) => x,
            Err(e) => { return Err(e) },
        };
        Ok(HybridEncryptor { aes: AesEncryptor::fresh(), rsa })
    }

    /// An envelope under a fresh symmetric key and the given RSA pair.
    pub fn with_rsa_keypair(key_pair: RsaKeyPair) -> (r: Result<Self, AeroBaseError>)
        ensures
            r matches Ok(h) && h.wf() && h.key_id() == key_pair.key_id() && h.modulus_size()
                == key_pair.modulus_size() && h.usable() == key_pair.usable(),
    {
        Ok(HybridEncryptor { aes: AesEncryptor::fresh(), rsa: RsaEncryptor::from_keypair(key_pair) })
    }

    /// Encrypts a plaintext under the held symmetric key and wraps that key
    /// under the held public key.
    pub fn encrypt(&self, plaintext: &[u8]) -> (r: Result<(EncryptedData, String), AeroBaseError>)
        requires
            self.wf(),
            plaintext@.len() <= GCM_MAX_PLAINTEXT,
        ensures
            r matches Ok(pair) ==> sym_encrypted(self.aes_key(), pair.0, plaintext@)
                && rsa_sealed_text(self.key_id(), pair.1@, self.aes_key()),
            self.usable() && AES_KEY_SIZE + 11 <= self.modulus_size() ==> r is Ok,
            r matches Err(e) ==> e is InvalidInput,
    {
        let blob = match self.aes.encrypt(plaintext) {
            Ok(b) => b,
            Err(e) => { return Err(e) },
        };
        let key = self.aes.get_key();
        let wrapped = match self.rsa.encrypt_aes_key(key.as_slice()) {
            Ok(w) => w,
            Err(e) => { return Err(e) },
        };
        Ok((blob, wrapped))
    }

    /// Unwraps the symmetric key with the held private key, decrypts the
    /// blob under a transient cipher, and zeroes the transient key bytes
    /// before returning.
    pub fn decrypt(&self, encrypted_data: &EncryptedData, encrypted_key: &str) -> (r: Result<
        Vec<u8>,
        AeroBaseError,
    >)
        ensures
            match r {
                Ok(p) => hybrid_plain_of(self.key_id(), *encrypted_data, encrypted_key@) == Some(
                    p@,
                ),
                Err(e) => hybrid_plain_of(self.key_id(), *encrypted_data, encrypted_key@) is None
                    && hybrid_error_is(self.key_id(), *encrypted_data, encrypted_key@, e),
            },
    {
        let mut aes_key = match self.rsa.decrypt_aes_key(encrypted_key) {
            Ok(k) => k,
            Err(e) => { return Err(e) },
        };
        if aes_key.len() != AES_KEY_SIZE {
            zeroize_bytes(&mut aes_key);
            return Err(
                AeroBaseError::InvalidKeyLength(
                    String::from_str("unwrapped key is not 32 bytes"),
                ),
            );
        }
        let mut transient = match AesEncryptor::from_key(aes_key) {
            Ok(t) => t,
            Err(e) => { return Err(e) },
        };
        let out = transient.decrypt(encrypted_data);
        zeroize_bytes(&mut transient.key);
        out
    }

    /// Encrypts the UTF-8 bytes of a text.
    pub fn encrypt_string(&self, plaintext: &str) -> (r: Result<
        (EncryptedData, String),
        AeroBaseError,
    >)
        requires
            self.wf(),
            encode_utf8(plaintext@).len() <= GCM_MAX_PLAINTEXT,
        ensures
            r matches Ok(pair) ==> sym_encrypted(self.aes_key(), pair.0, encode_utf8(plaintext@))
                && rsa_sealed_text(self.key_id(), pair.1@, self.aes_key()),
            self.usable() && AES_KEY_SIZE + 11 <= self.modulus_size() ==> r is Ok,
            r matches Err(e) ==> e is InvalidInput,
    {
        self.encrypt(plaintext.as_bytes())
    }

    /// Decrypts a blob and wrapped key and decodes the plaintext as UTF-8
    /// text.
    pub fn decrypt_string(&self, encrypted_data: &EncryptedData, encrypted_key: &str) -> (r: Result<
        String,
        AeroBaseError,
    >)
        ensures
            match r {
                Ok(s) => hybrid_text_of(self.key_id(), *encrypted_data, encrypted_key@) == Some(
                    s@,
                ),
                Err(e) => hybrid_text_of(self.key_id(), *encrypted_data, encrypted_key@) is None
                    && hybrid_text_error(self.key_id(), *encrypted_data, encrypted_key@, e),
            },
    {
        let plaintext = match self.decrypt(encrypted_data, encrypted_key) {
            Ok(p) => p,
            Err(e) => { return Err(e) },
        };
        match crate::bindings::utf8_to_string(plaintext) {
            Ok(s) => Ok(s),
            Err(e) => Err(e),
        }
    }

    /// The held pair's public key as PEM text; the export cannot fail.
    pub fn public_key_pem(&self) -> (r: Result<String, AeroBaseError>)
        ensures
            r matches Ok(p) && p@ == rsa_public_pem_of(self.key_id()),
    {
        self.rsa.public_key_pem()
    }

    /// The held pair's private key as canonical PKCS#8 PEM text.
    pub fn private_key_pem(&self) -> (r: Result<String, AeroBaseError>)
        ensures
            r matches Ok(p) && p@ == self.key_id(),
    {
        self.rsa.private_key_pem()
    }
}

} // verus!
