//! The secure identity store: encrypted device records bound to one hybrid
//! envelope.

use vstd::prelude::*;

use crate::bindings::now_timestamp;
use crate::encryption::{
    canon_pem_of, hybrid_text_error, hybrid_text_of, pem_modulus_bytes, pem_parses, pem_usable,
    rsa_public_pem_of, rsa_sealed_text, sym_encrypted, EncryptedData, HybridEncryptor, RsaKeyPair,
    AES_KEY_SIZE, GCM_MAX_PLAINTEXT,
};
use crate::error::AeroBaseError;
use vstd::string::StringExecFns;
use vstd::utf8::encode_utf8;

verus! {

broadcast use vstd::seq_lib::group_to_multiset_ensures;

/// A protected device record: the fingerprint (and optionally a
/// hardware-info blob) encrypted under a symmetric key, that key wrapped
/// under the store's RSA pair, and the pair's public PEM alongside.
/// After creation only `last_seen` is ever mutated.
#[derive(Debug, Clone)]
pub struct SecureDevice {
    pub id: String,
    pub encrypted_fingerprint: EncryptedData,
    pub encrypted_hardware_info: Option<EncryptedData>,
    pub encrypted_aes_key: String,
    pub public_key_pem: String,
    pub created_at: i64,
    pub last_seen: i64,
}

/// Some row of `rows` carries the identifier `id`.
pub open spec fn has_id(rows: Seq<SecureDevice>, id: Seq<char>) -> bool {
    exists|i: int| 0 <= i < rows.len() && #[trigger] rows[i].id@ == id
}

/// No two rows carry the same identifier.
pub open spec fn unique_ids(rows: Seq<SecureDevice>) -> bool {
    forall|i: int, j: int| 0 <= i < j < rows.len() ==> rows[i].id@ != rows[j].id@
}

/// The same row with its `last_seen` stamp replaced.
pub open spec fn touched(d: SecureDevice, ts: i64) -> SecureDevice {
    SecureDevice { last_seen: ts, ..d }
}

/// The rows are ordered by `last_seen`, most recent first.
pub open spec fn sorted_by_last_seen_desc(s: Seq<SecureDevice>) -> bool {
    forall|i: int, j: int| 0 <= i < j < s.len() ==> s[i].last_seen >= s[j].last_seen
}

/// The blob and wrapped key protect the text `s` for the store that holds
/// symmetric key `key` and the pair `pem`: the blob encrypts the text's
/// UTF-8 bytes under `key`, and the wrapped key is an RSA encryption of
/// `key` under the pair.
pub open spec fn sealed_for(
    key: Seq<u8>,
    pem: Seq<char>,
    blob: EncryptedData,
    wrapped: Seq<char>,
    s: Seq<char>,
) -> bool {
    &&& key.len() == AES_KEY_SIZE
    &&& sym_encrypted(key, blob, encode_utf8(s))
    &&& rsa_sealed_text(pem, wrapped, key)
}

/// Law: a record sealed for a store's key material is recoverable by that
/// store, and recovers to exactly the sealed text.
pub proof fn lemma_sealed_recoverable(
    key: Seq<u8>,
    pem: Seq<char>,
    blob: EncryptedData,
    wrapped: Seq<char>,
    s: Seq<char>,
)
    requires
        sealed_for(key, pem, blob, wrapped, s),
    ensures
        hybrid_text_of(pem, blob, wrapped) == Some(s),
{
    crate::encryption::lemma_hybrid_text_round_trip(pem, key, blob, wrapped, s);
}

fn clone_blob(b: &EncryptedData) -> (r: EncryptedData)
    ensures
        r == *b,
{
    EncryptedData {
        ciphertext: b.ciphertext.clone(),
        nonce: b.nonce.clone(),
        algorithm: b.algorithm.clone(),
    }
}

fn clone_device(d: &SecureDevice) -> (r: SecureDevice)
    ensures
        r == *d,
{
    SecureDevice {
        id: d.id.clone(),
        encrypted_fingerprint: clone_blob(&d.encrypted_fingerprint),
        encrypted_hardware_info: match &d.encrypted_hardware_info {
            Some(b) => Some(clone_blob(b)),
            None => None,
        },
        encrypted_aes_key: d.encrypted_aes_key.clone(),
        public_key_pem: d.public_key_pem.clone(),
        created_at: d.created_at,
        last_seen: d.last_seen,
    }
}

fn find_index(rows: &Vec<SecureDevice>, id: &String) -> (r: Option<usize>)
    ensures
        match r {
            Some(i) => i < rows@.len() && rows@[i as int].id@ == id@,
            None => !has_id(rows@, id@),
        },
{
    let mut i: usize = 0;
    while i < rows.len()
        invariant
            i <= rows@.len(),
            forall|j: int| 0 <= j < i ==> rows@[j].id@ != id@,
        decreases rows@.len() - i,
    {
        if rows[i].id == *id {
            return Some(i);
        }
        i += 1;
    }
    None
}

/// The secure identity store: owns one hybrid envelope and the protected
/// records, and mediates every read and write of them.
pub struct SecureDeviceManager {
    encryptor: HybridEncryptor,
    rows: Vec<SecureDevice>,
}

impl SecureDeviceManager {
    /// The stored rows, most recently written or touched first.
    pub closed spec fn rows(&self) -> Seq<SecureDevice> {
        self.rows@
    }

    /// The symmetric key the store's envelope holds.
    pub closed spec fn aes_key(&self) -> Seq<u8> {
        self.encryptor.aes_key()
    }

    /// The canonical private PEM text that identifies the store's pair.
    pub closed spec fn key_id(&self) -> Seq<char> {
        self.encryptor.key_id()
    }

    /// The modulus size in bytes of the store's pair.
    pub closed spec fn modulus_size(&self) -> nat {
        self.encryptor.modulus_size()
    }

    /// The store's pair passes the rsa crate's public-key checks.
    pub closed spec fn usable(&self) -> bool {
        self.encryptor.usable()
    }

    /// The store is well formed: its envelope holds a 32-byte key and no
    /// two rows carry the same identifier.
    pub open spec fn wf(&self) -> bool {
        &&& self.env_wf()
        &&& unique_ids(self.rows())
    }

    /// The store's envelope is well formed.
    pub closed spec fn env_wf(&self) -> bool {
        self.encryptor.wf()
    }

    /// A blob and wrapped key are sealed for this store's key material.
    pub open spec fn seals(&self, blob: EncryptedData, wrapped: Seq<char>, s: Seq<char>) -> bool {
        sealed_for(self.aes_key(), self.key_id(), blob, wrapped, s)
    }

    /// A store under a freshly generated envelope, holding no records.
    pub fn new() -> (r: Result<Self, AeroBaseError>)
        ensures
            r matches Ok(m) ==> {
                &&& m.wf()
                &&& m.rows() =~= Seq::<SecureDevice>::empty()
                &&& m.usable()
                &&& m.modulus_size() == 256
                &&& canon_pem_of(m.key_id()) == m.key_id()
                &&& pem_parses(m.key_id())
                &&& pem_usable(m.key_id())
                &&& pem_modulus_bytes(m.key_id()) == 256
            },
            r matches Err(e) ==> e is KeyGenerationFailure,
    {
        let encryptor = match HybridEncryptor::new() {
            Ok(h) => h,
            Err(e) => { return Err(e) },
        };
        Ok(SecureDeviceManager { encryptor, rows: Vec::new() })
    }

    /// A store under the given RSA pair (and a fresh symmetric key),
    /// holding no records.
    pub fn with_keypair(key_pair: RsaKeyPair) -> (r: Result<Self, AeroBaseError>)
        ensures
            r matches Ok(m) && m.wf() && m.rows() =~= Seq::<SecureDevice>::empty() && m.key_id()
                == key_pair.key_id() && m.usable() == key_pair.usable() && m.modulus_size()
                == key_pair.modulus_size(),
    {
        let encryptor = match HybridEncryptor::with_rsa_keypair(key_pair) {
            Ok(h) => h,
            Err(e) => { return Err(e) },
        };
        Ok(SecureDeviceManager { encryptor, rows: Vec::new() })
    }

    /// Creates a protected record: encrypts the fingerprint (and the
    /// hardware info, when given) under the envelope, captures the public
    /// PEM, stamps both timestamps with the current time, and inserts or
    /// replaces the row keyed by `id`, newest first.
    pub fn create_secure_device(
        &mut self,
        id: String,
        fingerprint: &str,
        hardware_info: Option<&str>,
    ) -> (r: Result<SecureDevice, AeroBaseError>)
        requires
            old(self).wf(),
            encode_utf8(fingerprint@).len() <= GCM_MAX_PLAINTEXT,
            hardware_info matches Some(h) ==> encode_utf8(h@).len() <= GCM_MAX_PLAINTEXT,
        ensures
            final(self).wf(),
            final(self).aes_key() == old(self).aes_key(),
            final(self).key_id() == old(self).key_id(),
            final(self).usable() == old(self).usable(),
            final(self).modulus_size() == old(self).modulus_size(),
            old(self).usable() && old(self).modulus_size() >= AES_KEY_SIZE + 11 ==> r is Ok,
            match r {
                Ok(d) => {
                    &&& d.id@ == id@
                    &&& old(self).seals(
                        d.encrypted_fingerprint,
                        d.encrypted_aes_key@,
                        fingerprint@,
                    )
                    &&& (hardware_info matches Some(h) ==> d.encrypted_hardware_info matches Some(
                        hb,
                    ) && old(self).seals(hb, d.encrypted_aes_key@, h@))
                    &&& (hardware_info is None ==> d.encrypted_hardware_info is None)
                    &&& d.public_key_pem@ == rsa_public_pem_of(old(self).key_id())
                    &&& d.created_at == d.last_seen
                    &&& (if has_id(old(self).rows(), id@) {
                        exists|i: int|
                            0 <= i < old(self).rows().len() && #[trigger] old(self).rows()[i].id@
                                == id@ && final(self).rows() =~= seq![d] + old(
                                self,
                            ).rows().remove(i)
                    } else {
                        final(self).rows() =~= seq![d] + old(self).rows()
                    })
                },
                Err(e) => {
                    &&& final(self).rows() == old(self).rows()
                    &&& e is InvalidInput
                },
            },
    {
        let pair = match self.encryptor.encrypt_string(fingerprint) {
            Ok(p) => p,
            Err(e) => { return Err(e) },
        };
        let encrypted_fingerprint = pair.0;
        let encrypted_key = pair.1;
        let encrypted_hardware_info = match hardware_info {
            Some(h) => {
                match self.encryptor.encrypt_string(h) {
                    Ok(hp) => Some(hp.0),
                    Err(e) => { return Err(e) },
                }
            },
            None => None,
        };
        let public_key_pem = match self.encryptor.public_key_pem() {
            Ok(p) => p,
            Err(e) => { return Err(e) },
        };
        let now = now_timestamp();
        let device = SecureDevice {
            id,
            encrypted_fingerprint,
            encrypted_hardware_info,
            encrypted_aes_key: encrypted_key,
            public_key_pem,
            created_at: now,
            last_seen: now,
        };
        let idx = find_index(&self.rows, &device.id);
        let ghost rows0 = self.rows@;
        match idx {
            Some(i) => {
                self.rows.remove(i);
                proof {
                    lemma_unique_after_replace(rows0, i as int, device);
                }
            },
            None => {
                proof {
                    lemma_unique_after_push_front(rows0, device);
                }
            },
        }
        let stored = clone_device(&device);
        self.rows.insert(0, stored);
        proof {
            match idx {
                Some(i) => {
                    assert(self.rows@ =~= seq![device] + rows0.remove(i as int));
                },
                None => {
                    assert(self.rows@ =~= seq![device] + rows0);
                },
            }
        }
        Ok(device)
    }

    /// Recovers the fingerprint of a record with the store's envelope. A
    /// record sealed for this store's key material always recovers, to the
    /// very text that was sealed; a record made under another pair fails
    /// with the undistinguished unwrap error.
    pub fn decrypt_fingerprint(&self, device: &SecureDevice) -> (r: Result<String, AeroBaseError>)
        ensures
            match r {
                Ok(s) => hybrid_text_of(
                    self.key_id(),
                    device.encrypted_fingerprint,
                    device.encrypted_aes_key@,
                ) == Some(s@),
                Err(e) => hybrid_text_of(
                    self.key_id(),
                    device.encrypted_fingerprint,
                    device.encrypted_aes_key@,
                ) is None && hybrid_text_error(
                    self.key_id(),
                    device.encrypted_fingerprint,
                    device.encrypted_aes_key@,
                    e,
                ),
            },
            forall|s: Seq<char>|
                self.seals(device.encrypted_fingerprint, device.encrypted_aes_key@, s) ==> (
                r matches Ok(out) && out@ == s),
    {
        let r = self.encryptor.decrypt_string(
            &device.encrypted_fingerprint,
            device.encrypted_aes_key.as_str(),
        );
        proof {
            assert forall|s: Seq<char>|
                self.seals(device.encrypted_fingerprint, device.encrypted_aes_key@, s) implies (
            r matches Ok(out) && out@ == s) by {
                lemma_sealed_recoverable(
                    self.aes_key(),
                    self.key_id(),
                    device.encrypted_fingerprint,
                    device.encrypted_aes_key@,
                    s,
                );
            }
        }
        r
    }

    /// Recovers the hardware info of a record, when the record carries one.
    pub fn decrypt_hardware_info(&self, device: &SecureDevice) -> (r: Result<
        Option<String>,
        AeroBaseError,
    >)
        ensures
            device.encrypted_hardware_info is None ==> (r matches Ok(o) && o is None),
            match r {
                Ok(o) => match o {
                    Some(s) => device.encrypted_hardware_info matches Some(hb) && hybrid_text_of(
                        self.key_id(),
                        hb,
                        device.encrypted_aes_key@,
                    ) == Some(s@),
                    None => device.encrypted_hardware_info is None,
                },
                Err(e) => device.encrypted_hardware_info matches Some(hb) && hybrid_text_of(
                    self.key_id(),
                    hb,
                    device.encrypted_aes_key@,
                ) is None && hybrid_text_error(self.key_id(), hb, device.encrypted_aes_key@, e),
            },
            forall|hb: EncryptedData, s: Seq<char>|
                (device.encrypted_hardware_info == Some(hb) && self.seals(
                    hb,
                    device.encrypted_aes_key@,
                    s,
                )) ==> (r matches Ok(o) && o matches Some(out) && out@ == s),
    {
        let r = match &device.encrypted_hardware_info {
            Some(encrypted) => {
                match self.encryptor.decrypt_string(encrypted, device.encrypted_aes_key.as_str()) {
                    Ok(s) => Ok(Some(s)),
                    Err(e) => Err(e),
                }
            },
            None => Ok(None),
        };
        proof {
            assert forall|hb: EncryptedData, s: Seq<char>|
                (device.encrypted_hardware_info == Some(hb) && self.seals(
                    hb,
                    device.encrypted_aes_key@,
                    s,
                )) implies (r matches Ok(o) && o matches Some(out) && out@ == s) by {
                lemma_sealed_recoverable(
                    self.aes_key(),
                    self.key_id(),
                    hb,
                    device.encrypted_aes_key@,
                    s,
                );
            }
        }
        r
    }

    /// Fetches a record by identifier; absence is not an error.
    pub fn load_from_db(&self, device_id: &str) -> (r: Result<Option<SecureDevice>, AeroBaseError>)
        ensures
            match r {
                Ok(o) => match o {
                    Some(d) => d.id@ == device_id@ && exists|i: int|
                        0 <= i < self.rows().len() && self.rows()[i] == d,
                    None => !has_id(self.rows(), device_id@),
                },
                Err(_) => false,
            },
            (r matches Ok(o) && o is Some) <==> has_id(self.rows(), device_id@),
    {
        let key = device_id.to_owned();
        match find_index(&self.rows, &key) {
            Some(i) => {
                let d = clone_device(&self.rows[i]);
                proof {
                    assert(0 <= i < self.rows().len() && self.rows()[i as int] == d);
                }
                Ok(Some(d))
            },
            None => Ok(None),
        }
    }

    /// Stamps a record's `last_seen` with the current time and moves it to
    /// the front; an absent identifier is a not-found error.
    pub fn update_last_seen(&mut self, device_id: &str) -> (r: Result<(), AeroBaseError>)
        requires
            old(self).wf(),
        ensures
            final(self).wf(),
            final(self).aes_key() == old(self).aes_key(),
            final(self).key_id() == old(self).key_id(),
            final(self).usable() == old(self).usable(),
            final(self).modulus_size() == old(self).modulus_size(),
            match r {
                Ok(_) => exists|i: int, ts: i64|
                    0 <= i < old(self).rows().len() && old(self).rows()[i].id@ == device_id@
                        && final(self).rows()[0] == #[trigger] touched(old(self).rows()[i], ts)
                        && final(self).rows() =~= seq![touched(old(self).rows()[i], ts)] + old(
                        self,
                    ).rows().remove(i),
                Err(e) => e is NotFound && !has_id(old(self).rows(), device_id@) && final(self).rows() == old(self).rows(),
            },
            r is Ok <==> has_id(old(self).rows(), device_id@),
    {
        let key = device_id.to_owned();
        match find_index(&self.rows, &key) {
            Some(i) => {
                let ghost rows0 = self.rows@;
                let mut row = self.rows.remove(i);
                let ts = now_timestamp();
                row.last_seen = ts;
                proof {
                    assert(row == touched(rows0[i as int], ts));
                    lemma_unique_after_replace(rows0, i as int, row);
                }
                self.rows.insert(0, row);
                proof {
                    assert(self.rows@ =~= seq![touched(rows0[i as int], ts)] + rows0.remove(
                        i as int,
                    ));
                }
                Ok(())
            },
            None => Err(AeroBaseError::NotFound(String::from_str("no such device"))),
        }
    }

    /// All records, ordered by `last_seen` descending (most recently seen
    /// or touched first).
    pub fn list_secure_devices(&self) -> (r: Result<Vec<SecureDevice>, AeroBaseError>)
        ensures
            r matches Ok(out) && out@.to_multiset() == self.rows().to_multiset()
                && sorted_by_last_seen_desc(out@),
    {
        let mut out: Vec<SecureDevice> = Vec::new();
        let mut i: usize = 0;
        while i < self.rows.len()
            invariant
                i <= self.rows@.len(),
                out@ =~= self.rows@.take(i as int),
            decreases self.rows@.len() - i,
        {
            out.push(clone_device(&self.rows[i]));
            i += 1;
        }
        proof {
            assert(out@ =~= self.rows@);
        }
        sort_by_last_seen_desc(&mut out);
        Ok(out)
    }

    /// Removes a record by identifier; removing an absent identifier is
    /// not an error.
    pub fn delete_device(&mut self, device_id: &str) -> (r: Result<(), AeroBaseError>)
        requires
            old(self).wf(),
        ensures
            final(self).wf(),
            final(self).aes_key() == old(self).aes_key(),
            final(self).key_id() == old(self).key_id(),
            final(self).usable() == old(self).usable(),
            final(self).modulus_size() == old(self).modulus_size(),
            r is Ok,
            if has_id(old(self).rows(), device_id@) {
                exists|i: int|
                    0 <= i < old(self).rows().len() && #[trigger] old(self).rows()[i].id@
                        == device_id@ && final(self).rows() =~= old(self).rows().remove(i)
            } else {
                final(self).rows() == old(self).rows()
            },
            !has_id(final(self).rows(), device_id@),
    {
        let key = device_id.to_owned();
        match find_index(&self.rows, &key) {
            Some(i) => {
                let ghost rows0 = self.rows@;
                self.rows.remove(i);
                proof {
                    lemma_unique_after_replace(rows0, i as int, rows0[i as int]);
                }
                Ok(())
            },
            None => Ok(()),
        }
    }

    /// The store's private key as canonical PKCS#8 PEM text.
    pub fn export_private_key(&self) -> (r: Result<String, AeroBaseError>)
        ensures
            r matches Ok(p) && p@ == self.key_id(),
    {
        self.encryptor.private_key_pem()
    }

    /// The store's public key as PEM text; the export cannot fail.
    pub fn export_public_key(&self) -> (r: Result<String, AeroBaseError>)
        ensures
            r matches Ok(p) && p@ == rsa_public_pem_of(self.key_id()),
    {
        self.encryptor.public_key_pem()
    }
}

/// Stable insertion sort by `last_seen`, most recent first: a permutation
/// of the input, ordered.
fn sort_by_last_seen_desc(v: &mut Vec<SecureDevice>)
    ensures
        final(v)@.to_multiset() == old(v)@.to_multiset(),
        final(v)@.len() == old(v)@.len(),
        sorted_by_last_seen_desc(final(v)@),
{
    if v.len() <= 1 {
        return ;
    }
    let mut k: usize = 1;
    while k < v.len()
        invariant
            v@.len() == old(v)@.len(),
            v@.to_multiset() == old(v)@.to_multiset(),
            1 <= k <= v@.len(),
            sorted_by_last_seen_desc(v@.take(k as int)),
        decreases v@.len() - k,
    {
        let cur = v[k].last_seen;
        let mut p: usize = k;
        while p > 0 && v[p - 1].last_seen < cur
            invariant
                p <= k < v@.len(),
                cur == v@[k as int].last_seen,
                forall|q: int| p <= q < k ==> v@[q].last_seen < cur,
            decreases p,
        {
            p -= 1;
        }
        let ghost prev = v@;
        proof {
            assert(p == 0 || prev[p - 1].last_seen >= cur);
        }
        let row = v.remove(k);
        v.insert(p, row);
        proof {
            assert(v@ =~= prev.take(p as int) + seq![prev[k as int]] + prev.subrange(
                p as int,
                k as int,
            ) + prev.subrange(k as int + 1, prev.len() as int));
            assert(forall|q: int| 0 <= q < p ==> v@[q] == prev[q]);
            assert(v@[p as int] == prev[k as int]);
            assert(forall|q: int| p < q <= k ==> v@[q] == prev[q - 1]);
            assert(sorted_by_last_seen_desc(v@.take(k as int + 1))) by {
                assert forall|a: int, b: int| 0 <= a < b < k + 1 implies v@[a].last_seen
                    >= v@[b].last_seen by {
                    assert(sorted_by_last_seen_desc(prev.take(k as int)));
                    assert forall|x: int, y: int| 0 <= x < y < k implies prev[x].last_seen
                        >= prev[y].last_seen by {
                        assert(prev.take(k as int)[x] == prev[x]);
                        assert(prev.take(k as int)[y] == prev[y]);
                    }
                    if a < p {
                        assert(prev[a].last_seen >= prev[p - 1].last_seen);
                        assert(prev[a].last_seen >= cur);
                    }
                    if b > p {
                        assert(v@[b] == prev[b - 1] && p <= b - 1 < k);
                        assert(v@[b].last_seen < cur);
                    }
                }
            }
        }
        k += 1;
    }
    proof {
        assert(v@.take(v@.len() as int) =~= v@);
    }
}

proof fn lemma_unique_after_replace(rows: Seq<SecureDevice>, i: int, d: SecureDevice)
    requires
        unique_ids(rows),
        0 <= i < rows.len(),
        rows[i].id@ == d.id@,
    ensures
        unique_ids(seq![d] + rows.remove(i)),
        unique_ids(rows.remove(i)),
        !has_id(rows.remove(i), d.id@),
{
    let rest = rows.remove(i);
    assert forall|j: int| 0 <= j < rest.len() implies rest[j].id@ != d.id@ by {
        if j < i {
            assert(rest[j] == rows[j]);
        } else {
            assert(rest[j] == rows[j + 1]);
        }
    }
    let out = seq![d] + rest;
    assert forall|a: int, b: int| 0 <= a < b < out.len() implies out[a].id@ != out[b].id@ by {
        if a == 0 {
            assert(out[b] == rest[b - 1]);
        } else {
            assert(out[a] == rest[a - 1] && out[b] == rest[b - 1]);
            if a - 1 < i && b - 1 < i {
                assert(rest[a - 1] == rows[a - 1] && rest[b - 1] == rows[b - 1]);
            } else if a - 1 < i {
                assert(rest[a - 1] == rows[a - 1] && rest[b - 1] == rows[b]);
            } else {
                assert(rest[a - 1] == rows[a] && rest[b - 1] == rows[b]);
            }
        }
    }
}

proof fn lemma_unique_after_push_front(rows: Seq<SecureDevice>, d: SecureDevice)
    requires
        unique_ids(rows),
        !has_id(rows, d.id@),
    ensures
        unique_ids(seq![d] + rows),
{
    let out = seq![d] + rows;
    assert forall|a: int, b: int| 0 <= a < b < out.len() implies out[a].id@ != out[b].id@ by {
        if a == 0 {
            assert(out[b] == rows[b - 1]);
            assert(0 <= b - 1 < rows.len() && rows[b - 1].id@ == rows[b - 1].id@);
        } else {
            assert(out[a] == rows[a - 1] && out[b] == rows[b - 1]);
        }
    }
}

} // verus!
