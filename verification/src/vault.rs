//! Custody of the two symmetric session keys: authenticated encryption under
//! either key, and destructive wipe-and-regenerate.
//!
//! A nonce may be used at most once per key: every nonce accepted for a key
//! is recorded, and a repeated nonce is rejected rather than silently
//! accepted, since reusing a (key, nonce) pair for two plaintexts is a
//! catastrophic AEAD failure.  The all-zero nonce of each length is reserved
//! for the key check value and is never accepted for encryption.

use vstd::prelude::*;
use aes_gcm::aead::Aead;
use aes_gcm::aead::KeyInit;
use rand::RngCore;
use zeroize::Zeroize;

verus! {

/// A key or nonce misuse, fatal to the specific operation.
#[derive(Clone, Copy, PartialEq, Eq, Structural, Debug)]
pub enum CryptoError {
    /// The supplied nonce does not have the length the cipher requires.
    InvalidNonceLength,
    /// The supplied nonce was already used under this key.
    NonceReused,
    /// The plaintext exceeds what the cipher accepts.
    MessageTooLong,
    /// The secure random source refused to produce key material.
    RandomSourceFailure,
    /// The cipher itself refused the operation.
    EncryptionFailure,
}

/// `n` zero bytes.
pub open spec fn zero_seq(n: nat) -> Seq<u8> {
    Seq::new(n, |i: int| 0u8)
}

/// What AES-256-GCM returns for a key, nonce and plaintext: ciphertext with
/// the authentication tag appended.  A function of its arguments alone.
pub uninterp spec fn aes_gcm_seal_bytes(key: Seq<u8>, nonce: Seq<u8>, data: Seq<u8>) -> Seq<u8>;

/// What XChaCha20-Poly1305 returns for a key, nonce and plaintext: ciphertext
/// with the authentication tag appended.  A function of its arguments alone.
pub uninterp spec fn xchacha_seal_bytes(key: Seq<u8>, nonce: Seq<u8>, data: Seq<u8>) -> Seq<u8>;

/// The largest plaintext AES-256-GCM accepts, in bytes.
pub open spec fn aes_gcm_max_plaintext() -> int {
    68719476736
}

/// The largest plaintext XChaCha20-Poly1305 accepts is one byte short of this
/// bound, in bytes.
pub open spec fn xchacha_plaintext_bound() -> int {
    274877906880
}

/// Relies on aes_gcm's `Aes256Gcm`: sealing is deterministic in key, nonce
/// and plaintext, appends the 16-byte tag, and fails exactly when the
/// plaintext is longer than 2^36 bytes; building the cipher from a 32-byte
/// key cannot fail.
#[verifier::external_body]
fn aes_gcm_seal(key: &[u8; 32], nonce: &[u8], data: &[u8]) -> (r: Result<Vec<u8>, CryptoError>)
    requires
        nonce@.len() == 12,
    ensures
        r is Ok <==> data@.len() <= aes_gcm_max_plaintext(),
        r is Ok ==> r.unwrap()@ == aes_gcm_seal_bytes(key@, nonce@, data@),
        r is Ok ==> r.unwrap()@.len() == data@.len() + 16,
{
    let cipher = match aes_gcm::Aes256Gcm::new_from_slice(key) {
        Ok(c) => c,
        Err(_) => return Err(CryptoError::EncryptionFailure),
    };
    cipher.encrypt(aes_gcm::Nonce::from_slice(nonce), data).map_err(
        |_| CryptoError::EncryptionFailure,
    )
}

/// Relies on chacha20poly1305's `XChaCha20Poly1305`: sealing is deterministic
/// in key, nonce and plaintext, appends the 16-byte tag, and fails exactly
/// when the plaintext reaches 2^32 - 1 blocks of 64 bytes; building the
/// cipher from a 32-byte key cannot fail.
#[verifier::external_body]
fn xchacha_seal(key: &[u8; 32], nonce: &[u8], data: &[u8]) -> (r: Result<Vec<u8>, CryptoError>)
    requires
        nonce@.len() == 24,
    ensures
        r is Ok <==> data@.len() < xchacha_plaintext_bound(),
        r is Ok ==> r.unwrap()@ == xchacha_seal_bytes(key@, nonce@, data@),
        r is Ok ==> r.unwrap()@.len() == data@.len() + 16,
{
    let cipher = match chacha20poly1305::XChaCha20Poly1305::new_from_slice(key) {
        Ok(c) => c,
        Err(_) => return Err(CryptoError::EncryptionFailure),
    };
    cipher.encrypt(chacha20poly1305::XNonce::from_slice(nonce), data).map_err(
        |_| CryptoError::EncryptionFailure,
    )
}

/// Relies on rand's `OsRng` (the operating system's secure random source) to
/// fill the buffer; nothing is assumed of the bytes it writes, and `false`
/// reports that the source refused.
#[verifier::external_body]
fn fill_random_bytes(buf: &mut [u8; 32]) -> (ok: bool) {
    rand::rngs::OsRng.try_fill_bytes(buf).is_ok()
}

/// Relies on zeroize's `Zeroize` for byte arrays: every byte is set to zero
/// through writes the compiler will not elide.
#[verifier::external_body]
fn zeroize_key(buf: &mut [u8; 32])
    ensures
        final(buf)@ == zero_seq(32),
{
    buf.zeroize();
}

/// `n` zero bytes as an owned vector.
fn zero_vec(n: usize) -> (r: Vec<u8>)
    ensures
        r@ == zero_seq(n as nat),
{
    let mut r: Vec<u8> = Vec::new();
    let mut i: usize = 0;
    while i < n
        invariant
            i <= n,
            r@ =~= zero_seq(i as nat),
        decreases n - i,
    {
        r.push(0u8);
        proof {
            assert(r@ =~= zero_seq((i + 1) as nat));
        }
        i = i + 1;
    }
    proof {
        assert(r@ =~= zero_seq(n as nat));
    }
    r
}

/// Whether `n` occurs in the log of used nonces.
pub open spec fn nonce_logged(log: Seq<Seq<u8>>, n: Seq<u8>) -> bool {
    exists|i: int| 0 <= i < log.len() && log[i] == n
}

/// Byte-for-byte equality of a logged nonce and a candidate.
fn bytes_eq(a: &Vec<u8>, b: &Vec<u8>) -> (r: bool)
    ensures
        r == (a@ == b@),
{
    if a.len() != b.len() {
        return false;
    }
    let mut i: usize = 0;
    while i < a.len()
        invariant
            a@.len() == b@.len(),
            i <= a@.len(),
            forall|j: int| 0 <= j < i ==> a@[j] == b@[j],
        decreases a@.len() - i,
    {
        if a[i] != b[i] {
            return false;
        }
        i = i + 1;
    }
    proof {
        assert(a@ =~= b@);
    }
    true
}

/// Whether the candidate nonce was already recorded.
fn contains_nonce(log: &Vec<Vec<u8>>, n: &Vec<u8>) -> (r: bool)
    ensures
        r == nonce_logged(log@.map_values(|v: Vec<u8>| v@), n@),
{
    let mut i: usize = 0;
    while i < log.len()
        invariant
            i <= log@.len(),
            forall|j: int| 0 <= j < i ==> log@[j]@ != n@,
        decreases log@.len() - i,
    {
        if bytes_eq(&log[i], n) {
            proof {
                let lv = log@.map_values(|v: Vec<u8>| v@);
                assert(lv[i as int] == n@);
            }
            return true;
        }
        i = i + 1;
    }
    proof {
        let lv = log@.map_values(|v: Vec<u8>| v@);
        assert(forall|j: int| 0 <= j < lv.len() ==> lv[j] != n@);
    }
    false
}

/// The vault: two independent 256-bit keys, owned exclusively, each with the
/// log of nonces already spent under it.
pub struct CryptoVault {
    aes_key: [u8; 32],
    chacha_key: [u8; 32],
    aes_nonces: Vec<Vec<u8>>,
    chacha_nonces: Vec<Vec<u8>>,
}

impl CryptoVault {
    /// The primary (AES-256-GCM) key.
    pub closed spec fn spec_aes_key(self) -> Seq<u8> {
        self.aes_key@
    }

    /// The secondary (XChaCha20-Poly1305) key.
    pub closed spec fn spec_chacha_key(self) -> Seq<u8> {
        self.chacha_key@
    }

    /// The nonces spent under the primary key, oldest first.
    pub closed spec fn spec_aes_nonces(self) -> Seq<Seq<u8>> {
        self.aes_nonces@.map_values(|v: Vec<u8>| v@)
    }

    /// The nonces spent under the secondary key, oldest first.
    pub closed spec fn spec_chacha_nonces(self) -> Seq<Seq<u8>> {
        self.chacha_nonces@.map_values(|v: Vec<u8>| v@)
    }

    /// A well-formed vault holds two 256-bit keys — always, even right after
    /// a wipe — and reserves the all-zero nonce of each length, so that no
    /// encryption can ever spend it.
    pub open spec fn wf(self) -> bool {
        &&& self.spec_aes_key().len() == 32
        &&& self.spec_chacha_key().len() == 32
        &&& self.spec_aes_nonces().len() >= 1
        &&& self.spec_aes_nonces()[0] == zero_seq(12)
        &&& self.spec_chacha_nonces().len() >= 1
        &&& self.spec_chacha_nonces()[0] == zero_seq(24)
    }

    /// Samples two independent 256-bit keys from the operating system's
    /// secure random source.  Fails only when that source refuses, and then
    /// no vault exists at all.
    pub fn new() -> (r: Result<CryptoVault, CryptoError>)
        ensures
            r is Ok ==> r.unwrap().wf(),
            r is Ok ==> r.unwrap().spec_aes_nonces() == seq![zero_seq(12)],
            r is Ok ==> r.unwrap().spec_chacha_nonces() == seq![zero_seq(24)],
            r is Err ==> r == Err::<CryptoVault, CryptoError>(CryptoError::RandomSourceFailure),
    {
        let mut aes_key = [0u8; 32];
        if !fill_random_bytes(&mut aes_key) {
            return Err(CryptoError::RandomSourceFailure);
        }
        let mut chacha_key = [0u8; 32];
        if !fill_random_bytes(&mut chacha_key) {
            return Err(CryptoError::RandomSourceFailure);
        }
        let mut aes_nonces: Vec<Vec<u8>> = Vec::new();
        aes_nonces.push(zero_vec(12));
        let mut chacha_nonces: Vec<Vec<u8>> = Vec::new();
        chacha_nonces.push(zero_vec(24));
        let vault = CryptoVault { aes_key, chacha_key, aes_nonces, chacha_nonces };
        proof {
            assert(vault.spec_aes_nonces() =~= seq![zero_seq(12)]);
            assert(vault.spec_chacha_nonces() =~= seq![zero_seq(24)]);
        }
        Ok(vault)
    }

    /// Authenticated encryption under the primary key.  The caller supplies a
    /// fresh 96-bit nonce; a nonce already spent under this key — including
    /// the reserved all-zero nonce — is rejected, and nothing changes.  On
    /// success the nonce is recorded as spent and the ciphertext (with its
    /// 16-byte tag) is exactly the AES-256-GCM sealing.
    pub fn encrypt_aes(&mut self, data: &[u8], nonce: Vec<u8>) -> (r: Result<Vec<u8>, CryptoError>)
        ensures
            final(self).spec_aes_key() == old(self).spec_aes_key(),
            final(self).spec_chacha_key() == old(self).spec_chacha_key(),
            final(self).spec_chacha_nonces() == old(self).spec_chacha_nonces(),
            nonce@.len() != 12 ==> r == Err::<Vec<u8>, CryptoError>(CryptoError::InvalidNonceLength)
                && *final(self) == *old(self),
            nonce@.len() == 12 && nonce_logged(old(self).spec_aes_nonces(), nonce@) ==> r == Err::<
                Vec<u8>,
                CryptoError,
            >(CryptoError::NonceReused) && *final(self) == *old(self),
            nonce@.len() == 12 && !nonce_logged(old(self).spec_aes_nonces(), nonce@) && data@.len()
                > aes_gcm_max_plaintext() ==> r == Err::<Vec<u8>, CryptoError>(
                CryptoError::MessageTooLong,
            ) && *final(self) == *old(self),
            nonce@.len() == 12 && !nonce_logged(old(self).spec_aes_nonces(), nonce@) && data@.len()
                <= aes_gcm_max_plaintext() ==> {
                &&& r is Ok
                &&& r.unwrap()@ == aes_gcm_seal_bytes(old(self).spec_aes_key(), nonce@, data@)
                &&& r.unwrap()@.len() == data@.len() + 16
                &&& final(self).spec_aes_nonces() == old(self).spec_aes_nonces().push(nonce@)
            },
    {
        if nonce.len() != 12 {
            return Err(CryptoError::InvalidNonceLength);
        }
        if contains_nonce(&self.aes_nonces, &nonce) {
            return Err(CryptoError::NonceReused);
        }
        if (data.len() as u64) > 68719476736u64 {
            return Err(CryptoError::MessageTooLong);
        }
        let sealed = match aes_gcm_seal(&self.aes_key, nonce.as_slice(), data) {
            Ok(v) => v,
            Err(_) => { vstd::pervasive::unreached() },
        };
        self.aes_nonces.push(nonce);
        proof {
            assert(self.spec_aes_nonces() =~= old(self).spec_aes_nonces().push(nonce@));
        }
        Ok(sealed)
    }

    /// Authenticated encryption under the secondary key, with a fresh 192-bit
    /// nonce, under the same nonce-freshness contract as the primary key.
    pub fn encrypt_chacha(&mut self, data: &[u8], nonce: Vec<u8>) -> (r: Result<
        Vec<u8>,
        CryptoError,
    >)
        ensures
            final(self).spec_aes_key() == old(self).spec_aes_key(),
            final(self).spec_chacha_key() == old(self).spec_chacha_key(),
            final(self).spec_aes_nonces() == old(self).spec_aes_nonces(),
            nonce@.len() != 24 ==> r == Err::<Vec<u8>, CryptoError>(CryptoError::InvalidNonceLength)
                && *final(self) == *old(self),
            nonce@.len() == 24 && nonce_logged(old(self).spec_chacha_nonces(), nonce@) ==> r
                == Err::<Vec<u8>, CryptoError>(CryptoError::NonceReused) && *final(self) == *old(
                self,
            ),
            nonce@.len() == 24 && !nonce_logged(old(self).spec_chacha_nonces(), nonce@)
                && data@.len() >= xchacha_plaintext_bound() ==> r == Err::<Vec<u8>, CryptoError>(
                CryptoError::MessageTooLong,
            ) && *final(self) == *old(self),
            nonce@.len() == 24 && !nonce_logged(old(self).spec_chacha_nonces(), nonce@)
                && data@.len() < xchacha_plaintext_bound() ==> {
                &&& r is Ok
                &&& r.unwrap()@ == xchacha_seal_bytes(old(self).spec_chacha_key(), nonce@, data@)
                &&& r.unwrap()@.len() == data@.len() + 16
                &&& final(self).spec_chacha_nonces() == old(self).spec_chacha_nonces().push(nonce@)
            },
    {
        if nonce.len() != 24 {
            return Err(CryptoError::InvalidNonceLength);
        }
        if contains_nonce(&self.chacha_nonces, &nonce) {
            return Err(CryptoError::NonceReused);
        }
        if (data.len() as u64) >= 274877906880u64 {
            return Err(CryptoError::MessageTooLong);
        }
        let sealed = match xchacha_seal(&self.chacha_key, nonce.as_slice(), data) {
            Ok(v) => v,
            Err(_) => { vstd::pervasive::unreached() },
        };
        self.chacha_nonces.push(nonce);
        proof {
            assert(self.spec_chacha_nonces() =~= old(self).spec_chacha_nonces().push(nonce@));
        }
        Ok(sealed)
    }

    /// A non-reversible check value bound to both current keys: the sealing
    /// of the empty message under each key with its reserved all-zero nonce.
    /// Raw key bytes never leave the vault; a caller can only compare check
    /// values to tell whether the keys changed.
    pub fn key_check_value(&self) -> (r: Vec<u8>)
        ensures
            r@ == aes_gcm_seal_bytes(self.spec_aes_key(), zero_seq(12), Seq::empty())
                + xchacha_seal_bytes(self.spec_chacha_key(), zero_seq(24), Seq::empty()),
            r@.len() == 32,
    {
        let zn12 = zero_vec(12);
        let zn24 = zero_vec(24);
        let empty: Vec<u8> = Vec::new();
        let mut a = match aes_gcm_seal(&self.aes_key, zn12.as_slice(), empty.as_slice()) {
            Ok(v) => v,
            Err(_) => { vstd::pervasive::unreached() },
        };
        let mut b = match xchacha_seal(&self.chacha_key, zn24.as_slice(), empty.as_slice()) {
            Ok(v) => v,
            Err(_) => { vstd::pervasive::unreached() },
        };
        a.append(&mut b);
        a
    }

    /// Atomic destructive rotation: the previous keys are zeroized in place
    /// and fresh random replacements installed before the vault is seen
    /// again, so it stays usable after a wipe; both nonce logs restart at
    /// their reserved entry.  When the random source refuses, nothing at all
    /// changes — the vault never holds a half-wiped key pair.
    pub fn wipe_keys(&mut self) -> (r: Result<(), CryptoError>)
        ensures
            r is Ok ==> final(self).wf(),
            r is Ok ==> final(self).spec_aes_nonces() == seq![zero_seq(12)],
            r is Ok ==> final(self).spec_chacha_nonces() == seq![zero_seq(24)],
            r is Err ==> *final(self) == *old(self) && r == Err::<(), CryptoError>(
                CryptoError::RandomSourceFailure,
            ),
    {
        let mut new_aes = [0u8; 32];
        if !fill_random_bytes(&mut new_aes) {
            return Err(CryptoError::RandomSourceFailure);
        }
        let mut new_chacha = [0u8; 32];
        if !fill_random_bytes(&mut new_chacha) {
            return Err(CryptoError::RandomSourceFailure);
        }
        zeroize_key(&mut self.aes_key);
        zeroize_key(&mut self.chacha_key);
        self.aes_key = new_aes;
        self.chacha_key = new_chacha;
        let mut aes_nonces: Vec<Vec<u8>> = Vec::new();
        aes_nonces.push(zero_vec(12));
        self.aes_nonces = aes_nonces;
        let mut chacha_nonces: Vec<Vec<u8>> = Vec::new();
        chacha_nonces.push(zero_vec(24));
        self.chacha_nonces = chacha_nonces;
        proof {
            assert(self.spec_aes_nonces() =~= seq![zero_seq(12)]);
            assert(self.spec_chacha_nonces() =~= seq![zero_seq(24)]);
        }
        Ok(())
    }
}

} // verus!
