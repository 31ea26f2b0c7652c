//! The key vault: private key material is stored only as a self-describing,
//! versioned blob `{version, kdf cost, salt, nonce, ciphertext || tag}`,
//! sealed with a password-derived key under authenticated encryption.
//! Decryption verifies the authentication tag before returning any bytes; a
//! wrong password and a tampered blob are reported alike.
//!
//! The key derivation and the cipher come from an outside cryptography
//! crate behind trusted wrappers; the blob codec and the success/failure
//! rules around them are verified.

use vstd::prelude::*;
use vstd::bytes::{
    spec_u32_to_le_bytes,
    spec_u32_from_le_bytes,
    lemma_auto_spec_u32_to_from_le_bytes,
    u32_to_le_bytes,
    u32_from_le_bytes,
};
use vstd::slice::{slice_subrange, slice_to_vec};
use crate::errors::VaultError;
use ring::rand::SecureRandom;

verus! {

pub const BLOB_VERSION: u8 = 1;

pub const SALT_LEN: usize = 16;

pub const NONCE_LEN: usize = 12;

pub const TAG_LEN: usize = 16;

pub const DERIVED_KEY_LEN: usize = 32;

/// version byte + 4 cost bytes + salt + nonce.
pub const BLOB_HEADER_LEN: usize = 33;

/// The key that the key-derivation function gives for a password, salt and
/// iteration count. It depends on these arguments alone.
pub uninterp spec fn kdf_key_of(password: Seq<u8>, salt: Seq<u8>, iterations: u32) -> Seq<u8>;

/// The ciphertext-with-tag that the cipher gives for a key, nonce and
/// plaintext. It depends on these arguments alone.
pub uninterp spec fn seal_of(key: Seq<u8>, nonce: Seq<u8>, plaintext: Seq<u8>) -> Seq<u8>;

/// What authenticated opening gives for a key, nonce and ciphertext-with-
/// tag: the plaintext when the tag verifies, nothing otherwise. It depends
/// on these arguments alone.
pub uninterp spec fn open_of(key: Seq<u8>, nonce: Seq<u8>, ciphertext: Seq<u8>) -> Option<Seq<u8>>;

/// Relies on ring::pbkdf2::derive with PBKDF2-HMAC-SHA256: it fills the
/// whole output buffer with a key that is a function of the password, salt
/// and iteration count alone.
#[verifier::external_body]
fn derive_key(password: &Vec<u8>, salt: &Vec<u8>, iterations: u32) -> (r: Vec<u8>)
    requires
        iterations >= 1,
    ensures
        r@ == kdf_key_of(password@, salt@, iterations),
        r@.len() == 32,
{
    let mut out = vec![0u8; DERIVED_KEY_LEN];
    ring::pbkdf2::derive(
        ring::pbkdf2::PBKDF2_HMAC_SHA256,
        core::num::NonZeroU32::new(iterations).unwrap(),
        salt,
        password,
        &mut out,
    );
    out
}

/// Relies on ring::aead::LessSafeKey::seal_in_place_append_tag with
/// AES_256_GCM: sealing is a function of the key, nonce and plaintext
/// alone; the result is the ciphertext with the 16-byte tag appended; and
/// open_in_place accepts what it produced, returning the plaintext.
#[verifier::external_body]
fn aead_seal(key: &Vec<u8>, nonce: &Vec<u8>, plaintext: &Vec<u8>) -> (r: Option<Vec<u8>>)
    requires
        key@.len() == 32,
        nonce@.len() == 12,
    ensures
        r matches Some(ct) ==> ct@ == seal_of(key@, nonce@, plaintext@),
        r matches Some(ct) ==> ct@.len() == plaintext@.len() + 16,
        r is Some ==> open_of(key@, nonce@, seal_of(key@, nonce@, plaintext@)) == Some(
            plaintext@,
        ),
{
    let unbound = ring::aead::UnboundKey::new(&ring::aead::AES_256_GCM, key).ok()?;
    let sealing = ring::aead::LessSafeKey::new(unbound);
    let nonce = ring::aead::Nonce::try_assume_unique_for_key(nonce).ok()?;
    let mut in_out = plaintext.clone();
    sealing.seal_in_place_append_tag(nonce, ring::aead::Aad::empty(), &mut in_out).ok()?;
    Some(in_out)
}

/// Relies on ring::aead::LessSafeKey::open_in_place with AES_256_GCM: it
/// verifies the authentication tag before returning any bytes, and succeeds
/// or fails as a function of the key, nonce and ciphertext alone.
#[verifier::external_body]
fn aead_open(key: &Vec<u8>, nonce: &Vec<u8>, ciphertext: &Vec<u8>) -> (r: Option<Vec<u8>>)
    requires
        key@.len() == 32,
        nonce@.len() == 12,
    ensures
        r is Some <==> open_of(key@, nonce@, ciphertext@) is Some,
        r matches Some(pt) ==> Some(pt@) == open_of(key@, nonce@, ciphertext@),
{
    let unbound = ring::aead::UnboundKey::new(&ring::aead::AES_256_GCM, key).ok()?;
    let opening = ring::aead::LessSafeKey::new(unbound);
    let nonce = ring::aead::Nonce::try_assume_unique_for_key(nonce).ok()?;
    let mut in_out = ciphertext.clone();
    let n = opening.open_in_place(nonce, ring::aead::Aad::empty(), &mut in_out).ok()?.len();
    in_out.truncate(n);
    Some(in_out)
}

/// Relies on ring::rand::SystemRandom::fill: it fills the buffer with fresh
/// random bytes or reports a failure; nothing is promised of the values.
#[verifier::external_body]
fn random_bytes(n: usize) -> (r: Option<Vec<u8>>)
    ensures
        r matches Some(b) ==> b@.len() == n,
{
    let rng = ring::rand::SystemRandom::new();
    let mut buf = vec![0u8; n];
    match rng.fill(&mut buf) {
        Ok(()) => Some(buf),
        Err(_) => None,
    }
}

/// A blob is well-formed when it carries the supported version tag, a
/// positive derivation cost, and room for the header and the tag.
pub open spec fn spec_blob_ok(data: Seq<u8>) -> bool {
    &&& data.len() >= 49
    &&& data[0] == 1u8
    &&& spec_blob_iterations(data) >= 1
}

pub open spec fn spec_blob_iterations(data: Seq<u8>) -> u32 {
    spec_u32_from_le_bytes(data.subrange(1, 5))
}

pub open spec fn spec_blob_salt(data: Seq<u8>) -> Seq<u8> {
    data.subrange(5, 21)
}

pub open spec fn spec_blob_nonce(data: Seq<u8>) -> Seq<u8> {
    data.subrange(21, 33)
}

pub open spec fn spec_blob_ciphertext(data: Seq<u8>) -> Seq<u8> {
    data.subrange(33, data.len() as int)
}

pub open spec fn spec_encode_blob(
    iterations: u32,
    salt: Seq<u8>,
    nonce: Seq<u8>,
    ciphertext: Seq<u8>,
) -> Seq<u8> {
    seq![1u8] + spec_u32_to_le_bytes(iterations) + salt + nonce + ciphertext
}

/// What decrypting a blob under a password yields: the plaintext whose
/// sealing the blob holds under the password-derived key, if the tag
/// verifies; nothing otherwise.
pub open spec fn spec_decrypt_model(data: Seq<u8>, password: Seq<u8>) -> Option<Seq<u8>> {
    if spec_blob_ok(data) {
        open_of(
            kdf_key_of(password, spec_blob_salt(data), spec_blob_iterations(data)),
            spec_blob_nonce(data),
            spec_blob_ciphertext(data),
        )
    } else {
        None
    }
}

/// Encoding then reading back a blob recovers every field.
pub proof fn lemma_encode_blob_round_trip(
    iterations: u32,
    salt: Seq<u8>,
    nonce: Seq<u8>,
    ciphertext: Seq<u8>,
)
    requires
        iterations >= 1,
        salt.len() == 16,
        nonce.len() == 12,
        ciphertext.len() >= 16,
    ensures
        spec_blob_ok(spec_encode_blob(iterations, salt, nonce, ciphertext)),
        spec_blob_iterations(spec_encode_blob(iterations, salt, nonce, ciphertext)) == iterations,
        spec_blob_salt(spec_encode_blob(iterations, salt, nonce, ciphertext)) == salt,
        spec_blob_nonce(spec_encode_blob(iterations, salt, nonce, ciphertext)) == nonce,
        spec_blob_ciphertext(spec_encode_blob(iterations, salt, nonce, ciphertext)) == ciphertext,
{
    lemma_auto_spec_u32_to_from_le_bytes();
    let b = spec_encode_blob(iterations, salt, nonce, ciphertext);
    assert(b.subrange(1, 5) =~= spec_u32_to_le_bytes(iterations));
    assert(b.subrange(5, 21) =~= salt);
    assert(b.subrange(21, 33) =~= nonce);
    assert(b.subrange(33, b.len() as int) =~= ciphertext);
}

/// The parsed fields of a well-formed blob.
pub struct BlobFields {
    pub iterations: u32,
    pub salt: Vec<u8>,
    pub nonce: Vec<u8>,
    pub ciphertext: Vec<u8>,
}

pub fn encode_blob(iterations: u32, salt: &Vec<u8>, nonce: &Vec<u8>, ciphertext: &Vec<u8>) -> (r:
    Vec<u8>)
    requires
        salt@.len() == 16,
        nonce@.len() == 12,
    ensures
        r@ == spec_encode_blob(iterations, salt@, nonce@, ciphertext@),
{
    let mut out: Vec<u8> = Vec::new();
    out.push(BLOB_VERSION);
    let mut cost = u32_to_le_bytes(iterations);
    out.append(&mut cost);
    out.extend_from_slice(salt.as_slice());
    out.extend_from_slice(nonce.as_slice());
    out.extend_from_slice(ciphertext.as_slice());
    proof {
        assert(out@ =~= spec_encode_blob(iterations, salt@, nonce@, ciphertext@));
    }
    out
}

pub fn parse_blob(data: &Vec<u8>) -> (r: Option<BlobFields>)
    ensures
        r is Some <==> spec_blob_ok(data@),
        r matches Some(f) ==> {
            &&& f.iterations == spec_blob_iterations(data@)
            &&& f.iterations >= 1
            &&& f.salt@ == spec_blob_salt(data@)
            &&& f.salt@.len() == 16
            &&& f.nonce@ == spec_blob_nonce(data@)
            &&& f.nonce@.len() == 12
            &&& f.ciphertext@ == spec_blob_ciphertext(data@)
            &&& f.ciphertext@.len() >= 16
        },
{
    if data.len() < 49 {
        return None;
    }
    if data[0] != BLOB_VERSION {
        return None;
    }
    let s = data.as_slice();
    let iterations = u32_from_le_bytes(slice_subrange(s, 1, 5));
    if iterations < 1 {
        return None;
    }
    let salt = slice_to_vec(slice_subrange(s, 5, 21));
    let nonce = slice_to_vec(slice_subrange(s, 21, 33));
    let n = data.len();
    let ciphertext = slice_to_vec(slice_subrange(s, 33, n));
    Some(BlobFields { iterations, salt, nonce, ciphertext })
}

/// Password-based authenticated encryption of key material, blob in and
/// blob out.
pub struct AesGcmEncryption {
    password: Vec<u8>,
    iterations: u32,
}

impl AesGcmEncryption {
    pub closed spec fn spec_password(&self) -> Seq<u8> {
        self.password@
    }

    pub closed spec fn spec_iterations(&self) -> u32 {
        self.iterations
    }

    pub open spec fn wf(&self) -> bool {
        self.spec_iterations() >= 1
    }

    /// A zero iteration count is lifted to the default derivation cost.
    pub fn new(password: Vec<u8>, iterations: u32) -> (r: AesGcmEncryption)
        ensures
            r.spec_password() == password@,
            r.spec_iterations() == if iterations == 0 {
                100000u32
            } else {
                iterations
            },
            r.wf(),
    {
        let cost: u32 = if iterations == 0 {
            crate::config::default_pbkdf2_iterations()
        } else {
            iterations
        };
        AesGcmEncryption { password, iterations: cost }
    }

    /// Seal key bytes into a fresh self-describing blob. On success the
    /// blob decrypts, under this vault's password, to exactly the input:
    /// decrypt(encrypt(key, password), password) == key. A failure to draw
    /// randomness or to seal is reported as StorageUnavailable.
    pub fn encrypt(&self, data: &Vec<u8>) -> (r: Result<Vec<u8>, VaultError>)
        requires
            self.wf(),
        ensures
            r matches Ok(blob) ==> spec_decrypt_model(blob@, self.spec_password()) == Some(
                data@,
            ),
            r matches Ok(blob) ==> spec_blob_ok(blob@) && spec_blob_iterations(blob@)
                == self.spec_iterations(),
            r matches Err(e) ==> e == VaultError::StorageUnavailable,
    {
        let salt = match random_bytes(SALT_LEN) {
            Some(s) => s,
            None => return Err(VaultError::StorageUnavailable),
        };
        let nonce = match random_bytes(NONCE_LEN) {
            Some(nv) => nv,
            None => return Err(VaultError::StorageUnavailable),
        };
        let key = derive_key(&self.password, &salt, self.iterations);
        let ciphertext = match aead_seal(&key, &nonce, data) {
            Some(c) => c,
            None => return Err(VaultError::StorageUnavailable),
        };
        let blob = encode_blob(self.iterations, &salt, &nonce, &ciphertext);
        proof {
            lemma_encode_blob_round_trip(self.iterations, salt@, nonce@, ciphertext@);
        }
        Ok(blob)
    }

    /// Open a blob. Success happens exactly when the blob is well-formed
    /// and its ciphertext authenticates under the password-derived key; a
    /// malformed blob and a failed authentication are told apart, but a
    /// wrong password and a tampered blob are not. No bytes are returned on
    /// failure.
    pub fn decrypt(&self, data: &Vec<u8>) -> (r: Result<Vec<u8>, VaultError>)
        ensures
            r is Ok <==> spec_decrypt_model(data@, self.spec_password()) is Some,
            r matches Ok(k) ==> Some(k@) == spec_decrypt_model(data@, self.spec_password()),
            !spec_blob_ok(data@) ==> (r matches Err(e) && e == VaultError::MalformedBlob),
            spec_blob_ok(data@) && spec_decrypt_model(data@, self.spec_password()) is None ==> (
            r matches Err(e) && e == VaultError::AuthenticationFailure),
    {
        let fields = match parse_blob(data) {
            Some(f) => f,
            None => return Err(VaultError::MalformedBlob),
        };
        let key = derive_key(&self.password, &fields.salt, fields.iterations);
        match aead_open(&key, &fields.nonce, &fields.ciphertext) {
            Some(plaintext) => Ok(plaintext),
            None => Err(VaultError::AuthenticationFailure),
        }
    }
}

/// Custody of one wallet's encrypted keypair: where its blob lives and how
/// its bytes come back. Reading the blob file is I/O and stays outside; the
/// decryption rules are the vault's.
pub struct SecureKeyManager {
    encrypted_keypair_path: String,
}

impl SecureKeyManager {
    pub closed spec fn spec_path(&self) -> Seq<char> {
        self.encrypted_keypair_path@
    }

    pub fn new(encrypted_path: &str) -> (r: SecureKeyManager)
        ensures
            r.spec_path() == encrypted_path@,
    {
        SecureKeyManager { encrypted_keypair_path: String::from_str(encrypted_path) }
    }

    pub fn path(&self) -> (r: &str)
        ensures
            r@ == self.spec_path(),
    {
        self.encrypted_keypair_path.as_str()
    }

    /// Decrypt an encrypted keypair blob with the given password, under the
    /// vault's rules.
    pub fn decrypt_data(&self, data: &Vec<u8>, password: &Vec<u8>) -> (r: Result<
        Vec<u8>,
        VaultError,
    >)
        ensures
            r is Ok <==> spec_decrypt_model(data@, password@) is Some,
            r matches Ok(k) ==> Some(k@) == spec_decrypt_model(data@, password@),
            !spec_blob_ok(data@) ==> (r matches Err(e) && e == VaultError::MalformedBlob),
            spec_blob_ok(data@) && spec_decrypt_model(data@, password@) is None ==> (
            r matches Err(e) && e == VaultError::AuthenticationFailure),
    {
        let vault = AesGcmEncryption::new(password.clone(), 0);
        vault.decrypt(data)
    }
}

} // verus!
