use chacha20poly1305::aead::rand_core::RngCore;
use chacha20poly1305::aead::{Aead, KeyInit, OsRng};
use vstd::prelude::*;
use vstd::slice::slice_subrange;

verus! {

/// The length of a vault key, in bytes.
pub const KEY_LEN: usize = 32;

/// The length of the nonce that stands at the head of a sealed vault.
pub const NONCE_LEN: usize = 12;

/// The length of the authentication tag that ends a sealed vault.
pub const TAG_LEN: usize = 16;

/// How many rounds the key derivation runs.
pub const ROUNDS: u32 = 4096;

/// The salt of the key derivation: the bytes of the word `salt`.
pub open spec fn salt() -> Seq<u8> {
    seq![0x73u8, 0x61u8, 0x6cu8, 0x74u8]
}

/// Why a vault could not be sealed or opened.
#[derive(Clone, Copy, Debug, PartialEq, Eq, Structural)]
pub enum VaultError {
    /// The key is wrong, or the sealed vault was damaged or tampered with.
    CryptoFailure,
    /// The plaintext is too long to be sealed in one piece.
    PlaintextTooLarge,
    /// The system gave no random bytes for a nonce.
    NonceUnavailable,
}

/// The error of the `aead` crate, which says no more than that an operation
/// failed.
#[verifier::external_type_specification]
#[verifier::external_body]
pub struct ExAeadError(chacha20poly1305::aead::Error);

/// The first `len` bytes that PBKDF2 with HMAC-SHA-256 derives from a password
/// and a salt in the given number of rounds.
pub uninterp spec fn pbkdf2_hmac_sha256(
    password: Seq<u8>,
    salt: Seq<u8>,
    rounds: u32,
    len: nat,
) -> Seq<u8>;

/// What ChaCha20-Poly1305 makes of a plaintext under a key and a nonce, with
/// no associated data: the ciphertext followed by its tag, or `None` where
/// the cipher refuses the plaintext.
pub uninterp spec fn chacha20poly1305_encrypt(
    key: Seq<u8>,
    nonce: Seq<u8>,
    plaintext: Seq<u8>,
) -> Option<Seq<u8>>;

/// What ChaCha20-Poly1305 recovers from a ciphertext with its tag under a key
/// and a nonce, with no associated data: the plaintext, or `None` where the
/// tag does not fit.
pub uninterp spec fn chacha20poly1305_decrypt(
    key: Seq<u8>,
    nonce: Seq<u8>,
    ciphertext: Seq<u8>,
) -> Option<Seq<u8>>;

/// Derives 32 bytes with `pbkdf2::pbkdf2_hmac` over SHA-256. Claimed: the
/// bytes depend on the password, the salt and the number of rounds alone.
#[verifier::external_body]
fn derive_bytes(password: &[u8], salt: &[u8], rounds: u32) -> (key: [u8; 32])
    ensures
        key@ == pbkdf2_hmac_sha256(password@, salt@, rounds, 32),
{
    let mut key = [0u8; 32];
    pbkdf2::pbkdf2_hmac::<sha2::Sha256>(password, salt, rounds, &mut key);
    key
}

/// Draws twelve random bytes from the system with `OsRng`'s
/// `try_fill_bytes`. Nothing is claimed of the bytes; `None` stands for the
/// system's refusal.
#[verifier::external_body]
fn fresh_nonce() -> (r: Option<[u8; 12]>) {
    let mut nonce = [0u8; 12];
    match OsRng.try_fill_bytes(&mut nonce) {
        Ok(()) => Some(nonce),
        Err(_) => None,
    }
}

/// Encrypts with `ChaCha20Poly1305::encrypt` of the `chacha20poly1305` crate,
/// with no associated data. Claimed: the cipher refuses exactly the
/// plaintexts of `u32::MAX` blocks of 64 bytes or more; what it returns
/// depends on key, nonce and plaintext alone, is 16 bytes longer than the
/// plaintext, and decrypts to the plaintext under the same key and nonce. The
/// plaintext and its tag must fit one allocation.
#[verifier::external_body]
fn aead_encrypt(key: &[u8; 32], nonce: &[u8; 12], plaintext: &[u8]) -> (r: Result<
    Vec<u8>,
    chacha20poly1305::aead::Error,
>)
    requires
        plaintext@.len() + TAG_LEN <= isize::MAX,
    ensures
        r is Ok <==> plaintext@.len() / 64 < u32::MAX,
        r matches Ok(sealed) ==> {
            &&& sealed@.len() == plaintext@.len() + TAG_LEN
            &&& chacha20poly1305_encrypt(key@, nonce@, plaintext@) == Some(sealed@)
            &&& chacha20poly1305_decrypt(key@, nonce@, sealed@) == Some(plaintext@)
        },
        r is Err ==> chacha20poly1305_encrypt(key@, nonce@, plaintext@) is None,
{
    let cipher = chacha20poly1305::ChaCha20Poly1305::new(key.into());
    cipher.encrypt(nonce.into(), plaintext)
}

/// Decrypts with `ChaCha20Poly1305::decrypt` of the `chacha20poly1305` crate,
/// with no associated data. Claimed: what it returns depends on key, nonce
/// and ciphertext alone, and a plaintext is 16 bytes shorter than its
/// ciphertext. The nonce must have 12 bytes.
#[verifier::external_body]
fn aead_decrypt(key: &[u8; 32], nonce: &[u8], ciphertext: &[u8]) -> (r: Result<
    Vec<u8>,
    chacha20poly1305::aead::Error,
>)
    requires
        nonce@.len() == NONCE_LEN,
    ensures
        r matches Ok(plaintext) ==> {
            &&& chacha20poly1305_decrypt(key@, nonce@, ciphertext@) == Some(plaintext@)
            &&& plaintext@.len() + TAG_LEN == ciphertext@.len()
        },
        r is Err ==> chacha20poly1305_decrypt(key@, nonce@, ciphertext@) is None,
{
    let cipher = chacha20poly1305::ChaCha20Poly1305::new(key.into());
    cipher.decrypt(chacha20poly1305::Nonce::from_slice(nonce), ciphertext)
}

/// The key that a passphrase stands for.
pub open spec fn derived_key(passphrase: Seq<char>) -> Seq<u8> {
    pbkdf2_hmac_sha256(vstd::utf8::encode_utf8(passphrase), salt(), ROUNDS, KEY_LEN as nat)
}

/// Whether a plaintext of `len` bytes can be sealed in one piece: the cipher
/// takes it, and it fits one allocation together with its nonce and tag.
pub open spec fn sealable(len: nat) -> bool {
    len / 64 < u32::MAX && len + NONCE_LEN + TAG_LEN <= isize::MAX
}

/// The sealed form of a plaintext under a key and a nonce: the nonce,
/// followed by the ciphertext and its tag.
pub open spec fn spec_seal(plaintext: Seq<u8>, key: Seq<u8>, nonce: Seq<u8>) -> Option<Seq<u8>> {
    match chacha20poly1305_encrypt(key, nonce, plaintext) {
        Some(sealed) => Some(nonce + sealed),
        None => None,
    }
}

/// What opening a sealed vault under a key gives: the plaintext, or `None`
/// where the vault is too short to hold a nonce or its tag does not fit.
pub open spec fn spec_open(blob: Seq<u8>, key: Seq<u8>) -> Option<Seq<u8>> {
    if blob.len() < NONCE_LEN {
        None
    } else {
        chacha20poly1305_decrypt(key, blob.take(NONCE_LEN as int), blob.skip(NONCE_LEN as int))
    }
}

/// Whether `blob` is a sealed form of `plaintext` under `key`: it is the
/// sealed form under the nonce at its own head, and it opens to the
/// plaintext.
pub open spec fn is_sealing(blob: Seq<u8>, key: Seq<u8>, plaintext: Seq<u8>) -> bool {
    &&& blob.len() == plaintext.len() + NONCE_LEN + TAG_LEN
    &&& spec_seal(plaintext, key, blob.take(NONCE_LEN as int)) == Some(blob)
    &&& spec_open(blob, key) == Some(plaintext)
}

/// Derives the vault key from a passphrase. Equal passphrases give equal
/// keys.
pub fn gen_key_from_password(password: String) -> (key: [u8; 32])
    ensures
        key@ == derived_key(password@),
{
    let salt_bytes: [u8; 4] = [0x73u8, 0x61u8, 0x6cu8, 0x74u8];
    assert(salt_bytes@ =~= salt());
    derive_bytes(password.as_str().as_bytes(), salt_bytes.as_slice(), ROUNDS)
}

/// Overwrites a key with zeros, so that it does not outlive its use.
pub fn scrub(key: &mut [u8; 32])
    ensures
        forall|i: int| 0 <= i < KEY_LEN ==> final(key)@[i] == 0,
{
    let mut i: usize = 0;
    while i < KEY_LEN
        invariant
            i <= KEY_LEN,
            forall|k: int| 0 <= k < i ==> key@[k] == 0,
        decreases KEY_LEN - i,
    {
        key[i] = 0;
        i = i + 1;
    }
}

/// Seals a plaintext under a key and the given nonce.
pub fn seal_with_nonce(plaintext: &[u8], key: &[u8; 32], nonce: &[u8; 12]) -> (r: Result<
    Vec<u8>,
    VaultError,
>)
    ensures
        r is Ok <==> sealable(plaintext@.len()),
        r matches Ok(blob) ==> {
            &&& spec_seal(plaintext@, key@, nonce@) == Some(blob@)
            &&& is_sealing(blob@, key@, plaintext@)
        },
        r matches Err(e) ==> e == VaultError::PlaintextTooLarge,
{
    let len = plaintext.len();
    if len / 64 >= u32::MAX as usize || len > isize::MAX as usize - (NONCE_LEN + TAG_LEN) {
        return Err(VaultError::PlaintextTooLarge);
    }
    match aead_encrypt(key, nonce, plaintext) {
        Ok(sealed) => {
            let mut blob: Vec<u8> = Vec::new();
            blob.extend_from_slice(nonce.as_slice());
            blob.extend_from_slice(sealed.as_slice());
            proof {
                assert(blob@ =~= nonce@ + sealed@);
                assert(blob@.take(NONCE_LEN as int) =~= nonce@);
                assert(blob@.skip(NONCE_LEN as int) =~= sealed@);
            }
            Ok(blob)
        },
        Err(_) => Err(VaultError::PlaintextTooLarge),
    }
}

/// Seals the contents of the vault file under a key, with a nonce drawn
/// afresh for this call. The nonce stands at the head of the result.
pub fn encrypt_small_file(plaintext: &[u8], key: &[u8; 32]) -> (r: Result<Vec<u8>, VaultError>)
    ensures
        !sealable(plaintext@.len()) ==> r == Err::<Vec<u8>, VaultError>(
            VaultError::PlaintextTooLarge,
        ),
        sealable(plaintext@.len()) ==> match r {
            Ok(blob) => is_sealing(blob@, key@, plaintext@),
            Err(e) => e == VaultError::NonceUnavailable,
        },
{
    let len = plaintext.len();
    if len / 64 >= u32::MAX as usize || len > isize::MAX as usize - (NONCE_LEN + TAG_LEN) {
        return Err(VaultError::PlaintextTooLarge);
    }
    match fresh_nonce() {
        Some(nonce) => seal_with_nonce(plaintext, key, &nonce),
        None => Err(VaultError::NonceUnavailable),
    }
}

/// Opens a sealed vault under a key. A wrong key and a damaged vault fail
/// alike.
pub fn decrypt_small_file(blob: &[u8], key: &[u8; 32]) -> (r: Result<Vec<u8>, VaultError>)
    ensures
        match r {
            Ok(plaintext) => spec_open(blob@, key@) == Some(plaintext@),
            Err(e) => e == VaultError::CryptoFailure && spec_open(blob@, key@) is None,
        },
{
    if blob.len() < NONCE_LEN {
        return Err(VaultError::CryptoFailure);
    }
    let nonce = slice_subrange(blob, 0, NONCE_LEN);
    let sealed = slice_subrange(blob, NONCE_LEN, blob.len());
    proof {
        assert(nonce@ =~= blob@.take(NONCE_LEN as int));
        assert(sealed@ =~= blob@.skip(NONCE_LEN as int));
    }
    match aead_decrypt(key, nonce, sealed) {
        Ok(plaintext) => Ok(plaintext),
        Err(_) => Err(VaultError::CryptoFailure),
    }
}

/// What was sealed under the key of a passphrase opens, under the key of the
/// same passphrase, to the message that was sealed.
pub proof fn lemma_seal_open_round_trip(message: Seq<u8>, passphrase: Seq<char>, blob: Seq<u8>)
    requires
        is_sealing(blob, derived_key(passphrase), message),
    ensures
        spec_open(blob, derived_key(passphrase)) == Some(message),
{
}

/// Under the key of another passphrase a sealed vault does not open, where
/// the cipher finds that its tag does not fit under that key. Nothing here
/// says for which passphrases the cipher finds so.
pub proof fn lemma_open_fails_where_the_tag_does_not_fit(
    message: Seq<u8>,
    sealing: Seq<char>,
    opening: Seq<char>,
    blob: Seq<u8>,
)
    requires
        is_sealing(blob, derived_key(sealing), message),
        chacha20poly1305_decrypt(
            derived_key(opening),
            blob.take(NONCE_LEN as int),
            blob.skip(NONCE_LEN as int),
        ) is None,
    ensures
        spec_open(blob, derived_key(opening)) is None,
{
}

/// The key depends on the passphrase alone: equal passphrases have equal
/// keys.
pub proof fn lemma_key_depends_on_passphrase_alone(first: Seq<char>, second: Seq<char>)
    requires
        first == second,
    ensures
        derived_key(first) == derived_key(second),
{
}

} // verus!
