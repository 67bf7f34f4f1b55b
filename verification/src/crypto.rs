//! Public-key authenticated encryption ("box") of message payloads: an
//! `EncryptedMessage` carries the nonce and the ciphertext produced from a
//! plaintext, the sender's secret key and the recipient's public key.

use vstd::prelude::*;

use crypto_box::aead::Aead;

use crate::errors::ApiError;

verus! {

/// Length of a box nonce in bytes.
pub const NONCE_LEN: usize = 24;

/// Length of the authentication tag that box encryption appends.
pub const TAG_LEN: usize = 16;

/// Length of a secret or public key in bytes.
pub const KEY_LEN: usize = 32;

/// The ciphertext that box encryption produces from a sender's secret
/// key, a recipient's public key, a nonce and a plaintext. It depends on
/// those four values alone.
pub uninterp spec fn boxed(
    sender_sk: Seq<u8>,
    recipient_pk: Seq<u8>,
    nonce: Seq<u8>,
    plaintext: Seq<u8>,
) -> Seq<u8>;

/// The public key derived from a secret key. It depends on the secret key
/// alone.
pub uninterp spec fn public_key_of(sk: Seq<u8>) -> Seq<u8>;

/// An encrypted message, consisting of a nonce and a ciphertext.
///
/// The nonce must be unique for every message under a given key pair:
/// reusing one silently breaks the confidentiality of the scheme, which
/// is why `encrypt` leaves nonce generation to its caller as a documented
/// hard obligation. Construction and transmission are separate steps; a
/// failed send never mutates a built message.
#[derive(Debug, Clone)]
pub struct EncryptedMessage {
    /// The ciphertext bytes: the plaintext's length plus the tag.
    pub ciphertext: Vec<u8>,
    /// The nonce the ciphertext was produced under.
    pub nonce: [u8; 24],
}

/// Relies on `crypto_box::SalsaBox::encrypt` (NaCl box: X25519 +
/// XSalsa20Poly1305): the ciphertext is a function of the two keys, the
/// nonce and the plaintext alone, and is exactly one tag longer than the
/// plaintext.
#[verifier::external_body]
fn box_encrypt(plaintext: &[u8], sender_sk: &[u8; 32], recipient_pk: &[u8; 32], nonce: &[u8; 24]) -> (r: Vec<u8>)
    requires
        plaintext@.len() + TAG_LEN <= usize::MAX,
    ensures
        r@ == boxed(sender_sk@, recipient_pk@, nonce@, plaintext@),
        r@.len() == plaintext@.len() + TAG_LEN,
{
    let sbox = crypto_box::SalsaBox::new(
        &crypto_box::PublicKey::from_bytes(*recipient_pk),
        &crypto_box::SecretKey::from_bytes(*sender_sk),
    );
    sbox.encrypt(&crypto_box::Nonce::from(*nonce), plaintext).expect("box encryption failed")
}

/// Relies on `crypto_box::SalsaBox::decrypt`: opening verifies the
/// authentication tag, and a ciphertext that was sealed under the
/// matching key pair — the sender's secret key with the recipient's
/// public key — opens to exactly the plaintext that was sealed.
/// Conversely, whatever opens is itself the box of what it opened to:
/// re-sealing the returned plaintext under the same keys and nonce gives
/// back exactly the ciphertext.
#[verifier::external_body]
fn box_decrypt(ciphertext: &[u8], recipient_sk: &[u8; 32], sender_pk: &[u8; 32], nonce: &[u8; 24]) -> (r: Option<Vec<u8>>)
    ensures
        r is None ==> forall|sk_s: Seq<u8>, p: Seq<u8>|
            sender_pk@ == public_key_of(sk_s) ==> ciphertext@ != #[trigger] boxed(
                sk_s,
                public_key_of(recipient_sk@),
                nonce@,
                p,
            ),
        r matches Some(q) ==> q@.len() + TAG_LEN == ciphertext@.len() && (forall|
            sk_s: Seq<u8>,
            p: Seq<u8>,
        |
            sender_pk@ == public_key_of(sk_s) && ciphertext@ == #[trigger] boxed(
                sk_s,
                public_key_of(recipient_sk@),
                nonce@,
                p,
            ) ==> q@ == p),
        r matches Some(q) ==> forall|sk_s: Seq<u8>|
            sender_pk@ == public_key_of(sk_s) ==> ciphertext@ == #[trigger] boxed(
                sk_s,
                public_key_of(recipient_sk@),
                nonce@,
                q@,
            ),
{
    let sbox = crypto_box::SalsaBox::new(
        &crypto_box::PublicKey::from_bytes(*sender_pk),
        &crypto_box::SecretKey::from_bytes(*recipient_sk),
    );
    sbox.decrypt(&crypto_box::Nonce::from(*nonce), ciphertext).ok()
}

/// Relies on `crypto_box::SecretKey::public_key`: the public key is a
/// function of the secret key alone.
#[verifier::external_body]
fn derive_public_key(sk: &[u8; 32]) -> (r: [u8; 32])
    ensures
        r@ == public_key_of(sk@),
{
    crypto_box::SecretKey::from_bytes(*sk).public_key().to_bytes()
}

/// Encrypt a plaintext for a recipient: box encryption under the sender's
/// secret key, the recipient's public key and the supplied nonce.
///
/// The nonce must be fresh and unpredictable for every call; never reuse
/// one under the same key pair. That obligation lies with the caller and
/// cannot be checked here.
pub fn encrypt(plaintext: &[u8], sender_sk: &[u8; 32], recipient_pk: &[u8; 32], nonce: [u8; 24]) -> (r: EncryptedMessage)
    requires
        plaintext@.len() + TAG_LEN <= usize::MAX,
    ensures
        r.nonce@ == nonce@,
        r.ciphertext@ == boxed(sender_sk@, recipient_pk@, nonce@, plaintext@),
        r.ciphertext@.len() == plaintext@.len() + TAG_LEN,
{
    let ciphertext = box_encrypt(plaintext, sender_sk, recipient_pk, &nonce);
    EncryptedMessage { ciphertext, nonce }
}

/// Decrypt a message with the recipient's secret key and the sender's
/// public key. A message that was encrypted under the matching key pair
/// comes back as exactly its original plaintext, and whatever comes back
/// is itself the box of that plaintext under these keys — an accepted
/// ciphertext is always a genuine one. A rejected message — wrong keys, a
/// corrupted ciphertext, a tampered tag — fails with `DecryptionFailed`,
/// and never yields partial plaintext.
pub fn decrypt(message: &EncryptedMessage, recipient_sk: &[u8; 32], sender_pk: &[u8; 32]) -> (r:
    Result<Vec<u8>, ApiError>)
    ensures
        forall|sk_s: Seq<u8>, p: Seq<u8>|
            sender_pk@ == public_key_of(sk_s) && message.ciphertext@ == #[trigger] boxed(
                sk_s,
                public_key_of(recipient_sk@),
                message.nonce@,
                p,
            ) ==> (r matches Ok(q) && q@ == p),
        r matches Ok(q) ==> q@.len() + TAG_LEN == message.ciphertext@.len(),
        r matches Ok(q) ==> forall|sk_s: Seq<u8>|
            sender_pk@ == public_key_of(sk_s) ==> message.ciphertext@ == #[trigger] boxed(
                sk_s,
                public_key_of(recipient_sk@),
                message.nonce@,
                q@,
            ),
        r matches Err(e) ==> e == ApiError::DecryptionFailed,
{
    match box_decrypt(message.ciphertext.as_slice(), recipient_sk, sender_pk, &message.nonce) {
        Some(plaintext) => Ok(plaintext),
        None => Err(ApiError::DecryptionFailed),
    }
}

/// Law: decrypting an encrypted message with the matching key pair gives
/// back the original plaintext, for every plaintext, nonce and pair of
/// genuine key pairs (each public key derived from its secret key).
pub fn encrypt_then_decrypt(
    plaintext: &[u8],
    sender_sk: &[u8; 32],
    recipient_sk: &[u8; 32],
    sender_pk: &[u8; 32],
    recipient_pk: &[u8; 32],
    nonce: [u8; 24],
) -> (r: Vec<u8>)
    requires
        sender_pk@ == public_key_of(sender_sk@),
        recipient_pk@ == public_key_of(recipient_sk@),
        plaintext@.len() + TAG_LEN <= usize::MAX,
    ensures
        r@ == plaintext@,
{
    let message = encrypt(plaintext, sender_sk, recipient_pk, nonce);
    match decrypt(&message, recipient_sk, sender_pk) {
        Ok(recovered) => recovered,
        Err(_) => {
            proof {
                assert(false);
            }
            vstd::pervasive::unreached()
        },
    }
}

/// The round-trip law on any plaintext and secret keys alone: derives the
/// public half of both key pairs, encrypts, decrypts, and returns the
/// recovered plaintext, proved equal to the original.
pub fn encrypt_then_decrypt_derived(
    plaintext: &[u8],
    sender_sk: &[u8; 32],
    recipient_sk: &[u8; 32],
    nonce: [u8; 24],
) -> (r: Vec<u8>)
    requires
        plaintext@.len() + TAG_LEN <= usize::MAX,
    ensures
        r@ == plaintext@,
{
    let sender_pk = derive_public_key(sender_sk);
    let recipient_pk = derive_public_key(recipient_sk);
    encrypt_then_decrypt(plaintext, sender_sk, recipient_sk, &sender_pk, &recipient_pk, nonce)
}

} // verus!
