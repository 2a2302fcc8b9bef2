//! The authenticated-encryption primitive behind the cipher: AES-128-GCM from
//! the aes_gcm crate, reached through two trusted wrappers. Sealing and
//! opening are deterministic in key, nonce, associated data and message, so
//! each is given a name here, and every contract of the library speaks of
//! those names.

use vstd::prelude::*;
use aes_gcm::aead::{Aead, NewAead, Payload};
use aes_gcm::{Aes128Gcm, Key, Nonce};

verus! {

/// The bytes AES-128-GCM sealing produces from a key, a nonce, associated
/// data and a message: the encrypted message followed by the authentication
/// tag.
pub uninterp spec fn aead_seal(key: Seq<u8>, nonce: Seq<u8>, aad: Seq<u8>, msg: Seq<u8>) -> Seq<u8>;

/// What AES-128-GCM opening returns for a key, a nonce, associated data and a
/// ciphertext: the authenticated plaintext, or nothing when the tag does not
/// verify or the ciphertext is out of shape.
pub uninterp spec fn aead_open(key: Seq<u8>, nonce: Seq<u8>, aad: Seq<u8>, ct: Seq<u8>) -> Option<Seq<u8>>;

/// The longest message AES-GCM seals; a longer one is refused.
pub const GCM_MSG_MAX: u64 = 0x1000000000;

/// The longest associated data AES-GCM accepts; longer is refused.
pub const GCM_AAD_MAX: u64 = 0x1000000000;

/// Relies on aes_gcm::Aes128Gcm through aead::Aead::encrypt: sealing is a
/// function of key, nonce, associated data and message alone; it fails
/// exactly on an overlong message or associated data; the result is the
/// message's length plus the 16-byte tag, and opening it under the same key,
/// nonce and associated data returns the message.
#[verifier::external_body]
pub(crate) fn seal(key: &Vec<u8>, nonce: &Vec<u8>, aad: &Vec<u8>, msg: &[u8]) -> (r: Option<Vec<u8>>)
    requires
        key@.len() == 16,
        nonce@.len() == 12,
        msg@.len() + 16 <= usize::MAX,
    ensures
        r is None ==> msg@.len() > GCM_MSG_MAX || aad@.len() > GCM_AAD_MAX,
        r is Some ==> msg@.len() <= GCM_MSG_MAX && aad@.len() <= GCM_AAD_MAX,
        r matches Some(ct) ==> {
            &&& ct@ == aead_seal(key@, nonce@, aad@, msg@)
            &&& ct@.len() == msg@.len() + 16
            &&& aead_open(key@, nonce@, aad@, ct@) == Some(msg@)
        },
{
    let cipher = Aes128Gcm::new(Key::from_slice(key));
    let payload = Payload { msg, aad: aad.as_slice() };
    cipher.encrypt(Nonce::from_slice(nonce), payload).ok()
}

/// Relies on aes_gcm::Aes128Gcm through aead::Aead::decrypt: opening is a
/// function of key, nonce, associated data and ciphertext alone, and this
/// call returns exactly it.
#[verifier::external_body]
pub(crate) fn open(key: &Vec<u8>, nonce: &Vec<u8>, aad: &Vec<u8>, ct: &Vec<u8>) -> (r: Option<Vec<u8>>)
    requires
        key@.len() == 16,
        nonce@.len() == 12,
    ensures
        r is None ==> aead_open(key@, nonce@, aad@, ct@) is None,
        r matches Some(m) ==> aead_open(key@, nonce@, aad@, ct@) == Some(m@),
{
    let cipher = Aes128Gcm::new(Key::from_slice(key));
    let payload = Payload { msg: ct.as_slice(), aad: aad.as_slice() };
    cipher.decrypt(Nonce::from_slice(nonce), payload).ok()
}

} // verus!
