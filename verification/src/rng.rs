//! The cipher's sources of randomness: a ChaCha generator seeded from system
//! entropy for nonces, and the operating system's own source for key
//! material. Nothing is promised of the bytes drawn beyond their number, so
//! every caller is verified for whatever values come back.

use vstd::prelude::*;
use rand::{RngCore, SeedableRng};

verus! {

#[verifier::external_type_specification]
#[verifier::external_body]
pub struct ExChaCha20Rng(rand_chacha::ChaCha20Rng);

/// Relies on rand::SeedableRng::from_entropy: a ChaCha generator freshly
/// seeded from operating-system entropy. Aborts if the system's entropy
/// source is unavailable, as no seed could be trusted then.
#[verifier::external_body]
pub(crate) fn rng_from_entropy() -> rand_chacha::ChaCha20Rng {
    rand_chacha::ChaCha20Rng::from_entropy()
}

/// Relies on rand::RngCore::try_fill_bytes on ChaCha20Rng: on success the
/// buffer is filled with generator output, of which nothing is promised.
#[verifier::external_body]
pub(crate) fn draw_bytes(rng: &mut rand_chacha::ChaCha20Rng, len: usize) -> (r: Option<Vec<u8>>)
    ensures
        r matches Some(b) ==> b@.len() == len,
{
    let mut buf = vec![0u8; len];
    match rng.try_fill_bytes(&mut buf) {
        Ok(()) => Some(buf),
        Err(_) => None,
    }
}

/// Relies on rand::RngCore::try_fill_bytes on rand::rngs::OsRng: bytes
/// straight from the operating system's secure source, of which nothing is
/// promised.
#[verifier::external_body]
pub(crate) fn os_random_bytes(len: usize) -> (r: Option<Vec<u8>>)
    ensures
        r matches Some(b) ==> b@.len() == len,
{
    let mut buf = vec![0u8; len];
    match rand::rngs::OsRng.try_fill_bytes(&mut buf) {
        Ok(()) => Some(buf),
        Err(_) => None,
    }
}

} // verus!
