//! The key-management seam: a capability trait with the two operations a
//! provider offers — make a fresh wrapped data key, and unwrap one — and a
//! reference in-process provider for local use and tests.

use vstd::prelude::*;
use crate::aead;
use crate::rng;

verus! {

/// A fresh symmetric data key: the raw bytes (transient, never to leave the
/// process), the same key wrapped under the provider's master key (safe to
/// persist), and the byte identifier of the master key that wrapped it.
#[derive(Debug)]
pub struct DataKey {
    pub key: Vec<u8>,
    pub encrypted_key: Vec<u8>,
    pub key_id: Vec<u8>,
}

impl DataKey {
    /// The raw key fits the 128-bit cipher the library seals with.
    pub open spec fn wf(&self) -> bool {
        self.key@.len() == 16
    }
}

/// Opaque failure of a key provider. No reason is disclosed, so that the
/// error cannot serve as an oracle against the key wrapping.
#[derive(Debug)]
pub struct KeyProviderError;

/// What a key-management system offers the cipher: generate a fresh wrapped
/// data key, and unwrap one. `unwrap_spec` is the provider's unwrapping as a
/// mathematical function of the wrapped bytes: a returned raw key is always
/// the one that `unwrap_spec` assigns to its wrapped form, which ties every
/// key `decrypt_data_key` hands out to the key `generate_data_key` made.
pub trait KeyProvider: Sized {
    /// The raw key, if any, that the provider's master key recovers from a
    /// wrapped key.
    spec fn unwrap_spec(&self, wrapped: Seq<u8>) -> Option<Seq<u8>>;

    /// The byte identifier of the master key the provider currently wraps
    /// under.
    spec fn current_key_id(&self) -> Seq<u8>;

    /// Produce a fresh raw data key of 16 bytes together with its wrapped
    /// form and the identifier of the wrapping master key; opaque failure
    /// when the master-key system is unavailable or generation fails.
    fn generate_data_key(&self) -> (r: Result<DataKey, KeyProviderError>)
        ensures
            r matches Ok(dk) ==> {
                &&& dk.wf()
                &&& dk.key_id@ == self.current_key_id()
                &&& self.unwrap_spec(dk.encrypted_key@) == Some(dk.key@)
            },
    ;

    /// Reverse the wrap: recover the raw data key from its wrapped form.
    /// Opaque failure on a malformed or foreign wrapped key, or when the
    /// master-key system is unavailable.
    fn decrypt_data_key(&self, wrapped: &Vec<u8>) -> (r: Result<Vec<u8>, KeyProviderError>)
        ensures
            r matches Ok(k) ==> {
                &&& k@.len() == 16
                &&& self.unwrap_spec(wrapped@) == Some(k@)
            },
    ;
}

/// The byte identifier under which a `SimpleKeyProvider` reports its one
/// master key: the ASCII bytes of "simplekey".
pub open spec fn simple_key_id() -> Seq<u8> {
    seq![0x73u8, 0x69u8, 0x6du8, 0x70u8, 0x6cu8, 0x65u8, 0x6bu8, 0x65u8, 0x79u8]
}

/// An in-process reference provider: one 128-bit master key held in memory,
/// wrapping a data key as AES-128-GCM of the raw key bytes under a fresh
/// 12-byte wrap nonce, the nonce standing in front of the wrapped bytes. It
/// exists so the envelope protocol is testable without an external
/// key-management system, and is no production key custody.
pub struct SimpleKeyProvider {
    master_key: Vec<u8>,
}

impl SimpleKeyProvider {
    #[verifier::type_invariant]
    spec fn inv(&self) -> bool {
        self.master_key@.len() == 16
    }

    /// The 128-bit master key this provider wraps and unwraps under.
    pub closed spec fn master(&self) -> Seq<u8> {
        self.master_key@
    }

    /// Bind a provider to the given 128-bit master key: exactly those bytes
    /// are the key every wrap and unwrap goes under.
    pub fn init(key: [u8; 16]) -> (r: Self)
        ensures
            r.master() == key@,
    {
        let mut master_key: Vec<u8> = Vec::new();
        let mut i: usize = 0;
        while i < 16
            invariant
                i <= 16,
                master_key@ =~= key@.subrange(0, i as int),
            decreases 16 - i,
        {
            master_key.push(key[i]);
            i += 1;
        }
        proof {
            assert(master_key@ =~= key@);
        }
        SimpleKeyProvider { master_key }
    }
}

impl KeyProvider for SimpleKeyProvider {
    /// A wrapped key is the 12-byte wrap nonce followed by the sealed raw
    /// key; unwrapping opens that seal under the master key, with empty
    /// associated data, and yields only a 16-byte result.
    closed spec fn unwrap_spec(&self, wrapped: Seq<u8>) -> Option<Seq<u8>> {
        if wrapped.len() >= 12 {
            match aead::aead_open(
                self.master_key@,
                wrapped.subrange(0, 12),
                Seq::<u8>::empty(),
                wrapped.subrange(12, wrapped.len() as int),
            ) {
                Some(k) => if k.len() == 16 { Some(k) } else { None },
                None => None,
            }
        } else {
            None
        }
    }

    open spec fn current_key_id(&self) -> Seq<u8> {
        simple_key_id()
    }

    fn generate_data_key(&self) -> (r: Result<DataKey, KeyProviderError>) {
        proof {
            use_type_invariant(self);
        }
        let key = match rng::os_random_bytes(16) {
            Some(k) => k,
            None => return Err(KeyProviderError),
        };
        let wrap_nonce = match rng::os_random_bytes(12) {
            Some(n) => n,
            None => return Err(KeyProviderError),
        };
        let no_aad: Vec<u8> = Vec::new();
        let mut sealed = match aead::seal(&self.master_key, &wrap_nonce, &no_aad, key.as_slice()) {
            Some(c) => c,
            None => return Err(KeyProviderError),
        };
        let ghost sealed_bytes = sealed@;
        let mut encrypted_key = wrap_nonce;
        encrypted_key.append(&mut sealed);
        proof {
            assert(encrypted_key@.subrange(0, 12) =~= wrap_nonce@);
            assert(encrypted_key@.subrange(12, encrypted_key@.len() as int) =~= sealed_bytes);
        }
        let key_id = make_simple_key_id();
        Ok(DataKey { key, encrypted_key, key_id })
    }

    /// Unwrapping here is deterministic — AES-128-GCM opening under the
    /// stored master key — so beyond the trait's promise on success, failure
    /// is promised exactly on the wrapped keys that do not unwrap.
    fn decrypt_data_key(&self, wrapped: &Vec<u8>) -> (r: Result<Vec<u8>, KeyProviderError>)
        ensures
            r is Err ==> self.unwrap_spec(wrapped@) is None,
    {
        proof {
            use_type_invariant(self);
        }
        if wrapped.len() < 12 {
            return Err(KeyProviderError);
        }
        let mut wrap_nonce: Vec<u8> = Vec::new();
        let mut i: usize = 0;
        while i < 12
            invariant
                i <= 12,
                wrapped@.len() >= 12,
                wrap_nonce@ =~= wrapped@.subrange(0, i as int),
            decreases 12 - i,
        {
            wrap_nonce.push(wrapped[i]);
            i += 1;
        }
        let mut sealed: Vec<u8> = Vec::new();
        let n = wrapped.len();
        let mut j: usize = 12;
        while j < n
            invariant
                12 <= j <= n,
                wrapped@.len() == n,
                sealed@ =~= wrapped@.subrange(12, j as int),
            decreases n - j,
        {
            sealed.push(wrapped[j]);
            j += 1;
        }
        let no_aad: Vec<u8> = Vec::new();
        match aead::open(&self.master_key, &wrap_nonce, &no_aad, &sealed) {
            Some(k) => {
                if k.len() == 16 {
                    Ok(k)
                } else {
                    Err(KeyProviderError)
                }
            },
            None => Err(KeyProviderError),
        }
    }
}

/// The identifier bytes a `SimpleKeyProvider` attaches to every data key.
fn make_simple_key_id() -> (r: Vec<u8>)
    ensures
        r@ == simple_key_id(),
{
    let id: Vec<u8> = vec![0x73u8, 0x69u8, 0x6du8, 0x70u8, 0x6cu8, 0x65u8, 0x6bu8, 0x65u8, 0x79u8];
    proof {
        assert(id@ =~= simple_key_id());
    }
    id
}

} // verus!
