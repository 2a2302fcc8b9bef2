//! Envelope encryption: each message is sealed under a fresh symmetric data
//! key, and the data key itself travels only in wrapped form, protected by a
//! master key that a key provider manages. The associated data of every
//! record is the identifier of the master key that wrapped its data key, so a
//! ciphertext cannot be opened while claiming a different key.

use vstd::prelude::*;

mod aead;
mod key_provider;
mod rng;

pub use aead::{aead_seal, aead_open, GCM_MSG_MAX, GCM_AAD_MAX};
pub use key_provider::{DataKey, KeyProvider, KeyProviderError, SimpleKeyProvider, simple_key_id};

verus! {

/// The output of one encryption and the whole input of the matching
/// decryption: ciphertext with its authentication tag, the wrapped data key,
/// the nonce the message was sealed under, and the associated data (the byte
/// identifier of the wrapping master key).
#[derive(Debug, Clone)]
pub struct EncryptedRecord {
    pub ciphertext: Vec<u8>,
    pub encrypted_key: Vec<u8>,
    pub nonce: Vec<u8>,
    pub aad: Vec<u8>,
}

/// Opaque failure of `encrypt`: key generation, nonce generation or sealing
/// went wrong, and no finer reason is disclosed.
#[derive(Debug)]
pub struct EncryptionError;

/// Opaque failure of `decrypt`: key unwrapping or authentication went wrong,
/// and no finer reason is disclosed.
#[derive(Debug)]
pub struct DecryptionError;

/// The envelope cipher: one key provider, which wraps and unwraps the
/// per-message data keys, and one ChaCha generator, exclusively owned, which
/// draws the nonces. Every `encrypt` call uses a fresh data key.
pub struct EnvelopeCipher<K: KeyProvider> {
    pub key_provider: K,
    pub rng: rand_chacha::ChaCha20Rng,
}

impl<K: KeyProvider> EnvelopeCipher<K> {
    /// The mathematical decryption of a record under a provider: unwrap the
    /// wrapped data key the record carries, then open the ciphertext under
    /// that key, the record's nonce and its associated data. `decrypt`
    /// returns a plaintext only when it is this one.
    pub open spec fn decryption_of(provider: K, record: EncryptedRecord) -> Option<Seq<u8>> {
        match provider.unwrap_spec(record.encrypted_key@) {
            Some(key) => aead_open(key, record.nonce@, record.aad@, record.ciphertext@),
            None => None,
        }
    }

    /// Bind a cipher to one key provider, with a fresh generator seeded from
    /// operating-system entropy.
    pub fn init(key_provider: K) -> (r: Self)
        ensures
            r.key_provider == key_provider,
    {
        EnvelopeCipher { key_provider, rng: rng::rng_from_entropy() }
    }

    /// Encrypt a message: ask the provider for a fresh data key, draw a
    /// 12-byte nonce, and seal the message under the raw key with the key's
    /// identifier as associated data. The raw key is zeroed before the call
    /// returns. On success the record's decryption under this provider is
    /// exactly the message; any failure is the one opaque error, and the
    /// provider is never changed.
    pub fn encrypt(&mut self, msg: &[u8]) -> (r: Result<EncryptedRecord, EncryptionError>)
        requires
            msg@.len() + 16 <= usize::MAX,
        ensures
            final(self).key_provider == old(self).key_provider,
            r matches Ok(rec) ==> {
                &&& rec.nonce@.len() == 12
                &&& rec.aad@ == old(self).key_provider.current_key_id()
                &&& rec.ciphertext@.len() == msg@.len() + 16
                &&& Self::decryption_of(final(self).key_provider, rec) == Some(msg@)
            },
    {
        let mut data_key = match self.key_provider.generate_data_key() {
            Ok(dk) => dk,
            Err(_) => return Err(EncryptionError),
        };
        let nonce = match rng::draw_bytes(&mut self.rng, 12) {
            Some(n) => n,
            None => {
                wipe_bytes(&mut data_key.key);
                return Err(EncryptionError);
            },
        };
        let result = seal_record(&data_key, nonce, msg);
        wipe_bytes(&mut data_key.key);
        result
    }

    /// Decrypt a record: ask the provider to unwrap the carried data key,
    /// then open the ciphertext under it, the record's nonce and its
    /// associated data. All or nothing: a returned plaintext is exactly the
    /// record's decryption under this provider, authenticated; any failure is
    /// the one opaque error, with zero bytes disclosed. The unwrapped key is
    /// zeroed before the call returns.
    pub fn decrypt(&self, encrypted_record: EncryptedRecord) -> (r: Result<Vec<u8>, DecryptionError>)
        ensures
            r matches Ok(m) ==> Self::decryption_of(self.key_provider, encrypted_record)
                == Some(m@),
    {
        let mut key = match self.key_provider.decrypt_data_key(&encrypted_record.encrypted_key) {
            Ok(k) => k,
            Err(_) => return Err(DecryptionError),
        };
        let result = open_record(&key, &encrypted_record);
        wipe_bytes(&mut key);
        result
    }
}

/// Round trip: the decryption of a record under a provider is one
/// mathematical value. A record that `encrypt` made from a message `m` has
/// decryption `m`, and `decrypt` returns only the record's decryption; so a
/// record made from `m` can decrypt to `m` and to nothing else.
pub proof fn lemma_round_trip<K: KeyProvider>(
    provider: K,
    record: EncryptedRecord,
    m_sealed: Seq<u8>,
    m_opened: Seq<u8>,
)
    requires
        EnvelopeCipher::<K>::decryption_of(provider, record) == Some(m_sealed),
        EnvelopeCipher::<K>::decryption_of(provider, record) == Some(m_opened),
    ensures
        m_sealed == m_opened,
{
}

/// Seal a message into a record under a data key and a chosen nonce: exactly
/// AES-128-GCM of the message under the raw key, the nonce, and the key's
/// identifier as associated data. Fails exactly when the message or the
/// identifier is longer than the cipher accepts.
pub fn seal_record(data_key: &DataKey, nonce: Vec<u8>, msg: &[u8]) -> (r: Result<
    EncryptedRecord,
    EncryptionError,
>)
    requires
        data_key.wf(),
        nonce@.len() == 12,
        msg@.len() + 16 <= usize::MAX,
    ensures
        r matches Ok(rec) ==> {
            &&& rec.nonce@ == nonce@
            &&& rec.aad@ == data_key.key_id@
            &&& rec.encrypted_key@ == data_key.encrypted_key@
            &&& rec.ciphertext@ == aead_seal(data_key.key@, nonce@, data_key.key_id@, msg@)
            &&& rec.ciphertext@.len() == msg@.len() + 16
            &&& aead_open(data_key.key@, nonce@, data_key.key_id@, rec.ciphertext@)
                == Some(msg@)
        },
        r is Err ==> msg@.len() > GCM_MSG_MAX || data_key.key_id@.len() > GCM_AAD_MAX,
{
    let aad = clone_bytes(&data_key.key_id);
    let ciphertext = match aead::seal(&data_key.key, &nonce, &aad, msg) {
        Some(ct) => ct,
        None => return Err(EncryptionError),
    };
    let encrypted_key = clone_bytes(&data_key.encrypted_key);
    Ok(EncryptedRecord { ciphertext, encrypted_key, nonce, aad })
}

/// Open a record under an already unwrapped raw data key: exactly the
/// authenticated decryption of the ciphertext under the key, the record's
/// nonce and its associated data, all or nothing.
pub fn open_record(key: &Vec<u8>, record: &EncryptedRecord) -> (r: Result<Vec<u8>, DecryptionError>)
    requires
        key@.len() == 16,
    ensures
        r matches Ok(m) ==> record.nonce@.len() == 12
            && aead_open(key@, record.nonce@, record.aad@, record.ciphertext@) == Some(m@),
        r is Err ==> record.nonce@.len() != 12
            || aead_open(key@, record.nonce@, record.aad@, record.ciphertext@) is None,
{
    if record.nonce.len() != 12 {
        return Err(DecryptionError);
    }
    match aead::open(key, &record.nonce, &record.aad, &record.ciphertext) {
        Some(m) => Ok(m),
        None => Err(DecryptionError),
    }
}

/// A byte-for-byte copy of a buffer.
fn clone_bytes(buf: &Vec<u8>) -> (r: Vec<u8>)
    ensures
        r@ == buf@,
{
    let mut out: Vec<u8> = Vec::new();
    let n = buf.len();
    let mut i: usize = 0;
    while i < n
        invariant
            i <= n,
            buf@.len() == n,
            out@ =~= buf@.subrange(0, i as int),
        decreases n - i,
    {
        out.push(buf[i]);
        i += 1;
    }
    proof {
        assert(out@ =~= buf@);
    }
    out
}

/// Overwrite every byte with zero, so that raw key material does not outlive
/// its use in memory.
pub fn wipe_bytes(buf: &mut Vec<u8>)
    ensures
        final(buf)@.len() == old(buf)@.len(),
        forall|i: int| 0 <= i < final(buf)@.len() ==> final(buf)@[i] == 0u8,
{
    let n = buf.len();
    let mut i: usize = 0;
    while i < n
        invariant
            i <= n,
            buf@.len() == n,
            forall|j: int| 0 <= j < i ==> buf@[j] == 0u8,
        decreases n - i,
    {
        buf[i] = 0;
        i += 1;
    }
}

} // verus!
