use envelope_cipher::{
    DataKey, EnvelopeCipher, KeyProvider, KeyProviderError, SimpleKeyProvider, open_record,
    seal_record, wipe_bytes,
};

fn test_provider() -> SimpleKeyProvider {
    SimpleKeyProvider::init([
        0x00, 0x01, 0x02, 0x03, 0x04, 0x05, 0x06, 0x07, 0x08, 0x09, 0x0a, 0x0b, 0x0c, 0x0d, 0x0e,
        0x0f,
    ])
}

fn test_cipher() -> EnvelopeCipher<SimpleKeyProvider> {
    EnvelopeCipher::init(test_provider())
}

#[test]
fn round_trip_hello_world() {
    let mut cipher = test_cipher();
    let record = cipher.encrypt(b"hello world").unwrap();
    assert_eq!(record.nonce.len(), 12);
    assert_eq!(record.aad, b"simplekey".to_vec());
    assert_eq!(record.ciphertext.len(), b"hello world".len() + 16);
    assert_ne!(record.ciphertext[..11], b"hello world"[..]);
    let plaintext = cipher.decrypt(record).unwrap();
    assert_eq!(plaintext, b"hello world".to_vec());
}

#[test]
fn round_trip_empty_message() {
    let mut cipher = test_cipher();
    let record = cipher.encrypt(b"").unwrap();
    assert_eq!(record.nonce.len(), 12);
    assert_eq!(record.ciphertext.len(), 16);
    let plaintext = cipher.decrypt(record).unwrap();
    assert_eq!(plaintext, Vec::<u8>::new());
}

#[test]
fn round_trip_various_lengths() {
    let mut cipher = test_cipher();
    for len in [1usize, 2, 15, 16, 17, 255, 1024] {
        let msg: Vec<u8> = (0..len).map(|i| (i % 251) as u8).collect();
        let record = cipher.encrypt(&msg).unwrap();
        let plaintext = cipher.decrypt(record).unwrap();
        assert_eq!(plaintext, msg);
    }
}

fn flip_bit(buf: &mut [u8], bit: usize) {
    buf[bit / 8] ^= 1 << (bit % 8);
}

#[test]
fn tamper_ciphertext_any_bit_fails() {
    let mut cipher = test_cipher();
    let record = cipher.encrypt(b"hello world").unwrap();
    for bit in 0..record.ciphertext.len() * 8 {
        let mut tampered = record.clone();
        flip_bit(&mut tampered.ciphertext, bit);
        assert!(cipher.decrypt(tampered).is_err(), "bit {bit} of ciphertext");
    }
}

#[test]
fn tamper_nonce_any_bit_fails() {
    let mut cipher = test_cipher();
    let record = cipher.encrypt(b"hello world").unwrap();
    for bit in 0..record.nonce.len() * 8 {
        let mut tampered = record.clone();
        flip_bit(&mut tampered.nonce, bit);
        assert!(cipher.decrypt(tampered).is_err(), "bit {bit} of nonce");
    }
}

#[test]
fn tamper_aad_any_bit_fails() {
    let mut cipher = test_cipher();
    let record = cipher.encrypt(b"hello world").unwrap();
    for bit in 0..record.aad.len() * 8 {
        let mut tampered = record.clone();
        flip_bit(&mut tampered.aad, bit);
        assert!(cipher.decrypt(tampered).is_err(), "bit {bit} of aad");
    }
}

#[test]
fn tamper_encrypted_key_any_bit_fails() {
    let mut cipher = test_cipher();
    let record = cipher.encrypt(b"hello world").unwrap();
    for bit in 0..record.encrypted_key.len() * 8 {
        let mut tampered = record.clone();
        flip_bit(&mut tampered.encrypted_key, bit);
        assert!(cipher.decrypt(tampered).is_err(), "bit {bit} of encrypted_key");
    }
}

#[test]
fn aad_swap_between_records_fails() {
    let mut cipher = test_cipher();
    let record_a = cipher.encrypt(b"first message").unwrap();
    let record_b = cipher.encrypt(b"second message").unwrap();
    let mut swapped_a = record_a.clone();
    let mut swapped_b = record_b.clone();
    swapped_a.aad = record_b.nonce.clone();
    swapped_b.aad = record_a.nonce.clone();
    assert!(cipher.decrypt(swapped_a).is_err());
    assert!(cipher.decrypt(swapped_b).is_err());
}

#[test]
fn nonces_unique_across_calls() {
    let mut cipher = test_cipher();
    let mut nonces: Vec<Vec<u8>> = Vec::new();
    for _ in 0..64 {
        let record = cipher.encrypt(b"same message").unwrap();
        assert_eq!(record.nonce.len(), 12);
        nonces.push(record.nonce);
    }
    for i in 0..nonces.len() {
        for j in (i + 1)..nonces.len() {
            assert_ne!(nonces[i], nonces[j], "nonces {i} and {j} collide");
        }
    }
}

#[test]
fn distinct_records_from_same_plaintext() {
    let mut cipher = test_cipher();
    let record_a = cipher.encrypt(b"identical plaintext").unwrap();
    let record_b = cipher.encrypt(b"identical plaintext").unwrap();
    assert_ne!(record_a.nonce, record_b.nonce);
    assert_ne!(record_a.ciphertext, record_b.ciphertext);
    assert_ne!(record_a.encrypted_key, record_b.encrypted_key);
}

struct FailingProvider;

impl KeyProvider for FailingProvider {
    fn unwrap_spec(&self, _wrapped: vstd::seq::Seq<u8>) -> Option<vstd::seq::Seq<u8>> {
        panic!()
    }

    fn current_key_id(&self) -> vstd::seq::Seq<u8> {
        panic!()
    }

    fn generate_data_key(&self) -> Result<DataKey, KeyProviderError> {
        Err(KeyProviderError)
    }

    fn decrypt_data_key(&self, _wrapped: &Vec<u8>) -> Result<Vec<u8>, KeyProviderError> {
        Err(KeyProviderError)
    }
}

#[test]
fn provider_failure_propagates() {
    let mut good = test_cipher();
    let record = good.encrypt(b"carried over").unwrap();

    let mut failing = EnvelopeCipher::init(FailingProvider);
    assert!(failing.encrypt(b"anything").is_err());
    assert!(failing.decrypt(record).is_err());
}

#[test]
fn foreign_master_key_fails() {
    let mut cipher_a = test_cipher();
    let cipher_b = EnvelopeCipher::init(SimpleKeyProvider::init([0xff; 16]));
    let record = cipher_a.encrypt(b"for a only").unwrap();
    assert!(cipher_b.decrypt(record).is_err());
}

#[test]
fn data_key_wrap_round_trip() {
    let provider = test_provider();
    let data_key = provider.generate_data_key().unwrap();
    assert_eq!(data_key.key.len(), 16);
    assert_eq!(data_key.key_id, b"simplekey".to_vec());
    let unwrapped = provider.decrypt_data_key(&data_key.encrypted_key).unwrap();
    assert_eq!(unwrapped, data_key.key);
}

#[test]
fn malformed_wrapped_key_fails() {
    let provider = test_provider();
    assert!(provider.decrypt_data_key(&Vec::new()).is_err());
    assert!(provider.decrypt_data_key(&vec![0u8; 5]).is_err());
    assert!(provider.decrypt_data_key(&vec![0u8; 12]).is_err());
    assert!(provider.decrypt_data_key(&vec![0u8; 40]).is_err());
}

#[test]
fn seal_then_open_record_directly() {
    let provider = test_provider();
    let data_key = provider.generate_data_key().unwrap();
    let nonce: Vec<u8> = (0u8..12).collect();
    let record = seal_record(&data_key, nonce.clone(), b"direct seal").unwrap();
    assert_eq!(record.nonce, nonce);
    assert_eq!(record.aad, data_key.key_id);
    assert_eq!(record.encrypted_key, data_key.encrypted_key);
    let opened = open_record(&data_key.key, &record).unwrap();
    assert_eq!(opened, b"direct seal".to_vec());
}

#[test]
fn open_record_rejects_bad_nonce_length() {
    let provider = test_provider();
    let data_key = provider.generate_data_key().unwrap();
    let nonce: Vec<u8> = (0u8..12).collect();
    let mut record = seal_record(&data_key, nonce, b"direct seal").unwrap();
    record.nonce.push(0);
    assert!(open_record(&data_key.key, &record).is_err());
}

#[test]
fn wipe_bytes_zeroes_in_place() {
    let mut buf = vec![0xde, 0xad, 0xbe, 0xef];
    wipe_bytes(&mut buf);
    assert_eq!(buf, vec![0, 0, 0, 0]);
    let mut empty: Vec<u8> = Vec::new();
    wipe_bytes(&mut empty);
    assert!(empty.is_empty());
}
