use aes_gcm::{AeadInPlace, Aes256Gcm, KeyInit};
use p256::ecdsa::signature::Verifier;
use p256::ecdsa::{Signature, VerifyingKey};
use sha3::Digest;
use tpm_ws::protocol::{SignMsg, SignResp};
use tpm_ws::software::{
    get_signing_key, open_private_key, seal_private_key, sign, sign_resolved, sign_with_secret, KeyFault,
    NewSoftwareKey, SoftwareBackend,
};

fn request(origin: &str, data: Vec<u8>, include_key: bool) -> SignMsg {
    SignMsg { origin: origin.to_string(), data, include_key }
}

fn secret_one() -> Vec<u8> {
    let mut s = vec![0u8; 32];
    s[31] = 1;
    s
}

fn verifies(resp: &SignResp, payload: &[u8]) -> bool {
    let point = resp.ec_point.as_ref().unwrap();
    let mut sec1 = vec![4u8];
    sec1.extend_from_slice(&point.x);
    sec1.extend_from_slice(&point.y);
    let key = VerifyingKey::from_sec1_bytes(&sec1).unwrap();
    let mut rs = resp.sig_r.clone();
    rs.extend_from_slice(&resp.sig_s);
    let sig = Signature::from_slice(&rs).unwrap();
    key.verify(payload, &sig).is_ok()
}

#[test]
fn software_is_always_supported() {
    assert!(SoftwareBackend::is_supported());
}

#[test]
fn example_origin_first_and_second_request() {
    let aes_key = vec![7u8; 32];
    let msg = request("example.com", vec![0x01, 0x02, 0x03], true);
    let (first, created) = sign(&msg, &aes_key, &None).unwrap();
    assert_eq!(first.sig_r.len(), 32);
    assert_eq!(first.sig_s.len(), 32);
    let p1 = first.ec_point.as_ref().unwrap();
    assert_eq!(p1.x.len(), 32);
    assert_eq!(p1.y.len(), 32);
    let record = created.unwrap();
    assert_eq!(record.origin, "example.com");

    let (second, created_again) = sign(&msg, &aes_key, &Some(record)).unwrap();
    assert!(created_again.is_none());
    let p2 = second.ec_point.as_ref().unwrap();
    assert_eq!(p1.x, p2.x);
    assert_eq!(p1.y, p2.y);
    assert!(verifies(&first, &[0x01, 0x02, 0x03]));
    assert!(verifies(&second, &[0x01, 0x02, 0x03]));
}

#[test]
fn returned_point_verifies_signature() {
    let aes_key = vec![3u8; 32];
    let payload = b"some payload to sign".to_vec();
    let (resp, _) = sign(&request("a.b", payload.clone(), true), &aes_key, &None).unwrap();
    assert!(verifies(&resp, &payload));
    assert!(!verifies(&resp, b"another payload"));
}

#[test]
fn no_point_unless_asked() {
    let aes_key = vec![3u8; 32];
    let (resp, _) = sign(&request("a", vec![9], false), &aes_key, &None).unwrap();
    assert!(resp.ec_point.is_none());
    assert_eq!(resp.sig_r.len() + resp.sig_s.len(), 64);
}

#[test]
fn seal_then_open_round_trip() {
    let aes_key = vec![0x42u8; 32];
    let secret: Vec<u8> = (1u8..=32).collect();
    let nonce = vec![5u8; 12];
    let rec = seal_private_key(&aes_key, "origin".to_string(), &secret, &nonce);
    assert_eq!(rec.encrypted_private_key_iv, nonce);
    assert_eq!(rec.private_key_sha3_512_sum, sha3::Sha3_512::digest(&secret).to_vec());
    assert_eq!(rec.encrypted_private_key.len(), 48);
    assert_ne!(rec.encrypted_private_key[..32].to_vec(), secret);
    assert_eq!(open_private_key(&aes_key, &rec).unwrap(), secret);
}

#[test]
fn tampered_ciphertext_is_an_integrity_fault() {
    let aes_key = vec![7u8; 32];
    let msg = request("example.com", vec![1, 2, 3], true);
    let (_, created) = sign(&msg, &aes_key, &None).unwrap();
    let mut rec = created.unwrap();
    rec.encrypted_private_key[0] ^= 0x01;
    let err = match sign(&msg, &aes_key, &Some(rec)) {
        Err(e) => e,
        Ok(_) => panic!("signed over tampered key material"),
    };
    assert_eq!(err, KeyFault::Tampered);
    assert!(err.is_integrity_fault());
}

#[test]
fn wrong_secret_cannot_open() {
    let rec = seal_private_key(&vec![1u8; 32], "o".to_string(), &secret_one(), &vec![0u8; 12]);
    assert_eq!(open_private_key(&vec![2u8; 32], &rec), Err(KeyFault::Tampered));
}

#[test]
fn short_nonce_is_malformed() {
    let mut rec = seal_private_key(&vec![1u8; 32], "o".to_string(), &secret_one(), &vec![0u8; 12]);
    rec.encrypted_private_key_iv.pop();
    assert_eq!(open_private_key(&vec![1u8; 32], &rec), Err(KeyFault::MalformedRecord));
}

#[test]
fn digest_mismatch_is_detected() {
    let aes_key = vec![9u8; 32];
    let secret = secret_one();
    let wrong_digest = vec![0u8; 64];
    let nonce = vec![1u8; 12];
    let cipher = Aes256Gcm::new_from_slice(&aes_key).unwrap();
    let mut ct = secret.clone();
    cipher.encrypt_in_place(nonce.as_slice().into(), &wrong_digest, &mut ct).unwrap();
    let rec = NewSoftwareKey {
        origin: "o".to_string(),
        encrypted_private_key: ct,
        encrypted_private_key_iv: nonce,
        private_key_sha3_512_sum: wrong_digest,
    };
    let err = open_private_key(&aes_key, &rec).unwrap_err();
    assert_eq!(err, KeyFault::DigestMismatch);
    assert!(err.is_integrity_fault());
}

#[test]
fn zero_secret_is_invalid_key() {
    let aes_key = vec![9u8; 32];
    let zero = vec![0u8; 32];
    assert!(sign_with_secret(&zero, &vec![1], true).is_none());
    let r = sign_resolved(&request("o", vec![1], false), &aes_key, &None, &zero, &vec![0u8; 12]);
    assert!(matches!(r, Err(KeyFault::InvalidKey)));
    assert!(!KeyFault::InvalidKey.is_integrity_fault());
}

#[test]
fn existing_record_is_reused_not_recreated() {
    let aes_key = vec![4u8; 32];
    let (secret, created) =
        get_signing_key(&aes_key, "o".to_string(), &None, &secret_one(), &vec![2u8; 12]).unwrap();
    assert_eq!(secret, secret_one());
    let rec = created.unwrap();
    let mut other = secret_one();
    other[30] = 7;
    let (again, created_again) =
        get_signing_key(&aes_key, "o".to_string(), &Some(rec), &other, &vec![3u8; 12]).unwrap();
    assert_eq!(again, secret_one());
    assert!(created_again.is_none());
}

#[test]
fn signing_is_deterministic_per_key() {
    let a = sign_with_secret(&secret_one(), &vec![1, 2, 3], true).unwrap();
    let b = sign_with_secret(&secret_one(), &vec![1, 2, 3], true).unwrap();
    assert_eq!(a.sig_r, b.sig_r);
    assert_eq!(a.sig_s, b.sig_s);
    // the public key of the scalar 1 is the generator of P-256
    let g = a.ec_point.unwrap();
    assert_eq!(g.x[0], 0x6b);
    assert_eq!(g.y[0], 0x4f);
}

#[test]
fn stored_record_has_fixed_lengths() {
    let aes_key = vec![6u8; 32];
    let (resp, created) = sign(&request("example.com", vec![1, 2, 3], true), &aes_key, &None).unwrap();
    let rec = created.unwrap();
    assert_eq!(rec.encrypted_private_key.len(), 48);
    assert_eq!(rec.private_key_sha3_512_sum.len(), 64);
    assert_eq!(rec.encrypted_private_key_iv.len(), 12);
    let point = resp.ec_point.unwrap();
    assert_eq!(point.x.len(), 32);
    assert_eq!(point.y.len(), 32);
}

#[test]
fn short_digest_or_long_ciphertext_is_malformed() {
    let aes_key = vec![1u8; 32];
    let mut rec = seal_private_key(&aes_key, "o".to_string(), &secret_one(), &vec![0u8; 12]);
    rec.private_key_sha3_512_sum.pop();
    assert_eq!(open_private_key(&aes_key, &rec), Err(KeyFault::MalformedRecord));
    let mut long = seal_private_key(&aes_key, "o".to_string(), &secret_one(), &vec![0u8; 12]);
    long.encrypted_private_key = vec![0u8; 4097];
    assert_eq!(open_private_key(&aes_key, &long), Err(KeyFault::MalformedRecord));
}
