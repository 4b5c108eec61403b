//! The cryptographic primitives this library composes, each behind a small
//! trusted wrapper. None of them is implemented here.
use vstd::prelude::*;
use aes_gcm::{AeadCore, AeadInPlace, Aes256Gcm, KeyInit};
use p256::ecdsa::signature::Signer;
use sha3::Digest;
use zeroize::Zeroize;

verus! {

/// The SHA3-512 digest of a byte string.
pub uninterp spec fn sha3_512_of(data: Seq<u8>) -> Seq<u8>;

/// The AES-256-GCM ciphertext (body followed by the 16-byte tag) of `plaintext`
/// under `key` and `nonce`, with `aad` as associated data.
pub uninterp spec fn aes_gcm_seal_of(key: Seq<u8>, nonce: Seq<u8>, aad: Seq<u8>, plaintext: Seq<u8>) -> Seq<u8>;

/// The number that `bytes` spell in big-endian order.
pub open spec fn be_nat(bytes: Seq<u8>) -> nat
    decreases bytes.len(),
{
    if bytes.len() == 0 {
        0
    } else {
        be_nat(bytes.drop_last()) * 256 + bytes.last() as nat
    }
}

/// The order of the P-256 group.
pub open spec fn p256_order() -> nat {
    0xffffffff00000000ffffffffffffffff * 0x100000000000000000000000000000000
        + 0xbce6faada7179e84f3b9cac2fc632551
}

/// Whether 32 big-endian bytes are a P-256 secret scalar: nonzero and below the group order.
pub open spec fn is_p256_secret(secret: Seq<u8>) -> bool {
    secret.len() == 32 && 0 < be_nat(secret) < p256_order()
}

/// Whether ECDSA P-256 (SHA-256) verification under the public key with SEC1
/// encoding `public_sec1` accepts the signature `r || s` of `msg`.
pub uninterp spec fn ecdsa_p256_accepts(public_sec1: Seq<u8>, msg: Seq<u8>, sig: Seq<u8>) -> bool;

/// The deterministic (RFC 6979) ECDSA P-256 signature `r || s` of `msg` under `secret`.
pub uninterp spec fn ecdsa_p256_sig_of(secret: Seq<u8>, msg: Seq<u8>) -> Seq<u8>;

/// The uncompressed SEC1 encoding `04 || x || y` of the public key of `secret`.
pub uninterp spec fn p256_public_sec1_of(secret: Seq<u8>) -> Seq<u8>;

/// Relies on `sha3::Sha3_512::digest`: a 64-byte digest that depends on the input alone.
#[verifier::external_body]
pub(crate) fn sha3_512(data: &Vec<u8>) -> (r: Vec<u8>)
    ensures
        r@ == sha3_512_of(data@),
        r@.len() == 64,
{
    sha3::Sha3_512::digest(data.as_slice()).to_vec()
}

/// Relies on `aes_gcm::Aes256Gcm::encrypt_in_place`: it fails only when the
/// plaintext or the associated data exceed 2^36 bytes, and otherwise appends a
/// 16-byte tag to the encrypted body.
#[verifier::external_body]
pub(crate) fn aes_gcm_seal(key: &Vec<u8>, nonce: &Vec<u8>, aad: &Vec<u8>, plaintext: &Vec<u8>) -> (r: Option<Vec<u8>>)
    requires
        key@.len() == 32,
        nonce@.len() == 12,
    ensures
        r is Some ==> r->0@ == aes_gcm_seal_of(key@, nonce@, aad@, plaintext@),
        r is Some ==> r->0@.len() == plaintext@.len() + 16,
        plaintext@.len() <= 4096 && aad@.len() <= 4096 ==> r is Some,
{
    let cipher = Aes256Gcm::new(key.as_slice().into());
    let mut buffer = plaintext.clone();
    cipher.encrypt_in_place(nonce.as_slice().into(), aad.as_slice(), &mut buffer).ok().map(|_| buffer)
}

/// Relies on `aes_gcm::Aes256Gcm::decrypt_in_place`: within its length limits
/// (2^36 bytes of associated data, 2^36 + 16 of ciphertext) it recovers exactly
/// the plaintext that sealing under the same key, nonce and associated data maps
/// to `ciphertext`, and fails when there is none.
#[verifier::external_body]
pub(crate) fn aes_gcm_open(key: &Vec<u8>, nonce: &Vec<u8>, aad: &Vec<u8>, ciphertext: &Vec<u8>) -> (r: Option<Vec<u8>>)
    requires
        key@.len() == 32,
        nonce@.len() == 12,
        aad@.len() <= 4096,
        ciphertext@.len() <= 4096,
    ensures
        forall|p: Seq<u8>|
            #[trigger] aes_gcm_seal_of(key@, nonce@, aad@, p) == ciphertext@ <==> (r is Some && r->0@ == p),
{
    let cipher = Aes256Gcm::new(key.as_slice().into());
    let mut buffer = ciphertext.clone();
    cipher.decrypt_in_place(nonce.as_slice().into(), aad.as_slice(), &mut buffer).ok().map(|_| buffer)
}

/// Relies on `aes_gcm::Aes256Gcm::generate_nonce` with the OS generator: 12 random bytes.
#[verifier::external_body]
pub(crate) fn random_nonce() -> (r: Vec<u8>)
    ensures
        r@.len() == 12,
{
    Aes256Gcm::generate_nonce(&mut rand_core::OsRng).to_vec()
}

/// Relies on `p256::ecdsa::SigningKey::random` with the OS generator: a fresh
/// secret scalar, returned as its 32 big-endian bytes.
#[verifier::external_body]
pub(crate) fn random_p256_secret() -> (r: Vec<u8>)
    ensures
        r@.len() == 32,
        is_p256_secret(r@),
{
    p256::ecdsa::SigningKey::random(&mut rand_core::OsRng).to_bytes().to_vec()
}

/// Relies on `p256::ecdsa::SigningKey::from_bytes` and `Signer::sign`: the key
/// parses exactly when it is a valid scalar, and signing yields 64 bytes `r || s`
/// that `VerifyingKey::verify` accepts under the key's public point.
#[verifier::external_body]
pub(crate) fn ecdsa_p256_sign(secret: &Vec<u8>, msg: &Vec<u8>) -> (r: Option<Vec<u8>>)
    requires
        secret@.len() == 32,
    ensures
        r is Some <==> is_p256_secret(secret@),
        r is Some ==> r->0@ == ecdsa_p256_sig_of(secret@, msg@),
        r is Some ==> r->0@.len() == 64,
        r is Some ==> ecdsa_p256_accepts(p256_public_sec1_of(secret@), msg@, r->0@),
{
    let key = p256::ecdsa::SigningKey::from_bytes(secret.as_slice().into()).ok()?;
    let signature: p256::ecdsa::Signature = key.sign(msg.as_slice());
    Some(signature.to_bytes().to_vec())
}

/// Relies on `p256::ecdsa::SigningKey::from_bytes` and
/// `VerifyingKey::to_sec1_bytes`: P-256 encodes points uncompressed, 65 bytes
/// starting with the tag 4.
#[verifier::external_body]
pub(crate) fn p256_public_sec1(secret: &Vec<u8>) -> (r: Option<Vec<u8>>)
    requires
        secret@.len() == 32,
    ensures
        r is Some <==> is_p256_secret(secret@),
        r is Some ==> r->0@ == p256_public_sec1_of(secret@),
        r is Some ==> r->0@.len() == 65,
        r is Some ==> r->0@[0] == 4u8,
{
    let key = p256::ecdsa::SigningKey::from_bytes(secret.as_slice().into()).ok()?;
    Some(key.verifying_key().to_sec1_bytes().to_vec())
}

/// Relies on `zeroize::Zeroize` for `Vec`: overwrites the bytes with zeros, then clears.
#[verifier::external_body]
pub(crate) fn scrub(secret: &mut Vec<u8>)
    ensures
        final(secret)@.len() == 0,
{
    secret.zeroize()
}

} // verus!
