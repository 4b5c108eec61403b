//! The software backend: a P-256 secret kept encrypted at rest under a
//! per-origin AES-256-GCM key, with its SHA3-512 digest as associated data and
//! as an independent integrity check.
use vstd::prelude::*;
use crate::crypto::{
    aes_gcm_open, aes_gcm_seal, aes_gcm_seal_of, ecdsa_p256_accepts, ecdsa_p256_sig_of, ecdsa_p256_sign, is_p256_secret,
    p256_public_sec1, p256_public_sec1_of, random_nonce, random_p256_secret, scrub, sha3_512, sha3_512_of,
};
use crate::protocol::{build_response, bytes_equal, response_of, SignMsg, SignResp};

verus! {

/// The fallback backend, available everywhere.
pub struct SoftwareBackend;

impl SoftwareBackend {
    /// The software backend can always be used.
    pub fn is_supported() -> (r: bool)
        ensures
            r,
    {
        true
    }
}

/// The persisted record of one origin's software key.
pub struct NewSoftwareKey {
    pub origin: String,
    pub encrypted_private_key: Vec<u8>,
    pub encrypted_private_key_iv: Vec<u8>,
    pub private_key_sha3_512_sum: Vec<u8>,
}

/// Why a stored key cannot be used.
#[derive(Debug, Clone, Copy, PartialEq, Eq, Structural)]
pub enum KeyFault {
    /// The stored nonce is not 12 bytes, the digest not 64 bytes, or the
    /// ciphertext longer than 4096 bytes.
    MalformedRecord,
    /// Authenticated decryption failed: the ciphertext, nonce or digest was altered.
    Tampered,
    /// The decrypted key does not hash to the stored digest.
    DigestMismatch,
    /// The key material is not a P-256 secret scalar.
    InvalidKey,
}

impl KeyFault {
    /// Whether this fault means the stored key material cannot be trusted.
    pub fn is_integrity_fault(&self) -> (r: bool)
        ensures
            r == (*self == KeyFault::Tampered || *self == KeyFault::DigestMismatch),
    {
        match self {
            KeyFault::Tampered | KeyFault::DigestMismatch => true,
            _ => false,
        }
    }
}

/// `rec` was made by sealing `secret` under `key` with `nonce`.
pub open spec fn sealed_from(key: Seq<u8>, secret: Seq<u8>, nonce: Seq<u8>, rec: NewSoftwareKey) -> bool {
    &&& rec.encrypted_private_key_iv@ == nonce
    &&& rec.private_key_sha3_512_sum@ == sha3_512_of(secret)
    &&& rec.encrypted_private_key@ == aes_gcm_seal_of(key, nonce, sha3_512_of(secret), secret)
}

/// The stored fields have the shapes that sealing produces.
pub open spec fn record_well_formed(rec: NewSoftwareKey) -> bool {
    &&& rec.encrypted_private_key_iv@.len() == 12
    &&& rec.private_key_sha3_512_sum@.len() == 64
    &&& rec.encrypted_private_key@.len() <= 4096
}

/// `secret` is what `rec` decrypts to under `key`, and it matches the stored digest.
pub open spec fn opens_to(key: Seq<u8>, rec: NewSoftwareKey, secret: Seq<u8>) -> bool {
    &&& record_well_formed(rec)
    &&& aes_gcm_seal_of(key, rec.encrypted_private_key_iv@, rec.private_key_sha3_512_sum@, secret)
        == rec.encrypted_private_key@
    &&& sha3_512_of(secret) == rec.private_key_sha3_512_sum@
}

/// Some plaintext seals to the stored ciphertext.
pub open spec fn decrypts(key: Seq<u8>, rec: NewSoftwareKey) -> bool {
    exists|q: Seq<u8>|
        aes_gcm_seal_of(key, rec.encrypted_private_key_iv@, rec.private_key_sha3_512_sum@, q)
            == rec.encrypted_private_key@
}

/// The usable secrets: 32 bytes forming a P-256 scalar.
pub open spec fn usable_secret(secret: Seq<u8>) -> bool {
    is_p256_secret(secret)
}

/// A response signed by `secret`, with its public point after the one-byte SEC1 tag.
pub open spec fn signed_by(resp: SignResp, secret: Seq<u8>, payload: Seq<u8>, include_key: bool) -> bool {
    &&& response_of(resp, ecdsa_p256_sig_of(secret, payload), p256_public_sec1_of(secret), 1, include_key)
    &&& ecdsa_p256_sig_of(secret, payload).len() == 64
    &&& ecdsa_p256_accepts(p256_public_sec1_of(secret), payload, ecdsa_p256_sig_of(secret, payload))
    &&& include_key ==> p256_public_sec1_of(secret).len() == 65 && p256_public_sec1_of(secret)[0] == 4u8
}

/// A response that carries its public point is consistent with its signature:
/// ECDSA verification under the uncompressed point `04 || x || y` accepts
/// `sig_r || sig_s` over the payload.
pub proof fn lemma_returned_point_verifies(resp: SignResp, secret: Seq<u8>, payload: Seq<u8>)
    requires
        signed_by(resp, secret, payload, true),
    ensures
        resp.ec_point is Some,
        ecdsa_p256_accepts(
            seq![4u8] + resp.ec_point->0.x@ + resp.ec_point->0.y@,
            payload,
            resp.sig_r@ + resp.sig_s@,
        ),
{
    let sig = ecdsa_p256_sig_of(secret, payload);
    let sec1 = p256_public_sec1_of(secret);
    assert(resp.sig_r@ + resp.sig_s@ =~= sig);
    assert(seq![4u8] + resp.ec_point->0.x@ + resp.ec_point->0.y@ =~= sec1);
}

/// A record sealed from a secret opens to that very secret: with the contract of
/// `open_private_key`, decrypting what `seal_private_key` produced gives back the
/// sealed key bytes and a matching digest.
pub proof fn lemma_sealed_record_opens(key: Seq<u8>, secret: Seq<u8>, nonce: Seq<u8>, rec: NewSoftwareKey)
    requires
        nonce.len() == 12,
        sealed_from(key, secret, nonce, rec),
        rec.private_key_sha3_512_sum@.len() == 64,
        rec.encrypted_private_key@.len() == 48,
    ensures
        opens_to(key, rec, secret),
{
}

/// Encrypts `secret` under `aes_key` with `nonce`, its digest as associated data.
pub fn seal_private_key(aes_key: &Vec<u8>, origin: String, secret: &Vec<u8>, nonce: &Vec<u8>) -> (rec: NewSoftwareKey)
    requires
        aes_key@.len() == 32,
        secret@.len() == 32,
        nonce@.len() == 12,
    ensures
        sealed_from(aes_key@, secret@, nonce@, rec),
        rec.origin == origin,
        rec.private_key_sha3_512_sum@.len() == 64,
        rec.encrypted_private_key@.len() == 48,
{
    let digest = sha3_512(secret);
    let sealed = aes_gcm_seal(aes_key, nonce, &digest, secret);
    let encrypted_private_key = match sealed {
        Some(c) => c,
        None => {
            assert(false);
            Vec::new()
        },
    };
    NewSoftwareKey {
        origin,
        encrypted_private_key,
        encrypted_private_key_iv: nonce.clone(),
        private_key_sha3_512_sum: digest,
    }
}

/// Decrypts a stored key and checks it against its stored digest.
pub fn open_private_key(aes_key: &Vec<u8>, rec: &NewSoftwareKey) -> (r: Result<Vec<u8>, KeyFault>)
    requires
        aes_key@.len() == 32,
    ensures
        forall|p: Seq<u8>| opens_to(aes_key@, *rec, p) <==> (r is Ok && r->Ok_0@ == p),
        r == Err::<Vec<u8>, KeyFault>(KeyFault::MalformedRecord) <==> !record_well_formed(*rec),
        r == Err::<Vec<u8>, KeyFault>(KeyFault::Tampered) <==> (record_well_formed(*rec)
            && !decrypts(aes_key@, *rec)),
        r == Err::<Vec<u8>, KeyFault>(KeyFault::DigestMismatch) <==> (record_well_formed(*rec)
            && decrypts(aes_key@, *rec) && !exists|p: Seq<u8>| opens_to(aes_key@, *rec, p)),
        r != Err::<Vec<u8>, KeyFault>(KeyFault::InvalidKey),
{
    if rec.encrypted_private_key_iv.len() != 12 || rec.private_key_sha3_512_sum.len() != 64
        || rec.encrypted_private_key.len() > 4096 {
        return Err(KeyFault::MalformedRecord);
    }
    let opened = aes_gcm_open(
        aes_key,
        &rec.encrypted_private_key_iv,
        &rec.private_key_sha3_512_sum,
        &rec.encrypted_private_key,
    );
    match opened {
        None => {
            assert forall|q: Seq<u8>|
                aes_gcm_seal_of(aes_key@, rec.encrypted_private_key_iv@, rec.private_key_sha3_512_sum@, q)
                    != rec.encrypted_private_key@ by {}
            assert(!decrypts(aes_key@, *rec));
            Err(KeyFault::Tampered)
        },
        Some(secret) => {
            assert(aes_gcm_seal_of(aes_key@, rec.encrypted_private_key_iv@, rec.private_key_sha3_512_sum@, secret@)
                == rec.encrypted_private_key@);
            let digest = sha3_512(&secret);
            if bytes_equal(&digest, &rec.private_key_sha3_512_sum) {
                assert(opens_to(aes_key@, *rec, secret@));
                Ok(secret)
            } else {
                assert(decrypts(aes_key@, *rec));
                Err(KeyFault::DigestMismatch)
            }
        },
    }
}

/// Finds the secret key of an origin: the stored one when a record exists,
/// else `fresh_secret`, sealed with `fresh_nonce` into a new record to persist.
pub fn get_signing_key(
    aes_key: &Vec<u8>,
    origin: String,
    existing: &Option<NewSoftwareKey>,
    fresh_secret: &Vec<u8>,
    fresh_nonce: &Vec<u8>,
) -> (r: Result<(Vec<u8>, Option<NewSoftwareKey>), KeyFault>)
    requires
        aes_key@.len() == 32,
        fresh_secret@.len() == 32,
        fresh_nonce@.len() == 12,
    ensures
        existing is None ==> r is Ok,
        existing is None ==> r->Ok_0.0@ == fresh_secret@,
        existing is None ==> r->Ok_0.1 is Some,
        existing is None ==> sealed_from(aes_key@, fresh_secret@, fresh_nonce@, r->Ok_0.1->0),
        existing is None ==> r->Ok_0.1->0.origin == origin,
        existing is None ==> r->Ok_0.1->0.private_key_sha3_512_sum@.len() == 64,
        existing is None ==> r->Ok_0.1->0.encrypted_private_key@.len() == 48,
        existing is Some ==> (r is Ok ==> r->Ok_0.1 is None),
        existing is Some ==> forall|p: Seq<u8>|
            opens_to(aes_key@, existing->0, p) <==> (r is Ok && r->Ok_0.0@ == p),
        existing is Some ==> (r is Err <==> !exists|p: Seq<u8>| opens_to(aes_key@, existing->0, p)),
        existing is Some ==> (r == Err::<(Vec<u8>, Option<NewSoftwareKey>), KeyFault>(KeyFault::MalformedRecord)
            <==> !record_well_formed(existing->0)),
        existing is Some ==> (r == Err::<(Vec<u8>, Option<NewSoftwareKey>), KeyFault>(KeyFault::Tampered)
            <==> (record_well_formed(existing->0) && !decrypts(aes_key@, existing->0))),
        r != Err::<(Vec<u8>, Option<NewSoftwareKey>), KeyFault>(KeyFault::InvalidKey),
{
    match existing {
        Some(rec) => {
            match open_private_key(aes_key, rec) {
                Ok(secret) => Ok((secret, None)),
                Err(e) => Err(e),
            }
        },
        None => {
            let rec = seal_private_key(aes_key, origin, fresh_secret, fresh_nonce);
            Ok((fresh_secret.clone(), Some(rec)))
        },
    }
}

/// Signs `payload` with `secret`, adding the public point when asked.
pub fn sign_with_secret(secret: &Vec<u8>, payload: &Vec<u8>, include_key: bool) -> (r: Option<SignResp>)
    ensures
        r is Some <==> usable_secret(secret@),
        r is Some ==> signed_by(r->0, secret@, payload@, include_key),
{
    if secret.len() != 32 {
        return None;
    }
    let sig = match ecdsa_p256_sign(secret, payload) {
        Some(s) => s,
        None => return None,
    };
    let point = if include_key {
        match p256_public_sec1(secret) {
            Some(p) => p,
            None => return None,
        }
    } else {
        Vec::new()
    };
    Some(build_response(&sig, &point, 1, include_key))
}

/// Resolves the origin's key and signs with it, given the fresh secret and
/// nonce to use should the origin have no key yet. Returns the response and the
/// record to persist, if a key was created.
pub fn sign_resolved(
    msg: &SignMsg,
    aes_key: &Vec<u8>,
    existing: &Option<NewSoftwareKey>,
    fresh_secret: &Vec<u8>,
    fresh_nonce: &Vec<u8>,
) -> (r: Result<(SignResp, Option<NewSoftwareKey>), KeyFault>)
    requires
        aes_key@.len() == 32,
        fresh_secret@.len() == 32,
        fresh_nonce@.len() == 12,
    ensures
        existing is None ==> (r is Ok <==> is_p256_secret(fresh_secret@)),
        existing is None ==> (r is Err ==> r->Err_0 == KeyFault::InvalidKey),
        existing is None && r is Ok ==> r->Ok_0.1 is Some
            && sealed_from(aes_key@, fresh_secret@, fresh_nonce@, r->Ok_0.1->0)
            && r->Ok_0.1->0.origin == msg.origin
            && r->Ok_0.1->0.private_key_sha3_512_sum@.len() == 64
            && r->Ok_0.1->0.encrypted_private_key@.len() == 48
            && signed_by(r->Ok_0.0, fresh_secret@, msg.data@, msg.include_key),
        existing is Some ==> (r is Ok ==> r->Ok_0.1 is None),
        existing is Some ==> forall|p: Seq<u8>| opens_to(aes_key@, existing->0, p) ==> (
            (r is Ok <==> usable_secret(p))
            && (r is Ok ==> signed_by(r->Ok_0.0, p, msg.data@, msg.include_key))
            && (r is Err ==> r->Err_0 == KeyFault::InvalidKey)),
        existing is Some ==> ((!exists|p: Seq<u8>| opens_to(aes_key@, existing->0, p)) ==> r is Err
            && r->Err_0 != KeyFault::InvalidKey),
        existing is Some ==> (r == Err::<(SignResp, Option<NewSoftwareKey>), KeyFault>(KeyFault::Tampered)
            <==> (record_well_formed(existing->0) && !decrypts(aes_key@, existing->0))),
{
    let (mut secret, created) = match get_signing_key(aes_key, msg.origin.clone(), existing, fresh_secret, fresh_nonce) {
        Ok(found) => found,
        Err(e) => return Err(e),
    };
    let signed = sign_with_secret(&secret, &msg.data, msg.include_key);
    scrub(&mut secret);
    match signed {
        Some(resp) => Ok((resp, created)),
        None => Err(KeyFault::InvalidKey),
    }
}

/// Signs a request with the software backend. `existing` is the origin's stored
/// record, if any; a new key is drawn only when there is none, and its record is
/// returned for the caller to persist.
pub fn sign(msg: &SignMsg, aes_key: &Vec<u8>, existing: &Option<NewSoftwareKey>) -> (r: Result<
    (SignResp, Option<NewSoftwareKey>),
    KeyFault,
>)
    requires
        aes_key@.len() == 32,
    ensures
        existing is None ==> r is Ok,
        existing is None ==> r->Ok_0.1 is Some && r->Ok_0.1->0.origin == msg.origin
            && r->Ok_0.1->0.private_key_sha3_512_sum@.len() == 64
            && r->Ok_0.1->0.encrypted_private_key@.len() == 48
            && exists|s: Seq<u8>, n: Seq<u8>|
                sealed_from(aes_key@, s, n, r->Ok_0.1->0) && n.len() == 12 && usable_secret(s)
                && signed_by(r->Ok_0.0, s, msg.data@, msg.include_key),
        existing is Some ==> (r is Ok ==> r->Ok_0.1 is None),
        existing is Some ==> forall|p: Seq<u8>| opens_to(aes_key@, existing->0, p) ==> (
            (r is Ok <==> usable_secret(p))
            && (r is Ok ==> signed_by(r->Ok_0.0, p, msg.data@, msg.include_key))),
        existing is Some ==> ((!exists|p: Seq<u8>| opens_to(aes_key@, existing->0, p)) ==> r is Err
            && r->Err_0 != KeyFault::InvalidKey),
        existing is Some ==> (r == Err::<(SignResp, Option<NewSoftwareKey>), KeyFault>(KeyFault::Tampered)
            <==> (record_well_formed(existing->0) && !decrypts(aes_key@, existing->0))),
{
    let mut fresh_secret = random_p256_secret();
    let fresh_nonce = random_nonce();
    let r = sign_resolved(msg, aes_key, existing, &fresh_secret, &fresh_nonce);
    proof {
        if existing is None {
            assert(sealed_from(aes_key@, fresh_secret@, fresh_nonce@, r->Ok_0.1->0));
        }
    }
    scrub(&mut fresh_secret);
    r
}

} // verus!
