//! The hardware security module backend: key records and the shape of its responses.
use vstd::prelude::*;
use crate::protocol::{EcPoint, SignResp};

verus! {

/// The backend that keeps keys sealed by a TPM.
pub struct TpmBackend;

/// The persisted record of one origin's sealed key pair.
pub struct NewTpmKeyPair {
    pub origin: String,
    pub sealed_private_key: Vec<u8>,
    pub public_key: Vec<u8>,
}

/// How to obtain an origin's key in this session.
pub enum TpmKeyPlan {
    /// Load the stored sealed private blob and public blob under the session's primary.
    Load(Vec<u8>, Vec<u8>),
    /// Create a new signing key under the primary, then persist its blobs.
    Generate,
}

/// Decides from the origin's stored record: a stored pair is loaded again, and
/// a new one is generated only when there is none.
pub fn plan_tpm_key(existing: &Option<NewTpmKeyPair>) -> (r: TpmKeyPlan)
    ensures
        existing is None <==> r is Generate,
        existing is Some ==> (r matches TpmKeyPlan::Load(private, public) && private@
            == existing->0.sealed_private_key@ && public@ == existing->0.public_key@),
{
    match existing {
        Some(rec) => TpmKeyPlan::Load(rec.sealed_private_key.clone(), rec.public_key.clone()),
        None => TpmKeyPlan::Generate,
    }
}

/// `v` as a big-endian number of exactly 32 bytes.
pub open spec fn padded_32(v: Seq<u8>) -> Seq<u8> {
    Seq::new((32 - v.len()) as nat, |i: int| 0u8) + v
}

/// Left-pads a big-endian value to 32 bytes; `None` when it is longer.
pub fn pad_to_32(v: &Vec<u8>) -> (r: Option<Vec<u8>>)
    ensures
        r is Some <==> v@.len() <= 32,
        r is Some ==> r->0@ == padded_32(v@),
        r is Some ==> r->0@.len() == 32,
{
    if v.len() > 32 {
        return None;
    }
    let pad: usize = 32 - v.len();
    let mut r: Vec<u8> = Vec::new();
    let mut i: usize = 0;
    while i < pad
        invariant
            i <= pad,
            r@ == Seq::new(i as nat, |k: int| 0u8),
        decreases pad - i,
    {
        r.push(0u8);
        i = i + 1;
        assert(r@ =~= Seq::new(i as nat, |k: int| 0u8));
    }
    let mut j: usize = 0;
    while j < v.len()
        invariant
            pad + v@.len() == 32,
            j <= v@.len(),
            r@ == Seq::new(pad as nat, |k: int| 0u8) + v@.subrange(0, j as int),
        decreases v@.len() - j,
    {
        r.push(v[j]);
        j = j + 1;
        assert(r@ =~= Seq::new(pad as nat, |k: int| 0u8) + v@.subrange(0, j as int));
    }
    assert(v@.subrange(0, v@.len() as int) =~= v@);
    Some(r)
}

/// Builds the response from the module's signature halves and, when asked,
/// the public point's coordinates, each left-padded to 32 bytes. `None` when a
/// value is longer than 32 bytes, or the point is missing though asked for.
pub fn tpm_response(sig_r: &Vec<u8>, sig_s: &Vec<u8>, point: &Option<(Vec<u8>, Vec<u8>)>, include_key: bool) -> (r:
    Option<SignResp>)
    ensures
        r is Some <==> (sig_r@.len() <= 32 && sig_s@.len() <= 32 && (include_key ==> point is Some
            && (point->0).0@.len() <= 32 && (point->0).1@.len() <= 32)),
        r is Some ==> r->0.sig_r@ == padded_32(sig_r@) && r->0.sig_s@ == padded_32(sig_s@),
        r is Some ==> r->0.sig_r@.len() == 32 && r->0.sig_s@.len() == 32,
        r is Some && include_key ==> r->0.ec_point is Some && r->0.ec_point->0.x@ == padded_32((point->0).0@)
            && r->0.ec_point->0.y@ == padded_32((point->0).1@),
        r is Some && !include_key ==> r->0.ec_point is None,
{
    let r_bytes = match pad_to_32(sig_r) {
        Some(b) => b,
        None => return None,
    };
    let s_bytes = match pad_to_32(sig_s) {
        Some(b) => b,
        None => return None,
    };
    let ec_point = if include_key {
        match point {
            Some((x, y)) => {
                let xp = match pad_to_32(x) {
                    Some(b) => b,
                    None => return None,
                };
                let yp = match pad_to_32(y) {
                    Some(b) => b,
                    None => return None,
                };
                Some(EcPoint { x: xp, y: yp })
            },
            None => return None,
        }
    } else {
        None
    };
    Some(SignResp { sig_r: r_bytes, sig_s: s_bytes, ec_point })
}

} // verus!
