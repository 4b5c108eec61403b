//! Requests, responses and the byte helpers they share.
use vstd::prelude::*;

verus! {

/// A request to sign `data` with the key of `origin`.
pub struct SignMsg {
    pub origin: String,
    pub data: Vec<u8>,
    pub include_key: bool,
}

/// The affine coordinates of a P-256 public key, 32 bytes each.
pub struct EcPoint {
    pub x: Vec<u8>,
    pub y: Vec<u8>,
}

/// An ECDSA signature as raw 32-byte big-endian halves, with the signer's public
/// point when it was asked for.
pub struct SignResp {
    pub sig_r: Vec<u8>,
    pub sig_s: Vec<u8>,
    pub ec_point: Option<EcPoint>,
}

/// A response to a request: a signature, or a message for a rejected request.
pub enum Resp {
    Sign(SignResp),
    Error(String),
}

/// `resp` carries the halves of the 64-byte signature `sig`, and, exactly when
/// `include_key` holds, the coordinates that follow the `header` bytes of `point`.
pub open spec fn response_of(resp: SignResp, sig: Seq<u8>, point: Seq<u8>, header: int, include_key: bool) -> bool {
    &&& resp.sig_r@ == sig.subrange(0, 32)
    &&& resp.sig_s@ == sig.subrange(32, 64)
    &&& resp.sig_r@.len() == 32
    &&& resp.sig_s@.len() == 32
    &&& include_key ==> resp.ec_point is Some
    &&& include_key ==> resp.ec_point->0.x@.len() == 32 && resp.ec_point->0.y@.len() == 32
    &&& include_key ==> resp.ec_point->0.x@ == point.subrange(header, header + 32)
    &&& include_key ==> resp.ec_point->0.y@ == point.subrange(header + 32, header + 64)
    &&& !include_key ==> resp.ec_point is None
}

/// More than one stored record matches a key that should be unique.
#[derive(Debug, Clone, Copy, PartialEq, Eq, Structural)]
pub struct DuplicateRecord;

/// The single record a lookup by a unique key found, if any; more than one is a
/// consistency fault.
pub fn at_most_one<T>(found: Vec<T>) -> (r: Result<Option<T>, DuplicateRecord>)
    ensures
        found@.len() == 0 <==> r == Ok::<Option<T>, DuplicateRecord>(None),
        found@.len() == 1 <==> r == Ok::<Option<T>, DuplicateRecord>(Some(found@[0])),
        found@.len() > 1 <==> r is Err,
{
    let mut found = found;
    if found.len() > 1 {
        Err(DuplicateRecord)
    } else {
        Ok(found.pop())
    }
}

/// The bytes of `v` from `from` up to `to`.
pub fn copy_range(v: &Vec<u8>, from: usize, to: usize) -> (r: Vec<u8>)
    requires
        from <= to <= v@.len(),
    ensures
        r@ == v@.subrange(from as int, to as int),
{
    let mut r: Vec<u8> = Vec::new();
    let mut i: usize = from;
    while i < to
        invariant
            from <= i <= to,
            to <= v@.len(),
            r@ == v@.subrange(from as int, i as int),
        decreases to - i,
    {
        r.push(v[i]);
        i = i + 1;
    }
    r
}

/// Whether two byte strings are equal.
pub fn bytes_equal(a: &Vec<u8>, b: &Vec<u8>) -> (r: bool)
    ensures
        r == (a@ == b@),
{
    if a.len() != b.len() {
        return false;
    }
    let mut i: usize = 0;
    while i < a.len()
        invariant
            a@.len() == b@.len(),
            i <= a@.len(),
            forall|j: int| 0 <= j < i ==> a@[j] == b@[j],
        decreases a@.len() - i,
    {
        if a[i] != b[i] {
            return false;
        }
        i = i + 1;
    }
    assert(a@ =~= b@);
    true
}

/// Splits a signature `r || s` and takes the public point's coordinates after
/// `header` bytes, as a backend hands them out.
pub fn build_response(sig: &Vec<u8>, point: &Vec<u8>, header: usize, include_key: bool) -> (r: SignResp)
    requires
        sig@.len() == 64,
        header <= 16,
        include_key ==> point@.len() == header + 64,
    ensures
        response_of(r, sig@, point@, header as int, include_key),
{
    let sig_r = copy_range(sig, 0, 32);
    let sig_s = copy_range(sig, 32, 64);
    let ec_point = if include_key {
        Some(EcPoint { x: copy_range(point, header, header + 32), y: copy_range(point, header + 32, header + 64) })
    } else {
        None
    };
    SignResp { sig_r, sig_s, ec_point }
}

} // verus!
