//! The PKCS#11 token backend: slot choice, key object identifiers, the checks on
//! what the token holds, and the decoding of what it returns.
use vstd::prelude::*;
use vstd::string::{StrSliceExecFns, StringSliceAdditionalSpecFns};
use crate::protocol::{build_response, response_of, SignResp};

verus! {

/// The backend that keeps keys inside a PKCS#11 token.
pub struct Pkcs11Backend;

/// Where the token driver is expected.
pub fn get_pkcs11_impl() -> (r: Option<String>)
    ensures
        r is Some,
        r->0@ == "/run/current-system/sw/lib/libtpm2_pkcs11.so"@,
{
    Some(String::from_str("/run/current-system/sw/lib/libtpm2_pkcs11.so"))
}

/// The label this library gives the token it initialises: `tpm-ws`.
pub open spec fn token_label() -> Seq<u8> {
    seq![116u8, 112u8, 109u8, 45u8, 119u8, 115u8]
}

/// `auth-`
pub open spec fn id_prefix() -> Seq<u8> {
    seq![97u8, 117u8, 116u8, 104u8, 45u8]
}

/// `-pub`
pub open spec fn pub_suffix() -> Seq<u8> {
    seq![45u8, 112u8, 117u8, 98u8]
}

/// `-priv`
pub open spec fn priv_suffix() -> Seq<u8> {
    seq![45u8, 112u8, 114u8, 105u8, 118u8]
}

/// Which slot to use.
#[derive(Debug, Clone, Copy, PartialEq, Eq, Structural)]
pub enum SlotChoice {
    /// The slot at this index already carries the label.
    Labeled(usize),
    /// No slot carries the label: initialise the one at this index.
    Bootstrap(usize),
    /// There is no slot with a token.
    NoSlot,
}

/// Chooses among the slots with a token, given their labels in slot order:
/// the first labelled for this library, else the first slot for initialisation.
pub fn choose_slot(labels: &Vec<Vec<u8>>) -> (r: SlotChoice)
    ensures
        r matches SlotChoice::Labeled(i) ==> i < labels@.len() && labels@[i as int]@ == token_label()
            && forall|j: int| 0 <= j < i ==> labels@[j]@ != token_label(),
        r matches SlotChoice::Bootstrap(i) ==> i == 0,
        r is Bootstrap <==> labels@.len() > 0 && forall|j: int| 0 <= j < labels@.len() ==> labels@[j]@
            != token_label(),
        r is NoSlot <==> labels@.len() == 0,
{
    let label: Vec<u8> = vec![116u8, 112u8, 109u8, 45u8, 119u8, 115u8];
    assert(label@ =~= token_label());
    let mut i: usize = 0;
    while i < labels.len()
        invariant
            i <= labels@.len(),
            label@ == token_label(),
            forall|j: int| 0 <= j < i ==> labels@[j]@ != token_label(),
        decreases labels@.len() - i,
    {
        if crate::protocol::bytes_equal(&labels[i], &label) {
            return SlotChoice::Labeled(i);
        }
        i = i + 1;
    }
    if labels.len() == 0 {
        SlotChoice::NoSlot
    } else {
        SlotChoice::Bootstrap(0)
    }
}

fn append_bytes(dst: &mut Vec<u8>, src: &Vec<u8>)
    ensures
        final(dst)@ == old(dst)@ + src@,
{
    let mut i: usize = 0;
    while i < src.len()
        invariant
            i <= src@.len(),
            dst@ == old(dst)@ + src@.subrange(0, i as int),
        decreases src@.len() - i,
    {
        dst.push(src[i]);
        i = i + 1;
        assert(dst@ =~= old(dst)@ + src@.subrange(0, i as int));
    }
    assert(src@.subrange(0, src@.len() as int) =~= src@);
}

/// The identifiers of an origin's public and private key objects:
/// `auth-<origin>-pub` and `auth-<origin>-priv`.
pub fn key_object_ids(origin: &str) -> (r: (Vec<u8>, Vec<u8>))
    ensures
        r.0@ == id_prefix() + origin.spec_bytes() + pub_suffix(),
        r.1@ == id_prefix() + origin.spec_bytes() + priv_suffix(),
{
    let name = origin.as_bytes_vec();
    let mut pub_id: Vec<u8> = vec![97u8, 117u8, 116u8, 104u8, 45u8];
    assert(pub_id@ =~= id_prefix());
    let mut priv_id = pub_id.clone();
    append_bytes(&mut pub_id, &name);
    append_bytes(&mut priv_id, &name);
    let pub_suffix_bytes: Vec<u8> = vec![45u8, 112u8, 117u8, 98u8];
    let priv_suffix_bytes: Vec<u8> = vec![45u8, 112u8, 114u8, 105u8, 118u8];
    assert(pub_suffix_bytes@ =~= pub_suffix());
    assert(priv_suffix_bytes@ =~= priv_suffix());
    append_bytes(&mut pub_id, &pub_suffix_bytes);
    append_bytes(&mut priv_id, &priv_suffix_bytes);
    (pub_id, priv_id)
}

/// What the token holds is not what this library leaves there.
#[derive(Debug, Clone, Copy, PartialEq, Eq, Structural)]
pub enum TokenFault {
    /// More than one private key object carries the origin's identifier.
    DuplicatePrivateKey,
    /// The origin's public key object is missing, or not unique.
    MissingPublicKey,
    /// The token's signature is not 64 bytes `r || s`.
    BadSignature,
    /// The token's EC point is not the 67-byte encoding of a P-256 point.
    BadPoint,
}

/// What to do about the origin's key pair.
#[derive(Debug, Clone, Copy, PartialEq, Eq, Structural)]
pub enum KeyPlan {
    /// Generate a new pair under the origin's identifiers.
    Generate,
    /// Use the pair already on the token.
    Reuse,
}

/// Decides from the number of private key objects found under the origin's
/// identifier: none means generate, one means reuse, more is a fault.
pub fn plan_key(private_found: usize) -> (r: Result<KeyPlan, TokenFault>)
    ensures
        private_found == 0 <==> r == Ok::<KeyPlan, TokenFault>(KeyPlan::Generate),
        private_found == 1 <==> r == Ok::<KeyPlan, TokenFault>(KeyPlan::Reuse),
        private_found > 1 <==> r == Err::<KeyPlan, TokenFault>(TokenFault::DuplicatePrivateKey),
{
    if private_found == 0 {
        Ok(KeyPlan::Generate)
    } else if private_found == 1 {
        Ok(KeyPlan::Reuse)
    } else {
        Err(TokenFault::DuplicatePrivateKey)
    }
}

/// A reused private key needs exactly one public key object beside it.
pub fn check_public_key(public_found: usize) -> (r: Result<(), TokenFault>)
    ensures
        r is Ok <==> public_found == 1,
        r is Err ==> r->Err_0 == TokenFault::MissingPublicKey,
{
    if public_found == 1 {
        Ok(())
    } else {
        Err(TokenFault::MissingPublicKey)
    }
}

/// Decodes the token's signature `r || s` and, when asked for, its EC point:
/// a 3-byte octet-string header, then X, then Y.
pub fn token_response(signed: &Vec<u8>, point: &Option<Vec<u8>>, include_key: bool) -> (r: Result<SignResp, TokenFault>)
    ensures
        r is Ok <==> signed@.len() == 64 && (include_key ==> point is Some && point->0@.len() == 67),
        signed@.len() != 64 ==> r == Err::<SignResp, TokenFault>(TokenFault::BadSignature),
        signed@.len() == 64 && r is Err ==> r->Err_0 == TokenFault::BadPoint,
        r is Ok && include_key ==> response_of(r->Ok_0, signed@, point->0@, 3, true),
        r is Ok && !include_key ==> response_of(r->Ok_0, signed@, Seq::empty(), 3, false),
{
    if signed.len() != 64 {
        return Err(TokenFault::BadSignature);
    }
    if include_key {
        match point {
            Some(p) => {
                if p.len() != 67 {
                    return Err(TokenFault::BadPoint);
                }
                Ok(build_response(signed, p, 3, true))
            },
            None => Err(TokenFault::BadPoint),
        }
    } else {
        let empty: Vec<u8> = Vec::new();
        Ok(build_response(signed, &empty, 3, false))
    }
}

} // verus!
