//! Provisioning of the per-origin 32-byte secrets kept in the platform secret store.
use vstd::prelude::*;

verus! {

/// The secret store holds what this library cannot accept.
#[derive(Debug, Clone, Copy, PartialEq, Eq, Structural)]
pub enum SecretFault {
    /// More than one item matches the origin and purpose.
    Duplicate,
    /// The stored secret is not 32 bytes long.
    WrongLength,
}

/// What provisioning yields from the secrets found for an `(origin, purpose)`
/// and a freshly drawn one: the secret to use and whether it must be stored.
pub open spec fn provision(found: Seq<Seq<u8>>, fresh: Seq<u8>) -> Result<(Seq<u8>, bool), SecretFault> {
    if found.len() == 0 {
        Ok((fresh, true))
    } else if found.len() == 1 {
        if found[0].len() == 32 {
            Ok((found[0], false))
        } else {
            Err(SecretFault::WrongLength)
        }
    } else {
        Err(SecretFault::Duplicate)
    }
}

/// The matching secrets once a provisioning outcome has been stored.
pub open spec fn stored_after(found: Seq<Seq<u8>>, outcome: Result<(Seq<u8>, bool), SecretFault>) -> Seq<Seq<u8>> {
    match outcome {
        Ok((s, true)) => found.push(s),
        _ => found,
    }
}

/// Decides the secret for an origin and purpose from the matching items of the
/// store: none means `fresh` is used and must be stored, one is used as it is,
/// more is a fault.
pub fn provide_secret(found: &Vec<Vec<u8>>, fresh: &Vec<u8>) -> (r: Result<(Vec<u8>, bool), SecretFault>)
    requires
        fresh@.len() == 32,
    ensures
        r is Ok ==> r->Ok_0.0@.len() == 32,
        match provision(found@.map_values(|v: Vec<u8>| v@), fresh@) {
            Ok((s, create)) => r is Ok && r->Ok_0.0@ == s && r->Ok_0.1 == create,
            Err(e) => r == Err::<(Vec<u8>, bool), SecretFault>(e),
        },
{
    if found.len() == 0 {
        Ok((fresh.clone(), true))
    } else if found.len() == 1 {
        if found[0].len() == 32 {
            Ok((found[0].clone(), false))
        } else {
            Err(SecretFault::WrongLength)
        }
    } else {
        Err(SecretFault::Duplicate)
    }
}

/// Provisioning is idempotent: once the outcome of a first request is stored, a
/// second request for the same origin and purpose returns the same secret and
/// stores nothing, whatever fresh value it draws.
pub proof fn lemma_provision_idempotent(found: Seq<Seq<u8>>, fresh1: Seq<u8>, fresh2: Seq<u8>)
    requires
        fresh1.len() == 32,
        provision(found, fresh1) is Ok,
    ensures
        provision(stored_after(found, provision(found, fresh1)), fresh2) == Ok::<(Seq<u8>, bool), SecretFault>(
            (provision(found, fresh1)->Ok_0.0, false),
        ),
{
    if found.len() == 0 {
        let after = stored_after(found, provision(found, fresh1));
        assert(after =~= seq![fresh1]);
    }
}

} // verus!
