//! Choosing the backend at startup and checking each request before it reaches it.
use vstd::prelude::*;
use vstd::string::StrSliceExecFns;
use crate::pkcs11::Pkcs11Backend;
use crate::protocol::{Resp, SignMsg};
use crate::software::SoftwareBackend;
use crate::tpm::TpmBackend;

verus! {

/// Whether `c` may appear in an origin: an ASCII letter, an ASCII digit or a dot.
pub open spec fn origin_char_ok(c: char) -> bool {
    ('a' <= c && c <= 'z') || ('A' <= c && c <= 'Z') || ('0' <= c && c <= '9') || c == '.'
}

/// An origin is valid when each of its characters is.
pub open spec fn valid_origin(origin: Seq<char>) -> bool {
    forall|i: int| 0 <= i < origin.len() ==> origin_char_ok(#[trigger] origin[i])
}

/// Whether every character of `origin` is an ASCII alphanumeric or a dot.
pub fn is_valid_origin(origin: &str) -> (r: bool)
    ensures
        r == valid_origin(origin@),
{
    let n = origin.unicode_len();
    let mut i: usize = 0;
    while i < n
        invariant
            n == origin@.len(),
            i <= n,
            forall|j: int| 0 <= j < i ==> origin_char_ok(#[trigger] origin@[j]),
        decreases n - i,
    {
        let c = origin.get_char(i);
        let ok = ('a' <= c && c <= 'z') || ('A' <= c && c <= 'Z') || ('0' <= c && c <= '9') || c == '.';
        if !ok {
            assert(!origin_char_ok(origin@[i as int]));
            return false;
        }
        i = i + 1;
    }
    true
}

/// The three kinds of backend.
#[derive(Debug, Clone, Copy, PartialEq, Eq, Structural)]
pub enum BackendKind {
    Tpm,
    Pkcs11,
    Software,
}

/// The backend committed to for the life of the process.
pub enum SelectedBackend {
    Tpm(TpmBackend),
    Pkcs11(Pkcs11Backend),
    Software(SoftwareBackend),
}

impl SelectedBackend {
    pub open spec fn kind_of(&self) -> BackendKind {
        match self {
            SelectedBackend::Tpm(_) => BackendKind::Tpm,
            SelectedBackend::Pkcs11(_) => BackendKind::Pkcs11,
            SelectedBackend::Software(_) => BackendKind::Software,
        }
    }

    /// Which kind of backend this is.
    pub fn kind(&self) -> (r: BackendKind)
        ensures
            r == self.kind_of(),
    {
        match self {
            SelectedBackend::Tpm(_) => BackendKind::Tpm,
            SelectedBackend::Pkcs11(_) => BackendKind::Pkcs11,
            SelectedBackend::Software(_) => BackendKind::Software,
        }
    }
}

/// Picks the first supported backend in the order hardware module, token,
/// software; `None` when no probe succeeded.
pub fn select_backend(tpm_supported: bool, pkcs11_supported: bool, software_supported: bool) -> (r: Option<
    SelectedBackend,
>)
    ensures
        r is Some <==> (tpm_supported || pkcs11_supported || software_supported),
        tpm_supported ==> r is Some && r->0.kind_of() == BackendKind::Tpm,
        !tpm_supported && pkcs11_supported ==> r is Some && r->0.kind_of() == BackendKind::Pkcs11,
        !tpm_supported && !pkcs11_supported && software_supported ==> r is Some && r->0.kind_of()
            == BackendKind::Software,
{
    if tpm_supported {
        Some(SelectedBackend::Tpm(TpmBackend))
    } else if pkcs11_supported {
        Some(SelectedBackend::Pkcs11(Pkcs11Backend))
    } else if software_supported {
        Some(SelectedBackend::Software(SoftwareBackend))
    } else {
        None
    }
}

/// The message sent back for a request whose origin is malformed.
pub open spec fn invalid_origin_message() -> Seq<char> {
    "sign origin must be ascii alphanumeric"@
}

/// Checks a request: it goes to the committed backend only when its origin is
/// valid; otherwise the error response to send instead.
pub fn dispatch(msg: &SignMsg, backend: &SelectedBackend) -> (r: Result<BackendKind, Resp>)
    ensures
        r is Ok <==> valid_origin(msg.origin@),
        r is Ok ==> r->Ok_0 == backend.kind_of(),
        r is Err ==> r->Err_0 is Error && r->Err_0->Error_0@ == invalid_origin_message(),
{
    if is_valid_origin(msg.origin.as_str()) {
        Ok(backend.kind())
    } else {
        Err(Resp::Error(String::from_str("sign origin must be ascii alphanumeric")))
    }
}

} // verus!
