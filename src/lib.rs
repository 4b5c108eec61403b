// A local signing custodian: per-origin P-256 keys held by a TPM, a PKCS#11
// token, or encrypted at rest in software, and signatures made with them.

pub mod crypto;
pub mod dispatch;
pub mod pkcs11;
pub mod protocol;
pub mod secrets;
pub mod software;
pub mod tpm;
