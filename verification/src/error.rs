//! The service's error taxonomy.
//!
//! Admission-time validation failures are recorded on the transaction record
//! (as `error_text`), not thrown; `RecordNotFound` is a normal control-flow
//! outcome for existence checks and is distinguished from internal errors.
use vstd::prelude::*;

verus! {

#[derive(Debug)]
pub enum ServiceError {
    InvalidMethod(String),
    InvalidEncryption(String),
    NoEncryptionType,
    NotSupportedEncryptionType(String),
    InvalidOwner(String),
    InvalidSignature(String),
    NoProgramId,
    RecordFound(String),
    RecordNotFound(String),
    InvalidDataFormatForMethodType(String),
    InternalError(String),
}

impl ServiceError {
    /// The message recorded on a failed transaction for this error.
    pub open spec fn spec_text(&self) -> Seq<char> {
        match self {
            ServiceError::InvalidMethod(m) => "invalid method: "@ + m@,
            ServiceError::InvalidEncryption(k) => "invalid encryption: "@ + k@,
            ServiceError::NoEncryptionType => "no encryption type"@,
            ServiceError::NotSupportedEncryptionType(t) => "not supported encryption type: "@ + t@,
            ServiceError::InvalidOwner(m) => "invalid owner: "@ + m@,
            ServiceError::InvalidSignature(m) => "invalid signature: "@ + m@,
            ServiceError::NoProgramId => "no program id"@,
            ServiceError::RecordFound(m) => "record found: "@ + m@,
            ServiceError::RecordNotFound(m) => "record not found: "@ + m@,
            ServiceError::InvalidDataFormatForMethodType(m) => "invalid data format for method type: "@ + m@,
            ServiceError::InternalError(m) => "internal error: "@ + m@,
        }
    }

    pub fn text(&self) -> (r: String)
        ensures
            r@ == self.spec_text(),
    {
        match self {
            ServiceError::InvalidMethod(m) => String::from_str("invalid method: ").concat(m.as_str()),
            ServiceError::InvalidEncryption(k) => String::from_str("invalid encryption: ").concat(k.as_str()),
            ServiceError::NoEncryptionType => String::from_str("no encryption type"),
            ServiceError::NotSupportedEncryptionType(t) => String::from_str("not supported encryption type: ").concat(t.as_str()),
            ServiceError::InvalidOwner(m) => String::from_str("invalid owner: ").concat(m.as_str()),
            ServiceError::InvalidSignature(m) => String::from_str("invalid signature: ").concat(m.as_str()),
            ServiceError::NoProgramId => String::from_str("no program id"),
            ServiceError::RecordFound(m) => String::from_str("record found: ").concat(m.as_str()),
            ServiceError::RecordNotFound(m) => String::from_str("record not found: ").concat(m.as_str()),
            ServiceError::InvalidDataFormatForMethodType(m) => String::from_str("invalid data format for method type: ").concat(m.as_str()),
            ServiceError::InternalError(m) => String::from_str("internal error: ").concat(m.as_str()),
        }
    }
}

} // verus!
