//! Error types.

use vstd::prelude::*;
use crate::text::{append_str, string_from};

verus! {

/// The error of the library's core operations. Errors that come from I/O or
/// from serialization carry the message of the underlying error.
#[derive(Debug, Clone)]
pub enum KvmError {
    Io(String),
    Serialization(String),
    Network(String),
    Security(String),
    Video(String),
    Input(String),
    Service(String),
    Discovery(String),
    Config(String),
    Platform(String),
    Protocol(String),
    Timeout,
    GenericError(String),
}

/// The result of the library's core operations.
pub type KvmResult<T> = Result<T, KvmError>;

/// The text of an error, as its `Display` writes it.
pub open spec fn kvm_error_text(e: KvmError) -> Seq<char> {
    match e {
        KvmError::Io(m) => "I/O error: "@ + m@,
        KvmError::Serialization(m) => "Serialization error: "@ + m@,
        KvmError::Network(m) => "Network error: "@ + m@,
        KvmError::Security(m) => "Security error: "@ + m@,
        KvmError::Video(m) => "Video error: "@ + m@,
        KvmError::Input(m) => "Input error: "@ + m@,
        KvmError::Service(m) => "Service error: "@ + m@,
        KvmError::Discovery(m) => "Discovery error: "@ + m@,
        KvmError::Config(m) => "Configuration error: "@ + m@,
        KvmError::Platform(m) => "Platform error: "@ + m@,
        KvmError::Protocol(m) => "Protocol error: "@ + m@,
        KvmError::Timeout => "Timeout error"@,
        KvmError::GenericError(m) => "Generic error: "@ + m@,
    }
}

impl KvmError {
    /// The error's text (see `kvm_error_text`).
    pub fn to_text(&self) -> (r: String)
        ensures
            r@ == kvm_error_text(*self),
    {
        let (head, tail) = match self {
            KvmError::Io(m) => ("I/O error: ", m.as_str()),
            KvmError::Serialization(m) => ("Serialization error: ", m.as_str()),
            KvmError::Network(m) => ("Network error: ", m.as_str()),
            KvmError::Security(m) => ("Security error: ", m.as_str()),
            KvmError::Video(m) => ("Video error: ", m.as_str()),
            KvmError::Input(m) => ("Input error: ", m.as_str()),
            KvmError::Service(m) => ("Service error: ", m.as_str()),
            KvmError::Discovery(m) => ("Discovery error: ", m.as_str()),
            KvmError::Config(m) => ("Configuration error: ", m.as_str()),
            KvmError::Platform(m) => ("Platform error: ", m.as_str()),
            KvmError::Protocol(m) => ("Protocol error: ", m.as_str()),
            KvmError::Timeout => ("Timeout error", ""),
            KvmError::GenericError(m) => ("Generic error: ", m.as_str()),
        };
        let mut t = string_from(head);
        append_str(&mut t, tail);
        proof {
            reveal_strlit("");
        }
        assert(t@ =~= kvm_error_text(*self));
        t
    }
}

} // verus!
