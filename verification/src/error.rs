//! The failures the operations report.

use vstd::prelude::*;

verus! {

/// Why an operation produced no output.
#[derive(Clone, Copy, Debug, PartialEq, Eq, Structural)]
pub enum HashError {
    /// The keyed-hash primitive reported failure.
    Primitive,
    /// The key handed to the HMAC construction is not `KEY_SIZE` bytes long.
    KeySize,
}

impl HashError {
    /// The text that describes the failure.
    pub open spec fn description(self) -> Seq<char> {
        match self {
            HashError::Primitive => "error in the keyed hash primitive crypto_generichash"@,
            HashError::KeySize => "the key of an HMAC must be 32 bytes long"@,
        }
    }

    /// A human-readable description of the failure, naming the operation
    /// that failed.
    pub fn describe(&self) -> (text: &'static str)
        ensures
            text@ == self.description(),
    {
        match self {
            HashError::Primitive => "error in the keyed hash primitive crypto_generichash",
            HashError::KeySize => "the key of an HMAC must be 32 bytes long",
        }
    }
}

} // verus!
