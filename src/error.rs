use vstd::prelude::*;

verus! {

/// The request field that an error refers to.
#[derive(Clone, Copy, Debug, PartialEq, Eq, Structural)]
pub enum Field {
    Mint,
    MintAuthority,
    Destination,
    Authority,
    Owner,
    Sender,
    Recipient,
    PublicKey,
    Message,
    Secret,
}

/// Every way in which an operation of this library can fail.
#[derive(Clone, Copy, Debug, PartialEq, Eq, Structural)]
pub enum LedgerError {
    /// The text of the given field is not the text of a 32-byte address.
    InvalidAddress(Field),
    /// The payload text is not canonical standard base-64.
    InvalidEncoding,
    /// The secret text is not base-58, or does not decode to 64 bytes.
    InvalidSecretEncoding,
    /// The 64 secret bytes do not form a consistent keypair.
    InvalidKeypair,
    /// The signature bytes are not 64 bytes long.
    InvalidSignatureFormat,
    /// A required field of the request is missing or empty.
    InvalidRequest(Field),
    /// The instruction layout refused its parameters.
    InstructionBuildFailure,
}

impl Field {
    /// A human-readable name of the field.
    pub fn name(&self) -> (r: &'static str) {
        match self {
            Field::Mint => "mint",
            Field::MintAuthority => "mint authority",
            Field::Destination => "destination",
            Field::Authority => "authority",
            Field::Owner => "owner",
            Field::Sender => "sender",
            Field::Recipient => "recipient",
            Field::PublicKey => "public key",
            Field::Message => "message",
            Field::Secret => "secret",
        }
    }
}

impl LedgerError {
    /// A human-readable cause of the error.
    pub fn message(&self) -> (r: String) {
        match self {
            LedgerError::InvalidAddress(f) => {
                let mut s = String::from_str("Invalid ");
                s.append(f.name());
                s.append(" address");
                s
            },
            LedgerError::InvalidEncoding => String::from_str("Invalid base64 encoding"),
            LedgerError::InvalidSecretEncoding => String::from_str("Invalid base58 secret key"),
            LedgerError::InvalidKeypair => String::from_str("Invalid keypair bytes"),
            LedgerError::InvalidSignatureFormat => String::from_str("Invalid signature format"),
            LedgerError::InvalidRequest(f) => {
                let mut s = String::from_str("Missing required field: ");
                s.append(f.name());
                s
            },
            LedgerError::InstructionBuildFailure => String::from_str("Failed to build instruction"),
        }
    }
}

} // verus!
