use vstd::prelude::*;
use vstd::string::StrSliceExecFns;
use base58::{FromBase58, FromBase58Error, ToBase58};
use base64::engine::general_purpose::STANDARD;
use base64::{DecodeError, Engine};
use crate::error::LedgerError;

verus! {

/// Standard base-64 text (with padding) of a byte string.
pub uninterp spec fn base64_text(bytes: Seq<u8>) -> Seq<char>;

/// Base-58 text of a byte string, as the `base58` crate writes it.
pub uninterp spec fn base58_text(bytes: Seq<u8>) -> Seq<char>;

/// Longest secret text considered: 64 bytes never take more base-58 digits.
pub const MAX_SECRET_TEXT_LEN: usize = 88;

#[verifier::external_type_specification]
#[verifier::external_body]
pub struct ExDecodeError(DecodeError);

#[verifier::external_type_specification]
#[verifier::external_body]
pub struct ExFromBase58Error(FromBase58Error);

/// True when `s` is the base-64 text of some byte string.
pub open spec fn is_base64_text(s: Seq<char>) -> bool {
    exists|b: Seq<u8>| #[trigger] base64_text(b) == s
}

/// True when `s` is the base-58 text of some 64-byte string.
pub open spec fn is_secret_text(s: Seq<char>) -> bool {
    exists|b: Seq<u8>| b.len() == 64 && #[trigger] base58_text(b) == s
}

/// The byte string whose base-64 text is `s` (meaningful when `is_base64_text(s)`).
pub open spec fn payload_of_text(s: Seq<char>) -> Seq<u8> {
    choose|b: Seq<u8>| #[trigger] base64_text(b) == s
}

/// The 64 bytes whose base-58 text is `s` (meaningful when `is_secret_text(s)`).
pub open spec fn secret_of_text(s: Seq<char>) -> Seq<u8> {
    choose|b: Seq<u8>| b.len() == 64 && #[trigger] base58_text(b) == s
}

/// Relies on `base64`'s `STANDARD` engine `encode`.
#[verifier::external_body]
fn base64_encode(bytes: &[u8]) -> (r: String)
    ensures
        r@ == base64_text(bytes@),
{
    STANDARD.encode(bytes)
}

/// Relies on `base64`'s `STANDARD` engine `decode`: its configuration requires
/// canonical padding and no trailing bits, so it accepts exactly the texts
/// that `encode` writes and returns the one byte string written as `s`.
#[verifier::external_body]
fn base64_decode(s: &str) -> (r: Result<Vec<u8>, DecodeError>)
    ensures
        r matches Ok(v) ==> base64_text(v@) == s@ && forall|w: Seq<u8>|
            #[trigger] base64_text(w) == s@ ==> w == v@,
        r is Err ==> forall|w: Seq<u8>| #[trigger] base64_text(w) != s@,
{
    STANDARD.decode(s)
}

/// Relies on `base58::ToBase58::to_base58`.
#[verifier::external_body]
fn base58_encode(bytes: &[u8]) -> (r: String)
    ensures
        r@ == base58_text(bytes@),
{
    bytes.to_base58()
}

/// Relies on `base58::FromBase58::from_base58`: leading '1's become leading
/// zero bytes and the rest is read as one base-58 number, so a success gives
/// the one byte string written as `s`; a failure (a character outside the
/// alphabet) means there is none. On texts of at most 88 characters the
/// number fits the crate's 132-byte buffer, so the function neither
/// overflows nor panics there.
#[verifier::external_body]
fn base58_decode(s: &str) -> (r: Result<Vec<u8>, FromBase58Error>)
    requires
        s@.len() <= MAX_SECRET_TEXT_LEN,
    ensures
        r matches Ok(v) ==> base58_text(v@) == s@ && forall|w: Seq<u8>|
            #[trigger] base58_text(w) == s@ ==> w == v@,
        r is Err ==> forall|w: Seq<u8>| #[trigger] base58_text(w) != s@,
{
    s.from_base58()
}

/// Payload codec: the standard base-64 text of instruction data or a signature.
pub fn encode_payload(bytes: &[u8]) -> (r: String)
    ensures
        r@ == base64_text(bytes@),
{
    base64_encode(bytes)
}

/// Payload codec: decodes standard base-64 text.
pub fn decode_payload(s: &str) -> (r: Result<Vec<u8>, LedgerError>)
    ensures
        r is Ok <==> is_base64_text(s@),
        r matches Ok(v) ==> base64_text(v@) == s@ && v@ == payload_of_text(s@),
        r matches Err(e) ==> e == LedgerError::InvalidEncoding,
{
    match base64_decode(s) {
        Ok(v) => {
            proof {
                let c = payload_of_text(s@);
                assert(base64_text(c) == s@);
            }
            Ok(v)
        },
        Err(_) => Err(LedgerError::InvalidEncoding),
    }
}

/// Secret codec: the base-58 text of raw keypair bytes.
pub fn encode_secret(bytes: &[u8]) -> (r: String)
    ensures
        r@ == base58_text(bytes@),
{
    base58_encode(bytes)
}

/// Secret codec: decodes the base-58 text of 64 raw keypair bytes.
pub fn decode_secret(s: &str) -> (r: Result<Vec<u8>, LedgerError>)
    ensures
        r is Ok <==> s@.len() <= MAX_SECRET_TEXT_LEN && is_secret_text(s@),
        r matches Ok(v) ==> v@.len() == 64 && base58_text(v@) == s@ && v@ == secret_of_text(s@),
        r matches Err(e) ==> e == LedgerError::InvalidSecretEncoding,
{
    if s.unicode_len() > MAX_SECRET_TEXT_LEN {
        return Err(LedgerError::InvalidSecretEncoding);
    }
    match base58_decode(s) {
        Ok(v) => {
            if v.len() == 64 {
                proof {
                    let c = secret_of_text(s@);
                    assert(c.len() == 64 && base58_text(c) == s@);
                }
                Ok(v)
            } else {
                Err(LedgerError::InvalidSecretEncoding)
            }
        },
        Err(_) => Err(LedgerError::InvalidSecretEncoding),
    }
}

} // verus!
