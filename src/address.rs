use vstd::prelude::*;
use std::str::FromStr;
use solana_sdk::pubkey::{ParsePubkeyError, Pubkey};
use crate::error::{Field, LedgerError};

verus! {

/// The base-58 text of a 32-byte address, as the ledger writes it.
pub uninterp spec fn address_text(bytes: Seq<u8>) -> Seq<char>;

#[verifier::external_type_specification]
#[verifier::external_body]
pub struct ExParsePubkeyError(ParsePubkeyError);

/// True when `s` is the text of some 32-byte address.
pub open spec fn is_address_text(s: Seq<char>) -> bool {
    exists|b: Seq<u8>| b.len() == 32 && #[trigger] address_text(b) == s
}

/// The address whose text is `s` (meaningful when `is_address_text(s)`).
pub open spec fn address_of_text(s: Seq<char>) -> Seq<u8> {
    choose|b: Seq<u8>| b.len() == 32 && #[trigger] address_text(b) == s
}

/// Relies on `Pubkey`'s `Display` (five8 base-58 encoding of the 32 bytes).
#[verifier::external_body]
fn pubkey_to_text(bytes: &[u8; 32]) -> (r: String)
    ensures
        r@ == address_text(bytes@),
{
    Pubkey::new_from_array(*bytes).to_string()
}

/// Relies on `Pubkey::from_str`: it decodes base-58 text into 32 bytes and
/// accepts exactly the texts that `Display` writes (the count of leading '1's
/// must match the count of leading zero bytes), so a success gives the one
/// address whose text is `s`, and a failure means there is none.
#[verifier::external_body]
fn pubkey_from_text(s: &str) -> (r: Result<[u8; 32], ParsePubkeyError>)
    ensures
        r matches Ok(b) ==> address_text(b@) == s@ && forall|c: Seq<u8>|
            c.len() == 32 && #[trigger] address_text(c) == s@ ==> c == b@,
        r is Err ==> forall|c: Seq<u8>| c.len() == 32 ==> #[trigger] address_text(c) != s@,
{
    Pubkey::from_str(s).map(|p| p.to_bytes())
}

/// Parses the text of an address; `field` names the input in the error.
pub fn parse_address(s: &str, field: Field) -> (r: Result<[u8; 32], LedgerError>)
    ensures
        r is Ok <==> is_address_text(s@),
        r matches Ok(b) ==> b@ == address_of_text(s@) && address_text(b@) == s@,
        r matches Err(e) ==> e == LedgerError::InvalidAddress(field),
{
    match pubkey_from_text(s) {
        Ok(b) => {
            proof {
                assert(b@.len() == 32);
                assert(address_text(b@) == s@);
                let c = address_of_text(s@);
                assert(c.len() == 32 && address_text(c) == s@);
            }
            Ok(b)
        },
        Err(_) => Err(LedgerError::InvalidAddress(field)),
    }
}

/// The canonical text of an address.
pub fn format_address(bytes: &[u8; 32]) -> (r: String)
    ensures
        r@ == address_text(bytes@),
{
    pubkey_to_text(bytes)
}

/// Formatting a parsed address gives back the text that was parsed, and
/// parsing fails exactly on the texts that no 32-byte address is written as.
pub proof fn lemma_address_round_trip(s: Seq<char>)
    ensures
        is_address_text(s) ==> address_text(address_of_text(s)) == s
            && address_of_text(s).len() == 32,
        !is_address_text(s) ==> forall|b: Seq<u8>| b.len() == 32 ==> #[trigger] address_text(b) != s,
{
}

/// Parsing the text of a 32-byte address succeeds.
pub proof fn lemma_formatted_address_parses(b: Seq<u8>)
    requires
        b.len() == 32,
    ensures
        is_address_text(address_text(b)),
{
}

} // verus!
