use vstd::prelude::*;
use vstd::string::StringSliceAdditionalSpecFns;
use crate::address::{address_of_text, address_text, format_address, is_address_text, parse_address};
use crate::codec::{
    base58_text, base64_text, decode_payload, decode_secret, encode_payload, encode_secret,
    is_base64_text, is_secret_text, payload_of_text, secret_of_text, MAX_SECRET_TEXT_LEN,
};
use crate::error::{Field, LedgerError};
use crate::instruction::{
    initialize_mint, initialize_mint_model, mint_to, mint_to_model, native_transfer,
    native_transfer_model, token_transfer, token_transfer_model, Instruction, InstructionModel,
};
use crate::keys::{
    ed25519_signature, keypair_consistent, public_of, seed_of, signature_verifies, verify, KeyPair,
};

verus! {

/// An account of an instruction, with its address as text.
pub struct AccountMetaText {
    pub pubkey: String,
    pub is_signer: bool,
    pub is_writable: bool,
}

/// An instruction as it is handed to a client: program and account
/// addresses as text, payload in base-64.
pub struct InstructionResponse {
    pub program_id: String,
    pub accounts: Vec<AccountMetaText>,
    pub instruction_data: String,
}

/// A new keypair: the public address and the base-58 text of the 64 secret bytes.
pub struct KeypairResponse {
    pub pubkey: String,
    pub secret: String,
}

/// A signature in base-64 with the signer's address and the signed message.
pub struct SignMessageResponse {
    pub signature: String,
    pub public_key: String,
    pub message: String,
}

/// The outcome of checking a signature.
pub struct VerifyMessageResponse {
    pub valid: bool,
    pub message: String,
    pub pubkey: String,
}

/// `resp` is the textual form of the instruction `m`.
pub open spec fn describes(resp: InstructionResponse, m: InstructionModel) -> bool {
    &&& resp.program_id@ == address_text(m.program_id)
    &&& resp.accounts@.len() == m.accounts.len()
    &&& forall|i: int| 0 <= i < m.accounts.len() ==> {
        let a = #[trigger] resp.accounts@[i];
        &&& a.pubkey@ == address_text(m.accounts[i].0)
        &&& a.is_signer == m.accounts[i].1
        &&& a.is_writable == m.accounts[i].2
    }
    &&& resp.instruction_data@ == base64_text(m.data)
}

/// The textual form of an instruction.
pub fn describe_instruction(ix: &Instruction) -> (r: InstructionResponse)
    ensures
        describes(r, ix@),
{
    let mut accounts: Vec<AccountMetaText> = Vec::new();
    let mut i: usize = 0;
    while i < ix.accounts.len()
        invariant
            i <= ix.accounts@.len(),
            accounts@.len() == i,
            forall|j: int| 0 <= j < i ==> {
                let a = #[trigger] accounts@[j];
                &&& a.pubkey@ == address_text(ix@.accounts[j].0)
                &&& a.is_signer == ix@.accounts[j].1
                &&& a.is_writable == ix@.accounts[j].2
            },
        decreases ix.accounts@.len() - i,
    {
        let meta = &ix.accounts[i];
        accounts.push(AccountMetaText {
            pubkey: format_address(&meta.pubkey),
            is_signer: meta.is_signer,
            is_writable: meta.is_writable,
        });
        i = i + 1;
    }
    InstructionResponse {
        program_id: format_address(&ix.program_id),
        accounts,
        instruction_data: encode_payload(ix.data.as_slice()),
    }
}

/// Generates a fresh keypair and returns its address and secret text.
pub fn generate_keypair() -> (r: KeypairResponse)
    ensures
        exists|sk: Seq<u8>| #[trigger] keypair_consistent(sk)
            && r.pubkey@ == address_text(public_of(sk))
            && r.secret@ == base58_text(sk),
{
    let k = KeyPair::generate();
    let public = k.public_key();
    let bytes = k.to_bytes();
    let r = KeypairResponse { pubkey: format_address(&public), secret: encode_secret(bytes.as_slice()) };
    assert(keypair_consistent(k@));
    r
}

/// Parses the two addresses and builds "initialize mint" for `mint` with
/// authority `mint_authority`.
pub fn create_token(mint_authority: &str, mint: &str, decimals: u8) -> (r: Result<InstructionResponse, LedgerError>)
    ensures
        !is_address_text(mint_authority@) ==> r == Err::<InstructionResponse, LedgerError>(
            LedgerError::InvalidAddress(Field::MintAuthority)),
        is_address_text(mint_authority@) && !is_address_text(mint@) ==> r == Err::<InstructionResponse, LedgerError>(
            LedgerError::InvalidAddress(Field::Mint)),
        is_address_text(mint_authority@) && is_address_text(mint@) ==> (r matches Ok(resp)
            && describes(resp, initialize_mint_model(address_of_text(mint@), address_of_text(mint_authority@), decimals))),
{
    let authority = match parse_address(mint_authority, Field::MintAuthority) {
        Ok(a) => a,
        Err(e) => return Err(e),
    };
    let mint = match parse_address(mint, Field::Mint) {
        Ok(a) => a,
        Err(e) => return Err(e),
    };
    match initialize_mint(&mint, &authority, decimals) {
        Ok(ix) => Ok(describe_instruction(&ix)),
        Err(e) => Err(e),
    }
}

/// Parses the three addresses and builds "mint to" of `amount` tokens.
pub fn mint_token(mint: &str, destination: &str, authority: &str, amount: u64) -> (r: Result<InstructionResponse, LedgerError>)
    ensures
        !is_address_text(mint@) ==> r == Err::<InstructionResponse, LedgerError>(
            LedgerError::InvalidAddress(Field::Mint)),
        is_address_text(mint@) && !is_address_text(destination@) ==> r == Err::<InstructionResponse, LedgerError>(
            LedgerError::InvalidAddress(Field::Destination)),
        is_address_text(mint@) && is_address_text(destination@) && !is_address_text(authority@)
            ==> r == Err::<InstructionResponse, LedgerError>(LedgerError::InvalidAddress(Field::Authority)),
        is_address_text(mint@) && is_address_text(destination@) && is_address_text(authority@)
            ==> (r matches Ok(resp) && describes(resp, mint_to_model(address_of_text(mint@),
                address_of_text(destination@), address_of_text(authority@), amount))),
{
    let mint = match parse_address(mint, Field::Mint) {
        Ok(a) => a,
        Err(e) => return Err(e),
    };
    let destination = match parse_address(destination, Field::Destination) {
        Ok(a) => a,
        Err(e) => return Err(e),
    };
    let authority = match parse_address(authority, Field::Authority) {
        Ok(a) => a,
        Err(e) => return Err(e),
    };
    match mint_to(&mint, &destination, &authority, amount) {
        Ok(ix) => Ok(describe_instruction(&ix)),
        Err(e) => Err(e),
    }
}

/// Parses the addresses and builds the token "transfer" of `amount` from the
/// account `owner` (which also signs) to `destination`; `mint` is checked
/// but takes no part in the instruction.
pub fn send_token(destination: &str, mint: &str, owner: &str, amount: u64) -> (r: Result<InstructionResponse, LedgerError>)
    ensures
        !is_address_text(destination@) ==> r == Err::<InstructionResponse, LedgerError>(
            LedgerError::InvalidAddress(Field::Destination)),
        is_address_text(destination@) && !is_address_text(mint@) ==> r == Err::<InstructionResponse, LedgerError>(
            LedgerError::InvalidAddress(Field::Mint)),
        is_address_text(destination@) && is_address_text(mint@) && !is_address_text(owner@)
            ==> r == Err::<InstructionResponse, LedgerError>(LedgerError::InvalidAddress(Field::Owner)),
        is_address_text(destination@) && is_address_text(mint@) && is_address_text(owner@)
            ==> (r matches Ok(resp) && describes(resp, token_transfer_model(address_of_text(owner@),
                address_of_text(destination@), address_of_text(owner@), amount))),
{
    let destination = match parse_address(destination, Field::Destination) {
        Ok(a) => a,
        Err(e) => return Err(e),
    };
    let _mint = match parse_address(mint, Field::Mint) {
        Ok(a) => a,
        Err(e) => return Err(e),
    };
    let owner = match parse_address(owner, Field::Owner) {
        Ok(a) => a,
        Err(e) => return Err(e),
    };
    match token_transfer(&owner, &destination, amount) {
        Ok(ix) => Ok(describe_instruction(&ix)),
        Err(e) => Err(e),
    }
}

/// Parses the two addresses and builds the system transfer of `lamports`.
pub fn send_sol(from: &str, to: &str, lamports: u64) -> (r: Result<InstructionResponse, LedgerError>)
    ensures
        !is_address_text(from@) ==> r == Err::<InstructionResponse, LedgerError>(
            LedgerError::InvalidAddress(Field::Sender)),
        is_address_text(from@) && !is_address_text(to@) ==> r == Err::<InstructionResponse, LedgerError>(
            LedgerError::InvalidAddress(Field::Recipient)),
        is_address_text(from@) && is_address_text(to@) ==> (r matches Ok(resp)
            && describes(resp, native_transfer_model(address_of_text(from@), address_of_text(to@), lamports))),
{
    let from = match parse_address(from, Field::Sender) {
        Ok(a) => a,
        Err(e) => return Err(e),
    };
    let to = match parse_address(to, Field::Recipient) {
        Ok(a) => a,
        Err(e) => return Err(e),
    };
    let ix = native_transfer(&from, &to, lamports);
    Ok(describe_instruction(&ix))
}

/// Signs the UTF-8 bytes of `message` with the keypair whose 64 bytes are
/// written in base-58 as `secret`.
pub fn sign_message(message: &str, secret: &str) -> (r: Result<SignMessageResponse, LedgerError>)
    ensures
        message@.len() == 0 ==> r == Err::<SignMessageResponse, LedgerError>(
            LedgerError::InvalidRequest(Field::Message)),
        message@.len() != 0 && secret@.len() == 0 ==> r == Err::<SignMessageResponse, LedgerError>(
            LedgerError::InvalidRequest(Field::Secret)),
        message@.len() != 0 && secret@.len() != 0 && !(secret@.len() <= MAX_SECRET_TEXT_LEN
            && is_secret_text(secret@)) ==> r == Err::<SignMessageResponse, LedgerError>(
            LedgerError::InvalidSecretEncoding),
        message@.len() != 0 && secret@.len() != 0 && secret@.len() <= MAX_SECRET_TEXT_LEN
            && is_secret_text(secret@) ==> {
            let sk = secret_of_text(secret@);
            &&& !keypair_consistent(sk) ==> r == Err::<SignMessageResponse, LedgerError>(
                LedgerError::InvalidKeypair)
            &&& keypair_consistent(sk) ==> (r matches Ok(resp)
                && resp.signature@ == base64_text(ed25519_signature(seed_of(sk), message.spec_bytes()))
                && resp.public_key@ == address_text(public_of(sk))
                && resp.message@ == message@)
        },
{
    if message.is_empty() {
        return Err(LedgerError::InvalidRequest(Field::Message));
    }
    if secret.is_empty() {
        return Err(LedgerError::InvalidRequest(Field::Secret));
    }
    let bytes = match decode_secret(secret) {
        Ok(b) => b,
        Err(e) => return Err(e),
    };
    let k = match KeyPair::from_secret_bytes(bytes.as_slice()) {
        Ok(k) => k,
        Err(e) => return Err(e),
    };
    let signature = k.sign(message.as_bytes());
    let public = k.public_key();
    Ok(SignMessageResponse {
        signature: encode_payload(&signature),
        public_key: format_address(&public),
        message: message.to_owned(),
    })
}

/// Checks a base-64 signature of the UTF-8 bytes of `message` against the
/// address `pubkey`.
pub fn verify_message(message: &str, signature: &str, pubkey: &str) -> (r: Result<VerifyMessageResponse, LedgerError>)
    ensures
        !is_address_text(pubkey@) ==> r == Err::<VerifyMessageResponse, LedgerError>(
            LedgerError::InvalidAddress(Field::PublicKey)),
        is_address_text(pubkey@) && !is_base64_text(signature@) ==> r == Err::<VerifyMessageResponse, LedgerError>(
            LedgerError::InvalidEncoding),
        is_address_text(pubkey@) && is_base64_text(signature@) && payload_of_text(signature@).len() != 64
            ==> r == Err::<VerifyMessageResponse, LedgerError>(LedgerError::InvalidSignatureFormat),
        is_address_text(pubkey@) && is_base64_text(signature@) && payload_of_text(signature@).len() == 64
            ==> (r matches Ok(resp)
            && resp.valid == signature_verifies(payload_of_text(signature@), address_of_text(pubkey@), message.spec_bytes())
            && resp.message@ == message@
            && resp.pubkey@ == pubkey@),
{
    let public = match parse_address(pubkey, Field::PublicKey) {
        Ok(a) => a,
        Err(e) => return Err(e),
    };
    let sig = match decode_payload(signature) {
        Ok(s) => s,
        Err(e) => return Err(e),
    };
    let valid = match verify(&public, message.as_bytes(), sig.as_slice()) {
        Ok(v) => v,
        Err(e) => return Err(e),
    };
    Ok(VerifyMessageResponse { valid, message: message.to_owned(), pubkey: format_address(&public) })
}

} // verus!
