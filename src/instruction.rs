use vstd::prelude::*;
use vstd::arithmetic::power2::pow2;
use solana_sdk::pubkey::Pubkey;
use crate::error::LedgerError;

verus! {

/// One account of an instruction: its address and what the runtime may do
/// with it.
pub struct AccountRef {
    pub pubkey: [u8; 32],
    pub is_signer: bool,
    pub is_writable: bool,
}

/// An instruction for a ledger program: the program, its accounts in their
/// fixed order, and the packed payload.
pub struct Instruction {
    pub program_id: [u8; 32],
    pub accounts: Vec<AccountRef>,
    pub data: Vec<u8>,
}

/// An account reference as (address, is-signer, is-writable).
pub type AccountModel = (Seq<u8>, bool, bool);

/// The mathematical value of an instruction.
pub struct InstructionModel {
    pub program_id: Seq<u8>,
    pub accounts: Seq<AccountModel>,
    pub data: Seq<u8>,
}

impl View for AccountRef {
    type V = AccountModel;

    open spec fn view(&self) -> AccountModel {
        (self.pubkey@, self.is_signer, self.is_writable)
    }
}

impl View for Instruction {
    type V = InstructionModel;

    open spec fn view(&self) -> InstructionModel {
        InstructionModel {
            program_id: self.program_id@,
            accounts: self.accounts@.map_values(|a: AccountRef| a@),
            data: self.data@,
        }
    }
}

/// Address of the token program, `TokenkegQfeZyiNwAJbNbGKPFXCWuBvf9Ss623VQ5DA`.
pub open spec fn token_program_id() -> Seq<u8> {
    seq![
        6u8, 221, 246, 225, 215, 101, 161, 147, 217, 203, 225, 70, 206, 235, 121, 172,
        28, 180, 133, 237, 95, 91, 55, 145, 58, 140, 245, 133, 126, 255, 0, 169,
    ]
}

/// Address of the rent sysvar, `SysvarRent111111111111111111111111111111111`.
pub open spec fn rent_sysvar_id() -> Seq<u8> {
    seq![
        6u8, 167, 213, 23, 25, 44, 92, 81, 33, 140, 201, 76, 61, 74, 241, 127,
        88, 218, 238, 8, 155, 161, 253, 68, 227, 219, 217, 138, 0, 0, 0, 0,
    ]
}

/// Address of the system program: 32 zero bytes.
pub open spec fn system_program_id() -> Seq<u8> {
    Seq::new(32, |i: int| 0u8)
}

/// The little-endian bytes of a 64-bit amount.
pub open spec fn u64_le(n: u64) -> Seq<u8> {
    Seq::new(8, |i: int| ((n as int / pow2((8 * i) as nat) as int) % 256) as u8)
}

/// The little-endian bytes of a 32-bit value.
pub open spec fn u32_le(n: u32) -> Seq<u8> {
    Seq::new(4, |i: int| ((n as int / pow2((8 * i) as nat) as int) % 256) as u8)
}

/// Token program "initialize mint": opcode 0, decimals, mint authority, and
/// a freeze authority that is absent.
pub open spec fn initialize_mint_model(mint: Seq<u8>, authority: Seq<u8>, decimals: u8) -> InstructionModel {
    InstructionModel {
        program_id: token_program_id(),
        accounts: seq![(mint, false, true), (rent_sysvar_id(), false, false)],
        data: seq![0u8, decimals] + authority + seq![0u8],
    }
}

/// Token program "mint to": opcode 7 and the amount.
pub open spec fn mint_to_model(mint: Seq<u8>, destination: Seq<u8>, authority: Seq<u8>, amount: u64) -> InstructionModel {
    InstructionModel {
        program_id: token_program_id(),
        accounts: seq![(mint, false, true), (destination, false, true), (authority, true, false)],
        data: seq![7u8] + u64_le(amount),
    }
}

/// Token program "transfer": opcode 3 and the amount.
pub open spec fn token_transfer_model(source: Seq<u8>, destination: Seq<u8>, authority: Seq<u8>, amount: u64) -> InstructionModel {
    InstructionModel {
        program_id: token_program_id(),
        accounts: seq![(source, false, true), (destination, false, true), (authority, true, false)],
        data: seq![3u8] + u64_le(amount),
    }
}

/// System program "transfer": the 32-bit variant index 2 and the lamports.
pub open spec fn native_transfer_model(from: Seq<u8>, to: Seq<u8>, lamports: u64) -> InstructionModel {
    InstructionModel {
        program_id: system_program_id(),
        accounts: seq![(from, true, true), (to, false, true)],
        data: u32_le(2) + u64_le(lamports),
    }
}

/// Relies on `spl_token::instruction::initialize_mint`: with the token
/// program's own id it succeeds and packs the layout above.
#[verifier::external_body]
fn spl_initialize_mint(mint: &[u8; 32], authority: &[u8; 32], decimals: u8) -> (r: Option<Instruction>)
    ensures
        r is Some,
        r matches Some(ix) ==> ix@ == initialize_mint_model(mint@, authority@, decimals),
{
    let (m, a) = (Pubkey::from(*mint), Pubkey::from(*authority));
    spl_token::instruction::initialize_mint(&spl_token::id(), &m, &a, None, decimals).ok().map(|ix| Instruction {
        program_id: ix.program_id.to_bytes(),
        accounts: ix.accounts.iter().map(|a| AccountRef { pubkey: a.pubkey.to_bytes(), is_signer: a.is_signer, is_writable: a.is_writable }).collect(),
        data: ix.data,
    })
}

/// Relies on `spl_token::instruction::mint_to`: with the token program's own
/// id and no multisig signers it succeeds, and the authority signs.
#[verifier::external_body]
fn spl_mint_to(mint: &[u8; 32], destination: &[u8; 32], authority: &[u8; 32], amount: u64) -> (r: Option<Instruction>)
    ensures
        r is Some,
        r matches Some(ix) ==> ix@ == mint_to_model(mint@, destination@, authority@, amount),
{
    let (m, d, a) = (Pubkey::from(*mint), Pubkey::from(*destination), Pubkey::from(*authority));
    spl_token::instruction::mint_to(&spl_token::id(), &m, &d, &a, &[], amount).ok().map(|ix| Instruction {
        program_id: ix.program_id.to_bytes(),
        accounts: ix.accounts.iter().map(|a| AccountRef { pubkey: a.pubkey.to_bytes(), is_signer: a.is_signer, is_writable: a.is_writable }).collect(),
        data: ix.data,
    })
}

/// Relies on `spl_token::instruction::transfer`: with the token program's own
/// id and no multisig signers it succeeds, and the authority signs.
#[verifier::external_body]
fn spl_transfer(source: &[u8; 32], destination: &[u8; 32], authority: &[u8; 32], amount: u64) -> (r: Option<Instruction>)
    ensures
        r is Some,
        r matches Some(ix) ==> ix@ == token_transfer_model(source@, destination@, authority@, amount),
{
    let (s, d, a) = (Pubkey::from(*source), Pubkey::from(*destination), Pubkey::from(*authority));
    spl_token::instruction::transfer(&spl_token::id(), &s, &d, &a, &[], amount).ok().map(|ix| Instruction {
        program_id: ix.program_id.to_bytes(),
        accounts: ix.accounts.iter().map(|a| AccountRef { pubkey: a.pubkey.to_bytes(), is_signer: a.is_signer, is_writable: a.is_writable }).collect(),
        data: ix.data,
    })
}

/// Relies on `system_instruction::transfer`: bincode packs the variant index
/// as a little-endian `u32` followed by the lamports.
#[verifier::external_body]
fn system_transfer(from: &[u8; 32], to: &[u8; 32], lamports: u64) -> (r: Instruction)
    ensures
        r@ == native_transfer_model(from@, to@, lamports),
{
    let ix = solana_sdk::system_instruction::transfer(&Pubkey::from(*from), &Pubkey::from(*to), lamports);
    Instruction {
        program_id: ix.program_id.to_bytes(),
        accounts: ix.accounts.iter().map(|a| AccountRef { pubkey: a.pubkey.to_bytes(), is_signer: a.is_signer, is_writable: a.is_writable }).collect(),
        data: ix.data,
    }
}

/// Builds the token program's "initialize mint" for `mint`, with
/// `mint_authority` as its authority and no freeze authority.
pub fn initialize_mint(mint: &[u8; 32], mint_authority: &[u8; 32], decimals: u8) -> (r: Result<Instruction, LedgerError>)
    ensures
        r is Ok,
        r matches Ok(ix) ==> ix@ == initialize_mint_model(mint@, mint_authority@, decimals),
{
    match spl_initialize_mint(mint, mint_authority, decimals) {
        Some(ix) => Ok(ix),
        None => Err(LedgerError::InstructionBuildFailure),
    }
}

/// Builds the token program's "mint to": `amount` new tokens of `mint` to
/// `destination`, signed by `authority`.
pub fn mint_to(mint: &[u8; 32], destination: &[u8; 32], authority: &[u8; 32], amount: u64) -> (r: Result<Instruction, LedgerError>)
    ensures
        r is Ok,
        r matches Ok(ix) ==> ix@ == mint_to_model(mint@, destination@, authority@, amount),
{
    match spl_mint_to(mint, destination, authority, amount) {
        Some(ix) => Ok(ix),
        None => Err(LedgerError::InstructionBuildFailure),
    }
}

/// Builds the token program's "transfer" of `amount` from the account
/// `owner` to `destination`; `owner` is both the source and the signer.
pub fn token_transfer(owner: &[u8; 32], destination: &[u8; 32], amount: u64) -> (r: Result<Instruction, LedgerError>)
    ensures
        r is Ok,
        r matches Ok(ix) ==> ix@ == token_transfer_model(owner@, destination@, owner@, amount),
{
    match spl_transfer(owner, destination, owner, amount) {
        Some(ix) => Ok(ix),
        None => Err(LedgerError::InstructionBuildFailure),
    }
}

/// Builds the system program's transfer of `lamports` from `from` to `to`.
pub fn native_transfer(from: &[u8; 32], to: &[u8; 32], lamports: u64) -> (r: Instruction)
    ensures
        r@ == native_transfer_model(from@, to@, lamports),
{
    system_transfer(from, to, lamports)
}

} // verus!
