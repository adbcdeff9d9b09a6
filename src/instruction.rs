//! Instructions of the system program and of the token program: a program
//! address, an ordered list of account references, and an opaque data blob.

use crate::address::Address;
use vstd::prelude::*;

verus! {

/// An account that an instruction names, with its role flags.
#[derive(Clone, Copy, Debug, PartialEq, Eq)]
pub struct AccountRef {
    pub pubkey: Address,
    pub is_signer: bool,
    pub is_writable: bool,
}

/// A program address, the accounts it is called with, and its data.
#[derive(Clone, Debug, PartialEq, Eq)]
pub struct Instruction {
    pub program_id: Address,
    pub accounts: Vec<AccountRef>,
    pub data: Vec<u8>,
}

/// The token program's encoder refused its arguments.
#[derive(Clone, Debug, PartialEq, Eq)]
pub struct BuilderError {
    pub message: String,
}

/// Why a native transfer cannot be built.
#[derive(Clone, Debug, PartialEq, Eq)]
pub enum TransferError {
    /// The amount is zero.
    AmountMustBePositive,
}

/// An account reference as (address bytes, is signer, is writable).
pub open spec fn account_spec(a: AccountRef) -> (Seq<u8>, bool, bool) {
    (a.pubkey.bytes@, a.is_signer, a.is_writable)
}

impl Instruction {
    /// The accounts as (address bytes, is signer, is writable), in order.
    pub open spec fn accounts_spec(&self) -> Seq<(Seq<u8>, bool, bool)> {
        self.accounts@.map_values(|a: AccountRef| account_spec(a))
    }
}

/// The address of the token program, `TokenkegQfeZyiNwAJbNbGKPFXCWuBvf9Ss623VQ5DA`.
pub open spec fn token_program_bytes() -> Seq<u8> {
    seq![
        6u8, 221, 246, 225, 215, 101, 161, 147, 217, 203, 225, 70, 206, 235, 121, 172,
        28, 180, 133, 237, 95, 91, 55, 145, 58, 140, 245, 133, 126, 255, 0, 169,
    ]
}

/// The address of the rent sysvar, `SysvarRent111111111111111111111111111111111`.
pub open spec fn rent_sysvar_bytes() -> Seq<u8> {
    seq![
        6u8, 167, 213, 23, 25, 44, 92, 81, 33, 140, 201, 76, 61, 74, 241, 127,
        88, 218, 238, 8, 155, 161, 253, 68, 227, 219, 217, 138, 0, 0, 0, 0,
    ]
}

/// The address of the system program: 32 zero bytes.
pub open spec fn system_program_bytes() -> Seq<u8> {
    Seq::new(32, |i: int| 0u8)
}

/// The little-endian bytes of `n`.
pub open spec fn le_bytes(n: u64) -> Seq<u8> {
    Seq::new(8, |i: int| ((n >> ((8 * i) as u64)) & 0xff) as u8)
}

/// Data of the token program's InitializeMint: tag 0, the decimals, the mint
/// authority, then tag 1 and the freeze authority.
pub open spec fn initialize_mint_data(authority: Seq<u8>, freeze: Seq<u8>, decimals: u8) -> Seq<u8> {
    seq![0u8, decimals] + authority + seq![1u8] + freeze
}

/// Data of the token program's MintTo: tag 7 and the amount.
pub open spec fn mint_to_data(amount: u64) -> Seq<u8> {
    seq![7u8] + le_bytes(amount)
}

/// Data of the token program's Transfer: tag 3 and the amount.
pub open spec fn token_transfer_data(amount: u64) -> Seq<u8> {
    seq![3u8] + le_bytes(amount)
}

/// Data of the system program's Transfer: variant 2 as a little-endian u32,
/// then the lamports.
pub open spec fn system_transfer_data(lamports: u64) -> Seq<u8> {
    seq![2u8, 0, 0, 0] + le_bytes(lamports)
}

/// Relies on `spl_token::id()`, declared from the text in `token_program_bytes`.
#[verifier::external_body]
fn token_program_id() -> (r: Address)
    ensures
        r.bytes@ == token_program_bytes(),
{
    Address { bytes: spl_token::id().to_bytes() }
}

/// Relies on `spl_token::instruction::initialize_mint`: it accepts only the
/// token program's own id; the accounts are the mint (writable) and the rent
/// sysvar (read-only), neither a signer; the data is the packed InitializeMint.
#[verifier::external_body]
fn spl_initialize_mint(program: &Address, mint: &Address, authority: &Address, freeze: &Address, decimals: u8) -> (r: Result<Instruction, String>)
    ensures
        r is Ok <==> program.bytes@ == token_program_bytes(),
        r is Ok ==> r->Ok_0.program_id.bytes@ == program.bytes@,
        r is Ok ==> r->Ok_0.accounts_spec() == seq![(mint.bytes@, false, true), (rent_sysvar_bytes(), false, false)],
        r is Ok ==> r->Ok_0.data@ == initialize_mint_data(authority.bytes@, freeze.bytes@, decimals),
{
    let key = solana_sdk::pubkey::Pubkey::new_from_array;
    spl_token::instruction::initialize_mint(&key(program.bytes), &key(mint.bytes), &key(authority.bytes), Some(&key(freeze.bytes)), decimals)
        .map(|ix| Instruction {
            program_id: Address { bytes: ix.program_id.to_bytes() },
            accounts: ix.accounts.iter().map(|m| AccountRef { pubkey: Address { bytes: m.pubkey.to_bytes() }, is_signer: m.is_signer, is_writable: m.is_writable }).collect(),
            data: ix.data,
        })
        .map_err(|e| e.to_string())
}

/// Relies on `spl_token::instruction::mint_to` with no multisig signers: it
/// accepts only the token program's own id; the accounts are the mint and the
/// destination (writable) and the authority (read-only, signer); the data is
/// the packed MintTo.
#[verifier::external_body]
fn spl_mint_to(program: &Address, mint: &Address, destination: &Address, authority: &Address, amount: u64) -> (r: Result<Instruction, String>)
    ensures
        r is Ok <==> program.bytes@ == token_program_bytes(),
        r is Ok ==> r->Ok_0.program_id.bytes@ == program.bytes@,
        r is Ok ==> r->Ok_0.accounts_spec() == seq![(mint.bytes@, false, true), (destination.bytes@, false, true), (authority.bytes@, true, false)],
        r is Ok ==> r->Ok_0.data@ == mint_to_data(amount),
{
    let key = solana_sdk::pubkey::Pubkey::new_from_array;
    spl_token::instruction::mint_to(&key(program.bytes), &key(mint.bytes), &key(destination.bytes), &key(authority.bytes), &[], amount)
        .map(|ix| Instruction {
            program_id: Address { bytes: ix.program_id.to_bytes() },
            accounts: ix.accounts.iter().map(|m| AccountRef { pubkey: Address { bytes: m.pubkey.to_bytes() }, is_signer: m.is_signer, is_writable: m.is_writable }).collect(),
            data: ix.data,
        })
        .map_err(|e| e.to_string())
}

/// Relies on `spl_token::instruction::transfer` with no multisig signers: it
/// accepts only the token program's own id; the accounts are the source and
/// the destination (writable) and the authority (read-only, signer); the data
/// is the packed Transfer.
#[verifier::external_body]
fn spl_transfer(program: &Address, source: &Address, destination: &Address, authority: &Address, amount: u64) -> (r: Result<Instruction, String>)
    ensures
        r is Ok <==> program.bytes@ == token_program_bytes(),
        r is Ok ==> r->Ok_0.program_id.bytes@ == program.bytes@,
        r is Ok ==> r->Ok_0.accounts_spec() == seq![(source.bytes@, false, true), (destination.bytes@, false, true), (authority.bytes@, true, false)],
        r is Ok ==> r->Ok_0.data@ == token_transfer_data(amount),
{
    let key = solana_sdk::pubkey::Pubkey::new_from_array;
    spl_token::instruction::transfer(&key(program.bytes), &key(source.bytes), &key(destination.bytes), &key(authority.bytes), &[], amount)
        .map(|ix| Instruction {
            program_id: Address { bytes: ix.program_id.to_bytes() },
            accounts: ix.accounts.iter().map(|m| AccountRef { pubkey: Address { bytes: m.pubkey.to_bytes() }, is_signer: m.is_signer, is_writable: m.is_writable }).collect(),
            data: ix.data,
        })
        .map_err(|e| e.to_string())
}

/// Relies on `solana_sdk::system_instruction::transfer`: the system program
/// with the sender (writable, signer) and the recipient (writable), and the
/// bincode form of the Transfer variant as data.
#[verifier::external_body]
fn system_transfer(from: &Address, to: &Address, lamports: u64) -> (r: Instruction)
    ensures
        r.program_id.bytes@ == system_program_bytes(),
        r.accounts_spec() == seq![(from.bytes@, true, true), (to.bytes@, false, true)],
        r.data@ == system_transfer_data(lamports),
{
    let key = solana_sdk::pubkey::Pubkey::new_from_array;
    let ix = solana_sdk::system_instruction::transfer(&key(from.bytes), &key(to.bytes), lamports);
    Instruction {
        program_id: Address { bytes: ix.program_id.to_bytes() },
        accounts: ix.accounts.iter().map(|m| AccountRef { pubkey: Address { bytes: m.pubkey.to_bytes() }, is_signer: m.is_signer, is_writable: m.is_writable }).collect(),
        data: ix.data,
    }
}

/// The InitializeMint instruction of the token program for `mint`, with
/// `mint_authority` as both mint and freeze authority.
pub fn initialize_mint(mint: &Address, mint_authority: &Address, decimals: u8) -> (r: Result<Instruction, BuilderError>)
    ensures
        r is Ok,
        r->Ok_0.program_id.bytes@ == token_program_bytes(),
        r->Ok_0.accounts_spec() == seq![(mint.bytes@, false, true), (rent_sysvar_bytes(), false, false)],
        r->Ok_0.data@ == initialize_mint_data(mint_authority.bytes@, mint_authority.bytes@, decimals),
{
    let program = token_program_id();
    match spl_initialize_mint(&program, mint, mint_authority, mint_authority, decimals) {
        Ok(ix) => Ok(ix),
        Err(message) => Err(BuilderError { message }),
    }
}

/// The MintTo instruction of the token program: `amount` new tokens of `mint`
/// into `destination`, issued by `authority`.
pub fn mint_to(mint: &Address, destination: &Address, authority: &Address, amount: u64) -> (r: Result<Instruction, BuilderError>)
    ensures
        r is Ok,
        r->Ok_0.program_id.bytes@ == token_program_bytes(),
        r->Ok_0.accounts_spec() == seq![(mint.bytes@, false, true), (destination.bytes@, false, true), (authority.bytes@, true, false)],
        r->Ok_0.data@ == mint_to_data(amount),
{
    let program = token_program_id();
    match spl_mint_to(&program, mint, destination, authority, amount) {
        Ok(ix) => Ok(ix),
        Err(message) => Err(BuilderError { message }),
    }
}

/// The native transfer of `lamports` from `from` to `to`; a zero amount is
/// refused.
pub fn transfer_native(from: &Address, to: &Address, lamports: u64) -> (r: Result<Instruction, TransferError>)
    ensures
        lamports == 0 <==> r == Err::<Instruction, TransferError>(TransferError::AmountMustBePositive),
        lamports > 0 ==> r is Ok,
        r is Ok ==> r->Ok_0.program_id.bytes@ == system_program_bytes(),
        r is Ok ==> r->Ok_0.accounts_spec() == seq![(from.bytes@, true, true), (to.bytes@, false, true)],
        r is Ok ==> r->Ok_0.data@ == system_transfer_data(lamports),
{
    if lamports == 0 {
        Err(TransferError::AmountMustBePositive)
    } else {
        Ok(system_transfer(from, to, lamports))
    }
}

/// The Transfer instruction of the token program with `mint` as the source
/// account, `destination` as the destination and `owner` as the authority.
pub fn transfer_token(destination: &Address, mint: &Address, owner: &Address, amount: u64) -> (r: Result<Instruction, BuilderError>)
    ensures
        r is Ok,
        r->Ok_0.program_id.bytes@ == token_program_bytes(),
        r->Ok_0.accounts_spec() == seq![(mint.bytes@, false, true), (destination.bytes@, false, true), (owner.bytes@, true, false)],
        r->Ok_0.data@ == token_transfer_data(amount),
{
    let program = token_program_id();
    match spl_transfer(&program, mint, destination, owner, amount) {
        Ok(ix) => Ok(ix),
        Err(message) => Err(BuilderError { message }),
    }
}

} // verus!
