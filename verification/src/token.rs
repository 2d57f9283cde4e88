//! Ownership checks on wallets and token accounts.

use anchor_lang::AccountDeserialize;
use anchor_spl::token::TokenAccount;
use vstd::prelude::*;

use crate::address::Address;
use crate::error::ErrorCode;

verus! {

/// Bytes of the SPL token program's address.
pub open spec fn spec_token_program_id() -> Seq<u8> {
    seq![6, 221, 246, 225, 215, 101, 161, 147, 217, 203, 225, 70, 206, 235, 121, 172, 28, 180, 133, 237, 95, 91, 55, 145, 58, 140, 245, 133, 126, 255, 0, 169]
}

/// Bytes of the system program's address: all zero.
pub open spec fn spec_system_program_id() -> Seq<u8> {
    Seq::new(32, |i: int| 0u8)
}

/// `anchor_spl::token::ID`, the SPL token program id (declared there as
/// `TokenkegQfeZyiNwAJbNbGKPFXCWuBvf9Ss623VQ5DA`); the contract gives its bytes.
#[verifier::external_body]
pub(crate) fn token_program_id() -> (res: Address)
    ensures
        res@ == spec_token_program_id(),
{
    Address(anchor_spl::token::ID.to_bytes())
}

/// `anchor_lang::solana_program::system_program::ID`, the system program id
/// (declared there as `11111111111111111111111111111111`, the all-zero key).
#[verifier::external_body]
pub(crate) fn system_program_id() -> (res: Address)
    ensures
        res@ == spec_system_program_id(),
{
    Address(anchor_lang::solana_program::system_program::ID.to_bytes())
}

/// A 4-byte option tag at `offset` that the token account layout accepts:
/// `[0, 0, 0, 0]` (none) or `[1, 0, 0, 0]` (some).
pub open spec fn coption_tag_valid(data: Seq<u8>, offset: int) -> bool {
    &&& data[offset] == 0 || data[offset] == 1
    &&& data[offset + 1] == 0
    &&& data[offset + 2] == 0
    &&& data[offset + 3] == 0
}

/// Data that unpacks as an initialized SPL token account: 165 bytes, valid
/// option tags for delegate, native amount and close authority, and a state byte
/// of 1 (initialized) or 2 (frozen).
pub open spec fn token_account_layout_valid(data: Seq<u8>) -> bool {
    &&& data.len() == 165
    &&& coption_tag_valid(data, 72)
    &&& data[108] == 1 || data[108] == 2
    &&& coption_tag_valid(data, 109)
    &&& coption_tag_valid(data, 129)
}

/// The mint field of token account data (bytes 0 to 32).
pub open spec fn token_account_mint(data: Seq<u8>) -> Seq<u8> {
    data.subrange(0, 32)
}

/// The owner field of token account data (bytes 32 to 64).
pub open spec fn token_account_owner(data: Seq<u8>) -> Seq<u8> {
    data.subrange(32, 64)
}

/// `TokenAccount::try_deserialize` of `anchor_spl` (which is
/// `spl_token::state::Account::unpack`): succeeds exactly on data of the token
/// account layout, and then yields the mint and the owner stored in it.
#[verifier::external_body]
fn unpack_token_account(data: &[u8]) -> (res: Option<(Address, Address)>)
    ensures
        res is Some <==> token_account_layout_valid(data@),
        res matches Some(fields) ==> fields.0@ == token_account_mint(data@) && fields.1@ == token_account_owner(data@),
{
    match TokenAccount::try_deserialize(&mut &data[..]) {
        Ok(account) => Some((Address(account.mint.to_bytes()), Address(account.owner.to_bytes()))),
        Err(_) => None,
    }
}

/// The outcome of checking that a wallet is owned by the system program.
pub open spec fn spec_verify_wallet_is_system_account(wallet_owner: Seq<u8>) -> Result<(), ErrorCode> {
    if wallet_owner != spec_system_program_id() {
        Err(ErrorCode::PaymentWalletInvalid)
    } else {
        Ok(())
    }
}

/// Fails with `PaymentWalletInvalid` unless the wallet's owning program is the
/// system program.
pub fn verify_wallet_is_system_account(wallet_owner: &Address) -> (res: Result<(), ErrorCode>)
    ensures
        res == spec_verify_wallet_is_system_account(wallet_owner@),
{
    if !wallet_owner.equals(&system_program_id()) {
        return Err(ErrorCode::PaymentWalletInvalid);
    }
    Ok(())
}

/// The outcome of checking that an account is owned by the token program.
pub open spec fn spec_verify_token_program_owner(account_owner: Seq<u8>, error_code: ErrorCode) -> Result<(), ErrorCode> {
    if account_owner != spec_token_program_id() {
        Err(error_code)
    } else {
        Ok(())
    }
}

/// Fails with `error_code` unless the account's owning program is the token
/// program.
pub fn verify_token_program_owner(account_owner: &Address, error_code: ErrorCode) -> (res: Result<(), ErrorCode>)
    ensures
        res == spec_verify_token_program_owner(account_owner@, error_code),
{
    if !account_owner.equals(&token_program_id()) {
        return Err(error_code);
    }
    Ok(())
}

/// The outcome of the strict check of an associated token account.
pub open spec fn spec_verify_ata_strict(account_owner: Seq<u8>, data: Seq<u8>, owner: Seq<u8>, expected_mint: Seq<u8>) -> Result<(), ErrorCode> {
    if account_owner != spec_token_program_id() {
        Err(ErrorCode::InvalidTokenAccount)
    } else if !token_account_layout_valid(data) {
        Err(ErrorCode::InvalidTokenAccount)
    } else if token_account_owner(data) != owner {
        Err(ErrorCode::InvalidWalletForATA)
    } else if token_account_mint(data) != expected_mint {
        Err(ErrorCode::InvalidTokenMintAddress)
    } else {
        Ok(())
    }
}

/// Checks that a token account (owned by `account_owner`, holding `data`) is a
/// token account of `owner` for `expected_mint`, with a distinct error for each
/// way it can fail.
pub fn verify_ata_strict(account_owner: &Address, data: &[u8], owner: &Address, expected_mint: &Address) -> (res: Result<(), ErrorCode>)
    ensures
        res == spec_verify_ata_strict(account_owner@, data@, owner@, expected_mint@),
{
    if !account_owner.equals(&token_program_id()) {
        return Err(ErrorCode::InvalidTokenAccount);
    }
    match unpack_token_account(data) {
        Some((mint, token_owner)) => {
            if !token_owner.equals(owner) {
                return Err(ErrorCode::InvalidWalletForATA);
            }
            if !mint.equals(expected_mint) {
                return Err(ErrorCode::InvalidTokenMintAddress);
            }
        },
        None => {
            return Err(ErrorCode::InvalidTokenAccount);
        },
    }
    Ok(())
}

/// The outcome of checking a token account that is to receive tokens.
pub open spec fn spec_verify_token_account(account_owner: Seq<u8>, data: Seq<u8>, wallet: Seq<u8>, token_mint: Seq<u8>) -> Result<(), ErrorCode> {
    if account_owner == spec_token_program_id() && token_account_layout_valid(data)
        && token_account_owner(data) == wallet && token_account_mint(data) == token_mint {
        Ok(())
    } else {
        Err(ErrorCode::TokenAccountInvalid)
    }
}

/// Checks that a token account (owned by `account_owner`, holding `data`) belongs
/// to `wallet` and holds `token_mint`; every failure is `TokenAccountInvalid`.
pub fn verify_token_account(account_owner: &Address, data: &[u8], wallet: &Address, token_mint: &Address) -> (res: Result<(), ErrorCode>)
    ensures
        res == spec_verify_token_account(account_owner@, data@, wallet@, token_mint@),
{
    if !account_owner.equals(&token_program_id()) {
        return Err(ErrorCode::TokenAccountInvalid);
    }
    let (mint, token_owner) = match unpack_token_account(data) {
        Some(fields) => fields,
        None => {
            return Err(ErrorCode::TokenAccountInvalid);
        },
    };
    if !token_owner.equals(wallet) {
        return Err(ErrorCode::TokenAccountInvalid);
    }
    if !mint.equals(token_mint) {
        return Err(ErrorCode::TokenAccountInvalid);
    }
    Ok(())
}

} // verus!
