//! Checks that the accounts handed to an instruction are the fixed ones.

use vstd::prelude::*;

use crate::address::{self, Address};
use crate::error::ErrorCode;

verus! {

/// The outcome of comparing a provided address with the expected one.
pub open spec fn spec_verify_address(provided: Seq<u8>, expected: Seq<u8>, error_code: ErrorCode) -> Result<(), ErrorCode> {
    if provided == expected {
        Ok(())
    } else {
        Err(error_code)
    }
}

/// Fails with `error_code` unless `provided` is exactly `expected`.
pub fn verify_address_strict(provided: &Address, expected: &Address, error_code: ErrorCode) -> (res: Result<(), ErrorCode>)
    ensures
        res == spec_verify_address(provided@, expected@, error_code),
{
    if !provided.equals(expected) {
        return Err(error_code);
    }
    Ok(())
}

/// The outcome of checking the pool and vault A accounts, first mismatch first.
pub open spec fn spec_verify_pool_and_vault_a_addresses(
    pool: Seq<u8>,
    a_vault: Seq<u8>,
    a_vault_lp: Seq<u8>,
    a_vault_lp_mint: Seq<u8>,
) -> Result<(), ErrorCode> {
    if pool != address::spec_pool_address() {
        Err(ErrorCode::InvalidPoolAddress)
    } else if a_vault != address::spec_a_vault() {
        Err(ErrorCode::InvalidVaultAddress)
    } else if a_vault_lp != address::spec_a_vault_lp() {
        Err(ErrorCode::InvalidVaultALpAddress)
    } else if a_vault_lp_mint != address::spec_a_vault_lp_mint() {
        Err(ErrorCode::InvalidVaultALpMintAddress)
    } else {
        Ok(())
    }
}

/// Checks the pool and the vault A accounts against the fixed addresses.
pub fn verify_pool_and_vault_a_addresses(
    pool: &Address,
    a_vault: &Address,
    a_vault_lp: &Address,
    a_vault_lp_mint: &Address,
) -> (res: Result<(), ErrorCode>)
    ensures
        res == spec_verify_pool_and_vault_a_addresses(pool@, a_vault@, a_vault_lp@, a_vault_lp_mint@),
{
    verify_address_strict(pool, &address::pool_address(), ErrorCode::InvalidPoolAddress)?;
    verify_address_strict(a_vault, &address::a_vault(), ErrorCode::InvalidVaultAddress)?;
    verify_address_strict(a_vault_lp, &address::a_vault_lp(), ErrorCode::InvalidVaultALpAddress)?;
    verify_address_strict(a_vault_lp_mint, &address::a_vault_lp_mint(), ErrorCode::InvalidVaultALpMintAddress)?;
    Ok(())
}

/// The outcome of checking the pool, vault B and mint accounts, first mismatch first.
pub open spec fn spec_verify_all_fixed_addresses(
    pool: Seq<u8>,
    b_vault: Seq<u8>,
    b_token_vault: Seq<u8>,
    b_vault_lp_mint: Seq<u8>,
    b_vault_lp: Seq<u8>,
    token_mint: Seq<u8>,
    wsol_mint: Seq<u8>,
) -> Result<(), ErrorCode> {
    if pool != address::spec_pool_address() {
        Err(ErrorCode::InvalidPoolAddress)
    } else if b_vault_lp != address::spec_b_vault_lp() {
        Err(ErrorCode::InvalidVaultAddress)
    } else if b_vault != address::spec_b_vault() {
        Err(ErrorCode::InvalidVaultAddress)
    } else if b_token_vault != address::spec_b_token_vault() {
        Err(ErrorCode::InvalidVaultAddress)
    } else if b_vault_lp_mint != address::spec_b_vault_lp_mint() {
        Err(ErrorCode::InvalidVaultAddress)
    } else if token_mint != address::spec_token_mint() {
        Err(ErrorCode::InvalidTokenMintAddress)
    } else if wsol_mint != address::spec_wsol_mint() {
        Err(ErrorCode::InvalidTokenMintAddress)
    } else {
        Ok(())
    }
}

/// Checks the pool, vault B and mint accounts against the fixed addresses.
pub fn verify_all_fixed_addresses(
    pool: &Address,
    b_vault: &Address,
    b_token_vault: &Address,
    b_vault_lp_mint: &Address,
    b_vault_lp: &Address,
    token_mint: &Address,
    wsol_mint: &Address,
) -> (res: Result<(), ErrorCode>)
    ensures
        res == spec_verify_all_fixed_addresses(
            pool@,
            b_vault@,
            b_token_vault@,
            b_vault_lp_mint@,
            b_vault_lp@,
            token_mint@,
            wsol_mint@,
        ),
{
    verify_address_strict(pool, &address::pool_address(), ErrorCode::InvalidPoolAddress)?;
    verify_address_strict(b_vault_lp, &address::b_vault_lp(), ErrorCode::InvalidVaultAddress)?;
    verify_address_strict(b_vault, &address::b_vault(), ErrorCode::InvalidVaultAddress)?;
    verify_address_strict(b_token_vault, &address::b_token_vault(), ErrorCode::InvalidVaultAddress)?;
    verify_address_strict(b_vault_lp_mint, &address::b_vault_lp_mint(), ErrorCode::InvalidVaultAddress)?;
    verify_address_strict(token_mint, &address::token_mint(), ErrorCode::InvalidTokenMintAddress)?;
    verify_address_strict(wsol_mint, &address::wsol_mint(), ErrorCode::InvalidTokenMintAddress)?;
    Ok(())
}

/// The outcome of checking the oracle accounts.
pub open spec fn spec_verify_chainlink_addresses(chainlink_program: Seq<u8>, chainlink_feed: Seq<u8>) -> Result<(), ErrorCode> {
    if chainlink_program != address::spec_chainlink_program() {
        Err(ErrorCode::InvalidChainlinkProgram)
    } else if chainlink_feed != address::spec_sol_usd_feed() {
        Err(ErrorCode::InvalidPriceFeed)
    } else {
        Ok(())
    }
}

/// Checks the oracle program and the SOL/USD feed against the fixed addresses.
pub fn verify_chainlink_addresses(chainlink_program: &Address, chainlink_feed: &Address) -> (res: Result<(), ErrorCode>)
    ensures
        res == spec_verify_chainlink_addresses(chainlink_program@, chainlink_feed@),
{
    verify_address_strict(chainlink_program, &address::chainlink_program(), ErrorCode::InvalidChainlinkProgram)?;
    verify_address_strict(chainlink_feed, &address::sol_usd_feed(), ErrorCode::InvalidPriceFeed)?;
    Ok(())
}

} // verus!
