//! The program's error codes.

use vstd::prelude::*;

verus! {

/// Errors the program reports.
#[derive(Clone, Copy, Debug, PartialEq, Eq, Structural)]
pub enum ErrorCode {
    InvalidVaultBAddress,
    InvalidVaultBTokenVaultAddress,
    InvalidVaultBLpMintAddress,
    InvalidVaultALpAddress,
    InvalidVaultALpMintAddress,
    InvalidTokenAVaultAddress,
    ReferrerNotRegistered,
    NotAuthorized,
    InvalidSlotOwner,
    SlotNotRegistered,
    InsufficientDeposit,
    DepositToPoolFailed,
    SolReserveFailed,
    ReferrerPaymentFailed,
    WrapSolFailed,
    UnwrapSolFailed,
    TokenMintFailed,
    TokenTransferFailed,
    InvalidPoolAddress,
    InvalidVaultAddress,
    InvalidTokenMintAddress,
    InvalidTokenAccount,
    InvalidWalletForATA,
    MissingUplineAccount,
    PaymentWalletInvalid,
    TokenAccountInvalid,
    MissingVaultAAccounts,
    PriceFeedReadFailed,
    PriceFeedTooOld,
    InvalidChainlinkProgram,
    InvalidPriceFeed,
    PriceMeteoraReadFailed,
    MeteoraCalculationOverflow,
}

/// A failure of an instruction: one of the program's codes, or account data too
/// short to hold a user account.
#[derive(Clone, Copy, Debug, PartialEq, Eq, Structural)]
pub enum Failure {
    Code(ErrorCode),
    InvalidAccountData,
}

} // verus!
