use std::str::FromStr;

use anchor_lang::prelude::Pubkey;
use anchor_lang::solana_program::program_option::COption;
use anchor_lang::solana_program::program_pack::Pack;
use matrix_system::address::{self, Address};
use matrix_system::error::ErrorCode;
use matrix_system::token::{verify_ata_strict, verify_token_account, verify_token_program_owner, verify_wallet_is_system_account};
use matrix_system::verify::{
    verify_address_strict, verify_all_fixed_addresses, verify_chainlink_addresses, verify_pool_and_vault_a_addresses,
};
use spl_token::state::{Account as SplAccount, AccountState};

fn pk(s: &str) -> Address {
    Address(Pubkey::from_str(s).unwrap().to_bytes())
}

fn other(n: u8) -> Address {
    Address([n; 32])
}

const TOKEN_PROGRAM: &str = "TokenkegQfeZyiNwAJbNbGKPFXCWuBvf9Ss623VQ5DA";

#[test]
fn fixed_addresses_match_their_base58_form() {
    let cases: Vec<(Address, &str)> = vec![
        (address::program_id(), "DegWuGAfwzMFK5BWC33q6XW7Ebk7fesZShuaXh2HveHS"),
        (address::pool_address(), "GH9FRAPij2qKGvTo6jYQ9Mac3UWakP2FJGbmRV8paB9C"),
        (address::a_vault(), "9NhsA1synYQEyR5nH9yjZfoN5TwhVD6B1pkBts447C9P"),
        (address::a_vault_lp(), "B7GhHWh3zJ1qjxSZTZiqFDgN1qzyV2MZRHNj1okQSWrU"),
        (address::a_vault_lp_mint(), "6QNDN8rDqp4pvzzjFh776vTLXrLVWU8mcSVucZsdqoca"),
        (address::a_token_vault(), "BFxsdzhwos7Nbevqz75WRYTQcNXyoYqv2N9pg7yoThLt"),
        (address::b_vault_lp(), "EP1AC21DEtHQQ543cQGmguEfPku7tnU2YwxenzYJ7V6j"),
        (address::b_vault(), "FERjPVNEa7Udq8CEv68h6tPL46Tq7ieE49HrE2wea3XT"),
        (address::b_token_vault(), "HZeLxbZ9uHtSpwZC3LBr4Nubd14iHwz7bRSghRZf5VCG"),
        (address::b_vault_lp_mint(), "FZN7QZ8ZUUAxMPfxYEYkH3cXUASzH8EqA6B4tyCL8f1j"),
        (address::token_mint(), "DoNUT4ufy3esSrsBo77PoXda7MWrbKSfaZSBUsCfQz6f"),
        (address::wsol_mint(), "So11111111111111111111111111111111111111112"),
        (address::chainlink_program(), "HEvSKofvBgfaexv23kMabbYqxasxU3mQ4ibBMEmJWHny"),
        (address::sol_usd_feed(), "CH31Xns5z3M1cTAbKW34jcxPPciazARpijcHj9rxtemt"),
        (address::multisig_treasury(), "G1zNHXtAEysE5DUZ6pqf81qY8WpV15AgkaLGh2SEERkV"),
        (address::authorized_initializer(), "24bvHXAxxVT2HxuoBptyG9guhE4vUKUTzFWPVBmHRCzw"),
    ];
    for (address, base58) in cases {
        assert_eq!(address.0, Pubkey::from_str(base58).unwrap().to_bytes(), "{}", base58);
    }
}

#[test]
fn address_equality_is_bytewise() {
    let a = other(1);
    let mut bytes = [1u8; 32];
    assert!(a.equals(&Address(bytes)));
    bytes[31] = 2;
    assert!(!a.equals(&Address(bytes)));
    bytes[31] = 1;
    bytes[0] = 0;
    assert!(!a.equals(&Address(bytes)));
}

#[test]
fn verify_address_strict_reports_given_error() {
    assert_eq!(verify_address_strict(&other(1), &other(1), ErrorCode::InvalidPoolAddress), Ok(()));
    assert_eq!(verify_address_strict(&other(1), &other(2), ErrorCode::InvalidPriceFeed), Err(ErrorCode::InvalidPriceFeed));
}

#[test]
fn pool_and_vault_a_checks_in_order() {
    let ok = (address::pool_address(), address::a_vault(), address::a_vault_lp(), address::a_vault_lp_mint());
    assert_eq!(verify_pool_and_vault_a_addresses(&ok.0, &ok.1, &ok.2, &ok.3), Ok(()));
    assert_eq!(verify_pool_and_vault_a_addresses(&other(9), &other(9), &ok.2, &ok.3), Err(ErrorCode::InvalidPoolAddress));
    assert_eq!(verify_pool_and_vault_a_addresses(&ok.0, &other(9), &other(9), &ok.3), Err(ErrorCode::InvalidVaultAddress));
    assert_eq!(verify_pool_and_vault_a_addresses(&ok.0, &ok.1, &other(9), &ok.3), Err(ErrorCode::InvalidVaultALpAddress));
    assert_eq!(verify_pool_and_vault_a_addresses(&ok.0, &ok.1, &ok.2, &other(9)), Err(ErrorCode::InvalidVaultALpMintAddress));
}

#[test]
fn all_fixed_addresses_checks_in_order() {
    let pool = address::pool_address();
    let b_vault = address::b_vault();
    let b_token_vault = address::b_token_vault();
    let b_vault_lp_mint = address::b_vault_lp_mint();
    let b_vault_lp = address::b_vault_lp();
    let token_mint = address::token_mint();
    let wsol_mint = address::wsol_mint();
    let bad = other(7);
    assert_eq!(
        verify_all_fixed_addresses(&pool, &b_vault, &b_token_vault, &b_vault_lp_mint, &b_vault_lp, &token_mint, &wsol_mint),
        Ok(())
    );
    assert_eq!(
        verify_all_fixed_addresses(&bad, &b_vault, &b_token_vault, &b_vault_lp_mint, &b_vault_lp, &bad, &wsol_mint),
        Err(ErrorCode::InvalidPoolAddress)
    );
    assert_eq!(
        verify_all_fixed_addresses(&pool, &bad, &b_token_vault, &b_vault_lp_mint, &b_vault_lp, &token_mint, &wsol_mint),
        Err(ErrorCode::InvalidVaultAddress)
    );
    assert_eq!(
        verify_all_fixed_addresses(&pool, &b_vault, &b_token_vault, &b_vault_lp_mint, &b_vault_lp, &bad, &wsol_mint),
        Err(ErrorCode::InvalidTokenMintAddress)
    );
    assert_eq!(
        verify_all_fixed_addresses(&pool, &b_vault, &b_token_vault, &b_vault_lp_mint, &b_vault_lp, &token_mint, &bad),
        Err(ErrorCode::InvalidTokenMintAddress)
    );
}

#[test]
fn chainlink_checks_in_order() {
    let program = address::chainlink_program();
    let feed = address::sol_usd_feed();
    assert_eq!(verify_chainlink_addresses(&program, &feed), Ok(()));
    assert_eq!(verify_chainlink_addresses(&other(3), &other(3)), Err(ErrorCode::InvalidChainlinkProgram));
    assert_eq!(verify_chainlink_addresses(&program, &other(3)), Err(ErrorCode::InvalidPriceFeed));
}

fn token_account_data(mint: &Address, owner: &Address, state: AccountState) -> Vec<u8> {
    let account = SplAccount {
        mint: Pubkey::new_from_array(mint.0),
        owner: Pubkey::new_from_array(owner.0),
        amount: 55,
        delegate: COption::None,
        state,
        is_native: COption::None,
        delegated_amount: 0,
        close_authority: COption::None,
    };
    let mut data = vec![0u8; SplAccount::LEN];
    SplAccount::pack(account, &mut data).unwrap();
    data
}

#[test]
fn wallet_must_be_system_owned() {
    assert_eq!(verify_wallet_is_system_account(&Address([0u8; 32])), Ok(()));
    assert_eq!(verify_wallet_is_system_account(&pk(TOKEN_PROGRAM)), Err(ErrorCode::PaymentWalletInvalid));
}

#[test]
fn token_program_owner_check() {
    assert_eq!(verify_token_program_owner(&pk(TOKEN_PROGRAM), ErrorCode::TokenAccountInvalid), Ok(()));
    assert_eq!(verify_token_program_owner(&other(1), ErrorCode::TokenAccountInvalid), Err(ErrorCode::TokenAccountInvalid));
}

#[test]
fn ata_strict_distinguishes_failures() {
    let mint = address::token_mint();
    let wallet = other(4);
    let token_program = pk(TOKEN_PROGRAM);
    let good = token_account_data(&mint, &wallet, AccountState::Initialized);
    assert_eq!(verify_ata_strict(&token_program, &good, &wallet, &mint), Ok(()));
    assert_eq!(verify_ata_strict(&other(1), &good, &wallet, &mint), Err(ErrorCode::InvalidTokenAccount));
    let uninitialized = token_account_data(&mint, &wallet, AccountState::Uninitialized);
    assert_eq!(verify_ata_strict(&token_program, &uninitialized, &wallet, &mint), Err(ErrorCode::InvalidTokenAccount));
    assert_eq!(verify_ata_strict(&token_program, &good[..100], &wallet, &mint), Err(ErrorCode::InvalidTokenAccount));
    assert_eq!(verify_ata_strict(&token_program, &good, &other(5), &mint), Err(ErrorCode::InvalidWalletForATA));
    assert_eq!(verify_ata_strict(&token_program, &good, &wallet, &other(6)), Err(ErrorCode::InvalidTokenMintAddress));
    let frozen = token_account_data(&mint, &wallet, AccountState::Frozen);
    assert_eq!(verify_ata_strict(&token_program, &frozen, &wallet, &mint), Ok(()));
}

#[test]
fn token_account_check_reports_one_error() {
    let mint = address::token_mint();
    let wallet = other(4);
    let token_program = pk(TOKEN_PROGRAM);
    let good = token_account_data(&mint, &wallet, AccountState::Initialized);
    assert_eq!(verify_token_account(&token_program, &good, &wallet, &mint), Ok(()));
    assert_eq!(verify_token_account(&other(2), &good, &wallet, &mint), Err(ErrorCode::TokenAccountInvalid));
    assert_eq!(verify_token_account(&token_program, &good, &other(5), &mint), Err(ErrorCode::TokenAccountInvalid));
    assert_eq!(verify_token_account(&token_program, &good, &wallet, &other(6)), Err(ErrorCode::TokenAccountInvalid));
    let mut bad_tag = good.clone();
    bad_tag[72] = 2;
    assert_eq!(verify_token_account(&token_program, &bad_tag, &wallet, &mint), Err(ErrorCode::TokenAccountInvalid));
    let mut bad_state = good.clone();
    bad_state[108] = 3;
    assert_eq!(verify_token_account(&token_program, &bad_state, &wallet, &mint), Err(ErrorCode::TokenAccountInvalid));
}
