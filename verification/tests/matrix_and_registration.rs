use anchor_lang::prelude::Pubkey;
use anchor_lang::solana_program::program_option::COption;
use anchor_lang::solana_program::program_pack::Pack;
use matrix_system::address::{self, Address};
use matrix_system::decimal::Decimal;
use matrix_system::error::{ErrorCode, Failure};
use matrix_system::registration::{
    initialize, new_referred_user, process_referrer_chain, referrer_slot_actions, register_without_referrer,
    reserve_tokens, validate_registration_request, walk_after_referrer, check_registration_accounts, Action, FixedAccountKeys, UplineWalk,
};
use matrix_system::state::{build_upline, empty_chain, ProgramState, ReferralUpline, UplineEntry, UserAccount};
use spl_token::state::{Account as SplAccount, AccountState};

fn a(n: u8) -> Address {
    Address([n; 32])
}

fn system() -> Address {
    Address([0; 32])
}

fn token_program() -> Address {
    Address(spl_token::ID.to_bytes())
}

fn state() -> ProgramState {
    ProgramState {
        owner: a(1),
        multisig_treasury: address::multisig_treasury(),
        next_upline_id: 10,
        next_chain_id: 20,
        last_mint_amount: 0,
    }
}

fn user(filled: u8, reserved_sol: u64, reserved_tokens: u64) -> UserAccount {
    let mut chain = empty_chain(7);
    for i in 0..filled {
        chain.slots[i as usize] = Some(a(100 + i));
    }
    chain.filled_slots = filled;
    UserAccount {
        is_registered: true,
        referrer: None,
        owner_wallet: a(50),
        upline: ReferralUpline { id: 3, depth: 2, upline: vec![] },
        chain,
        reserved_sol,
        reserved_tokens,
    }
}

fn token_data(mint: &Address, owner: &Address) -> Vec<u8> {
    let account = SplAccount {
        mint: Pubkey::new_from_array(mint.0),
        owner: Pubkey::new_from_array(owner.0),
        amount: 0,
        delegate: COption::None,
        state: AccountState::Initialized,
        is_native: COption::None,
        delegated_amount: 0,
        close_authority: COption::None,
    };
    let mut data = vec![0u8; SplAccount::LEN];
    SplAccount::pack(account, &mut data).unwrap();
    data
}

fn fixed_keys() -> FixedAccountKeys {
    FixedAccountKeys {
        pool: address::pool_address(),
        b_vault: address::b_vault(),
        b_token_vault: address::b_token_vault(),
        b_vault_lp_mint: address::b_vault_lp_mint(),
        b_vault_lp: address::b_vault_lp(),
        token_mint: address::token_mint(),
        wsol_mint: address::wsol_mint(),
    }
}

#[test]
fn initialize_requires_authorized_initializer() {
    let mut s = state();
    assert_eq!(initialize(&mut s, &a(3)), Err(ErrorCode::NotAuthorized));
    assert_eq!(s.next_upline_id, 10);
    let owner = address::authorized_initializer();
    assert_eq!(initialize(&mut s, &owner), Ok(()));
    assert!(s.owner.equals(&owner));
    assert!(s.multisig_treasury.equals(&address::multisig_treasury()));
    assert_eq!((s.next_upline_id, s.next_chain_id, s.last_mint_amount), (1, 1, 0));
}

#[test]
fn register_without_referrer_by_treasury() {
    let mut s = state();
    let treasury = address::multisig_treasury();
    assert_eq!(register_without_referrer(&mut s, &a(9), &a(8), &fixed_keys()).err(), Some(ErrorCode::NotAuthorized));
    let mut keys = fixed_keys();
    keys.wsol_mint = a(1);
    assert_eq!(register_without_referrer(&mut s, &treasury, &a(8), &keys).err(), Some(ErrorCode::InvalidTokenMintAddress));
    assert_eq!((s.next_upline_id, s.next_chain_id), (10, 20));
    let user = register_without_referrer(&mut s, &treasury, &a(8), &fixed_keys()).unwrap();
    assert!(user.is_registered);
    assert!(user.referrer.is_none());
    assert!(user.owner_wallet.equals(&a(8)));
    assert_eq!((user.upline.id, user.upline.depth, user.upline.upline.len()), (10, 1, 0));
    assert_eq!((user.chain.id, user.chain.filled_slots), (20, 0));
    assert_eq!((s.next_upline_id, s.next_chain_id), (11, 21));
}

#[test]
fn registration_request_checks() {
    assert_eq!(validate_registration_request(&user(0, 0, 0), 7), Ok(()));
    assert_eq!(validate_registration_request(&user(0, 0, 0), 6), Err(ErrorCode::MissingVaultAAccounts));
    let mut unregistered = user(0, 0, 0);
    unregistered.is_registered = false;
    assert_eq!(validate_registration_request(&unregistered, 3), Err(ErrorCode::ReferrerNotRegistered));
}

#[test]
fn upline_keeps_most_recent_six() {
    let entries: Vec<UplineEntry> = (0..6).map(|i| UplineEntry { pda: a(i), wallet: a(i + 50) }).collect();
    let new_entry = UplineEntry { pda: a(99), wallet: a(98) };
    let built = build_upline(&entries, new_entry);
    assert_eq!(built.len(), 6);
    assert!(built[0].pda.equals(&a(1)));
    assert!(built[5].pda.equals(&a(99)));
    let short = build_upline(&entries[..2].to_vec(), new_entry);
    assert_eq!(short.len(), 3);
    assert!(short[0].pda.equals(&a(0)));
    assert!(short[2].wallet.equals(&a(98)));
}

#[test]
fn referred_user_gets_ids_and_upline() {
    let mut s = state();
    let mut referrer = user(0, 0, 0);
    referrer.upline.upline = vec![UplineEntry { pda: a(30), wallet: a(31) }];
    let new_user = new_referred_user(&mut s, &referrer, &a(40), &a(41), &a(42));
    assert_eq!(new_user.upline.id, 10);
    assert_eq!(new_user.upline.depth, 3);
    assert_eq!(new_user.upline.upline.len(), 2);
    assert!(new_user.upline.upline[1].pda.equals(&a(40)));
    assert_eq!(new_user.chain.id, 20);
    assert!(new_user.referrer.unwrap().equals(&a(40)));
    assert_eq!((s.next_upline_id, s.next_chain_id), (10, 21));
}

#[test]
fn referrer_slot_actions_per_slot() {
    let mint = address::token_mint();
    let wallet = a(60);
    let data = token_data(&mint, &wallet);
    let mut r0 = user(0, 0, 0);
    assert_eq!(
        referrer_slot_actions(&mut r0, 500, &wallet, &system(), &token_program(), &data, &mint),
        vec![Action::DepositToPool { amount: 500 }]
    );
    let mut r1 = user(1, 0, 0);
    assert_eq!(
        referrer_slot_actions(&mut r1, 500, &wallet, &system(), &token_program(), &data, &mint),
        vec![Action::CloseWsol, Action::ReserveSol { amount: 500 }, Action::ReserveTokens { deposit: 500 }]
    );
    assert_eq!(r1.reserved_sol, 500);
    let mut r2 = user(2, 500, 40);
    assert_eq!(
        referrer_slot_actions(&mut r2, 700, &wallet, &system(), &token_program(), &data, &mint),
        vec![Action::PaySol { amount: 500 }, Action::TransferTokens { amount: 40 }]
    );
    assert_eq!((r2.reserved_sol, r2.reserved_tokens), (0, 0));
    let mut r2_bad_token = user(2, 500, 40);
    assert_eq!(
        referrer_slot_actions(&mut r2_bad_token, 700, &a(61), &system(), &token_program(), &data, &mint),
        vec![Action::PaySol { amount: 500 }, Action::Fail { error: ErrorCode::TokenAccountInvalid }]
    );
    let mut r2_bad_wallet = user(2, 500, 40);
    assert_eq!(
        referrer_slot_actions(&mut r2_bad_wallet, 700, &wallet, &a(1), &token_program(), &data, &mint),
        vec![Action::Fail { error: ErrorCode::PaymentWalletInvalid }]
    );
    let mut r2_empty = user(2, 0, 0);
    assert_eq!(referrer_slot_actions(&mut r2_empty, 700, &wallet, &a(1), &token_program(), &data, &mint), vec![]);
}

#[test]
fn referrer_chain_completes_on_third_slot() {
    let mut s = state();
    let mut referrer = user(0, 0, 0);
    let (done, key, event) = process_referrer_chain(&a(70), &mut referrer, &a(80), &mut s);
    assert!(!done);
    assert!(key.equals(&a(80)));
    let event = event.unwrap();
    assert_eq!((event.slot_idx, event.chain_id), (0, 7));
    assert!(referrer.chain.slots[0].unwrap().equals(&a(70)));
    process_referrer_chain(&a(71), &mut referrer, &a(80), &mut s);
    let (done, _, event) = process_referrer_chain(&a(72), &mut referrer, &a(80), &mut s);
    assert!(done);
    assert_eq!(event.unwrap().slot_idx, 2);
    assert_eq!((referrer.chain.id, referrer.chain.filled_slots), (20, 0));
    assert!(referrer.chain.slots.iter().all(|slot| slot.is_none()));
    assert_eq!(s.next_chain_id, 21);
}

#[test]
fn full_matrix_is_left_alone() {
    let mut s = state();
    let mut referrer = user(0, 0, 0);
    referrer.chain.filled_slots = 3;
    let (done, _, event) = process_referrer_chain(&a(70), &mut referrer, &a(80), &mut s);
    assert!(!done);
    assert!(event.is_none());
    assert_eq!(referrer.chain.filled_slots, 3);
}

#[test]
fn reserve_tokens_records_limited_amount() {
    let mut s = state();
    s.last_mint_amount = 10;
    let mut account = user(1, 500, 0);
    let mut pool = vec![0u8; 234];
    pool[233] = 1;
    let mut a_vault = vec![0u8; 19];
    a_vault[8] = 1;
    a_vault[11] = 100;
    let b_vault = a_vault.clone();
    let mut lp = vec![0u8; 72];
    lp[64] = 1;
    let mut mint = vec![0u8; 44];
    mint[36] = 1;
    // both sides worth 100: one token per lamport, limited to 3 * 10
    let minted = reserve_tokens(&mut s, &mut account, 500, &pool, &a_vault, &b_vault, &lp, &lp, &mint, &mint);
    assert_eq!(minted, Ok(10));
    assert_eq!(account.reserved_tokens, 10);
    let minted = reserve_tokens(&mut s, &mut account, 25, &pool, &a_vault, &b_vault, &lp, &lp, &mint, &mint);
    assert_eq!(minted, Ok(25));
    assert_eq!((account.reserved_tokens, s.last_mint_amount), (25, 25));
    let failed = reserve_tokens(&mut s, &mut account, 25, &pool[..10], &a_vault, &b_vault, &lp, &lp, &mint, &mint);
    assert_eq!(failed, Err(ErrorCode::PriceMeteoraReadFailed));
    assert_eq!(account.reserved_tokens, 25);
}

#[test]
fn walk_start_rules() {
    assert!(matches!(UplineWalk::start(&a(1), 100, 7), Ok(None)));
    assert!(matches!(UplineWalk::start(&a(1), 0, 10), Ok(None)));
    assert!(matches!(UplineWalk::start(&a(1), 100, 11), Err(ErrorCode::MissingUplineAccount)));
    let walk = UplineWalk::start(&a(1), 100, 13).unwrap().unwrap();
    assert_eq!((walk.trio_count, walk.next_trio, walk.current_deposit), (2, 0, 100));
    assert_eq!(walk.next_trio(), Some(0));
}

#[test]
fn upline_trio_checks() {
    let program = address::program_id();
    assert_eq!(UplineWalk::check_upline_trio(&system(), &program, 9), Ok(()));
    assert_eq!(UplineWalk::check_upline_trio(&a(1), &program, 9), Err(Failure::Code(ErrorCode::PaymentWalletInvalid)));
    assert_eq!(UplineWalk::check_upline_trio(&system(), &a(1), 9), Err(Failure::Code(ErrorCode::InvalidSlotOwner)));
    assert_eq!(UplineWalk::check_upline_trio(&system(), &program, 8), Err(Failure::InvalidAccountData));
}

#[test]
fn walk_pays_completed_uplines_then_places_deposit() {
    let mint = address::token_mint();
    let mut s = state();
    let mut walk = UplineWalk::start(&a(1), 100, 16).unwrap().unwrap();
    assert_eq!(walk.trio_count, 3);

    // first upline completes its matrix: payout, and the walk moves up with it
    let wallet = a(61);
    let data = token_data(&mint, &wallet);
    let mut first = user(2, 30, 4);
    let (actions, event) = walk
        .visit_upline(&mut s, &mut first, &a(200), &wallet, &system(), &token_program(), &data, &mint)
        .unwrap();
    assert_eq!(actions, vec![Action::PaySol { amount: 30 }, Action::TransferTokens { amount: 4 }]);
    assert_eq!((event.slot_idx, event.chain_id), (2, 7));
    assert!(event.user.equals(&a(1)));
    assert_eq!((first.chain.filled_slots, first.chain.id, first.reserved_sol, first.reserved_tokens), (0, 20, 0, 0));
    assert_eq!(s.next_chain_id, 21);
    assert!(walk.current_user.equals(&a(200)));
    assert_eq!(walk.next_trio(), Some(1));

    // second upline takes the deposit into its second slot
    let mut second = user(1, 0, 0);
    let (actions, _) = walk
        .visit_upline(&mut s, &mut second, &a(201), &a(62), &system(), &token_program(), &[], &mint)
        .unwrap();
    assert_eq!(
        actions,
        vec![Action::CloseWsol, Action::ReserveSol { amount: 100 }, Action::ReserveTokens { deposit: 100 }]
    );
    assert!(second.chain.slots[1].unwrap().equals(&a(200)));
    assert_eq!(second.reserved_sol, 100);
    assert_eq!(walk.next_trio(), None);
    assert_eq!(walk.finish(165), vec![]);
}

#[test]
fn walk_rejects_unregistered_and_bad_token_accounts() {
    let mint = address::token_mint();
    let mut s = state();
    let mut walk = UplineWalk::start(&a(1), 100, 10).unwrap().unwrap();
    let mut unregistered = user(0, 0, 0);
    unregistered.is_registered = false;
    let result = walk.visit_upline(&mut s, &mut unregistered, &a(2), &a(3), &system(), &token_program(), &[], &mint);
    assert_eq!(result.err(), Some(ErrorCode::SlotNotRegistered));
    let mut third_slot = user(2, 0, 0);
    let result = walk.visit_upline(&mut s, &mut third_slot, &a(2), &a(3), &system(), &a(9), &[], &mint);
    assert_eq!(result.err(), Some(ErrorCode::TokenAccountInvalid));
    let result = walk.visit_upline(&mut s, &mut third_slot, &a(2), &a(3), &system(), &token_program(), &[], &mint);
    assert_eq!(result.err(), Some(ErrorCode::TokenAccountInvalid));
    assert_eq!(third_slot.chain.filled_slots, 2);
    assert_eq!(walk.next_trio(), Some(0));
}

#[test]
fn walk_with_unplaced_deposit_deposits_and_closes() {
    let mint = address::token_mint();
    let mut s = state();
    let mut walk = UplineWalk::start(&a(1), 100, 10).unwrap().unwrap();
    let wallet = a(61);
    let data = token_data(&mint, &wallet);
    let mut only = user(2, 0, 0);
    let (actions, _) = walk
        .visit_upline(&mut s, &mut only, &a(200), &wallet, &system(), &token_program(), &data, &mint)
        .unwrap();
    assert_eq!(actions, vec![]);
    assert_eq!(walk.next_trio(), None);
    assert_eq!(walk.finish(165), vec![Action::DepositToPool { amount: 100 }, Action::CloseWsol]);
    assert_eq!(walk.finish(0), vec![Action::DepositToPool { amount: 100 }]);
}

#[test]
fn walk_stops_after_six_uplines() {
    let mint = address::token_mint();
    let mut s = state();
    let mut walk = UplineWalk::start(&a(1), 100, 7 + 3 * 8).unwrap().unwrap();
    let wallet = a(61);
    let data = token_data(&mint, &wallet);
    let mut visited = 0;
    while let Some(_) = walk.next_trio() {
        let mut upline = user(2, 0, 0);
        walk.visit_upline(&mut s, &mut upline, &a(200), &wallet, &system(), &token_program(), &data, &mint).unwrap();
        visited += 1;
    }
    assert_eq!(visited, 6);
}

#[test]
fn decimal_text() {
    assert_eq!(Decimal::new(12345, 2).to_string(), "123.45");
    assert_eq!(Decimal::new(5, 3).to_string(), "0.005");
    assert_eq!(Decimal::new(123, 3).to_string(), "0.123");
    assert_eq!(Decimal::new(123, 0).to_string(), "123.");
    assert_eq!(Decimal::new(0, 0).to_string(), "0.");
    assert_eq!(Decimal::new(-12345, 2).to_string(), "-123.45");
    assert_eq!(Decimal::new(-5, 2).to_string(), "0.-5");
    assert_eq!(Decimal::new(i128::MIN, 0).to_string(), format!("{}.", i128::MIN));
    assert_eq!(Decimal::new(i128::MAX, 38).to_string(), "1.70141183460469231731687303715884105727");
    assert_eq!(Decimal::new(i128::MAX, 40).to_string(), "0.0170141183460469231731687303715884105727");
}

#[test]
fn walk_follows_only_a_completed_third_slot() {
    assert!(matches!(walk_after_referrer(2, true, &a(1), 100, 10), Ok(Some(_))));
    assert!(matches!(walk_after_referrer(1, true, &a(1), 100, 10), Ok(None)));
    assert!(matches!(walk_after_referrer(2, false, &a(1), 100, 10), Ok(None)));
    assert!(matches!(walk_after_referrer(2, true, &a(1), 100, 11), Err(ErrorCode::MissingUplineAccount)));
    assert!(matches!(walk_after_referrer(0, false, &a(1), 100, 11), Ok(None)));
}

#[test]
fn decimal_text_has_one_point_and_reads_back() {
    for (value, decimals) in [(0i128, 0u32), (7, 3), (12345, 2), (12345, 5), (12345, 9), (i128::MAX, 20)] {
        let text = Decimal::new(value, decimals).to_string();
        assert_eq!(text.matches('.').count(), 1);
        let (before, after) = text.split_once('.').unwrap();
        assert_eq!(after.len(), decimals as usize);
        assert!(after.chars().all(|c| c.is_ascii_digit()));
        let digits = value.to_string();
        if digits.len() <= decimals as usize {
            assert_eq!(before, "0");
        } else {
            assert_eq!(before, &digits[..digits.len() - decimals as usize]);
        }
        assert_eq!(format!("{}{}", before, after).parse::<i128>().unwrap(), value);
    }
}

#[test]
fn initialize_succeeds_for_authorized_initializer_from_any_state() {
    let mut s = ProgramState {
        owner: a(9),
        multisig_treasury: a(9),
        next_upline_id: 77,
        next_chain_id: 88,
        last_mint_amount: 99,
    };
    assert_eq!(initialize(&mut s, &address::authorized_initializer()), Ok(()));
    assert_eq!((s.next_upline_id, s.next_chain_id, s.last_mint_amount), (1, 1, 0));
}

#[test]
fn registration_account_checks_report_first_failure() {
    let referrer = user(0, 0, 0);
    let pool = address::pool_address();
    let a_vault = address::a_vault();
    let a_lp = address::a_vault_lp();
    let a_mint = address::a_vault_lp_mint();
    let program = address::chainlink_program();
    let feed = address::sol_usd_feed();
    let keys = fixed_keys();
    let check = |referrer: &UserAccount, len: usize, pool: &Address, keys: &FixedAccountKeys, program: &Address| {
        check_registration_accounts(referrer, len, pool, &a_vault, &a_lp, &a_mint, keys, program, &feed)
    };
    assert_eq!(check(&referrer, 7, &pool, &keys, &program), Ok(()));
    let mut unregistered = user(0, 0, 0);
    unregistered.is_registered = false;
    assert_eq!(check(&unregistered, 3, &a(1), &keys, &a(1)), Err(ErrorCode::ReferrerNotRegistered));
    assert_eq!(check(&referrer, 6, &a(1), &keys, &a(1)), Err(ErrorCode::MissingVaultAAccounts));
    let mut bad_keys = fixed_keys();
    bad_keys.token_mint = a(1);
    assert_eq!(check(&referrer, 7, &a(1), &bad_keys, &a(1)), Err(ErrorCode::InvalidPoolAddress));
    assert_eq!(check(&referrer, 7, &pool, &bad_keys, &a(1)), Err(ErrorCode::InvalidTokenMintAddress));
    assert_eq!(check(&referrer, 7, &pool, &keys, &a(1)), Err(ErrorCode::InvalidChainlinkProgram));
}
