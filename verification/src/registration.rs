//! The program's instructions as decisions: who may initialize and register,
//! what each registration does to the referrer's matrix, and the walk up the
//! upline that pays out completed matrices. The caller performs the transfers,
//! deposits and mints that the decisions call for, in the order given.

use vstd::prelude::*;

use crate::address::{self, Address};
use crate::error::{ErrorCode, Failure};
use crate::bytes::le_u64_at;
use crate::pricing::{
    check_mint_limit,
    get_donut_tokens_amount,
    lemma_donut_tokens_formula,
    lemma_mint_limit_rule,
    spec_check_mint_limit,
    spec_donut_tokens_amount,
};
use crate::state::{
    build_upline,
    chain_well_formed,
    empty_chain,
    lemma_fill_slot_keeps_well_formed,
    spec_build_upline,
    spec_empty_chain,
    spec_fill_slot,
    spec_slot_event,
    ProgramState,
    ReferralUpline,
    SlotFilled,
    UplineEntry,
    UserAccount,
    MAX_UPLINE_DEPTH,
};
use crate::token::{
    spec_token_program_id,
    spec_verify_token_account,
    spec_verify_wallet_is_system_account,
    token_program_id,
    verify_token_account,
    verify_wallet_is_system_account,
};
use crate::verify::{
    spec_verify_all_fixed_addresses,
    spec_verify_chainlink_addresses,
    spec_verify_pool_and_vault_a_addresses,
    verify_all_fixed_addresses,
    verify_chainlink_addresses,
    verify_pool_and_vault_a_addresses,
};

verus! {

/// Accounts of a registration after the pool and vault A accounts.
pub const VAULT_A_ACCOUNTS_COUNT: usize = 5;

/// Index of the first upline account among the extra accounts of a
/// registration: after the pool, the vault A accounts and the two oracle
/// accounts.
pub const UPLINE_START_INDEX: usize = 7;

/// Something the caller does on behalf of a registration, in order.
#[derive(Clone, Copy, Debug, PartialEq, Eq, Structural)]
pub enum Action {
    /// Deposit `amount` from the user's wrapped SOL account into vault B.
    DepositToPool { amount: u64 },
    /// Close the user's wrapped SOL account back into the user's wallet.
    CloseWsol,
    /// Move `amount` from the user's wallet into the program's SOL vault.
    ReserveSol { amount: u64 },
    /// Price `deposit` in program tokens with `reserve_tokens` and mint what it
    /// returns into the program's token vault.
    ReserveTokens { deposit: u64 },
    /// Pay `amount` from the program's SOL vault to the slot owner's wallet.
    PaySol { amount: u64 },
    /// Transfer `amount` program tokens from the program's vault to the slot
    /// owner's token account.
    TransferTokens { amount: u64 },
    /// Stop the instruction with `error`.
    Fail { error: ErrorCode },
}

/// The keys of the fixed pool, vault B and mint accounts of a registration.
#[derive(Clone, Copy, Debug)]
pub struct FixedAccountKeys {
    pub pool: Address,
    pub b_vault: Address,
    pub b_token_vault: Address,
    pub b_vault_lp_mint: Address,
    pub b_vault_lp: Address,
    pub token_mint: Address,
    pub wsol_mint: Address,
}

/// The outcome of checking the fixed accounts of a registration.
pub open spec fn spec_verify_fixed_keys(keys: FixedAccountKeys) -> Result<(), ErrorCode> {
    spec_verify_all_fixed_addresses(
        keys.pool@,
        keys.b_vault@,
        keys.b_token_vault@,
        keys.b_vault_lp_mint@,
        keys.b_vault_lp@,
        keys.token_mint@,
        keys.wsol_mint@,
    )
}

// ----- initialize -----

/// Sets up the program state. Only the authorized initializer may do so; it
/// becomes the owner, the treasury is the fixed multisig, both counters start at
/// one and no mint has happened yet.
pub fn initialize(state: &mut ProgramState, owner: &Address) -> (res: Result<(), ErrorCode>)
    ensures
        res is Ok <==> owner@ == address::spec_authorized_initializer(),
        owner@ != address::spec_authorized_initializer() <==> res == Err::<(), ErrorCode>(ErrorCode::NotAuthorized),
        res is Err ==> *final(state) == *old(state),
        res is Ok ==> {
            &&& final(state).owner == *owner
            &&& final(state).multisig_treasury@ == address::spec_multisig_treasury()
            &&& final(state).next_upline_id == 1
            &&& final(state).next_chain_id == 1
            &&& final(state).last_mint_amount == 0
        },
{
    if !owner.equals(&address::authorized_initializer()) {
        return Err(ErrorCode::NotAuthorized);
    }
    state.owner = *owner;
    state.multisig_treasury = address::multisig_treasury();
    state.next_upline_id = 1;
    state.next_chain_id = 1;
    state.last_mint_amount = 0;
    Ok(())
}

// ----- registration without a referrer -----

/// The outcome of the checks of a registration without a referrer: the signer
/// must be the treasury, then the fixed accounts must match.
pub open spec fn spec_register_without_referrer_checks(state: ProgramState, owner: Address, keys: FixedAccountKeys) -> Result<(), ErrorCode> {
    if owner@ != state.multisig_treasury@ {
        Err(ErrorCode::NotAuthorized)
    } else {
        spec_verify_fixed_keys(keys)
    }
}

/// Registers a user at the top of a tree, without a referrer: the treasury signs,
/// the user gets the next upline and matrix ids (both counters advance), an empty
/// upline of depth one, an empty matrix and nothing reserved. The deposit itself
/// is made by the caller afterwards.
pub fn register_without_referrer(
    state: &mut ProgramState,
    owner: &Address,
    user_wallet: &Address,
    keys: &FixedAccountKeys,
) -> (res: Result<UserAccount, ErrorCode>)
    requires
        spec_register_without_referrer_checks(*old(state), *owner, *keys) is Ok ==> {
            &&& old(state).next_upline_id < u32::MAX
            &&& old(state).next_chain_id < u32::MAX
        },
    ensures
        match spec_register_without_referrer_checks(*old(state), *owner, *keys) {
            Err(e) => res == Err::<UserAccount, ErrorCode>(e) && *final(state) == *old(state),
            Ok(()) => res matches Ok(user) && {
                &&& user.is_registered
                &&& user.referrer is None
                &&& user.owner_wallet == *user_wallet
                &&& user.upline.id == old(state).next_upline_id
                &&& user.upline.depth == 1
                &&& user.upline.upline@ == Seq::<UplineEntry>::empty()
                &&& user.chain == spec_empty_chain(old(state).next_chain_id)
                &&& user.reserved_sol == 0
                &&& user.reserved_tokens == 0
                &&& *final(state) == (ProgramState {
                    next_upline_id: (old(state).next_upline_id + 1) as u32,
                    next_chain_id: (old(state).next_chain_id + 1) as u32,
                    ..*old(state)
                })
            },
        },
{
    if !owner.equals(&state.multisig_treasury) {
        return Err(ErrorCode::NotAuthorized);
    }
    verify_all_fixed_addresses(
        &keys.pool,
        &keys.b_vault,
        &keys.b_token_vault,
        &keys.b_vault_lp_mint,
        &keys.b_vault_lp,
        &keys.token_mint,
        &keys.wsol_mint,
    )?;
    let upline_id = state.next_upline_id;
    let chain_id = state.next_chain_id;
    state.next_upline_id = state.next_upline_id + 1;
    state.next_chain_id = state.next_chain_id + 1;
    Ok(
        UserAccount {
            is_registered: true,
            referrer: None,
            owner_wallet: *user_wallet,
            upline: ReferralUpline { id: upline_id, depth: 1, upline: Vec::new() },
            chain: empty_chain(chain_id),
            reserved_sol: 0,
            reserved_tokens: 0,
        },
    )
}

// ----- registration with a referrer -----

/// The outcome of the first checks of a registration with a referrer.
pub open spec fn spec_validate_registration_request(referrer: UserAccount, remaining_accounts: usize) -> Result<(), ErrorCode> {
    if !referrer.is_registered {
        Err(ErrorCode::ReferrerNotRegistered)
    } else if remaining_accounts < VAULT_A_ACCOUNTS_COUNT + 2 {
        Err(ErrorCode::MissingVaultAAccounts)
    } else {
        Ok(())
    }
}

/// The referrer must be registered, and the extra accounts must hold at least
/// the pool, the vault A accounts and the two oracle accounts.
pub fn validate_registration_request(referrer: &UserAccount, remaining_accounts: usize) -> (res: Result<(), ErrorCode>)
    ensures
        res == spec_validate_registration_request(*referrer, remaining_accounts),
{
    if !referrer.is_registered {
        return Err(ErrorCode::ReferrerNotRegistered);
    }
    if remaining_accounts < VAULT_A_ACCOUNTS_COUNT + 2 {
        return Err(ErrorCode::MissingVaultAAccounts);
    }
    Ok(())
}

/// The outcome of the account checks of a registration with a referrer, taken
/// in order and reporting the first that fails: the request itself, the pool
/// and vault A accounts among the extra accounts, the fixed pool, vault B and
/// mint accounts, then the oracle accounts.
pub open spec fn spec_check_registration_accounts(
    referrer: UserAccount,
    remaining_accounts: usize,
    pool: Address,
    a_vault: Address,
    a_vault_lp: Address,
    a_vault_lp_mint: Address,
    keys: FixedAccountKeys,
    chainlink_program: Address,
    chainlink_feed: Address,
) -> Result<(), ErrorCode> {
    match spec_validate_registration_request(referrer, remaining_accounts) {
        Err(e) => Err(e),
        Ok(()) => match spec_verify_pool_and_vault_a_addresses(pool@, a_vault@, a_vault_lp@, a_vault_lp_mint@) {
            Err(e) => Err(e),
            Ok(()) => match spec_verify_fixed_keys(keys) {
                Err(e) => Err(e),
                Ok(()) => spec_verify_chainlink_addresses(chainlink_program@, chainlink_feed@),
            },
        },
    }
}

/// Runs the account checks of a registration with a referrer in order (see
/// `spec_check_registration_accounts`); the pool, vault A and oracle accounts
/// are the first, second, third, fourth, sixth and seventh extra accounts.
pub fn check_registration_accounts(
    referrer: &UserAccount,
    remaining_accounts: usize,
    pool: &Address,
    a_vault: &Address,
    a_vault_lp: &Address,
    a_vault_lp_mint: &Address,
    keys: &FixedAccountKeys,
    chainlink_program: &Address,
    chainlink_feed: &Address,
) -> (res: Result<(), ErrorCode>)
    ensures
        res == spec_check_registration_accounts(
            *referrer,
            remaining_accounts,
            *pool,
            *a_vault,
            *a_vault_lp,
            *a_vault_lp_mint,
            *keys,
            *chainlink_program,
            *chainlink_feed,
        ),
{
    validate_registration_request(referrer, remaining_accounts)?;
    verify_pool_and_vault_a_addresses(pool, a_vault, a_vault_lp, a_vault_lp_mint)?;
    verify_all_fixed_addresses(
        &keys.pool,
        &keys.b_vault,
        &keys.b_token_vault,
        &keys.b_vault_lp_mint,
        &keys.b_vault_lp,
        &keys.token_mint,
        &keys.wsol_mint,
    )?;
    verify_chainlink_addresses(chainlink_program, chainlink_feed)?;
    Ok(())
}

/// The account checks pass exactly when the referrer is registered, at least
/// seven extra accounts are given, and every account is the fixed one: the pool
/// and vault A accounts, the pool, vault B and mint accounts, the Chainlink
/// program and the SOL/USD feed. With everything else right, a wrong feed is
/// reported as `InvalidPriceFeed` and a wrong oracle program as
/// `InvalidChainlinkProgram`.
pub proof fn lemma_registration_accounts_all_fixed(
    referrer: UserAccount,
    remaining_accounts: usize,
    pool: Address,
    a_vault: Address,
    a_vault_lp: Address,
    a_vault_lp_mint: Address,
    keys: FixedAccountKeys,
    chainlink_program: Address,
    chainlink_feed: Address,
)
    ensures
        ({
            let res = spec_check_registration_accounts(
                referrer,
                remaining_accounts,
                pool,
                a_vault,
                a_vault_lp,
                a_vault_lp_mint,
                keys,
                chainlink_program,
                chainlink_feed,
            );
            let earlier_ok = {
                &&& referrer.is_registered
                &&& remaining_accounts >= 7
                &&& pool@ == address::spec_pool_address()
                &&& a_vault@ == address::spec_a_vault()
                &&& a_vault_lp@ == address::spec_a_vault_lp()
                &&& a_vault_lp_mint@ == address::spec_a_vault_lp_mint()
                &&& keys.pool@ == address::spec_pool_address()
                &&& keys.b_vault@ == address::spec_b_vault()
                &&& keys.b_token_vault@ == address::spec_b_token_vault()
                &&& keys.b_vault_lp_mint@ == address::spec_b_vault_lp_mint()
                &&& keys.b_vault_lp@ == address::spec_b_vault_lp()
                &&& keys.token_mint@ == address::spec_token_mint()
                &&& keys.wsol_mint@ == address::spec_wsol_mint()
            };
            &&& res is Ok <==> (earlier_ok && chainlink_program@ == address::spec_chainlink_program()
                && chainlink_feed@ == address::spec_sol_usd_feed())
            &&& earlier_ok && chainlink_program@ != address::spec_chainlink_program() ==> res == Err::<(), ErrorCode>(
                ErrorCode::InvalidChainlinkProgram,
            )
            &&& earlier_ok && chainlink_program@ == address::spec_chainlink_program() && chainlink_feed@
                != address::spec_sol_usd_feed() ==> res == Err::<(), ErrorCode>(ErrorCode::InvalidPriceFeed)
            &&& !referrer.is_registered ==> res == Err::<(), ErrorCode>(ErrorCode::ReferrerNotRegistered)
        }),
{
}

/// The referrer's first two slots: the first sends the whole deposit to the pool
/// and nothing else; the second reserves the whole deposit for the referrer in
/// SOL and asks for tokens worth it, after unwrapping the user's SOL.
pub proof fn lemma_referrer_first_slots(
    referrer: UserAccount,
    deposit_amount: u64,
    referrer_wallet: Address,
    referrer_wallet_owner: Address,
    token_account_owner: Address,
    token_account_data: Seq<u8>,
    token_mint: Address,
)
    ensures
        ({
            let (after, actions) = spec_referrer_slot_plan(
                referrer,
                deposit_amount,
                referrer_wallet,
                referrer_wallet_owner,
                token_account_owner,
                token_account_data,
                token_mint,
            );
            &&& referrer.chain.filled_slots == 0 ==> {
                &&& actions.len() == 1
                &&& actions[0] == Action::DepositToPool { amount: deposit_amount }
                &&& after.reserved_sol == referrer.reserved_sol
                &&& after.reserved_tokens == referrer.reserved_tokens
            }
            &&& referrer.chain.filled_slots == 1 ==> {
                &&& actions.len() == 3
                &&& actions[0] == Action::CloseWsol
                &&& actions[1] == Action::ReserveSol { amount: deposit_amount }
                &&& actions[2] == Action::ReserveTokens { deposit: deposit_amount }
                &&& after.reserved_sol == deposit_amount
                &&& after.reserved_tokens == referrer.reserved_tokens
            }
            &&& referrer.chain.filled_slots >= 3 ==> actions.len() == 0 && after == referrer
            &&& after.chain == referrer.chain
        }),
{
}

/// Creates the account of a user referred by `referrer`: the user gets the
/// current upline id (which does not advance), the next matrix id (which does),
/// the referrer's depth plus one, and the referrer's upline with the referrer
/// appended.
pub fn new_referred_user(
    state: &mut ProgramState,
    referrer: &UserAccount,
    referrer_key: &Address,
    referrer_wallet: &Address,
    user_wallet: &Address,
) -> (res: UserAccount)
    requires
        referrer.upline.depth < u8::MAX,
        old(state).next_chain_id < u32::MAX,
    ensures
        res.is_registered,
        res.referrer == Some(*referrer_key),
        res.owner_wallet == *user_wallet,
        res.upline.id == old(state).next_upline_id,
        res.upline.depth == referrer.upline.depth + 1,
        res.upline.upline@ == spec_build_upline(
            referrer.upline.upline@,
            (UplineEntry { pda: *referrer_key, wallet: *referrer_wallet }),
        ),
        res.chain == spec_empty_chain(old(state).next_chain_id),
        res.reserved_sol == 0,
        res.reserved_tokens == 0,
        *final(state) == (ProgramState { next_chain_id: (old(state).next_chain_id + 1) as u32, ..*old(state) }),
{
    let referrer_entry = UplineEntry { pda: *referrer_key, wallet: *referrer_wallet };
    let new_upline = build_upline(&referrer.upline.upline, referrer_entry);
    let upline_id = state.next_upline_id;
    let chain_id = state.next_chain_id;
    state.next_chain_id = state.next_chain_id + 1;
    UserAccount {
        is_registered: true,
        referrer: Some(*referrer_key),
        owner_wallet: *user_wallet,
        upline: ReferralUpline { id: upline_id, depth: referrer.upline.depth + 1, upline: new_upline },
        chain: empty_chain(chain_id),
        reserved_sol: 0,
        reserved_tokens: 0,
    }
}

/// The account with its reserves set as given.
pub open spec fn with_reserves(account: UserAccount, reserved_sol: u64, reserved_tokens: u64) -> UserAccount {
    UserAccount { reserved_sol, reserved_tokens, ..account }
}

/// What the referrer's slot calls for, and the referrer afterwards. The slot is
/// the one the new user is about to take:
/// - the first: the deposit goes to the pool;
/// - the second: the wrapped SOL is unwrapped, the deposit is reserved for the
///   referrer and tokens worth it are reserved too;
/// - the third: the reserved SOL (if any) is paid to the referrer's wallet, which
///   must be a system account; the referrer's token account must be valid; the
///   reserved tokens (if any) are transferred to it;
/// - none left: nothing.
pub open spec fn spec_referrer_slot_plan(
    referrer: UserAccount,
    deposit_amount: u64,
    referrer_wallet: Address,
    referrer_wallet_owner: Address,
    token_account_owner: Address,
    token_account_data: Seq<u8>,
    token_mint: Address,
) -> (UserAccount, Seq<Action>) {
    let slot_idx = referrer.chain.filled_slots;
    if slot_idx == 0 {
        (referrer, seq![Action::DepositToPool { amount: deposit_amount }])
    } else if slot_idx == 1 {
        (
            with_reserves(referrer, deposit_amount, referrer.reserved_tokens),
            seq![
                Action::CloseWsol,
                Action::ReserveSol { amount: deposit_amount },
                Action::ReserveTokens { deposit: deposit_amount },
            ],
        )
    } else if slot_idx == 2 {
        if referrer.reserved_sol > 0 && spec_verify_wallet_is_system_account(referrer_wallet_owner@) is Err {
            (referrer, seq![Action::Fail { error: ErrorCode::PaymentWalletInvalid }])
        } else {
            let paid_sol: Seq<Action> = if referrer.reserved_sol > 0 {
                seq![Action::PaySol { amount: referrer.reserved_sol }]
            } else {
                seq![]
            };
            let after_sol = with_reserves(referrer, 0, referrer.reserved_tokens);
            match spec_verify_token_account(token_account_owner@, token_account_data, referrer_wallet@, token_mint@) {
                Err(e) => (after_sol, paid_sol.push(Action::Fail { error: e })),
                Ok(()) => if referrer.reserved_tokens > 0 {
                    (
                        with_reserves(after_sol, 0, 0),
                        paid_sol.push(Action::TransferTokens { amount: referrer.reserved_tokens }),
                    )
                } else {
                    (after_sol, paid_sol)
                },
            }
        }
    } else {
        (referrer, seq![])
    }
}

/// Decides what the referrer's slot calls for (see `spec_referrer_slot_plan`),
/// updating the referrer's reserves, and returns the actions in order.
pub fn referrer_slot_actions(
    referrer: &mut UserAccount,
    deposit_amount: u64,
    referrer_wallet: &Address,
    referrer_wallet_owner: &Address,
    token_account_owner: &Address,
    token_account_data: &[u8],
    token_mint: &Address,
) -> (res: Vec<Action>)
    ensures
        (*final(referrer), res@) == spec_referrer_slot_plan(
            *old(referrer),
            deposit_amount,
            *referrer_wallet,
            *referrer_wallet_owner,
            *token_account_owner,
            token_account_data@,
            *token_mint,
        ),
{
    let mut actions: Vec<Action> = Vec::new();
    let slot_idx = referrer.chain.filled_slots;
    if slot_idx == 0 {
        actions.push(Action::DepositToPool { amount: deposit_amount });
    } else if slot_idx == 1 {
        actions.push(Action::CloseWsol);
        actions.push(Action::ReserveSol { amount: deposit_amount });
        referrer.reserved_sol = deposit_amount;
        actions.push(Action::ReserveTokens { deposit: deposit_amount });
    } else if slot_idx == 2 {
        if referrer.reserved_sol > 0 {
            if verify_wallet_is_system_account(referrer_wallet_owner).is_err() {
                actions.push(Action::Fail { error: ErrorCode::PaymentWalletInvalid });
                assert(actions@ =~= seq![Action::Fail { error: ErrorCode::PaymentWalletInvalid }]);
                return actions;
            }
            actions.push(Action::PaySol { amount: referrer.reserved_sol });
            referrer.reserved_sol = 0;
        }
        match verify_token_account(token_account_owner, token_account_data, referrer_wallet, token_mint) {
            Err(e) => {
                actions.push(Action::Fail { error: e });
                return actions;
            },
            Ok(()) => {},
        }
        if referrer.reserved_tokens > 0 {
            actions.push(Action::TransferTokens { amount: referrer.reserved_tokens });
            referrer.reserved_tokens = 0;
        }
    }
    proof {
        if slot_idx == 0 {
            assert(actions@ =~= seq![Action::DepositToPool { amount: deposit_amount }]);
        } else if slot_idx == 1 {
            assert(actions@ =~= seq![
                Action::CloseWsol,
                Action::ReserveSol { amount: deposit_amount },
                Action::ReserveTokens { deposit: deposit_amount },
            ]);
        } else if slot_idx != 2 {
            assert(actions@ =~= Seq::<Action>::empty());
        }
    }
    actions
}

/// The tokens reserved for a deposit: the deposit priced at the pool, limited
/// against the last mint.
pub open spec fn spec_reserved_tokens(
    last_mint_amount: u64,
    pool: Seq<u8>,
    a_vault: Seq<u8>,
    b_vault: Seq<u8>,
    a_vault_lp: Seq<u8>,
    b_vault_lp: Seq<u8>,
    a_vault_lp_mint: Seq<u8>,
    b_vault_lp_mint: Seq<u8>,
    deposit: u64,
) -> Result<u64, ErrorCode> {
    match spec_donut_tokens_amount(pool, a_vault, b_vault, a_vault_lp, b_vault_lp, a_vault_lp_mint, b_vault_lp_mint, deposit) {
        Err(e) => Err(e),
        Ok(tokens) => Ok(spec_check_mint_limit(last_mint_amount, tokens)),
    }
}

/// The tokens reserved for a deposit in plain arithmetic: with side A valued from
/// the vault A accounts and side B from the vault B accounts (LP amount times
/// vault total over LP supply), the deposit is priced at `floor(A * 10^9 / B)`
/// tokens per 10^9 lamports, rounded down and at least one; then, after a first
/// mint, an amount above three times the last mint is replaced by the last mint.
pub proof fn lemma_reserved_tokens_formula(
    last_mint_amount: u64,
    pool: Seq<u8>,
    a_vault: Seq<u8>,
    b_vault: Seq<u8>,
    a_vault_lp: Seq<u8>,
    b_vault_lp: Seq<u8>,
    a_vault_lp_mint: Seq<u8>,
    b_vault_lp_mint: Seq<u8>,
    deposit: u64,
)
    requires
        pool.len() > 233,
        pool[233] != 0,
        a_vault.len() >= 19,
        b_vault.len() >= 19,
        a_vault[8] != 0,
        b_vault[8] != 0,
        a_vault_lp.len() >= 72,
        b_vault_lp.len() >= 72,
        a_vault_lp_mint.len() >= 44,
        b_vault_lp_mint.len() >= 44,
        le_u64_at(a_vault_lp_mint, 36) > 0,
        le_u64_at(b_vault_lp_mint, 36) > 0,
    ensures
        ({
            let value_a = le_u64_at(a_vault_lp, 64) * le_u64_at(a_vault, 11) / le_u64_at(a_vault_lp_mint, 36);
            let value_b = le_u64_at(b_vault_lp, 64) * le_u64_at(b_vault, 11) / le_u64_at(b_vault_lp_mint, 36);
            let ratio = value_a * 1_000_000_000 / value_b;
            let priced = deposit * ratio / 1_000_000_000;
            let tokens = if priced == 0 {
                1
            } else {
                priced
            };
            let res = spec_reserved_tokens(
                last_mint_amount,
                pool,
                a_vault,
                b_vault,
                a_vault_lp,
                b_vault_lp,
                a_vault_lp_mint,
                b_vault_lp_mint,
                deposit,
            );
            0 < value_a <= u64::MAX && 0 < value_b <= u64::MAX && deposit * ratio <= i128::MAX && priced <= u64::MAX
                ==> {
                &&& last_mint_amount == 0 ==> res == Ok::<u64, ErrorCode>(tokens as u64)
                &&& last_mint_amount > 0 && tokens <= 3 * last_mint_amount ==> res == Ok::<u64, ErrorCode>(
                    tokens as u64,
                )
                &&& last_mint_amount > 0 && tokens > 3 * last_mint_amount ==> res == Ok::<u64, ErrorCode>(
                    last_mint_amount,
                )
            }
        }),
{
    lemma_donut_tokens_formula(
        pool,
        a_vault,
        b_vault,
        a_vault_lp,
        b_vault_lp,
        a_vault_lp_mint,
        b_vault_lp_mint,
        deposit,
    );
    match spec_donut_tokens_amount(
        pool,
        a_vault,
        b_vault,
        a_vault_lp,
        b_vault_lp,
        a_vault_lp_mint,
        b_vault_lp_mint,
        deposit,
    ) {
        Ok(t) => lemma_mint_limit_rule(last_mint_amount, t),
        Err(_) => {},
    }
}

/// Carries out the pricing part of `Action::ReserveTokens`: prices the deposit in
/// program tokens from the pool data, applies the mint limit (recording the
/// last mint) and reserves the result for `account`. Returns the amount to mint.
pub fn reserve_tokens(
    state: &mut ProgramState,
    account: &mut UserAccount,
    deposit: u64,
    pool: &[u8],
    a_vault: &[u8],
    b_vault: &[u8],
    a_vault_lp: &[u8],
    b_vault_lp: &[u8],
    a_vault_lp_mint: &[u8],
    b_vault_lp_mint: &[u8],
) -> (res: Result<u64, ErrorCode>)
    ensures
        res == spec_reserved_tokens(
            old(state).last_mint_amount,
            pool@,
            a_vault@,
            b_vault@,
            a_vault_lp@,
            b_vault_lp@,
            a_vault_lp_mint@,
            b_vault_lp_mint@,
            deposit,
        ),
        res is Err ==> *final(state) == *old(state) && *final(account) == *old(account),
        res matches Ok(minted) ==> {
            &&& *final(state) == (ProgramState { last_mint_amount: minted, ..*old(state) })
            &&& *final(account) == with_reserves(*old(account), old(account).reserved_sol, minted)
        },
{
    let token_amount = get_donut_tokens_amount(
        pool,
        a_vault,
        b_vault,
        a_vault_lp,
        b_vault_lp,
        a_vault_lp_mint,
        b_vault_lp_mint,
        deposit,
    )?;
    let adjusted = check_mint_limit(state, token_amount);
    account.reserved_tokens = adjusted;
    Ok(adjusted)
}

/// The matrix of `account` after `user` takes its next slot (which must exist),
/// and the program state: a completed matrix restarts under the next matrix id,
/// which then advances.
pub open spec fn spec_fill_matrix(state: ProgramState, account: UserAccount, user: Address) -> (ProgramState, UserAccount, bool) {
    let (chain, completed) = spec_fill_slot(account.chain, user, state.next_chain_id);
    (
        if completed {
            ProgramState { next_chain_id: (state.next_chain_id + 1) as u32, ..state }
        } else {
            state
        },
        UserAccount { chain, ..account },
        completed,
    )
}

/// Taking a slot keeps a well-formed matrix well formed, and matrix ids come
/// from the counter: a completed matrix restarts under the current counter value
/// and the counter advances by exactly one; otherwise id and counter stay.
pub proof fn lemma_fill_matrix_ids(state: ProgramState, account: UserAccount, user: Address)
    requires
        chain_well_formed(account.chain),
        state.next_chain_id < u32::MAX,
    ensures
        ({
            let (state_after, account_after, completed) = spec_fill_matrix(state, account, user);
            &&& chain_well_formed(account_after.chain)
            &&& completed <==> account.chain.filled_slots == 2
            &&& completed ==> account_after.chain.id == state.next_chain_id && state_after.next_chain_id
                == state.next_chain_id + 1
            &&& !completed ==> account_after.chain.id == account.chain.id && state_after == state
            &&& account_after.reserved_sol == account.reserved_sol
            &&& account_after.reserved_tokens == account.reserved_tokens
        }),
{
    lemma_fill_slot_keeps_well_formed(account.chain, user, state.next_chain_id);
}

/// Puts `user` into the next slot of `account`'s matrix, restarting a completed
/// matrix under the next matrix id. Returns whether it completed, and the event.
fn fill_matrix(state: &mut ProgramState, account: &mut UserAccount, account_key: &Address, user: &Address) -> (res: (bool, SlotFilled))
    requires
        old(account).chain.filled_slots < 3,
        old(account).chain.filled_slots == 2 ==> old(state).next_chain_id < u32::MAX,
    ensures
        (*final(state), *final(account), res.0) == spec_fill_matrix(*old(state), *old(account), *user),
        res.1 == spec_slot_event(old(account).chain, *user, *account_key),
{
    let (completed, event) = account.chain.fill_slot(user, account_key, state.next_chain_id);
    if completed {
        state.next_chain_id = state.next_chain_id + 1;
    }
    (completed, event)
}

/// Putting a user into the referrer's matrix keeps a well-formed matrix well
/// formed, completes it exactly when the user takes the third slot, and leaves
/// the rest of the referrer's account as it was.
pub proof fn lemma_referrer_chain_keeps_matrix(state: ProgramState, referrer: UserAccount, user: Address)
    requires
        chain_well_formed(referrer.chain),
    ensures
        ({
            let (_, after, completed) = spec_fill_matrix(state, referrer, user);
            &&& chain_well_formed(after.chain)
            &&& completed <==> referrer.chain.filled_slots == 2
            &&& after.is_registered == referrer.is_registered
            &&& after.referrer == referrer.referrer
            &&& after.owner_wallet == referrer.owner_wallet
            &&& after.upline == referrer.upline
            &&& after.reserved_sol == referrer.reserved_sol
            &&& after.reserved_tokens == referrer.reserved_tokens
        }),
{
    lemma_fill_slot_keeps_well_formed(referrer.chain, user, state.next_chain_id);
}

/// Puts the new user into the referrer's matrix. A referrer without a free slot
/// is left alone; a completed matrix restarts under the next matrix id, which
/// then advances. Returns whether the matrix was completed, the referrer's key,
/// and the event to log when a slot was taken.
pub fn process_referrer_chain(
    user_key: &Address,
    referrer: &mut UserAccount,
    referrer_key: &Address,
    state: &mut ProgramState,
) -> (res: (bool, Address, Option<SlotFilled>))
    requires
        old(referrer).chain.filled_slots == 2 ==> old(state).next_chain_id < u32::MAX,
    ensures
        res.1 == *referrer_key,
        old(referrer).chain.filled_slots >= 3 ==> {
            &&& res.0 == false
            &&& res.2 is None
            &&& *final(referrer) == *old(referrer)
            &&& *final(state) == *old(state)
        },
        old(referrer).chain.filled_slots < 3 ==> {
            &&& (*final(state), *final(referrer), res.0) == spec_fill_matrix(*old(state), *old(referrer), *user_key)
            &&& res.2 == Some(spec_slot_event(old(referrer).chain, *user_key, *referrer_key))
        },
        chain_well_formed(old(referrer).chain) ==> {
            &&& chain_well_formed(final(referrer).chain)
            &&& res.0 <==> old(referrer).chain.filled_slots == 2
        },
        final(referrer).is_registered == old(referrer).is_registered,
        final(referrer).referrer == old(referrer).referrer,
        final(referrer).owner_wallet == old(referrer).owner_wallet,
        final(referrer).upline == old(referrer).upline,
        final(referrer).reserved_sol == old(referrer).reserved_sol,
        final(referrer).reserved_tokens == old(referrer).reserved_tokens,
{
    if referrer.chain.filled_slots >= 3 {
        return (false, *referrer_key, None);
    }
    proof {
        if chain_well_formed(referrer.chain) {
            lemma_fill_slot_keeps_well_formed(referrer.chain, *user_key, state.next_chain_id);
        }
    }
    let (completed, event) = fill_matrix(state, referrer, referrer_key, user_key);
    (completed, *referrer_key, Some(event))
}

// ----- the walk up the upline -----

/// Progress of the walk up the upline after the referrer's matrix completed on
/// its third slot: the user passed up to the next matrix, the deposit still to
/// place, whether the wrapped SOL account was closed, and which upline trio
/// (account, wallet, token account) comes next.
#[derive(Clone, Copy, Debug)]
pub struct UplineWalk {
    pub current_user: Address,
    pub current_deposit: u64,
    pub wsol_closed: bool,
    pub trio_count: usize,
    pub next_trio: usize,
    pub stopped: bool,
}

/// The outcome of starting the walk: no walk without upline accounts or without
/// a deposit; an error when the upline accounts do not come in trios.
pub open spec fn spec_start_walk(current_user: Address, deposit: u64, remaining_accounts: usize) -> Result<Option<UplineWalk>, ErrorCode> {
    if remaining_accounts > UPLINE_START_INDEX && deposit > 0 {
        if (remaining_accounts - UPLINE_START_INDEX) % 3 != 0 {
            Err(ErrorCode::MissingUplineAccount)
        } else {
            Ok(
                Some(
                    UplineWalk {
                        current_user,
                        current_deposit: deposit,
                        wsol_closed: false,
                        trio_count: ((remaining_accounts - UPLINE_START_INDEX) / 3) as usize,
                        next_trio: 0,
                        stopped: false,
                    },
                ),
            )
        }
    } else {
        Ok(None)
    }
}

/// A walk starts only with a deposit and more than the seven fixed extra
/// accounts; those beyond the seventh must come in trios, one per upline, and the
/// walk then starts at the first trio with the whole deposit and the wrapped SOL
/// still open.
pub proof fn lemma_start_walk_rule(current_user: Address, deposit: u64, remaining_accounts: usize)
    ensures
        (remaining_accounts <= 7 || deposit == 0) <==> spec_start_walk(current_user, deposit, remaining_accounts)
            == Ok::<Option<UplineWalk>, ErrorCode>(None),
        spec_start_walk(current_user, deposit, remaining_accounts) is Err <==> (remaining_accounts > 7 && deposit > 0
            && (remaining_accounts - 7) % 3 != 0),
        spec_start_walk(current_user, deposit, remaining_accounts) matches Ok(Some(walk)) ==> {
            &&& 7 + 3 * walk.trio_count == remaining_accounts
            &&& walk.current_deposit == deposit
            &&& deposit > 0
            &&& walk.current_user == current_user
            &&& walk.next_trio == 0
            &&& !walk.wsol_closed
            &&& !walk.stopped
        },
{
}

/// The trio the walk visits next, if any: walks stop at the last trio, after
/// `MAX_UPLINE_DEPTH` uplines, once the deposit is placed, or after a matrix that
/// did not complete.
pub open spec fn spec_next_trio(walk: UplineWalk) -> Option<usize> {
    if walk.stopped || walk.current_deposit == 0 || walk.next_trio >= walk.trio_count || walk.next_trio
        >= MAX_UPLINE_DEPTH {
        None
    } else {
        Some(walk.next_trio)
    }
}

/// The outcome of the account checks on an upline trio before its data is
/// read: the wallet must be a system account, the upline account must belong to
/// this program and hold more than its 8-byte discriminator.
pub open spec fn spec_check_upline_trio(wallet_owner: Address, account_owner: Address, data_len: usize) -> Result<(), Failure> {
    if wallet_owner@ != crate::token::spec_system_program_id() {
        Err(Failure::Code(ErrorCode::PaymentWalletInvalid))
    } else if account_owner@ != address::spec_program_id() {
        Err(Failure::Code(ErrorCode::InvalidSlotOwner))
    } else if data_len <= 8 {
        Err(Failure::InvalidAccountData)
    } else {
        Ok(())
    }
}

/// The outcome of the checks on an upline's account once it is read: it must
/// be registered, and when the user takes its third slot its token account must
/// be a valid token account of its wallet for the program token.
pub open spec fn spec_check_upline(
    upline: UserAccount,
    upline_wallet: Address,
    token_account_owner: Address,
    token_account_data: Seq<u8>,
    token_mint: Address,
) -> Result<(), ErrorCode> {
    if !upline.is_registered {
        Err(ErrorCode::SlotNotRegistered)
    } else if upline.chain.filled_slots == 2 {
        if token_account_owner@ != spec_token_program_id() {
            Err(ErrorCode::TokenAccountInvalid)
        } else {
            spec_verify_token_account(token_account_owner@, token_account_data, upline_wallet@, token_mint@)
        }
    } else {
        Ok(())
    }
}

/// What taking a slot of an upline's matrix calls for, and the upline and walk
/// afterwards (before the matrix is completed):
/// - the first slot: the remaining deposit goes to the pool;
/// - the second: the wrapped SOL is unwrapped (once per walk), the deposit is
///   reserved for the upline and tokens worth it are reserved too;
/// - the third: the upline's reserved SOL and tokens, where nonzero, are paid out.
/// In the first two cases the deposit is used up.
pub open spec fn spec_upline_slot_plan(
    walk: UplineWalk,
    upline: UserAccount,
    slot_idx: u8,
    wallet_owner: Address,
    token_account_owner: Address,
) -> (UplineWalk, UserAccount, Seq<Action>) {
    if slot_idx == 0 {
        (
            UplineWalk { current_deposit: 0, ..walk },
            upline,
            seq![Action::DepositToPool { amount: walk.current_deposit }],
        )
    } else if slot_idx == 1 {
        let close: Seq<Action> = if walk.wsol_closed {
            seq![]
        } else {
            seq![Action::CloseWsol]
        };
        (
            UplineWalk { current_deposit: 0, wsol_closed: true, ..walk },
            with_reserves(upline, walk.current_deposit, upline.reserved_tokens),
            close + seq![
                Action::ReserveSol { amount: walk.current_deposit },
                Action::ReserveTokens { deposit: walk.current_deposit },
            ],
        )
    } else {
        if upline.reserved_sol > 0 && wallet_owner@ != crate::token::spec_system_program_id() {
            (walk, upline, seq![Action::Fail { error: ErrorCode::PaymentWalletInvalid }])
        } else {
            let paid_sol: Seq<Action> = if upline.reserved_sol > 0 {
                seq![Action::PaySol { amount: upline.reserved_sol }]
            } else {
                seq![]
            };
            let after_sol = with_reserves(upline, 0, upline.reserved_tokens);
            if upline.reserved_tokens > 0 {
                if token_account_owner@ != spec_token_program_id() {
                    (walk, after_sol, paid_sol.push(Action::Fail { error: ErrorCode::TokenAccountInvalid }))
                } else {
                    (
                        walk,
                        with_reserves(after_sol, 0, 0),
                        paid_sol.push(Action::TransferTokens { amount: upline.reserved_tokens }),
                    )
                }
            } else {
                (walk, after_sol, paid_sol)
            }
        }
    }
}

/// The complete visit of an upline whose checks passed: the user takes the next
/// slot of its matrix, the slot's actions follow, and a completed matrix
/// restarts under the next matrix id and passes the upline itself on as the user
/// of the next matrix up. The walk goes on only after a completed matrix and
/// while fewer than `MAX_UPLINE_DEPTH` uplines were visited.
pub open spec fn spec_visit_upline(
    walk: UplineWalk,
    state: ProgramState,
    upline: UserAccount,
    upline_key: Address,
    wallet_owner: Address,
    token_account_owner: Address,
) -> (UplineWalk, ProgramState, UserAccount, Seq<Action>) {
    let trio = walk.next_trio;
    let slot_idx = upline.chain.filled_slots;
    let (chain, completed) = spec_fill_slot(upline.chain, walk.current_user, state.next_chain_id);
    let (walk1, upline1, actions) = spec_upline_slot_plan(
        walk,
        upline,
        slot_idx,
        wallet_owner,
        token_account_owner,
    );
    let state1 = if completed {
        ProgramState { next_chain_id: (state.next_chain_id + 1) as u32, ..state }
    } else {
        state
    };
    let walk2 = UplineWalk {
        current_user: if completed {
            upline_key
        } else {
            walk1.current_user
        },
        next_trio: (trio + 1) as usize,
        stopped: !completed || trio >= MAX_UPLINE_DEPTH - 1,
        ..walk1
    };
    (walk2, state1, UserAccount { chain, ..upline1 }, actions)
}

/// The walk that follows the referrer's slot: there is one only when the new
/// user completed the referrer's matrix by taking its third slot, and then it
/// starts as `spec_start_walk` says, passing the referrer up.
pub open spec fn spec_walk_after_referrer(
    referrer_slot: u8,
    completed: bool,
    upline_key: Address,
    deposit: u64,
    remaining_accounts: usize,
) -> Result<Option<UplineWalk>, ErrorCode> {
    if completed && referrer_slot == 2 {
        spec_start_walk(upline_key, deposit, remaining_accounts)
    } else {
        Ok(None)
    }
}

/// Decides whether the upline is walked after the referrer's slot was taken
/// (see `spec_walk_after_referrer`), and starts the walk if so.
pub fn walk_after_referrer(
    referrer_slot: u8,
    completed: bool,
    upline_key: &Address,
    deposit: u64,
    remaining_accounts: usize,
) -> (res: Result<Option<UplineWalk>, ErrorCode>)
    ensures
        res == spec_walk_after_referrer(referrer_slot, completed, *upline_key, deposit, remaining_accounts),
{
    if completed && referrer_slot == 2 {
        UplineWalk::start(upline_key, deposit, remaining_accounts)
    } else {
        Ok(None)
    }
}

/// What the walk meets at one upline trio: the upline's account, its key, and
/// the owners of its wallet and token account.
#[derive(Clone, Debug)]
pub struct UplineVisit {
    pub upline: UserAccount,
    pub key: Address,
    pub wallet_owner: Address,
    pub token_account_owner: Address,
}

/// The walk over the uplines it meets, in order, as long as it goes on: the
/// walk and program state at the end, with the number of matrices completed and
/// the number of uplines that received the deposit.
pub open spec fn spec_walk_run(walk: UplineWalk, state: ProgramState, visits: Seq<UplineVisit>) -> (
    UplineWalk,
    ProgramState,
    nat,
    nat,
)
    decreases visits.len(),
{
    if visits.len() == 0 || spec_next_trio(walk) is None {
        (walk, state, 0, 0)
    } else {
        let v = visits[0];
        let (walk1, state1, _, _) = spec_visit_upline(
            walk,
            state,
            v.upline,
            v.key,
            v.wallet_owner,
            v.token_account_owner,
        );
        let (walk2, state2, completed, placed) = spec_walk_run(walk1, state1, visits.drop_first());
        (
            walk2,
            state2,
            completed + if v.upline.chain.filled_slots == 2 {
                1nat
            } else {
                0nat
            },
            placed + if v.upline.chain.filled_slots < 2 {
                1nat
            } else {
                0nat
            },
        )
    }
}

/// Over a whole walk the deposit is placed at most once (and is used up when it
/// is), and the matrix counter advances by exactly the number of matrices the
/// walk completed, which is at most `MAX_UPLINE_DEPTH`.
pub proof fn lemma_walk_run(walk: UplineWalk, state: ProgramState, visits: Seq<UplineVisit>)
    requires
        forall|i: int| 0 <= i < visits.len() ==> (#[trigger] visits[i]).upline.chain.filled_slots < 3,
        state.next_chain_id + visits.len() < u32::MAX,
    ensures
        ({
            let (walk_end, state_end, completed, placed) = spec_walk_run(walk, state, visits);
            &&& placed <= 1
            &&& placed == 1 ==> walk_end.current_deposit == 0
            &&& state_end.next_chain_id == state.next_chain_id + completed
            &&& completed <= visits.len()
            &&& completed <= MAX_UPLINE_DEPTH
            &&& walk_end.trio_count == walk.trio_count
        }),
    decreases visits.len(),
{
    if visits.len() == 0 || spec_next_trio(walk) is None {
    } else {
        let v = visits[0];
        let (walk1, state1, _, _) = spec_visit_upline(
            walk,
            state,
            v.upline,
            v.key,
            v.wallet_owner,
            v.token_account_owner,
        );
        let rest = visits.drop_first();
        assert forall|i: int| 0 <= i < rest.len() implies (#[trigger] rest[i]).upline.chain.filled_slots < 3 by {
            assert(rest[i] == visits[i + 1]);
        }
        lemma_walk_run(walk1, state1, rest);
        let (walk2, state2, completed, placed) = spec_walk_run(walk1, state1, rest);
        if v.upline.chain.filled_slots < 2 {
            assert(walk1.current_deposit == 0);
            assert(spec_next_trio(walk1) is None);
            assert(walk2 == walk1 && completed == 0 && placed == 0);
        }
        lemma_walk_completions_bounded(walk1, state1, rest);
        assert(walk.next_trio < MAX_UPLINE_DEPTH);
    }
}

/// A walk completes no more matrices than trios it still may visit under the
/// depth limit.
proof fn lemma_walk_completions_bounded(walk: UplineWalk, state: ProgramState, visits: Seq<UplineVisit>)
    ensures
        spec_walk_run(walk, state, visits).2 == 0 || spec_walk_run(walk, state, visits).2 + walk.next_trio
            <= MAX_UPLINE_DEPTH,
        spec_walk_run(walk, state, visits).0.trio_count == walk.trio_count,
    decreases visits.len(),
{
    if visits.len() == 0 || spec_next_trio(walk) is None {
    } else {
        let v = visits[0];
        let (walk1, state1, _, _) = spec_visit_upline(
            walk,
            state,
            v.upline,
            v.key,
            v.wallet_owner,
            v.token_account_owner,
        );
        lemma_walk_completions_bounded(walk1, state1, visits.drop_first());
    }
}

/// The walk visits the upline trios in order, each at most once, and never more
/// than `MAX_UPLINE_DEPTH` of them: a visit moves to the next trio, and only
/// trios below both the trio count and the depth limit are ever handed out.
pub proof fn lemma_walk_bounded_and_ordered(
    walk: UplineWalk,
    state: ProgramState,
    upline: UserAccount,
    upline_key: Address,
    wallet_owner: Address,
    token_account_owner: Address,
)
    requires
        spec_next_trio(walk) is Some,
    ensures
        spec_next_trio(walk)->0 == walk.next_trio,
        walk.next_trio < MAX_UPLINE_DEPTH,
        walk.next_trio < walk.trio_count,
        ({
            let after = spec_visit_upline(walk, state, upline, upline_key, wallet_owner, token_account_owner).0;
            &&& after.next_trio == walk.next_trio + 1
            &&& after.trio_count == walk.trio_count
            &&& spec_next_trio(after) matches Some(i) ==> i == walk.next_trio + 1 && i < MAX_UPLINE_DEPTH
        }),
{
}

/// The deposit is placed at most once: an upline whose first or second slot the
/// user takes receives the whole remaining deposit (into the pool or as its
/// reserve) and the walk ends; an upline whose third slot the user takes leaves
/// the deposit untouched.
pub proof fn lemma_walk_places_deposit_once(
    walk: UplineWalk,
    state: ProgramState,
    upline: UserAccount,
    upline_key: Address,
    wallet_owner: Address,
    token_account_owner: Address,
)
    requires
        upline.chain.filled_slots < 3,
    ensures
        ({
            let (after, _, upline_after, actions) = spec_visit_upline(
                walk,
                state,
                upline,
                upline_key,
                wallet_owner,
                token_account_owner,
            );
            &&& upline.chain.filled_slots == 0 ==> {
                &&& actions == seq![Action::DepositToPool { amount: walk.current_deposit }]
                &&& after.current_deposit == 0
                &&& spec_next_trio(after) is None
            }
            &&& upline.chain.filled_slots == 1 ==> {
                &&& upline_after.reserved_sol == walk.current_deposit
                &&& actions.last() == Action::ReserveTokens { deposit: walk.current_deposit }
                &&& after.current_deposit == 0
                &&& after.wsol_closed
                &&& spec_next_trio(after) is None
            }
            &&& upline.chain.filled_slots == 2 ==> after.current_deposit == walk.current_deposit
        }),
{
}

/// A completed matrix pays out everything reserved for its owner: when the user
/// takes an upline's third slot and nothing fails, its reserved SOL and tokens
/// are paid exactly (each only when nonzero) and both reserves drop to zero.
pub proof fn lemma_third_slot_pays_out_reserves(
    walk: UplineWalk,
    state: ProgramState,
    upline: UserAccount,
    upline_key: Address,
    wallet_owner: Address,
    token_account_owner: Address,
)
    requires
        upline.chain.filled_slots == 2,
        state.next_chain_id < u32::MAX,
        wallet_owner@ == crate::token::spec_system_program_id(),
        token_account_owner@ == spec_token_program_id(),
    ensures
        ({
            let (after, state_after, upline_after, actions) = spec_visit_upline(
                walk,
                state,
                upline,
                upline_key,
                wallet_owner,
                token_account_owner,
            );
            &&& upline_after.reserved_sol == 0
            &&& upline_after.reserved_tokens == 0
            &&& actions == (if upline.reserved_sol > 0 {
                seq![Action::PaySol { amount: upline.reserved_sol }]
            } else {
                seq![]
            }) + (if upline.reserved_tokens > 0 {
                seq![Action::TransferTokens { amount: upline.reserved_tokens }]
            } else {
                seq![]
            })
            &&& upline_after.chain == spec_empty_chain(state.next_chain_id)
            &&& state_after.next_chain_id == state.next_chain_id + 1
            &&& after.current_user == upline_key
        }),
{
    let (after, state_after, upline_after, actions) = spec_visit_upline(
        walk,
        state,
        upline,
        upline_key,
        wallet_owner,
        token_account_owner,
    );
    let paid_sol: Seq<Action> = if upline.reserved_sol > 0 {
        seq![Action::PaySol { amount: upline.reserved_sol }]
    } else {
        seq![]
    };
    let paid_tokens: Seq<Action> = if upline.reserved_tokens > 0 {
        seq![Action::TransferTokens { amount: upline.reserved_tokens }]
    } else {
        seq![]
    };
    assert(actions =~= paid_sol + paid_tokens);
}

/// A referrer's third slot pays out everything reserved for it when its wallet
/// and token account are valid: both reserves are paid exactly (each only when
/// nonzero) and drop to zero.
pub proof fn lemma_referrer_third_slot_pays_out(
    referrer: UserAccount,
    deposit_amount: u64,
    referrer_wallet: Address,
    referrer_wallet_owner: Address,
    token_account_owner: Address,
    token_account_data: Seq<u8>,
    token_mint: Address,
)
    requires
        referrer.chain.filled_slots == 2,
        referrer_wallet_owner@ == crate::token::spec_system_program_id(),
        spec_verify_token_account(token_account_owner@, token_account_data, referrer_wallet@, token_mint@) is Ok,
    ensures
        ({
            let (after, actions) = spec_referrer_slot_plan(
                referrer,
                deposit_amount,
                referrer_wallet,
                referrer_wallet_owner,
                token_account_owner,
                token_account_data,
                token_mint,
            );
            &&& after.reserved_sol == 0
            &&& after.reserved_tokens == 0
            &&& after.chain == referrer.chain
            &&& actions == (if referrer.reserved_sol > 0 {
                seq![Action::PaySol { amount: referrer.reserved_sol }]
            } else {
                seq![]
            }) + (if referrer.reserved_tokens > 0 {
                seq![Action::TransferTokens { amount: referrer.reserved_tokens }]
            } else {
                seq![]
            })
        }),
{
    let (after, actions) = spec_referrer_slot_plan(
        referrer,
        deposit_amount,
        referrer_wallet,
        referrer_wallet_owner,
        token_account_owner,
        token_account_data,
        token_mint,
    );
    let paid_sol: Seq<Action> = if referrer.reserved_sol > 0 {
        seq![Action::PaySol { amount: referrer.reserved_sol }]
    } else {
        seq![]
    };
    let paid_tokens: Seq<Action> = if referrer.reserved_tokens > 0 {
        seq![Action::TransferTokens { amount: referrer.reserved_tokens }]
    } else {
        seq![]
    };
    assert(actions =~= paid_sol + paid_tokens);
}

impl UplineWalk {
    /// Starts the walk up the upline (see `spec_start_walk`).
    pub fn start(current_user: &Address, deposit: u64, remaining_accounts: usize) -> (res: Result<Option<UplineWalk>, ErrorCode>)
        ensures
            res == spec_start_walk(*current_user, deposit, remaining_accounts),
    {
        if remaining_accounts > UPLINE_START_INDEX && deposit > 0 {
            let upline_accounts = remaining_accounts - UPLINE_START_INDEX;
            if upline_accounts % 3 != 0 {
                return Err(ErrorCode::MissingUplineAccount);
            }
            Ok(
                Some(
                    UplineWalk {
                        current_user: *current_user,
                        current_deposit: deposit,
                        wsol_closed: false,
                        trio_count: upline_accounts / 3,
                        next_trio: 0,
                        stopped: false,
                    },
                ),
            )
        } else {
            Ok(None)
        }
    }

    /// The trio to visit next, if any (see `spec_next_trio`).
    pub fn next_trio(&self) -> (res: Option<usize>)
        ensures
            res == spec_next_trio(*self),
    {
        if self.stopped || self.current_deposit == 0 || self.next_trio >= self.trio_count || self.next_trio
            >= MAX_UPLINE_DEPTH {
            None
        } else {
            Some(self.next_trio)
        }
    }

    /// Checks the accounts of an upline trio before its data is read.
    pub fn check_upline_trio(wallet_owner: &Address, account_owner: &Address, data_len: usize) -> (res: Result<(), Failure>)
        ensures
            res == spec_check_upline_trio(*wallet_owner, *account_owner, data_len),
    {
        if !wallet_owner.equals(&crate::token::system_program_id()) {
            return Err(Failure::Code(ErrorCode::PaymentWalletInvalid));
        }
        if !account_owner.equals(&address::program_id()) {
            return Err(Failure::Code(ErrorCode::InvalidSlotOwner));
        }
        if data_len <= 8 {
            return Err(Failure::InvalidAccountData);
        }
        Ok(())
    }

    /// Visits the next upline (see `spec_check_upline` and `spec_visit_upline`):
    /// checks it, puts the current user into its matrix and returns the actions
    /// its slot calls for, with the event to log.
    pub fn visit_upline(
        &mut self,
        state: &mut ProgramState,
        upline: &mut UserAccount,
        upline_key: &Address,
        upline_wallet: &Address,
        wallet_owner: &Address,
        token_account_owner: &Address,
        token_account_data: &[u8],
        token_mint: &Address,
    ) -> (res: Result<(Vec<Action>, SlotFilled), ErrorCode>)
        requires
            old(self).next_trio < usize::MAX,
            spec_check_upline(*old(upline), *upline_wallet, *token_account_owner, token_account_data@, *token_mint) is Ok
                ==> {
                &&& old(upline).chain.filled_slots < 3
                &&& old(upline).chain.filled_slots == 2 ==> old(state).next_chain_id < u32::MAX
            },
        ensures
            match spec_check_upline(*old(upline), *upline_wallet, *token_account_owner, token_account_data@, *token_mint) {
                Err(e) => {
                    &&& res == Err::<(Vec<Action>, SlotFilled), ErrorCode>(e)
                    &&& *final(self) == *old(self)
                    &&& *final(state) == *old(state)
                    &&& *final(upline) == *old(upline)
                },
                Ok(()) => res matches Ok((actions, event)) && {
                    &&& (*final(self), *final(state), *final(upline), actions@) == spec_visit_upline(
                        *old(self),
                        *old(state),
                        *old(upline),
                        *upline_key,
                        *wallet_owner,
                        *token_account_owner,
                    )
                    &&& event == spec_slot_event(old(upline).chain, old(self).current_user, *upline_key)
                },
            },
    {
        if !upline.is_registered {
            return Err(ErrorCode::SlotNotRegistered);
        }
        let slot_idx = upline.chain.filled_slots;
        if slot_idx == 2 {
            if !token_account_owner.equals(&token_program_id()) {
                return Err(ErrorCode::TokenAccountInvalid);
            }
            verify_token_account(token_account_owner, token_account_data, upline_wallet, token_mint)?;
        }
        let ghost old_walk = *self;
        let user = self.current_user;
        let (completed, event) = fill_matrix(state, upline, upline_key, &user);
        let mut actions: Vec<Action> = Vec::new();
        if slot_idx == 0 {
            actions.push(Action::DepositToPool { amount: self.current_deposit });
            self.current_deposit = 0;
        } else if slot_idx == 1 {
            if !self.wsol_closed {
                actions.push(Action::CloseWsol);
                self.wsol_closed = true;
            }
            let ghost close = actions@;
            actions.push(Action::ReserveSol { amount: self.current_deposit });
            upline.reserved_sol = self.current_deposit;
            actions.push(Action::ReserveTokens { deposit: self.current_deposit });
            self.current_deposit = 0;
            assert(actions@ =~= close + seq![
                Action::ReserveSol { amount: old_walk.current_deposit },
                Action::ReserveTokens { deposit: old_walk.current_deposit },
            ]);
        } else {
            let mut failed = false;
            if upline.reserved_sol > 0 {
                if !wallet_owner.equals(&crate::token::system_program_id()) {
                    actions.push(Action::Fail { error: ErrorCode::PaymentWalletInvalid });
                    failed = true;
                } else {
                    actions.push(Action::PaySol { amount: upline.reserved_sol });
                    upline.reserved_sol = 0;
                }
            }
            if !failed && upline.reserved_tokens > 0 {
                if !token_account_owner.equals(&token_program_id()) {
                    actions.push(Action::Fail { error: ErrorCode::TokenAccountInvalid });
                } else {
                    actions.push(Action::TransferTokens { amount: upline.reserved_tokens });
                    upline.reserved_tokens = 0;
                }
            }
        }
        if completed {
            self.current_user = *upline_key;
        }
        let trio = self.next_trio;
        self.next_trio = trio + 1;
        self.stopped = !completed || trio >= MAX_UPLINE_DEPTH - 1;
        proof {
            if slot_idx == 0 {
                assert(actions@ =~= seq![Action::DepositToPool { amount: old_walk.current_deposit }]);
            }
        }
        Ok((actions, event))
    }

    /// What is left to do once the walk ends: a deposit that was not placed goes
    /// to the pool, and the wrapped SOL account, if still open and not empty, is
    /// closed.
    pub fn finish(&self, wsol_data_len: usize) -> (res: Vec<Action>)
        ensures
            res@ == (if self.current_deposit > 0 && !self.wsol_closed {
                seq![Action::DepositToPool { amount: self.current_deposit }]
            } else {
                seq![]
            }) + (if !self.wsol_closed && wsol_data_len > 0 {
                seq![Action::CloseWsol]
            } else {
                seq![]
            }),
    {
        let mut actions: Vec<Action> = Vec::new();
        if self.current_deposit > 0 {
            if !self.wsol_closed {
                actions.push(Action::DepositToPool { amount: self.current_deposit });
            }
        }
        let ghost first = actions@;
        if !self.wsol_closed {
            if wsol_data_len > 0 {
                actions.push(Action::CloseWsol);
            }
        }
        proof {
            if self.current_deposit > 0 && !self.wsol_closed {
                assert(first =~= seq![Action::DepositToPool { amount: self.current_deposit }]);
            } else {
                assert(first =~= Seq::<Action>::empty());
            }
        }
        assert(actions@ =~= first + (if !self.wsol_closed && wsol_data_len > 0 {
            seq![Action::CloseWsol]
        } else {
            seq![]
        }));
        actions
    }
}

} // verus!
