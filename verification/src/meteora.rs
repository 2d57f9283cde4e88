//! Layouts of the dynamic vault and AMM pool accounts the program reads, and the
//! vault's share accounting with its linearly unlocking profit.

use vstd::arithmetic::div_mod::{lemma_div_is_ordered, lemma_div_by_multiple};
use vstd::arithmetic::mul::{lemma_mul_inequality, lemma_mul_upper_bound, lemma_mul_left_inequality};
use vstd::prelude::*;

use crate::address::Address;

verus! {

/// Precision of the profit degradation rate: a rate of `DENOMINATOR` per second
/// unlocks all profit in one second.
pub const LOCKED_PROFIT_DEGRADATION_DENOMINATOR: u128 = 1_000_000_000_000;

/// PDA bumps of a vault.
#[derive(Clone, Copy, Debug, Default)]
pub struct VaultBumps {
    pub vault_bump: u8,
    pub token_vault_bump: u8,
}

/// Profit that was reported to a vault and is released linearly over time.
#[derive(Clone, Copy, Debug)]
pub struct LockedProfitTracker {
    pub last_updated_locked_profit: u64,
    pub last_report: u64,
    pub locked_profit_degradation: u64,
}

/// A dynamic vault holding one token of the pool.
#[derive(Clone, Copy, Debug)]
pub struct Vault {
    pub enabled: u8,
    pub bumps: VaultBumps,
    pub total_amount: u64,
    pub token_vault: Address,
    pub fee_vault: Address,
    pub token_mint: Address,
    pub lp_mint: Address,
    pub strategies: [Address; 30],
    pub base: Address,
    pub admin: Address,
    pub operator: Address,
    pub locked_profit_tracker: LockedProfitTracker,
}

/// The part of the degradation that has elapsed at `current_time`, scaled by the
/// denominator (never negative where it is used).
pub open spec fn locked_fund_ratio(tracker: LockedProfitTracker, current_time: u64) -> int {
    (current_time - tracker.last_report) * tracker.locked_profit_degradation
}

/// The profit still locked at `current_time`: `None` before the last report;
/// zero once the elapsed ratio exceeds the denominator; otherwise the reported
/// profit scaled down by the elapsed ratio, rounded down.
pub open spec fn spec_locked_profit(tracker: LockedProfitTracker, current_time: u64) -> Option<u64> {
    if current_time < tracker.last_report {
        None
    } else if locked_fund_ratio(tracker, current_time) > LOCKED_PROFIT_DEGRADATION_DENOMINATOR {
        Some(0)
    } else {
        Some(
            (tracker.last_updated_locked_profit * (LOCKED_PROFIT_DEGRADATION_DENOMINATOR - locked_fund_ratio(
                tracker,
                current_time,
            )) / (LOCKED_PROFIT_DEGRADATION_DENOMINATOR as int)) as u64,
        )
    }
}

/// The amount of the vault that is not locked at `current_time`: `None` when the
/// locked profit is undefined or exceeds the vault's total.
pub open spec fn spec_unlocked_amount(vault: Vault, current_time: u64) -> Option<u64> {
    match spec_locked_profit(vault.locked_profit_tracker, current_time) {
        None => None,
        Some(locked) => if locked <= vault.total_amount {
            Some((vault.total_amount - locked) as u64)
        } else {
            None
        },
    }
}

/// The amount that `share` of `total_supply` LP tokens is worth at
/// `current_time`, rounded down; zero when there is no supply.
pub open spec fn spec_amount_by_share(vault: Vault, current_time: u64, share: u64, total_supply: u64) -> Option<u64> {
    if total_supply == 0 {
        Some(0)
    } else {
        match spec_unlocked_amount(vault, current_time) {
            None => None,
            Some(unlocked) => {
                let amount = share * unlocked / (total_supply as int);
                if amount <= u64::MAX {
                    Some(amount as u64)
                } else {
                    None
                }
            },
        }
    }
}

/// The scaled-down profit never exceeds the profit itself.
proof fn lemma_scaled_profit_bounded(profit: u64, ratio: int)
    requires
        0 <= ratio <= LOCKED_PROFIT_DEGRADATION_DENOMINATOR,
    ensures
        0 <= profit * (LOCKED_PROFIT_DEGRADATION_DENOMINATOR - ratio),
        profit * (LOCKED_PROFIT_DEGRADATION_DENOMINATOR - ratio) <= profit * (LOCKED_PROFIT_DEGRADATION_DENOMINATOR as int),
        profit * (LOCKED_PROFIT_DEGRADATION_DENOMINATOR - ratio) / (LOCKED_PROFIT_DEGRADATION_DENOMINATOR as int) <= profit,
{
    let d = LOCKED_PROFIT_DEGRADATION_DENOMINATOR as int;
    lemma_mul_upper_bound(profit as int, profit as int, d - ratio, d);
    assert(0 <= profit * (d - ratio)) by (nonlinear_arith)
        requires
            0 <= d - ratio,
    ;
    lemma_div_is_ordered(profit * (d - ratio), profit * d, d);
    lemma_div_by_multiple(profit as int, d);
}

/// Locked profit in plain arithmetic: none before the last report; while the
/// elapsed ratio `(t - last_report) * degradation` is at most 10^12 the profit
/// still locked is exactly `profit * (10^12 - ratio) / 10^12`, rounded down; past
/// that, nothing stays locked.
pub proof fn lemma_locked_profit_formula(tracker: LockedProfitTracker, current_time: u64)
    ensures
        current_time < tracker.last_report ==> spec_locked_profit(tracker, current_time) is None,
        current_time >= tracker.last_report && (current_time - tracker.last_report) * tracker.locked_profit_degradation
            <= 1_000_000_000_000 ==> {
            &&& spec_locked_profit(tracker, current_time) is Some
            &&& spec_locked_profit(tracker, current_time)->0 == tracker.last_updated_locked_profit * (1_000_000_000_000
                - (current_time - tracker.last_report) * tracker.locked_profit_degradation) / 1_000_000_000_000
        },
        current_time >= tracker.last_report && (current_time - tracker.last_report) * tracker.locked_profit_degradation
            > 1_000_000_000_000 ==> spec_locked_profit(tracker, current_time) == Some(0u64),
{
    if current_time >= tracker.last_report {
        let ratio = locked_fund_ratio(tracker, current_time);
        assert(0 <= ratio) by (nonlinear_arith)
            requires
                ratio == (current_time - tracker.last_report) * tracker.locked_profit_degradation,
                current_time - tracker.last_report >= 0,
        ;
        if ratio <= LOCKED_PROFIT_DEGRADATION_DENOMINATOR {
            lemma_scaled_profit_bounded(tracker.last_updated_locked_profit, ratio);
        }
    }
}

/// The unlocked amount is the vault total less the locked profit, whenever the
/// locked profit is defined and does not exceed the total.
pub proof fn lemma_unlocked_amount_formula(vault: Vault, current_time: u64)
    ensures
        spec_locked_profit(vault.locked_profit_tracker, current_time) is None ==> spec_unlocked_amount(vault, current_time)
            is None,
        spec_locked_profit(vault.locked_profit_tracker, current_time) matches Some(locked) ==> {
            &&& locked <= vault.total_amount ==> spec_unlocked_amount(vault, current_time) == Some(
                (vault.total_amount - locked) as u64,
            )
            &&& locked > vault.total_amount ==> spec_unlocked_amount(vault, current_time) is None
        },
{
}

/// Shares are worth their pro-rata part of the unlocked amount, rounded down:
/// `share * unlocked / total_supply`; nothing without supply.
pub proof fn lemma_amount_by_share_formula(vault: Vault, current_time: u64, share: u64, total_supply: u64)
    ensures
        total_supply == 0 ==> spec_amount_by_share(vault, current_time, share, total_supply) == Some(0u64),
        total_supply > 0 && spec_unlocked_amount(vault, current_time) is None ==> spec_amount_by_share(
            vault,
            current_time,
            share,
            total_supply,
        ) is None,
        total_supply > 0 && spec_unlocked_amount(vault, current_time) is Some ==> (spec_amount_by_share(
            vault,
            current_time,
            share,
            total_supply,
        ) is Some <==> share * spec_unlocked_amount(vault, current_time)->0 / (total_supply as int) <= u64::MAX),
        total_supply > 0 && spec_amount_by_share(vault, current_time, share, total_supply) is Some ==> spec_amount_by_share(
            vault,
            current_time,
            share,
            total_supply,
        )->0 == share * spec_unlocked_amount(vault, current_time)->0 / (total_supply as int),
{
}

/// Locked profit only ever decreases as time passes: from the last report on,
/// a later time never locks more than an earlier one.
pub proof fn lemma_locked_profit_non_increasing(tracker: LockedProfitTracker, earlier: u64, later: u64)
    requires
        tracker.last_report <= earlier <= later,
    ensures
        spec_locked_profit(tracker, earlier) is Some,
        spec_locked_profit(tracker, later) is Some,
        spec_locked_profit(tracker, later)->0 <= spec_locked_profit(tracker, earlier)->0,
{
    let d = LOCKED_PROFIT_DEGRADATION_DENOMINATOR as int;
    let r1 = locked_fund_ratio(tracker, earlier);
    let r2 = locked_fund_ratio(tracker, later);
    lemma_mul_inequality(earlier - tracker.last_report, later - tracker.last_report, tracker.locked_profit_degradation as int);
    assert(0 <= r1) by (nonlinear_arith)
        requires
            r1 == (earlier - tracker.last_report) * tracker.locked_profit_degradation,
            earlier - tracker.last_report >= 0,
    ;
    if r2 <= d {
        let p = tracker.last_updated_locked_profit as int;
        lemma_scaled_profit_bounded(tracker.last_updated_locked_profit, r1);
        lemma_scaled_profit_bounded(tracker.last_updated_locked_profit, r2);
        if p == 0 {
            assert(p * (d - r2) == 0);
            assert(p * (d - r1) == 0);
        } else {
            lemma_mul_left_inequality(p, d - r2, d - r1);
        }
        lemma_div_is_ordered(p * (d - r2), p * (d - r1), d);
    }
}

/// The unlocked amount of a vault only grows as time passes: once it is defined,
/// it stays defined and never shrinks.
pub proof fn lemma_unlocked_amount_non_decreasing(vault: Vault, earlier: u64, later: u64)
    requires
        vault.locked_profit_tracker.last_report <= earlier <= later,
        spec_unlocked_amount(vault, earlier) is Some,
    ensures
        spec_unlocked_amount(vault, later) is Some,
        spec_unlocked_amount(vault, earlier)->0 <= spec_unlocked_amount(vault, later)->0,
{
    lemma_locked_profit_non_increasing(vault.locked_profit_tracker, earlier, later);
}

/// A share of at most the whole supply is worth at most the vault's unlocked
/// amount, and the value is then always defined.
pub proof fn lemma_amount_by_share_bounded(vault: Vault, current_time: u64, share: u64, total_supply: u64)
    requires
        0 < total_supply,
        share <= total_supply,
        spec_unlocked_amount(vault, current_time) is Some,
    ensures
        spec_amount_by_share(vault, current_time, share, total_supply) is Some,
        spec_amount_by_share(vault, current_time, share, total_supply)->0 <= spec_unlocked_amount(vault, current_time)->0,
{
    let unlocked = spec_unlocked_amount(vault, current_time)->0 as int;
    lemma_mul_inequality(share as int, total_supply as int, unlocked);
    lemma_div_is_ordered(share * unlocked, total_supply * unlocked, total_supply as int);
    vstd::arithmetic::mul::lemma_mul_is_commutative(total_supply as int, unlocked);
    lemma_div_by_multiple(unlocked, total_supply as int);
}

/// More LP tokens are never worth less: the value of shares is monotone in the
/// share.
pub proof fn lemma_amount_by_share_monotone(vault: Vault, current_time: u64, smaller: u64, larger: u64, total_supply: u64)
    requires
        smaller <= larger,
        spec_amount_by_share(vault, current_time, larger, total_supply) is Some,
    ensures
        spec_amount_by_share(vault, current_time, smaller, total_supply) is Some,
        spec_amount_by_share(vault, current_time, smaller, total_supply)->0 <= spec_amount_by_share(
            vault,
            current_time,
            larger,
            total_supply,
        )->0,
{
    if total_supply > 0 {
        let unlocked = spec_unlocked_amount(vault, current_time)->0 as int;
        lemma_mul_inequality(smaller as int, larger as int, unlocked);
        assert(0 <= smaller * unlocked) by (nonlinear_arith)
            requires
                0 <= smaller,
                0 <= unlocked,
        ;
        lemma_div_is_ordered(smaller * unlocked, larger * unlocked, total_supply as int);
    }
}

impl LockedProfitTracker {
    /// The profit still locked at `current_time`; `None` when `current_time` is
    /// before the last report.
    pub fn calculate_locked_profit(&self, current_time: u64) -> (res: Option<u64>)
        ensures
            res == spec_locked_profit(*self, current_time),
            res is None <==> current_time < self.last_report,
            res matches Some(locked) ==> locked <= self.last_updated_locked_profit,
    {
        let elapsed = match current_time.checked_sub(self.last_report) {
            Some(elapsed) => elapsed,
            None => {
                return None;
            },
        };
        let duration = elapsed as u128;
        let locked_profit_degradation = self.locked_profit_degradation as u128;
        proof {
            lemma_mul_upper_bound(duration as int, u64::MAX as int, locked_profit_degradation as int, u64::MAX as int);
            assert(u64::MAX * u64::MAX <= u128::MAX) by (nonlinear_arith);
        }
        let locked_fund_ratio = match duration.checked_mul(locked_profit_degradation) {
            Some(ratio) => ratio,
            None => {
                return None;
            },
        };
        assert(locked_fund_ratio == crate::meteora::locked_fund_ratio(*self, current_time));
        if locked_fund_ratio > LOCKED_PROFIT_DEGRADATION_DENOMINATOR {
            return Some(0);
        }
        let locked_profit = self.last_updated_locked_profit as u128;
        let remaining = match LOCKED_PROFIT_DEGRADATION_DENOMINATOR.checked_sub(locked_fund_ratio) {
            Some(remaining) => remaining,
            None => {
                return None;
            },
        };
        proof {
            lemma_scaled_profit_bounded(self.last_updated_locked_profit, locked_fund_ratio as int);
            lemma_mul_upper_bound(
                locked_profit as int,
                u64::MAX as int,
                LOCKED_PROFIT_DEGRADATION_DENOMINATOR as int,
                LOCKED_PROFIT_DEGRADATION_DENOMINATOR as int,
            );
            assert(u64::MAX * LOCKED_PROFIT_DEGRADATION_DENOMINATOR <= u128::MAX) by (nonlinear_arith);
        }
        let scaled = match locked_profit.checked_mul(remaining) {
            Some(scaled) => scaled,
            None => {
                return None;
            },
        };
        let unlocked_share = match scaled.checked_div(LOCKED_PROFIT_DEGRADATION_DENOMINATOR) {
            Some(value) => value,
            None => {
                return None;
            },
        };
        if unlocked_share <= u64::MAX as u128 {
            Some(unlocked_share as u64)
        } else {
            None
        }
    }
}

impl Vault {
    /// The amount of the vault not locked as profit at `current_time`.
    pub fn get_unlocked_amount(&self, current_time: u64) -> (res: Option<u64>)
        ensures
            res == spec_unlocked_amount(*self, current_time),
            res matches Some(amount) ==> amount <= self.total_amount,
    {
        let locked = match self.locked_profit_tracker.calculate_locked_profit(current_time) {
            Some(locked) => locked,
            None => {
                return None;
            },
        };
        self.total_amount.checked_sub(locked)
    }

    /// The amount that `share` LP tokens out of `total_supply` are worth at
    /// `current_time`.
    pub fn get_amount_by_share(&self, current_time: u64, share: u64, total_supply: u64) -> (res: Option<u64>)
        ensures
            res == spec_amount_by_share(*self, current_time, share, total_supply),
    {
        if total_supply == 0 {
            return Some(0);
        }
        let total_amount = match self.get_unlocked_amount(current_time) {
            Some(amount) => amount,
            None => {
                return None;
            },
        };
        proof {
            lemma_mul_upper_bound(share as int, u64::MAX as int, total_amount as int, u64::MAX as int);
            assert(u64::MAX * u64::MAX <= u128::MAX) by (nonlinear_arith);
        }
        let product = match (share as u128).checked_mul(total_amount as u128) {
            Some(product) => product,
            None => {
                return None;
            },
        };
        let amount = match product.checked_div(total_supply as u128) {
            Some(amount) => amount,
            None => {
                return None;
            },
        };
        if amount <= u64::MAX as u128 {
            Some(amount as u64)
        } else {
            None
        }
    }
}


/// Who may create pools of a kind.
#[derive(Clone, Copy, Debug, PartialEq, Eq, Structural)]
pub enum PoolType {
    Permissioned,
    Permissionless,
}

impl Default for PoolType {
    fn default() -> (res: Self)
        ensures
            res == PoolType::Permissioned,
    {
        PoolType::Permissioned
    }
}

/// Trading fees of a pool, as fractions.
#[derive(Clone, Copy, Debug)]
pub struct PoolFees {
    pub trade_fee_numerator: u64,
    pub trade_fee_denominator: u64,
    pub protocol_trade_fee_numerator: u64,
    pub protocol_trade_fee_denominator: u64,
}

/// The partner that receives a share of a pool's fees.
#[derive(Clone, Copy, Debug)]
pub struct PartnerInfo {
    pub fee_numerator: u64,
    pub partner_authority: Address,
    pub pending_fee_a: u64,
    pub pending_fee_b: u64,
}

/// Activation settings of a new pool.
#[derive(Clone, Copy, Debug)]
pub struct Bootstrapping {
    pub activation_point: u64,
    pub whitelisted_vault: Address,
    pub pool_creator: Address,
    pub activation_type: u8,
}

/// Multipliers that bring the two tokens of a stable pool to one precision.
#[derive(Clone, Copy, Debug, Default, PartialEq, Eq, Structural)]
pub struct TokenMultiplier {
    pub token_a_multiplier: u64,
    pub token_b_multiplier: u64,
    pub precision_factor: u8,
}

/// The kind of staked asset a stable pool's price may depeg against.
#[derive(Clone, Copy, Debug, Default, PartialEq, Eq, Structural)]
pub enum DepegType {
    #[default]
    NoDepeg,
    Marinade,
    Lido,
    SplStake,
}

/// Depeg tracking of a stable pool.
#[derive(Clone, Copy, Debug, Default)]
pub struct Depeg {
    pub base_virtual_price: u64,
    pub base_cache_updated: u64,
    pub depeg_type: DepegType,
}

/// The pricing curve of a pool.
#[derive(Clone, Copy, Debug)]
pub enum CurveType {
    ConstantProduct,
    Stable { amp: u64, token_multiplier: TokenMultiplier, depeg: Depeg, last_amp_updated_timestamp: u64 },
}

/// Reserved space at the end of a pool account.
#[derive(Clone, Copy, Debug, Default)]
pub struct Padding {
    pub padding_0: [u8; 6],
    pub padding_1: [u64; 21],
    pub padding_2: [u64; 21],
}

/// A dynamic AMM pool over two vaults.
#[derive(Clone, Copy, Debug)]
pub struct Pool {
    pub lp_mint: Address,
    pub token_a_mint: Address,
    pub token_b_mint: Address,
    pub a_vault: Address,
    pub b_vault: Address,
    pub a_vault_lp: Address,
    pub b_vault_lp: Address,
    pub a_vault_lp_bump: u8,
    pub enabled: bool,
    pub protocol_token_a_fee: Address,
    pub protocol_token_b_fee: Address,
    pub fee_last_updated_at: u64,
    pub _padding0: [u8; 24],
    pub fees: PoolFees,
    pub pool_type: PoolType,
    pub stake: Address,
    pub total_locked_lp: u64,
    pub bootstrapping: Bootstrapping,
    pub partner_info: PartnerInfo,
    pub padding: Padding,
    pub curve_type: CurveType,
}

} // verus!
