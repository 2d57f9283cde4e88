//! Pricing of program tokens against the pool, the oracle price fallback and the
//! mint limiter.

use vstd::arithmetic::mul::lemma_mul_upper_bound;
use vstd::prelude::*;

use crate::bytes::{le_u64_at, read_u64_le};
use crate::error::ErrorCode;
use crate::state::ProgramState;

verus! {

/// Minimum deposit in USD with 8 decimals (10 USD).
pub const MINIMUM_USD_DEPOSIT: u64 = 10_00000000;

/// Oldest price feed age in seconds that is still trusted (24 hours).
pub const MAX_PRICE_FEED_AGE: i64 = 86400;

/// SOL price in USD with 8 decimals used when the feed is stale (100 USD).
pub const DEFAULT_SOL_PRICE: i128 = 100_00000000;

/// Fixed-point precision of the pool's token ratio.
pub const PRECISION_FACTOR: i128 = 1_000_000_000;

/// Offset of the `enabled` flag in pool account data (discriminator, seven
/// addresses and a bump).
pub const POOL_ENABLED_OFFSET: usize = 8 + 225;

/// The price to price deposits at: the feed's price, unless the feed is older
/// than `MAX_PRICE_FEED_AGE`, in which case `DEFAULT_SOL_PRICE`.
pub open spec fn spec_effective_sol_price(price: i128, current_timestamp: i64, feed_timestamp: i64) -> i128 {
    if current_timestamp - feed_timestamp > MAX_PRICE_FEED_AGE {
        DEFAULT_SOL_PRICE
    } else {
        price
    }
}

/// Chooses the SOL price to price a deposit at, falling back to the default for
/// a stale feed.
pub fn effective_sol_price(price: i128, current_timestamp: i64, feed_timestamp: i64) -> (res: i128)
    requires
        i64::MIN <= current_timestamp - feed_timestamp <= i64::MAX,
    ensures
        res == spec_effective_sol_price(price, current_timestamp, feed_timestamp),
        current_timestamp - feed_timestamp <= 86400 ==> res == price,
        current_timestamp - feed_timestamp > 86400 ==> res == 100_00000000,
{
    let age = current_timestamp - feed_timestamp;
    if age > MAX_PRICE_FEED_AGE {
        DEFAULT_SOL_PRICE
    } else {
        price
    }
}

/// The outcome of comparing a deposit with the required minimum.
pub open spec fn spec_check_minimum_deposit(deposit_amount: u64, minimum_deposit: u64) -> Result<(), ErrorCode> {
    if deposit_amount < minimum_deposit {
        Err(ErrorCode::InsufficientDeposit)
    } else {
        Ok(())
    }
}

/// Fails with `InsufficientDeposit` when the deposit is below the minimum.
pub fn check_minimum_deposit(deposit_amount: u64, minimum_deposit: u64) -> (res: Result<(), ErrorCode>)
    ensures
        res == spec_check_minimum_deposit(deposit_amount, minimum_deposit),
{
    if deposit_amount < minimum_deposit {
        return Err(ErrorCode::InsufficientDeposit);
    }
    Ok(())
}

/// Three times the last mint, saturating at `u64::MAX`.
pub open spec fn spec_mint_limit(last_mint_amount: u64) -> u64 {
    if last_mint_amount * 3 > u64::MAX {
        u64::MAX
    } else {
        (last_mint_amount * 3) as u64
    }
}

/// The amount to mint for a proposal, given the last mint: the first mint is
/// taken as proposed; later a proposal above three times the last mint is
/// replaced by the last mint, and any other is taken as proposed.
pub open spec fn spec_check_mint_limit(last_mint_amount: u64, proposed_mint_value: u64) -> u64 {
    if last_mint_amount == 0 {
        proposed_mint_value
    } else if proposed_mint_value > spec_mint_limit(last_mint_amount) {
        last_mint_amount
    } else {
        proposed_mint_value
    }
}

/// Limits a proposed mint to three times the last one and records the amount
/// that will be minted as the new last mint.
pub fn check_mint_limit(program_state: &mut ProgramState, proposed_mint_value: u64) -> (res: u64)
    ensures
        res == spec_check_mint_limit(old(program_state).last_mint_amount, proposed_mint_value),
        final(program_state).last_mint_amount == res,
        final(program_state).owner == old(program_state).owner,
        final(program_state).multisig_treasury == old(program_state).multisig_treasury,
        final(program_state).next_upline_id == old(program_state).next_upline_id,
        final(program_state).next_chain_id == old(program_state).next_chain_id,
{
    if program_state.last_mint_amount == 0 {
        program_state.last_mint_amount = proposed_mint_value;
        return proposed_mint_value;
    }
    let current_limit = match program_state.last_mint_amount.checked_mul(3) {
        Some(limit) => limit,
        None => u64::MAX,
    };
    if proposed_mint_value > current_limit {
        return program_state.last_mint_amount;
    }
    program_state.last_mint_amount = proposed_mint_value;
    proposed_mint_value
}

/// A feed at most a day old is always trusted, whatever its price; an older one
/// is always replaced by 100 USD (8 decimals).
pub proof fn lemma_effective_sol_price(price: i128, current_timestamp: i64, feed_timestamp: i64)
    ensures
        current_timestamp - feed_timestamp <= 86400 ==> spec_effective_sol_price(price, current_timestamp, feed_timestamp)
            == price,
        current_timestamp - feed_timestamp > 86400 ==> spec_effective_sol_price(price, current_timestamp, feed_timestamp)
            == 100_00000000,
{
}

/// A deposit is refused exactly when it is below the minimum.
pub proof fn lemma_minimum_deposit(deposit_amount: u64, minimum_deposit: u64)
    ensures
        spec_check_minimum_deposit(deposit_amount, minimum_deposit) is Ok <==> deposit_amount >= minimum_deposit,
        deposit_amount < minimum_deposit ==> spec_check_minimum_deposit(deposit_amount, minimum_deposit)
            == Err::<(), ErrorCode>(ErrorCode::InsufficientDeposit),
{
}

/// The mint limit in plain arithmetic: the first mint is taken as proposed; after
/// that a proposal above three times the last mint yields the last mint, and any
/// other proposal is taken as is.
pub proof fn lemma_mint_limit_rule(last_mint_amount: u64, proposed_mint_value: u64)
    ensures
        last_mint_amount == 0 ==> spec_check_mint_limit(last_mint_amount, proposed_mint_value) == proposed_mint_value,
        last_mint_amount > 0 && proposed_mint_value > 3 * last_mint_amount ==> spec_check_mint_limit(
            last_mint_amount,
            proposed_mint_value,
        ) == last_mint_amount,
        last_mint_amount > 0 && proposed_mint_value <= 3 * last_mint_amount ==> spec_check_mint_limit(
            last_mint_amount,
            proposed_mint_value,
        ) == proposed_mint_value,
{
}

/// Mints never grow faster than threefold: after the first mint, an amount is
/// either the previous one or at most three times it (saturating), and it is
/// always one of the previous amount and the proposal.
pub proof fn lemma_mint_growth_bounded(last_mint_amount: u64, proposed_mint_value: u64)
    ensures
        last_mint_amount > 0 ==> spec_check_mint_limit(last_mint_amount, proposed_mint_value) <= spec_mint_limit(
            last_mint_amount,
        ),
        spec_check_mint_limit(last_mint_amount, proposed_mint_value) == proposed_mint_value
            || spec_check_mint_limit(last_mint_amount, proposed_mint_value) == last_mint_amount,
{
}

/// The value of `lp_amount` LP tokens of a vault holding `vault_total` with
/// `lp_supply` LP tokens out: zero without supply, otherwise the pro-rata amount
/// rounded down and cut to 64 bits.
pub open spec fn spec_lp_token_value(lp_amount: u64, vault_total: u64, lp_supply: u64) -> u64 {
    if lp_supply == 0 {
        0
    } else {
        (lp_amount * vault_total / (lp_supply as int)) as u64
    }
}

/// Tokens for `sol_amount` at the pool ratio of `token_a_amount` to
/// `token_b_amount` (both nonzero), in fixed point with `PRECISION_FACTOR`;
/// an amount that rounds to zero becomes one.
pub open spec fn spec_tokens_for_sol(token_a_amount: u64, token_b_amount: u64, sol_amount: u64) -> Result<u64, ErrorCode> {
    let ratio = token_a_amount * PRECISION_FACTOR / (token_b_amount as int);
    let scaled = sol_amount * ratio;
    if scaled > i128::MAX {
        Err(ErrorCode::MeteoraCalculationOverflow)
    } else {
        let tokens = scaled / (PRECISION_FACTOR as int);
        if tokens > u64::MAX {
            Err(ErrorCode::MeteoraCalculationOverflow)
        } else if tokens == 0 {
            Ok(1)
        } else {
            Ok(tokens as u64)
        }
    }
}

/// Tokens worth `sol_amount` at the pool's current reserves, read from the raw
/// data of the pool, its two vaults, their LP token accounts and LP mints.
pub open spec fn spec_donut_tokens_amount(
    pool: Seq<u8>,
    a_vault: Seq<u8>,
    b_vault: Seq<u8>,
    a_vault_lp: Seq<u8>,
    b_vault_lp: Seq<u8>,
    a_vault_lp_mint: Seq<u8>,
    b_vault_lp_mint: Seq<u8>,
    sol_amount: u64,
) -> Result<u64, ErrorCode> {
    if pool.len() <= POOL_ENABLED_OFFSET || pool[POOL_ENABLED_OFFSET as int] == 0 {
        Err(ErrorCode::PriceMeteoraReadFailed)
    } else if a_vault.len() < 19 || b_vault.len() < 19 {
        Err(ErrorCode::PriceMeteoraReadFailed)
    } else if a_vault[8] == 0 || b_vault[8] == 0 {
        Err(ErrorCode::PriceMeteoraReadFailed)
    } else if a_vault_lp.len() < 72 || b_vault_lp.len() < 72 {
        Err(ErrorCode::PriceMeteoraReadFailed)
    } else if a_vault_lp_mint.len() < 44 || b_vault_lp_mint.len() < 44 {
        Err(ErrorCode::PriceMeteoraReadFailed)
    } else {
        let token_a_amount = spec_lp_token_value(
            le_u64_at(a_vault_lp, 64) as u64,
            le_u64_at(a_vault, 11) as u64,
            le_u64_at(a_vault_lp_mint, 36) as u64,
        );
        let token_b_amount = spec_lp_token_value(
            le_u64_at(b_vault_lp, 64) as u64,
            le_u64_at(b_vault, 11) as u64,
            le_u64_at(b_vault_lp_mint, 36) as u64,
        );
        if token_a_amount == 0 || token_b_amount == 0 {
            Err(ErrorCode::PriceMeteoraReadFailed)
        } else {
            spec_tokens_for_sol(token_a_amount, token_b_amount, sol_amount)
        }
    }
}

/// The price of SOL in program tokens, in plain arithmetic over the raw account
/// data: each side's value is its own LP token amount (offset 64 of its LP token
/// account) times its own vault total (offset 11 of its vault) over its own LP
/// supply (offset 36 of its LP mint). The ratio of side A to side B is taken in
/// fixed point with 10^9, the SOL amount is priced at it and rounded down, and a
/// zero result becomes one; a result too large is an overflow, and an empty side
/// is a read failure.
pub proof fn lemma_donut_tokens_formula(
    pool: Seq<u8>,
    a_vault: Seq<u8>,
    b_vault: Seq<u8>,
    a_vault_lp: Seq<u8>,
    b_vault_lp: Seq<u8>,
    a_vault_lp_mint: Seq<u8>,
    b_vault_lp_mint: Seq<u8>,
    sol_amount: u64,
)
    requires
        pool.len() > 233,
        pool[233] != 0,
        a_vault.len() >= 19,
        b_vault.len() >= 19,
        a_vault[8] != 0,
        b_vault[8] != 0,
        a_vault_lp.len() >= 72,
        b_vault_lp.len() >= 72,
        a_vault_lp_mint.len() >= 44,
        b_vault_lp_mint.len() >= 44,
    ensures
        ({
            let a_supply = le_u64_at(a_vault_lp_mint, 36);
            let b_supply = le_u64_at(b_vault_lp_mint, 36);
            let value_a = if a_supply == 0 {
                0
            } else {
                le_u64_at(a_vault_lp, 64) * le_u64_at(a_vault, 11) / a_supply
            };
            let value_b = if b_supply == 0 {
                0
            } else {
                le_u64_at(b_vault_lp, 64) * le_u64_at(b_vault, 11) / b_supply
            };
            let res = spec_donut_tokens_amount(
                pool,
                a_vault,
                b_vault,
                a_vault_lp,
                b_vault_lp,
                a_vault_lp_mint,
                b_vault_lp_mint,
                sol_amount,
            );
            &&& value_a <= u64::MAX && value_b <= u64::MAX && (value_a == 0 || value_b == 0) ==> res
                == Err::<u64, ErrorCode>(ErrorCode::PriceMeteoraReadFailed)
            &&& value_a <= u64::MAX && value_b <= u64::MAX && value_a > 0 && value_b > 0 ==> {
                let ratio = value_a * 1_000_000_000 / value_b;
                let tokens = sol_amount * ratio / 1_000_000_000;
                &&& sol_amount * ratio <= i128::MAX && tokens <= u64::MAX ==> res == Ok::<u64, ErrorCode>(
                    if tokens == 0 {
                        1u64
                    } else {
                        tokens as u64
                    },
                )
                &&& (sol_amount * ratio > i128::MAX || tokens > u64::MAX) ==> res == Err::<u64, ErrorCode>(
                    ErrorCode::MeteoraCalculationOverflow,
                )
            }
        }),
{
    let a_supply = le_u64_at(a_vault_lp_mint, 36);
    let b_supply = le_u64_at(b_vault_lp_mint, 36);
    assert(0 <= le_u64_at(a_vault_lp, 64) <= u64::MAX);
    assert(0 <= le_u64_at(a_vault, 11) <= u64::MAX);
    assert(0 <= a_supply <= u64::MAX);
    assert(0 <= le_u64_at(b_vault_lp, 64) <= u64::MAX);
    assert(0 <= le_u64_at(b_vault, 11) <= u64::MAX);
    assert(0 <= b_supply <= u64::MAX);
}

/// Too short or disabled accounts are read failures.
pub proof fn lemma_donut_tokens_read_failures(
    pool: Seq<u8>,
    a_vault: Seq<u8>,
    b_vault: Seq<u8>,
    a_vault_lp: Seq<u8>,
    b_vault_lp: Seq<u8>,
    a_vault_lp_mint: Seq<u8>,
    b_vault_lp_mint: Seq<u8>,
    sol_amount: u64,
)
    ensures
        ({
            let res = spec_donut_tokens_amount(
                pool,
                a_vault,
                b_vault,
                a_vault_lp,
                b_vault_lp,
                a_vault_lp_mint,
                b_vault_lp_mint,
                sol_amount,
            );
            &&& (pool.len() <= 233 || pool[233] == 0) ==> res == Err::<u64, ErrorCode>(ErrorCode::PriceMeteoraReadFailed)
            &&& (a_vault.len() < 19 || b_vault.len() < 19) ==> res == Err::<u64, ErrorCode>(
                ErrorCode::PriceMeteoraReadFailed,
            )
            &&& (a_vault.len() >= 19 && b_vault.len() >= 19 && (a_vault[8] == 0 || b_vault[8] == 0)) ==> res == Err::<
                u64,
                ErrorCode,
            >(ErrorCode::PriceMeteoraReadFailed)
            &&& res matches Ok(tokens) ==> tokens >= 1
        }),
{
}

/// The value of LP tokens, as the pool pricing computes it.
fn lp_token_value(lp_amount: u64, vault_total: u64, lp_supply: u64) -> (res: u64)
    ensures
        res == spec_lp_token_value(lp_amount, vault_total, lp_supply),
{
    if lp_supply == 0 {
        0
    } else {
        proof {
            lemma_mul_upper_bound(lp_amount as int, u64::MAX as int, vault_total as int, u64::MAX as int);
            assert(u64::MAX * u64::MAX <= u128::MAX) by (nonlinear_arith);
        }
        let product = (lp_amount as u128) * (vault_total as u128);
        (product / (lp_supply as u128)) as u64
    }
}

/// Tokens for a SOL amount at the ratio of the two token amounts.
fn tokens_for_sol(token_a_amount: u64, token_b_amount: u64, sol_amount: u64) -> (res: Result<u64, ErrorCode>)
    requires
        token_a_amount > 0,
        token_b_amount > 0,
    ensures
        res == spec_tokens_for_sol(token_a_amount, token_b_amount, sol_amount),
{
    proof {
        lemma_mul_upper_bound(token_a_amount as int, u64::MAX as int, PRECISION_FACTOR as int, PRECISION_FACTOR as int);
        assert(u64::MAX * PRECISION_FACTOR <= i128::MAX) by (nonlinear_arith);
        assert(0 <= token_a_amount * PRECISION_FACTOR) by (nonlinear_arith)
            requires
                token_a_amount >= 0,
        ;
        vstd::arithmetic::div_mod::lemma_div_is_ordered_by_denominator(
            token_a_amount * PRECISION_FACTOR,
            1,
            token_b_amount as int,
        );
    }
    let scaled_a = match (token_a_amount as i128).checked_mul(PRECISION_FACTOR) {
        Some(value) => value,
        None => {
            return Err(ErrorCode::MeteoraCalculationOverflow);
        },
    };
    let ratio = match scaled_a.checked_div(token_b_amount as i128) {
        Some(value) => value,
        None => {
            return Err(ErrorCode::MeteoraCalculationOverflow);
        },
    };
    assert(ratio >= 0);
    proof {
        assert(0 <= sol_amount * ratio) by (nonlinear_arith)
            requires
                sol_amount >= 0,
                ratio >= 0,
        ;
    }
    let scaled_tokens = match (sol_amount as i128).checked_mul(ratio) {
        Some(value) => value,
        None => {
            return Err(ErrorCode::MeteoraCalculationOverflow);
        },
    };
    let donut_tokens = match scaled_tokens.checked_div(PRECISION_FACTOR) {
        Some(value) => value,
        None => {
            return Err(ErrorCode::MeteoraCalculationOverflow);
        },
    };
    if donut_tokens > u64::MAX as i128 || donut_tokens < 0 {
        return Err(ErrorCode::MeteoraCalculationOverflow);
    }
    let result = donut_tokens as u64;
    Ok(
        if result == 0 {
            1
        } else {
            result
        },
    )
}

/// Program tokens worth `sol_amount` at the pool's current reserves, computed
/// from the raw data of the pool account, both vaults, their LP token accounts
/// and their LP mints. Fails with `PriceMeteoraReadFailed` on short data, a
/// disabled pool or vault, or an empty side, and with
/// `MeteoraCalculationOverflow` when the result does not fit.
pub fn get_donut_tokens_amount(
    pool: &[u8],
    a_vault: &[u8],
    b_vault: &[u8],
    a_vault_lp: &[u8],
    b_vault_lp: &[u8],
    a_vault_lp_mint: &[u8],
    b_vault_lp_mint: &[u8],
    sol_amount: u64,
) -> (res: Result<u64, ErrorCode>)
    ensures
        res == spec_donut_tokens_amount(
            pool@,
            a_vault@,
            b_vault@,
            a_vault_lp@,
            b_vault_lp@,
            a_vault_lp_mint@,
            b_vault_lp_mint@,
            sol_amount,
        ),
        res matches Ok(tokens) ==> tokens >= 1,
{
    if pool.len() <= POOL_ENABLED_OFFSET {
        return Err(ErrorCode::PriceMeteoraReadFailed);
    }
    if pool[POOL_ENABLED_OFFSET] == 0 {
        return Err(ErrorCode::PriceMeteoraReadFailed);
    }
    if a_vault.len() < 19 {
        return Err(ErrorCode::PriceMeteoraReadFailed);
    }
    let vault_a_enabled = a_vault[8] != 0;
    let vault_a_total = read_u64_le(a_vault, 11);
    if b_vault.len() < 19 {
        return Err(ErrorCode::PriceMeteoraReadFailed);
    }
    let vault_b_enabled = b_vault[8] != 0;
    let vault_b_total = read_u64_le(b_vault, 11);
    if !vault_a_enabled || !vault_b_enabled {
        return Err(ErrorCode::PriceMeteoraReadFailed);
    }
    if a_vault_lp.len() < 72 || b_vault_lp.len() < 72 {
        return Err(ErrorCode::PriceMeteoraReadFailed);
    }
    let a_vault_lp_amount = read_u64_le(a_vault_lp, 64);
    let b_vault_lp_amount = read_u64_le(b_vault_lp, 64);
    if a_vault_lp_mint.len() < 44 || b_vault_lp_mint.len() < 44 {
        return Err(ErrorCode::PriceMeteoraReadFailed);
    }
    let a_vault_lp_supply = read_u64_le(a_vault_lp_mint, 36);
    let b_vault_lp_supply = read_u64_le(b_vault_lp_mint, 36);
    let token_a_amount = lp_token_value(a_vault_lp_amount, vault_a_total, a_vault_lp_supply);
    let token_b_amount = lp_token_value(b_vault_lp_amount, vault_b_total, b_vault_lp_supply);
    if token_a_amount == 0 || token_b_amount == 0 {
        return Err(ErrorCode::PriceMeteoraReadFailed);
    }
    tokens_for_sol(token_a_amount, token_b_amount, sol_amount)
}

} // verus!
