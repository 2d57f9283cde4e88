use matrix_system::address::Address;
use matrix_system::bytes::{push_u64_le, read_u64_le};
use matrix_system::error::ErrorCode;
use matrix_system::instructions::{deposit_account_role, deposit_instruction_data, AccountRole};
use matrix_system::pricing::{check_mint_limit, check_minimum_deposit, effective_sol_price, get_donut_tokens_amount};
use matrix_system::state::ProgramState;

fn pool(enabled: u8) -> Vec<u8> {
    let mut data = vec![0u8; 234];
    data[233] = enabled;
    data
}

fn vault(enabled: u8, total: u64) -> Vec<u8> {
    let mut data = vec![0u8; 11];
    data[8] = enabled;
    push_u64_le(&mut data, total);
    data
}

fn at_offset(offset: usize, value: u64) -> Vec<u8> {
    let mut data = vec![0u8; offset];
    push_u64_le(&mut data, value);
    data
}

struct Market {
    pool: Vec<u8>,
    a_vault: Vec<u8>,
    b_vault: Vec<u8>,
    a_lp: Vec<u8>,
    b_lp: Vec<u8>,
    a_mint: Vec<u8>,
    b_mint: Vec<u8>,
}

impl Market {
    fn new(a: (u64, u64, u64), b: (u64, u64, u64)) -> Market {
        Market {
            pool: pool(1),
            a_vault: vault(1, a.1),
            b_vault: vault(1, b.1),
            a_lp: at_offset(64, a.0),
            b_lp: at_offset(64, b.0),
            a_mint: at_offset(36, a.2),
            b_mint: at_offset(36, b.2),
        }
    }

    fn tokens(&self, sol: u64) -> Result<u64, ErrorCode> {
        get_donut_tokens_amount(&self.pool, &self.a_vault, &self.b_vault, &self.a_lp, &self.b_lp, &self.a_mint, &self.b_mint, sol)
    }
}

#[test]
fn donut_tokens_follow_pool_ratio() {
    // token A side worth 1000, token B side worth 50: 20 tokens per lamport
    let market = Market::new((100, 1000, 100), (10, 500, 100));
    assert_eq!(market.tokens(3), Ok(60));
    assert_eq!(market.tokens(1_000_000_000), Ok(20_000_000_000));
}

#[test]
fn donut_tokens_round_up_zero_to_one() {
    let market = Market::new((100, 1000, 100), (10, 500, 100));
    assert_eq!(market.tokens(0), Ok(1));
    let cheap = Market::new((1, 1, 1), (1, 1_000_000, 1));
    assert_eq!(cheap.tokens(5), Ok(1));
}

#[test]
fn donut_tokens_overflow() {
    let market = Market::new((1, u64::MAX, 1), (1, 1, 1));
    assert_eq!(market.tokens(u64::MAX), Err(ErrorCode::MeteoraCalculationOverflow));
    assert_eq!(market.tokens(2), Err(ErrorCode::MeteoraCalculationOverflow));
    assert_eq!(market.tokens(1), Ok(u64::MAX));
}

#[test]
fn donut_tokens_cut_lp_value_to_64_bits() {
    // (2^64 - 1)^2 cut to 64 bits is 1
    let market = Market::new((u64::MAX, u64::MAX, 1), (1, 1, 1));
    assert_eq!(market.tokens(7), Ok(7));
}

#[test]
fn donut_tokens_read_failures() {
    let good = Market::new((100, 1000, 100), (10, 500, 100));
    let mut m = Market::new((100, 1000, 100), (10, 500, 100));
    m.pool = pool(0);
    assert_eq!(m.tokens(3), Err(ErrorCode::PriceMeteoraReadFailed));
    m.pool = vec![1u8; 233];
    assert_eq!(m.tokens(3), Err(ErrorCode::PriceMeteoraReadFailed));
    m.pool = good.pool.clone();
    m.b_vault = vault(0, 500);
    assert_eq!(m.tokens(3), Err(ErrorCode::PriceMeteoraReadFailed));
    m.b_vault = vec![1u8; 18];
    assert_eq!(m.tokens(3), Err(ErrorCode::PriceMeteoraReadFailed));
    m.b_vault = good.b_vault.clone();
    m.a_lp = vec![0u8; 71];
    assert_eq!(m.tokens(3), Err(ErrorCode::PriceMeteoraReadFailed));
    m.a_lp = good.a_lp.clone();
    m.b_mint = vec![0u8; 43];
    assert_eq!(m.tokens(3), Err(ErrorCode::PriceMeteoraReadFailed));
    m.b_mint = at_offset(36, 0);
    assert_eq!(m.tokens(3), Err(ErrorCode::PriceMeteoraReadFailed));
    m.b_mint = good.b_mint.clone();
    assert_eq!(m.tokens(3), Ok(60));
}

#[test]
fn stale_feed_uses_default_price() {
    assert_eq!(effective_sol_price(150_00000000, 1000, 1000), 150_00000000);
    assert_eq!(effective_sol_price(150_00000000, 86400, 0), 150_00000000);
    assert_eq!(effective_sol_price(150_00000000, 86401, 0), 100_00000000);
}

#[test]
fn minimum_deposit_check() {
    assert_eq!(check_minimum_deposit(10, 10), Ok(()));
    assert_eq!(check_minimum_deposit(9, 10), Err(ErrorCode::InsufficientDeposit));
}

fn state(last_mint_amount: u64) -> ProgramState {
    ProgramState {
        owner: Address([1; 32]),
        multisig_treasury: Address([2; 32]),
        next_upline_id: 5,
        next_chain_id: 6,
        last_mint_amount,
    }
}

#[test]
fn mint_limit_sequence() {
    let mut s = state(0);
    assert_eq!(check_mint_limit(&mut s, 100), 100);
    assert_eq!(s.last_mint_amount, 100);
    assert_eq!(check_mint_limit(&mut s, 300), 300);
    assert_eq!(s.last_mint_amount, 300);
    assert_eq!(check_mint_limit(&mut s, 901), 300);
    assert_eq!(s.last_mint_amount, 300);
    assert_eq!(check_mint_limit(&mut s, 1), 1);
    assert_eq!(s.last_mint_amount, 1);
    assert_eq!(s.next_chain_id, 6);
}

#[test]
fn mint_limit_saturates() {
    let mut s = state(u64::MAX / 2);
    assert_eq!(check_mint_limit(&mut s, u64::MAX), u64::MAX);
}

#[test]
fn little_endian_roundtrip() {
    let mut data = vec![9u8];
    push_u64_le(&mut data, 0x0102_0304_0506_0708);
    assert_eq!(&data[1..], &[8, 7, 6, 5, 4, 3, 2, 1]);
    assert_eq!(read_u64_le(&data, 1), 0x0102_0304_0506_0708);
    assert_eq!(read_u64_le(&data, 1), u64::from_le_bytes([8, 7, 6, 5, 4, 3, 2, 1]));
}

#[test]
fn deposit_instruction_layout() {
    let data = deposit_instruction_data(1_000_000);
    assert_eq!(data.len(), 24);
    assert_eq!(&data[..8], &[242, 35, 198, 137, 82, 225, 242, 182]);
    assert_eq!(&data[8..16], &1_000_000u64.to_le_bytes());
    assert_eq!(&data[16..], &0u64.to_le_bytes());
}

#[test]
fn deposit_account_roles() {
    for i in 0..5 {
        assert_eq!(deposit_account_role(i), AccountRole { is_writable: true, is_signer: false });
    }
    assert_eq!(deposit_account_role(5), AccountRole { is_writable: false, is_signer: true });
    assert_eq!(deposit_account_role(6), AccountRole { is_writable: false, is_signer: false });
}
