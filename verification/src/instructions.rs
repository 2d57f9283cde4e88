//! Instruction data and account roles of the deposit into the pool's vault B.

use vstd::prelude::*;

use crate::bytes::{le_u64_at, lemma_u64_le_roundtrip, push_u64_le, u64_le_bytes};

verus! {

/// Number of accounts the vault's deposit instruction takes.
pub const DEPOSIT_ACCOUNT_COUNT: usize = 7;

/// The discriminator of the vault program's `deposit` instruction.
pub open spec fn spec_deposit_discriminator() -> Seq<u8> {
    seq![242, 35, 198, 137, 82, 225, 242, 182]
}

/// Deposit instruction data: the discriminator, the amount, and a minimum of
/// zero LP tokens, both little-endian.
pub open spec fn spec_deposit_instruction_data(amount: u64) -> Seq<u8> {
    spec_deposit_discriminator() + u64_le_bytes(amount) + u64_le_bytes(0)
}

/// Builds the data of a deposit of `amount` into vault B.
pub fn deposit_instruction_data(amount: u64) -> (res: Vec<u8>)
    ensures
        res@ == spec_deposit_instruction_data(amount),
{
    let mut data: Vec<u8> = Vec::new();
    data.push(242);
    data.push(35);
    data.push(198);
    data.push(137);
    data.push(82);
    data.push(225);
    data.push(242);
    data.push(182);
    assert(data@ =~= spec_deposit_discriminator());
    push_u64_le(&mut data, amount);
    push_u64_le(&mut data, 0);
    data
}

/// The deposit data carries the amount at bytes 8 to 16 and a zero minimum at
/// bytes 16 to 24.
pub proof fn lemma_deposit_data_carries_amount(amount: u64)
    ensures
        spec_deposit_instruction_data(amount).len() == 24,
        le_u64_at(spec_deposit_instruction_data(amount), 8) == amount,
        le_u64_at(spec_deposit_instruction_data(amount), 16) == 0,
{
    lemma_u64_le_roundtrip(amount);
    lemma_u64_le_roundtrip(0);
    let data = spec_deposit_instruction_data(amount);
    assert(data.subrange(8, 16) =~= u64_le_bytes(amount));
    assert(data.subrange(16, 24) =~= u64_le_bytes(0));
    assert(le_u64_at(data, 8) == le_u64_at(data.subrange(8, 16), 0));
    assert(le_u64_at(data, 16) == le_u64_at(data.subrange(16, 24), 0));
}

/// How an account takes part in an instruction.
#[derive(Clone, Copy, Debug, PartialEq, Eq, Structural)]
pub struct AccountRole {
    pub is_writable: bool,
    pub is_signer: bool,
}

/// The role of the account at `index` of a deposit (vault B, its token vault,
/// its LP mint, the user's source token account, the LP token account, the user,
/// the token program): the first five are written, the user signs.
pub open spec fn spec_deposit_account_role(index: usize) -> AccountRole {
    if index == 5 {
        AccountRole { is_writable: false, is_signer: true }
    } else if index < 5 {
        AccountRole { is_writable: true, is_signer: false }
    } else {
        AccountRole { is_writable: false, is_signer: false }
    }
}

/// The role of the account at `index` of a deposit.
pub fn deposit_account_role(index: usize) -> (res: AccountRole)
    ensures
        res == spec_deposit_account_role(index),
{
    if index == 5 {
        AccountRole { is_writable: false, is_signer: true }
    } else if index < 5 {
        AccountRole { is_writable: true, is_signer: false }
    } else {
        AccountRole { is_writable: false, is_signer: false }
    }
}

} // verus!
