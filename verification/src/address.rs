//! Account addresses as 32 raw bytes, and the fixed addresses the program trusts.

use vstd::prelude::*;

verus! {

/// A 32-byte account address (the bytes of a Solana public key).
#[derive(Clone, Copy, Debug)]
pub struct Address(pub [u8; 32]);

impl View for Address {
    type V = Seq<u8>;

    open spec fn view(&self) -> Seq<u8> {
        self.0@
    }
}

impl Address {
    /// Builds an address from its bytes.
    pub fn new(bytes: [u8; 32]) -> (res: Address)
        ensures
            res@ == bytes@,
    {
        Address(bytes)
    }

    /// Returns the bytes of the address.
    pub fn to_bytes(&self) -> (res: [u8; 32])
        ensures
            res@ == self@,
    {
        self.0
    }

    /// Byte-wise equality of two addresses.
    pub fn equals(&self, other: &Address) -> (res: bool)
        ensures
            res == (self@ == other@),
    {
        let mut i: usize = 0;
        while i < 32
            invariant
                0 <= i <= 32,
                self@.len() == 32,
                other@.len() == 32,
                forall|j: int| 0 <= j < i ==> self@[j] == other@[j],
            decreases 32 - i,
        {
            if self.0[i] != other.0[i] {
                assert(self@[i as int] != other@[i as int]);
                return false;
            }
            i = i + 1;
        }
        assert(self@ =~= other@);
        true
    }
}

/// Bytes of the address this program is deployed at.
pub open spec fn spec_program_id() -> Seq<u8> {
    seq![187, 243, 105, 213, 68, 162, 62, 0, 210, 189, 78, 159, 177, 38, 29, 162, 16, 144, 79, 71, 231, 45, 126, 192, 35, 68, 214, 56, 127, 125, 64, 213]
}

/// The address this program is deployed at.
pub fn program_id() -> (res: Address)
    ensures
        res@ == spec_program_id(),
{
    let res = Address([187, 243, 105, 213, 68, 162, 62, 0, 210, 189, 78, 159, 177, 38, 29, 162, 16, 144, 79, 71, 231, 45, 126, 192, 35, 68, 214, 56, 127, 125, 64, 213]);
    assert(res@ =~= spec_program_id());
    res
}

/// Bytes of the liquidity pool the program prices against and deposits into.
pub open spec fn spec_pool_address() -> Seq<u8> {
    seq![227, 1, 236, 107, 190, 182, 209, 6, 249, 183, 143, 80, 36, 25, 184, 97, 161, 137, 200, 142, 11, 198, 189, 63, 59, 103, 205, 107, 97, 173, 208, 187]
}

/// The liquidity pool the program prices against and deposits into.
pub fn pool_address() -> (res: Address)
    ensures
        res@ == spec_pool_address(),
{
    let res = Address([227, 1, 236, 107, 190, 182, 209, 6, 249, 183, 143, 80, 36, 25, 184, 97, 161, 137, 200, 142, 11, 198, 189, 63, 59, 103, 205, 107, 97, 173, 208, 187]);
    assert(res@ =~= spec_pool_address());
    res
}

/// Bytes of vault A (the program token side of the pool).
pub open spec fn spec_a_vault() -> Seq<u8> {
    seq![124, 108, 229, 248, 80, 154, 246, 32, 123, 153, 122, 96, 14, 148, 47, 95, 166, 3, 7, 249, 255, 216, 188, 38, 54, 165, 187, 150, 156, 85, 43, 114]
}

/// Vault A (the program token side of the pool).
pub fn a_vault() -> (res: Address)
    ensures
        res@ == spec_a_vault(),
{
    let res = Address([124, 108, 229, 248, 80, 154, 246, 32, 123, 153, 122, 96, 14, 148, 47, 95, 166, 3, 7, 249, 255, 216, 188, 38, 54, 165, 187, 150, 156, 85, 43, 114]);
    assert(res@ =~= spec_a_vault());
    res
}

/// Bytes of the pool's LP token account for vault A.
pub open spec fn spec_a_vault_lp() -> Seq<u8> {
    seq![150, 48, 25, 154, 192, 209, 175, 68, 2, 73, 180, 57, 76, 114, 98, 243, 235, 159, 185, 198, 180, 41, 242, 51, 179, 161, 112, 51, 106, 255, 144, 1]
}

/// The pool's LP token account for vault A.
pub fn a_vault_lp() -> (res: Address)
    ensures
        res@ == spec_a_vault_lp(),
{
    let res = Address([150, 48, 25, 154, 192, 209, 175, 68, 2, 73, 180, 57, 76, 114, 98, 243, 235, 159, 185, 198, 180, 41, 242, 51, 179, 161, 112, 51, 106, 255, 144, 1]);
    assert(res@ =~= spec_a_vault_lp());
    res
}

/// Bytes of the LP mint of vault A.
pub open spec fn spec_a_vault_lp_mint() -> Seq<u8> {
    seq![80, 70, 199, 112, 102, 123, 229, 76, 124, 174, 199, 197, 115, 3, 114, 216, 219, 71, 188, 119, 28, 93, 86, 140, 246, 163, 29, 69, 154, 67, 27, 7]
}

/// The LP mint of vault A.
pub fn a_vault_lp_mint() -> (res: Address)
    ensures
        res@ == spec_a_vault_lp_mint(),
{
    let res = Address([80, 70, 199, 112, 102, 123, 229, 76, 124, 174, 199, 197, 115, 3, 114, 216, 219, 71, 188, 119, 28, 93, 86, 140, 246, 163, 29, 69, 154, 67, 27, 7]);
    assert(res@ =~= spec_a_vault_lp_mint());
    res
}

/// Bytes of the token vault of vault A.
pub open spec fn spec_a_token_vault() -> Seq<u8> {
    seq![152, 106, 45, 45, 1, 249, 6, 202, 0, 180, 34, 208, 144, 254, 238, 123, 72, 17, 100, 225, 85, 159, 12, 243, 207, 62, 5, 221, 57, 177, 56, 17]
}

/// The token vault of vault A.
pub fn a_token_vault() -> (res: Address)
    ensures
        res@ == spec_a_token_vault(),
{
    let res = Address([152, 106, 45, 45, 1, 249, 6, 202, 0, 180, 34, 208, 144, 254, 238, 123, 72, 17, 100, 225, 85, 159, 12, 243, 207, 62, 5, 221, 57, 177, 56, 17]);
    assert(res@ =~= spec_a_token_vault());
    res
}

/// Bytes of the pool's LP token account for vault B.
pub open spec fn spec_b_vault_lp() -> Seq<u8> {
    seq![198, 202, 227, 18, 99, 228, 201, 40, 211, 190, 25, 174, 137, 82, 37, 243, 82, 186, 127, 103, 247, 76, 152, 157, 66, 12, 209, 123, 240, 18, 98, 92]
}

/// The pool's LP token account for vault B.
pub fn b_vault_lp() -> (res: Address)
    ensures
        res@ == spec_b_vault_lp(),
{
    let res = Address([198, 202, 227, 18, 99, 228, 201, 40, 211, 190, 25, 174, 137, 82, 37, 243, 82, 186, 127, 103, 247, 76, 152, 157, 66, 12, 209, 123, 240, 18, 98, 92]);
    assert(res@ =~= spec_b_vault_lp());
    res
}

/// Bytes of vault B (the wrapped SOL side of the pool).
pub open spec fn spec_b_vault() -> Seq<u8> {
    seq![211, 116, 33, 118, 184, 156, 94, 20, 201, 107, 116, 137, 152, 66, 31, 56, 16, 30, 9, 229, 197, 147, 49, 177, 104, 182, 37, 205, 39, 21, 187, 38]
}

/// Vault B (the wrapped SOL side of the pool).
pub fn b_vault() -> (res: Address)
    ensures
        res@ == spec_b_vault(),
{
    let res = Address([211, 116, 33, 118, 184, 156, 94, 20, 201, 107, 116, 137, 152, 66, 31, 56, 16, 30, 9, 229, 197, 147, 49, 177, 104, 182, 37, 205, 39, 21, 187, 38]);
    assert(res@ =~= spec_b_vault());
    res
}

/// Bytes of the token vault of vault B.
pub open spec fn spec_b_token_vault() -> Seq<u8> {
    seq![246, 23, 205, 69, 16, 175, 112, 199, 97, 146, 4, 153, 248, 254, 151, 213, 178, 49, 26, 105, 225, 154, 23, 104, 60, 162, 170, 164, 139, 236, 154, 125]
}

/// The token vault of vault B.
pub fn b_token_vault() -> (res: Address)
    ensures
        res@ == spec_b_token_vault(),
{
    let res = Address([246, 23, 205, 69, 16, 175, 112, 199, 97, 146, 4, 153, 248, 254, 151, 213, 178, 49, 26, 105, 225, 154, 23, 104, 60, 162, 170, 164, 139, 236, 154, 125]);
    assert(res@ =~= spec_b_token_vault());
    res
}

/// Bytes of the LP mint of vault B.
pub open spec fn spec_b_vault_lp_mint() -> Seq<u8> {
    seq![216, 78, 18, 144, 193, 152, 231, 136, 186, 14, 17, 79, 3, 130, 20, 103, 150, 8, 218, 40, 252, 210, 10, 22, 49, 239, 195, 147, 251, 191, 105, 42]
}

/// The LP mint of vault B.
pub fn b_vault_lp_mint() -> (res: Address)
    ensures
        res@ == spec_b_vault_lp_mint(),
{
    let res = Address([216, 78, 18, 144, 193, 152, 231, 136, 186, 14, 17, 79, 3, 130, 20, 103, 150, 8, 218, 40, 252, 210, 10, 22, 49, 239, 195, 147, 251, 191, 105, 42]);
    assert(res@ =~= spec_b_vault_lp_mint());
    res
}

/// Bytes of the mint of the program token.
pub open spec fn spec_token_mint() -> Seq<u8> {
    seq![190, 45, 61, 127, 235, 70, 14, 224, 176, 108, 22, 235, 4, 3, 172, 127, 243, 198, 106, 152, 102, 223, 125, 39, 141, 184, 8, 30, 208, 2, 54, 36]
}

/// The mint of the program token.
pub fn token_mint() -> (res: Address)
    ensures
        res@ == spec_token_mint(),
{
    let res = Address([190, 45, 61, 127, 235, 70, 14, 224, 176, 108, 22, 235, 4, 3, 172, 127, 243, 198, 106, 152, 102, 223, 125, 39, 141, 184, 8, 30, 208, 2, 54, 36]);
    assert(res@ =~= spec_token_mint());
    res
}

/// Bytes of the wrapped SOL mint.
pub open spec fn spec_wsol_mint() -> Seq<u8> {
    seq![6, 155, 136, 87, 254, 171, 129, 132, 251, 104, 127, 99, 70, 24, 192, 53, 218, 196, 57, 220, 26, 235, 59, 85, 152, 160, 240, 0, 0, 0, 0, 1]
}

/// The wrapped SOL mint.
pub fn wsol_mint() -> (res: Address)
    ensures
        res@ == spec_wsol_mint(),
{
    let res = Address([6, 155, 136, 87, 254, 171, 129, 132, 251, 104, 127, 99, 70, 24, 192, 53, 218, 196, 57, 220, 26, 235, 59, 85, 152, 160, 240, 0, 0, 0, 0, 1]);
    assert(res@ =~= spec_wsol_mint());
    res
}

/// Bytes of the Chainlink oracle program.
pub open spec fn spec_chainlink_program() -> Seq<u8> {
    seq![241, 75, 246, 90, 213, 107, 210, 186, 113, 94, 69, 116, 44, 35, 31, 39, 214, 54, 33, 207, 91, 119, 143, 55, 193, 162, 72, 149, 29, 23, 86, 2]
}

/// The Chainlink oracle program.
pub fn chainlink_program() -> (res: Address)
    ensures
        res@ == spec_chainlink_program(),
{
    let res = Address([241, 75, 246, 90, 213, 107, 210, 186, 113, 94, 69, 116, 44, 35, 31, 39, 214, 54, 33, 207, 91, 119, 143, 55, 193, 162, 72, 149, 29, 23, 86, 2]);
    assert(res@ =~= spec_chainlink_program());
    res
}

/// Bytes of the SOL/USD price feed.
pub open spec fn spec_sol_usd_feed() -> Seq<u8> {
    seq![167, 140, 30, 242, 193, 23, 166, 75, 154, 50, 51, 139, 60, 250, 7, 100, 232, 71, 190, 42, 248, 150, 252, 63, 70, 124, 227, 72, 107, 215, 33, 103]
}

/// The SOL/USD price feed.
pub fn sol_usd_feed() -> (res: Address)
    ensures
        res@ == spec_sol_usd_feed(),
{
    let res = Address([167, 140, 30, 242, 193, 23, 166, 75, 154, 50, 51, 139, 60, 250, 7, 100, 232, 71, 190, 42, 248, 150, 252, 63, 70, 124, 227, 72, 107, 215, 33, 103]);
    assert(res@ =~= spec_sol_usd_feed());
    res
}

/// Bytes of the treasury that may register users without a referrer.
pub open spec fn spec_multisig_treasury() -> Seq<u8> {
    seq![223, 32, 43, 64, 83, 204, 54, 146, 210, 27, 27, 243, 250, 10, 39, 165, 78, 139, 2, 243, 174, 245, 173, 104, 224, 218, 33, 10, 52, 67, 50, 242]
}

/// The treasury that may register users without a referrer.
pub fn multisig_treasury() -> (res: Address)
    ensures
        res@ == spec_multisig_treasury(),
{
    let res = Address([223, 32, 43, 64, 83, 204, 54, 146, 210, 27, 27, 243, 250, 10, 39, 165, 78, 139, 2, 243, 174, 245, 173, 104, 224, 218, 33, 10, 52, 67, 50, 242]);
    assert(res@ =~= spec_multisig_treasury());
    res
}

/// Bytes of the only key allowed to initialize the program state.
pub open spec fn spec_authorized_initializer() -> Seq<u8> {
    seq![15, 199, 233, 124, 162, 213, 225, 117, 176, 67, 108, 109, 105, 184, 251, 254, 31, 226, 77, 233, 212, 133, 61, 168, 35, 16, 247, 252, 234, 13, 70, 108]
}

/// The only key allowed to initialize the program state.
pub fn authorized_initializer() -> (res: Address)
    ensures
        res@ == spec_authorized_initializer(),
{
    let res = Address([15, 199, 233, 124, 162, 213, 225, 117, 176, 67, 108, 109, 105, 184, 251, 254, 31, 226, 77, 233, 212, 133, 61, 168, 35, 16, 247, 252, 234, 13, 70, 108]);
    assert(res@ =~= spec_authorized_initializer());
    res
}

} // verus!
