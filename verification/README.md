# matrix_system

Verified core of a Solana referral program in which every user owns a
three-slot matrix: the first referral's deposit goes to a liquidity pool, the
second is reserved (in SOL and in program tokens priced at the pool), and the
third pays the reserves out and passes the new user up to the referrer's own
referrer, up to six levels.

- `src/` is the library, verified with Verus:
  - `address`: 32-byte addresses and the fixed accounts the program trusts;
  - `verify`, `token`: address, wallet and token-account checks;
  - `meteora`: vault and pool account layouts, locked-profit and share value;
  - `bytes`, `instructions`: little-endian fields and the vault deposit data;
  - `pricing`: token pricing from pool data, the oracle fallback, the mint limit;
  - `state`: program and user accounts, the matrix and the upline;
  - `registration`: the instructions as decisions, returning the actions to take;
  - `decimal`: fixed-point decimals as text.
- `app/` is the Anchor program: accounts, handlers, cross-program invocations and
  the floating-point minimum deposit; it carries out what the library decides.
- `tests/` exercises the library on concrete values.
