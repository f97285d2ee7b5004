# gamma_amm

Quotes and swaps of a Gamma pool, verified with Verus.

- `src/gamma_deseralize_pool_state.rs`, `src/account_reader.rs`: a pool's state and how it is read
  from account data.
- `src/swap_model.rs`: what a swap at the oracle price is, in whole numbers.
- `src/oracle_swap.rs`: the swap calculator, proved against that model.
- `src/gamma.rs`: a pool as a router sees it: updates, quotes and the accounts of a swap.
- `src/accounts.rs`, `src/token.rs`, `src/decimal.rs`, `src/pubkey.rs`: account data, mints and
  transfer fees, decimal fractions and addresses, with the calls into outside crates.
- `src/program.rs`, `src/states.rs`: the pool program's calculations and records. The calculations
  are a trait of which nothing is taken for granted: all contracts hold for every answer.
- `src/swap_laws.rs`, `src/pool_laws.rs`: what holds of every swap, pool, update and quote.
- `app/`: the pool as an exchange of the Jupiter router.
