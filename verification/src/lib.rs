//! Quotes and swaps of a Gamma pool.
//!
//! The library reads a pool from its account data, decides whether a swap is
//! settled at the oracle price, on the invariant curve, or partly on each,
//! computes the fees of that swap, and turns the result into a quote.

pub mod account_reader;
pub mod accounts;
pub mod decimal;
pub mod error;
pub mod gamma;
pub mod gamma_deseralize_pool_state;
pub mod oracle_swap;
pub mod pool_laws;
pub mod pool_result_laws;
pub mod program;
pub mod pubkey;
pub mod states;
pub mod swap_laws;
pub mod swap_model;
pub mod swap_result_laws;
pub mod token;
