//! A fixed-rate exchange between two assets that live under two different
//! token programs.
//!
//! The pool keeps a reserve of each asset in a vault of its own and swaps one
//! for the other at a rate that never changes. This crate holds the rules of
//! the exchange: the arithmetic, the pool's record, what a swap and the
//! setting up of a pool ask of the token programs, and in which order. The
//! transfers themselves are the host's work; see [`swap`] and [`init`] for
//! how a call is stepped through, and [`custody`] for why the reserves stay
//! equal to what the vaults hold.

pub mod address;
pub mod channel;
pub mod custody;
pub mod error;
pub mod init;
pub mod math;
pub mod pool;
pub mod price;
pub mod swap;
pub mod transfer;

pub use address::Address;
pub use channel::TransferChannel;
pub use error::DexError;
pub use init::{initialize, InitState, Initialize, MintInfo};
pub use math::mul_div_u64;
pub use pool::Pool;
pub use price::{Price, Side, PRICE_DEN_WS_PER_TOKEN, PRICE_NUM_WS_PER_TOKEN};
pub use swap::{buy, sell, swap_step, Action, Buy, Sell, SwapAccounts, SwapState};
pub use transfer::{xfer_checked, AuthoritySeeds, TransferRequest};
