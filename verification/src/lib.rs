//! Pricing core of a two-token automated market-making pool.
//!
//! Given two reserve balances and a trade, deposit or withdrawal request,
//! the library computes exact token amounts under one of several bonding
//! curves, with a fee model layered on top by the caller.  Every function is
//! total: it returns `None` or a typed error instead of panicking, and every
//! result is pinned down by a contract over mathematical integers.

pub mod calculator;
pub mod constant_price;
pub mod constant_product;
pub mod errors;
pub mod fees;
pub mod offset;
pub mod precise;
pub mod stable;
pub mod wide;
