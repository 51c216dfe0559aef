//! The closed set of configuration-time failures.
//!
//! Arithmetic failures inside a pricing computation are reported as an absent
//! result (`None`); the variants here name the caller-side configuration
//! mistakes that must block pool creation outright.

use vstd::prelude::*;

verus! {

/// Errors reported when validating a curve or fee configuration.
#[derive(Clone, Copy, Debug, PartialEq, Eq, Structural)]
pub enum SwapError {
    /// A fee fraction has a numerator at least as large as its denominator
    InvalidFee,
    /// A curve parameter is zero where zero is disallowed
    InvalidCurve,
    /// A reserve is empty where the curve requires initial liquidity
    EmptySupply,
}

} // verus!
