//! The failures that a pool operation can end in.

use vstd::prelude::*;

verus! {

/// Why an operation on the pool was refused.
///
/// Every variant is terminal: the call that meets it is given up as a whole
/// and the pool stays as it was.
#[derive(Clone, Copy, Debug, PartialEq, Eq, Structural)]
pub enum DexError {
    /// A divisor, or the part of the rate that is divided by, is zero.
    DivisionByZero,
    /// A product, a quotient or a reserve does not fit its integer type.
    MathOverflow,
    /// The amount that would be paid out rounds down to zero.
    ZeroOutput,
    /// The reserve holds less than the amount that would be paid out.
    InsufficientLiquidity,
    /// The two mints do not share one decimal precision.
    DecimalsMismatch,
    /// The token mint is not owned by the Token-2022 program.
    WrongProgramToken,
    /// The wrapped-SOL mint is not owned by the classic token program.
    WrongProgramWsol,
}

} // verus!
