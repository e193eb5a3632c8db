use vstd::prelude::*;

verus! {

/// Why an instruction of the vault was refused. Every error aborts the
/// whole instruction: no balance changes.
#[derive(Clone, Copy, Debug, PartialEq, Eq, Structural)]
pub enum MigrateError {
    /// A multiplication, a division or a power of ten does not fit the
    /// amount width, or a pro-rata division by a zero supply.
    ArithmeticOverflow,
    /// A presented account does not belong to the expected vault, owner or
    /// mint, or the vault's seeds do not reproduce its address.
    AccountMismatch,
    /// Creation refused: the pool is not funded, no address can be derived,
    /// or a vault already exists at the derived address.
    PreconditionUnmet,
    /// The computed withdrawal is zero: the deposit would buy nothing.
    PolicyRejection,
    /// A transfer leg would move more than its source account holds.
    InsufficientFunds,
}

} // verus!
