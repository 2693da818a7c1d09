use vstd::prelude::*;

verus! {

/// Every way an entry point can fail.
#[derive(Debug, Clone, PartialEq, Eq)]
pub enum ContractError {
    /// The caller is not the principal that the operation requires.
    Unauthorized,
    /// The host rejected an address that the message carries.
    InvalidAddress,
    /// A checked addition left the range of `u128`.
    ArithmeticOverflow,
    /// A withdrawal asked for more than the account holds.
    InsufficientFunds,
    /// Required state is missing from the store.
    NotFound,
    /// The operation does not apply in the current lifecycle state.
    InvalidState,
    /// Two storage entities were given the same namespace.
    KeyCollision,
    /// A reply arrived for an id that no dispatch site produces.
    UnknownReply { id: u64 },
    /// A dispatched sub-operation reported failure.
    SubMsgFailed { error: String },
}

} // verus!
