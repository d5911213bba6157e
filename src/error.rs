use vstd::prelude::*;

verus! {

/// Why an operation of the ledger did not take effect.
#[derive(Clone, Copy, Debug, PartialEq, Eq, Structural)]
pub enum Error {
    /// The token id has not been created.
    UnexistentToken,
    /// Tokens were to be sent to the zero address.
    ZeroAddressTransfer,
    /// The caller may not move tokens on behalf of the account.
    NotApproved,
    /// The account holds too few tokens for the transfer.
    InsufficientBalance,
    /// An account tried to approve itself as its own operator.
    SelfApproval,
    /// The lists of token ids and of values differ in length.
    BatchTransferMismatch,
    /// The caller already created this token id.
    TokenAlreadyExists,
    /// The token id does not exist, or the caller did not create it.
    UnexistentTokenOrCallerNotOwner,
}

} // verus!
