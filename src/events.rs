use vstd::prelude::*;
use crate::account::{AccountId, Balance, TokenId};

verus! {

/// Tokens moved, appeared or vanished. `from` is `None` when supply
/// appears (a mint or a creation), `to` is `None` when it vanishes.
#[derive(Clone, Copy, Debug, PartialEq, Eq)]
pub struct TransferSingle {
    pub operator: Option<AccountId>,
    pub from: Option<AccountId>,
    pub to: Option<AccountId>,
    pub token_id: TokenId,
    pub value: Balance,
}

/// An owner granted or withdrew an operator's approval for all its tokens.
#[derive(Clone, Copy, Debug, PartialEq, Eq)]
pub struct ApprovalForAll {
    pub owner: AccountId,
    pub operator: AccountId,
    pub approved: bool,
}

/// The metadata location of a token id changed.
#[derive(Clone, Debug, PartialEq, Eq)]
pub struct Uri {
    pub value: String,
    pub token_id: TokenId,
}

/// One notification of the ledger's append-only event log.
#[derive(Clone, Debug, PartialEq, Eq)]
pub enum Event {
    TransferSingle(TransferSingle),
    ApprovalForAll(ApprovalForAll),
    Uri(Uri),
}

} // verus!
