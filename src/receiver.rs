use vstd::prelude::*;
use crate::account::{AccountId, Balance, TokenId};
use crate::contract::Contract;

verus! {

/// The discriminator of the single-receipt entry point, which a recipient
/// echoes to accept one pushed token id.
pub open spec fn single_acknowledgement() -> Seq<u8> {
    seq![0xF2u8, 0x3Au8, 0x6Eu8, 0x61u8]
}

/// The discriminator of the batch-receipt entry point, which a recipient
/// echoes to accept several pushed token ids.
pub open spec fn batch_acknowledgement() -> Seq<u8> {
    seq![0xBCu8, 0x19u8, 0x7Cu8, 0x81u8]
}

/// Whether `ack` is exactly the four bytes `b0 b1 b2 b3`.
fn is_four_bytes(ack: &Vec<u8>, b0: u8, b1: u8, b2: u8, b3: u8) -> (r: bool)
    ensures
        r == (ack@ == seq![b0, b1, b2, b3]),
{
    let r = ack.len() == 4 && ack[0] == b0 && ack[1] == b1 && ack[2] == b2 && ack[3] == b3;
    if r {
        assert(ack@ =~= seq![b0, b1, b2, b3]);
    }
    r
}

/// Whether a recipient's answer to a single push accepts it. A sender treats
/// every other answer as a rejection and takes nothing into effect.
pub fn accepts_single(ack: &Vec<u8>) -> (r: bool)
    ensures
        r == (ack@ == single_acknowledgement()),
{
    is_four_bytes(ack, 0xF2, 0x3A, 0x6E, 0x61)
}

/// Whether a recipient's answer to a batch push accepts it. A sender treats
/// every other answer as a rejection and takes nothing into effect.
pub fn accepts_batch(ack: &Vec<u8>) -> (r: bool)
    ensures
        r == (ack@ == batch_acknowledgement()),
{
    is_four_bytes(ack, 0xBC, 0x19, 0x7C, 0x81)
}

/// The entry points of an account that may receive pushed tokens. To accept,
/// a recipient answers with the entry point's discriminator; to refuse, it
/// answers `None`, which aborts the push. It never answers with other bytes.
pub trait SongnftTokenReceiver {
    /// Receipt of `value` tokens of `token_id`, sent by `operator` from `from`.
    fn on_received(
        &mut self,
        operator: AccountId,
        from: AccountId,
        token_id: TokenId,
        value: Balance,
        data: Vec<u8>,
    ) -> (r: Option<Vec<u8>>)
        ensures
            r is Some ==> r->Some_0@ == single_acknowledgement(),
    ;

    /// Receipt of `values[i]` tokens of `token_ids[i]` for each `i`, sent by
    /// `operator` from `from`.
    fn on_batch_received(
        &mut self,
        operator: AccountId,
        from: AccountId,
        token_ids: Vec<TokenId>,
        values: Vec<Balance>,
        data: Vec<u8>,
    ) -> (r: Option<Vec<u8>>)
        ensures
            r is Some ==> r->Some_0@ == batch_acknowledgement(),
    ;
}

/// The ledger accepts no pushed tokens: both entry points abort and change
/// nothing.
impl SongnftTokenReceiver for Contract {
    fn on_received(
        &mut self,
        operator: AccountId,
        from: AccountId,
        token_id: TokenId,
        value: Balance,
        data: Vec<u8>,
    ) -> (r: Option<Vec<u8>>)
        ensures
            r is None,
            *final(self) == *old(self),
    {
        None
    }

    fn on_batch_received(
        &mut self,
        operator: AccountId,
        from: AccountId,
        token_ids: Vec<TokenId>,
        values: Vec<Balance>,
        data: Vec<u8>,
    ) -> (r: Option<Vec<u8>>)
        ensures
            r is None,
            *final(self) == *old(self),
    {
        None
    }
}

} // verus!
