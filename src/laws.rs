use vstd::prelude::*;
use crate::account::{AccountId, Balance, TokenId};
use crate::contract::{
    after_create, after_mint, batch_balances, create_events, create_outcome, creation_event,
    mint_outcome, row_balances,
};
use crate::error::Error;
use crate::events::Event;
use crate::store::balance_in;

verus! {

/// A pair of account and token id that `create` never saw holds nothing: the
/// empty ledger holds nothing, `create` adds the caller's pair alone, and
/// `mint` adds no pair.
pub proof fn uncreated_pairs_hold_nothing(
    m: Map<(AccountId, TokenId), Balance>,
    account: AccountId,
    token_id: TokenId,
    caller: AccountId,
    other_id: TokenId,
    value: Balance,
)
    ensures
        balance_in(Map::empty(), account, token_id) == 0,
        !m.contains_key((account, token_id)) ==> balance_in(m, account, token_id) == 0,
        (account, token_id) != (caller, other_id) ==> (after_create(m, caller, value, other_id).contains_key((account, token_id))
            <==> m.contains_key((account, token_id))),
        after_mint(m, caller, other_id, value).contains_key((account, token_id)) <==> m.contains_key(
            (account, token_id),
        ),
{
}

/// A first `create` succeeds, gives the caller the initial supply and emits
/// a transfer from no one; a second one of the same token id by the same
/// caller fails and changes nothing.
pub proof fn create_then_create_again(
    m: Map<(AccountId, TokenId), Balance>,
    caller: AccountId,
    value: Balance,
    token_id: TokenId,
    second_value: Balance,
)
    requires
        !m.contains_key((caller, token_id)),
    ensures
        create_outcome(m, caller, token_id) == Ok::<TokenId, Error>(token_id),
        balance_in(after_create(m, caller, value, token_id), caller, token_id) == value,
        create_events(m, caller, value, token_id) == seq![creation_event(caller, token_id, value)],
        creation_event(caller, token_id, value) matches Event::TransferSingle(e) && e.from is None,
        create_outcome(after_create(m, caller, value, token_id), caller, token_id) == Err::<
            TokenId,
            Error,
        >(Error::TokenAlreadyExists),
        after_create(after_create(m, caller, value, token_id), caller, second_value, token_id)
            == after_create(m, caller, value, token_id),
        create_events(after_create(m, caller, value, token_id), caller, second_value, token_id)
            == Seq::<Event>::empty(),
{
}

/// `mint` by the creator of a token id sets the balance to the new value,
/// whatever it was before.
pub proof fn mint_overwrites(
    m: Map<(AccountId, TokenId), Balance>,
    caller: AccountId,
    token_id: TokenId,
    value: Balance,
)
    requires
        m.contains_key((caller, token_id)),
    ensures
        mint_outcome(m, caller, token_id) == Ok::<(), Error>(()),
        balance_in(after_mint(m, caller, token_id, value), caller, token_id) == value,
{
}

/// `mint` by an account that did not create the token id fails and leaves
/// every balance as it was.
pub proof fn mint_without_create_fails(
    m: Map<(AccountId, TokenId), Balance>,
    caller: AccountId,
    token_id: TokenId,
    value: Balance,
)
    requires
        !m.contains_key((caller, token_id)),
    ensures
        mint_outcome(m, caller, token_id) == Err::<(), Error>(
            Error::UnexistentTokenOrCallerNotOwner,
        ),
        after_mint(m, caller, token_id, value) == m,
{
}

/// A batch query holds one balance per owner and token id, owner by owner in
/// the owners' order and, within an owner, in the token ids' order; it is
/// empty where either list is.
pub proof fn batch_is_row_major(
    m: Map<(AccountId, TokenId), Balance>,
    owners: Seq<AccountId>,
    token_ids: Seq<TokenId>,
)
    ensures
        batch_balances(m, owners, token_ids).len() == owners.len() * token_ids.len(),
        forall|i: int, j: int|
            0 <= i < owners.len() && 0 <= j < token_ids.len() ==> #[trigger] batch_balances(
                m,
                owners,
                token_ids,
            )[i * token_ids.len() + j] == balance_in(m, #[trigger] owners[i], token_ids[j]),
        (owners.len() == 0 || token_ids.len() == 0) ==> batch_balances(m, owners, token_ids)
            == Seq::<Balance>::empty(),
    decreases owners.len(),
{
    let n = token_ids.len();
    if owners.len() > 0 {
        let prefix = owners.drop_last();
        batch_is_row_major(m, prefix, token_ids);
        let head = batch_balances(m, prefix, token_ids);
        let row = row_balances(m, owners.last(), token_ids);
        assert(head.len() == prefix.len() * n);
        assert(owners.len() * n == prefix.len() * n + n) by (nonlinear_arith)
            requires
                owners.len() == prefix.len() + 1,
        ;
        assert forall|i: int, j: int| 0 <= i < owners.len() && 0 <= j < n implies #[trigger] batch_balances(
            m,
            owners,
            token_ids,
        )[i * n + j] == balance_in(m, #[trigger] owners[i], token_ids[j]) by {
            if i < prefix.len() {
                assert(i * n + j < prefix.len() * n) by (nonlinear_arith)
                    requires
                        0 <= i < prefix.len(),
                        0 <= j < n,
                ;
                assert(0 <= i * n) by (nonlinear_arith)
                    requires
                        0 <= i,
                        0 <= n,
                ;
                assert(prefix[i] == owners[i]);
                assert(head[i * n + j] == balance_in(m, prefix[i], token_ids[j]));
            } else {
                assert(i * n == prefix.len() * n);
                assert(row[j] == balance_in(m, owners[i], token_ids[j]));
            }
        }
        if n == 0 {
            assert(batch_balances(m, owners, token_ids) =~= Seq::<Balance>::empty());
        }
    }
}

/// Queries read the state and nothing else: with no change in between, a
/// repeated single or batch query answers as the first did.
pub proof fn repeated_queries_agree(
    before: Map<(AccountId, TokenId), Balance>,
    after: Map<(AccountId, TokenId), Balance>,
    owner: AccountId,
    token_id: TokenId,
    owners: Seq<AccountId>,
    token_ids: Seq<TokenId>,
)
    requires
        before == after,
    ensures
        balance_in(before, owner, token_id) == balance_in(after, owner, token_id),
        batch_balances(before, owners, token_ids) == batch_balances(after, owners, token_ids),
{
}

} // verus!
