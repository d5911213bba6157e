use vstd::prelude::*;
use crate::account::{AccountId, Balance, TokenId};
use crate::error::Error;
use crate::events::{Event, TransferSingle};
use crate::store::{balance_in, ApprovalStore, BalanceStore};

verus! {

/// The event that records the creation of `token_id` by `caller` with an
/// initial supply of `value`; a supply of zero goes to no one.
pub open spec fn creation_event(caller: AccountId, token_id: TokenId, value: Balance) -> Event {
    Event::TransferSingle(
        TransferSingle {
            operator: Some(caller),
            from: None,
            to: if value == 0 { None } else { Some(caller) },
            token_id,
            value,
        },
    )
}

/// The event that records `caller` minting `token_id` to a supply of `value`.
pub open spec fn mint_event(caller: AccountId, token_id: TokenId, value: Balance) -> Event {
    Event::TransferSingle(
        TransferSingle { operator: Some(caller), from: None, to: Some(caller), token_id, value },
    )
}

/// What `create` returns on the balances `m`: the token id, unless the caller
/// already created it.
pub open spec fn create_outcome(
    m: Map<(AccountId, TokenId), Balance>,
    caller: AccountId,
    token_id: TokenId,
) -> Result<TokenId, Error> {
    if m.contains_key((caller, token_id)) {
        Err(Error::TokenAlreadyExists)
    } else {
        Ok(token_id)
    }
}

/// The balances after `create` on the balances `m`.
pub open spec fn after_create(
    m: Map<(AccountId, TokenId), Balance>,
    caller: AccountId,
    value: Balance,
    token_id: TokenId,
) -> Map<(AccountId, TokenId), Balance> {
    if m.contains_key((caller, token_id)) {
        m
    } else {
        m.insert((caller, token_id), value)
    }
}

/// The events that `create` appends on the balances `m`.
pub open spec fn create_events(
    m: Map<(AccountId, TokenId), Balance>,
    caller: AccountId,
    value: Balance,
    token_id: TokenId,
) -> Seq<Event> {
    if m.contains_key((caller, token_id)) {
        Seq::empty()
    } else {
        seq![creation_event(caller, token_id, value)]
    }
}

/// What `mint` returns on the balances `m`: success only where the caller
/// created the token id.
pub open spec fn mint_outcome(
    m: Map<(AccountId, TokenId), Balance>,
    caller: AccountId,
    token_id: TokenId,
) -> Result<(), Error> {
    if m.contains_key((caller, token_id)) {
        Ok(())
    } else {
        Err(Error::UnexistentTokenOrCallerNotOwner)
    }
}

/// The balances after `mint` on the balances `m`: the caller's balance is
/// replaced by `value`, not increased.
pub open spec fn after_mint(
    m: Map<(AccountId, TokenId), Balance>,
    caller: AccountId,
    token_id: TokenId,
    value: Balance,
) -> Map<(AccountId, TokenId), Balance> {
    if m.contains_key((caller, token_id)) {
        m.insert((caller, token_id), value)
    } else {
        m
    }
}

/// The events that `mint` appends on the balances `m`.
pub open spec fn mint_events(
    m: Map<(AccountId, TokenId), Balance>,
    caller: AccountId,
    token_id: TokenId,
    value: Balance,
) -> Seq<Event> {
    if m.contains_key((caller, token_id)) {
        seq![mint_event(caller, token_id, value)]
    } else {
        Seq::empty()
    }
}

/// The balances of `owner` in each of `token_ids`, in order.
pub open spec fn row_balances(
    m: Map<(AccountId, TokenId), Balance>,
    owner: AccountId,
    token_ids: Seq<TokenId>,
) -> Seq<Balance> {
    token_ids.map_values(|t: TokenId| balance_in(m, owner, t))
}

/// The balances of every owner in every token id: one row per owner, in the
/// owners' order, each row in the token ids' order.
pub open spec fn batch_balances(
    m: Map<(AccountId, TokenId), Balance>,
    owners: Seq<AccountId>,
    token_ids: Seq<TokenId>,
) -> Seq<Balance>
    decreases owners.len(),
{
    if owners.len() == 0 {
        Seq::empty()
    } else {
        batch_balances(m, owners.drop_last(), token_ids) + row_balances(
            m,
            owners.last(),
            token_ids,
        )
    }
}

/// Balance queries of a multi-token ledger.
pub trait Songnft {
    /// The ledger's state is consistent.
    spec fn well_formed(&self) -> bool;

    /// The balances that the ledger holds, by account and token id.
    spec fn balance_model(&self) -> Map<(AccountId, TokenId), Balance>;

    /// The balance of `owner` in `token_id`; zero where none was created.
    fn balance_of(&self, owner: AccountId, token_id: TokenId) -> (r: Balance)
        requires
            self.well_formed(),
        ensures
            r == balance_in(self.balance_model(), owner, token_id),
    ;

    /// The balance of every owner in every token id, owner by owner.
    fn balance_of_batch(&self, owners: Vec<AccountId>, token_ids: Vec<TokenId>) -> (r: Vec<
        Balance,
    >)
        requires
            self.well_formed(),
        ensures
            r@ == batch_balances(self.balance_model(), owners@, token_ids@),
    ;
}

/// The multi-token ledger: balances, approvals and the log of events that
/// the operations have emitted and nobody has taken yet.
pub struct Contract {
    balances: BalanceStore,
    approvals: ApprovalStore,
    events: Vec<Event>,
}

impl Contract {
    /// The stores are consistent, and no account holds an approval for
    /// itself.
    pub closed spec fn wf(&self) -> bool {
        &&& self.balances.wf()
        &&& self.approvals.wf()
        &&& forall|owner: AccountId, operator: AccountId|
            #[trigger] self.approvals@.contains_key((owner, operator)) ==> owner != operator
    }

    /// The balances, by account and token id. A key stands exactly for each
    /// token id that the account created.
    pub closed spec fn balances(&self) -> Map<(AccountId, TokenId), Balance> {
        self.balances@
    }

    /// The approval flags, by owner and operator.
    pub closed spec fn approvals(&self) -> Map<(AccountId, AccountId), bool> {
        self.approvals@
    }

    /// The events emitted and not yet taken, oldest first.
    pub closed spec fn log(&self) -> Seq<Event> {
        self.events@
    }

    /// A consistent ledger holds no approval of an account for itself.
    pub proof fn no_self_approval(&self)
        requires
            self.wf(),
        ensures
            forall|owner: AccountId, operator: AccountId|
                #[trigger] self.approvals().contains_key((owner, operator)) ==> owner != operator,
    {
    }

    /// An empty ledger.
    pub fn new() -> (r: Contract)
        ensures
            r.wf(),
            r.balances() == Map::<(AccountId, TokenId), Balance>::empty(),
            r.approvals() == Map::<(AccountId, AccountId), bool>::empty(),
            r.log() == Seq::<Event>::empty(),
    {
        Contract { balances: BalanceStore::new(), approvals: ApprovalStore::new(), events: Vec::new() }
    }

    /// `caller` creates `token_id` with an initial supply of `value`, unless
    /// it already did.
    pub fn create(&mut self, caller: AccountId, value: Balance, token_id: TokenId) -> (r: Result<
        TokenId,
        Error,
    >)
        requires
            old(self).wf(),
        ensures
            final(self).wf(),
            r == create_outcome(old(self).balances(), caller, token_id),
            final(self).balances() == after_create(old(self).balances(), caller, value, token_id),
            final(self).approvals() == old(self).approvals(),
            final(self).log() == old(self).log() + create_events(
                old(self).balances(),
                caller,
                value,
                token_id,
            ),
    {
        if self.balances.contains(&caller, token_id) {
            assert(create_events(old(self).balances(), caller, value, token_id) =~= Seq::empty());
            assert(self.log() + Seq::empty() =~= self.log());
            return Err(Error::TokenAlreadyExists);
        }
        self.balances.set(&caller, token_id, value);
        let to = if value == 0 {
            None
        } else {
            Some(caller)
        };
        self.events.push(
            Event::TransferSingle(
                TransferSingle { operator: Some(caller), from: None, to, token_id, value },
            ),
        );
        assert(self.log() =~= old(self).log() + create_events(
            old(self).balances(),
            caller,
            value,
            token_id,
        ));
        Ok(token_id)
    }

    /// `caller` sets its supply of `token_id` to `value`; only the account
    /// that created the token id may.
    pub fn mint(&mut self, caller: AccountId, token_id: TokenId, value: Balance) -> (r: Result<
        (),
        Error,
    >)
        requires
            old(self).wf(),
        ensures
            final(self).wf(),
            r == mint_outcome(old(self).balances(), caller, token_id),
            final(self).balances() == after_mint(old(self).balances(), caller, token_id, value),
            final(self).approvals() == old(self).approvals(),
            final(self).log() == old(self).log() + mint_events(
                old(self).balances(),
                caller,
                token_id,
                value,
            ),
    {
        if !self.balances.contains(&caller, token_id) {
            assert(self.log() + Seq::empty() =~= self.log());
            return Err(Error::UnexistentTokenOrCallerNotOwner);
        }
        self.balances.set(&caller, token_id, value);
        self.events.push(
            Event::TransferSingle(
                TransferSingle {
                    operator: Some(caller),
                    from: None,
                    to: Some(caller),
                    token_id,
                    value,
                },
            ),
        );
        assert(self.log() =~= old(self).log() + mint_events(
            old(self).balances(),
            caller,
            token_id,
            value,
        ));
        Ok(())
    }

    /// The events emitted and not yet taken, oldest first.
    pub fn events(&self) -> (r: &Vec<Event>)
        ensures
            r@ == self.log(),
    {
        &self.events
    }

    /// Hands out the events emitted so far and empties the log.
    pub fn take_events(&mut self) -> (r: Vec<Event>)
        ensures
            r@ == old(self).log(),
            final(self).log() == Seq::<Event>::empty(),
            final(self).wf() == old(self).wf(),
            final(self).balances() == old(self).balances(),
            final(self).approvals() == old(self).approvals(),
    {
        let mut taken: Vec<Event> = Vec::new();
        std::mem::swap(&mut self.events, &mut taken);
        taken
    }
}

impl Default for Contract {
    /// An empty ledger, as `new` makes.
    fn default() -> (r: Contract)
        ensures
            r.wf(),
            r.balances() == Map::<(AccountId, TokenId), Balance>::empty(),
            r.approvals() == Map::<(AccountId, AccountId), bool>::empty(),
            r.log() == Seq::<Event>::empty(),
    {
        Contract::new()
    }
}

impl Songnft for Contract {
    open spec fn well_formed(&self) -> bool {
        self.wf()
    }

    open spec fn balance_model(&self) -> Map<(AccountId, TokenId), Balance> {
        self.balances()
    }

    fn balance_of(&self, owner: AccountId, token_id: TokenId) -> (r: Balance) {
        self.balances.get(&owner, token_id)
    }

    fn balance_of_batch(&self, owners: Vec<AccountId>, token_ids: Vec<TokenId>) -> (r: Vec<
        Balance,
    >) {
        let ghost m = self.balances();
        let mut output: Vec<Balance> = Vec::new();
        let mut i: usize = 0;
        while i < owners.len()
            invariant
                self.wf(),
                m == self.balances(),
                i <= owners@.len(),
                output@ == batch_balances(m, owners@.take(i as int), token_ids@),
            decreases owners@.len() - i,
        {
            let owner = owners[i];
            let mut j: usize = 0;
            while j < token_ids.len()
                invariant
                    self.wf(),
                    m == self.balances(),
                    i < owners@.len(),
                    owner == owners@[i as int],
                    j <= token_ids@.len(),
                    output@ == batch_balances(m, owners@.take(i as int), token_ids@) + row_balances(
                        m,
                        owner,
                        token_ids@.take(j as int),
                    ),
                decreases token_ids@.len() - j,
            {
                let amount = self.balances.get(&owner, token_ids[j]);
                assert(row_balances(m, owner, token_ids@.take(j + 1)) =~= row_balances(
                    m,
                    owner,
                    token_ids@.take(j as int),
                ).push(amount));
                output.push(amount);
                j = j + 1;
            }
            assert(token_ids@.take(j as int) =~= token_ids@);
            assert(owners@.take(i + 1).drop_last() =~= owners@.take(i as int));
            i = i + 1;
        }
        assert(owners@.take(i as int) =~= owners@);
        output
    }
}

} // verus!
