use vstd::prelude::*;
use crate::account::{AccountId, Balance, TokenId};

verus! {

/// The balance of `owner` in `token_id` under the model `m`: zero where no
/// entry stands.
pub open spec fn balance_in(
    m: Map<(AccountId, TokenId), Balance>,
    owner: AccountId,
    token_id: TokenId,
) -> Balance {
    if m.contains_key((owner, token_id)) {
        m[(owner, token_id)]
    } else {
        0
    }
}

/// Whether `owner` has approved `operator` under the model `m`: false where
/// no entry stands.
pub open spec fn approved_in(
    m: Map<(AccountId, AccountId), bool>,
    owner: AccountId,
    operator: AccountId,
) -> bool {
    m.contains_key((owner, operator)) && m[(owner, operator)]
}

/// One entry of the balance store.
#[derive(Clone, Copy, Debug)]
struct BalanceEntry {
    owner: AccountId,
    token_id: TokenId,
    balance: Balance,
}

/// Balances keyed by account and token id. An entry, even one of zero,
/// records that the account created the token id.
pub struct BalanceStore {
    entries: Vec<BalanceEntry>,
    model: Ghost<Map<(AccountId, TokenId), Balance>>,
}

impl BalanceStore {
    /// The balances that the store holds, by account and token id.
    pub closed spec fn view(&self) -> Map<(AccountId, TokenId), Balance> {
        self.model@
    }

    /// The entries have unique keys and agree with the model.
    pub closed spec fn wf(&self) -> bool {
        &&& forall|i: int, j: int|
            0 <= i < j < self.entries@.len() ==> (#[trigger] self.entries@[i].owner, self.entries@[i].token_id)
                != (#[trigger] self.entries@[j].owner, self.entries@[j].token_id)
        &&& forall|i: int|
            0 <= i < self.entries@.len() ==> #[trigger] self.model@.contains_key(
                (self.entries@[i].owner, self.entries@[i].token_id),
            ) && self.model@[(self.entries@[i].owner, self.entries@[i].token_id)]
                == self.entries@[i].balance
        &&& forall|k: (AccountId, TokenId)|
            #[trigger] self.model@.contains_key(k) ==> exists|i: int|
                0 <= i < self.entries@.len() && (self.entries@[i].owner, self.entries@[i].token_id)
                    == k
    }

    /// An empty store.
    pub fn new() -> (r: BalanceStore)
        ensures
            r.wf(),
            r@ == Map::<(AccountId, TokenId), Balance>::empty(),
    {
        BalanceStore { entries: Vec::new(), model: Ghost(Map::empty()) }
    }

    /// The position of the entry for `owner` and `token_id`, if there is one.
    fn find(&self, owner: &AccountId, token_id: TokenId) -> (r: Option<usize>)
        requires
            self.wf(),
        ensures
            match r {
                Some(i) => i < self.entries@.len() && self.entries@[i as int].owner == *owner
                    && self.entries@[i as int].token_id == token_id,
                None => !self@.contains_key((*owner, token_id)),
            },
    {
        let mut i: usize = 0;
        while i < self.entries.len()
            invariant
                0 <= i <= self.entries@.len(),
                forall|k: int|
                    0 <= k < i ==> (#[trigger] self.entries@[k].owner, self.entries@[k].token_id)
                        != (*owner, token_id),
            decreases self.entries@.len() - i,
        {
            let e = &self.entries[i];
            if e.token_id == token_id && e.owner.same_as(owner) {
                return Some(i);
            }
            i = i + 1;
        }
        None
    }

    /// Whether an entry stands for `owner` and `token_id`.
    pub fn contains(&self, owner: &AccountId, token_id: TokenId) -> (r: bool)
        requires
            self.wf(),
        ensures
            r == self@.contains_key((*owner, token_id)),
    {
        match self.find(owner, token_id) {
            Some(i) => {
                assert(self.model@.contains_key((self.entries@[i as int].owner, self.entries@[i as int].token_id)));
                true
            },
            None => false,
        }
    }

    /// The balance of `owner` in `token_id`, zero where no entry stands.
    pub fn get(&self, owner: &AccountId, token_id: TokenId) -> (r: Balance)
        requires
            self.wf(),
        ensures
            r == balance_in(self@, *owner, token_id),
    {
        match self.find(owner, token_id) {
            Some(i) => {
                assert(self.model@.contains_key((self.entries@[i as int].owner, self.entries@[i as int].token_id)));
                self.entries[i].balance
            },
            None => 0,
        }
    }

    /// Writes `balance` for `owner` and `token_id`, creating the entry where
    /// none stands. No check is made here.
    pub fn set(&mut self, owner: &AccountId, token_id: TokenId, balance: Balance)
        requires
            old(self).wf(),
        ensures
            final(self).wf(),
            final(self)@ == old(self)@.insert((*owner, token_id), balance),
    {
        let ghost key = (*owner, token_id);
        let ghost new_model = self.model@.insert(key, balance);
        let entry = BalanceEntry { owner: *owner, token_id, balance };
        match self.find(owner, token_id) {
            Some(i) => {
                let ghost old_entries = self.entries@;
                self.entries.set(i, entry);
                self.model = Ghost(new_model);
                assert forall|k: (AccountId, TokenId)| #[trigger] new_model.contains_key(k) implies exists|j: int|
                    0 <= j < self.entries@.len() && (self.entries@[j].owner, self.entries@[j].token_id) == k by {
                    if k != key {
                        let j = choose|j: int| 0 <= j < old_entries.len() && (old_entries[j].owner, old_entries[j].token_id) == k;
                        assert(j != i);
                        assert((self.entries@[j].owner, self.entries@[j].token_id) == k);
                    } else {
                        assert((self.entries@[i as int].owner, self.entries@[i as int].token_id) == k);
                    }
                }
            },
            None => {
                let ghost old_entries = self.entries@;
                self.entries.push(entry);
                self.model = Ghost(new_model);
                assert forall|k: (AccountId, TokenId)| #[trigger] new_model.contains_key(k) implies exists|j: int|
                    0 <= j < self.entries@.len() && (self.entries@[j].owner, self.entries@[j].token_id) == k by {
                    if k != key {
                        let j = choose|j: int| 0 <= j < old_entries.len() && (old_entries[j].owner, old_entries[j].token_id) == k;
                        assert((self.entries@[j].owner, self.entries@[j].token_id) == k);
                    } else {
                        assert((self.entries@[old_entries.len() as int].owner, self.entries@[old_entries.len() as int].token_id) == k);
                    }
                }
                assert forall|a: int, b: int|
                    0 <= a < b < self.entries@.len() implies (self.entries@[a].owner, self.entries@[a].token_id)
                        != (self.entries@[b].owner, self.entries@[b].token_id) by {
                    if b == old_entries.len() {
                        assert(old_entries[a] == self.entries@[a]);
                        assert(self.model@.contains_key((old_entries[a].owner, old_entries[a].token_id)));
                    }
                }
            },
        }
    }
}

} // verus!

verus! {

/// One entry of the approval store.
#[derive(Clone, Copy, Debug)]
struct ApprovalEntry {
    owner: AccountId,
    operator: AccountId,
    approved: bool,
}

/// Approvals keyed by owner and operator: whether the operator may act on
/// all of the owner's tokens.
pub struct ApprovalStore {
    entries: Vec<ApprovalEntry>,
    model: Ghost<Map<(AccountId, AccountId), bool>>,
}

impl ApprovalStore {
    /// The approval flags that the store holds, by owner and operator.
    pub closed spec fn view(&self) -> Map<(AccountId, AccountId), bool> {
        self.model@
    }

    /// The entries have unique keys and agree with the model.
    pub closed spec fn wf(&self) -> bool {
        &&& forall|i: int, j: int|
            0 <= i < j < self.entries@.len() ==> (#[trigger] self.entries@[i].owner, self.entries@[i].operator)
                != (#[trigger] self.entries@[j].owner, self.entries@[j].operator)
        &&& forall|i: int|
            0 <= i < self.entries@.len() ==> #[trigger] self.model@.contains_key(
                (self.entries@[i].owner, self.entries@[i].operator),
            ) && self.model@[(self.entries@[i].owner, self.entries@[i].operator)]
                == self.entries@[i].approved
        &&& forall|k: (AccountId, AccountId)|
            #[trigger] self.model@.contains_key(k) ==> exists|i: int|
                0 <= i < self.entries@.len() && (self.entries@[i].owner, self.entries@[i].operator)
                    == k
    }

    /// An empty store.
    pub fn new() -> (r: ApprovalStore)
        ensures
            r.wf(),
            r@ == Map::<(AccountId, AccountId), bool>::empty(),
    {
        ApprovalStore { entries: Vec::new(), model: Ghost(Map::empty()) }
    }

    /// The position of the entry for `owner` and `operator`, if there is one.
    fn find(&self, owner: &AccountId, operator: &AccountId) -> (r: Option<usize>)
        requires
            self.wf(),
        ensures
            match r {
                Some(i) => i < self.entries@.len() && self.entries@[i as int].owner == *owner
                    && self.entries@[i as int].operator == *operator,
                None => !self@.contains_key((*owner, *operator)),
            },
    {
        let mut i: usize = 0;
        while i < self.entries.len()
            invariant
                0 <= i <= self.entries@.len(),
                forall|k: int|
                    0 <= k < i ==> (#[trigger] self.entries@[k].owner, self.entries@[k].operator)
                        != (*owner, *operator),
            decreases self.entries@.len() - i,
        {
            let e = &self.entries[i];
            if e.owner.same_as(owner) && e.operator.same_as(operator) {
                return Some(i);
            }
            i = i + 1;
        }
        None
    }

    /// Whether `owner` has approved `operator`, false where no entry stands.
    pub fn get(&self, owner: &AccountId, operator: &AccountId) -> (r: bool)
        requires
            self.wf(),
        ensures
            r == approved_in(self@, *owner, *operator),
    {
        match self.find(owner, operator) {
            Some(i) => {
                assert(self.model@.contains_key((self.entries@[i as int].owner, self.entries@[i as int].operator)));
                self.entries[i].approved
            },
            None => false,
        }
    }

    /// Writes the flag for `owner` and `operator`. No check is made here; in
    /// particular an owner equal to the operator is stored as given.
    pub fn set(&mut self, owner: &AccountId, operator: &AccountId, approved: bool)
        requires
            old(self).wf(),
        ensures
            final(self).wf(),
            final(self)@ == old(self)@.insert((*owner, *operator), approved),
    {
        let ghost key = (*owner, *operator);
        let ghost new_model = self.model@.insert(key, approved);
        let entry = ApprovalEntry { owner: *owner, operator: *operator, approved };
        match self.find(owner, operator) {
            Some(i) => {
                let ghost old_entries = self.entries@;
                self.entries.set(i, entry);
                self.model = Ghost(new_model);
                assert forall|k: (AccountId, AccountId)| #[trigger] new_model.contains_key(k) implies exists|j: int|
                    0 <= j < self.entries@.len() && (self.entries@[j].owner, self.entries@[j].operator) == k by {
                    if k != key {
                        let j = choose|j: int| 0 <= j < old_entries.len() && (old_entries[j].owner, old_entries[j].operator) == k;
                        assert(j != i);
                        assert((self.entries@[j].owner, self.entries@[j].operator) == k);
                    } else {
                        assert((self.entries@[i as int].owner, self.entries@[i as int].operator) == k);
                    }
                }
                assert forall|a: int, b: int|
                    0 <= a < b < self.entries@.len() implies (self.entries@[a].owner, self.entries@[a].operator)
                        != (self.entries@[b].owner, self.entries@[b].operator) by {
                    assert((old_entries[a].owner, old_entries[a].operator) != (old_entries[b].owner, old_entries[b].operator));
                }
                assert forall|a: int| 0 <= a < self.entries@.len() implies #[trigger] new_model.contains_key(
                    (self.entries@[a].owner, self.entries@[a].operator),
                ) && new_model[(self.entries@[a].owner, self.entries@[a].operator)] == self.entries@[a].approved by {
                    if a != i {
                        assert((old_entries[a].owner, old_entries[a].operator) != (old_entries[i as int].owner, old_entries[i as int].operator));
                    }
                }
            },
            None => {
                let ghost old_entries = self.entries@;
                self.entries.push(entry);
                self.model = Ghost(new_model);
                assert forall|k: (AccountId, AccountId)| #[trigger] new_model.contains_key(k) implies exists|j: int|
                    0 <= j < self.entries@.len() && (self.entries@[j].owner, self.entries@[j].operator) == k by {
                    if k != key {
                        let j = choose|j: int| 0 <= j < old_entries.len() && (old_entries[j].owner, old_entries[j].operator) == k;
                        assert((self.entries@[j].owner, self.entries@[j].operator) == k);
                    } else {
                        assert((self.entries@[old_entries.len() as int].owner, self.entries@[old_entries.len() as int].operator) == k);
                    }
                }
                assert forall|a: int, b: int|
                    0 <= a < b < self.entries@.len() implies (self.entries@[a].owner, self.entries@[a].operator)
                        != (self.entries@[b].owner, self.entries@[b].operator) by {
                    if b == old_entries.len() {
                        assert(old_entries[a] == self.entries@[a]);
                        assert(self.model@.contains_key((old_entries[a].owner, old_entries[a].operator)));
                    }
                }
            },
        }
    }
}

} // verus!
