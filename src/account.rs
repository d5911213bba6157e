use vstd::prelude::*;

verus! {

/// The identifier of a token class.
pub type TokenId = u128;

/// A quantity of one token class held by one account.
pub type Balance = u128;

/// An opaque 32-byte account identifier, compared byte for byte.
#[derive(Clone, Copy, Debug, PartialEq, Eq, Hash)]
pub struct AccountId {
    pub bytes: [u8; 32],
}

/// The thirty-two zero bytes of the zero address.
pub open spec fn zero_bytes() -> Seq<u8> {
    Seq::new(32, |i: int| 0u8)
}

impl AccountId {
    /// The account with the given bytes.
    pub fn new(bytes: [u8; 32]) -> (r: AccountId)
        ensures
            r.bytes == bytes,
    {
        AccountId { bytes }
    }

    /// Whether two accounts are the same one.
    pub fn same_as(&self, other: &AccountId) -> (r: bool)
        ensures
            r == (*self == *other),
    {
        let mut i: usize = 0;
        while i < 32
            invariant
                0 <= i <= 32,
                forall|k: int| 0 <= k < i ==> self.bytes@[k] == other.bytes@[k],
            decreases 32 - i,
        {
            if self.bytes[i] != other.bytes[i] {
                return false;
            }
            i = i + 1;
        }
        assert(self.bytes =~= other.bytes);
        true
    }

    /// Whether this is the zero address, which may never receive tokens.
    pub fn is_zero(&self) -> (r: bool)
        ensures
            r == (self.bytes@ == zero_bytes()),
    {
        let mut i: usize = 0;
        while i < 32
            invariant
                0 <= i <= 32,
                forall|k: int| 0 <= k < i ==> self.bytes@[k] == 0u8,
            decreases 32 - i,
        {
            if self.bytes[i] != 0 {
                assert(self.bytes@[i as int] != zero_bytes()[i as int]);
                return false;
            }
            i = i + 1;
        }
        assert(self.bytes@ =~= zero_bytes());
        true
    }
}

/// The reserved zero address.
pub fn zero_address() -> (r: AccountId)
    ensures
        r.bytes@ == zero_bytes(),
{
    let r = AccountId { bytes: [0u8; 32] };
    assert(r.bytes@ =~= zero_bytes());
    r
}

} // verus!
