use vstd::prelude::*;

verus! {

/// An amount of tokens or of native currency.
pub type Balance = u128;

/// A point in time, in the unit of the host's block clock.
pub type Timestamp = u64;

/// A 32-byte account identifier.
#[derive(Clone, Copy, Debug, PartialEq, Eq)]
pub struct AccountId(pub [u8; 32]);

/// Whether every byte of `id` is 255: the identifier that stands for "no
/// account".
pub open spec fn is_zero_address(id: AccountId) -> bool {
    id.0@ == Seq::new(32, |i: int| 255u8)
}

impl AccountId {
    /// The identifier that stands for "no account": every byte is 255.
    pub fn zero_address() -> (id: AccountId)
        ensures
            is_zero_address(id),
    {
        let id = AccountId([255u8; 32]);
        assert(id.0@ =~= Seq::new(32, |i: int| 255u8));
        id
    }

    /// Whether two identifiers hold the same bytes.
    pub fn same(&self, other: &AccountId) -> (r: bool)
        ensures
            r == (*self == *other),
    {
        let mut i: usize = 0;
        while i < 32
            invariant
                i <= 32,
                forall|j: int| 0 <= j < i ==> self.0[j] == other.0[j],
            decreases 32 - i,
        {
            if self.0[i] != other.0[i] {
                return false;
            }
            i += 1;
        }
        assert(self.0 =~= other.0);
        true
    }
}

/// What the host tells a contract about the call that it is serving.
#[derive(Clone, Copy, Debug, PartialEq, Eq)]
pub struct Env {
    /// The account that made the call.
    pub caller: AccountId,
    /// The account of the contract that is called.
    pub account_id: AccountId,
    /// The time of the block in which the call runs.
    pub block_timestamp: Timestamp,
    /// The native currency attached to the call.
    pub transferred_value: Balance,
}

} // verus!
