use vstd::prelude::*;
use crate::account::{AccountId, Timestamp};
use crate::table::{map_of, Table};

verus! {

/// Why the guard turned a request away.
#[derive(Clone, Copy, Debug, PartialEq, Eq)]
pub enum Rejected {
    /// The deadline of the request lies before the current time.
    Expired,
    /// The nonce of the request is not the next one of the account.
    InvalidNonce,
}

/// The value that `m` holds for `account`, zero where it holds none.
pub open spec fn value_or_zero(m: Map<AccountId, u128>, account: AccountId) -> u128 {
    if m.contains_key(account) {
        m[account]
    } else {
        0
    }
}

/// What the guard answers to a request, given the next nonce of the account.
/// A counter that stands at its largest value admits no further request.
pub open spec fn replay_verdict(
    current: u128,
    nonce: u128,
    deadline: Timestamp,
    now: Timestamp,
) -> Result<(), Rejected> {
    if deadline < now {
        Err(Rejected::Expired)
    } else if nonce != current || current == u128::MAX {
        Err(Rejected::InvalidNonce)
    } else {
        Ok(())
    }
}

/// The nonce counters after the guard has answered a request: the counter of
/// the account is one higher where the request was admitted, and nothing
/// changes where it was not.
pub open spec fn nonces_after(
    nonces: Map<AccountId, u128>,
    account: AccountId,
    nonce: u128,
    deadline: Timestamp,
    now: Timestamp,
) -> Map<AccountId, u128> {
    if replay_verdict(value_or_zero(nonces, account), nonce, deadline, now) is Ok {
        nonces.insert(account, (nonce + 1) as u128)
    } else {
        nonces
    }
}

/// One counter for each account, which admits each nonce once and in order.
pub struct ReplayGuard {
    nonces: Table<AccountId, u128>,
}

impl View for ReplayGuard {
    type V = Map<AccountId, u128>;

    closed spec fn view(&self) -> Map<AccountId, u128> {
        self.nonces@
    }
}

impl ReplayGuard {
    /// The next nonce that the guard admits for `account`.
    pub open spec fn spec_current_nonce(&self, account: AccountId) -> u128 {
        value_or_zero(self@, account)
    }

    /// A guard that has admitted no request yet.
    pub fn new() -> (guard: Self)
        ensures
            guard@ == Map::<AccountId, u128>::empty(),
    {
        ReplayGuard { nonces: Table::new() }
    }

    /// A guard with the counters of a list, each account with the value of
    /// its last entry.
    pub fn from_vec(nonces: &Vec<(AccountId, u128)>) -> (guard: Self)
        ensures
            guard@ == map_of(nonces@),
    {
        ReplayGuard { nonces: Table::from_vec(nonces) }
    }

    /// The counters of the guard as a list, each account once.
    pub fn to_vec(&self) -> (nonces: Vec<(AccountId, u128)>)
        ensures
            map_of(nonces@) == self@,
    {
        self.nonces.to_vec()
    }

    /// The next nonce that the guard admits for `account`: the number of
    /// requests that it has admitted for it.
    #[verifier::when_used_as_spec(spec_current_nonce)]
    pub fn current_nonce(&self, account: AccountId) -> (nonce: u128)
        ensures
            nonce == self.spec_current_nonce(account),
    {
        match self.nonces.get(&account) {
            Some(n) => n,
            None => 0,
        }
    }

    /// Admits a request whose deadline has not passed and whose nonce is the
    /// next one of the account, and advances the counter of the account by
    /// one. Turns any other request away and changes nothing.
    pub fn check_and_advance(
        &mut self,
        account: AccountId,
        nonce: u128,
        deadline: Timestamp,
        now: Timestamp,
    ) -> (r: Result<(), Rejected>)
        ensures
            r == replay_verdict(old(self).current_nonce(account), nonce, deadline, now),
            final(self)@ == nonces_after(old(self)@, account, nonce, deadline, now),
    {
        if deadline < now {
            return Err(Rejected::Expired);
        }
        let current = self.current_nonce(account);
        if nonce != current || current == u128::MAX {
            return Err(Rejected::InvalidNonce);
        }
        self.nonces.insert(account, nonce + 1);
        Ok(())
    }
}

/// Each admitted request raises the counter of its account by exactly one and
/// leaves every other counter as it was.
pub proof fn admitted_request_advances_by_one(
    nonces: Map<AccountId, u128>,
    account: AccountId,
    nonce: u128,
    deadline: Timestamp,
    now: Timestamp,
    other: AccountId,
)
    requires
        replay_verdict(value_or_zero(nonces, account), nonce, deadline, now) is Ok,
    ensures
        nonce == value_or_zero(nonces, account),
        value_or_zero(nonces_after(nonces, account, nonce, deadline, now), account) == nonce + 1,
        other != account ==> value_or_zero(
            nonces_after(nonces, account, nonce, deadline, now),
            other,
        ) == value_or_zero(nonces, other),
{
}

/// No request lowers a counter, whether it is admitted or turned away.
pub proof fn nonce_never_decreases(
    nonces: Map<AccountId, u128>,
    account: AccountId,
    nonce: u128,
    deadline: Timestamp,
    now: Timestamp,
    other: AccountId,
)
    ensures
        value_or_zero(nonces_after(nonces, account, nonce, deadline, now), other) >= value_or_zero(
            nonces,
            other,
        ),
{
}

/// A request whose nonce is not the next one of its account is turned away
/// and changes nothing: a nonce that skips ahead as well as one that was used
/// before.
pub proof fn out_of_sequence_is_rejected(
    nonces: Map<AccountId, u128>,
    account: AccountId,
    nonce: u128,
    deadline: Timestamp,
    now: Timestamp,
)
    requires
        deadline >= now,
        nonce != value_or_zero(nonces, account),
    ensures
        replay_verdict(value_or_zero(nonces, account), nonce, deadline, now) == Err::<
            (),
            Rejected,
        >(Rejected::InvalidNonce),
        nonces_after(nonces, account, nonce, deadline, now) == nonces,
{
}

/// Once a nonce has been admitted for an account, the same nonce is turned
/// away as invalid ever after, whatever requests were answered in between and
/// however often it is tried: the counter stays above it. (A request whose
/// deadline has passed is turned away as expired, whatever its nonce is.)
pub proof fn consumed_nonce_stays_rejected(
    nonces: Map<AccountId, u128>,
    account: AccountId,
    nonce: u128,
    deadline: Timestamp,
    now: Timestamp,
)
    requires
        value_or_zero(nonces, account) > nonce,
        deadline >= now,
    ensures
        replay_verdict(value_or_zero(nonces, account), nonce, deadline, now) == Err::<
            (),
            Rejected,
        >(Rejected::InvalidNonce),
        nonces_after(nonces, account, nonce, deadline, now) == nonces,
        value_or_zero(nonces_after(nonces, account, nonce, deadline, now), account) > nonce,
{
}

/// A request is in time exactly when its deadline is not before the current
/// time: a deadline equal to the current time passes, one that lies a single
/// unit before it is expired.
pub proof fn deadline_boundary(current: u128, nonce: u128, deadline: Timestamp, now: Timestamp)
    ensures
        deadline == now && nonce == current && current < u128::MAX ==> replay_verdict(
            current,
            nonce,
            deadline,
            now,
        ) is Ok,
        deadline + 1 == now ==> replay_verdict(current, nonce, deadline, now) == Err::<
            (),
            Rejected,
        >(Rejected::Expired),
        replay_verdict(current, nonce, deadline, now) == Err::<(), Rejected>(Rejected::Expired)
            <==> deadline < now,
{
}

} // verus!
