use vstd::prelude::*;
use crate::account::{AccountId, Balance, Env};

verus! {

/// Why a token ledger turned a request away.
#[derive(Clone, Debug, PartialEq, Eq)]
pub enum PSP22Error {
    /// A reason of the ledger's own, in words.
    Custom(String),
    /// The account holds fewer tokens than the request moves.
    InsufficientBalance,
    /// The spender may withdraw fewer tokens than the request moves.
    InsufficientAllowance,
    /// The recipient is the account that stands for "no account".
    ZeroRecipientAddress,
    /// The sender is the account that stands for "no account".
    ZeroSenderAddress,
    /// The recipient refused the tokens.
    SafeTransferCheckFailed(String),
}

/// A fungible-token ledger, as a settlement contract sees it. Each request
/// comes with the environment of the call: who asks, and with how much native
/// currency attached.
///
/// A ledger decides by itself whether it carries out a transfer. The
/// interface gives that decision a name, and a name to the states in which the
/// request may leave the ledger, so that a contract that calls it can say
/// what it asked for.
pub trait PSP22: Sized {
    /// The number of tokens in existence.
    spec fn spec_total_supply(&self) -> Balance;

    /// The number of tokens that `owner` holds.
    spec fn spec_balance_of(&self, owner: AccountId) -> Balance;

    /// The number of tokens that `spender` may still withdraw from `owner`.
    spec fn spec_allowance(&self, owner: AccountId, spender: AccountId) -> Balance;

    /// Whether the ledger, in this state, carries out a transfer of `value`
    /// tokens from the caller to `to`.
    spec fn accepts_transfer(&self, env: Env, to: AccountId, value: Balance) -> bool;

    /// Whether the ledger may be in this state after it has answered, in the
    /// state `before`, a request to transfer `value` tokens from the caller
    /// to `to`.
    spec fn follows_transfer(&self, before: &Self, env: Env, to: AccountId, value: Balance) -> bool;

    /// Whether the ledger, in this state, carries out a transfer of `value`
    /// tokens from `from` to `to` on behalf of the caller.
    spec fn accepts_transfer_from(
        &self,
        env: Env,
        from: AccountId,
        to: AccountId,
        value: Balance,
    ) -> bool;

    /// Whether the ledger may be in this state after it has answered, in the
    /// state `before`, a request to transfer `value` tokens from `from` to
    /// `to` on behalf of the caller.
    spec fn follows_transfer_from(
        &self,
        before: &Self,
        env: Env,
        from: AccountId,
        to: AccountId,
        value: Balance,
    ) -> bool;

    /// The number of tokens in existence.
    fn total_supply(&self) -> (supply: Balance)
        ensures
            supply == self.spec_total_supply(),
    ;

    /// The number of tokens that `owner` holds, zero for an unknown account.
    fn balance_of(&self, owner: AccountId) -> (balance: Balance)
        ensures
            balance == self.spec_balance_of(owner),
    ;

    /// The number of tokens that `spender` may still withdraw from `owner`.
    fn allowance(&self, owner: AccountId, spender: AccountId) -> (allowance: Balance)
        ensures
            allowance == self.spec_allowance(owner, spender),
    ;

    /// Moves `value` tokens from the caller to `to`.
    fn transfer(&mut self, env: &Env, to: AccountId, value: Balance, data: Vec<u8>) -> (r: Result<
        (),
        PSP22Error,
    >)
        ensures
            r is Ok <==> old(self).accepts_transfer(*env, to, value),
            final(self).follows_transfer(old(self), *env, to, value),
    ;

    /// Moves `value` tokens from `from` to `to`, out of what the caller may
    /// withdraw from `from`.
    fn transfer_from(
        &mut self,
        env: &Env,
        from: AccountId,
        to: AccountId,
        value: Balance,
        data: Vec<u8>,
    ) -> (r: Result<(), PSP22Error>)
        ensures
            r is Ok <==> old(self).accepts_transfer_from(*env, from, to, value),
            final(self).follows_transfer_from(old(self), *env, from, to, value),
    ;

    /// Lets `spender` withdraw up to `value` tokens from the caller, in
    /// place of what it could withdraw before. Whether the ledger does so is
    /// the ledger's matter; where it does, the allowance is `value`.
    fn approve(&mut self, env: &Env, spender: AccountId, value: Balance) -> (r: Result<
        (),
        PSP22Error,
    >)
        ensures
            r is Ok ==> final(self).spec_allowance(env.caller, spender) == value,
    ;

    /// Raises by `delta_value` what `spender` may withdraw from the caller.
    /// Whether the ledger does so is the ledger's matter; where it does, the
    /// allowance is higher by `delta_value`.
    fn increase_allowance(&mut self, env: &Env, spender: AccountId, delta_value: Balance) -> (r:
        Result<(), PSP22Error>)
        ensures
            r is Ok ==> final(self).spec_allowance(env.caller, spender) == old(
                self,
            ).spec_allowance(env.caller, spender) + delta_value,
    ;

    /// Lowers by `delta_value` what `spender` may withdraw from the caller.
    /// The ledger refuses where the allowance is below `delta_value`; where
    /// it does not refuse, the allowance is lower by `delta_value`.
    fn decrease_allowance(&mut self, env: &Env, spender: AccountId, delta_value: Balance) -> (r:
        Result<(), PSP22Error>)
        ensures
            old(self).spec_allowance(env.caller, spender) < delta_value ==> r is Err,
            r is Ok ==> final(self).spec_allowance(env.caller, spender) == old(
                self,
            ).spec_allowance(env.caller, spender) - delta_value,
    ;
}

/// The environment in which a contract calls a ledger: the contract is the
/// caller, and no native currency is attached.
pub open spec fn spec_ledger_env(env: Env, ledger: AccountId) -> Env {
    Env {
        caller: env.account_id,
        account_id: ledger,
        block_timestamp: env.block_timestamp,
        transferred_value: 0,
    }
}

/// The environment in which a contract calls a ledger: the contract is the
/// caller, and no native currency is attached.
#[verifier::when_used_as_spec(spec_ledger_env)]
pub fn ledger_env(env: Env, ledger: AccountId) -> (callee: Env)
    ensures
        callee == spec_ledger_env(env, ledger),
{
    Env {
        caller: env.account_id,
        account_id: ledger,
        block_timestamp: env.block_timestamp,
        transferred_value: 0,
    }
}

} // verus!
