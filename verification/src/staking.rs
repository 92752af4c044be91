use vstd::prelude::*;
use vstd::string::*;
use vstd::utf8::encode_utf8;
use crate::account::{AccountId, Balance, Env, Timestamp};
use crate::codec::{authorization_message, authorization_text, distinct_tags_give_distinct_texts};
use crate::ido::{buy_message, claim_message};
use crate::psp22::{ledger_env, spec_ledger_env, PSP22};
use crate::replay::{nonces_after, replay_verdict, value_or_zero, Rejected, ReplayGuard};
use crate::signature::{signature_valid, verify};
use crate::table::{map_of, Table};

verus! {

/// Why a staking contract turned a request away.
#[derive(Clone, Copy, Debug, PartialEq, Eq)]
pub enum StakingError {
    /// The deadline of the request has passed.
    Expired,
    /// The nonce is not the next one of the caller.
    InvalidNonce,
    /// The signature is malformed or is not the signer's.
    InvalidSignature,
    /// The contract may withdraw fewer tokens from the caller than the stake.
    InsufficientAllowance,
    /// The caller holds fewer tokens than the stake.
    InsufficientBalance,
    /// The caller has staked fewer tokens than the request releases.
    InsufficientStake,
    /// The contract holds fewer tokens than the request releases.
    InsufficientReserve,
    /// The staked total of the caller does not fit.
    ArithmeticError,
    /// The token ledger refused the transfer.
    TransferFailed,
    /// The caller is not the owner.
    NotAuthorized,
}

/// Tokens were staked.
#[derive(Clone, Copy, Debug, PartialEq, Eq)]
pub struct StakingEvent {
    pub staker: AccountId,
    /// The tokens that the staker has staked, these included.
    pub total_amount: u128,
    /// The tokens staked by this request.
    pub amount: u128,
    /// The tier of the new total; `None` below every threshold.
    pub new_tier: Option<u128>,
    /// The deadline of the request.
    pub timestamp: Timestamp,
    pub stake_duration: Timestamp,
    pub nonce: u128,
}

/// Tokens were released.
#[derive(Clone, Copy, Debug, PartialEq, Eq)]
pub struct UnstakingEvent {
    pub staker: AccountId,
    /// The tokens that the staker still has staked.
    pub total_amount: u128,
    /// The tokens released by this request, the fee included.
    pub amount: u128,
    /// The tier of the new total; `None` below every threshold.
    pub new_tier: Option<u128>,
    /// The deadline of the request.
    pub timestamp: Timestamp,
    pub nonce: u128,
    /// The part of the released tokens that stays with the contract.
    pub fee: u128,
}

/// The tier table was set.
#[derive(Clone, Debug, PartialEq, Eq)]
pub struct SetTiersEvent {
    pub tiers: Vec<u128>,
}

/// The signer was set.
#[derive(Clone, Copy, Debug, PartialEq, Eq)]
pub struct SetSignerEvent {
    pub signer: AccountId,
}

/// What a staking contract holds.
pub struct StakingState {
    pub stake_token: AccountId,
    /// The tokens that each account has staked.
    pub staking_amounts: Map<AccountId, u128>,
    /// The tier that was last computed for each account.
    pub account_tiers: Map<AccountId, Option<u128>>,
    /// The threshold of each tier, in the order of the tiers.
    pub tier_configs: Seq<u128>,
    /// The next nonce of each account that has one above zero.
    pub nonces: Map<AccountId, u128>,
    pub signer: AccountId,
    pub owner: AccountId,
}

/// What a staking contract holds, as plain data to store and to load.
pub struct StakingSnapshot {
    pub stake_token: AccountId,
    pub staking_amounts: Vec<(AccountId, u128)>,
    pub account_tiers: Vec<(AccountId, Option<u128>)>,
    pub tier_configs: Vec<u128>,
    pub account_nonce: Vec<(AccountId, u128)>,
    pub signer: AccountId,
    pub owner: AccountId,
}

impl View for StakingSnapshot {
    type V = StakingState;

    /// The state that the data stands for. Where a list names a key twice,
    /// the last entry counts.
    open spec fn view(&self) -> StakingState {
        StakingState {
            stake_token: self.stake_token,
            staking_amounts: map_of(self.staking_amounts@),
            account_tiers: map_of(self.account_tiers@),
            tier_configs: self.tier_configs@,
            nonces: map_of(self.account_nonce@),
            signer: self.signer,
            owner: self.owner,
        }
    }
}

/// The tier of an amount: the highest place in the table whose threshold is
/// not above the amount, `None` where every threshold is above it.
pub open spec fn tier_of_amount(tiers: Seq<u128>, amount: u128) -> Option<u128>
    decreases tiers.len(),
{
    if tiers.len() == 0 {
        None
    } else if amount >= tiers.last() {
        Some((tiers.len() - 1) as u128)
    } else {
        tier_of_amount(tiers.drop_last(), amount)
    }
}

/// Whether the tier `a` is not above the tier `b`, "no tier" being below
/// every tier.
pub open spec fn tier_le(a: Option<u128>, b: Option<u128>) -> bool {
    match (a, b) {
        (None, _) => true,
        (Some(_), None) => false,
        (Some(i), Some(j)) => i <= j,
    }
}

/// The tier of an amount is the last place whose threshold the amount
/// reaches, in a table with no more places than a tier index can count.
pub proof fn tier_is_highest_reached(tiers: Seq<u128>, amount: u128)
    requires
        tiers.len() <= u128::MAX,
    ensures
        match tier_of_amount(tiers, amount) {
            Some(i) => i < tiers.len() && tiers[i as int] <= amount && forall|j: int|
                i < j < tiers.len() ==> amount < tiers[j],
            None => forall|j: int| 0 <= j < tiers.len() ==> amount < tiers[j],
        },
    decreases tiers.len(),
{
    if tiers.len() > 0 && amount < tiers.last() {
        let rest = tiers.drop_last();
        tier_is_highest_reached(rest, amount);
        assert forall|j: int| 0 <= j < rest.len() implies rest[j] == tiers[j] by {}
    }
}

/// A larger amount never has a lower tier: for `a <= b`, the tier of `a` is
/// not above the tier of `b`, whatever the table holds. The table has no
/// more places than a tier index can count, as every table in memory has.
pub proof fn tier_is_monotonic(tiers: Seq<u128>, a: u128, b: u128)
    requires
        a <= b,
        tiers.len() <= u128::MAX,
    ensures
        tier_le(tier_of_amount(tiers, a), tier_of_amount(tiers, b)),
    decreases tiers.len(),
{
    if tiers.len() > 0 {
        if a < tiers.last() {
            tier_is_monotonic(tiers.drop_last(), a, b);
            tier_is_highest_reached(tiers.drop_last(), a);
        }
    }
}

/// The value that `m` holds for `account`, "no tier" where it holds none.
pub open spec fn tier_or_none(m: Map<AccountId, Option<u128>>, account: AccountId) -> Option<u128> {
    if m.contains_key(account) {
        m[account]
    } else {
        None
    }
}

/// The message that the signer signs for a stake.
pub open spec fn stake_message(
    contract: AccountId,
    staker: AccountId,
    amount: u128,
    deadline: Timestamp,
    stake_duration: Timestamp,
    nonce: u128,
) -> Seq<char> {
    authorization_text(
        "stake_token_"@,
        contract,
        staker,
        seq![amount, deadline as u128, stake_duration as u128, nonce],
    )
}

/// The message that the signer signs for an unstake.
pub open spec fn unstake_message(
    contract: AccountId,
    staker: AccountId,
    amount: u128,
    deadline: Timestamp,
    nonce: u128,
    fee: u128,
) -> Seq<char> {
    authorization_text(
        "unstake_token_"@,
        contract,
        staker,
        seq![amount, deadline as u128, nonce, fee],
    )
}

/// A signature made for one action authorizes no other: the messages of a
/// purchase, a claim, a stake and an unstake differ from one another,
/// whatever their fields are.
pub proof fn actions_have_distinct_messages(
    contract: AccountId,
    caller: AccountId,
    amount: u128,
    deadline: Timestamp,
    nonce: u128,
    stake_duration: Timestamp,
    other_contract: AccountId,
    other_caller: AccountId,
    other_amount: u128,
    other_deadline: Timestamp,
    other_nonce: u128,
    other_stake_duration: Timestamp,
    other_fee: u128,
)
    ensures
        buy_message(contract, caller, amount, deadline, nonce) != claim_message(
            other_contract,
            other_caller,
            other_amount,
            other_deadline,
            other_nonce,
        ),
        buy_message(contract, caller, amount, deadline, nonce) != stake_message(
            other_contract,
            other_caller,
            other_amount,
            other_deadline,
            other_stake_duration,
            other_nonce,
        ),
        buy_message(contract, caller, amount, deadline, nonce) != unstake_message(
            other_contract,
            other_caller,
            other_amount,
            other_deadline,
            other_nonce,
            other_fee,
        ),
        claim_message(contract, caller, amount, deadline, nonce) != stake_message(
            other_contract,
            other_caller,
            other_amount,
            other_deadline,
            other_stake_duration,
            other_nonce,
        ),
        claim_message(contract, caller, amount, deadline, nonce) != unstake_message(
            other_contract,
            other_caller,
            other_amount,
            other_deadline,
            other_nonce,
            other_fee,
        ),
        stake_message(contract, caller, amount, deadline, stake_duration, nonce)
            != unstake_message(
            other_contract,
            other_caller,
            other_amount,
            other_deadline,
            other_nonce,
            other_fee,
        ),
{
    reveal_strlit("buy_ido_");
    reveal_strlit("claim_ido_token_");
    reveal_strlit("stake_token_");
    reveal_strlit("unstake_token_");
    let buy = seq![amount, deadline as u128, nonce];
    let claim = seq![other_amount, other_deadline as u128, other_nonce];
    let stake = seq![
        other_amount,
        other_deadline as u128,
        other_stake_duration as u128,
        other_nonce,
    ];
    let unstake = seq![other_amount, other_deadline as u128, other_nonce, other_fee];
    let staked = seq![amount, deadline as u128, stake_duration as u128, nonce];
    distinct_tags_give_distinct_texts(
        "buy_ido_"@,
        contract,
        caller,
        buy,
        "claim_ido_token_"@,
        other_contract,
        other_caller,
        claim,
    );
    distinct_tags_give_distinct_texts(
        "buy_ido_"@,
        contract,
        caller,
        buy,
        "stake_token_"@,
        other_contract,
        other_caller,
        stake,
    );
    distinct_tags_give_distinct_texts(
        "buy_ido_"@,
        contract,
        caller,
        buy,
        "unstake_token_"@,
        other_contract,
        other_caller,
        unstake,
    );
    distinct_tags_give_distinct_texts(
        "claim_ido_token_"@,
        contract,
        caller,
        buy,
        "stake_token_"@,
        other_contract,
        other_caller,
        stake,
    );
    distinct_tags_give_distinct_texts(
        "claim_ido_token_"@,
        contract,
        caller,
        buy,
        "unstake_token_"@,
        other_contract,
        other_caller,
        unstake,
    );
    distinct_tags_give_distinct_texts(
        "stake_token_"@,
        contract,
        caller,
        staked,
        "unstake_token_"@,
        other_contract,
        other_caller,
        unstake,
    );
}

/// The state with the nonce of a request consumed, where the guard lets the
/// request through, and the error with which it is turned away, where not.
pub open spec fn pass_guard(s: StakingState, env: Env, deadline: Timestamp, nonce: u128) -> Result<
    StakingState,
    StakingError,
> {
    match replay_verdict(value_or_zero(s.nonces, env.caller), nonce, deadline, env.block_timestamp) {
        Ok(_) => Ok(
            StakingState {
                nonces: nonces_after(s.nonces, env.caller, nonce, deadline, env.block_timestamp),
                ..s
            },
        ),
        Err(Rejected::Expired) => Err(StakingError::Expired),
        Err(Rejected::InvalidNonce) => Err(StakingError::InvalidNonce),
    }
}

/// What the ledger says of an account before a stake: how much the contract
/// may withdraw from the staker, how much the staker holds, and whether the
/// ledger carries out the transfer.
pub struct StakeLedgerView {
    pub allowance: Balance,
    pub balance: Balance,
    pub transferred: bool,
}

/// Whether settling a stake asks the ledger for a transfer.
pub open spec fn settle_stake_transfers(
    s: StakingState,
    staker: AccountId,
    amount: u128,
    authorized: bool,
    allowance: Balance,
    balance: Balance,
) -> bool {
    &&& authorized
    &&& allowance >= amount
    &&& balance >= amount
    &&& value_or_zero(s.staking_amounts, staker) + amount <= u128::MAX
}

/// What settling a stake does once the nonce is consumed: the state that it
/// leaves and what it answers. `ledger.transferred` counts only where the
/// ledger is asked.
pub open spec fn settle_stake_outcome(
    s: StakingState,
    staker: AccountId,
    deadline: Timestamp,
    stake_duration: Timestamp,
    nonce: u128,
    amount: u128,
    authorized: bool,
    ledger: StakeLedgerView,
) -> (StakingState, Result<StakingEvent, StakingError>) {
    let staked = value_or_zero(s.staking_amounts, staker);
    if !authorized {
        (s, Err(StakingError::InvalidSignature))
    } else if ledger.allowance < amount {
        (s, Err(StakingError::InsufficientAllowance))
    } else if ledger.balance < amount {
        (s, Err(StakingError::InsufficientBalance))
    } else if staked + amount > u128::MAX {
        (s, Err(StakingError::ArithmeticError))
    } else if !ledger.transferred {
        (s, Err(StakingError::TransferFailed))
    } else {
        let total = (staked + amount) as u128;
        let tier = tier_of_amount(s.tier_configs, total);
        (
            StakingState {
                staking_amounts: s.staking_amounts.insert(staker, total),
                account_tiers: s.account_tiers.insert(staker, tier),
                ..s
            },
            Ok(
                StakingEvent {
                    staker,
                    total_amount: total,
                    amount,
                    new_tier: tier,
                    timestamp: deadline,
                    stake_duration,
                    nonce,
                },
            ),
        )
    }
}

/// What a stake does: the state that it leaves and what it answers.
pub open spec fn stake_outcome(
    s: StakingState,
    env: Env,
    deadline: Timestamp,
    stake_duration: Timestamp,
    nonce: u128,
    amount: u128,
    authorized: bool,
    ledger: StakeLedgerView,
) -> (StakingState, Result<StakingEvent, StakingError>) {
    match pass_guard(s, env, deadline, nonce) {
        Err(e) => (s, Err(e)),
        Ok(passed) => settle_stake_outcome(
            passed,
            env.caller,
            deadline,
            stake_duration,
            nonce,
            amount,
            authorized,
            ledger,
        ),
    }
}

/// What the ledger says before an unstake: how much the contract holds, and
/// whether the ledger carries out the transfer.
pub struct UnstakeLedgerView {
    pub reserve: Balance,
    pub transferred: bool,
}

/// The tokens handed to the staker on an unstake: the amount less the fee,
/// nothing where the fee is above the amount.
pub open spec fn payout(amount: u128, fee: u128) -> u128 {
    if fee > amount {
        0
    } else {
        (amount - fee) as u128
    }
}

/// Whether settling an unstake asks the ledger for a transfer.
pub open spec fn settle_unstake_transfers(
    s: StakingState,
    staker: AccountId,
    amount: u128,
    authorized: bool,
    reserve: Balance,
) -> bool {
    authorized && value_or_zero(s.staking_amounts, staker) >= amount && reserve >= amount
}

/// What settling an unstake does once the nonce is consumed: the state that
/// it leaves and what it answers. `ledger.transferred` counts only where the
/// ledger is asked.
pub open spec fn settle_unstake_outcome(
    s: StakingState,
    staker: AccountId,
    deadline: Timestamp,
    nonce: u128,
    amount: u128,
    fee: u128,
    authorized: bool,
    ledger: UnstakeLedgerView,
) -> (StakingState, Result<UnstakingEvent, StakingError>) {
    let staked = value_or_zero(s.staking_amounts, staker);
    if !authorized {
        (s, Err(StakingError::InvalidSignature))
    } else if staked < amount {
        (s, Err(StakingError::InsufficientStake))
    } else if ledger.reserve < amount {
        (s, Err(StakingError::InsufficientReserve))
    } else if !ledger.transferred {
        (s, Err(StakingError::TransferFailed))
    } else {
        let total = (staked - amount) as u128;
        let tier = tier_of_amount(s.tier_configs, total);
        (
            StakingState {
                staking_amounts: s.staking_amounts.insert(staker, total),
                account_tiers: s.account_tiers.insert(staker, tier),
                ..s
            },
            Ok(
                UnstakingEvent {
                    staker,
                    total_amount: total,
                    amount,
                    new_tier: tier,
                    timestamp: deadline,
                    nonce,
                    fee,
                },
            ),
        )
    }
}

/// What an unstake does: the state that it leaves and what it answers.
pub open spec fn unstake_outcome(
    s: StakingState,
    env: Env,
    deadline: Timestamp,
    nonce: u128,
    amount: u128,
    fee: u128,
    authorized: bool,
    ledger: UnstakeLedgerView,
) -> (StakingState, Result<UnstakingEvent, StakingError>) {
    match pass_guard(s, env, deadline, nonce) {
        Err(e) => (s, Err(e)),
        Ok(passed) => settle_unstake_outcome(
            passed,
            env.caller,
            deadline,
            nonce,
            amount,
            fee,
            authorized,
            ledger,
        ),
    }
}

/// The tier of `amount` in the table `tiers`.
pub fn tier_from_amount(tiers: &Vec<u128>, amount: u128) -> (tier: Option<u128>)
    ensures
        tier == tier_of_amount(tiers@, amount),
        match tier {
            Some(i) => i < tiers@.len() && tiers@[i as int] <= amount && forall|j: int|
                i < j < tiers@.len() ==> amount < tiers@[j],
            None => forall|j: int| 0 <= j < tiers@.len() ==> amount < tiers@[j],
        },
{
    let mut i: usize = tiers.len();
    assert(tiers@.take(i as int) =~= tiers@);
    while i > 0
        invariant
            i <= tiers@.len(),
            tiers@.len() <= usize::MAX,
            tier_of_amount(tiers@, amount) == tier_of_amount(tiers@.take(i as int), amount),
        decreases i,
    {
        let ghost head = tiers@.take(i as int);
        assert(head.last() == tiers@[i - 1]);
        assert(head.drop_last() =~= tiers@.take(i - 1));
        if amount >= tiers[i - 1] {
            proof {
                tier_is_highest_reached(tiers@, amount);
            }
            return Some((i - 1) as u128);
        }
        i -= 1;
    }
    proof {
        assert(tiers@.take(0) =~= Seq::<u128>::empty());
        tier_is_highest_reached(tiers@, amount);
    }
    None
}

fn copy_of(tiers: &Vec<u128>) -> (copy: Vec<u128>)
    ensures
        copy@ == tiers@,
{
    let mut copy: Vec<u128> = Vec::new();
    let mut i: usize = 0;
    while i < tiers.len()
        invariant
            i <= tiers@.len(),
            copy@ == tiers@.take(i as int),
        decreases tiers@.len() - i,
    {
        copy.push(tiers[i]);
        assert(copy@ =~= tiers@.take(i + 1));
        i += 1;
    }
    assert(tiers@.take(i as int) =~= tiers@);
    copy
}

/// A contract in which accounts lock a token and are put in a tier by the
/// amount that they have locked, each request authorized by a signature of
/// the signer.
pub struct StakingContract {
    stake_token: AccountId,
    staking_amounts: Table<AccountId, u128>,
    account_tiers: Table<AccountId, Option<u128>>,
    tier_configs: Vec<u128>,
    guard: ReplayGuard,
    signer: AccountId,
    owner: AccountId,
}

impl View for StakingContract {
    type V = StakingState;

    closed spec fn view(&self) -> StakingState {
        StakingState {
            stake_token: self.stake_token,
            staking_amounts: self.staking_amounts@,
            account_tiers: self.account_tiers@,
            tier_configs: self.tier_configs@,
            nonces: self.guard@,
            signer: self.signer,
            owner: self.owner,
        }
    }
}

/// What a staking contract offers to its callers.
pub trait Staking: Sized {
    /// What the contract holds.
    spec fn state(&self) -> StakingState;

    /// Sets the signer, if the caller is the owner.
    fn set_signer(&mut self, env: &Env, signer: AccountId) -> (r: Result<
        SetSignerEvent,
        StakingError,
    >)
        ensures
            r == if env.caller == old(self).state().owner {
                Ok::<SetSignerEvent, StakingError>(SetSignerEvent { signer })
            } else {
                Err::<SetSignerEvent, StakingError>(StakingError::NotAuthorized)
            },
            final(self).state() == if r is Ok {
                StakingState { signer, ..old(self).state() }
            } else {
                old(self).state()
            },
    ;

    /// Stakes `amount` tokens of the caller.
    ///
    /// The nonce is consumed before the signature is looked at: a request
    /// that passes the guard and fails later has still used its nonce.
    fn stake<L: PSP22>(
        &mut self,
        env: &Env,
        ledger: &mut L,
        deadline: Timestamp,
        stake_duration: Timestamp,
        nonce: u128,
        amount: u128,
        signature: [u8; 65],
    ) -> (r: Result<StakingEvent, StakingError>)
        ensures
            (final(self).state(), r) == stake_outcome(
                old(self).state(),
                *env,
                deadline,
                stake_duration,
                nonce,
                amount,
                signature_valid(
                    encode_utf8(
                        stake_message(
                            env.account_id,
                            env.caller,
                            amount,
                            deadline,
                            stake_duration,
                            nonce,
                        ),
                    ),
                    old(self).state().signer,
                    signature@,
                ),
                StakeLedgerView {
                    allowance: old(ledger).spec_allowance(env.caller, env.account_id),
                    balance: old(ledger).spec_balance_of(env.caller),
                    transferred: old(ledger).accepts_transfer_from(
                        spec_ledger_env(*env, old(self).state().stake_token),
                        env.caller,
                        env.account_id,
                        amount,
                    ),
                },
            ),
            if pass_guard(old(self).state(), *env, deadline, nonce) is Ok && settle_stake_transfers(
                old(self).state(),
                env.caller,
                amount,
                signature_valid(
                    encode_utf8(
                        stake_message(
                            env.account_id,
                            env.caller,
                            amount,
                            deadline,
                            stake_duration,
                            nonce,
                        ),
                    ),
                    old(self).state().signer,
                    signature@,
                ),
                old(ledger).spec_allowance(env.caller, env.account_id),
                old(ledger).spec_balance_of(env.caller),
            ) {
                final(ledger).follows_transfer_from(
                    old(ledger),
                    spec_ledger_env(*env, old(self).state().stake_token),
                    env.caller,
                    env.account_id,
                    amount,
                )
            } else {
                *final(ledger) == *old(ledger)
            },
    ;

    /// Releases `amount` staked tokens of the caller, of which `fee` stay
    /// with the contract.
    ///
    /// The nonce is consumed first, as in a stake.
    fn unstake<L: PSP22>(
        &mut self,
        env: &Env,
        ledger: &mut L,
        deadline: Timestamp,
        nonce: u128,
        amount: u128,
        fee: u128,
        signature: [u8; 65],
    ) -> (r: Result<UnstakingEvent, StakingError>)
        ensures
            (final(self).state(), r) == unstake_outcome(
                old(self).state(),
                *env,
                deadline,
                nonce,
                amount,
                fee,
                signature_valid(
                    encode_utf8(
                        unstake_message(env.account_id, env.caller, amount, deadline, nonce, fee),
                    ),
                    old(self).state().signer,
                    signature@,
                ),
                UnstakeLedgerView {
                    reserve: old(ledger).spec_balance_of(env.account_id),
                    transferred: old(ledger).accepts_transfer(
                        spec_ledger_env(*env, old(self).state().stake_token),
                        env.caller,
                        payout(amount, fee),
                    ),
                },
            ),
            if pass_guard(old(self).state(), *env, deadline, nonce) is Ok && settle_unstake_transfers(
                old(self).state(),
                env.caller,
                amount,
                signature_valid(
                    encode_utf8(
                        unstake_message(env.account_id, env.caller, amount, deadline, nonce, fee),
                    ),
                    old(self).state().signer,
                    signature@,
                ),
                old(ledger).spec_balance_of(env.account_id),
            ) {
                final(ledger).follows_transfer(
                    old(ledger),
                    spec_ledger_env(*env, old(self).state().stake_token),
                    env.caller,
                    payout(amount, fee),
                )
            } else {
                *final(ledger) == *old(ledger)
            },
    ;

    /// The token that is staked.
    fn get_stake_token(&self) -> (token: AccountId)
        ensures
            token == self.state().stake_token,
    ;

    /// The next nonce of the caller.
    fn get_nonce(&self, env: &Env) -> (nonce: u128)
        ensures
            nonce == value_or_zero(self.state().nonces, env.caller),
    ;

    /// The tokens that `account` has staked.
    fn staking_amount_of(&self, account: AccountId) -> (amount: u128)
        ensures
            amount == value_or_zero(self.state().staking_amounts, account),
    ;

    /// The tier that was last computed for `account`; `None` where it never
    /// staked or its total was below every threshold.
    fn tier_of(&self, account: AccountId) -> (tier: Option<u128>)
        ensures
            tier == tier_or_none(self.state().account_tiers, account),
    ;

    /// Sets the tier table, if the caller is the owner. The tiers that were
    /// computed before stay as they are.
    fn set_tiers(&mut self, env: &Env, tiers: Vec<u128>) -> (r: Result<
        SetTiersEvent,
        StakingError,
    >)
        ensures
            match r {
                Ok(event) => env.caller == old(self).state().owner && event.tiers@ == tiers@,
                Err(e) => env.caller != old(self).state().owner && e == StakingError::NotAuthorized,
            },
            final(self).state() == if r is Ok {
                StakingState { tier_configs: tiers@, ..old(self).state() }
            } else {
                old(self).state()
            },
    ;

    /// The tier table.
    fn get_tiers(&self) -> (r: Result<Vec<u128>, StakingError>)
        ensures
            r matches Ok(tiers) && tiers@ == self.state().tier_configs,
    ;

    /// The tier of `amount` in the tier table: the highest place whose
    /// threshold is not above the amount, `None` where every threshold is
    /// above it.
    fn get_tier_from_amount(&self, amount: u128) -> (tier: Option<u128>)
        ensures
            tier == tier_of_amount(self.state().tier_configs, amount),
            match tier {
                Some(i) => i < self.state().tier_configs.len() && self.state().tier_configs[i as int] <= amount
                    && forall|j: int|
                    i < j < self.state().tier_configs.len() ==> amount < self.state().tier_configs[j],
                None => forall|j: int|
                    0 <= j < self.state().tier_configs.len() ==> amount < self.state().tier_configs[j],
            },
    ;

    /// The message that the signer signs for a stake by the caller.
    fn gen_msg_for_stake_token(
        &self,
        env: &Env,
        deadline: Timestamp,
        stake_duration: Timestamp,
        nonce: u128,
        stake_amount: u128,
    ) -> (message: String)
        ensures
            message@ == stake_message(
                env.account_id,
                env.caller,
                stake_amount,
                deadline,
                stake_duration,
                nonce,
            ),
    ;

    /// The message that the signer signs for an unstake by the caller.
    fn gen_msg_for_unstake_token(
        &self,
        env: &Env,
        deadline: Timestamp,
        nonce: u128,
        unstake_amount: u128,
        fee: u128,
    ) -> (message: String)
        ensures
            message@ == unstake_message(
                env.account_id,
                env.caller,
                unstake_amount,
                deadline,
                nonce,
                fee,
            ),
    ;
}

/// What the contract does for itself and does not offer to callers.
pub trait StakingInternal {
    /// Whether `signature` is `signer`'s signature of `data`.
    fn _verify(&self, data: String, signer: AccountId, signature: [u8; 65]) -> (r: bool)
        ensures
            r == signature_valid(encode_utf8(data@), signer, signature@),
    ;
}

impl StakingInternal for StakingContract {
    fn _verify(&self, data: String, signer: AccountId, signature: [u8; 65]) -> (r: bool) {
        verify(data.as_str(), &signer, &signature)
    }
}

impl StakingContract {
    /// Sets up a staking contract that the caller owns: nothing is staked and
    /// no nonce is consumed.
    pub fn new(env: &Env, signer: AccountId, stake_token: AccountId, tier_configs: Vec<u128>) -> (contract:
        Self)
        ensures
            contract@ == (StakingState {
                stake_token,
                staking_amounts: Map::empty(),
                account_tiers: Map::empty(),
                tier_configs: tier_configs@,
                nonces: Map::empty(),
                signer,
                owner: env.caller,
            }),
    {
        StakingContract {
            stake_token,
            staking_amounts: Table::new(),
            account_tiers: Table::new(),
            tier_configs,
            guard: ReplayGuard::new(),
            signer,
            owner: env.caller,
        }
    }

    /// The contract as plain data.
    pub fn snapshot(&self) -> (data: StakingSnapshot)
        ensures
            data@ == self@,
    {
        StakingSnapshot {
            stake_token: self.stake_token,
            staking_amounts: self.staking_amounts.to_vec(),
            account_tiers: self.account_tiers.to_vec(),
            tier_configs: copy_of(&self.tier_configs),
            account_nonce: self.guard.to_vec(),
            signer: self.signer,
            owner: self.owner,
        }
    }

    /// The contract that plain data stands for.
    pub fn restore(data: &StakingSnapshot) -> (contract: Self)
        ensures
            contract@ == data@,
    {
        StakingContract {
            stake_token: data.stake_token,
            staking_amounts: Table::from_vec(&data.staking_amounts),
            account_tiers: Table::from_vec(&data.account_tiers),
            tier_configs: copy_of(&data.tier_configs),
            guard: ReplayGuard::from_vec(&data.account_nonce),
            signer: data.signer,
            owner: data.owner,
        }
    }

    /// The owner of the contract.
    pub fn owner(&self) -> (owner: AccountId)
        ensures
            owner == self@.owner,
    {
        self.owner
    }

    fn _require_owner(&self, env: &Env) -> (r: Result<(), StakingError>)
        ensures
            r == if env.caller == self@.owner {
                Ok::<(), StakingError>(())
            } else {
                Err::<(), StakingError>(StakingError::NotAuthorized)
            },
    {
        if self.owner.same(&env.caller) {
            Ok(())
        } else {
            Err(StakingError::NotAuthorized)
        }
    }

    /// Makes `new_owner` the owner, if the caller is the owner.
    pub fn transfer_ownership(&mut self, env: &Env, new_owner: AccountId) -> (r: Result<
        (),
        StakingError,
    >)
        ensures
            r == if env.caller == old(self)@.owner {
                Ok::<(), StakingError>(())
            } else {
                Err::<(), StakingError>(StakingError::NotAuthorized)
            },
            final(self)@ == if r is Ok {
                StakingState { owner: new_owner, ..old(self)@ }
            } else {
                old(self)@
            },
    {
        match self._require_owner(env) {
            Ok(()) => {},
            Err(e) => {
                return Err(e);
            },
        }
        self.owner = new_owner;
        Ok(())
    }

    /// Hands every token that the contract holds to the owner who asks for
    /// it. The contract's own state does not change.
    pub fn admin_collect_all_token<L: PSP22>(&mut self, env: &Env, ledger: &mut L) -> (r: Result<
        (),
        StakingError,
    >)
        ensures
            final(self)@ == old(self)@,
            r == if env.caller != old(self)@.owner {
                Err::<(), StakingError>(StakingError::NotAuthorized)
            } else if old(ledger).accepts_transfer(
                spec_ledger_env(*env, old(self)@.stake_token),
                env.caller,
                old(ledger).spec_balance_of(env.account_id),
            ) {
                Ok::<(), StakingError>(())
            } else {
                Err::<(), StakingError>(StakingError::TransferFailed)
            },
            if env.caller == old(self)@.owner {
                final(ledger).follows_transfer(
                    old(ledger),
                    spec_ledger_env(*env, old(self)@.stake_token),
                    env.caller,
                    old(ledger).spec_balance_of(env.account_id),
                )
            } else {
                *final(ledger) == *old(ledger)
            },
    {
        match self._require_owner(env) {
            Ok(()) => {},
            Err(e) => {
                return Err(e);
            },
        }
        let balance = ledger.balance_of(env.account_id);
        let callee = ledger_env(*env, self.stake_token);
        match ledger.transfer(&callee, env.caller, balance, Vec::new()) {
            Ok(()) => Ok(()),
            Err(_) => Err(StakingError::TransferFailed),
        }
    }

    /// Answers the code hash that the owner asks the host to install, and
    /// refuses any other caller.
    pub fn set_code(&self, env: &Env, code_hash: [u8; 32]) -> (r: Result<[u8; 32], StakingError>)
        ensures
            r == if env.caller == self@.owner {
                Ok::<[u8; 32], StakingError>(code_hash)
            } else {
                Err::<[u8; 32], StakingError>(StakingError::NotAuthorized)
            },
    {
        match self._require_owner(env) {
            Ok(()) => Ok(code_hash),
            Err(e) => Err(e),
        }
    }

    fn pass_guard(&mut self, env: &Env, deadline: Timestamp, nonce: u128) -> (r: Result<
        (),
        StakingError,
    >)
        ensures
            match pass_guard(old(self)@, *env, deadline, nonce) {
                Ok(passed) => r is Ok && final(self)@ == passed,
                Err(e) => r == Err::<(), StakingError>(e) && final(self)@ == old(self)@,
            },
    {
        match self.guard.check_and_advance(env.caller, nonce, deadline, env.block_timestamp) {
            Ok(()) => Ok(()),
            Err(Rejected::Expired) => Err(StakingError::Expired),
            Err(Rejected::InvalidNonce) => Err(StakingError::InvalidNonce),
        }
    }

    /// Settles a stake whose nonce is consumed: refuses it where the
    /// signature was not the signer's, where the ledger shows too small an
    /// allowance or balance, or where the new total would not fit, and else
    /// asks the ledger to move the tokens to the contract. The staked amount
    /// and the tier change only where the ledger carried out the transfer.
    pub fn settle_stake<L: PSP22>(
        &mut self,
        env: &Env,
        ledger: &mut L,
        deadline: Timestamp,
        stake_duration: Timestamp,
        nonce: u128,
        amount: u128,
        authorized: bool,
    ) -> (r: Result<StakingEvent, StakingError>)
        ensures
            (final(self)@, r) == settle_stake_outcome(
                old(self)@,
                env.caller,
                deadline,
                stake_duration,
                nonce,
                amount,
                authorized,
                StakeLedgerView {
                    allowance: old(ledger).spec_allowance(env.caller, env.account_id),
                    balance: old(ledger).spec_balance_of(env.caller),
                    transferred: old(ledger).accepts_transfer_from(
                        spec_ledger_env(*env, old(self)@.stake_token),
                        env.caller,
                        env.account_id,
                        amount,
                    ),
                },
            ),
            if settle_stake_transfers(
                old(self)@,
                env.caller,
                amount,
                authorized,
                old(ledger).spec_allowance(env.caller, env.account_id),
                old(ledger).spec_balance_of(env.caller),
            ) {
                final(ledger).follows_transfer_from(
                    old(ledger),
                    spec_ledger_env(*env, old(self)@.stake_token),
                    env.caller,
                    env.account_id,
                    amount,
                )
            } else {
                *final(ledger) == *old(ledger)
            },
    {
        let caller = env.caller;
        let me = env.account_id;
        if !authorized {
            return Err(StakingError::InvalidSignature);
        }
        if ledger.allowance(caller, me) < amount {
            return Err(StakingError::InsufficientAllowance);
        }
        if ledger.balance_of(caller) < amount {
            return Err(StakingError::InsufficientBalance);
        }
        let new_amount = match self.staking_amount_of(caller).checked_add(amount) {
            Some(new_amount) => new_amount,
            None => {
                return Err(StakingError::ArithmeticError);
            },
        };
        let callee = ledger_env(*env, self.stake_token);
        match ledger.transfer_from(&callee, caller, me, amount, Vec::new()) {
            Ok(()) => {},
            Err(_) => {
                return Err(StakingError::TransferFailed);
            },
        }
        self.staking_amounts.insert(caller, new_amount);
        let tier = tier_from_amount(&self.tier_configs, new_amount);
        self.account_tiers.insert(caller, tier);
        Ok(
            StakingEvent {
                staker: caller,
                total_amount: new_amount,
                amount,
                new_tier: tier,
                timestamp: deadline,
                stake_duration,
                nonce,
            },
        )
    }

    /// Settles an unstake whose nonce is consumed: refuses it where the
    /// signature was not the signer's, where the caller has staked less than
    /// the amount, or where the contract holds less than the amount, and
    /// else asks the ledger to hand the amount less the fee to the caller.
    /// The staked amount and the tier change only where the ledger carried
    /// out the transfer.
    pub fn settle_unstake<L: PSP22>(
        &mut self,
        env: &Env,
        ledger: &mut L,
        deadline: Timestamp,
        nonce: u128,
        amount: u128,
        fee: u128,
        authorized: bool,
    ) -> (r: Result<UnstakingEvent, StakingError>)
        ensures
            (final(self)@, r) == settle_unstake_outcome(
                old(self)@,
                env.caller,
                deadline,
                nonce,
                amount,
                fee,
                authorized,
                UnstakeLedgerView {
                    reserve: old(ledger).spec_balance_of(env.account_id),
                    transferred: old(ledger).accepts_transfer(
                        spec_ledger_env(*env, old(self)@.stake_token),
                        env.caller,
                        payout(amount, fee),
                    ),
                },
            ),
            if settle_unstake_transfers(
                old(self)@,
                env.caller,
                amount,
                authorized,
                old(ledger).spec_balance_of(env.account_id),
            ) {
                final(ledger).follows_transfer(
                    old(ledger),
                    spec_ledger_env(*env, old(self)@.stake_token),
                    env.caller,
                    payout(amount, fee),
                )
            } else {
                *final(ledger) == *old(ledger)
            },
    {
        let caller = env.caller;
        let me = env.account_id;
        if !authorized {
            return Err(StakingError::InvalidSignature);
        }
        let stake_amount = self.staking_amount_of(caller);
        if stake_amount < amount {
            return Err(StakingError::InsufficientStake);
        }
        if ledger.balance_of(me) < amount {
            return Err(StakingError::InsufficientReserve);
        }
        let new_amount = stake_amount - amount;
        let paid = if fee > amount {
            0
        } else {
            amount - fee
        };
        let callee = ledger_env(*env, self.stake_token);
        match ledger.transfer(&callee, caller, paid, Vec::new()) {
            Ok(()) => {},
            Err(_) => {
                return Err(StakingError::TransferFailed);
            },
        }
        self.staking_amounts.insert(caller, new_amount);
        let tier = tier_from_amount(&self.tier_configs, new_amount);
        self.account_tiers.insert(caller, tier);
        Ok(
            UnstakingEvent {
                staker: caller,
                total_amount: new_amount,
                amount,
                new_tier: tier,
                timestamp: deadline,
                nonce,
                fee,
            },
        )
    }

}

impl Staking for StakingContract {
    open spec fn state(&self) -> StakingState {
        self@
    }

    fn set_signer(&mut self, env: &Env, signer: AccountId) -> (r: Result<
        SetSignerEvent,
        StakingError,
    >)
    {
        match self._require_owner(env) {
            Ok(()) => {},
            Err(e) => {
                return Err(e);
            },
        }
        self.signer = signer;
        Ok(SetSignerEvent { signer })
    }

    fn stake<L: PSP22>(
        &mut self,
        env: &Env,
        ledger: &mut L,
        deadline: Timestamp,
        stake_duration: Timestamp,
        nonce: u128,
        amount: u128,
        signature: [u8; 65],
    ) -> (r: Result<StakingEvent, StakingError>)
    {
        match self.pass_guard(env, deadline, nonce) {
            Ok(()) => {},
            Err(e) => {
                return Err(e);
            },
        }
        let message = self.gen_msg_for_stake_token(env, deadline, stake_duration, nonce, amount);
        let authorized = self._verify(message, self.signer, signature);
        self.settle_stake(env, ledger, deadline, stake_duration, nonce, amount, authorized)
    }

    fn unstake<L: PSP22>(
        &mut self,
        env: &Env,
        ledger: &mut L,
        deadline: Timestamp,
        nonce: u128,
        amount: u128,
        fee: u128,
        signature: [u8; 65],
    ) -> (r: Result<UnstakingEvent, StakingError>)
    {
        match self.pass_guard(env, deadline, nonce) {
            Ok(()) => {},
            Err(e) => {
                return Err(e);
            },
        }
        let message = self.gen_msg_for_unstake_token(env, deadline, nonce, amount, fee);
        let authorized = self._verify(message, self.signer, signature);
        self.settle_unstake(env, ledger, deadline, nonce, amount, fee, authorized)
    }

    fn get_stake_token(&self) -> (token: AccountId)
    {
        self.stake_token
    }

    fn get_nonce(&self, env: &Env) -> (nonce: u128)
    {
        self.guard.current_nonce(env.caller)
    }

    fn staking_amount_of(&self, account: AccountId) -> (amount: u128)
    {
        match self.staking_amounts.get(&account) {
            Some(amount) => amount,
            None => 0,
        }
    }

    fn tier_of(&self, account: AccountId) -> (tier: Option<u128>)
    {
        match self.account_tiers.get(&account) {
            Some(tier) => tier,
            None => None,
        }
    }

    fn set_tiers(&mut self, env: &Env, tiers: Vec<u128>) -> (r: Result<
        SetTiersEvent,
        StakingError,
    >)
    {
        match self._require_owner(env) {
            Ok(()) => {},
            Err(e) => {
                return Err(e);
            },
        }
        self.tier_configs = copy_of(&tiers);
        Ok(SetTiersEvent { tiers })
    }

    fn get_tiers(&self) -> (r: Result<Vec<u128>, StakingError>)
    {
        Ok(copy_of(&self.tier_configs))
    }

    fn get_tier_from_amount(&self, amount: u128) -> (tier: Option<u128>)
    {
        tier_from_amount(&self.tier_configs, amount)
    }

    fn gen_msg_for_stake_token(
        &self,
        env: &Env,
        deadline: Timestamp,
        stake_duration: Timestamp,
        nonce: u128,
        stake_amount: u128,
    ) -> (message: String)
    {
        let mut numbers: Vec<u128> = Vec::new();
        numbers.push(stake_amount);
        numbers.push(deadline as u128);
        numbers.push(stake_duration as u128);
        numbers.push(nonce);
        assert(numbers@ =~= seq![stake_amount, deadline as u128, stake_duration as u128, nonce]);
        authorization_message("stake_token_", &env.account_id, &env.caller, &numbers)
    }

    fn gen_msg_for_unstake_token(
        &self,
        env: &Env,
        deadline: Timestamp,
        nonce: u128,
        unstake_amount: u128,
        fee: u128,
    ) -> (message: String)
    {
        let mut numbers: Vec<u128> = Vec::new();
        numbers.push(unstake_amount);
        numbers.push(deadline as u128);
        numbers.push(nonce);
        numbers.push(fee);
        assert(numbers@ =~= seq![unstake_amount, deadline as u128, nonce, fee]);
        authorization_message("unstake_token_", &env.account_id, &env.caller, &numbers)
    }
}

/// Every request consumes at most the one nonce that it names: whatever a
/// stake or an unstake answers, the counters after it are those that the
/// guard leaves, one higher for the caller where the guard let the request
/// through and unchanged where not.
pub proof fn request_consumes_its_nonce(
    s: StakingState,
    env: Env,
    deadline: Timestamp,
    stake_duration: Timestamp,
    nonce: u128,
    amount: u128,
    fee: u128,
    authorized: bool,
    staking: StakeLedgerView,
    unstaking: UnstakeLedgerView,
)
    ensures
        stake_outcome(
            s,
            env,
            deadline,
            stake_duration,
            nonce,
            amount,
            authorized,
            staking,
        ).0.nonces == nonces_after(s.nonces, env.caller, nonce, deadline, env.block_timestamp),
        unstake_outcome(
            s,
            env,
            deadline,
            nonce,
            amount,
            fee,
            authorized,
            unstaking,
        ).0.nonces == nonces_after(s.nonces, env.caller, nonce, deadline, env.block_timestamp),
{
}

/// A request that names a nonce below the caller's counter, and so one that
/// was consumed before, is answered with `InvalidNonce` and changes nothing,
/// however valid its signature is and however often it is sent. (Once its
/// deadline has passed it is answered with `Expired`, and changes nothing
/// either.)
pub proof fn consumed_nonce_is_refused(
    s: StakingState,
    env: Env,
    deadline: Timestamp,
    stake_duration: Timestamp,
    nonce: u128,
    amount: u128,
    fee: u128,
    authorized: bool,
    staking: StakeLedgerView,
    unstaking: UnstakeLedgerView,
)
    requires
        nonce < value_or_zero(s.nonces, env.caller),
        deadline >= env.block_timestamp,
    ensures
        stake_outcome(s, env, deadline, stake_duration, nonce, amount, authorized, staking) == (
            s,
            Err::<StakingEvent, StakingError>(StakingError::InvalidNonce),
        ),
        unstake_outcome(s, env, deadline, nonce, amount, fee, authorized, unstaking) == (
            s,
            Err::<UnstakingEvent, StakingError>(StakingError::InvalidNonce),
        ),
{
}

/// When a stake is answered with what: each answer comes on exactly the
/// requests named for it, the first that applies in this order.
pub proof fn stake_answers(
    s: StakingState,
    env: Env,
    deadline: Timestamp,
    stake_duration: Timestamp,
    nonce: u128,
    amount: u128,
    authorized: bool,
    ledger: StakeLedgerView,
)
    ensures
        ({
            let r = stake_outcome(
                s,
                env,
                deadline,
                stake_duration,
                nonce,
                amount,
                authorized,
                ledger,
            ).1;
            let current = value_or_zero(s.nonces, env.caller);
            let in_time = deadline >= env.block_timestamp;
            let in_order = nonce == current && current < u128::MAX;
            let staked = value_or_zero(s.staking_amounts, env.caller);
            let passed = in_time && in_order && authorized;
            &&& r == Err::<StakingEvent, StakingError>(StakingError::Expired) <==> !in_time
            &&& r == Err::<StakingEvent, StakingError>(StakingError::InvalidNonce) <==> in_time
                && !in_order
            &&& r == Err::<StakingEvent, StakingError>(StakingError::InvalidSignature) <==> in_time
                && in_order && !authorized
            &&& r == Err::<StakingEvent, StakingError>(StakingError::InsufficientAllowance)
                <==> passed && ledger.allowance < amount
            &&& r == Err::<StakingEvent, StakingError>(StakingError::InsufficientBalance)
                <==> passed && ledger.allowance >= amount && ledger.balance < amount
            &&& r == Err::<StakingEvent, StakingError>(StakingError::ArithmeticError) <==> passed
                && ledger.allowance >= amount && ledger.balance >= amount && staked + amount
                > u128::MAX
            &&& r == Err::<StakingEvent, StakingError>(StakingError::TransferFailed) <==> passed
                && ledger.allowance >= amount && ledger.balance >= amount && staked + amount
                <= u128::MAX && !ledger.transferred
            &&& r is Ok <==> passed && ledger.allowance >= amount && ledger.balance >= amount
                && staked + amount <= u128::MAX && ledger.transferred
        }),
{
}

/// When an unstake is answered with what: each answer comes on exactly the
/// requests named for it, the first that applies in this order.
pub proof fn unstake_answers(
    s: StakingState,
    env: Env,
    deadline: Timestamp,
    nonce: u128,
    amount: u128,
    fee: u128,
    authorized: bool,
    ledger: UnstakeLedgerView,
)
    ensures
        ({
            let r = unstake_outcome(s, env, deadline, nonce, amount, fee, authorized, ledger).1;
            let current = value_or_zero(s.nonces, env.caller);
            let in_time = deadline >= env.block_timestamp;
            let in_order = nonce == current && current < u128::MAX;
            let staked = value_or_zero(s.staking_amounts, env.caller);
            let passed = in_time && in_order && authorized;
            &&& r == Err::<UnstakingEvent, StakingError>(StakingError::Expired) <==> !in_time
            &&& r == Err::<UnstakingEvent, StakingError>(StakingError::InvalidNonce) <==> in_time
                && !in_order
            &&& r == Err::<UnstakingEvent, StakingError>(StakingError::InvalidSignature)
                <==> in_time && in_order && !authorized
            &&& r == Err::<UnstakingEvent, StakingError>(StakingError::InsufficientStake)
                <==> passed && staked < amount
            &&& r == Err::<UnstakingEvent, StakingError>(StakingError::InsufficientReserve)
                <==> passed && staked >= amount && ledger.reserve < amount
            &&& r == Err::<UnstakingEvent, StakingError>(StakingError::TransferFailed) <==> passed
                && staked >= amount && ledger.reserve >= amount && !ledger.transferred
            &&& r is Ok <==> passed && staked >= amount && ledger.reserve >= amount
                && ledger.transferred
        }),
{
}

/// After a stake or an unstake that succeeds, the tier recorded for the
/// staker is the tier of the new total, and the event names both.
pub proof fn settled_tier_is_tier_of_total(
    s: StakingState,
    env: Env,
    deadline: Timestamp,
    stake_duration: Timestamp,
    nonce: u128,
    amount: u128,
    fee: u128,
    staking: StakeLedgerView,
    unstaking: UnstakeLedgerView,
)
    ensures
        stake_outcome(s, env, deadline, stake_duration, nonce, amount, true, staking).1 matches Ok(
            event,
        ) ==> {
            let after = stake_outcome(
                s,
                env,
                deadline,
                stake_duration,
                nonce,
                amount,
                true,
                staking,
            ).0;
            &&& event.total_amount == value_or_zero(s.staking_amounts, env.caller) + amount
            &&& value_or_zero(after.staking_amounts, env.caller) == event.total_amount
            &&& event.new_tier == tier_of_amount(s.tier_configs, event.total_amount)
            &&& tier_or_none(after.account_tiers, env.caller) == event.new_tier
        },
        unstake_outcome(s, env, deadline, nonce, amount, fee, true, unstaking).1 matches Ok(
            event,
        ) ==> {
            let after = unstake_outcome(s, env, deadline, nonce, amount, fee, true, unstaking).0;
            &&& event.total_amount == value_or_zero(s.staking_amounts, env.caller) - amount
            &&& value_or_zero(after.staking_amounts, env.caller) == event.total_amount
            &&& event.new_tier == tier_of_amount(s.tier_configs, event.total_amount)
            &&& tier_or_none(after.account_tiers, env.caller) == event.new_tier
        },
{
}

} // verus!
