use settlement::account::{AccountId, Env};
use settlement::psp22::{PSP22Error, PSP22};
use settlement::staking::{
    tier_from_amount, SetSignerEvent, SetTiersEvent, Staking, StakingContract, StakingError,
    StakingEvent, StakingInternal, UnstakingEvent,
};
use settlement::token::Token;

const SIGNER: [u8; 32] = [249, 89, 234, 244, 84, 28, 234, 153, 73, 117, 217, 80, 218, 168, 131, 15, 1, 246, 151, 84, 223, 103, 116, 224, 13, 12, 4, 190, 53, 51, 29, 180];
const SIG_STAKE_250_AT_1000_FOR_30_NONCE_0: [u8; 65] = [198, 35, 238, 206, 36, 63, 197, 184, 92, 233, 8, 206, 50, 164, 175, 57, 76, 119, 233, 145, 94, 144, 250, 37, 159, 98, 166, 143, 109, 99, 228, 151, 58, 54, 88, 254, 151, 172, 122, 16, 178, 187, 17, 172, 180, 169, 75, 55, 229, 172, 57, 164, 134, 153, 103, 187, 162, 144, 73, 42, 149, 30, 252, 32, 1];
const SIG_STAKE_100_AT_1000_FOR_30_NONCE_0: [u8; 65] = [37, 89, 248, 224, 3, 130, 241, 218, 41, 96, 2, 29, 227, 223, 87, 224, 180, 133, 131, 216, 3, 90, 7, 5, 98, 22, 52, 234, 201, 12, 252, 122, 95, 14, 93, 85, 27, 246, 206, 249, 38, 238, 149, 162, 97, 230, 70, 232, 195, 60, 245, 223, 13, 71, 198, 9, 38, 82, 56, 136, 35, 159, 202, 60, 0];
const SIG_STAKE_500_AT_1000_FOR_30_NONCE_1: [u8; 65] = [177, 135, 29, 188, 240, 80, 225, 116, 21, 167, 192, 221, 13, 212, 252, 242, 126, 35, 138, 171, 183, 80, 25, 141, 190, 120, 251, 114, 26, 239, 236, 30, 60, 65, 29, 138, 141, 254, 139, 54, 245, 160, 213, 183, 226, 14, 156, 252, 195, 110, 177, 113, 87, 180, 122, 214, 134, 138, 9, 27, 123, 125, 249, 161, 0];
const SIG_UNSTAKE_200_AT_2000_NONCE_1_FEE_10: [u8; 65] = [172, 22, 85, 245, 0, 41, 99, 146, 78, 140, 128, 17, 8, 43, 155, 218, 143, 186, 155, 115, 235, 71, 209, 174, 69, 228, 65, 172, 254, 163, 187, 168, 116, 242, 200, 161, 60, 155, 226, 107, 167, 233, 179, 243, 161, 250, 174, 85, 73, 180, 135, 199, 88, 118, 101, 117, 29, 8, 52, 243, 53, 173, 70, 51, 0];
const SIG_UNSTAKE_300_AT_2000_NONCE_1_FEE_0: [u8; 65] = [169, 13, 183, 9, 59, 9, 11, 178, 29, 32, 191, 79, 54, 23, 201, 242, 37, 204, 18, 109, 185, 43, 106, 30, 71, 255, 66, 22, 43, 179, 181, 219, 30, 137, 71, 167, 23, 36, 167, 1, 146, 213, 200, 131, 150, 249, 254, 113, 169, 224, 164, 1, 26, 177, 139, 251, 190, 34, 7, 16, 192, 230, 59, 73, 0];
const SIG_UNSTAKE_50_AT_2000_NONCE_1_FEE_80: [u8; 65] = [76, 190, 8, 69, 131, 59, 67, 81, 178, 149, 39, 90, 164, 145, 18, 20, 204, 2, 33, 27, 76, 71, 194, 174, 117, 128, 114, 119, 247, 175, 15, 104, 40, 33, 50, 118, 196, 138, 17, 217, 191, 198, 43, 67, 42, 81, 68, 108, 102, 202, 88, 58, 31, 211, 146, 17, 5, 156, 142, 204, 89, 30, 52, 16, 0];
fn account(byte: u8) -> AccountId {
    AccountId([byte; 32])
}

fn owner() -> AccountId {
    account(1)
}

fn token_id() -> AccountId {
    account(2)
}

fn staker() -> AccountId {
    account(4)
}

fn me() -> AccountId {
    account(5)
}

fn env(now: u64) -> Env {
    Env { caller: staker(), account_id: me(), block_timestamp: now, transferred_value: 0 }
}

fn env_of(caller: AccountId) -> Env {
    Env { caller, account_id: me(), block_timestamp: 0, transferred_value: 0 }
}

/// Thresholds 100, 200 and 500.
fn staking() -> StakingContract {
    StakingContract::new(&env_of(owner()), AccountId(SIGNER), token_id(), vec![100, 200, 500])
}

/// A plain token of which the staker holds 10000 and lets the staking
/// contract withdraw `allowance`.
fn stake_token(allowance: u128) -> Token {
    let mut token = Token::new(
        staker(),
        String::from("Stake"),
        String::from("STK"),
        12,
        10_000,
        false,
        false,
        false,
        false,
        false,
        false,
        false,
        0,
        account(9),
        0,
        String::new(),
    )
    .0;
    token.approve_spender(&env_of(staker()), me(), allowance).unwrap();
    token
}

/// A ledger that records what it is asked and answers as it is told.
struct ScriptedLedger {
    balances: Vec<(AccountId, u128)>,
    allowances: Vec<(AccountId, AccountId, u128)>,
    accept: bool,
    transfers: Vec<(Env, AccountId, u128)>,
    transfers_from: Vec<(Env, AccountId, AccountId, u128)>,
}

impl ScriptedLedger {
    fn new(accept: bool) -> Self {
        ScriptedLedger {
            balances: Vec::new(),
            allowances: Vec::new(),
            accept,
            transfers: Vec::new(),
            transfers_from: Vec::new(),
        }
    }

    fn holding(mut self, account: AccountId, amount: u128) -> Self {
        self.balances.push((account, amount));
        self
    }

    fn allowing(mut self, owner: AccountId, spender: AccountId, amount: u128) -> Self {
        self.allowances.push((owner, spender, amount));
        self
    }

    fn answer(&self) -> Result<(), PSP22Error> {
        if self.accept {
            Ok(())
        } else {
            Err(PSP22Error::Custom(String::from("refused")))
        }
    }
}

impl PSP22 for ScriptedLedger {
    fn spec_total_supply(&self) -> u128 {
        self.total_supply()
    }

    fn spec_balance_of(&self, owner: AccountId) -> u128 {
        self.balance_of(owner)
    }

    fn spec_allowance(&self, owner: AccountId, spender: AccountId) -> u128 {
        self.allowance(owner, spender)
    }

    fn accepts_transfer(&self, _env: Env, _to: AccountId, _value: u128) -> bool {
        self.accept
    }

    fn follows_transfer(&self, before: &Self, env: Env, to: AccountId, value: u128) -> bool {
        self.transfers.len() == before.transfers.len() + 1
            && self.transfers.last() == Some(&(env, to, value))
    }

    fn accepts_transfer_from(
        &self,
        _env: Env,
        _from: AccountId,
        _to: AccountId,
        _value: u128,
    ) -> bool {
        self.accept
    }

    fn follows_transfer_from(
        &self,
        before: &Self,
        env: Env,
        from: AccountId,
        to: AccountId,
        value: u128,
    ) -> bool {
        self.transfers_from.len() == before.transfers_from.len() + 1
            && self.transfers_from.last() == Some(&(env, from, to, value))
    }

    fn total_supply(&self) -> u128 {
        self.balances.iter().map(|b| b.1).sum()
    }

    fn balance_of(&self, owner: AccountId) -> u128 {
        self.balances.iter().find(|b| b.0 == owner).map(|b| b.1).unwrap_or(0)
    }

    fn allowance(&self, owner: AccountId, spender: AccountId) -> u128 {
        self.allowances
            .iter()
            .find(|a| a.0 == owner && a.1 == spender)
            .map(|a| a.2)
            .unwrap_or(0)
    }

    fn transfer(
        &mut self,
        env: &Env,
        to: AccountId,
        value: u128,
        _data: Vec<u8>,
    ) -> Result<(), PSP22Error> {
        self.transfers.push((*env, to, value));
        self.answer()
    }

    fn transfer_from(
        &mut self,
        env: &Env,
        from: AccountId,
        to: AccountId,
        value: u128,
        _data: Vec<u8>,
    ) -> Result<(), PSP22Error> {
        self.transfers_from.push((*env, from, to, value));
        self.answer()
    }

    fn approve(&mut self, _env: &Env, _spender: AccountId, _value: u128) -> Result<(), PSP22Error> {
        self.answer()
    }

    fn increase_allowance(
        &mut self,
        _env: &Env,
        _spender: AccountId,
        _delta_value: u128,
    ) -> Result<(), PSP22Error> {
        self.answer()
    }

    fn decrease_allowance(
        &mut self,
        _env: &Env,
        _spender: AccountId,
        _delta_value: u128,
    ) -> Result<(), PSP22Error> {
        self.answer()
    }
}

#[test]
fn tier_is_the_highest_threshold_reached() {
    let tiers = vec![100, 200, 500];
    assert_eq!(tier_from_amount(&tiers, 0), None);
    assert_eq!(tier_from_amount(&tiers, 50), None);
    assert_eq!(tier_from_amount(&tiers, 99), None);
    assert_eq!(tier_from_amount(&tiers, 100), Some(0));
    assert_eq!(tier_from_amount(&tiers, 199), Some(0));
    assert_eq!(tier_from_amount(&tiers, 200), Some(1));
    assert_eq!(tier_from_amount(&tiers, 250), Some(1));
    assert_eq!(tier_from_amount(&tiers, 499), Some(1));
    assert_eq!(tier_from_amount(&tiers, 500), Some(2));
    assert_eq!(tier_from_amount(&tiers, u128::MAX), Some(2));
}

#[test]
fn tier_zero_differs_from_no_tier() {
    let tiers = vec![100, 200, 500];
    assert_ne!(tier_from_amount(&tiers, 100), tier_from_amount(&tiers, 99));
    assert_eq!(tier_from_amount(&vec![0], 0), Some(0));
}

#[test]
fn empty_table_has_no_tier() {
    assert_eq!(tier_from_amount(&vec![], 0), None);
    assert_eq!(tier_from_amount(&vec![], u128::MAX), None);
}

#[test]
fn equal_thresholds_give_the_highest_place() {
    assert_eq!(tier_from_amount(&vec![100, 100, 100], 100), Some(2));
}

#[test]
fn tier_never_falls_as_the_amount_grows() {
    for tiers in [vec![100, 200, 500], vec![5, 5, 9], vec![300, 100, 200], vec![]] {
        let mut last: Option<u128> = None;
        for amount in 0..600u128 {
            let tier = tier_from_amount(&tiers, amount);
            assert!(last <= tier, "{:?} at {}", tiers, amount);
            last = tier;
        }
    }
}

#[test]
fn stake_to_250_yields_tier_one_and_unstake_to_50_yields_no_tier() {
    let mut contract = staking();
    let mut token = stake_token(1000);
    let r = contract.stake(&env(1000), &mut token, 1000, 30, 0, 250, SIG_STAKE_250_AT_1000_FOR_30_NONCE_0);
    assert_eq!(
        r,
        Ok(StakingEvent {
            staker: staker(),
            total_amount: 250,
            amount: 250,
            new_tier: Some(1),
            timestamp: 1000,
            stake_duration: 30,
            nonce: 0,
        })
    );
    assert_eq!(contract.staking_amount_of(staker()), 250);
    assert_eq!(contract.tier_of(staker()), Some(1));
    assert_eq!(token.balance_of(me()), 250);
    assert_eq!(token.balance_of(staker()), 9750);
    assert_eq!(token.allowance(staker(), me()), 750);

    let r = contract.unstake(&env(1500), &mut token, 2000, 1, 200, 10, SIG_UNSTAKE_200_AT_2000_NONCE_1_FEE_10);
    assert_eq!(
        r,
        Ok(UnstakingEvent {
            staker: staker(),
            total_amount: 50,
            amount: 200,
            new_tier: None,
            timestamp: 2000,
            nonce: 1,
            fee: 10,
        })
    );
    assert_eq!(contract.staking_amount_of(staker()), 50);
    assert_eq!(contract.tier_of(staker()), None);
    // 190 go back to the staker, the fee of 10 stays with the contract.
    assert_eq!(token.balance_of(staker()), 9940);
    assert_eq!(token.balance_of(me()), 60);
    assert_eq!(contract.get_nonce(&env(0)), 2);
}

#[test]
fn second_stake_adds_to_the_total() {
    let mut contract = staking();
    let mut token = stake_token(1000);
    contract
        .stake(&env(1000), &mut token, 1000, 30, 0, 100, SIG_STAKE_100_AT_1000_FOR_30_NONCE_0)
        .unwrap();
    assert_eq!(contract.tier_of(staker()), Some(0));
    let r = contract.stake(&env(1000), &mut token, 1000, 30, 1, 500, SIG_STAKE_500_AT_1000_FOR_30_NONCE_1);
    assert_eq!(r.map(|e| (e.total_amount, e.amount, e.new_tier)), Ok((600, 500, Some(2))));
    assert_eq!(contract.staking_amount_of(staker()), 600);
}

#[test]
fn stake_asks_the_ledger_for_exactly_the_amount() {
    let mut contract = staking();
    let mut ledger = ScriptedLedger::new(true).holding(staker(), 250).allowing(staker(), me(), 250);
    contract
        .stake(&env(1000), &mut ledger, 1000, 30, 0, 250, SIG_STAKE_250_AT_1000_FOR_30_NONCE_0)
        .unwrap();
    let asked_as = Env {
        caller: me(),
        account_id: token_id(),
        block_timestamp: 1000,
        transferred_value: 0,
    };
    assert_eq!(ledger.transfers_from, vec![(asked_as, staker(), me(), 250)]);
    assert!(ledger.transfers.is_empty());
}

#[test]
fn stake_without_allowance_is_refused() {
    let mut contract = staking();
    let mut token = stake_token(249);
    let r = contract.stake(&env(1000), &mut token, 1000, 30, 0, 250, SIG_STAKE_250_AT_1000_FOR_30_NONCE_0);
    assert_eq!(r, Err(StakingError::InsufficientAllowance));
    assert_eq!(contract.staking_amount_of(staker()), 0);
    assert_eq!(contract.get_nonce(&env(0)), 1);
    assert_eq!(token.balance_of(me()), 0);
}

#[test]
fn stake_without_balance_is_refused() {
    let mut contract = staking();
    let mut ledger = ScriptedLedger::new(true).holding(staker(), 249).allowing(staker(), me(), 250);
    let r = contract.stake(&env(1000), &mut ledger, 1000, 30, 0, 250, SIG_STAKE_250_AT_1000_FOR_30_NONCE_0);
    assert_eq!(r, Err(StakingError::InsufficientBalance));
    assert!(ledger.transfers_from.is_empty());
}

#[test]
fn stake_that_the_ledger_refuses_changes_no_stake() {
    let mut contract = staking();
    let mut ledger = ScriptedLedger::new(false).holding(staker(), 250).allowing(staker(), me(), 250);
    let r = contract.stake(&env(1000), &mut ledger, 1000, 30, 0, 250, SIG_STAKE_250_AT_1000_FOR_30_NONCE_0);
    assert_eq!(r, Err(StakingError::TransferFailed));
    assert_eq!(contract.staking_amount_of(staker()), 0);
    assert_eq!(contract.tier_of(staker()), None);
    assert_eq!(contract.get_nonce(&env(0)), 1);
}

#[test]
fn stake_with_a_forged_signature_burns_the_nonce() {
    let mut contract = staking();
    let mut token = stake_token(1000);
    let r = contract.stake(&env(1000), &mut token, 1000, 30, 0, 250, SIG_STAKE_100_AT_1000_FOR_30_NONCE_0);
    assert_eq!(r, Err(StakingError::InvalidSignature));
    assert_eq!(contract.get_nonce(&env(0)), 1);
    let r = contract.stake(&env(1000), &mut token, 1000, 30, 0, 250, SIG_STAKE_250_AT_1000_FOR_30_NONCE_0);
    assert_eq!(r, Err(StakingError::InvalidNonce));
}

#[test]
fn stake_signature_binds_the_duration() {
    let mut contract = staking();
    let mut token = stake_token(1000);
    let r = contract.stake(&env(1000), &mut token, 1000, 31, 0, 250, SIG_STAKE_250_AT_1000_FOR_30_NONCE_0);
    assert_eq!(r, Err(StakingError::InvalidSignature));
}

#[test]
fn stake_deadline_boundary() {
    let mut contract = staking();
    let mut token = stake_token(1000);
    let r = contract.stake(&env(1001), &mut token, 1000, 30, 0, 250, SIG_STAKE_250_AT_1000_FOR_30_NONCE_0);
    assert_eq!(r, Err(StakingError::Expired));
    assert_eq!(contract.get_nonce(&env(0)), 0);
    let r = contract.stake(&env(1000), &mut token, 1000, 30, 0, 250, SIG_STAKE_250_AT_1000_FOR_30_NONCE_0);
    assert!(r.is_ok());
}

#[test]
fn stake_that_would_overflow_the_total_is_an_arithmetic_error() {
    let mut contract = staking();
    let mut ledger = ScriptedLedger::new(true)
        .holding(staker(), u128::MAX)
        .allowing(staker(), me(), u128::MAX);
    contract.settle_stake(&env(1000), &mut ledger, 1000, 30, 0, u128::MAX, true).unwrap();
    let r = contract.settle_stake(&env(1000), &mut ledger, 1000, 30, 1, 1, true);
    assert_eq!(r, Err(StakingError::ArithmeticError));
    assert_eq!(ledger.transfers_from.len(), 1);
    assert_eq!(contract.staking_amount_of(staker()), u128::MAX);
}

#[test]
fn unstake_above_the_stake_is_refused() {
    let mut contract = staking();
    let mut token = stake_token(1000);
    contract
        .stake(&env(1000), &mut token, 1000, 30, 0, 250, SIG_STAKE_250_AT_1000_FOR_30_NONCE_0)
        .unwrap();
    let r = contract.unstake(&env(1500), &mut token, 2000, 1, 300, 0, SIG_UNSTAKE_300_AT_2000_NONCE_1_FEE_0);
    assert_eq!(r, Err(StakingError::InsufficientStake));
    assert_eq!(contract.staking_amount_of(staker()), 250);
    assert_eq!(token.balance_of(me()), 250);
}

#[test]
fn unstake_above_the_reserve_is_refused() {
    let mut contract = staking();
    let mut ledger = ScriptedLedger::new(true).holding(staker(), 250).allowing(staker(), me(), 250);
    contract
        .stake(&env(1000), &mut ledger, 1000, 30, 0, 250, SIG_STAKE_250_AT_1000_FOR_30_NONCE_0)
        .unwrap();
    // The scripted ledger still shows no tokens with the contract.
    let r = contract.unstake(&env(1500), &mut ledger, 2000, 1, 200, 10, SIG_UNSTAKE_200_AT_2000_NONCE_1_FEE_10);
    assert_eq!(r, Err(StakingError::InsufficientReserve));
    assert!(ledger.transfers.is_empty());
    assert_eq!(contract.staking_amount_of(staker()), 250);
}

#[test]
fn unstake_with_a_fee_above_the_amount_pays_nothing() {
    let mut contract = staking();
    let mut ledger = ScriptedLedger::new(true)
        .holding(staker(), 250)
        .allowing(staker(), me(), 250)
        .holding(me(), 250);
    contract
        .stake(&env(1000), &mut ledger, 1000, 30, 0, 250, SIG_STAKE_250_AT_1000_FOR_30_NONCE_0)
        .unwrap();
    let r = contract.unstake(&env(1500), &mut ledger, 2000, 1, 50, 80, SIG_UNSTAKE_50_AT_2000_NONCE_1_FEE_80);
    assert_eq!(r.map(|e| (e.total_amount, e.amount, e.fee, e.new_tier)), Ok((200, 50, 80, Some(1))));
    assert_eq!(ledger.transfers.len(), 1);
    assert_eq!(ledger.transfers[0].1, staker());
    assert_eq!(ledger.transfers[0].2, 0);
}

#[test]
fn unstake_that_the_ledger_refuses_keeps_the_stake() {
    let mut contract = staking();
    let mut ledger = ScriptedLedger::new(true)
        .holding(staker(), 250)
        .allowing(staker(), me(), 250)
        .holding(me(), 250);
    contract
        .stake(&env(1000), &mut ledger, 1000, 30, 0, 250, SIG_STAKE_250_AT_1000_FOR_30_NONCE_0)
        .unwrap();
    ledger.accept = false;
    let r = contract.unstake(&env(1500), &mut ledger, 2000, 1, 200, 10, SIG_UNSTAKE_200_AT_2000_NONCE_1_FEE_10);
    assert_eq!(r, Err(StakingError::TransferFailed));
    assert_eq!(contract.staking_amount_of(staker()), 250);
    assert_eq!(contract.tier_of(staker()), Some(1));
    assert_eq!(contract.get_nonce(&env(0)), 2);
    assert_eq!(ledger.transfers[0].2, 190);
}

#[test]
fn messages_name_their_fields_in_order() {
    let contract = staking();
    let text = contract.gen_msg_for_stake_token(&env(0), 1000, 30, 7, 250);
    assert_eq!(text, format!("stake_token_{}_{}_250_1000_30_7", "05".repeat(32), "04".repeat(32)));
    let text = contract.gen_msg_for_unstake_token(&env(0), 2000, 7, 200, 10);
    assert_eq!(text, format!("unstake_token_{}_{}_200_2000_7_10", "05".repeat(32), "04".repeat(32)));
}

#[test]
fn contract_verifies_against_a_given_signer() {
    let contract = staking();
    let text = contract.gen_msg_for_stake_token(&env(0), 1000, 30, 0, 250);
    assert!(contract._verify(text.clone(), AccountId(SIGNER), SIG_STAKE_250_AT_1000_FOR_30_NONCE_0));
    assert!(!contract._verify(text, account(3), SIG_STAKE_250_AT_1000_FOR_30_NONCE_0));
}

#[test]
fn only_the_owner_configures() {
    let mut contract = staking();
    assert_eq!(contract.owner(), owner());
    assert_eq!(contract.get_stake_token(), token_id());
    assert_eq!(contract.set_signer(&env_of(staker()), staker()), Err(StakingError::NotAuthorized));
    assert_eq!(contract.set_tiers(&env_of(staker()), vec![1]), Err(StakingError::NotAuthorized));
    assert_eq!(contract.set_code(&env_of(staker()), [1; 32]), Err(StakingError::NotAuthorized));
    assert_eq!(
        contract.transfer_ownership(&env_of(staker()), staker()),
        Err(StakingError::NotAuthorized)
    );
    assert_eq!(contract.get_tiers(), Ok(vec![100, 200, 500]));
    assert_eq!(
        contract.set_signer(&env_of(owner()), staker()),
        Ok(SetSignerEvent { signer: staker() })
    );
    assert_eq!(
        contract.set_tiers(&env_of(owner()), vec![10, 20]),
        Ok(SetTiersEvent { tiers: vec![10, 20] })
    );
    assert_eq!(contract.get_tiers(), Ok(vec![10, 20]));
    assert_eq!(contract.get_tier_from_amount(15), Some(0));
    assert_eq!(contract.get_tier_from_amount(9), None);
    assert_eq!(contract.set_code(&env_of(owner()), [1; 32]), Ok([1; 32]));
    assert_eq!(contract.transfer_ownership(&env_of(owner()), staker()), Ok(()));
    assert_eq!(contract.owner(), staker());
}

#[test]
fn owner_collects_every_token_of_the_contract() {
    let mut contract = staking();
    let mut token = stake_token(1000);
    contract
        .stake(&env(1000), &mut token, 1000, 30, 0, 250, SIG_STAKE_250_AT_1000_FOR_30_NONCE_0)
        .unwrap();
    assert_eq!(
        contract.admin_collect_all_token(&env_of(staker()), &mut token),
        Err(StakingError::NotAuthorized)
    );
    assert_eq!(token.balance_of(me()), 250);
    assert_eq!(contract.admin_collect_all_token(&env_of(owner()), &mut token), Ok(()));
    assert_eq!(token.balance_of(me()), 0);
    assert_eq!(token.balance_of(owner()), 250);
    assert_eq!(contract.staking_amount_of(staker()), 250);
}

#[test]
fn collecting_reports_a_refused_transfer() {
    let mut contract = staking();
    let mut ledger = ScriptedLedger::new(false).holding(me(), 5);
    assert_eq!(
        contract.admin_collect_all_token(&env_of(owner()), &mut ledger),
        Err(StakingError::TransferFailed)
    );
    assert_eq!(ledger.transfers[0].1, owner());
    assert_eq!(ledger.transfers[0].2, 5);
}
