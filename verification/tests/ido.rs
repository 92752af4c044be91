use settlement::account::{AccountId, Env};
use settlement::ido::{
    allocate, checked_pow10, BuyTokenWithNative, ClaimToken, IDOError, IdoContract,
    InitIdoContract, PriceChanged, SignerChanged, SUB_ADMIN,
};
use settlement::psp22::{PSP22Error, PSP22};
use settlement::token::Token;

const SIGNER: [u8; 32] = [249, 89, 234, 244, 84, 28, 234, 153, 73, 117, 217, 80, 218, 168, 131, 15, 1, 246, 151, 84, 223, 103, 116, 224, 13, 12, 4, 190, 53, 51, 29, 180];
const SIG_BUY_100_AT_1000_NONCE_0: [u8; 65] = [205, 24, 164, 159, 27, 214, 149, 219, 185, 50, 148, 48, 116, 85, 168, 89, 38, 100, 124, 94, 29, 21, 180, 56, 76, 198, 191, 0, 241, 171, 186, 113, 8, 129, 89, 220, 84, 90, 96, 247, 214, 135, 45, 190, 233, 49, 248, 44, 23, 59, 189, 148, 237, 82, 50, 252, 54, 113, 191, 106, 103, 132, 240, 230, 1];
const SIG_BUY_950_AT_2000_NONCE_1: [u8; 65] = [209, 239, 80, 127, 218, 61, 52, 60, 129, 78, 254, 13, 243, 224, 193, 102, 49, 130, 240, 170, 36, 165, 145, 202, 66, 48, 95, 212, 181, 88, 39, 203, 17, 224, 218, 254, 242, 13, 195, 138, 170, 87, 19, 42, 66, 199, 248, 76, 62, 8, 106, 191, 40, 217, 85, 214, 104, 216, 130, 68, 237, 167, 182, 51, 1];
const SIG_BUY_100_AT_1000_NONCE_2: [u8; 65] = [242, 168, 54, 141, 231, 196, 112, 228, 127, 15, 255, 169, 56, 11, 52, 145, 196, 178, 21, 209, 133, 127, 127, 102, 233, 192, 51, 173, 130, 198, 225, 190, 103, 105, 178, 104, 26, 104, 132, 84, 117, 245, 196, 228, 63, 23, 121, 25, 105, 218, 222, 152, 151, 70, 150, 39, 232, 97, 39, 140, 249, 134, 96, 94, 1];
const SIG_BUY_7_AT_1000_NONCE_0: [u8; 65] = [213, 135, 47, 65, 141, 182, 79, 86, 227, 96, 223, 111, 190, 69, 145, 202, 7, 34, 132, 94, 59, 157, 87, 228, 4, 176, 94, 188, 149, 38, 218, 21, 94, 101, 213, 181, 12, 161, 176, 43, 60, 69, 199, 216, 60, 114, 167, 84, 46, 95, 234, 0, 111, 252, 177, 205, 211, 162, 223, 65, 128, 153, 19, 205, 1];
const SIG_CLAIM_100_AT_3000_NONCE_1: [u8; 65] = [152, 25, 158, 57, 85, 211, 183, 8, 26, 157, 209, 253, 92, 107, 145, 152, 85, 141, 252, 245, 221, 113, 70, 135, 1, 82, 141, 24, 105, 39, 63, 39, 4, 91, 184, 47, 171, 130, 66, 15, 188, 248, 28, 111, 87, 214, 19, 238, 151, 90, 186, 212, 140, 82, 150, 159, 202, 240, 103, 77, 142, 102, 166, 122, 0];
const SIG_CLAIM_2_AT_3000_NONCE_1: [u8; 65] = [149, 224, 184, 136, 138, 166, 221, 219, 230, 23, 241, 152, 98, 64, 192, 66, 246, 116, 116, 126, 140, 168, 65, 6, 67, 158, 48, 243, 255, 227, 226, 89, 82, 150, 154, 94, 190, 192, 238, 58, 212, 158, 14, 161, 72, 41, 117, 22, 48, 179, 172, 178, 157, 6, 143, 31, 249, 238, 181, 129, 77, 135, 63, 255, 0];
const SIG_CLAIM_101_AT_3000_NONCE_1: [u8; 65] = [114, 200, 243, 14, 223, 97, 20, 94, 143, 209, 115, 61, 213, 69, 108, 17, 94, 232, 72, 112, 80, 20, 27, 56, 132, 2, 0, 252, 91, 251, 78, 18, 94, 132, 128, 230, 39, 4, 150, 104, 255, 218, 228, 168, 101, 59, 69, 144, 77, 143, 131, 199, 226, 223, 198, 31, 134, 125, 114, 126, 7, 148, 113, 105, 0];
const SIG_CLAIM_100_AT_3000_NONCE_0: [u8; 65] = [209, 66, 188, 54, 126, 17, 121, 212, 157, 226, 17, 18, 79, 71, 23, 147, 42, 191, 235, 193, 48, 130, 216, 124, 198, 25, 131, 29, 56, 248, 72, 106, 74, 111, 204, 17, 21, 91, 93, 73, 117, 12, 240, 206, 6, 94, 96, 202, 61, 3, 241, 40, 251, 99, 27, 155, 239, 243, 3, 131, 72, 83, 181, 28, 1];
const SIG_BY_STRANGER: [u8; 65] = [7, 137, 222, 233, 34, 168, 9, 226, 19, 101, 245, 21, 193, 11, 97, 189, 196, 79, 24, 235, 92, 247, 228, 247, 29, 73, 42, 200, 190, 21, 117, 118, 110, 26, 18, 58, 113, 173, 39, 123, 30, 218, 72, 79, 102, 37, 69, 198, 87, 228, 167, 196, 175, 111, 35, 56, 165, 211, 28, 117, 44, 115, 1, 65, 1];
fn account(byte: u8) -> AccountId {
    AccountId([byte; 32])
}

fn owner() -> AccountId {
    account(1)
}

fn token_id() -> AccountId {
    account(2)
}

fn buyer() -> AccountId {
    account(4)
}

fn me() -> AccountId {
    account(5)
}

fn env(now: u64, value: u128) -> Env {
    Env { caller: buyer(), account_id: me(), block_timestamp: now, transferred_value: value }
}

fn env_of(caller: AccountId) -> Env {
    Env { caller, account_id: me(), block_timestamp: 0, transferred_value: 0 }
}

/// Price 10 with one decimal, cap 1000.
fn sale() -> IdoContract {
    IdoContract::new(owner(), token_id(), AccountId(SIGNER), 10, 1, 1000).0
}

/// A plain token whose whole supply the sale contract holds.
fn reserve(supply: u128) -> Token {
    Token::new(
        me(),
        String::from("Sale"),
        String::from("SALE"),
        12,
        supply,
        false,
        false,
        false,
        false,
        false,
        true,
        false,
        0,
        account(9),
        0,
        String::new(),
    )
    .0
}

/// A ledger that records what it is asked and answers as it is told.
struct ScriptedLedger {
    balances: Vec<(AccountId, u128)>,
    allowances: Vec<(AccountId, AccountId, u128)>,
    accept: bool,
    transfers: Vec<(Env, AccountId, u128)>,
    transfers_from: Vec<(Env, AccountId, AccountId, u128)>,
}

impl ScriptedLedger {
    fn new(accept: bool) -> Self {
        ScriptedLedger {
            balances: Vec::new(),
            allowances: Vec::new(),
            accept,
            transfers: Vec::new(),
            transfers_from: Vec::new(),
        }
    }

    fn holding(mut self, account: AccountId, amount: u128) -> Self {
        self.balances.push((account, amount));
        self
    }

    fn allowing(mut self, owner: AccountId, spender: AccountId, amount: u128) -> Self {
        self.allowances.push((owner, spender, amount));
        self
    }

    fn answer(&self) -> Result<(), PSP22Error> {
        if self.accept {
            Ok(())
        } else {
            Err(PSP22Error::Custom(String::from("refused")))
        }
    }
}

impl PSP22 for ScriptedLedger {
    fn spec_total_supply(&self) -> u128 {
        self.total_supply()
    }

    fn spec_balance_of(&self, owner: AccountId) -> u128 {
        self.balance_of(owner)
    }

    fn spec_allowance(&self, owner: AccountId, spender: AccountId) -> u128 {
        self.allowance(owner, spender)
    }

    fn accepts_transfer(&self, _env: Env, _to: AccountId, _value: u128) -> bool {
        self.accept
    }

    fn follows_transfer(&self, before: &Self, env: Env, to: AccountId, value: u128) -> bool {
        self.transfers.len() == before.transfers.len() + 1
            && self.transfers.last() == Some(&(env, to, value))
    }

    fn accepts_transfer_from(
        &self,
        _env: Env,
        _from: AccountId,
        _to: AccountId,
        _value: u128,
    ) -> bool {
        self.accept
    }

    fn follows_transfer_from(
        &self,
        before: &Self,
        env: Env,
        from: AccountId,
        to: AccountId,
        value: u128,
    ) -> bool {
        self.transfers_from.len() == before.transfers_from.len() + 1
            && self.transfers_from.last() == Some(&(env, from, to, value))
    }

    fn total_supply(&self) -> u128 {
        self.balances.iter().map(|b| b.1).sum()
    }

    fn balance_of(&self, owner: AccountId) -> u128 {
        self.balances.iter().find(|b| b.0 == owner).map(|b| b.1).unwrap_or(0)
    }

    fn allowance(&self, owner: AccountId, spender: AccountId) -> u128 {
        self.allowances
            .iter()
            .find(|a| a.0 == owner && a.1 == spender)
            .map(|a| a.2)
            .unwrap_or(0)
    }

    fn transfer(
        &mut self,
        env: &Env,
        to: AccountId,
        value: u128,
        _data: Vec<u8>,
    ) -> Result<(), PSP22Error> {
        self.transfers.push((*env, to, value));
        self.answer()
    }

    fn transfer_from(
        &mut self,
        env: &Env,
        from: AccountId,
        to: AccountId,
        value: u128,
        _data: Vec<u8>,
    ) -> Result<(), PSP22Error> {
        self.transfers_from.push((*env, from, to, value));
        self.answer()
    }

    fn approve(&mut self, _env: &Env, _spender: AccountId, _value: u128) -> Result<(), PSP22Error> {
        self.answer()
    }

    fn increase_allowance(
        &mut self,
        _env: &Env,
        _spender: AccountId,
        _delta_value: u128,
    ) -> Result<(), PSP22Error> {
        self.answer()
    }

    fn decrease_allowance(
        &mut self,
        _env: &Env,
        _spender: AccountId,
        _delta_value: u128,
    ) -> Result<(), PSP22Error> {
        self.answer()
    }
}

#[test]
fn new_sale_reports_its_setup() {
    let (contract, event) = IdoContract::new(owner(), token_id(), AccountId(SIGNER), 10, 1, 1000);
    assert_eq!(
        event,
        InitIdoContract {
            ido_token: token_id(),
            price: 10,
            price_decimals: 1,
            signer: AccountId(SIGNER),
            max_issue_ido_amount: 1000,
        }
    );
    assert_eq!(contract.owner(), owner());
    assert_eq!(contract.get_signer(), AccountId(SIGNER));
    assert_eq!(contract.get_ido_token(), token_id());
    assert_eq!(contract.get_price(), 10);
    assert_eq!(contract.get_issued_ido_amount(), 0);
    assert_eq!(contract.get_max_issue_ido_amount(), 1000);
    assert_eq!(contract.get_nonce(buyer()), 0);
    assert_eq!(contract.get_ido_token_balance(buyer()), 0);
}

#[test]
fn buy_100_at_price_10_with_one_decimal_allocates_100() {
    let mut contract = sale();
    let r = contract.buy_ido_with_native(&env(1000, 100), 1000, 0, SIG_BUY_100_AT_1000_NONCE_0);
    assert_eq!(
        r,
        Ok(BuyTokenWithNative { buyer: buyer(), native_amount: 100, ido_token_amount: 100, nonce: 0 })
    );
    assert_eq!(contract.get_issued_ido_amount(), 100);
    assert_eq!(contract.get_ido_token_balance(buyer()), 100);
    assert_eq!(contract.get_nonce(buyer()), 1);
}

#[test]
fn buy_above_the_cap_fails_and_leaves_issued_amount() {
    let mut contract = sale();
    contract
        .buy_ido_with_native(&env(1000, 100), 1000, 0, SIG_BUY_100_AT_1000_NONCE_0)
        .unwrap();
    // 950 * 10 / 10 = 950 would raise the issued amount to 1050.
    let r = contract.buy_ido_with_native(&env(1000, 950), 2000, 1, SIG_BUY_950_AT_2000_NONCE_1);
    assert_eq!(r, Err(IDOError::CapExceeded));
    assert_eq!(contract.get_issued_ido_amount(), 100);
    assert_eq!(contract.get_ido_token_balance(buyer()), 100);
    // The nonce of the refused purchase is consumed.
    assert_eq!(contract.get_nonce(buyer()), 2);
}

#[test]
fn buy_far_above_the_cap_fails() {
    let mut contract = IdoContract::new(owner(), token_id(), AccountId(SIGNER), 100, 1, 1000).0;
    // 950 * 100 / 10 = 9500.
    assert_eq!(contract.settle_buy(buyer(), 950, 0, true), Err(IDOError::CapExceeded));
    assert_eq!(contract.get_issued_ido_amount(), 0);
}

#[test]
fn second_buy_reports_the_new_allocated_total() {
    let mut contract = sale();
    contract
        .buy_ido_with_native(&env(1000, 100), 1000, 0, SIG_BUY_100_AT_1000_NONCE_0)
        .unwrap();
    contract
        .buy_ido_with_native(&env(1000, 950), 2000, 1, SIG_BUY_950_AT_2000_NONCE_1)
        .unwrap_err();
    let r = contract.buy_ido_with_native(&env(1000, 100), 1000, 2, SIG_BUY_100_AT_1000_NONCE_2);
    assert_eq!(
        r,
        Ok(BuyTokenWithNative { buyer: buyer(), native_amount: 100, ido_token_amount: 200, nonce: 2 })
    );
    assert_eq!(contract.get_issued_ido_amount(), 200);
}

#[test]
fn allocation_rounds_down() {
    let mut contract = sale();
    // 7 * 10 / 10 = 7; with price 3 and two decimals 7 * 3 / 100 = 0.
    let r = contract.buy_ido_with_native(&env(1000, 7), 1000, 0, SIG_BUY_7_AT_1000_NONCE_0);
    assert_eq!(r.map(|e| e.ido_token_amount), Ok(7));
    assert_eq!(allocate(7, 3, 2), Some(0));
    assert_eq!(allocate(199, 3, 2), Some(5));
    assert_eq!(allocate(100, 10, 1), Some(100));
    assert_eq!(allocate(950, 10, 1), Some(950));
    assert_eq!(allocate(5, 7, 0), Some(35));
}

#[test]
fn allocation_that_does_not_fit_is_none() {
    assert_eq!(allocate(u128::MAX, 2, 0), None);
    assert_eq!(allocate(1, 1, 39), None);
    assert_eq!(allocate(u128::MAX, 1, 38), Some(3));
    assert_eq!(allocate(0, 0, 0), Some(0));
}

#[test]
fn powers_of_ten() {
    assert_eq!(checked_pow10(0), Some(1));
    assert_eq!(checked_pow10(1), Some(10));
    assert_eq!(checked_pow10(5), Some(100_000));
    assert_eq!(checked_pow10(38), Some(100_000_000_000_000_000_000_000_000_000_000_000_000));
    assert_eq!(checked_pow10(39), None);
    assert_eq!(checked_pow10(u32::MAX), None);
}

#[test]
fn overflow_in_the_rate_is_an_arithmetic_error() {
    let mut contract = IdoContract::new(owner(), token_id(), AccountId(SIGNER), u128::MAX, 0, 1000).0;
    assert_eq!(contract.settle_buy(buyer(), 2, 0, true), Err(IDOError::ArithmeticError));
    let mut contract = IdoContract::new(owner(), token_id(), AccountId(SIGNER), 1, 39, 1000).0;
    assert_eq!(contract.settle_buy(buyer(), 2, 0, true), Err(IDOError::ArithmeticError));
    assert_eq!(contract.get_issued_ido_amount(), 0);
}

#[test]
fn buy_with_deadline_equal_to_now_succeeds() {
    let mut contract = sale();
    assert!(contract
        .buy_ido_with_native(&env(1000, 100), 1000, 0, SIG_BUY_100_AT_1000_NONCE_0)
        .is_ok());
}

#[test]
fn buy_with_deadline_one_before_now_is_expired() {
    let mut contract = sale();
    let r = contract.buy_ido_with_native(&env(1001, 100), 1000, 0, SIG_BUY_100_AT_1000_NONCE_0);
    assert_eq!(r, Err(IDOError::Expired));
    assert_eq!(contract.get_nonce(buyer()), 0);
    assert_eq!(contract.get_issued_ido_amount(), 0);
}

#[test]
fn buy_with_nonce_two_ahead_is_invalid() {
    let mut contract = sale();
    let r = contract.buy_ido_with_native(&env(1000, 100), 1000, 2, SIG_BUY_100_AT_1000_NONCE_2);
    assert_eq!(r, Err(IDOError::InvalidNonce));
    assert_eq!(contract.get_nonce(buyer()), 0);
}

#[test]
fn replayed_buy_is_invalid_every_time() {
    let mut contract = sale();
    contract
        .buy_ido_with_native(&env(1000, 100), 1000, 0, SIG_BUY_100_AT_1000_NONCE_0)
        .unwrap();
    for _ in 0..3 {
        let r = contract.buy_ido_with_native(&env(1000, 100), 1000, 0, SIG_BUY_100_AT_1000_NONCE_0);
        assert_eq!(r, Err(IDOError::InvalidNonce));
        assert_eq!(contract.get_issued_ido_amount(), 100);
        assert_eq!(contract.get_nonce(buyer()), 1);
    }
}

#[test]
fn forged_signature_is_refused_and_burns_the_nonce() {
    let mut contract = sale();
    let r = contract.buy_ido_with_native(&env(1000, 100), 1000, 0, SIG_BY_STRANGER);
    assert_eq!(r, Err(IDOError::InvalidSignature));
    assert_eq!(contract.get_issued_ido_amount(), 0);
    assert_eq!(contract.get_ido_token_balance(buyer()), 0);
    assert_eq!(contract.get_nonce(buyer()), 1);
    // The valid signature for nonce 0 has lost its nonce.
    let r = contract.buy_ido_with_native(&env(1000, 100), 1000, 0, SIG_BUY_100_AT_1000_NONCE_0);
    assert_eq!(r, Err(IDOError::InvalidNonce));
}

#[test]
fn malformed_signature_is_refused() {
    let mut contract = sale();
    let r = contract.buy_ido_with_native(&env(1000, 100), 1000, 0, [0xff; 65]);
    assert_eq!(r, Err(IDOError::InvalidSignature));
    assert_eq!(contract.get_nonce(buyer()), 1);
}

#[test]
fn signature_binds_the_attached_value() {
    let mut contract = sale();
    let r = contract.buy_ido_with_native(&env(1000, 101), 1000, 0, SIG_BUY_100_AT_1000_NONCE_0);
    assert_eq!(r, Err(IDOError::InvalidSignature));
}

#[test]
fn signature_binds_the_caller() {
    let mut contract = sale();
    let other = Env { caller: account(6), ..env(1000, 100) };
    let r = contract.buy_ido_with_native(&other, 1000, 0, SIG_BUY_100_AT_1000_NONCE_0);
    assert_eq!(r, Err(IDOError::InvalidSignature));
}

#[test]
fn signature_binds_the_sale_contract() {
    // Another sale of the same token, with the same signer.
    let mut contract = sale();
    let elsewhere = Env { account_id: account(6), ..env(1000, 100) };
    let r = contract.buy_ido_with_native(&elsewhere, 1000, 0, SIG_BUY_100_AT_1000_NONCE_0);
    assert_eq!(r, Err(IDOError::InvalidSignature));
    assert_eq!(contract.get_issued_ido_amount(), 0);
}

#[test]
fn signature_does_not_depend_on_the_token() {
    let mut contract = IdoContract::new(owner(), account(8), AccountId(SIGNER), 10, 1, 1000).0;
    let r = contract.buy_ido_with_native(&env(1000, 100), 1000, 0, SIG_BUY_100_AT_1000_NONCE_0);
    assert!(r.is_ok());
}

#[test]
fn claim_signature_binds_the_sale_contract() {
    let mut contract = sale();
    let mut ledger = ScriptedLedger::new(true).holding(account(6), 500);
    contract
        .buy_ido_with_native(&env(1000, 100), 1000, 0, SIG_BUY_100_AT_1000_NONCE_0)
        .unwrap();
    let elsewhere = Env { account_id: account(6), ..env(2000, 0) };
    let r = contract.claim_ido_token(&elsewhere, &mut ledger, 3000, 1, 100, SIG_CLAIM_100_AT_3000_NONCE_1);
    assert_eq!(r, Err(IDOError::InvalidSignature));
    assert_eq!(contract.get_ido_token_balance(buyer()), 100);
    assert!(ledger.transfers.is_empty());
}

#[test]
fn buy_signature_authorizes_no_claim() {
    let mut contract = sale();
    let mut ledger = ScriptedLedger::new(true).holding(me(), 500);
    contract
        .buy_ido_with_native(&env(1000, 100), 1000, 0, SIG_BUY_100_AT_1000_NONCE_0)
        .unwrap();
    let r = contract.claim_ido_token(&env(1000, 0), &mut ledger, 1000, 1, 100, SIG_BUY_100_AT_1000_NONCE_0);
    assert_eq!(r, Err(IDOError::InvalidSignature));
}

#[test]
fn verify_signature_checks_against_the_signer() {
    let contract = sale();
    let message = contract.gen_msg_for_buy_token(&env(1000, 100), 1000, 0, 100);
    assert!(contract.verify_signature(SIG_BUY_100_AT_1000_NONCE_0, message.clone()));
    assert!(!contract.verify_signature(SIG_BY_STRANGER, message));
}

#[test]
fn buy_then_claim_leaves_no_allocated_balance_and_transfers_the_tokens() {
    let mut contract = sale();
    let mut ledger = reserve(5000);
    contract
        .buy_ido_with_native(&env(1000, 100), 1000, 0, SIG_BUY_100_AT_1000_NONCE_0)
        .unwrap();
    let r = contract.claim_ido_token(&env(2000, 0), &mut ledger, 3000, 1, 100, SIG_CLAIM_100_AT_3000_NONCE_1);
    assert_eq!(r, Ok(ClaimToken { buyer: buyer(), ido_token_amount: 100, nonce: 1 }));
    assert_eq!(contract.get_ido_token_balance(buyer()), 0);
    assert_eq!(ledger.balance_of(buyer()), 100);
    assert_eq!(ledger.balance_of(me()), 4900);
    assert_eq!(contract.get_issued_ido_amount(), 100);
    assert_eq!(contract.get_nonce(buyer()), 2);
}

#[test]
fn claim_asks_the_ledger_for_exactly_the_amount() {
    let mut contract = sale();
    let mut ledger = ScriptedLedger::new(true).holding(me(), 500);
    contract
        .buy_ido_with_native(&env(1000, 100), 1000, 0, SIG_BUY_100_AT_1000_NONCE_0)
        .unwrap();
    contract
        .claim_ido_token(&env(2000, 7), &mut ledger, 3000, 1, 100, SIG_CLAIM_100_AT_3000_NONCE_1)
        .unwrap();
    let asked_as = Env {
        caller: me(),
        account_id: token_id(),
        block_timestamp: 2000,
        transferred_value: 0,
    };
    assert_eq!(ledger.transfers, vec![(asked_as, buyer(), 100)]);
}

#[test]
fn partial_claim_leaves_the_rest() {
    let mut contract = sale();
    let mut ledger = reserve(5000);
    contract
        .buy_ido_with_native(&env(1000, 100), 1000, 0, SIG_BUY_100_AT_1000_NONCE_0)
        .unwrap();
    let r = contract.claim_ido_token(&env(2000, 0), &mut ledger, 3000, 1, 2, SIG_CLAIM_2_AT_3000_NONCE_1);
    assert_eq!(r, Ok(ClaimToken { buyer: buyer(), ido_token_amount: 2, nonce: 1 }));
    assert_eq!(contract.get_ido_token_balance(buyer()), 98);
    assert_eq!(ledger.balance_of(buyer()), 2);
}

#[test]
fn claim_above_the_reserve_is_refused_before_the_signature() {
    let mut contract = sale();
    let mut ledger = ScriptedLedger::new(true).holding(me(), 99);
    contract
        .buy_ido_with_native(&env(1000, 100), 1000, 0, SIG_BUY_100_AT_1000_NONCE_0)
        .unwrap();
    let r = contract.claim_ido_token(&env(2000, 0), &mut ledger, 3000, 1, 100, [0; 65]);
    assert_eq!(r, Err(IDOError::InsufficientReserve));
    assert_eq!(contract.get_ido_token_balance(buyer()), 100);
    assert_eq!(contract.get_nonce(buyer()), 2);
    assert!(ledger.transfers.is_empty());
}

#[test]
fn claim_above_the_allocated_balance_is_refused() {
    let mut contract = sale();
    let mut ledger = ScriptedLedger::new(true).holding(me(), 500);
    contract
        .buy_ido_with_native(&env(1000, 100), 1000, 0, SIG_BUY_100_AT_1000_NONCE_0)
        .unwrap();
    let r = contract.claim_ido_token(&env(2000, 0), &mut ledger, 3000, 1, 101, SIG_CLAIM_101_AT_3000_NONCE_1);
    assert_eq!(r, Err(IDOError::InsufficientAllocated));
    assert_eq!(contract.get_ido_token_balance(buyer()), 100);
    assert!(ledger.transfers.is_empty());
}

#[test]
fn claim_with_a_forged_signature_is_refused() {
    let mut contract = sale();
    let mut ledger = ScriptedLedger::new(true).holding(me(), 500);
    contract
        .buy_ido_with_native(&env(1000, 100), 1000, 0, SIG_BUY_100_AT_1000_NONCE_0)
        .unwrap();
    let r = contract.claim_ido_token(&env(2000, 0), &mut ledger, 3000, 1, 100, SIG_CLAIM_2_AT_3000_NONCE_1);
    assert_eq!(r, Err(IDOError::InvalidSignature));
    assert_eq!(contract.get_ido_token_balance(buyer()), 100);
    assert!(ledger.transfers.is_empty());
}

#[test]
fn claim_that_the_ledger_refuses_keeps_the_allocated_balance() {
    let mut contract = sale();
    let mut ledger = ScriptedLedger::new(false).holding(me(), 500);
    contract
        .buy_ido_with_native(&env(1000, 100), 1000, 0, SIG_BUY_100_AT_1000_NONCE_0)
        .unwrap();
    let r = contract.claim_ido_token(&env(2000, 0), &mut ledger, 3000, 1, 100, SIG_CLAIM_100_AT_3000_NONCE_1);
    assert_eq!(r, Err(IDOError::TransferFailed));
    assert_eq!(contract.get_ido_token_balance(buyer()), 100);
    assert_eq!(contract.get_nonce(buyer()), 2);
    assert_eq!(ledger.transfers.len(), 1);
}

#[test]
fn claim_from_a_paused_token_fails_as_a_transfer() {
    let mut contract = sale();
    let mut ledger = reserve(5000);
    ledger.change_pause_state(&env_of(me())).unwrap();
    contract
        .buy_ido_with_native(&env(1000, 100), 1000, 0, SIG_BUY_100_AT_1000_NONCE_0)
        .unwrap();
    let r = contract.claim_ido_token(&env(2000, 0), &mut ledger, 3000, 1, 100, SIG_CLAIM_100_AT_3000_NONCE_1);
    assert_eq!(r, Err(IDOError::TransferFailed));
    assert_eq!(contract.get_ido_token_balance(buyer()), 100);
    assert_eq!(ledger.balance_of(buyer()), 0);
}

#[test]
fn claim_with_a_stale_deadline_or_nonce_is_refused() {
    let mut contract = sale();
    let mut ledger = ScriptedLedger::new(true).holding(me(), 500);
    let r = contract.claim_ido_token(&env(3001, 0), &mut ledger, 3000, 0, 100, SIG_CLAIM_100_AT_3000_NONCE_0);
    assert_eq!(r, Err(IDOError::Expired));
    let r = contract.claim_ido_token(&env(3000, 0), &mut ledger, 3000, 1, 100, SIG_CLAIM_100_AT_3000_NONCE_1);
    assert_eq!(r, Err(IDOError::InvalidNonce));
    assert_eq!(contract.get_nonce(buyer()), 0);
    let r = contract.claim_ido_token(&env(3000, 0), &mut ledger, 3000, 0, 100, SIG_CLAIM_100_AT_3000_NONCE_0);
    assert_eq!(r, Err(IDOError::InsufficientAllocated));
    assert_eq!(contract.get_nonce(buyer()), 1);
}

#[test]
fn only_the_owner_grants_roles() {
    let mut contract = sale();
    assert_eq!(contract.grant_role(&env_of(buyer()), SUB_ADMIN, buyer()), Err(IDOError::NotAuthorized));
    assert_eq!(contract.is_role_granted(SUB_ADMIN, buyer()), Ok(false));
    assert_eq!(contract.grant_role(&env_of(owner()), SUB_ADMIN, buyer()), Ok(()));
    assert_eq!(contract.is_role_granted(SUB_ADMIN, buyer()), Ok(true));
    assert_eq!(contract.is_role_granted(SUB_ADMIN + 1, buyer()), Ok(false));
    assert_eq!(contract.revoke_role(&env_of(buyer()), SUB_ADMIN, buyer()), Err(IDOError::NotAuthorized));
    assert_eq!(contract.revoke_role(&env_of(owner()), SUB_ADMIN, buyer()), Ok(()));
    assert_eq!(contract.is_role_granted(SUB_ADMIN, buyer()), Ok(false));
}

#[test]
fn only_a_sub_admin_sets_price_signer_and_cap() {
    let mut contract = sale();
    let admin = account(7);
    // Not even the owner, without the role.
    assert_eq!(contract.admin_set_price(&env_of(owner()), 20), Err(IDOError::NotAuthorized));
    assert_eq!(contract.set_signer(&env_of(owner()), account(8)), Err(IDOError::NotAuthorized));
    assert_eq!(
        contract.admin_set_max_issue_ido_amount(&env_of(owner()), 5),
        Err(IDOError::NotAuthorized)
    );
    assert_eq!(contract.get_price(), 10);
    contract.grant_role(&env_of(owner()), SUB_ADMIN, admin).unwrap();
    assert_eq!(contract.admin_set_price(&env_of(admin), 20), Ok(PriceChanged { price: 20 }));
    assert_eq!(contract.get_price(), 20);
    assert_eq!(
        contract.set_signer(&env_of(admin), account(8)),
        Ok(SignerChanged { signer: account(8) })
    );
    assert_eq!(contract.get_signer(), account(8));
    assert_eq!(contract.admin_set_max_issue_ido_amount(&env_of(admin), 5), Ok(()));
    assert_eq!(contract.get_max_issue_ido_amount(), 5);
}

#[test]
fn new_price_applies_to_the_next_purchase() {
    let mut contract = sale();
    contract.grant_role(&env_of(owner()), SUB_ADMIN, owner()).unwrap();
    contract.admin_set_price(&env_of(owner()), 25).unwrap();
    // 100 * 25 / 10 = 250.
    let r = contract.buy_ido_with_native(&env(1000, 100), 1000, 0, SIG_BUY_100_AT_1000_NONCE_0);
    assert_eq!(r.map(|e| e.ido_token_amount), Ok(250));
}

#[test]
fn only_the_owner_transfers_ownership_and_sets_code() {
    let mut contract = sale();
    assert_eq!(contract.transfer_ownership(&env_of(buyer()), buyer()), Err(IDOError::NotAuthorized));
    assert_eq!(contract.set_code(&env_of(buyer()), [3; 32]), Err(IDOError::NotAuthorized));
    assert_eq!(contract.set_code(&env_of(owner()), [3; 32]), Ok([3; 32]));
    assert_eq!(contract.transfer_ownership(&env_of(owner()), buyer()), Ok(()));
    assert_eq!(contract.owner(), buyer());
    assert_eq!(contract.transfer_ownership(&env_of(owner()), owner()), Err(IDOError::NotAuthorized));
}
