use vstd::prelude::*;
use vstd::string::*;
use vstd::utf8::encode_utf8;
use crate::access::{granted_of, AccessControl, AccessState, RoleType};
use crate::account::{is_zero_address, AccountId, Balance, Env, Timestamp};
use crate::codec::{
    authorization_message, authorization_text, authorization_text_is_injective,
};
use crate::psp22::{ledger_env, spec_ledger_env, PSP22};
use crate::replay::{nonces_after, replay_verdict, value_or_zero, Rejected, ReplayGuard};
use crate::signature::{signature_valid, verify};
use crate::table::{map_of, Table};

verus! {

/// The role whose holders may set the price, the signer and the cap.
pub const SUB_ADMIN: RoleType = 0x85593a07;

/// Why a sale contract turned a request away.
#[derive(Clone, Copy, Debug, PartialEq, Eq)]
pub enum IDOError {
    /// The deadline of the request has passed.
    Expired,
    /// The nonce is not the next one of the caller.
    InvalidNonce,
    /// The signature is malformed or is not the signer's.
    InvalidSignature,
    /// The allocated amount, or a sum that holds it, does not fit.
    ArithmeticError,
    /// The purchase would raise the issued amount above the cap.
    CapExceeded,
    /// The contract holds fewer tokens than the claim asks for.
    InsufficientReserve,
    /// The caller has fewer allocated tokens than the claim asks for.
    InsufficientAllocated,
    /// The token ledger refused the transfer.
    TransferFailed,
    /// The caller may not change the configuration.
    NotAuthorized,
}

/// A sale contract was set up.
#[derive(Clone, Copy, Debug, PartialEq, Eq)]
pub struct InitIdoContract {
    /// The token on sale.
    pub ido_token: AccountId,
    /// Tokens allocated for `10^price_decimals` units of native currency.
    pub price: u128,
    pub price_decimals: u32,
    /// The account whose signature authorizes a request.
    pub signer: AccountId,
    /// The cap on the tokens that the contract may allocate in all.
    pub max_issue_ido_amount: u128,
}

/// A purchase was settled.
#[derive(Clone, Copy, Debug, PartialEq, Eq)]
pub struct BuyTokenWithNative {
    pub buyer: AccountId,
    /// The native currency that was paid.
    pub native_amount: u128,
    /// The tokens allocated to the buyer and not yet claimed, this purchase
    /// included.
    pub ido_token_amount: u128,
    pub nonce: u128,
}

/// A claim was settled.
#[derive(Clone, Copy, Debug, PartialEq, Eq)]
pub struct ClaimToken {
    pub buyer: AccountId,
    /// The tokens that were handed to the buyer.
    pub ido_token_amount: u128,
    pub nonce: u128,
}

/// The price was set.
#[derive(Clone, Copy, Debug, PartialEq, Eq)]
pub struct PriceChanged {
    pub price: u128,
}

/// The signer was set.
#[derive(Clone, Copy, Debug, PartialEq, Eq)]
pub struct SignerChanged {
    pub signer: AccountId,
}

/// The settings and balances of a sale, as plain storage.
pub struct Data {
    pub ido_token: AccountId,
    pub price: u128,
    pub price_decimals: u32,
    pub signer: AccountId,
    /// The tokens allocated to each account.
    pub user_ido_balances: Table<AccountId, Balance>,
    /// The tokens that each account has claimed.
    pub user_claim_amount: Table<AccountId, Balance>,
}

impl Default for Data {
    /// No token and no signer, price zero with five decimals, no balance.
    fn default() -> (data: Self)
        ensures
            is_zero_address(data.ido_token),
            data.price == 0,
            data.price_decimals == 5,
            is_zero_address(data.signer),
            data.user_ido_balances@ == Map::<AccountId, Balance>::empty(),
            data.user_claim_amount@ == Map::<AccountId, Balance>::empty(),
    {
        Data {
            ido_token: AccountId::zero_address(),
            price: 0,
            price_decimals: 5,
            signer: AccountId::zero_address(),
            user_ido_balances: Table::new(),
            user_claim_amount: Table::new(),
        }
    }
}

/// What a sale contract holds.
pub struct IdoState {
    pub ido_token: AccountId,
    pub price: u128,
    pub price_decimals: u32,
    pub signer: AccountId,
    /// The next nonce of each account that has one above zero.
    pub nonces: Map<AccountId, u128>,
    /// The tokens allocated to each account and not yet claimed.
    pub balances: Map<AccountId, u128>,
    pub max_issue_ido_amount: u128,
    pub issued_ido_amount: u128,
    pub access: AccessState,
}

/// What a sale contract holds, as plain data to store and to load.
pub struct IdoSnapshot {
    pub ido_token: AccountId,
    pub price: u128,
    pub price_decimals: u32,
    pub signer: AccountId,
    pub account_nonce: Vec<(AccountId, u128)>,
    pub user_ido_balances: Vec<(AccountId, u128)>,
    pub max_issue_ido_amount: u128,
    pub issued_ido_amount: u128,
    pub roles: Vec<((AccountId, RoleType), bool)>,
    pub owner: AccountId,
}

impl View for IdoSnapshot {
    type V = IdoState;

    /// The state that the data stands for. Where a list names a key twice,
    /// the last entry counts.
    open spec fn view(&self) -> IdoState {
        IdoState {
            ido_token: self.ido_token,
            price: self.price,
            price_decimals: self.price_decimals,
            signer: self.signer,
            nonces: map_of(self.account_nonce@),
            balances: map_of(self.user_ido_balances@),
            max_issue_ido_amount: self.max_issue_ido_amount,
            issued_ido_amount: self.issued_ido_amount,
            access: AccessState { owner: self.owner, granted: granted_of(map_of(self.roles@)) },
        }
    }
}

/// Ten to the power `e`.
pub open spec fn pow10(e: nat) -> nat
    decreases e,
{
    if e == 0 {
        1
    } else {
        10 * pow10((e - 1) as nat)
    }
}

/// The tokens allocated for `native_amount` units of native currency:
/// `native_amount * price / 10^price_decimals`, rounded down. `None` where the
/// product or the power of ten does not fit in 128 bits.
pub open spec fn allocation(native_amount: u128, price: u128, price_decimals: u32) -> Option<u128> {
    if native_amount * price > u128::MAX || pow10(price_decimals as nat) > u128::MAX {
        None
    } else {
        Some((native_amount * price / pow10(price_decimals as nat) as int) as u128)
    }
}

/// The message that the signer signs for a purchase. It names the sale
/// contract that the purchase is made at, so that it authorizes a purchase at
/// no other sale.
pub open spec fn buy_message(
    contract: AccountId,
    buyer: AccountId,
    native_amount: u128,
    deadline: Timestamp,
    nonce: u128,
) -> Seq<char> {
    authorization_text(
        "buy_ido_"@,
        contract,
        buyer,
        seq![native_amount, deadline as u128, nonce],
    )
}

/// The message that the signer signs for a claim. It names the sale contract
/// that the claim is made at, so that it authorizes a claim at no other sale.
pub open spec fn claim_message(
    contract: AccountId,
    buyer: AccountId,
    amount: u128,
    deadline: Timestamp,
    nonce: u128,
) -> Seq<char> {
    authorization_text("claim_ido_token_"@, contract, buyer, seq![amount, deadline as u128, nonce])
}

/// The state with the nonce of a request consumed, where the guard lets the
/// request through, and the error with which it is turned away, where not.
pub open spec fn pass_guard(s: IdoState, env: Env, deadline: Timestamp, nonce: u128) -> Result<
    IdoState,
    IDOError,
> {
    match replay_verdict(value_or_zero(s.nonces, env.caller), nonce, deadline, env.block_timestamp) {
        Ok(_) => Ok(
            IdoState {
                nonces: nonces_after(s.nonces, env.caller, nonce, deadline, env.block_timestamp),
                ..s
            },
        ),
        Err(Rejected::Expired) => Err(IDOError::Expired),
        Err(Rejected::InvalidNonce) => Err(IDOError::InvalidNonce),
    }
}

/// What settling a purchase does once the nonce is consumed: the state that
/// it leaves and what it answers. `authorized` says whether the signature was
/// the signer's.
pub open spec fn settle_buy_outcome(
    s: IdoState,
    buyer: AccountId,
    native_amount: u128,
    nonce: u128,
    authorized: bool,
) -> (IdoState, Result<BuyTokenWithNative, IDOError>) {
    let held = value_or_zero(s.balances, buyer);
    if !authorized {
        (s, Err(IDOError::InvalidSignature))
    } else {
        match allocation(native_amount, s.price, s.price_decimals) {
            None => (s, Err(IDOError::ArithmeticError)),
            Some(allocated) => if s.issued_ido_amount + allocated > s.max_issue_ido_amount {
                (s, Err(IDOError::CapExceeded))
            } else if held + allocated > u128::MAX {
                (s, Err(IDOError::ArithmeticError))
            } else {
                (
                    IdoState {
                        issued_ido_amount: (s.issued_ido_amount + allocated) as u128,
                        balances: s.balances.insert(buyer, (held + allocated) as u128),
                        ..s
                    },
                    Ok(
                        BuyTokenWithNative {
                            buyer,
                            native_amount,
                            ido_token_amount: (held + allocated) as u128,
                            nonce,
                        },
                    ),
                )
            },
        }
    }
}

/// What a purchase does: the state that it leaves and what it answers.
pub open spec fn buy_outcome(
    s: IdoState,
    env: Env,
    deadline: Timestamp,
    nonce: u128,
    authorized: bool,
) -> (IdoState, Result<BuyTokenWithNative, IDOError>) {
    match pass_guard(s, env, deadline, nonce) {
        Err(e) => (s, Err(e)),
        Ok(passed) => settle_buy_outcome(
            passed,
            env.caller,
            env.transferred_value,
            nonce,
            authorized,
        ),
    }
}

/// Whether settling a claim asks the ledger for a transfer: the signature
/// was the signer's and the buyer has the tokens.
pub open spec fn settle_claim_transfers(
    s: IdoState,
    buyer: AccountId,
    amount: u128,
    authorized: bool,
) -> bool {
    authorized && value_or_zero(s.balances, buyer) >= amount
}

/// What settling a claim does once the nonce is consumed and the reserve was
/// found sufficient. `transferred` says whether the ledger carried out the
/// transfer; it counts only where the ledger is asked.
pub open spec fn settle_claim_outcome(
    s: IdoState,
    buyer: AccountId,
    amount: u128,
    nonce: u128,
    authorized: bool,
    transferred: bool,
) -> (IdoState, Result<ClaimToken, IDOError>) {
    let held = value_or_zero(s.balances, buyer);
    if !authorized {
        (s, Err(IDOError::InvalidSignature))
    } else if held < amount {
        (s, Err(IDOError::InsufficientAllocated))
    } else if !transferred {
        (s, Err(IDOError::TransferFailed))
    } else {
        (
            IdoState { balances: s.balances.insert(buyer, (held - amount) as u128), ..s },
            Ok(ClaimToken { buyer, ido_token_amount: amount, nonce }),
        )
    }
}

/// Whether a claim asks the ledger for a transfer. `reserve` is the number of
/// tokens that the contract holds.
pub open spec fn claim_transfers(
    s: IdoState,
    env: Env,
    deadline: Timestamp,
    nonce: u128,
    amount: u128,
    reserve: Balance,
    authorized: bool,
) -> bool {
    pass_guard(s, env, deadline, nonce) is Ok && reserve >= amount && settle_claim_transfers(
        s,
        env.caller,
        amount,
        authorized,
    )
}

/// What a claim does: the state that it leaves and what it answers.
pub open spec fn claim_outcome(
    s: IdoState,
    env: Env,
    deadline: Timestamp,
    nonce: u128,
    amount: u128,
    reserve: Balance,
    authorized: bool,
    transferred: bool,
) -> (IdoState, Result<ClaimToken, IDOError>) {
    match pass_guard(s, env, deadline, nonce) {
        Err(e) => (s, Err(e)),
        Ok(passed) => if reserve < amount {
            (passed, Err(IDOError::InsufficientReserve))
        } else {
            settle_claim_outcome(passed, env.caller, amount, nonce, authorized, transferred)
        },
    }
}

/// Ten to the power `e`, where it fits in 128 bits.
pub fn checked_pow10(e: u32) -> (r: Option<u128>)
    ensures
        r == if pow10(e as nat) <= u128::MAX {
            Some(pow10(e as nat) as u128)
        } else {
            None::<u128>
        },
{
    let mut power: u128 = 1;
    let mut i: u32 = 0;
    while i < e
        invariant
            i <= e,
            power == pow10(i as nat),
        decreases e - i,
    {
        match power.checked_mul(10) {
            Some(next) => {
                power = next;
            },
            None => {
                proof {
                    lemma_pow10_grows((i + 1) as nat, e as nat);
                }
                return None;
            },
        }
        i += 1;
    }
    Some(power)
}

proof fn lemma_pow10_grows(a: nat, b: nat)
    requires
        a <= b,
    ensures
        1 <= pow10(a) <= pow10(b),
    decreases b,
{
    if a == 0 && b > 0 {
        lemma_pow10_grows(0, (b - 1) as nat);
    } else if a < b {
        lemma_pow10_grows(a, (b - 1) as nat);
    } else if a > 0 {
        lemma_pow10_grows((a - 1) as nat, (b - 1) as nat);
    }
}

/// The tokens allocated for `native_amount` units of native currency.
pub fn allocate(native_amount: u128, price: u128, price_decimals: u32) -> (r: Option<u128>)
    ensures
        r == allocation(native_amount, price, price_decimals),
{
    let product = match native_amount.checked_mul(price) {
        Some(product) => product,
        None => {
            return None;
        },
    };
    let unit = match checked_pow10(price_decimals) {
        Some(unit) => unit,
        None => {
            return None;
        },
    };
    proof {
        lemma_pow10_grows(0, price_decimals as nat);
    }
    Some(product / unit)
}

/// A contract that sells a token for native currency and hands the tokens
/// out on claim, each request authorized by a signature of the signer.
pub struct IdoContract {
    ido_token: AccountId,
    price: u128,
    price_decimals: u32,
    signer: AccountId,
    guard: ReplayGuard,
    user_ido_balances: Table<AccountId, u128>,
    max_issue_ido_amount: u128,
    issued_ido_amount: u128,
    access: AccessControl,
}

impl View for IdoContract {
    type V = IdoState;

    closed spec fn view(&self) -> IdoState {
        IdoState {
            ido_token: self.ido_token,
            price: self.price,
            price_decimals: self.price_decimals,
            signer: self.signer,
            nonces: self.guard@,
            balances: self.user_ido_balances@,
            max_issue_ido_amount: self.max_issue_ido_amount,
            issued_ido_amount: self.issued_ido_amount,
            access: self.access@,
        }
    }
}

impl IdoContract {
    /// Sets up a sale: nothing is issued, no nonce is consumed, no role is
    /// granted.
    pub fn new(
        owner: AccountId,
        ido_token: AccountId,
        signer: AccountId,
        price: u128,
        price_decimals: u32,
        max_issue_ido_amount: u128,
    ) -> (r: (Self, InitIdoContract))
        ensures
            r.0@ == (IdoState {
                ido_token,
                price,
                price_decimals,
                signer,
                nonces: Map::empty(),
                balances: Map::empty(),
                max_issue_ido_amount,
                issued_ido_amount: 0,
                access: AccessState { owner, granted: Set::empty() },
            }),
            r.1 == (InitIdoContract {
                ido_token,
                price,
                price_decimals,
                signer,
                max_issue_ido_amount,
            }),
    {
        let contract = IdoContract {
            ido_token,
            price,
            price_decimals,
            signer,
            guard: ReplayGuard::new(),
            user_ido_balances: Table::new(),
            max_issue_ido_amount,
            issued_ido_amount: 0,
            access: AccessControl::new(owner),
        };
        let event = InitIdoContract { ido_token, price, price_decimals, signer, max_issue_ido_amount };
        (contract, event)
    }

    /// The contract as plain data.
    pub fn snapshot(&self) -> (data: IdoSnapshot)
        ensures
            data@ == self@,
    {
        IdoSnapshot {
            ido_token: self.ido_token,
            price: self.price,
            price_decimals: self.price_decimals,
            signer: self.signer,
            account_nonce: self.guard.to_vec(),
            user_ido_balances: self.user_ido_balances.to_vec(),
            max_issue_ido_amount: self.max_issue_ido_amount,
            issued_ido_amount: self.issued_ido_amount,
            roles: self.access.roles_to_vec(),
            owner: self.access.owner(),
        }
    }

    /// The contract that plain data stands for.
    pub fn restore(data: &IdoSnapshot) -> (contract: Self)
        ensures
            contract@ == data@,
    {
        IdoContract {
            ido_token: data.ido_token,
            price: data.price,
            price_decimals: data.price_decimals,
            signer: data.signer,
            guard: ReplayGuard::from_vec(&data.account_nonce),
            user_ido_balances: Table::from_vec(&data.user_ido_balances),
            max_issue_ido_amount: data.max_issue_ido_amount,
            issued_ido_amount: data.issued_ido_amount,
            access: AccessControl::from_parts(data.owner, &data.roles),
        }
    }

    /// The tokens allocated to `account` and not yet claimed.
    pub fn get_ido_token_balance(&self, account: AccountId) -> (balance: u128)
        ensures
            balance == value_or_zero(self@.balances, account),
    {
        match self.user_ido_balances.get(&account) {
            Some(balance) => balance,
            None => 0,
        }
    }

    /// The owner of the contract.
    pub fn owner(&self) -> (owner: AccountId)
        ensures
            owner == self@.access.owner,
    {
        self.access.owner()
    }

    /// The signer whose signature authorizes a request.
    pub fn get_signer(&self) -> (signer: AccountId)
        ensures
            signer == self@.signer,
    {
        self.signer
    }

    /// The token on sale.
    pub fn get_ido_token(&self) -> (token: AccountId)
        ensures
            token == self@.ido_token,
    {
        self.ido_token
    }

    /// The next nonce of `account`.
    pub fn get_nonce(&self, account: AccountId) -> (nonce: u128)
        ensures
            nonce == value_or_zero(self@.nonces, account),
    {
        self.guard.current_nonce(account)
    }

    /// The price.
    pub fn get_price(&self) -> (price: u128)
        ensures
            price == self@.price,
    {
        self.price
    }

    /// The tokens issued so far.
    pub fn get_issued_ido_amount(&self) -> (issued: u128)
        ensures
            issued == self@.issued_ido_amount,
    {
        self.issued_ido_amount
    }

    /// The cap on the tokens issued.
    pub fn get_max_issue_ido_amount(&self) -> (cap: u128)
        ensures
            cap == self@.max_issue_ido_amount,
    {
        self.max_issue_ido_amount
    }

    /// Whether `user` holds `role`.
    pub fn is_role_granted(&self, role: RoleType, user: AccountId) -> (r: Result<bool, IDOError>)
        ensures
            r == Ok::<bool, IDOError>(self@.access.granted.contains((user, role))),
    {
        Ok(self.access.is_role_granted(role, user))
    }

    /// Answers the code hash that the owner asks the host to install, and
    /// refuses any other caller.
    pub fn set_code(&self, env: &Env, code_hash: [u8; 32]) -> (r: Result<[u8; 32], IDOError>)
        ensures
            r == if env.caller == self@.access.owner {
                Ok::<[u8; 32], IDOError>(code_hash)
            } else {
                Err::<[u8; 32], IDOError>(IDOError::NotAuthorized)
            },
    {
        if self.access.is_owner(&env.caller) {
            Ok(code_hash)
        } else {
            Err(IDOError::NotAuthorized)
        }
    }

    /// Makes `new_owner` the owner, if the caller is the owner.
    pub fn transfer_ownership(&mut self, env: &Env, new_owner: AccountId) -> (r: Result<
        (),
        IDOError,
    >)
        ensures
            r == if env.caller == old(self)@.access.owner {
                Ok::<(), IDOError>(())
            } else {
                Err::<(), IDOError>(IDOError::NotAuthorized)
            },
            final(self)@ == if r is Ok {
                IdoState {
                    access: AccessState { owner: new_owner, ..old(self)@.access },
                    ..old(self)@
                }
            } else {
                old(self)@
            },
    {
        match self.access.transfer_ownership(&env.caller, new_owner) {
            Ok(()) => Ok(()),
            Err(_) => Err(IDOError::NotAuthorized),
        }
    }

    /// Grants `role` to `user`, if the caller is the owner.
    pub fn grant_role(&mut self, env: &Env, role: RoleType, user: AccountId) -> (r: Result<
        (),
        IDOError,
    >)
        ensures
            r == if env.caller == old(self)@.access.owner {
                Ok::<(), IDOError>(())
            } else {
                Err::<(), IDOError>(IDOError::NotAuthorized)
            },
            final(self)@ == if r is Ok {
                IdoState {
                    access: AccessState {
                        granted: old(self)@.access.granted.insert((user, role)),
                        ..old(self)@.access
                    },
                    ..old(self)@
                }
            } else {
                old(self)@
            },
    {
        match self.access.grant_role(&env.caller, role, user) {
            Ok(()) => Ok(()),
            Err(_) => Err(IDOError::NotAuthorized),
        }
    }

    /// Takes `role` from `user`, if the caller is the owner.
    pub fn revoke_role(&mut self, env: &Env, role: RoleType, user: AccountId) -> (r: Result<
        (),
        IDOError,
    >)
        ensures
            r == if env.caller == old(self)@.access.owner {
                Ok::<(), IDOError>(())
            } else {
                Err::<(), IDOError>(IDOError::NotAuthorized)
            },
            final(self)@ == if r is Ok {
                IdoState {
                    access: AccessState {
                        granted: old(self)@.access.granted.remove((user, role)),
                        ..old(self)@.access
                    },
                    ..old(self)@
                }
            } else {
                old(self)@
            },
    {
        match self.access.revoke_role(&env.caller, role, user) {
            Ok(()) => Ok(()),
            Err(_) => Err(IDOError::NotAuthorized),
        }
    }

    /// Sets the signer, if the caller is a sub-admin.
    pub fn set_signer(&mut self, env: &Env, new_signer: AccountId) -> (r: Result<
        SignerChanged,
        IDOError,
    >)
        ensures
            r == if old(self)@.access.granted.contains((env.caller, SUB_ADMIN)) {
                Ok::<SignerChanged, IDOError>(SignerChanged { signer: new_signer })
            } else {
                Err::<SignerChanged, IDOError>(IDOError::NotAuthorized)
            },
            final(self)@ == if r is Ok {
                IdoState { signer: new_signer, ..old(self)@ }
            } else {
                old(self)@
            },
    {
        if !self.access.is_role_granted(SUB_ADMIN, env.caller) {
            return Err(IDOError::NotAuthorized);
        }
        self.signer = new_signer;
        Ok(SignerChanged { signer: new_signer })
    }

    /// Sets the price, if the caller is a sub-admin.
    pub fn admin_set_price(&mut self, env: &Env, new_price: u128) -> (r: Result<
        PriceChanged,
        IDOError,
    >)
        ensures
            r == if old(self)@.access.granted.contains((env.caller, SUB_ADMIN)) {
                Ok::<PriceChanged, IDOError>(PriceChanged { price: new_price })
            } else {
                Err::<PriceChanged, IDOError>(IDOError::NotAuthorized)
            },
            final(self)@ == if r is Ok {
                IdoState { price: new_price, ..old(self)@ }
            } else {
                old(self)@
            },
    {
        if !self.access.is_role_granted(SUB_ADMIN, env.caller) {
            return Err(IDOError::NotAuthorized);
        }
        self.price = new_price;
        Ok(PriceChanged { price: new_price })
    }

    /// Sets the cap on the tokens issued, if the caller is a sub-admin.
    pub fn admin_set_max_issue_ido_amount(&mut self, env: &Env, new_cap: u128) -> (r: Result<
        (),
        IDOError,
    >)
        ensures
            r == if old(self)@.access.granted.contains((env.caller, SUB_ADMIN)) {
                Ok::<(), IDOError>(())
            } else {
                Err::<(), IDOError>(IDOError::NotAuthorized)
            },
            final(self)@ == if r is Ok {
                IdoState { max_issue_ido_amount: new_cap, ..old(self)@ }
            } else {
                old(self)@
            },
    {
        if !self.access.is_role_granted(SUB_ADMIN, env.caller) {
            return Err(IDOError::NotAuthorized);
        }
        self.max_issue_ido_amount = new_cap;
        Ok(())
    }

    /// The message that the signer signs for a purchase by the caller at
    /// this contract.
    pub fn gen_msg_for_buy_token(
        &self,
        env: &Env,
        deadline: Timestamp,
        nonce: u128,
        received_value: u128,
    ) -> (message: String)
        ensures
            message@ == buy_message(env.account_id, env.caller, received_value, deadline, nonce),
    {
        let mut numbers: Vec<u128> = Vec::new();
        numbers.push(received_value);
        numbers.push(deadline as u128);
        numbers.push(nonce);
        assert(numbers@ =~= seq![received_value, deadline as u128, nonce]);
        authorization_message("buy_ido_", &env.account_id, &env.caller, &numbers)
    }

    /// The message that the signer signs for a claim by the caller at this
    /// contract.
    pub fn gen_msg_for_claim_token(
        &self,
        env: &Env,
        deadline: Timestamp,
        nonce: u128,
        amount: u128,
    ) -> (message: String)
        ensures
            message@ == claim_message(env.account_id, env.caller, amount, deadline, nonce),
    {
        let mut numbers: Vec<u128> = Vec::new();
        numbers.push(amount);
        numbers.push(deadline as u128);
        numbers.push(nonce);
        assert(numbers@ =~= seq![amount, deadline as u128, nonce]);
        authorization_message("claim_ido_token_", &env.account_id, &env.caller, &numbers)
    }

    /// Whether `signature` is the signer's signature of `msg`.
    pub fn verify_signature(&self, signature: [u8; 65], msg: String) -> (r: bool)
        ensures
            r == signature_valid(encode_utf8(msg@), self@.signer, signature@),
    {
        self._verify(msg, self.signer, signature)
    }

    fn _verify(&self, data: String, signer: AccountId, signature: [u8; 65]) -> (r: bool)
        ensures
            r == signature_valid(encode_utf8(data@), signer, signature@),
    {
        verify(data.as_str(), &signer, &signature)
    }

    fn pass_guard(&mut self, env: &Env, deadline: Timestamp, nonce: u128) -> (r: Result<(), IDOError>)
        ensures
            match pass_guard(old(self)@, *env, deadline, nonce) {
                Ok(passed) => r is Ok && final(self)@ == passed,
                Err(e) => r == Err::<(), IDOError>(e) && final(self)@ == old(self)@,
            },
    {
        match self.guard.check_and_advance(env.caller, nonce, deadline, env.block_timestamp) {
            Ok(()) => Ok(()),
            Err(Rejected::Expired) => Err(IDOError::Expired),
            Err(Rejected::InvalidNonce) => Err(IDOError::InvalidNonce),
        }
    }

    /// Settles a purchase whose nonce is consumed: refuses it where the
    /// signature was not the signer's, allocates the tokens that the native
    /// amount buys, and refuses it where they would exceed the cap.
    pub fn settle_buy(
        &mut self,
        buyer: AccountId,
        native_amount: u128,
        nonce: u128,
        authorized: bool,
    ) -> (r: Result<BuyTokenWithNative, IDOError>)
        ensures
            (final(self)@, r) == settle_buy_outcome(
                old(self)@,
                buyer,
                native_amount,
                nonce,
                authorized,
            ),
    {
        if !authorized {
            return Err(IDOError::InvalidSignature);
        }
        let allocated = match allocate(native_amount, self.price, self.price_decimals) {
            Some(allocated) => allocated,
            None => {
                return Err(IDOError::ArithmeticError);
            },
        };
        let issued = match self.issued_ido_amount.checked_add(allocated) {
            Some(issued) => issued,
            None => {
                return Err(IDOError::CapExceeded);
            },
        };
        if issued > self.max_issue_ido_amount {
            return Err(IDOError::CapExceeded);
        }
        let held = self.get_ido_token_balance(buyer);
        let total = match held.checked_add(allocated) {
            Some(total) => total,
            None => {
                return Err(IDOError::ArithmeticError);
            },
        };
        self.issued_ido_amount = issued;
        self.user_ido_balances.insert(buyer, total);
        Ok(BuyTokenWithNative { buyer, native_amount, ido_token_amount: total, nonce })
    }

    /// Buys tokens with the native currency attached to the call.
    ///
    /// The nonce is consumed before the signature is looked at: a request
    /// that the guard admits and that fails later has still used its nonce.
    pub fn buy_ido_with_native(
        &mut self,
        env: &Env,
        deadline: Timestamp,
        nonce: u128,
        signature: [u8; 65],
    ) -> (r: Result<BuyTokenWithNative, IDOError>)
        ensures
            (final(self)@, r) == buy_outcome(
                old(self)@,
                *env,
                deadline,
                nonce,
                signature_valid(
                    encode_utf8(
                        buy_message(
                            env.account_id,
                            env.caller,
                            env.transferred_value,
                            deadline,
                            nonce,
                        ),
                    ),
                    old(self)@.signer,
                    signature@,
                ),
            ),
    {
        match self.pass_guard(env, deadline, nonce) {
            Ok(()) => {},
            Err(e) => {
                return Err(e);
            },
        }
        let received_value = env.transferred_value;
        let message = self.gen_msg_for_buy_token(env, deadline, nonce, received_value);
        let authorized = self._verify(message, self.signer, signature);
        self.settle_buy(env.caller, received_value, nonce, authorized)
    }

    /// Settles a claim whose nonce is consumed and for which the contract
    /// holds enough tokens: refuses it where the signature was not the
    /// signer's or the buyer has too few allocated tokens, and else asks the
    /// ledger to hand the tokens to the buyer. The allocated balance goes down
    /// only where the ledger carried out the transfer.
    pub fn settle_claim<L: PSP22>(
        &mut self,
        env: &Env,
        ledger: &mut L,
        amount: u128,
        nonce: u128,
        authorized: bool,
    ) -> (r: Result<ClaimToken, IDOError>)
        ensures
            (final(self)@, r) == settle_claim_outcome(
                old(self)@,
                env.caller,
                amount,
                nonce,
                authorized,
                old(ledger).accepts_transfer(
                    spec_ledger_env(*env, old(self)@.ido_token),
                    env.caller,
                    amount,
                ),
            ),
            if settle_claim_transfers(old(self)@, env.caller, amount, authorized) {
                final(ledger).follows_transfer(
                    old(ledger),
                    spec_ledger_env(*env, old(self)@.ido_token),
                    env.caller,
                    amount,
                )
            } else {
                *final(ledger) == *old(ledger)
            },
    {
        if !authorized {
            return Err(IDOError::InvalidSignature);
        }
        let buyer = env.caller;
        let held = self.get_ido_token_balance(buyer);
        if held < amount {
            return Err(IDOError::InsufficientAllocated);
        }
        let callee = ledger_env(*env, self.ido_token);
        match ledger.transfer(&callee, buyer, amount, Vec::new()) {
            Ok(()) => {},
            Err(_) => {
                return Err(IDOError::TransferFailed);
            },
        }
        self.user_ido_balances.insert(buyer, held - amount);
        Ok(ClaimToken { buyer, ido_token_amount: amount, nonce })
    }

    /// Claims `amount` of the tokens allocated to the caller.
    ///
    /// The nonce is consumed first, as in a purchase. Then the contract must
    /// hold `amount` tokens on the ledger, the signature must be the
    /// signer's, and the caller must have `amount` allocated tokens.
    pub fn claim_ido_token<L: PSP22>(
        &mut self,
        env: &Env,
        ledger: &mut L,
        deadline: Timestamp,
        nonce: u128,
        amount: u128,
        signature: [u8; 65],
    ) -> (r: Result<ClaimToken, IDOError>)
        ensures
            (final(self)@, r) == claim_outcome(
                old(self)@,
                *env,
                deadline,
                nonce,
                amount,
                old(ledger).spec_balance_of(env.account_id),
                signature_valid(
                    encode_utf8(
                        claim_message(env.account_id, env.caller, amount, deadline, nonce),
                    ),
                    old(self)@.signer,
                    signature@,
                ),
                old(ledger).accepts_transfer(
                    spec_ledger_env(*env, old(self)@.ido_token),
                    env.caller,
                    amount,
                ),
            ),
            if claim_transfers(
                old(self)@,
                *env,
                deadline,
                nonce,
                amount,
                old(ledger).spec_balance_of(env.account_id),
                signature_valid(
                    encode_utf8(
                        claim_message(env.account_id, env.caller, amount, deadline, nonce),
                    ),
                    old(self)@.signer,
                    signature@,
                ),
            ) {
                final(ledger).follows_transfer(
                    old(ledger),
                    spec_ledger_env(*env, old(self)@.ido_token),
                    env.caller,
                    amount,
                )
            } else {
                *final(ledger) == *old(ledger)
            },
    {
        match self.pass_guard(env, deadline, nonce) {
            Ok(()) => {},
            Err(e) => {
                return Err(e);
            },
        }
        if ledger.balance_of(env.account_id) < amount {
            return Err(IDOError::InsufficientReserve);
        }
        let message = self.gen_msg_for_claim_token(env, deadline, nonce, amount);
        let authorized = self._verify(message, self.signer, signature);
        self.settle_claim(env, ledger, amount, nonce, authorized)
    }
}

proof fn lemma_quotient_bounded(x: int, d: int)
    by (nonlinear_arith)
    requires
        x >= 0,
        d >= 1,
    ensures
        0 <= x / d <= x,
{
}

/// Where the allocation fits, it is the quotient itself: the cast to 128
/// bits changes nothing.
pub proof fn allocation_is_rounded_quotient(native_amount: u128, price: u128, price_decimals: u32)
    requires
        allocation(native_amount, price, price_decimals) is Some,
    ensures
        allocation(native_amount, price, price_decimals)->0 == native_amount * price / pow10(
            price_decimals as nat,
        ) as int,
{
    lemma_pow10_grows(0, price_decimals as nat);
    assert(native_amount * price >= 0) by (nonlinear_arith);
    lemma_quotient_bounded(native_amount * price, pow10(price_decimals as nat) as int);
}

/// A message binds the sale and every field of the request: two purchases
/// with the same message are made at the same sale contract, by the same
/// buyer, with the same native amount, deadline and nonce, and so it is with
/// two claims. A signature made for one sale authorizes nothing at another
/// sale, of the same token or of another.
pub proof fn sale_messages_bind_every_field(
    contract: AccountId,
    buyer: AccountId,
    amount: u128,
    deadline: Timestamp,
    nonce: u128,
    other_contract: AccountId,
    other_buyer: AccountId,
    other_amount: u128,
    other_deadline: Timestamp,
    other_nonce: u128,
)
    ensures
        buy_message(contract, buyer, amount, deadline, nonce) == buy_message(
            other_contract,
            other_buyer,
            other_amount,
            other_deadline,
            other_nonce,
        ) ==> contract == other_contract && buyer == other_buyer && amount == other_amount
            && deadline == other_deadline && nonce == other_nonce,
        claim_message(contract, buyer, amount, deadline, nonce) == claim_message(
            other_contract,
            other_buyer,
            other_amount,
            other_deadline,
            other_nonce,
        ) ==> contract == other_contract && buyer == other_buyer && amount == other_amount
            && deadline == other_deadline && nonce == other_nonce,
{
    let numbers = seq![amount, deadline as u128, nonce];
    let other_numbers = seq![other_amount, other_deadline as u128, other_nonce];
    if buy_message(contract, buyer, amount, deadline, nonce) == buy_message(
        other_contract,
        other_buyer,
        other_amount,
        other_deadline,
        other_nonce,
    ) {
        authorization_text_is_injective(
            "buy_ido_"@,
            contract,
            buyer,
            numbers,
            other_contract,
            other_buyer,
            other_numbers,
        );
        assert(numbers[0] == other_numbers[0]);
        assert(numbers[1] == other_numbers[1]);
        assert(numbers[2] == other_numbers[2]);
    }
    if claim_message(contract, buyer, amount, deadline, nonce) == claim_message(
        other_contract,
        other_buyer,
        other_amount,
        other_deadline,
        other_nonce,
    ) {
        authorization_text_is_injective(
            "claim_ido_token_"@,
            contract,
            buyer,
            numbers,
            other_contract,
            other_buyer,
            other_numbers,
        );
        assert(numbers[0] == other_numbers[0]);
        assert(numbers[1] == other_numbers[1]);
        assert(numbers[2] == other_numbers[2]);
    }
}

/// Every request consumes at most the one nonce that it names: whatever a
/// purchase or a claim answers, the counters after it are those that the
/// guard leaves, one higher for the caller where the guard let the request
/// through and unchanged where not.
pub proof fn request_consumes_its_nonce(
    s: IdoState,
    env: Env,
    deadline: Timestamp,
    nonce: u128,
    amount: u128,
    reserve: Balance,
    authorized: bool,
    transferred: bool,
)
    ensures
        buy_outcome(s, env, deadline, nonce, authorized).0.nonces == nonces_after(
            s.nonces,
            env.caller,
            nonce,
            deadline,
            env.block_timestamp,
        ),
        claim_outcome(
            s,
            env,
            deadline,
            nonce,
            amount,
            reserve,
            authorized,
            transferred,
        ).0.nonces == nonces_after(s.nonces, env.caller, nonce, deadline, env.block_timestamp),
{
}

/// A request that names a nonce below the caller's counter, and so one that
/// was consumed before, is answered with `InvalidNonce` and changes nothing,
/// however valid its signature is and however often it is sent. (Once its
/// deadline has passed it is answered with `Expired`, and changes nothing
/// either.)
pub proof fn consumed_nonce_is_refused(
    s: IdoState,
    env: Env,
    deadline: Timestamp,
    nonce: u128,
    amount: u128,
    reserve: Balance,
    authorized: bool,
    transferred: bool,
)
    requires
        nonce < value_or_zero(s.nonces, env.caller),
        deadline >= env.block_timestamp,
    ensures
        buy_outcome(s, env, deadline, nonce, authorized) == (
            s,
            Err::<BuyTokenWithNative, IDOError>(IDOError::InvalidNonce),
        ),
        claim_outcome(s, env, deadline, nonce, amount, reserve, authorized, transferred) == (
            s,
            Err::<ClaimToken, IDOError>(IDOError::InvalidNonce),
        ),
{
}

/// A purchase that succeeds raises the issued amount by exactly the tokens
/// that the native amount buys, keeps it within the cap, and credits the
/// buyer with the same tokens.
pub proof fn successful_buy_stays_within_cap(
    s: IdoState,
    env: Env,
    deadline: Timestamp,
    nonce: u128,
    authorized: bool,
)
    requires
        buy_outcome(s, env, deadline, nonce, authorized).1 is Ok,
    ensures
        allocation(env.transferred_value, s.price, s.price_decimals) is Some,
        ({
            let after = buy_outcome(s, env, deadline, nonce, authorized).0;
            let allocated = allocation(env.transferred_value, s.price, s.price_decimals)->0;
            &&& after.issued_ido_amount <= after.max_issue_ido_amount
            &&& after.issued_ido_amount == s.issued_ido_amount + allocated
            &&& value_or_zero(after.balances, env.caller) == value_or_zero(s.balances, env.caller)
                + allocated
            &&& allocated == env.transferred_value * s.price / pow10(s.price_decimals as nat) as int
        }),
{
    allocation_is_rounded_quotient(env.transferred_value, s.price, s.price_decimals);
}

/// A purchase that is refused changes nothing but the caller's counter: the
/// issued amount and every balance stay as they were.
pub proof fn refused_buy_issues_nothing(
    s: IdoState,
    env: Env,
    deadline: Timestamp,
    nonce: u128,
    authorized: bool,
)
    requires
        buy_outcome(s, env, deadline, nonce, authorized).1 is Err,
    ensures
        buy_outcome(s, env, deadline, nonce, authorized).0 == (IdoState {
            nonces: nonces_after(s.nonces, env.caller, nonce, deadline, env.block_timestamp),
            ..s
        }),
{
    assert(nonces_after(s.nonces, env.caller, nonce, deadline, env.block_timestamp) == s.nonces
        ==> s == (IdoState {
        nonces: nonces_after(s.nonces, env.caller, nonce, deadline, env.block_timestamp),
        ..s
    }));
}

/// A purchase followed by a claim of the tokens that it bought: where both
/// succeed, the buyer's allocated balance is what it was before the
/// purchase, zero for a buyer who held nothing, and the claim asks the ledger
/// to hand the buyer exactly `native_amount * price / 10^price_decimals`
/// tokens, rounded down.
pub proof fn buy_then_claim_round_trip(
    s: IdoState,
    buy_env: Env,
    buy_deadline: Timestamp,
    buy_nonce: u128,
    claim_env: Env,
    claim_deadline: Timestamp,
    claim_nonce: u128,
    reserve: Balance,
)
    requires
        claim_env.caller == buy_env.caller,
        buy_outcome(s, buy_env, buy_deadline, buy_nonce, true).1 is Ok,
        claim_outcome(
            buy_outcome(s, buy_env, buy_deadline, buy_nonce, true).0,
            claim_env,
            claim_deadline,
            claim_nonce,
            allocation(buy_env.transferred_value, s.price, s.price_decimals)->0,
            reserve,
            true,
            true,
        ).1 is Ok,
    ensures
        ({
            let bought = buy_outcome(s, buy_env, buy_deadline, buy_nonce, true).0;
            let allocated = allocation(buy_env.transferred_value, s.price, s.price_decimals)->0;
            let claimed = claim_outcome(
                bought,
                claim_env,
                claim_deadline,
                claim_nonce,
                allocated,
                reserve,
                true,
                true,
            );
            &&& allocated == buy_env.transferred_value * s.price / pow10(
                s.price_decimals as nat,
            ) as int
            &&& claim_transfers(
                bought,
                claim_env,
                claim_deadline,
                claim_nonce,
                allocated,
                reserve,
                true,
            )
            &&& claimed.1 == Ok::<ClaimToken, IDOError>(
                ClaimToken {
                    buyer: buy_env.caller,
                    ido_token_amount: allocated,
                    nonce: claim_nonce,
                },
            )
            &&& value_or_zero(claimed.0.balances, buy_env.caller) == value_or_zero(
                s.balances,
                buy_env.caller,
            )
            &&& value_or_zero(s.balances, buy_env.caller) == 0 ==> value_or_zero(
                claimed.0.balances,
                buy_env.caller,
            ) == 0
        }),
{
    allocation_is_rounded_quotient(buy_env.transferred_value, s.price, s.price_decimals);
}

/// When a purchase is answered with what: each answer comes on exactly the
/// requests named for it, the first that applies in this order.
pub proof fn buy_answers(s: IdoState, env: Env, deadline: Timestamp, nonce: u128, authorized: bool)
    ensures
        ({
            let r = buy_outcome(s, env, deadline, nonce, authorized).1;
            let current = value_or_zero(s.nonces, env.caller);
            let in_time = deadline >= env.block_timestamp;
            let in_order = nonce == current && current < u128::MAX;
            let allocated = allocation(env.transferred_value, s.price, s.price_decimals);
            let held = value_or_zero(s.balances, env.caller);
            &&& r == Err::<BuyTokenWithNative, IDOError>(IDOError::Expired) <==> !in_time
            &&& r == Err::<BuyTokenWithNative, IDOError>(IDOError::InvalidNonce) <==> in_time
                && !in_order
            &&& r == Err::<BuyTokenWithNative, IDOError>(IDOError::InvalidSignature) <==> in_time
                && in_order && !authorized
            &&& r == Err::<BuyTokenWithNative, IDOError>(IDOError::CapExceeded) <==> in_time
                && in_order && authorized && allocated is Some && s.issued_ido_amount
                + allocated->0 > s.max_issue_ido_amount
            &&& r == Err::<BuyTokenWithNative, IDOError>(IDOError::ArithmeticError) <==> in_time
                && in_order && authorized && (allocated is None || (s.issued_ido_amount
                + allocated->0 <= s.max_issue_ido_amount && held + allocated->0 > u128::MAX))
            &&& r is Ok <==> in_time && in_order && authorized && allocated is Some
                && s.issued_ido_amount + allocated->0 <= s.max_issue_ido_amount && held
                + allocated->0 <= u128::MAX
        }),
{
}

/// When a claim is answered with what: each answer comes on exactly the
/// requests named for it, the first that applies in this order.
pub proof fn claim_answers(
    s: IdoState,
    env: Env,
    deadline: Timestamp,
    nonce: u128,
    amount: u128,
    reserve: Balance,
    authorized: bool,
    transferred: bool,
)
    ensures
        ({
            let r = claim_outcome(
                s,
                env,
                deadline,
                nonce,
                amount,
                reserve,
                authorized,
                transferred,
            ).1;
            let current = value_or_zero(s.nonces, env.caller);
            let in_time = deadline >= env.block_timestamp;
            let in_order = nonce == current && current < u128::MAX;
            let held = value_or_zero(s.balances, env.caller);
            &&& r == Err::<ClaimToken, IDOError>(IDOError::Expired) <==> !in_time
            &&& r == Err::<ClaimToken, IDOError>(IDOError::InvalidNonce) <==> in_time && !in_order
            &&& r == Err::<ClaimToken, IDOError>(IDOError::InsufficientReserve) <==> in_time
                && in_order && reserve < amount
            &&& r == Err::<ClaimToken, IDOError>(IDOError::InvalidSignature) <==> in_time
                && in_order && reserve >= amount && !authorized
            &&& r == Err::<ClaimToken, IDOError>(IDOError::InsufficientAllocated) <==> in_time
                && in_order && reserve >= amount && authorized && held < amount
            &&& r == Err::<ClaimToken, IDOError>(IDOError::TransferFailed) <==> in_time && in_order
                && reserve >= amount && authorized && held >= amount && !transferred
            &&& r is Ok <==> in_time && in_order && reserve >= amount && authorized && held
                >= amount && transferred
        }),
{
}

/// Whether no account has more allocated tokens than were issued in all.
pub open spec fn allocated_within_issued(s: IdoState) -> bool {
    forall|account: AccountId| value_or_zero(s.balances, account) <= s.issued_ido_amount
}

/// A contract in which no account has more allocated tokens than were issued
/// stays so through every purchase and every claim, and in such a contract a
/// purchase within the cap always fits the buyer's balance: of the two
/// arithmetic errors only the one of the rate is left.
pub proof fn allocated_stays_within_issued(
    s: IdoState,
    env: Env,
    deadline: Timestamp,
    nonce: u128,
    amount: u128,
    reserve: Balance,
    authorized: bool,
    transferred: bool,
)
    requires
        allocated_within_issued(s),
    ensures
        allocated_within_issued(buy_outcome(s, env, deadline, nonce, authorized).0),
        allocated_within_issued(
            claim_outcome(s, env, deadline, nonce, amount, reserve, authorized, transferred).0,
        ),
        buy_outcome(s, env, deadline, nonce, authorized).1 == Err::<BuyTokenWithNative, IDOError>(
            IDOError::ArithmeticError,
        ) ==> allocation(env.transferred_value, s.price, s.price_decimals) is None,
{
    let bought = buy_outcome(s, env, deadline, nonce, authorized).0;
    assert forall|account: AccountId|
        value_or_zero(bought.balances, account) <= bought.issued_ido_amount by {
        assert(value_or_zero(s.balances, account) <= s.issued_ido_amount);
        assert(value_or_zero(s.balances, env.caller) <= s.issued_ido_amount);
    }
    let claimed = claim_outcome(
        s,
        env,
        deadline,
        nonce,
        amount,
        reserve,
        authorized,
        transferred,
    ).0;
    assert forall|account: AccountId|
        value_or_zero(claimed.balances, account) <= claimed.issued_ido_amount by {
        assert(value_or_zero(s.balances, account) <= s.issued_ido_amount);
        assert(value_or_zero(s.balances, env.caller) <= s.issued_ido_amount);
    }
    assert(value_or_zero(s.balances, env.caller) <= s.issued_ido_amount);
}

} // verus!
