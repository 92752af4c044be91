use vstd::prelude::*;
use vstd::string::*;
use crate::account::{is_zero_address, AccountId, Balance, Env};
use crate::psp22::{PSP22Error, PSP22};
use crate::replay::value_or_zero;
use crate::table::{map_of, Table};

verus! {

/// Tokens moved from one account to another. Newly minted tokens come from
/// no account, burned tokens go to none.
#[derive(Clone, Copy, Debug, PartialEq, Eq)]
pub struct Transfer {
    pub from: Option<AccountId>,
    pub to: Option<AccountId>,
    pub value: u128,
}

/// `spender` may withdraw up to `value` tokens from `owner`.
#[derive(Clone, Copy, Debug, PartialEq, Eq)]
pub struct Approval {
    pub owner: AccountId,
    pub spender: AccountId,
    pub value: u128,
}

/// Native currency to send: the tax fees that the receiver claims.
#[derive(Clone, Copy, Debug, PartialEq, Eq)]
pub struct NativeTransfer {
    pub to: AccountId,
    pub amount: u128,
}

/// Why the token turned a request away.
#[derive(Clone, Copy, Debug, PartialEq, Eq)]
pub enum TokenFault {
    /// The account holds fewer tokens than the request moves.
    InsufficientBalance,
    /// The spender may withdraw fewer tokens than the request moves.
    InsufficientAllowance,
    /// The token is paused.
    Paused,
    /// The token cannot be paused.
    NotPausable,
    /// The token asks for whitelisted accounts, and the sender is not one.
    FromNotWhitelisted,
    /// The token asks for whitelisted accounts, and the recipient is not one.
    ToNotWhitelisted,
    /// The sender is blacklisted.
    FromBlacklisted,
    /// The recipient is blacklisted.
    ToBlacklisted,
    /// Less than the tax fee is attached, and the caller is not exempt.
    NotExactTaxFee,
    /// The recipient would reach the limit on what an account may hold.
    ExceededMaxAllocation,
    /// The caller is not the owner.
    NotOwner,
    /// The token does not allow transfers forced by the owner.
    ForceTransferDisabled,
    /// The caller is not the receiver of the tax fees.
    NotTaxFeeReceiver,
    /// The token does not allow burning.
    NotBurnable,
    /// The token does not allow minting.
    NotMintable,
    /// A balance, an allowance or the supply would not fit in 128 bits.
    Overflow,
}

/// The words in which the token states a fault that the ledger interface has
/// no variant for.
pub open spec fn fault_text(fault: TokenFault) -> Seq<char> {
    match fault {
        TokenFault::Paused => "Paused"@,
        TokenFault::NotPausable => "not pausable"@,
        TokenFault::FromNotWhitelisted => "From address is not whitelisted"@,
        TokenFault::ToNotWhitelisted => "To address is not whitelisted"@,
        TokenFault::FromBlacklisted => "From address is blacklisted"@,
        TokenFault::ToBlacklisted => "To address is blacklisted"@,
        TokenFault::NotExactTaxFee => "NotExactTaxFee"@,
        TokenFault::ExceededMaxAllocation => "Exceeded max allocation per address"@,
        TokenFault::NotOwner => "Not owner"@,
        TokenFault::ForceTransferDisabled => "not allow force transfer"@,
        TokenFault::NotTaxFeeReceiver => "caller is not tax_fee_receiver"@,
        TokenFault::NotBurnable => "not burnable"@,
        TokenFault::NotMintable => "not mintable"@,
        TokenFault::Overflow => "Arithmetic overflow"@,
        TokenFault::InsufficientBalance => "InsufficientBalance"@,
        TokenFault::InsufficientAllowance => "InsufficientAllowance"@,
    }
}

/// Whether the error `e` of the ledger interface states the fault `fault`:
/// by its own variant where there is one, in words where not.
pub open spec fn states_fault(e: PSP22Error, fault: TokenFault) -> bool {
    match fault {
        TokenFault::InsufficientBalance => e is InsufficientBalance,
        TokenFault::InsufficientAllowance => e is InsufficientAllowance,
        _ => e matches PSP22Error::Custom(text) && text@ == fault_text(fault),
    }
}

/// Whether `r` answers as `expected` does: with the same value, or with an
/// error that states the same fault.
pub open spec fn answers<T>(r: Result<T, PSP22Error>, expected: Result<T, TokenFault>) -> bool {
    match expected {
        Ok(v) => r == Ok::<T, PSP22Error>(v),
        Err(fault) => r matches Err(e) && states_fault(e, fault),
    }
}

/// What a token holds.
pub struct TokenState {
    pub supply: u128,
    pub balances: Map<AccountId, u128>,
    pub allowances: Map<(AccountId, AccountId), u128>,
    pub is_required_whitelist: bool,
    pub is_required_blacklist: bool,
    pub is_burnable: bool,
    pub is_mintable: bool,
    pub is_pausable: bool,
    pub is_require_max_alloc_per_address: bool,
    pub max_alloc_per_user: u128,
    pub is_force_transfer_enable: bool,
    pub whitelist: Set<AccountId>,
    pub blacklist: Set<AccountId>,
    pub tax_fee: u128,
    pub tax_fee_receiver: Option<AccountId>,
    pub document: Seq<char>,
    pub list_ignore_from_tax_fee: Set<AccountId>,
    pub name: Option<Seq<char>>,
    pub symbol: Option<Seq<char>>,
    pub decimals: u8,
    pub paused: bool,
    pub owner: Option<AccountId>,
}

/// The accounts that a table marks.
pub open spec fn marked(m: Map<AccountId, bool>) -> Set<AccountId> {
    Set::new(|a: AccountId| m.contains_key(a) && m[a])
}

/// The allowance that `m` holds for a pair, zero where it holds none.
pub open spec fn allowance_or_zero(
    m: Map<(AccountId, AccountId), u128>,
    owner: AccountId,
    spender: AccountId,
) -> u128 {
    if m.contains_key((owner, spender)) {
        m[(owner, spender)]
    } else {
        0
    }
}

/// Whether `account` is the owner, or stands for "no account" where the
/// token has no owner.
pub open spec fn is_owner_or_zero(s: TokenState, account: AccountId) -> bool {
    match s.owner {
        Some(owner) => account == owner,
        None => is_zero_address(account),
    }
}

/// The fault that the token finds before it moves tokens from `from` to
/// `to`: it is paused, an account is not whitelisted or is blacklisted where
/// the token asks for that, or the tax fee is not attached and the caller is
/// not exempt. The owner receives tokens without being whitelisted.
pub open spec fn before_transfer_fault(
    s: TokenState,
    env: Env,
    from: Option<AccountId>,
    to: Option<AccountId>,
) -> Option<TokenFault> {
    if s.paused {
        Some(TokenFault::Paused)
    } else if s.is_required_whitelist && from is Some && !s.whitelist.contains(from->0) {
        Some(TokenFault::FromNotWhitelisted)
    } else if s.is_required_whitelist && to is Some && !is_owner_or_zero(s, to->0)
        && !s.whitelist.contains(to->0) {
        Some(TokenFault::ToNotWhitelisted)
    } else if s.is_required_blacklist && from is Some && s.blacklist.contains(from->0) {
        Some(TokenFault::FromBlacklisted)
    } else if s.is_required_blacklist && to is Some && s.blacklist.contains(to->0) {
        Some(TokenFault::ToBlacklisted)
    } else if env.transferred_value < s.tax_fee && !s.list_ignore_from_tax_fee.contains(
        env.caller,
    ) {
        Some(TokenFault::NotExactTaxFee)
    } else {
        None
    }
}

/// The fault that the token finds after tokens went to `to`, whose balance
/// is then `balance`: where the token limits what an account may hold, an
/// account other than the owner must stay below the limit.
pub open spec fn after_transfer_fault(
    s: TokenState,
    to: Option<AccountId>,
    balance: u128,
) -> Option<TokenFault> {
    if s.is_require_max_alloc_per_address && to is Some && !is_owner_or_zero(s, to->0) && balance
        >= s.max_alloc_per_user {
        Some(TokenFault::ExceededMaxAllocation)
    } else {
        None
    }
}

/// The balance of `to` after `amount` tokens went from `from` to `to`.
pub open spec fn received_balance(s: TokenState, from: AccountId, to: AccountId, amount: u128) -> int {
    if from == to {
        value_or_zero(s.balances, to) as int
    } else {
        value_or_zero(s.balances, to) + amount
    }
}

/// The fault for which the token refuses to move `amount` tokens from `from`
/// to `to`, `None` where it moves them.
pub open spec fn transfer_fault(
    s: TokenState,
    env: Env,
    from: AccountId,
    to: AccountId,
    amount: u128,
) -> Option<TokenFault> {
    if value_or_zero(s.balances, from) < amount {
        Some(TokenFault::InsufficientBalance)
    } else if before_transfer_fault(s, env, Some(from), Some(to)) is Some {
        before_transfer_fault(s, env, Some(from), Some(to))
    } else if received_balance(s, from, to, amount) > u128::MAX {
        Some(TokenFault::Overflow)
    } else {
        after_transfer_fault(s, Some(to), received_balance(s, from, to, amount) as u128)
    }
}

/// The balances after `amount` tokens went from `from` to `to`.
pub open spec fn moved(
    balances: Map<AccountId, u128>,
    from: AccountId,
    to: AccountId,
    amount: u128,
) -> Map<AccountId, u128> {
    let debited = balances.insert(from, (value_or_zero(balances, from) - amount) as u128);
    debited.insert(to, (value_or_zero(debited, to) + amount) as u128)
}

/// What a request to move tokens does: the state that it leaves and what it
/// answers. A request that is refused changes nothing.
pub open spec fn transfer_outcome(
    s: TokenState,
    env: Env,
    from: AccountId,
    to: AccountId,
    amount: u128,
) -> (TokenState, Result<Transfer, TokenFault>) {
    match transfer_fault(s, env, from, to, amount) {
        Some(fault) => (s, Err(fault)),
        None => (
            TokenState { balances: moved(s.balances, from, to, amount), ..s },
            Ok(Transfer { from: Some(from), to: Some(to), value: amount }),
        ),
    }
}

/// What a request to set an allowance does.
pub open spec fn approve_outcome(
    s: TokenState,
    owner: AccountId,
    spender: AccountId,
    amount: u128,
) -> (TokenState, Result<Approval, TokenFault>) {
    if s.paused {
        (s, Err(TokenFault::Paused))
    } else {
        (
            TokenState { allowances: s.allowances.insert((owner, spender), amount), ..s },
            Ok(Approval { owner, spender, value: amount }),
        )
    }
}

/// What a request to move tokens on behalf of their holder does: the
/// allowance of the caller goes down by the amount, and the tokens move. A
/// request that is refused at either step changes nothing.
pub open spec fn transfer_from_outcome(
    s: TokenState,
    env: Env,
    from: AccountId,
    to: AccountId,
    amount: u128,
) -> (TokenState, Result<(Approval, Transfer), TokenFault>) {
    let allowance = allowance_or_zero(s.allowances, from, env.caller);
    if allowance < amount {
        (s, Err(TokenFault::InsufficientAllowance))
    } else {
        match approve_outcome(s, from, env.caller, (allowance - amount) as u128) {
            (_, Err(fault)) => (s, Err(fault)),
            (approved, Ok(approval)) => match transfer_outcome(approved, env, from, to, amount) {
                (_, Err(fault)) => (s, Err(fault)),
                (done, Ok(transfer)) => (done, Ok((approval, transfer))),
            },
        }
    }
}

/// What a request to mint does: the balance of `account` and the supply go
/// up by `amount`.
pub open spec fn mint_outcome(s: TokenState, env: Env, account: AccountId, amount: u128) -> (
    TokenState,
    Result<Transfer, TokenFault>,
) {
    let balance = value_or_zero(s.balances, account);
    if before_transfer_fault(s, env, None, Some(account)) is Some {
        (s, Err(before_transfer_fault(s, env, None, Some(account))->0))
    } else if balance + amount > u128::MAX || s.supply + amount > u128::MAX {
        (s, Err(TokenFault::Overflow))
    } else if after_transfer_fault(s, Some(account), (balance + amount) as u128) is Some {
        (s, Err(after_transfer_fault(s, Some(account), (balance + amount) as u128)->0))
    } else {
        (
            TokenState {
                balances: s.balances.insert(account, (balance + amount) as u128),
                supply: (s.supply + amount) as u128,
                ..s
            },
            Ok(Transfer { from: None, to: Some(account), value: amount }),
        )
    }
}

/// What a request to burn does: the balance of `account` and the supply go
/// down by `amount`.
pub open spec fn burn_outcome(s: TokenState, env: Env, account: AccountId, amount: u128) -> (
    TokenState,
    Result<Transfer, TokenFault>,
) {
    let balance = value_or_zero(s.balances, account);
    if balance < amount {
        (s, Err(TokenFault::InsufficientBalance))
    } else if before_transfer_fault(s, env, Some(account), None) is Some {
        (s, Err(before_transfer_fault(s, env, Some(account), None)->0))
    } else if s.supply < amount {
        (s, Err(TokenFault::Overflow))
    } else {
        (
            TokenState {
                balances: s.balances.insert(account, (balance - amount) as u128),
                supply: (s.supply - amount) as u128,
                ..s
            },
            Ok(Transfer { from: Some(account), to: None, value: amount }),
        )
    }
}

/// The fault of a caller who is not the owner.
pub open spec fn owner_fault(s: TokenState, env: Env) -> Option<TokenFault> {
    if s.owner == Some(env.caller) {
        None
    } else {
        Some(TokenFault::NotOwner)
    }
}

/// The fault of a request that only the owner of a token that is not paused
/// may make.
pub open spec fn admin_fault(s: TokenState, env: Env) -> Option<TokenFault> {
    if s.paused {
        Some(TokenFault::Paused)
    } else {
        owner_fault(s, env)
    }
}

/// The error of the ledger interface that states `fault`.
pub fn to_error(fault: TokenFault) -> (e: PSP22Error)
    ensures
        states_fault(e, fault),
{
    match fault {
        TokenFault::InsufficientBalance => PSP22Error::InsufficientBalance,
        TokenFault::InsufficientAllowance => PSP22Error::InsufficientAllowance,
        TokenFault::Paused => PSP22Error::Custom(String::from_str("Paused")),
        TokenFault::NotPausable => PSP22Error::Custom(String::from_str("not pausable")),
        TokenFault::FromNotWhitelisted => PSP22Error::Custom(
            String::from_str("From address is not whitelisted"),
        ),
        TokenFault::ToNotWhitelisted => PSP22Error::Custom(
            String::from_str("To address is not whitelisted"),
        ),
        TokenFault::FromBlacklisted => PSP22Error::Custom(
            String::from_str("From address is blacklisted"),
        ),
        TokenFault::ToBlacklisted => PSP22Error::Custom(
            String::from_str("To address is blacklisted"),
        ),
        TokenFault::NotExactTaxFee => PSP22Error::Custom(String::from_str("NotExactTaxFee")),
        TokenFault::ExceededMaxAllocation => PSP22Error::Custom(
            String::from_str("Exceeded max allocation per address"),
        ),
        TokenFault::NotOwner => PSP22Error::Custom(String::from_str("Not owner")),
        TokenFault::ForceTransferDisabled => PSP22Error::Custom(
            String::from_str("not allow force transfer"),
        ),
        TokenFault::NotTaxFeeReceiver => PSP22Error::Custom(
            String::from_str("caller is not tax_fee_receiver"),
        ),
        TokenFault::NotBurnable => PSP22Error::Custom(String::from_str("not burnable")),
        TokenFault::NotMintable => PSP22Error::Custom(String::from_str("not mintable")),
        TokenFault::Overflow => PSP22Error::Custom(String::from_str("Arithmetic overflow")),
    }
}

/// A fungible token with the options of a whitelist, a blacklist, a tax fee
/// on transfers, a limit on what an account may hold, pausing, minting,
/// burning and transfers forced by the owner.
pub struct Token {
    supply: u128,
    balances: Table<AccountId, u128>,
    allowances: Table<(AccountId, AccountId), u128>,
    is_required_whitelist: bool,
    is_required_blacklist: bool,
    is_burnable: bool,
    is_mintable: bool,
    is_pausable: bool,
    is_require_max_alloc_per_address: bool,
    max_alloc_per_user: u128,
    is_force_transfer_enable: bool,
    whitelist: Table<AccountId, bool>,
    blacklist: Table<AccountId, bool>,
    tax_fee: u128,
    tax_fee_receiver: Option<AccountId>,
    document: String,
    list_ignore_from_tax_fee: Table<AccountId, bool>,
    name: Option<String>,
    symbol: Option<String>,
    decimals: u8,
    paused: bool,
    owner: Option<AccountId>,
}

/// The characters of a text that may be missing.
pub open spec fn text_view(text: Option<String>) -> Option<Seq<char>> {
    match text {
        Some(t) => Some(t@),
        None => None,
    }
}

impl View for Token {
    type V = TokenState;

    closed spec fn view(&self) -> TokenState {
        TokenState {
            supply: self.supply,
            balances: self.balances@,
            allowances: self.allowances@,
            is_required_whitelist: self.is_required_whitelist,
            is_required_blacklist: self.is_required_blacklist,
            is_burnable: self.is_burnable,
            is_mintable: self.is_mintable,
            is_pausable: self.is_pausable,
            is_require_max_alloc_per_address: self.is_require_max_alloc_per_address,
            max_alloc_per_user: self.max_alloc_per_user,
            is_force_transfer_enable: self.is_force_transfer_enable,
            whitelist: marked(self.whitelist@),
            blacklist: marked(self.blacklist@),
            tax_fee: self.tax_fee,
            tax_fee_receiver: self.tax_fee_receiver,
            document: self.document@,
            list_ignore_from_tax_fee: marked(self.list_ignore_from_tax_fee@),
            name: text_view(self.name),
            symbol: text_view(self.symbol),
            decimals: self.decimals,
            paused: self.paused,
            owner: self.owner,
        }
    }
}

/// What a token holds, as plain data to store and to load.
pub struct TokenSnapshot {
    pub supply: u128,
    pub balances: Vec<(AccountId, u128)>,
    pub allowances: Vec<((AccountId, AccountId), u128)>,
    pub is_required_whitelist: bool,
    pub is_required_blacklist: bool,
    pub is_burnable: bool,
    pub is_mintable: bool,
    pub is_pausable: bool,
    pub is_require_max_alloc_per_address: bool,
    pub max_alloc_per_user: u128,
    pub is_force_transfer_enable: bool,
    pub whitelist: Vec<(AccountId, bool)>,
    pub blacklist: Vec<(AccountId, bool)>,
    pub tax_fee: u128,
    pub tax_fee_receiver: Option<AccountId>,
    pub document: String,
    pub list_ignore_from_tax_fee: Vec<(AccountId, bool)>,
    pub name: Option<String>,
    pub symbol: Option<String>,
    pub decimals: u8,
    pub paused: bool,
    pub owner: Option<AccountId>,
}

impl View for TokenSnapshot {
    type V = TokenState;

    /// The state that the data stands for. Where a list names a key twice,
    /// the last entry counts.
    open spec fn view(&self) -> TokenState {
        TokenState {
            supply: self.supply,
            balances: map_of(self.balances@),
            allowances: map_of(self.allowances@),
            is_required_whitelist: self.is_required_whitelist,
            is_required_blacklist: self.is_required_blacklist,
            is_burnable: self.is_burnable,
            is_mintable: self.is_mintable,
            is_pausable: self.is_pausable,
            is_require_max_alloc_per_address: self.is_require_max_alloc_per_address,
            max_alloc_per_user: self.max_alloc_per_user,
            is_force_transfer_enable: self.is_force_transfer_enable,
            whitelist: marked(map_of(self.whitelist@)),
            blacklist: marked(map_of(self.blacklist@)),
            tax_fee: self.tax_fee,
            tax_fee_receiver: self.tax_fee_receiver,
            document: self.document@,
            list_ignore_from_tax_fee: marked(map_of(self.list_ignore_from_tax_fee@)),
            name: text_view(self.name),
            symbol: text_view(self.symbol),
            decimals: self.decimals,
            paused: self.paused,
            owner: self.owner,
        }
    }
}

fn copy_of_text(text: &Option<String>) -> (copy: Option<String>)
    ensures
        text_view(copy) == text_view(*text),
{
    match text {
        Some(t) => Some(t.clone()),
        None => None,
    }
}

fn is_marked(table: &Table<AccountId, bool>, account: &AccountId) -> (r: bool)
    ensures
        r == marked(table@).contains(*account),
{
    match table.get(account) {
        Some(mark) => mark,
        None => false,
    }
}

fn same_account(a: &Option<AccountId>, b: &AccountId) -> (r: bool)
    ensures
        r == (*a == Some(*b)),
{
    match a {
        Some(a) => a.same(b),
        None => false,
    }
}

impl Token {
    fn is_owner_or_zero(&self, account: &AccountId) -> (r: bool)
        ensures
            r == is_owner_or_zero(self@, *account),
    {
        match &self.owner {
            Some(owner) => account.same(owner),
            None => {
                let zero = AccountId::zero_address();
                let r = account.same(&zero);
                proof {
                    if account.0@ == zero.0@ {
                        assert(account.0 =~= zero.0);
                    }
                }
                r
            },
        }
    }

    fn _total_supply(&self) -> (supply: u128)
        ensures
            supply == self@.supply,
    {
        self.supply
    }

    fn _balance_of(&self, owner: &AccountId) -> (balance: u128)
        ensures
            balance == value_or_zero(self@.balances, *owner),
    {
        match self.balances.get(owner) {
            Some(balance) => balance,
            None => 0,
        }
    }

    fn _allowance(&self, owner: &AccountId, spender: &AccountId) -> (allowance: u128)
        ensures
            allowance == allowance_or_zero(self@.allowances, *owner, *spender),
    {
        match self.allowances.get(&(*owner, *spender)) {
            Some(allowance) => allowance,
            None => 0,
        }
    }

    fn _require_owner(&self, env: &Env) -> (r: Result<(), TokenFault>)
        ensures
            r == match owner_fault(self@, *env) {
                Some(fault) => Err::<(), TokenFault>(fault),
                None => Ok::<(), TokenFault>(()),
            },
    {
        if same_account(&self.owner, &env.caller) {
            Ok(())
        } else {
            Err(TokenFault::NotOwner)
        }
    }

    fn _require_admin(&self, env: &Env) -> (r: Result<(), TokenFault>)
        ensures
            r == match admin_fault(self@, *env) {
                Some(fault) => Err::<(), TokenFault>(fault),
                None => Ok::<(), TokenFault>(()),
            },
    {
        if self.paused {
            return Err(TokenFault::Paused);
        }
        self._require_owner(env)
    }

    fn _before_token_transfer(
        &self,
        env: &Env,
        from: Option<&AccountId>,
        to: Option<&AccountId>,
        amount: &u128,
    ) -> (r: Result<(), TokenFault>)
        ensures
            r == match before_transfer_fault(
                self@,
                *env,
                match from {
                    Some(a) => Some(*a),
                    None => None,
                },
                match to {
                    Some(a) => Some(*a),
                    None => None,
                },
            ) {
                Some(fault) => Err::<(), TokenFault>(fault),
                None => Ok::<(), TokenFault>(()),
            },
    {
        if self.paused {
            return Err(TokenFault::Paused);
        }
        // Only whitelisted accounts can transfer.
        if self.is_required_whitelist {
            if let Some(from) = from {
                if !is_marked(&self.whitelist, from) {
                    return Err(TokenFault::FromNotWhitelisted);
                }
            }
            if let Some(to) = to {
                if !self.is_owner_or_zero(to) && !is_marked(&self.whitelist, to) {
                    return Err(TokenFault::ToNotWhitelisted);
                }
            }
        }
        // Only accounts that are not blacklisted can transfer.
        if self.is_required_blacklist {
            if let Some(from) = from {
                if is_marked(&self.blacklist, from) {
                    return Err(TokenFault::FromBlacklisted);
                }
            }
            if let Some(to) = to {
                if is_marked(&self.blacklist, to) {
                    return Err(TokenFault::ToBlacklisted);
                }
            }
        }
        let received_value = env.transferred_value;
        if received_value < self.tax_fee {
            if is_marked(&self.list_ignore_from_tax_fee, &env.caller) {
                return Ok(());
            }
            return Err(TokenFault::NotExactTaxFee);
        }
        Ok(())
    }

    fn _after_token_transfer(&self, to: Option<&AccountId>, balance: u128) -> (r: Result<
        (),
        TokenFault,
    >)
        ensures
            r == match after_transfer_fault(
                self@,
                match to {
                    Some(a) => Some(*a),
                    None => None,
                },
                balance,
            ) {
                Some(fault) => Err::<(), TokenFault>(fault),
                None => Ok::<(), TokenFault>(()),
            },
    {
        if self.is_require_max_alloc_per_address {
            match to {
                None => {
                    return Ok(());
                },
                Some(to) => {
                    if self.is_owner_or_zero(to) {
                        return Ok(());
                    }
                    if balance >= self.max_alloc_per_user {
                        return Err(TokenFault::ExceededMaxAllocation);
                    }
                },
            }
        }
        Ok(())
    }

    fn _transfer_from_to(
        &mut self,
        env: &Env,
        from: AccountId,
        to: AccountId,
        amount: u128,
    ) -> (r: Result<Transfer, TokenFault>)
        ensures
            (final(self)@, r) == transfer_outcome(old(self)@, *env, from, to, amount),
    {
        let from_balance = self._balance_of(&from);
        if from_balance < amount {
            return Err(TokenFault::InsufficientBalance);
        }
        match self._before_token_transfer(env, Some(&from), Some(&to), &amount) {
            Ok(()) => {},
            Err(fault) => {
                return Err(fault);
            },
        }
        let to_balance = if from.same(&to) {
            from_balance - amount
        } else {
            self._balance_of(&to)
        };
        let received = match to_balance.checked_add(amount) {
            Some(received) => received,
            None => {
                return Err(TokenFault::Overflow);
            },
        };
        match self._after_token_transfer(Some(&to), received) {
            Ok(()) => {},
            Err(fault) => {
                return Err(fault);
            },
        }
        self.balances.insert(from, from_balance - amount);
        self.balances.insert(to, received);
        Ok(Transfer { from: Some(from), to: Some(to), value: amount })
    }

    fn _approve_from_to(&mut self, owner: AccountId, spender: AccountId, amount: u128) -> (r:
        Result<Approval, TokenFault>)
        ensures
            (final(self)@, r) == approve_outcome(old(self)@, owner, spender, amount),
    {
        if self.paused {
            return Err(TokenFault::Paused);
        }
        self.allowances.insert((owner, spender), amount);
        Ok(Approval { owner, spender, value: amount })
    }

    fn _mint_to(&mut self, env: &Env, account: AccountId, amount: u128) -> (r: Result<
        Transfer,
        TokenFault,
    >)
        ensures
            (final(self)@, r) == mint_outcome(old(self)@, *env, account, amount),
    {
        match self._before_token_transfer(env, None, Some(&account), &amount) {
            Ok(()) => {},
            Err(fault) => {
                return Err(fault);
            },
        }
        let new_balance = match self._balance_of(&account).checked_add(amount) {
            Some(new_balance) => new_balance,
            None => {
                return Err(TokenFault::Overflow);
            },
        };
        let new_supply = match self.supply.checked_add(amount) {
            Some(new_supply) => new_supply,
            None => {
                return Err(TokenFault::Overflow);
            },
        };
        match self._after_token_transfer(Some(&account), new_balance) {
            Ok(()) => {},
            Err(fault) => {
                return Err(fault);
            },
        }
        self.balances.insert(account, new_balance);
        self.supply = new_supply;
        Ok(Transfer { from: None, to: Some(account), value: amount })
    }

    fn _burn_from(&mut self, env: &Env, account: AccountId, amount: u128) -> (r: Result<
        Transfer,
        TokenFault,
    >)
        ensures
            (final(self)@, r) == burn_outcome(old(self)@, *env, account, amount),
    {
        let from_balance = self._balance_of(&account);
        if from_balance < amount {
            return Err(TokenFault::InsufficientBalance);
        }
        match self._before_token_transfer(env, Some(&account), None, &amount) {
            Ok(()) => {},
            Err(fault) => {
                return Err(fault);
            },
        }
        if self.supply < amount {
            return Err(TokenFault::Overflow);
        }
        self.balances.insert(account, from_balance - amount);
        self.supply = self.supply - amount;
        Ok(Transfer { from: Some(account), to: None, value: amount })
    }
}

/// The result with its value dropped.
pub open spec fn without_value<T>(r: Result<T, TokenFault>) -> Result<(), TokenFault> {
    match r {
        Ok(_) => Ok(()),
        Err(fault) => Err(fault),
    }
}

/// What a request of the owner does that needs no more than to be the owner
/// of a token that is not paused.
pub open spec fn admin_outcome(s: TokenState, env: Env, done: TokenState) -> (
    TokenState,
    Result<(), TokenFault>,
) {
    match admin_fault(s, env) {
        Some(fault) => (s, Err(fault)),
        None => (done, Ok(())),
    }
}

/// What a request to raise an allowance does.
pub open spec fn increase_allowance_outcome(
    s: TokenState,
    env: Env,
    spender: AccountId,
    delta_value: u128,
) -> (TokenState, Result<Approval, TokenFault>) {
    let allowance = allowance_or_zero(s.allowances, env.caller, spender);
    if allowance + delta_value > u128::MAX {
        (s, Err(TokenFault::Overflow))
    } else {
        approve_outcome(s, env.caller, spender, (allowance + delta_value) as u128)
    }
}

/// What a request to lower an allowance does.
pub open spec fn decrease_allowance_outcome(
    s: TokenState,
    env: Env,
    spender: AccountId,
    delta_value: u128,
) -> (TokenState, Result<Approval, TokenFault>) {
    let allowance = allowance_or_zero(s.allowances, env.caller, spender);
    if allowance < delta_value {
        (s, Err(TokenFault::InsufficientAllowance))
    } else {
        approve_outcome(s, env.caller, spender, (allowance - delta_value) as u128)
    }
}

/// What a request to pause or to resume does: only the owner of a token
/// that can be paused may ask for it.
pub open spec fn change_pause_state_outcome(s: TokenState, env: Env) -> (
    TokenState,
    Result<(), TokenFault>,
) {
    if owner_fault(s, env) is Some {
        (s, Err(TokenFault::NotOwner))
    } else if !s.is_pausable {
        (s, Err(TokenFault::NotPausable))
    } else {
        (TokenState { paused: !s.paused, ..s }, Ok(()))
    }
}

/// What a transfer forced by the owner does.
pub open spec fn force_transfer_outcome(
    s: TokenState,
    env: Env,
    from_account: AccountId,
    to_account: AccountId,
    amount: u128,
) -> (TokenState, Result<Transfer, TokenFault>) {
    if owner_fault(s, env) is Some {
        (s, Err(TokenFault::NotOwner))
    } else if !s.is_force_transfer_enable {
        (s, Err(TokenFault::ForceTransferDisabled))
    } else {
        transfer_outcome(s, env, from_account, to_account, amount)
    }
}

/// What the receiver of the tax fees is answered who claims `amount` of them
/// for `to`. Nobody can claim where the token names no receiver.
pub open spec fn claim_tax_fee_outcome(s: TokenState, env: Env, to: AccountId, amount: u128) -> Result<
    NativeTransfer,
    TokenFault,
> {
    if s.paused {
        Err(TokenFault::Paused)
    } else if s.tax_fee_receiver != Some(env.caller) {
        Err(TokenFault::NotTaxFeeReceiver)
    } else {
        Ok(NativeTransfer { to, amount })
    }
}

/// What a request of the caller to burn tokens of its own does.
pub open spec fn burn_request_outcome(s: TokenState, env: Env, amount: u128) -> (
    TokenState,
    Result<Transfer, TokenFault>,
) {
    if !s.is_burnable {
        (s, Err(TokenFault::NotBurnable))
    } else {
        burn_outcome(s, env, env.caller, amount)
    }
}

/// What a request of the owner to mint tokens does.
pub open spec fn mint_request_outcome(s: TokenState, env: Env, account: AccountId, amount: u128) -> (
    TokenState,
    Result<Transfer, TokenFault>,
) {
    if admin_fault(s, env) is Some {
        (s, Err(admin_fault(s, env)->0))
    } else if !s.is_mintable {
        (s, Err(TokenFault::NotMintable))
    } else {
        mint_outcome(s, env, account, amount)
    }
}

/// The accounts among the first `i + 1` of a list are those among the first
/// `i` and the one after them.
proof fn lemma_next_account_joins(users: Seq<AccountId>, i: int)
    requires
        0 <= i < users.len(),
    ensures
        users.take(i + 1).to_set() == users.take(i).to_set().insert(users[i]),
{
    let head = users.take(i);
    let next = users.take(i + 1);
    assert forall|a: AccountId| #[trigger] next.contains(a) <==> head.contains(a) || a == users[i] by {
        if next.contains(a) {
            let k = choose|k: int| 0 <= k < next.len() && next[k] == a;
            if k < i {
                assert(head[k] == a);
            }
        }
        if head.contains(a) {
            let k = choose|k: int| 0 <= k < head.len() && head[k] == a;
            assert(next[k] == a);
        }
        if a == users[i] {
            assert(next[i] == a);
        }
    }
    assert(next.to_set() =~= head.to_set().insert(users[i]));
}

fn mark_all(table: &mut Table<AccountId, bool>, users: &Vec<AccountId>)
    ensures
        marked(final(table)@) == marked(old(table)@).union(users@.to_set()),
{
    let mut i: usize = 0;
    assert(marked(table@) =~= marked(old(table)@).union(users@.take(0).to_set()));
    while i < users.len()
        invariant
            i <= users@.len(),
            marked(table@) == marked(old(table)@).union(users@.take(i as int).to_set()),
        decreases users@.len() - i,
    {
        let ghost before = marked(table@);
        table.insert(users[i], true);
        proof {
            let next = users@.take(i + 1);
            lemma_next_account_joins(users@, i as int);
            assert(marked(table@) =~= before.insert(users@[i as int]));
            assert(marked(table@) =~= marked(old(table)@).union(next.to_set()));
        }
        i += 1;
    }
    assert(users@.take(i as int) =~= users@);
}

fn unmark_all(table: &mut Table<AccountId, bool>, users: &Vec<AccountId>)
    ensures
        marked(final(table)@) == marked(old(table)@).difference(users@.to_set()),
{
    let mut i: usize = 0;
    assert(marked(table@) =~= marked(old(table)@).difference(users@.take(0).to_set()));
    while i < users.len()
        invariant
            i <= users@.len(),
            marked(table@) == marked(old(table)@).difference(users@.take(i as int).to_set()),
        decreases users@.len() - i,
    {
        let ghost before = marked(table@);
        table.remove(&users[i]);
        proof {
            let next = users@.take(i + 1);
            lemma_next_account_joins(users@, i as int);
            assert(marked(table@) =~= before.remove(users@[i as int]));
            assert(marked(table@) =~= marked(old(table)@).difference(next.to_set()));
        }
        i += 1;
    }
    assert(users@.take(i as int) =~= users@);
}

fn to_psp22<T>(r: Result<T, TokenFault>) -> (mapped: Result<T, PSP22Error>)
    ensures
        answers(mapped, r),
{
    match r {
        Ok(v) => Ok(v),
        Err(fault) => Err(to_error(fault)),
    }
}

impl Token {
    /// Sets up a token whose whole supply the owner holds.
    pub fn new(
        owner: AccountId,
        name: String,
        symbol: String,
        decimals: u8,
        total_supply: u128,
        is_require_whitelist: bool,
        is_require_blacklist: bool,
        is_burnable: bool,
        is_mintable: bool,
        is_force_transfer_enable: bool,
        is_pausable: bool,
        is_require_max_alloc_per_address: bool,
        max_alloc_per_user: u128,
        tax_fee_receiver: AccountId,
        tax_fee: u128,
        document: String,
    ) -> (r: (Self, Transfer))
        ensures
            r.0@ == (TokenState {
                supply: total_supply,
                balances: Map::<AccountId, u128>::empty().insert(owner, total_supply),
                allowances: Map::empty(),
                is_required_whitelist: is_require_whitelist,
                is_required_blacklist: is_require_blacklist,
                is_burnable,
                is_mintable,
                is_pausable,
                is_require_max_alloc_per_address,
                max_alloc_per_user,
                is_force_transfer_enable,
                whitelist: Set::empty(),
                blacklist: Set::empty(),
                tax_fee,
                tax_fee_receiver: Some(tax_fee_receiver),
                document: document@,
                list_ignore_from_tax_fee: Set::empty(),
                name: Some(name@),
                symbol: Some(symbol@),
                decimals,
                paused: false,
                owner: Some(owner),
            }),
            r.1 == (Transfer { from: None, to: Some(owner), value: total_supply }),
    {
        let mut balances: Table<AccountId, u128> = Table::new();
        balances.insert(owner, total_supply);
        let token = Token {
            supply: total_supply,
            balances,
            allowances: Table::new(),
            is_required_whitelist: is_require_whitelist,
            is_required_blacklist: is_require_blacklist,
            is_burnable,
            is_mintable,
            is_pausable,
            is_require_max_alloc_per_address,
            max_alloc_per_user,
            is_force_transfer_enable,
            whitelist: Table::new(),
            blacklist: Table::new(),
            tax_fee,
            tax_fee_receiver: Some(tax_fee_receiver),
            document,
            list_ignore_from_tax_fee: Table::new(),
            name: Some(name),
            symbol: Some(symbol),
            decimals,
            paused: false,
            owner: Some(owner),
        };
        assert(token@.whitelist =~= Set::empty());
        assert(token@.blacklist =~= Set::empty());
        assert(token@.list_ignore_from_tax_fee =~= Set::empty());
        (token, Transfer { from: None, to: Some(owner), value: total_supply })
    }

    /// The token as plain data.
    pub fn snapshot(&self) -> (data: TokenSnapshot)
        ensures
            data@ == self@,
    {
        TokenSnapshot {
            supply: self.supply,
            balances: self.balances.to_vec(),
            allowances: self.allowances.to_vec(),
            is_required_whitelist: self.is_required_whitelist,
            is_required_blacklist: self.is_required_blacklist,
            is_burnable: self.is_burnable,
            is_mintable: self.is_mintable,
            is_pausable: self.is_pausable,
            is_require_max_alloc_per_address: self.is_require_max_alloc_per_address,
            max_alloc_per_user: self.max_alloc_per_user,
            is_force_transfer_enable: self.is_force_transfer_enable,
            whitelist: self.whitelist.to_vec(),
            blacklist: self.blacklist.to_vec(),
            tax_fee: self.tax_fee,
            tax_fee_receiver: self.tax_fee_receiver,
            document: self.document.clone(),
            list_ignore_from_tax_fee: self.list_ignore_from_tax_fee.to_vec(),
            name: copy_of_text(&self.name),
            symbol: copy_of_text(&self.symbol),
            decimals: self.decimals,
            paused: self.paused,
            owner: self.owner,
        }
    }

    /// The token that plain data stands for.
    pub fn restore(data: &TokenSnapshot) -> (token: Self)
        ensures
            token@ == data@,
    {
        Token {
            supply: data.supply,
            balances: Table::from_vec(&data.balances),
            allowances: Table::from_vec(&data.allowances),
            is_required_whitelist: data.is_required_whitelist,
            is_required_blacklist: data.is_required_blacklist,
            is_burnable: data.is_burnable,
            is_mintable: data.is_mintable,
            is_pausable: data.is_pausable,
            is_require_max_alloc_per_address: data.is_require_max_alloc_per_address,
            max_alloc_per_user: data.max_alloc_per_user,
            is_force_transfer_enable: data.is_force_transfer_enable,
            whitelist: Table::from_vec(&data.whitelist),
            blacklist: Table::from_vec(&data.blacklist),
            tax_fee: data.tax_fee,
            tax_fee_receiver: data.tax_fee_receiver,
            document: data.document.clone(),
            list_ignore_from_tax_fee: Table::from_vec(&data.list_ignore_from_tax_fee),
            name: copy_of_text(&data.name),
            symbol: copy_of_text(&data.symbol),
            decimals: data.decimals,
            paused: data.paused,
            owner: data.owner,
        }
    }

    /// The name of the token.
    pub fn token_name(&self) -> (name: Option<String>)
        ensures
            text_view(name) == self@.name,
    {
        copy_of_text(&self.name)
    }

    /// The symbol of the token.
    pub fn token_symbol(&self) -> (symbol: Option<String>)
        ensures
            text_view(symbol) == self@.symbol,
    {
        copy_of_text(&self.symbol)
    }

    /// The number of decimals in which amounts of the token are shown.
    pub fn token_decimals(&self) -> (decimals: u8)
        ensures
            decimals == self@.decimals,
    {
        self.decimals
    }

    /// Whether the token is paused.
    pub fn paused(&self) -> (paused: bool)
        ensures
            paused == self@.paused,
    {
        self.paused
    }

    /// Pauses a token that runs and resumes one that is paused, if the
    /// caller is the owner and the token can be paused.
    pub fn change_pause_state(&mut self, env: &Env) -> (r: Result<(), PSP22Error>)
        ensures
            answers(r, change_pause_state_outcome(old(self)@, *env).1),
            final(self)@ == change_pause_state_outcome(old(self)@, *env).0,
    {
        match self._require_owner(env) {
            Ok(()) => {},
            Err(fault) => {
                return Err(to_error(fault));
            },
        }
        if !self.is_pausable {
            return Err(to_error(TokenFault::NotPausable));
        }
        self.paused = !self.paused;
        Ok(())
    }

    /// The document of the token.
    pub fn document(&self) -> (document: String)
        ensures
            document@ == self@.document,
    {
        self.document.clone()
    }

    /// The native currency that a transfer must bring along.
    pub fn tax_fee(&self) -> (fee: u128)
        ensures
            fee == self@.tax_fee,
    {
        self.tax_fee
    }

    /// The owner of the token.
    pub fn owner(&self) -> (owner: Option<AccountId>)
        ensures
            owner == self@.owner,
    {
        self.owner
    }

    /// Moves `value` tokens from the caller to `to`, and answers the event to
    /// emit.
    pub fn transfer_tokens(&mut self, env: &Env, to: AccountId, value: u128, data: Vec<u8>) -> (r: Result<
        Transfer,
        PSP22Error,
    >)
        ensures
            answers(r, transfer_outcome(old(self)@, *env, env.caller, to, value).1),
            final(self)@ == transfer_outcome(old(self)@, *env, env.caller, to, value).0,
    {
        let from = env.caller;
        to_psp22(self._transfer_from_to(env, from, to, value))
    }

    /// Moves `value` tokens from `from` to `to`, out of what the caller may
    /// withdraw from `from`, and answers the two events to emit.
    pub fn transfer_tokens_from(
        &mut self,
        env: &Env,
        from: AccountId,
        to: AccountId,
        value: u128,
        data: Vec<u8>,
    ) -> (r: Result<(Approval, Transfer), PSP22Error>)
        ensures
            answers(r, transfer_from_outcome(old(self)@, *env, from, to, value).1),
            final(self)@ == transfer_from_outcome(old(self)@, *env, from, to, value).0,
    {
        let caller = env.caller;
        let allowance = self._allowance(&from, &caller);
        if allowance < value {
            return Err(to_error(TokenFault::InsufficientAllowance));
        }
        // A paused token refuses the approval, and with it the transfer.
        if self.paused {
            return Err(to_error(TokenFault::Paused));
        }
        let transfer = match self._transfer_from_to(env, from, to, value) {
            Ok(transfer) => transfer,
            Err(fault) => {
                return Err(to_error(fault));
            },
        };
        let approval = match self._approve_from_to(from, caller, allowance - value) {
            Ok(approval) => approval,
            Err(fault) => {
                return Err(to_error(fault));
            },
        };
        assert(self@.balances == moved(old(self)@.balances, from, to, value));
        assert(self@ == transfer_from_outcome(old(self)@, *env, from, to, value).0);
        Ok((approval, transfer))
    }

    /// Lets `spender` withdraw up to `value` tokens from the caller, and
    /// answers the event to emit.
    pub fn approve_spender(&mut self, env: &Env, spender: AccountId, value: u128) -> (r: Result<
        Approval,
        PSP22Error,
    >)
        ensures
            answers(r, approve_outcome(old(self)@, env.caller, spender, value).1),
            final(self)@ == approve_outcome(old(self)@, env.caller, spender, value).0,
    {
        let owner = env.caller;
        to_psp22(self._approve_from_to(owner, spender, value))
    }

    /// Raises by `delta_value` what `spender` may withdraw from the caller,
    /// and answers the event to emit.
    pub fn raise_allowance(&mut self, env: &Env, spender: AccountId, delta_value: u128) -> (r:
        Result<Approval, PSP22Error>)
        ensures
            answers(r, increase_allowance_outcome(old(self)@, *env, spender, delta_value).1),
            final(self)@ == increase_allowance_outcome(old(self)@, *env, spender, delta_value).0,
    {
        let owner = env.caller;
        let raised = match self._allowance(&owner, &spender).checked_add(delta_value) {
            Some(raised) => raised,
            None => {
                return Err(to_error(TokenFault::Overflow));
            },
        };
        to_psp22(self._approve_from_to(owner, spender, raised))
    }

    /// Lowers by `delta_value` what `spender` may withdraw from the caller,
    /// and answers the event to emit.
    pub fn lower_allowance(&mut self, env: &Env, spender: AccountId, delta_value: u128) -> (r:
        Result<Approval, PSP22Error>)
        ensures
            answers(r, decrease_allowance_outcome(old(self)@, *env, spender, delta_value).1),
            final(self)@ == decrease_allowance_outcome(old(self)@, *env, spender, delta_value).0,
    {
        let owner = env.caller;
        let allowance = self._allowance(&owner, &spender);
        if allowance < delta_value {
            return Err(to_error(TokenFault::InsufficientAllowance));
        }
        to_psp22(self._approve_from_to(owner, spender, allowance - delta_value))
    }

    /// Makes `new_owner` the owner, if the caller is the owner and the token
    /// is not paused.
    pub fn transfer_ownership(&mut self, env: &Env, new_owner: AccountId) -> (r: Result<
        (),
        PSP22Error,
    >)
        ensures
            answers(
                r,
                admin_outcome(
                    old(self)@,
                    *env,
                    TokenState { owner: Some(new_owner), ..old(self)@ },
                ).1,
            ),
            final(self)@ == admin_outcome(
                old(self)@,
                *env,
                TokenState { owner: Some(new_owner), ..old(self)@ },
            ).0,
    {
        match self._require_admin(env) {
            Ok(()) => {},
            Err(fault) => {
                return Err(to_error(fault));
            },
        }
        self.owner = Some(new_owner);
        Ok(())
    }

    /// Exempts `users` from the tax fee.
    pub fn add_account_to_list_ignore_tax_fee(&mut self, env: &Env, users: Vec<AccountId>) -> (r:
        Result<(), PSP22Error>)
        ensures
            answers(
                r,
                admin_outcome(
                    old(self)@,
                    *env,
                    TokenState {
                        list_ignore_from_tax_fee: old(self)@.list_ignore_from_tax_fee.union(
                            users@.to_set(),
                        ),
                        ..old(self)@
                    },
                ).1,
            ),
            final(self)@ == admin_outcome(
                old(self)@,
                *env,
                TokenState {
                    list_ignore_from_tax_fee: old(self)@.list_ignore_from_tax_fee.union(
                        users@.to_set(),
                    ),
                    ..old(self)@
                },
            ).0,
    {
        match self._require_admin(env) {
            Ok(()) => {},
            Err(fault) => {
                return Err(to_error(fault));
            },
        }
        mark_all(&mut self.list_ignore_from_tax_fee, &users);
        Ok(())
    }

    /// Ends the exemption of `users` from the tax fee.
    pub fn remove_account_to_list_ignore_tax_fee(&mut self, env: &Env, users: Vec<AccountId>) -> (r:
        Result<(), PSP22Error>)
        ensures
            answers(
                r,
                admin_outcome(
                    old(self)@,
                    *env,
                    TokenState {
                        list_ignore_from_tax_fee: old(self)@.list_ignore_from_tax_fee.difference(
                            users@.to_set(),
                        ),
                        ..old(self)@
                    },
                ).1,
            ),
            final(self)@ == admin_outcome(
                old(self)@,
                *env,
                TokenState {
                    list_ignore_from_tax_fee: old(self)@.list_ignore_from_tax_fee.difference(
                        users@.to_set(),
                    ),
                    ..old(self)@
                },
            ).0,
    {
        match self._require_admin(env) {
            Ok(()) => {},
            Err(fault) => {
                return Err(to_error(fault));
            },
        }
        unmark_all(&mut self.list_ignore_from_tax_fee, &users);
        Ok(())
    }

    /// Puts `users` on the whitelist.
    pub fn add_whitelist(&mut self, env: &Env, users: Vec<AccountId>) -> (r: Result<(), PSP22Error>)
        ensures
            answers(
                r,
                admin_outcome(
                    old(self)@,
                    *env,
                    TokenState {
                        whitelist: old(self)@.whitelist.union(users@.to_set()),
                        ..old(self)@
                    },
                ).1,
            ),
            final(self)@ == admin_outcome(
                old(self)@,
                *env,
                TokenState { whitelist: old(self)@.whitelist.union(users@.to_set()), ..old(self)@ },
            ).0,
    {
        match self._require_admin(env) {
            Ok(()) => {},
            Err(fault) => {
                return Err(to_error(fault));
            },
        }
        mark_all(&mut self.whitelist, &users);
        Ok(())
    }

    /// Takes `users` off the whitelist.
    pub fn remove_whitelist(&mut self, env: &Env, users: Vec<AccountId>) -> (r: Result<
        (),
        PSP22Error,
    >)
        ensures
            answers(
                r,
                admin_outcome(
                    old(self)@,
                    *env,
                    TokenState {
                        whitelist: old(self)@.whitelist.difference(users@.to_set()),
                        ..old(self)@
                    },
                ).1,
            ),
            final(self)@ == admin_outcome(
                old(self)@,
                *env,
                TokenState {
                    whitelist: old(self)@.whitelist.difference(users@.to_set()),
                    ..old(self)@
                },
            ).0,
    {
        match self._require_admin(env) {
            Ok(()) => {},
            Err(fault) => {
                return Err(to_error(fault));
            },
        }
        unmark_all(&mut self.whitelist, &users);
        Ok(())
    }

    /// Puts `users` on the blacklist.
    pub fn add_blacklist(&mut self, env: &Env, users: Vec<AccountId>) -> (r: Result<(), PSP22Error>)
        ensures
            answers(
                r,
                admin_outcome(
                    old(self)@,
                    *env,
                    TokenState {
                        blacklist: old(self)@.blacklist.union(users@.to_set()),
                        ..old(self)@
                    },
                ).1,
            ),
            final(self)@ == admin_outcome(
                old(self)@,
                *env,
                TokenState { blacklist: old(self)@.blacklist.union(users@.to_set()), ..old(self)@ },
            ).0,
    {
        match self._require_admin(env) {
            Ok(()) => {},
            Err(fault) => {
                return Err(to_error(fault));
            },
        }
        mark_all(&mut self.blacklist, &users);
        Ok(())
    }

    /// Takes `users` off the blacklist.
    pub fn remove_blacklist(&mut self, env: &Env, users: Vec<AccountId>) -> (r: Result<
        (),
        PSP22Error,
    >)
        ensures
            answers(
                r,
                admin_outcome(
                    old(self)@,
                    *env,
                    TokenState {
                        blacklist: old(self)@.blacklist.difference(users@.to_set()),
                        ..old(self)@
                    },
                ).1,
            ),
            final(self)@ == admin_outcome(
                old(self)@,
                *env,
                TokenState {
                    blacklist: old(self)@.blacklist.difference(users@.to_set()),
                    ..old(self)@
                },
            ).0,
    {
        match self._require_admin(env) {
            Ok(()) => {},
            Err(fault) => {
                return Err(to_error(fault));
            },
        }
        unmark_all(&mut self.blacklist, &users);
        Ok(())
    }

    /// Moves `amount` tokens from one account to another at the owner's
    /// word, where the token allows that.
    pub fn force_transfer(
        &mut self,
        env: &Env,
        from_account: AccountId,
        to_account: AccountId,
        amount: u128,
    ) -> (r: Result<Transfer, PSP22Error>)
        ensures
            answers(
                r,
                force_transfer_outcome(old(self)@, *env, from_account, to_account, amount).1,
            ),
            final(self)@ == force_transfer_outcome(
                old(self)@,
                *env,
                from_account,
                to_account,
                amount,
            ).0,
    {
        match self._require_owner(env) {
            Ok(()) => {},
            Err(fault) => {
                return Err(to_error(fault));
            },
        }
        if !self.is_force_transfer_enable {
            return Err(to_error(TokenFault::ForceTransferDisabled));
        }
        to_psp22(self._transfer_from_to(env, from_account, to_account, amount))
    }

    /// Answers the native currency to send to `to`, if the caller is the
    /// receiver of the tax fees and the token is not paused.
    pub fn claim_tax_fee(&self, env: &Env, to: AccountId, amount: u128) -> (r: Result<
        NativeTransfer,
        PSP22Error,
    >)
        ensures
            answers(r, claim_tax_fee_outcome(self@, *env, to, amount)),
    {
        if self.paused {
            return Err(to_error(TokenFault::Paused));
        }
        if !same_account(&self.tax_fee_receiver, &env.caller) {
            return Err(to_error(TokenFault::NotTaxFeeReceiver));
        }
        Ok(NativeTransfer { to, amount })
    }

    /// Burns `amount` tokens of the caller, where the token allows that.
    pub fn burn(&mut self, env: &Env, amount: u128) -> (r: Result<Transfer, PSP22Error>)
        ensures
            answers(r, burn_request_outcome(old(self)@, *env, amount).1),
            final(self)@ == burn_request_outcome(old(self)@, *env, amount).0,
    {
        if !self.is_burnable {
            return Err(to_error(TokenFault::NotBurnable));
        }
        let caller = env.caller;
        to_psp22(self._burn_from(env, caller, amount))
    }

    /// Answers the code hash that the owner asks the host to install, and
    /// refuses any other caller.
    pub fn set_code(&self, env: &Env, code_hash: [u8; 32]) -> (r: Result<[u8; 32], PSP22Error>)
        ensures
            answers(
                r,
                match owner_fault(self@, *env) {
                    Some(fault) => Err::<[u8; 32], TokenFault>(fault),
                    None => Ok::<[u8; 32], TokenFault>(code_hash),
                },
            ),
    {
        match self._require_owner(env) {
            Ok(()) => Ok(code_hash),
            Err(fault) => Err(to_error(fault)),
        }
    }

    /// Mints `amount` tokens for `account` at the owner's word, where the
    /// token allows that.
    pub fn mint(&mut self, env: &Env, account: AccountId, amount: u128) -> (r: Result<
        Transfer,
        PSP22Error,
    >)
        ensures
            answers(r, mint_request_outcome(old(self)@, *env, account, amount).1),
            final(self)@ == mint_request_outcome(old(self)@, *env, account, amount).0,
    {
        match self._require_admin(env) {
            Ok(()) => {},
            Err(fault) => {
                return Err(to_error(fault));
            },
        }
        if !self.is_mintable {
            return Err(to_error(TokenFault::NotMintable));
        }
        to_psp22(self._mint_to(env, account, amount))
    }
}

impl PSP22 for Token {
    open spec fn spec_total_supply(&self) -> Balance {
        self@.supply
    }

    open spec fn spec_balance_of(&self, owner: AccountId) -> Balance {
        value_or_zero(self@.balances, owner)
    }

    open spec fn spec_allowance(&self, owner: AccountId, spender: AccountId) -> Balance {
        allowance_or_zero(self@.allowances, owner, spender)
    }

    open spec fn accepts_transfer(&self, env: Env, to: AccountId, value: Balance) -> bool {
        transfer_outcome(self@, env, env.caller, to, value).1 is Ok
    }

    open spec fn follows_transfer(
        &self,
        before: &Self,
        env: Env,
        to: AccountId,
        value: Balance,
    ) -> bool {
        self@ == transfer_outcome(before@, env, env.caller, to, value).0
    }

    open spec fn accepts_transfer_from(
        &self,
        env: Env,
        from: AccountId,
        to: AccountId,
        value: Balance,
    ) -> bool {
        transfer_from_outcome(self@, env, from, to, value).1 is Ok
    }

    open spec fn follows_transfer_from(
        &self,
        before: &Self,
        env: Env,
        from: AccountId,
        to: AccountId,
        value: Balance,
    ) -> bool {
        self@ == transfer_from_outcome(before@, env, from, to, value).0
    }

    fn total_supply(&self) -> (supply: Balance) {
        self._total_supply()
    }

    fn balance_of(&self, owner: AccountId) -> (balance: Balance) {
        self._balance_of(&owner)
    }

    fn allowance(&self, owner: AccountId, spender: AccountId) -> (allowance: Balance) {
        self._allowance(&owner, &spender)
    }

    fn transfer(&mut self, env: &Env, to: AccountId, value: Balance, data: Vec<u8>) -> (r: Result<
        (),
        PSP22Error,
    >)
        ensures
            answers(r, without_value(transfer_outcome(old(self)@, *env, env.caller, to, value).1)),
    {
        match self.transfer_tokens( env, to, value, data) {
            Ok(_) => Ok(()),
            Err(e) => Err(e),
        }
    }

    fn transfer_from(
        &mut self,
        env: &Env,
        from: AccountId,
        to: AccountId,
        value: Balance,
        data: Vec<u8>,
    ) -> (r: Result<(), PSP22Error>)
        ensures
            answers(r, without_value(transfer_from_outcome(old(self)@, *env, from, to, value).1)),
    {
        match self.transfer_tokens_from( env, from, to, value, data) {
            Ok(_) => Ok(()),
            Err(e) => Err(e),
        }
    }

    fn approve(&mut self, env: &Env, spender: AccountId, value: Balance) -> (r: Result<
        (),
        PSP22Error,
    >)
        ensures
            answers(r, without_value(approve_outcome(old(self)@, env.caller, spender, value).1)),
            final(self)@ == approve_outcome(old(self)@, env.caller, spender, value).0,
    {
        match self.approve_spender( env, spender, value) {
            Ok(_) => Ok(()),
            Err(e) => Err(e),
        }
    }

    fn increase_allowance(&mut self, env: &Env, spender: AccountId, delta_value: Balance) -> (r:
        Result<(), PSP22Error>)
        ensures
            answers(
                r,
                without_value(increase_allowance_outcome(old(self)@, *env, spender, delta_value).1),
            ),
            final(self)@ == increase_allowance_outcome(old(self)@, *env, spender, delta_value).0,
    {
        match self.raise_allowance( env, spender, delta_value) {
            Ok(_) => Ok(()),
            Err(e) => Err(e),
        }
    }

    fn decrease_allowance(&mut self, env: &Env, spender: AccountId, delta_value: Balance) -> (r:
        Result<(), PSP22Error>)
        ensures
            answers(
                r,
                without_value(decrease_allowance_outcome(old(self)@, *env, spender, delta_value).1),
            ),
            final(self)@ == decrease_allowance_outcome(old(self)@, *env, spender, delta_value).0,
    {
        match self.lower_allowance( env, spender, delta_value) {
            Ok(_) => Ok(()),
            Err(e) => Err(e),
        }
    }
}

/// A transfer that the token carries out moves exactly `amount` tokens: the
/// sender has that many fewer, the recipient that many more, every other
/// balance and the supply are as they were. A transfer to oneself changes no
/// balance.
pub proof fn transfer_moves_exactly(
    s: TokenState,
    env: Env,
    from: AccountId,
    to: AccountId,
    amount: u128,
    other: AccountId,
)
    requires
        transfer_outcome(s, env, from, to, amount).1 is Ok,
    ensures
        ({
            let after = transfer_outcome(s, env, from, to, amount).0;
            &&& after.supply == s.supply
            &&& after.allowances == s.allowances
            &&& from != to ==> value_or_zero(after.balances, from) == value_or_zero(
                s.balances,
                from,
            ) - amount
            &&& from != to ==> value_or_zero(after.balances, to) == value_or_zero(s.balances, to)
                + amount
            &&& from == to ==> value_or_zero(after.balances, from) == value_or_zero(
                s.balances,
                from,
            )
            &&& other != from && other != to ==> value_or_zero(after.balances, other)
                == value_or_zero(s.balances, other)
        }),
{
}

/// A request that the token refuses changes nothing.
pub proof fn refused_request_changes_nothing(
    s: TokenState,
    env: Env,
    from: AccountId,
    to: AccountId,
    amount: u128,
)
    ensures
        transfer_outcome(s, env, from, to, amount).1 is Err ==> transfer_outcome(
            s,
            env,
            from,
            to,
            amount,
        ).0 == s,
        transfer_from_outcome(s, env, from, to, amount).1 is Err ==> transfer_from_outcome(
            s,
            env,
            from,
            to,
            amount,
        ).0 == s,
        mint_outcome(s, env, to, amount).1 is Err ==> mint_outcome(s, env, to, amount).0 == s,
        burn_outcome(s, env, from, amount).1 is Err ==> burn_outcome(s, env, from, amount).0 == s,
{
}

/// Minting raises the supply and the balance of the account by the same
/// amount, and burning lowers both by the same amount.
pub proof fn mint_and_burn_keep_supply_in_step(
    s: TokenState,
    env: Env,
    account: AccountId,
    amount: u128,
)
    ensures
        mint_outcome(s, env, account, amount).1 is Ok ==> {
            let after = mint_outcome(s, env, account, amount).0;
            &&& after.supply == s.supply + amount
            &&& value_or_zero(after.balances, account) == value_or_zero(s.balances, account)
                + amount
        },
        burn_outcome(s, env, account, amount).1 is Ok ==> {
            let after = burn_outcome(s, env, account, amount).0;
            &&& after.supply == s.supply - amount
            &&& value_or_zero(after.balances, account) == value_or_zero(s.balances, account)
                - amount
        },
{
}

/// Where the sender and the recipient together hold no more than fits in 128
/// bits, as they do in a token whose supply fits, no transfer between them
/// is refused for want of room.
pub proof fn transfer_within_supply_has_room(
    s: TokenState,
    env: Env,
    from: AccountId,
    to: AccountId,
    amount: u128,
)
    requires
        from != to ==> value_or_zero(s.balances, from) + value_or_zero(s.balances, to)
            <= u128::MAX,
    ensures
        transfer_fault(s, env, from, to, amount) != Some(TokenFault::Overflow),
{
}

} // verus!
