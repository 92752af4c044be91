use vstd::prelude::*;
use vstd::string::*;
use crate::account::{AccountId, Balance, Env};
use crate::ido_factory::{instantiation_salt, salt_of, CodeHash};

verus! {

/// The label that goes into the salt of a token: the bytes of
/// "token_contract".
pub const TOKEN_SALT_LABEL: [u8; 14] = [
    116, 111, 107, 101, 110, 95, 99, 111, 110, 116, 114, 97, 99, 116,
];

/// Why a token factory turned a request away.
#[derive(Clone, Copy, Debug, PartialEq, Eq)]
pub enum TokenFactoryError {
    /// The token contract could not be instantiated.
    CreateTokenFailed,
}

/// The options with which a token is set up.
#[derive(Clone, Debug, PartialEq, Eq)]
pub struct TokenOptions {
    pub owner: AccountId,
    pub name: String,
    pub symbol: String,
    pub decimals: u8,
    pub total_supply: u128,
    pub is_require_whitelist: bool,
    pub is_require_blacklist: bool,
    pub is_burnable: bool,
    pub is_mintable: bool,
    pub is_force_transfer_enable: bool,
    pub is_pausable: bool,
    pub is_require_max_alloc_per_address: bool,
    pub max_alloc_per_user: u128,
    pub tax_fee_receiver: AccountId,
    pub tax_fee: u128,
    pub document: String,
}

/// A token was created.
#[derive(Clone, Debug, PartialEq, Eq)]
pub struct TokenCreatedEvent {
    pub owner: AccountId,
    /// The account that asked for the token.
    pub caller: AccountId,
    /// The account of the token contract.
    pub address: AccountId,
    pub name: String,
    pub symbol: String,
    pub decimals: u8,
    pub total_supply: u128,
    pub is_require_whitelist: bool,
    pub is_require_blacklist: bool,
    pub is_burnable: bool,
    pub is_mintable: bool,
    pub is_require_max_alloc_per_address: bool,
    pub max_alloc_per_user: u128,
    pub is_force_transfer_enable: bool,
    pub is_pausable: bool,
    pub tax_fee: u128,
    pub tax_fee_receiver: AccountId,
    pub document: String,
    /// The number of tokens created so far, this one included.
    pub length: u128,
}

/// Whether an event tells of the token at `address` that `caller` had made
/// with `options`, as the `length`-th token of the factory.
pub open spec fn tells_of(
    event: TokenCreatedEvent,
    options: TokenOptions,
    caller: AccountId,
    address: AccountId,
    length: nat,
) -> bool {
    &&& event.owner == options.owner
    &&& event.caller == caller
    &&& event.address == address
    &&& event.name@ == options.name@
    &&& event.symbol@ == options.symbol@
    &&& event.decimals == options.decimals
    &&& event.total_supply == options.total_supply
    &&& event.is_require_whitelist == options.is_require_whitelist
    &&& event.is_require_blacklist == options.is_require_blacklist
    &&& event.is_burnable == options.is_burnable
    &&& event.is_mintable == options.is_mintable
    &&& event.is_require_max_alloc_per_address == options.is_require_max_alloc_per_address
    &&& event.max_alloc_per_user == options.max_alloc_per_user
    &&& event.is_force_transfer_enable == options.is_force_transfer_enable
    &&& event.is_pausable == options.is_pausable
    &&& event.tax_fee == options.tax_fee
    &&& event.tax_fee_receiver == options.tax_fee_receiver
    &&& event.document@ == options.document@
    &&& event.length == length
}

/// What the host needs to instantiate a token contract, besides the options
/// of the token.
#[derive(Clone, Copy, Debug, PartialEq, Eq)]
pub struct TokenInstantiation {
    pub code_hash: CodeHash,
    pub salt: [u8; 4],
    /// The native currency that the new contract starts with.
    pub endowment: Balance,
}

/// What a token factory holds.
pub struct TokenFactoryState {
    pub token_contract_code_hash: CodeHash,
    /// The tokens, in the order of their creation.
    pub tokens: Seq<AccountId>,
}

/// A contract that creates tokens and keeps their record.
pub struct TokenFactory {
    token_contract_code_hash: CodeHash,
    tokens: Vec<AccountId>,
}

impl View for TokenFactory {
    type V = TokenFactoryState;

    closed spec fn view(&self) -> TokenFactoryState {
        TokenFactoryState {
            token_contract_code_hash: self.token_contract_code_hash,
            tokens: self.tokens@,
        }
    }
}

impl TokenFactory {
    /// A factory that has created no token.
    pub fn new(token_contract_code_hash: CodeHash) -> (factory: Self)
        ensures
            factory@ == (TokenFactoryState { token_contract_code_hash, tokens: Seq::empty() }),
    {
        TokenFactory { token_contract_code_hash, tokens: Vec::new() }
    }

    /// A factory with the code hash and the tokens given.
    pub fn from_parts(token_contract_code_hash: CodeHash, tokens: Vec<AccountId>) -> (factory: Self)
        ensures
            factory@ == (TokenFactoryState { token_contract_code_hash, tokens: tokens@ }),
    {
        TokenFactory { token_contract_code_hash, tokens }
    }

    /// The code hash of the token contract.
    pub fn token_contract_code_hash(&self) -> (hash: CodeHash)
        ensures
            hash == self@.token_contract_code_hash,
    {
        self.token_contract_code_hash
    }

    /// The token at `index`, in the order of creation.
    pub fn get_token(&self, index: u128) -> (token: Option<AccountId>)
        ensures
            token == if index < self@.tokens.len() {
                Some(self@.tokens[index as int])
            } else {
                None::<AccountId>
            },
    {
        if index < self.tokens.len() as u128 {
            Some(self.tokens[index as usize])
        } else {
            None
        }
    }

    /// The number of tokens created.
    pub fn get_token_length(&self) -> (n: u128)
        ensures
            n == self@.tokens.len(),
    {
        self.tokens.len() as u128
    }

    /// What the host needs to instantiate a token contract at the time of
    /// the call.
    pub fn token_instantiation(&self, env: &Env) -> (request: TokenInstantiation)
        ensures
            request.code_hash == self@.token_contract_code_hash,
            request.salt@ == salt_of(env.block_timestamp, TOKEN_SALT_LABEL@),
            request.endowment == 0,
    {
        TokenInstantiation {
            code_hash: self.token_contract_code_hash,
            salt: instantiation_salt(env.block_timestamp, &TOKEN_SALT_LABEL),
            endowment: 0,
        }
    }

    /// Records the token that the host instantiated with `options`, and
    /// answers its account and the event to emit. `instantiated` is the
    /// account of the new token contract, `None` where the host could not
    /// instantiate it; the factory then changes nothing.
    pub fn create_token(
        &mut self,
        env: &Env,
        instantiated: Option<AccountId>,
        options: TokenOptions,
    ) -> (r: Result<(AccountId, TokenCreatedEvent), TokenFactoryError>)
        ensures
            match instantiated {
                Some(address) => {
                    &&& final(self)@ == (TokenFactoryState {
                        tokens: old(self)@.tokens.push(address),
                        ..old(self)@
                    })
                    &&& r matches Ok(created)
                    &&& created.0 == address
                    &&& tells_of(
                        created.1,
                        options,
                        env.caller,
                        address,
                        old(self)@.tokens.len() + 1,
                    )
                },
                None => {
                    &&& final(self)@ == old(self)@
                    &&& r == Err::<(AccountId, TokenCreatedEvent), TokenFactoryError>(
                        TokenFactoryError::CreateTokenFailed,
                    )
                },
            },
    {
        let address = match instantiated {
            Some(address) => address,
            None => {
                return Err(TokenFactoryError::CreateTokenFailed);
            },
        };
        let index = self.tokens.len() as u128;
        self.tokens.push(address);
        let event = TokenCreatedEvent {
            owner: options.owner,
            caller: env.caller,
            address,
            name: options.name,
            symbol: options.symbol,
            decimals: options.decimals,
            total_supply: options.total_supply,
            is_require_whitelist: options.is_require_whitelist,
            is_require_blacklist: options.is_require_blacklist,
            is_burnable: options.is_burnable,
            is_mintable: options.is_mintable,
            is_require_max_alloc_per_address: options.is_require_max_alloc_per_address,
            max_alloc_per_user: options.max_alloc_per_user,
            is_force_transfer_enable: options.is_force_transfer_enable,
            is_pausable: options.is_pausable,
            tax_fee: options.tax_fee,
            tax_fee_receiver: options.tax_fee_receiver,
            document: options.document,
            length: index + 1,
        };
        Ok((address, event))
    }
}

} // verus!
