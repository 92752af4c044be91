//! Settlement of token sales and of staking, authorized by signatures.
//!
//! A trusted signer authorizes each request off the chain. A contract admits
//! a request once: it checks the deadline and the nonce of the caller,
//! consumes the nonce, builds the message that the signer must have signed,
//! recovers the signer from the signature, and only then changes balances.
//!
//! The modules, from the leaves up:
//! - `account`, `table`, `text`: accounts, a keyed store, decimal and
//!   hexadecimal text;
//! - `codec`: the message of an authorization;
//! - `signature`: recovery of the signer of a message;
//! - `replay`: one counter per account against replays;
//! - `access`: the owner of a contract and the roles it grants;
//! - `psp22`, `token`: the interface of a token ledger, and a token;
//! - `ido`, `staking`: the sale and the staking contract;
//! - `ido_factory`, `token_factory`, `proxy`, `callee`, `caller`: the
//!   contracts around them.

pub mod access;
pub mod account;
pub mod callee;
pub mod caller;
pub mod codec;
pub mod ido;
pub mod ido_factory;
pub mod proxy;
pub mod psp22;
pub mod replay;
pub mod signature;
pub mod staking;
pub mod table;
pub mod text;
pub mod token;
pub mod token_factory;
