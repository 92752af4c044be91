use vstd::prelude::*;
use crate::caller::Callee;

verus! {

/// Why the contract turned a request away.
#[derive(Clone, Copy, Debug, PartialEq, Eq)]
pub enum Error {
    /// Returned if not enough balance to fulfill a request is available.
    InsufficientBalance,
    /// Returned if not enough allowance to fulfill a request is available.
    InsufficientAllowance,
}

/// The first of the two events that `emit_data` emits.
#[derive(Clone, Copy, Debug, PartialEq, Eq)]
pub struct TestEvent1 {
    pub ido_token: u128,
    pub price: u128,
    pub price_decimals: u32,
}

/// The second of the two events that `emit_data` emits.
#[derive(Clone, Copy, Debug, PartialEq, Eq)]
pub struct TestEvent2 {
    pub buyer: u128,
    pub native_amount: u128,
    pub ido_token_amount: u128,
    pub nonce: u128,
}

/// A contract that does nothing but emit two events when called.
#[derive(Clone, Copy, Debug, PartialEq, Eq)]
pub struct CalleeContract {
    is_initialized: bool,
}

impl CalleeContract {
    /// Whether the contract has been initialized.
    pub closed spec fn spec_is_initialized(&self) -> bool {
        self.is_initialized
    }

    /// A contract that has not been initialized.
    pub fn new() -> (contract: Self)
        ensures
            !contract.is_initialized(),
    {
        CalleeContract { is_initialized: false }
    }

    /// Whether the contract has been initialized.
    #[verifier::when_used_as_spec(spec_is_initialized)]
    pub fn is_initialized(&self) -> (r: bool)
        ensures
            r == self.spec_is_initialized(),
    {
        self.is_initialized
    }

    /// Answers the two events to emit, every field zero, and changes nothing.
    pub fn emit_data(&mut self) -> (r: Result<(TestEvent1, TestEvent2), Error>)
        ensures
            r == Ok::<(TestEvent1, TestEvent2), Error>(
                (
                    TestEvent1 { ido_token: 0, price: 0, price_decimals: 0 },
                    TestEvent2 { buyer: 0, native_amount: 0, ido_token_amount: 0, nonce: 0 },
                ),
            ),
            *final(self) == *old(self),
    {
        Ok(
            (
                TestEvent1 { ido_token: 0, price: 0, price_decimals: 0 },
                TestEvent2 { buyer: 0, native_amount: 0, ido_token_amount: 0, nonce: 0 },
            ),
        )
    }
}

impl Callee for CalleeContract {
    open spec fn follows_emit_data(&self, before: &Self) -> bool {
        *self == *before
    }

    fn emit_data(&mut self) {
        let _ = CalleeContract::emit_data(self);
    }
}

} // verus!
