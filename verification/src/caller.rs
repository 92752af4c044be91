use vstd::prelude::*;
use crate::account::AccountId;

verus! {

/// A contract that can be asked to emit its data.
pub trait Callee: Sized {
    /// Whether the contract may be in this state after it has answered, in
    /// the state `before`, a request to emit its data.
    spec fn follows_emit_data(&self, before: &Self) -> bool;

    /// Asks the contract to emit its data.
    fn emit_data(&mut self)
        ensures
            final(self).follows_emit_data(old(self)),
    ;
}

/// The first event of a cross-contract call.
#[derive(Clone, Copy, Debug, PartialEq, Eq)]
pub struct TestCallerTestEvent1Event1 {
    pub ido_token: u128,
    pub price: u128,
    pub price_decimals: u32,
}

/// The second event of a cross-contract call.
#[derive(Clone, Copy, Debug, PartialEq, Eq)]
pub struct TestCallerTestEvent1Event2 {
    pub buyer: u128,
    pub native_amount: u128,
    pub ido_token_amount: u128,
    pub nonce: u128,
}

/// A contract that calls another one and then emits events of its own.
#[derive(Clone, Copy, Debug, PartialEq, Eq)]
pub struct CallerContract {
    callee: AccountId,
}

impl CallerContract {
    /// The account of the contract that is called.
    pub closed spec fn spec_callee(&self) -> AccountId {
        self.callee
    }

    /// A contract that calls the contract at `callee_`.
    pub fn new(callee_: AccountId) -> (contract: Self)
        ensures
            contract.callee() == callee_,
    {
        CallerContract { callee: callee_ }
    }

    /// The account of the contract that is called.
    #[verifier::when_used_as_spec(spec_callee)]
    pub fn callee(&self) -> (callee: AccountId)
        ensures
            callee == self.spec_callee(),
    {
        self.callee
    }

    /// Asks the callee once to emit its data, and answers the one event to
    /// emit after it, every field zero.
    pub fn cross_call_01<C: Callee>(&mut self, interface: &mut C) -> (event:
        TestCallerTestEvent1Event1)
        ensures
            final(interface).follows_emit_data(old(interface)),
            event == (TestCallerTestEvent1Event1 { ido_token: 0, price: 0, price_decimals: 0 }),
            *final(self) == *old(self),
    {
        interface.emit_data();
        TestCallerTestEvent1Event1 { ido_token: 0, price: 0, price_decimals: 0 }
    }

    /// Asks the callee once to emit its data, and answers the two events to
    /// emit after it, in their order, every field zero.
    pub fn cross_call_02<C: Callee>(&mut self, interface: &mut C) -> (events: (
        TestCallerTestEvent1Event1,
        TestCallerTestEvent1Event2,
    ))
        ensures
            final(interface).follows_emit_data(old(interface)),
            events == (
                TestCallerTestEvent1Event1 { ido_token: 0, price: 0, price_decimals: 0 },
                TestCallerTestEvent1Event2 {
                    buyer: 0,
                    native_amount: 0,
                    ido_token_amount: 0,
                    nonce: 0,
                },
            ),
            *final(self) == *old(self),
    {
        interface.emit_data();
        (
            TestCallerTestEvent1Event1 { ido_token: 0, price: 0, price_decimals: 0 },
            TestCallerTestEvent1Event2 { buyer: 0, native_amount: 0, ido_token_amount: 0, nonce: 0 },
        )
    }
}

} // verus!
