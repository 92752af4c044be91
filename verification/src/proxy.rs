use vstd::prelude::*;
use crate::account::{AccountId, Balance, Env};

verus! {

/// The call that a proxy makes in place of answering by itself.
#[derive(Clone, Copy, Debug, PartialEq, Eq)]
pub struct ForwardCall {
    /// The contract that is called.
    pub callee: AccountId,
    /// The native currency handed on.
    pub transferred_value: Balance,
    /// The gas limit of the call; zero stands for all the gas that is left.
    pub gas_limit: u64,
    /// Whether the input of the proxy's own call is handed on.
    pub forward_input: bool,
    /// Whether the proxy ends with the call, so that the callee's answer is
    /// the proxy's.
    pub tail_call: bool,
}

/// A contract that forwards every call that it does not know to another
/// contract.
#[derive(Clone, Copy, Debug, PartialEq, Eq)]
pub struct Proxy {
    forward_to: AccountId,
    admin: AccountId,
}

impl Proxy {
    /// The contract to which calls are forwarded.
    pub closed spec fn spec_forward_to(&self) -> AccountId {
        self.forward_to
    }

    /// The account that may change where calls are forwarded to.
    pub closed spec fn spec_admin(&self) -> AccountId {
        self.admin
    }

    /// A proxy that forwards to `forward_to` and that `admin` may redirect.
    pub fn new(forward_to: AccountId, admin: AccountId) -> (proxy: Self)
        ensures
            proxy.forward_to() == forward_to,
            proxy.admin() == admin,
    {
        Proxy { forward_to, admin }
    }

    /// The contract to which calls are forwarded.
    #[verifier::when_used_as_spec(spec_forward_to)]
    pub fn forward_to(&self) -> (forward_to: AccountId)
        ensures
            forward_to == self.spec_forward_to(),
    {
        self.forward_to
    }

    /// The account that may change where calls are forwarded to.
    #[verifier::when_used_as_spec(spec_admin)]
    pub fn admin(&self) -> (admin: AccountId)
        ensures
            admin == self.spec_admin(),
    {
        self.admin
    }

    /// Redirects the proxy to `new_address`. Only the admin may ask for it.
    pub fn change_forward_address(&mut self, env: &Env, new_address: AccountId)
        requires
            env.caller == old(self).admin(),
        ensures
            final(self).forward_to() == new_address,
            final(self).admin() == old(self).admin(),
    {
        self.forward_to = new_address;
    }

    /// The call to make for a call that the proxy does not know: to the
    /// forwarding address, with the attached value and the input handed on,
    /// no gas limit of its own, and the callee's answer in place of the
    /// proxy's.
    pub fn forward(&self, env: &Env) -> (call: ForwardCall)
        ensures
            call == (ForwardCall {
                callee: self.forward_to(),
                transferred_value: env.transferred_value,
                gas_limit: 0,
                forward_input: true,
                tail_call: true,
            }),
    {
        ForwardCall {
            callee: self.forward_to,
            transferred_value: env.transferred_value,
            gas_limit: 0,
            forward_input: true,
            tail_call: true,
        }
    }
}

} // verus!
