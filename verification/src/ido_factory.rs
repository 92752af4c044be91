use vstd::prelude::*;
use crate::access::{granted_of, AccessControl, AccessState, RoleType};
use crate::table::map_of;
use crate::account::{AccountId, Balance, Env, Timestamp};
use crate::psp22::{PSP22Error, PSP22};

verus! {

/// A code hash, or another digest of 32 bytes.
pub type CodeHash = [u8; 32];

/// The role whose holders may create pools.
pub const DEPLOYER: RoleType = 0xda4aede2;

/// The label that goes into the salt of a pool: the bytes of "ido_factory".
pub const POOL_SALT_LABEL: [u8; 11] = [105, 100, 111, 95, 102, 97, 99, 116, 111, 114, 121];

/// The 32-bit xxHash of `input` with the seed `seed`.
pub uninterp spec fn xxh32_digest(input: Seq<u8>, seed: u32) -> u32;

/// 256 to the power `e`.
pub open spec fn pow256(e: nat) -> nat
    decreases e,
{
    if e == 0 {
        1
    } else {
        256 * pow256((e - 1) as nat)
    }
}

/// The first `width` bytes of `n`, the least significant byte first.
pub open spec fn le_bytes(n: nat, width: nat) -> Seq<u8> {
    Seq::new(width, |i: int| ((n / pow256(i as nat)) % 256) as u8)
}

/// The salt with which a contract is instantiated at the time `timestamp`:
/// the 32-bit xxHash, seed zero and least significant byte first, of the
/// eight bytes of the time, least significant byte first, and the label.
pub open spec fn salt_of(timestamp: Timestamp, label: Seq<u8>) -> Seq<u8> {
    le_bytes(xxh32_digest(le_bytes(timestamp as nat, 8) + label, 0) as nat, 4)
}

/// Calls `parity_scale_codec::Encode::encode` on a pair of a time and a
/// label. The encoding of a pair is the encoding of its first part and then
/// of its second; that of a `u64` is its eight bytes, the least significant
/// first; that of an array of bytes is the bytes, with no length before them.
#[verifier::external_body]
fn encode_salt_seed<const N: usize>(timestamp: Timestamp, label: &[u8; N]) -> (bytes: Vec<u8>)
    ensures
        bytes@ == le_bytes(timestamp as nat, 8) + label@,
{
    parity_scale_codec::Encode::encode(&(timestamp, label))
}

/// Calls `xxhash_rust::const_xxh32::xxh32`, the 32-bit xxHash of the input
/// with a seed.
#[verifier::external_body]
fn xxh32(input: &[u8], seed: u32) -> (digest: u32)
    ensures
        digest == xxh32_digest(input@, seed),
{
    xxhash_rust::const_xxh32::xxh32(input, seed)
}

/// The four bytes of a digest, the least significant first.
pub fn digest_bytes(digest: u32) -> (bytes: [u8; 4])
    ensures
        bytes@ == le_bytes(digest as nat, 4),
{
    let bytes = [
        (digest % 256) as u8,
        ((digest / 256) % 256) as u8,
        ((digest / 65536) % 256) as u8,
        ((digest / 16777216) % 256) as u8,
    ];
    proof {
        reveal_with_fuel(pow256, 5);
        assert(bytes@ =~= le_bytes(digest as nat, 4));
    }
    bytes
}

/// The salt with which a contract is instantiated at the time `timestamp`.
pub fn instantiation_salt<const N: usize>(timestamp: Timestamp, label: &[u8; N]) -> (salt: [u8; 4])
    ensures
        salt@ == salt_of(timestamp, label@),
{
    let seed = encode_salt_seed(timestamp, label);
    digest_bytes(xxh32(seed.as_slice(), 0))
}

/// Why a factory turned a request away.
#[derive(Clone, Copy, Debug, PartialEq, Eq)]
pub enum FactoryError {
    /// The pool contract could not be instantiated.
    PoolInstantiationFailed,
    /// The caller does not hold the deployer role.
    NotDeployer,
    /// The caller is not the owner.
    NotOwner,
}

/// A token transfer that a helper made did not go through.
#[derive(Clone, Copy, Debug, PartialEq, Eq)]
pub enum TransferHelperError {
    TransferFailed,
}

/// A pool was created.
#[derive(Clone, Copy, Debug, PartialEq, Eq)]
pub struct PoolCreated {
    /// The token that the pool sells.
    pub token: AccountId,
    /// The number that the deployer gave the pool.
    pub id: u128,
    /// The account of the pool contract.
    pub pool: AccountId,
    /// The number of pools created so far, this one included.
    pub pool_len: u128,
}

/// What the host needs to instantiate a pool contract.
#[derive(Clone, Copy, Debug, PartialEq, Eq)]
pub struct PoolInstantiation {
    pub code_hash: CodeHash,
    pub salt: [u8; 4],
    /// The native currency that the new contract starts with.
    pub endowment: Balance,
    /// The owner of the pool: the deployer.
    pub owner: AccountId,
    pub ido_token: AccountId,
    pub signer: AccountId,
    pub price: u128,
    pub price_decimals: u32,
    pub max_issue_ido_amount: u128,
}

/// The record of the pools of a factory, as plain storage.
pub struct FactoryData {
    pub pools: Vec<AccountId>,
    pub pool_length: u128,
    pub pool_contract_code_hash: CodeHash,
}

impl Default for FactoryData {
    fn default() -> (data: Self)
        ensures
            data.pools@ == Seq::<AccountId>::empty(),
            data.pool_length == 0,
            data.pool_contract_code_hash@ == Seq::new(32, |i: int| 0u8),
    {
        let data = FactoryData {
            pools: Vec::new(),
            pool_length: 0,
            pool_contract_code_hash: [0u8; 32],
        };
        assert(data.pool_contract_code_hash@ =~= Seq::new(32, |i: int| 0u8));
        data
    }
}

/// What a factory holds.
pub struct FactoryState {
    /// The pools, in the order of their creation.
    pub pools: Seq<AccountId>,
    pub pool_contract_code_hash: CodeHash,
    pub access: AccessState,
}

/// A contract that creates sale pools and keeps their record.
pub struct FactoryContract {
    pools: Vec<AccountId>,
    pool_contract_code_hash: CodeHash,
    access: AccessControl,
}

impl View for FactoryContract {
    type V = FactoryState;

    closed spec fn view(&self) -> FactoryState {
        FactoryState {
            pools: self.pools@,
            pool_contract_code_hash: self.pool_contract_code_hash,
            access: self.access@,
        }
    }
}

/// What a factory holds, as plain data to store and to load.
pub struct FactorySnapshot {
    pub pools: Vec<AccountId>,
    pub pool_contract_code_hash: CodeHash,
    pub roles: Vec<((AccountId, RoleType), bool)>,
    pub owner: AccountId,
}

impl View for FactorySnapshot {
    type V = FactoryState;

    /// The state that the data stands for. Where the list of roles names a
    /// pair twice, the last entry counts.
    open spec fn view(&self) -> FactoryState {
        FactoryState {
            pools: self.pools@,
            pool_contract_code_hash: self.pool_contract_code_hash,
            access: AccessState { owner: self.owner, granted: granted_of(map_of(self.roles@)) },
        }
    }
}

fn copy_of(accounts: &Vec<AccountId>) -> (copy: Vec<AccountId>)
    ensures
        copy@ == accounts@,
{
    let mut copy: Vec<AccountId> = Vec::new();
    let mut i: usize = 0;
    while i < accounts.len()
        invariant
            i <= accounts@.len(),
            copy@ == accounts@.take(i as int),
        decreases accounts@.len() - i,
    {
        copy.push(accounts[i]);
        assert(copy@ =~= accounts@.take(i + 1));
        i += 1;
    }
    assert(accounts@.take(i as int) =~= accounts@);
    copy
}

/// What a request of the owner does.
pub open spec fn owner_outcome(s: FactoryState, env: Env, done: FactoryState) -> (
    FactoryState,
    Result<(), FactoryError>,
) {
    if env.caller == s.access.owner {
        (done, Ok(()))
    } else {
        (s, Err(FactoryError::NotOwner))
    }
}

/// What recording a pool does. `instantiated` is the account of the new
/// pool contract, `None` where the host could not instantiate it.
pub open spec fn create_pool_outcome(
    s: FactoryState,
    env: Env,
    id: u128,
    ido_token: AccountId,
    instantiated: Option<AccountId>,
) -> (FactoryState, Result<(AccountId, PoolCreated), FactoryError>) {
    if !s.access.granted.contains((env.caller, DEPLOYER)) {
        (s, Err(FactoryError::NotDeployer))
    } else {
        match instantiated {
            None => (s, Err(FactoryError::PoolInstantiationFailed)),
            Some(pool) => (
                FactoryState { pools: s.pools.push(pool), ..s },
                Ok(
                    (
                        pool,
                        PoolCreated {
                            token: ido_token,
                            id,
                            pool,
                            pool_len: (s.pools.len() + 1) as u128,
                        },
                    ),
                ),
            ),
        }
    }
}

impl FactoryContract {
    /// A factory that the caller owns and that has created no pool.
    pub fn new(env: &Env, pool_code_hash: CodeHash) -> (factory: Self)
        ensures
            factory@ == (FactoryState {
                pools: Seq::empty(),
                pool_contract_code_hash: pool_code_hash,
                access: AccessState { owner: env.caller, granted: Set::empty() },
            }),
    {
        FactoryContract {
            pools: Vec::new(),
            pool_contract_code_hash: pool_code_hash,
            access: AccessControl::new(env.caller),
        }
    }

    /// The factory as plain data.
    pub fn snapshot(&self) -> (data: FactorySnapshot)
        ensures
            data@ == self@,
    {
        FactorySnapshot {
            pools: copy_of(&self.pools),
            pool_contract_code_hash: self.pool_contract_code_hash,
            roles: self.access.roles_to_vec(),
            owner: self.access.owner(),
        }
    }

    /// The factory that plain data stands for.
    pub fn restore(data: &FactorySnapshot) -> (factory: Self)
        ensures
            factory@ == data@,
    {
        FactoryContract {
            pools: copy_of(&data.pools),
            pool_contract_code_hash: data.pool_contract_code_hash,
            access: AccessControl::from_parts(data.owner, &data.roles),
        }
    }

    /// The number of pools created.
    pub fn pools_length(&self) -> (n: u128)
        ensures
            n == self@.pools.len(),
    {
        self.pools.len() as u128
    }

    /// The code hash of the pool contract.
    pub fn pool_contract_code_hash(&self) -> (hash: CodeHash)
        ensures
            hash == self@.pool_contract_code_hash,
    {
        self.pool_contract_code_hash
    }

    /// Sets the code hash of the pool contract, if the caller is the owner.
    pub fn set_pool_contract_code_hash(&mut self, env: &Env, new_hash: CodeHash) -> (r: Result<
        (),
        FactoryError,
    >)
        ensures
            (final(self)@, r) == owner_outcome(
                old(self)@,
                *env,
                FactoryState { pool_contract_code_hash: new_hash, ..old(self)@ },
            ),
    {
        if !self.access.is_owner(&env.caller) {
            return Err(FactoryError::NotOwner);
        }
        self.pool_contract_code_hash = new_hash;
        Ok(())
    }

    /// Answers what the host needs to instantiate a pool for a deployer, and
    /// refuses any other caller. The deployer owns the pool.
    pub fn _instantiate_pool(
        &self,
        env: &Env,
        ido_token: AccountId,
        signer: AccountId,
        price: u128,
        price_decimals: u32,
        max_issue_ido_amount: u128,
    ) -> (r: Result<PoolInstantiation, FactoryError>)
        ensures
            match r {
                Ok(request) => {
                    &&& self@.access.granted.contains((env.caller, DEPLOYER))
                    &&& request.code_hash == self@.pool_contract_code_hash
                    &&& request.salt@ == salt_of(env.block_timestamp, POOL_SALT_LABEL@)
                    &&& request.endowment == 0
                    &&& request.owner == env.caller
                    &&& request.ido_token == ido_token
                    &&& request.signer == signer
                    &&& request.price == price
                    &&& request.price_decimals == price_decimals
                    &&& request.max_issue_ido_amount == max_issue_ido_amount
                },
                Err(e) => e == FactoryError::NotDeployer && !self@.access.granted.contains(
                    (env.caller, DEPLOYER),
                ),
            },
    {
        if !self.access.is_role_granted(DEPLOYER, env.caller) {
            return Err(FactoryError::NotDeployer);
        }
        Ok(
            PoolInstantiation {
                code_hash: self.pool_contract_code_hash,
                salt: instantiation_salt(env.block_timestamp, &POOL_SALT_LABEL),
                endowment: 0,
                owner: env.caller,
                ido_token,
                signer,
                price,
                price_decimals,
                max_issue_ido_amount,
            },
        )
    }

    /// Records the pool that the host instantiated for a deployer, and
    /// answers its account and the event to emit. Refuses a caller who is no
    /// deployer, and reports an instantiation that failed.
    pub fn create_pool(
        &mut self,
        env: &Env,
        id: u128,
        ido_token: AccountId,
        instantiated: Option<AccountId>,
    ) -> (r: Result<(AccountId, PoolCreated), FactoryError>)
        ensures
            (final(self)@, r) == create_pool_outcome(old(self)@, *env, id, ido_token, instantiated),
    {
        if !self.access.is_role_granted(DEPLOYER, env.caller) {
            return Err(FactoryError::NotDeployer);
        }
        let pool_contract = match instantiated {
            Some(pool_contract) => pool_contract,
            None => {
                return Err(FactoryError::PoolInstantiationFailed);
            },
        };
        let index = self.pools.len() as u128;
        self.pools.push(pool_contract);
        let event = PoolCreated {
            token: ido_token,
            id,
            pool: pool_contract,
            pool_len: index + 1,
        };
        Ok((pool_contract, event))
    }

    /// The pool at `index`, in the order of creation.
    pub fn pools(&self, index: u128) -> (pool: Option<AccountId>)
        ensures
            pool == if index < self@.pools.len() {
                Some(self@.pools[index as int])
            } else {
                None::<AccountId>
            },
    {
        if index < self.pools.len() as u128 {
            Some(self.pools[index as usize])
        } else {
            None
        }
    }

    /// The owner of the factory.
    pub fn owner(&self) -> (owner: AccountId)
        ensures
            owner == self@.access.owner,
    {
        self.access.owner()
    }

    /// Makes `new_owner` the owner, if the caller is the owner.
    pub fn transfer_ownership(&mut self, env: &Env, new_owner: AccountId) -> (r: Result<
        (),
        FactoryError,
    >)
        ensures
            (final(self)@, r) == owner_outcome(
                old(self)@,
                *env,
                FactoryState {
                    access: AccessState { owner: new_owner, ..old(self)@.access },
                    ..old(self)@
                },
            ),
    {
        match self.access.transfer_ownership(&env.caller, new_owner) {
            Ok(()) => Ok(()),
            Err(_) => Err(FactoryError::NotOwner),
        }
    }

    /// Grants `role` to `user`, if the caller is the owner.
    pub fn grant_role(&mut self, env: &Env, role: RoleType, user: AccountId) -> (r: Result<
        (),
        FactoryError,
    >)
        ensures
            (final(self)@, r) == owner_outcome(
                old(self)@,
                *env,
                FactoryState {
                    access: AccessState {
                        granted: old(self)@.access.granted.insert((user, role)),
                        ..old(self)@.access
                    },
                    ..old(self)@
                },
            ),
    {
        match self.access.grant_role(&env.caller, role, user) {
            Ok(()) => Ok(()),
            Err(_) => Err(FactoryError::NotOwner),
        }
    }

    /// Takes `role` from `user`, if the caller is the owner.
    pub fn revoke_role(&mut self, env: &Env, role: RoleType, user: AccountId) -> (r: Result<
        (),
        FactoryError,
    >)
        ensures
            (final(self)@, r) == owner_outcome(
                old(self)@,
                *env,
                FactoryState {
                    access: AccessState {
                        granted: old(self)@.access.granted.remove((user, role)),
                        ..old(self)@.access
                    },
                    ..old(self)@
                },
            ),
    {
        match self.access.revoke_role(&env.caller, role, user) {
            Ok(()) => Ok(()),
            Err(_) => Err(FactoryError::NotOwner),
        }
    }

    /// Whether `user` holds `role`.
    pub fn is_role_granted(&self, role: RoleType, user: AccountId) -> (r: Result<
        bool,
        FactoryError,
    >)
        ensures
            r == Ok::<bool, FactoryError>(self@.access.granted.contains((user, role))),
    {
        Ok(self.access.is_role_granted(role, user))
    }
}

/// Asks `token` to move `value` tokens from the caller to `to`, with no data
/// attached.
pub fn safe_transfer<L: PSP22>(token: &mut L, env: &Env, to: AccountId, value: Balance) -> (r:
    Result<(), PSP22Error>)
    ensures
        r is Ok <==> old(token).accepts_transfer(*env, to, value),
        final(token).follows_transfer(old(token), *env, to, value),
{
    token.transfer(env, to, value, Vec::new())
}

/// Asks `token` to move `value` tokens from `from` to `to` on behalf of the
/// caller, with no data attached.
pub fn safe_transfer_from<L: PSP22>(
    token: &mut L,
    env: &Env,
    from: AccountId,
    to: AccountId,
    value: Balance,
) -> (r: Result<(), PSP22Error>)
    ensures
        r is Ok <==> old(token).accepts_transfer_from(*env, from, to, value),
        final(token).follows_transfer_from(old(token), *env, from, to, value),
{
    token.transfer_from(env, from, to, value, Vec::new())
}

} // verus!
