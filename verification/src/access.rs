use vstd::prelude::*;
use crate::account::AccountId;
use crate::table::{map_of, Table};

verus! {

/// The name of a role.
pub type RoleType = u32;

/// The caller is neither the owner nor a holder of the role that the
/// operation asks for.
#[derive(Clone, Copy, Debug, PartialEq, Eq)]
pub struct NotAuthorized;

/// Who may change the configuration: the owner, and the roles that the owner
/// has granted.
pub struct AccessState {
    pub owner: AccountId,
    pub granted: Set<(AccountId, RoleType)>,
}

/// The pairs of an account and a role that a table marks as granted.
pub open spec fn granted_of(roles: Map<(AccountId, RoleType), bool>) -> Set<(AccountId, RoleType)> {
    Set::new(|p: (AccountId, RoleType)| roles.contains_key(p) && roles[p])
}

/// The owner of a contract and the table of the roles that were granted.
pub struct AccessControl {
    owner: AccountId,
    roles: Table<(AccountId, RoleType), bool>,
}

impl View for AccessControl {
    type V = AccessState;

    closed spec fn view(&self) -> AccessState {
        AccessState { owner: self.owner, granted: granted_of(self.roles@) }
    }
}

impl AccessControl {
    /// The owner is `owner`, and no role is granted.
    pub fn new(owner: AccountId) -> (access: Self)
        ensures
            access@ == (AccessState { owner, granted: Set::empty() }),
    {
        let access = AccessControl { owner, roles: Table::new() };
        assert(access@.granted =~= Set::empty());
        access
    }

    /// The owner is `owner`, and the roles are those that a list marks as
    /// granted, each pair by its last entry.
    pub fn from_parts(owner: AccountId, roles: &Vec<((AccountId, RoleType), bool)>) -> (access:
        Self)
        ensures
            access@ == (AccessState { owner, granted: granted_of(map_of(roles@)) }),
    {
        AccessControl { owner, roles: Table::from_vec(roles) }
    }

    /// The table of roles as a list, each pair once.
    pub fn roles_to_vec(&self) -> (roles: Vec<((AccountId, RoleType), bool)>)
        ensures
            granted_of(map_of(roles@)) == self@.granted,
    {
        self.roles.to_vec()
    }

    /// The owner.
    pub fn owner(&self) -> (owner: AccountId)
        ensures
            owner == self@.owner,
    {
        self.owner
    }

    /// Whether `caller` is the owner.
    pub fn is_owner(&self, caller: &AccountId) -> (r: bool)
        ensures
            r == (*caller == self@.owner),
    {
        caller.same(&self.owner)
    }

    /// Whether `user` holds `role`.
    pub fn is_role_granted(&self, role: RoleType, user: AccountId) -> (r: bool)
        ensures
            r == self@.granted.contains((user, role)),
    {
        match self.roles.get(&(user, role)) {
            Some(granted) => granted,
            None => false,
        }
    }

    /// Makes `new_owner` the owner, if `caller` is the owner.
    pub fn transfer_ownership(&mut self, caller: &AccountId, new_owner: AccountId) -> (r: Result<
        (),
        NotAuthorized,
    >)
        ensures
            r is Ok <==> *caller == old(self)@.owner,
            r is Ok ==> final(self)@ == (AccessState { owner: new_owner, ..old(self)@ }),
            r is Err ==> final(self)@ == old(self)@,
    {
        if !self.is_owner(caller) {
            return Err(NotAuthorized);
        }
        self.owner = new_owner;
        Ok(())
    }

    /// Grants `role` to `user`, if `caller` is the owner.
    pub fn grant_role(&mut self, caller: &AccountId, role: RoleType, user: AccountId) -> (r: Result<
        (),
        NotAuthorized,
    >)
        ensures
            r is Ok <==> *caller == old(self)@.owner,
            r is Ok ==> final(self)@ == (AccessState {
                granted: old(self)@.granted.insert((user, role)),
                ..old(self)@
            }),
            r is Err ==> final(self)@ == old(self)@,
    {
        if !self.is_owner(caller) {
            return Err(NotAuthorized);
        }
        self.roles.insert((user, role), true);
        assert(self@.granted =~= old(self)@.granted.insert((user, role)));
        Ok(())
    }

    /// Takes `role` from `user`, if `caller` is the owner.
    pub fn revoke_role(
        &mut self,
        caller: &AccountId,
        role: RoleType,
        user: AccountId,
    ) -> (r: Result<(), NotAuthorized>)
        ensures
            r is Ok <==> *caller == old(self)@.owner,
            r is Ok ==> final(self)@ == (AccessState {
                granted: old(self)@.granted.remove((user, role)),
                ..old(self)@
            }),
            r is Err ==> final(self)@ == old(self)@,
    {
        if !self.is_owner(caller) {
            return Err(NotAuthorized);
        }
        self.roles.remove(&(user, role));
        assert(self@.granted =~= old(self)@.granted.remove((user, role)));
        Ok(())
    }
}

} // verus!
