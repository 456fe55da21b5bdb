use vstd::prelude::*;

use crate::audit_log::AuditLog;
use crate::error::AppError;
use crate::group::Group;
use crate::invite_passkey::InvitePasskey;
use crate::passkey::Passkey;
use crate::signing_key::KeyRecord;
use crate::user::User;

verus! {

/// Result row of a counting query.
#[derive(Clone, Copy, Debug, PartialEq, Eq, Structural)]
pub struct Count {
    pub count: usize,
}

/// A record kind with a well-known table name.
pub trait Named {
    /// The table name, as a sequence of characters.
    spec fn spec_name() -> Seq<char>;

    /// The table name.
    fn name() -> (s: &'static str)
        ensures
            s@ == Self::spec_name(),
    ;
}

/// A record kind whose rows can be counted.
pub trait Countable {
    /// How many records of this kind the store holds.
    spec fn spec_count(store: Store) -> nat;

    /// Count the records of this kind.
    fn count(store: &Store) -> (c: Count)
        ensures
            c.count == Self::spec_count(*store),
    ;
}

/// A record kind that can be looked up by identifier.
pub trait Stored: Sized {
    /// The record found for this identifier, if any.
    spec fn spec_find(store: Store, id: u64) -> Option<Self>;

    /// Scan the backing collection for the identifier.
    fn find_in_store(store: &Store, id: u64) -> (r: Option<Self>)
        ensures
            r == Self::spec_find(*store, id),
    ;
}

/// First user of the sequence carrying the identifier, if any.
pub open spec fn spec_find_user(users: Seq<User>, id: u64) -> Option<User>
    decreases users.len(),
{
    if users.len() == 0 {
        None
    } else if users.first().id == id {
        Some(users.first())
    } else {
        spec_find_user(users.drop_first(), id)
    }
}

/// First group of the sequence carrying the identifier, if any.
pub open spec fn spec_find_group(groups: Seq<Group>, id: u64) -> Option<Group>
    decreases groups.len(),
{
    if groups.len() == 0 {
        None
    } else if groups.first().id == id {
        Some(groups.first())
    } else {
        spec_find_group(groups.drop_first(), id)
    }
}

/// First invite of the sequence carrying the identifier, if any.
pub open spec fn spec_find_invite(invites: Seq<InvitePasskey>, id: u64) -> Option<InvitePasskey>
    decreases invites.len(),
{
    if invites.len() == 0 {
        None
    } else if invites.first().id == id {
        Some(invites.first())
    } else {
        spec_find_invite(invites.drop_first(), id)
    }
}

/// A found user carries the identifier it was looked up by.
pub proof fn lemma_find_user_id(users: Seq<User>, id: u64)
    ensures
        spec_find_user(users, id) matches Some(u) ==> u.id == id,
    decreases users.len(),
{
    if users.len() > 0 && users.first().id != id {
        lemma_find_user_id(users.drop_first(), id);
    }
}

/// Model of the persistence collaborator: a document store with one
/// collection per record kind, two link relations, and a single
/// key-value slot for the signing key. Identifiers are assigned from one
/// monotone counter, so they are unique across the store's lifetime.
#[derive(Debug)]
pub struct Store {
    pub users: Vec<User>,
    pub groups: Vec<Group>,
    /// Membership links, as `(user id, group id)` pairs.
    pub memberships: Vec<(u64, u64)>,
    pub invites: Vec<InvitePasskey>,
    pub passkeys: Vec<Passkey>,
    pub audit_entries: Vec<AuditLog>,
    /// Attribution links, as `(user id, audit entry id)` pairs.
    pub performed_links: Vec<(u64, u64)>,
    /// The persisted signing key, if one was ever written.
    pub key_record: Option<KeyRecord>,
    /// The next identifier to assign.
    pub next_id: u64,
}

impl Store {
    /// Well-formedness: identifiers are pairwise distinct within each
    /// collection, and all of them were assigned below the counter.
    pub open spec fn wf(self) -> bool {
        &&& forall|i: int, j: int|
            0 <= i < j < self.users@.len() ==> self.users@[i].id != self.users@[j].id
        &&& forall|i: int| 0 <= i < self.users@.len() ==> self.users@[i].id < self.next_id
        &&& forall|i: int, j: int|
            0 <= i < j < self.groups@.len() ==> self.groups@[i].id != self.groups@[j].id
        &&& forall|i: int| 0 <= i < self.groups@.len() ==> self.groups@[i].id < self.next_id
        &&& forall|i: int, j: int|
            0 <= i < j < self.invites@.len() ==> self.invites@[i].id != self.invites@[j].id
        &&& forall|i: int| 0 <= i < self.invites@.len() ==> self.invites@[i].id < self.next_id
        &&& forall|i: int, j: int|
            0 <= i < j < self.passkeys@.len() ==> self.passkeys@[i].id != self.passkeys@[j].id
        &&& forall|i: int| 0 <= i < self.passkeys@.len() ==> self.passkeys@[i].id < self.next_id
        &&& forall|i: int, j: int|
            0 <= i < j < self.audit_entries@.len()
                ==> self.audit_entries@[i].id != self.audit_entries@[j].id
        &&& forall|i: int|
            0 <= i < self.audit_entries@.len() ==> self.audit_entries@[i].id < self.next_id
    }

    /// All fields except the user collection and the counter are the same
    /// in both stores.
    pub open spec fn same_but_users(self, other: Store) -> bool {
        &&& self.groups == other.groups
        &&& self.memberships == other.memberships
        &&& self.invites == other.invites
        &&& self.passkeys == other.passkeys
        &&& self.audit_entries == other.audit_entries
        &&& self.performed_links == other.performed_links
        &&& self.key_record == other.key_record
    }

    /// All fields except the group collection and the counter are the
    /// same in both stores.
    pub open spec fn same_but_groups(self, other: Store) -> bool {
        &&& self.users == other.users
        &&& self.memberships == other.memberships
        &&& self.invites == other.invites
        &&& self.passkeys == other.passkeys
        &&& self.audit_entries == other.audit_entries
        &&& self.performed_links == other.performed_links
        &&& self.key_record == other.key_record
    }

    /// All fields except the invite collection and the counter are the
    /// same in both stores.
    pub open spec fn same_but_invites(self, other: Store) -> bool {
        &&& self.users == other.users
        &&& self.groups == other.groups
        &&& self.memberships == other.memberships
        &&& self.passkeys == other.passkeys
        &&& self.audit_entries == other.audit_entries
        &&& self.performed_links == other.performed_links
        &&& self.key_record == other.key_record
    }

    /// All fields except the signing-key slot are the same in both
    /// stores.
    pub open spec fn same_but_key(self, other: Store) -> bool {
        &&& self.users == other.users
        &&& self.groups == other.groups
        &&& self.memberships == other.memberships
        &&& self.invites == other.invites
        &&& self.passkeys == other.passkeys
        &&& self.audit_entries == other.audit_entries
        &&& self.performed_links == other.performed_links
        &&& self.next_id == other.next_id
    }

    /// All fields except the audit entries, the attribution links and the
    /// counter are the same in both stores.
    pub open spec fn same_but_audit(self, other: Store) -> bool {
        &&& self.users == other.users
        &&& self.groups == other.groups
        &&& self.memberships == other.memberships
        &&& self.invites == other.invites
        &&& self.passkeys == other.passkeys
        &&& self.key_record == other.key_record
    }

    /// A fresh, empty store.
    pub fn new() -> (s: Store)
        ensures
            s.wf(),
            s.users@ == Seq::<User>::empty(),
            s.groups@ == Seq::<Group>::empty(),
            s.memberships@ == Seq::<(u64, u64)>::empty(),
            s.invites@ == Seq::<InvitePasskey>::empty(),
            s.passkeys@ == Seq::<Passkey>::empty(),
            s.audit_entries@ == Seq::<AuditLog>::empty(),
            s.performed_links@ == Seq::<(u64, u64)>::empty(),
            s.key_record is None,
            s.next_id == 0,
    {
        Store {
            users: Vec::new(),
            groups: Vec::new(),
            memberships: Vec::new(),
            invites: Vec::new(),
            passkeys: Vec::new(),
            audit_entries: Vec::new(),
            performed_links: Vec::new(),
            key_record: None,
            next_id: 0,
        }
    }

    /// Create a user record with a fresh identifier and a freshly
    /// generated stable identity. Fails with `PersistenceFailure` exactly
    /// when the identifier space is exhausted.
    pub fn create_user(&mut self, name: String, email: String) -> (r: Result<User, AppError>)
        requires
            old(self).wf(),
        ensures
            final(self).wf(),
            r is Err <==> old(self).next_id == u64::MAX,
            r is Err ==> r == Err::<User, AppError>(AppError::PersistenceFailure)
                && *final(self) == *old(self),
            r matches Ok(u) ==> {
                &&& u.id == old(self).next_id
                &&& u.name == name
                &&& u.email == email
                &&& final(self).users@ == old(self).users@.push(u)
                &&& final(self).next_id == old(self).next_id + 1
                &&& final(self).same_but_users(*old(self))
            },
    {
        if self.next_id == u64::MAX {
            return Err(AppError::PersistenceFailure);
        }
        let id = self.next_id;
        let u = User::new(id, name, email);
        let out = u.duplicate();
        self.users.push(u);
        self.next_id = id + 1;
        Ok(out)
    }

    /// Create a group record with a fresh identifier. Fails with
    /// `PersistenceFailure` exactly when the identifier space is
    /// exhausted.
    pub fn create_group(&mut self, name: String) -> (r: Result<Group, AppError>)
        requires
            old(self).wf(),
        ensures
            final(self).wf(),
            r is Err <==> old(self).next_id == u64::MAX,
            r is Err ==> r == Err::<Group, AppError>(AppError::PersistenceFailure)
                && *final(self) == *old(self),
            r matches Ok(g) ==> {
                &&& g.id == old(self).next_id
                &&& g.name == name
                &&& final(self).groups@ == old(self).groups@.push(g)
                &&& final(self).next_id == old(self).next_id + 1
                &&& final(self).same_but_groups(*old(self))
            },
    {
        if self.next_id == u64::MAX {
            return Err(AppError::PersistenceFailure);
        }
        let id = self.next_id;
        let g = Group { id, name };
        let out = g.duplicate();
        self.groups.push(g);
        self.next_id = id + 1;
        Ok(out)
    }

    /// Create an invite for `user`, valid for ten minutes from `now`.
    /// Fails with `PersistenceFailure` exactly when the identifier space
    /// is exhausted.
    pub fn create_invite(&mut self, user: &User, now: i64) -> (r: Result<InvitePasskey, AppError>)
        requires
            old(self).wf(),
            now <= i64::MAX - crate::invite_passkey::INVITE_VALIDITY_MILLIS,
        ensures
            final(self).wf(),
            r is Err <==> old(self).next_id == u64::MAX,
            r is Err ==> r == Err::<InvitePasskey, AppError>(AppError::PersistenceFailure)
                && *final(self) == *old(self),
            r matches Ok(inv) ==> {
                &&& inv.id == old(self).next_id
                &&& inv.user == user.id
                &&& inv.valid_until == now + crate::invite_passkey::INVITE_VALIDITY_MILLIS
                &&& !inv.used
                &&& inv.created_at == now
                &&& final(self).invites@ == old(self).invites@.push(inv)
                &&& final(self).next_id == old(self).next_id + 1
                &&& final(self).same_but_invites(*old(self))
            },
    {
        if self.next_id == u64::MAX {
            return Err(AppError::PersistenceFailure);
        }
        let id = self.next_id;
        let inv = InvitePasskey::for_user(user, id, now);
        self.invites.push(inv);
        self.next_id = id + 1;
        Ok(inv)
    }

    /// Link a user into a group.
    pub fn add_member(&mut self, user_id: u64, group_id: u64)
        ensures
            final(self).memberships@ == old(self).memberships@.push((user_id, group_id)),
            final(self).users == old(self).users,
            final(self).groups == old(self).groups,
            final(self).invites == old(self).invites,
            final(self).passkeys == old(self).passkeys,
            final(self).audit_entries == old(self).audit_entries,
            final(self).performed_links == old(self).performed_links,
            final(self).key_record == old(self).key_record,
            final(self).next_id == old(self).next_id,
            old(self).wf() ==> final(self).wf(),
    {
        self.memberships.push((user_id, group_id));
    }

    /// Remove the user carrying the identifier, if present. Invites and
    /// audit links that refer to the user are deliberately kept: they
    /// then dangle, and lookups through them report `NotFound`.
    pub fn remove_user(&mut self, id: u64) -> (found: bool)
        requires
            old(self).wf(),
        ensures
            final(self).wf(),
            !found ==> *final(self) == *old(self) && spec_find_user(old(self).users@, id) is None,
            found ==> spec_find_user(old(self).users@, id) is Some,
            found ==> (exists|i: int|
                0 <= i < old(self).users@.len() && old(self).users@[i].id == id
                    && final(self).users@ == old(self).users@.remove(i)),
            final(self).same_but_users(*old(self)),
            final(self).next_id == old(self).next_id,
    {
        let ghost users0 = self.users@;
        proof {
            assert(users0.skip(0) =~= users0);
        }
        let mut i: usize = 0;
        while i < self.users.len()
            invariant
                i <= users0.len(),
                *self == *old(self),
                self.users@ == users0,
                old(self).wf(),
                forall|k: int| 0 <= k < i ==> users0[k].id != id,
                spec_find_user(users0, id) == spec_find_user(users0.skip(i as int), id),
            decreases users0.len() - i,
        {
            if self.users[i].id == id {
                proof {
                    let s = users0.skip(i as int);
                    assert(s.first() == users0[i as int]);
                    assert(spec_find_user(s, id) == Some(s.first()));
                    users0.remove_ensures(i as int);
                }
                self.users.remove(i);
                proof {
                    let u2 = self.users@;
                    assert(u2 == users0.remove(i as int));
                    assert forall|p: int, q: int|
                        0 <= p < q < u2.len() implies u2[p].id != u2[q].id by {
                        if p < i as int {
                            assert(u2[p] == users0[p]);
                        } else {
                            assert(u2[p] == users0[p + 1]);
                        }
                        if q < i as int {
                            assert(u2[q] == users0[q]);
                        } else {
                            assert(u2[q] == users0[q + 1]);
                        }
                    }
                    assert forall|p: int| 0 <= p < u2.len() implies u2[p].id < self.next_id by {
                        if p < i as int {
                            assert(u2[p] == users0[p]);
                        } else {
                            assert(u2[p] == users0[p + 1]);
                        }
                    }
                }
                return true;
            }
            proof {
                assert(users0.skip(i as int).drop_first() =~= users0.skip(i as int + 1));
            }
            i += 1;
        }
        proof {
            assert(users0.skip(users0.len() as int) =~= Seq::<User>::empty());
        }
        false
    }
}

/// Find a record by identifier, as `None` when it does not resolve.
pub fn find_by_id<T: Stored>(store: &Store, id: u64) -> (r: Option<T>)
    ensures
        r == T::spec_find(*store, id),
{
    T::find_in_store(store, id)
}

/// Find a record by identifier, as `NotFound` when it does not resolve.
pub fn find_by_id_error<T: Stored>(store: &Store, id: u64) -> (r: Result<T, AppError>)
    ensures
        r is Ok <==> T::spec_find(*store, id) is Some,
        r matches Ok(t) ==> T::spec_find(*store, id) == Some(t),
        r is Err ==> r == Err::<T, AppError>(AppError::NotFound),
{
    match find_by_id::<T>(store, id) {
        Some(t) => Ok(t),
        None => Err(AppError::NotFound),
    }
}

} // verus!
