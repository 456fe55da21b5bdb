use vstd::prelude::*;

use crate::db::{spec_find_user, Count, Countable, Named, Store, Stored};
use crate::group::Group;
use crate::invite_passkey::InvitePasskey;
use crate::sort::{sort_desc, sorted_desc};

verus! {

/// A registered user. The identity fields are immutable after creation;
/// `webauthn_id` is the stable random 128-bit identifier that credential
/// ceremonies are bound to (never the mutable email address).
#[derive(Clone, Debug)]
pub struct User {
    pub id: u64,
    pub webauthn_id: u128,
    pub name: String,
    pub email: String,
}

impl User {
    /// A new user with a freshly generated stable identity.
    pub fn new(id: u64, name: String, email: String) -> (u: User)
        ensures
            u.id == id,
            u.name == name,
            u.email == email,
    {
        User { id, webauthn_id: fresh_webauthn_id(), name, email }
    }

    /// The stable identifier used to bind credential registrations.
    pub fn webauth_id(&self) -> (r: u128)
        ensures
            r == self.webauthn_id,
    {
        self.webauthn_id
    }

    /// An exact copy of the user record.
    pub fn duplicate(&self) -> (u: User)
        ensures
            u == *self,
    {
        User {
            id: self.id,
            webauthn_id: self.webauthn_id,
            name: self.name.clone(),
            email: self.email.clone(),
        }
    }

    /// The groups this user is a member of, in store order.
    pub fn groups(&self, store: &Store) -> (r: Vec<Group>)
        ensures
            r@ == store.groups@.filter(
                |g: Group| store.memberships@.contains((self.id, g.id)),
            ),
    {
        let mut out: Vec<Group> = Vec::new();
        let mut i: usize = 0;
        proof {
            reveal(Seq::filter);
            assert(store.groups@.take(0) =~= Seq::<Group>::empty());
        }
        while i < store.groups.len()
            invariant
                i <= store.groups@.len(),
                out@ == store.groups@.take(i as int).filter(
                    |g: Group| store.memberships@.contains((self.id, g.id)),
                ),
            decreases store.groups@.len() - i,
        {
            let is_member = has_membership(&store.memberships, self.id, store.groups[i].id);
            if is_member {
                out.push(store.groups[i].duplicate());
            }
            proof {
                reveal(Seq::filter);
                let t1 = store.groups@.take(i as int + 1);
                assert(t1.drop_last() =~= store.groups@.take(i as int));
                assert(t1.last() == store.groups@[i as int]);
                assert(out@ == t1.filter(
                    |g: Group| store.memberships@.contains((self.id, g.id)),
                ));
            }
            i += 1;
        }
        proof {
            assert(store.groups@.take(store.groups@.len() as int) =~= store.groups@);
        }
        out
    }

    /// The invites issued for this user, ordered by creation time, newest
    /// first, so that the most recent invite is the one in effect.
    pub fn invite_passkeys(&self, store: &Store) -> (r: Vec<InvitePasskey>)
        ensures
            sorted_desc(r@),
            r@.to_multiset() == store.invites@.filter(
                |inv: InvitePasskey| inv.user == self.id,
            ).to_multiset(),
    {
        let mut mine: Vec<InvitePasskey> = Vec::new();
        let mut i: usize = 0;
        proof {
            reveal(Seq::filter);
            assert(store.invites@.take(0) =~= Seq::<InvitePasskey>::empty());
        }
        while i < store.invites.len()
            invariant
                i <= store.invites@.len(),
                mine@ == store.invites@.take(i as int).filter(
                    |inv: InvitePasskey| inv.user == self.id,
                ),
            decreases store.invites@.len() - i,
        {
            if store.invites[i].user == self.id {
                mine.push(store.invites[i]);
            }
            proof {
                reveal(Seq::filter);
                let t1 = store.invites@.take(i as int + 1);
                assert(t1.drop_last() =~= store.invites@.take(i as int));
                assert(t1.last() == store.invites@[i as int]);
                assert(mine@ == t1.filter(|inv: InvitePasskey| inv.user == self.id));
            }
            i += 1;
        }
        proof {
            assert(store.invites@.take(store.invites@.len() as int) =~= store.invites@);
        }
        sort_desc(mine)
    }
}

/// Whether the membership relation links `user_id` into `group_id`.
fn has_membership(links: &Vec<(u64, u64)>, user_id: u64, group_id: u64) -> (r: bool)
    ensures
        r == links@.contains((user_id, group_id)),
{
    let mut i: usize = 0;
    while i < links.len()
        invariant
            i <= links@.len(),
            forall|k: int| 0 <= k < i ==> links@[k] != (user_id, group_id),
        decreases links@.len() - i,
    {
        if links[i].0 == user_id && links[i].1 == group_id {
            proof {
                assert(links@[i as int] == (user_id, group_id));
            }
            return true;
        }
        i += 1;
    }
    false
}

/// Relies on `uuid::Uuid::new_v4` to generate a random 128-bit identifier.
/// The value is random, so nothing is promised of it.
#[verifier::external_body]
fn fresh_webauthn_id() -> u128 {
    uuid::Uuid::new_v4().as_u128()
}

impl Named for User {
    open spec fn spec_name() -> Seq<char> {
        "user"@
    }

    fn name() -> (s: &'static str) {
        "user"
    }
}

impl Countable for User {
    open spec fn spec_count(store: Store) -> nat {
        store.users@.len()
    }

    fn count(store: &Store) -> (c: Count) {
        Count { count: store.users.len() }
    }
}

impl Stored for User {
    open spec fn spec_find(store: Store, id: u64) -> Option<User> {
        spec_find_user(store.users@, id)
    }

    fn find_in_store(store: &Store, id: u64) -> (r: Option<User>) {
        let ghost s0 = store.users@;
        proof {
            assert(s0.skip(0) =~= s0);
        }
        let mut i: usize = 0;
        while i < store.users.len()
            invariant
                i <= s0.len(),
                store.users@ == s0,
                spec_find_user(s0, id) == spec_find_user(s0.skip(i as int), id),
            decreases s0.len() - i,
        {
            if store.users[i].id == id {
                proof {
                    let s = s0.skip(i as int);
                    assert(s.first() == s0[i as int]);
                    assert(spec_find_user(s, id) == Some(s.first()));
                }
                return Some(store.users[i].duplicate());
            }
            proof {
                assert(s0.skip(i as int).drop_first() =~= s0.skip(i as int + 1));
            }
            i += 1;
        }
        proof {
            assert(s0.skip(s0.len() as int) =~= Seq::<User>::empty());
        }
        None
    }
}

} // verus!
