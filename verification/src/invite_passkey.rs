use vstd::prelude::*;

use crate::db::{spec_find_invite, spec_find_user, Count, Countable, Named, Store, Stored};
use crate::error::AppError;
use crate::user::User;

verus! {

/// How long a fresh invite stays valid, in milliseconds (ten minutes).
pub const INVITE_VALIDITY_MILLIS: i64 = 600_000;

/// A time-boxed, single-use token authorizing one user to register one
/// new credential. `valid_until` is fixed at creation; the invite is
/// terminal once `used` is set or the deadline has passed.
#[derive(Clone, Copy, Debug, PartialEq, Eq, Structural)]
pub struct InvitePasskey {
    pub id: u64,
    pub user: u64,
    pub valid_until: i64,
    pub used: bool,
    pub created_at: i64,
}

impl InvitePasskey {
    /// An invite is usable iff it has not been used and the deadline has
    /// not passed.
    pub open spec fn spec_is_valid(self, now: int) -> bool {
        !self.used && now < self.valid_until
    }

    /// A fresh invite for `user`, valid for ten minutes from `now`.
    pub fn for_user(user: &User, id: u64, now: i64) -> (inv: InvitePasskey)
        requires
            now <= i64::MAX - INVITE_VALIDITY_MILLIS,
        ensures
            inv.id == id,
            inv.user == user.id,
            inv.valid_until == now + INVITE_VALIDITY_MILLIS,
            !inv.used,
            inv.created_at == now,
    {
        InvitePasskey {
            id,
            user: user.id,
            valid_until: now + INVITE_VALIDITY_MILLIS,
            used: false,
            created_at: now,
        }
    }

    /// Whether the invite is usable at the given instant: true iff it is
    /// unused and the instant lies before the deadline.
    pub fn is_valid_at(&self, now: i64) -> (r: bool)
        ensures
            r <==> self.spec_is_valid(now as int),
    {
        now < self.valid_until && !self.used
    }

    /// Whether the invite is usable now, by the wall clock. The clock is
    /// environmental, so only clock-independent facts are promised; exact
    /// reasoning goes through `is_valid_at`.
    pub fn is_valid(&self) -> (r: bool)
        ensures
            r ==> !self.used,
    {
        let now = crate::clock::now_millis();
        self.is_valid_at(now)
    }

    /// Resolve the owning user. Fails with `NotFound` exactly when the
    /// user record was deleted (or never existed) after issuance.
    pub fn user(&self, store: &Store) -> (r: Result<User, AppError>)
        ensures
            r is Ok <==> spec_find_user(store.users@, self.user) is Some,
            r matches Ok(u) ==> spec_find_user(store.users@, self.user) == Some(u),
            r is Err ==> r == Err::<User, AppError>(AppError::NotFound),
    {
        crate::db::find_by_id_error::<User>(store, self.user)
    }
}

impl crate::sort::SortKey for InvitePasskey {
    open spec fn sort_key(self) -> int {
        self.created_at as int
    }

    fn sort_key_exec(&self) -> (k: i64) {
        self.created_at
    }
}

impl Named for InvitePasskey {
    open spec fn spec_name() -> Seq<char> {
        "invite_passkey"@
    }

    fn name() -> (s: &'static str) {
        "invite_passkey"
    }
}

impl Countable for InvitePasskey {
    open spec fn spec_count(store: Store) -> nat {
        store.invites@.len()
    }

    fn count(store: &Store) -> (c: Count) {
        Count { count: store.invites.len() }
    }
}

impl Stored for InvitePasskey {
    open spec fn spec_find(store: Store, id: u64) -> Option<InvitePasskey> {
        spec_find_invite(store.invites@, id)
    }

    fn find_in_store(store: &Store, id: u64) -> (r: Option<InvitePasskey>) {
        let ghost s0 = store.invites@;
        proof {
            assert(s0.skip(0) =~= s0);
        }
        let mut i: usize = 0;
        while i < store.invites.len()
            invariant
                i <= s0.len(),
                store.invites@ == s0,
                spec_find_invite(s0, id) == spec_find_invite(s0.skip(i as int), id),
            decreases s0.len() - i,
        {
            if store.invites[i].id == id {
                proof {
                    let s = s0.skip(i as int);
                    assert(s.first() == s0[i as int]);
                    assert(spec_find_invite(s, id) == Some(s.first()));
                }
                return Some(store.invites[i]);
            }
            proof {
                assert(s0.skip(i as int).drop_first() =~= s0.skip(i as int + 1));
            }
            i += 1;
        }
        proof {
            assert(s0.skip(s0.len() as int) =~= Seq::<InvitePasskey>::empty());
        }
        None
    }
}

} // verus!
