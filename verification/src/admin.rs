use vstd::prelude::*;

use crate::audit_log::AuditLog;
use crate::db::{find_by_id, find_by_id_error, lemma_find_user_id, spec_find_user, Store};
use crate::error::AppError;
use crate::invite_passkey::{InvitePasskey, INVITE_VALIDITY_MILLIS};
use crate::sort::{sort_desc, sorted_desc, SortKey};
use crate::user::User;

verus! {

/// One row of the audit-log listing: an entry together with its resolved
/// actor. `performed_by` of `None` denotes a system-initiated action, or
/// an actor whose user record no longer resolves.
#[derive(Clone, Debug)]
pub struct LogEntry {
    pub performed_at: i64,
    pub performed_by: Option<User>,
    pub message: String,
}

impl SortKey for LogEntry {
    open spec fn sort_key(self) -> int {
        self.performed_at as int
    }

    fn sort_key_exec(&self) -> (k: i64) {
        self.performed_at
    }
}

/// The user identifier of the first attribution link for the entry, if
/// any.
pub open spec fn spec_first_link(links: Seq<(u64, u64)>, audit_id: u64) -> Option<u64>
    decreases links.len(),
{
    if links.len() == 0 {
        None
    } else if links.first().1 == audit_id {
        Some(links.first().0)
    } else {
        spec_first_link(links.drop_first(), audit_id)
    }
}

/// The actor an audit entry resolves to: the user its attribution link
/// names, as long as that user record still resolves.
pub open spec fn spec_resolve_actor(store: Store, audit_id: u64) -> Option<User> {
    match spec_first_link(store.performed_links@, audit_id) {
        None => None,
        Some(uid) => spec_find_user(store.users@, uid),
    }
}

/// The listing row an audit entry denotes.
pub open spec fn spec_log_entry(store: Store, e: AuditLog) -> LogEntry {
    LogEntry {
        performed_at: e.performed_at,
        performed_by: spec_resolve_actor(store, e.id),
        message: e.message,
    }
}

/// The first attribution link for the entry, if any.
fn first_link(links: &Vec<(u64, u64)>, audit_id: u64) -> (r: Option<u64>)
    ensures
        r == spec_first_link(links@, audit_id),
{
    let ghost s0 = links@;
    proof {
        assert(s0.skip(0) =~= s0);
    }
    let mut i: usize = 0;
    while i < links.len()
        invariant
            i <= s0.len(),
            links@ == s0,
            spec_first_link(s0, audit_id) == spec_first_link(s0.skip(i as int), audit_id),
        decreases s0.len() - i,
    {
        if links[i].1 == audit_id {
            proof {
                let s = s0.skip(i as int);
                assert(s.first() == s0[i as int]);
                assert(spec_first_link(s, audit_id) == Some(s.first().0));
            }
            return Some(links[i].0);
        }
        proof {
            assert(s0.skip(i as int).drop_first() =~= s0.skip(i as int + 1));
        }
        i += 1;
    }
    proof {
        assert(s0.skip(s0.len() as int) =~= Seq::<(u64, u64)>::empty());
    }
    None
}

/// The actor an audit entry resolves to.
fn resolve_actor(store: &Store, audit_id: u64) -> (r: Option<User>)
    ensures
        r == spec_resolve_actor(*store, audit_id),
{
    match first_link(&store.performed_links, audit_id) {
        Some(uid) => find_by_id::<User>(store, uid),
        None => None,
    }
}

/// The audit-log listing: every entry, with its actor resolved, ordered
/// by `performed_at`, newest first. The order is non-increasing whatever
/// order the entries were inserted in.
pub fn audit_log_entries(store: &Store) -> (r: Vec<LogEntry>)
    ensures
        sorted_desc(r@),
        r@.to_multiset() == store.audit_entries@.map_values(
            |e: AuditLog| spec_log_entry(*store, e),
        ).to_multiset(),
{
    let mut resolved: Vec<LogEntry> = Vec::new();
    let mut i: usize = 0;
    proof {
        assert(store.audit_entries@.take(0).map_values(|e: AuditLog| spec_log_entry(*store, e))
            =~= Seq::<LogEntry>::empty());
    }
    while i < store.audit_entries.len()
        invariant
            i <= store.audit_entries@.len(),
            resolved@ == store.audit_entries@.take(i as int).map_values(
                |e: AuditLog| spec_log_entry(*store, e),
            ),
        decreases store.audit_entries@.len() - i,
    {
        let actor = resolve_actor(store, store.audit_entries[i].id);
        resolved.push(
            LogEntry {
                performed_at: store.audit_entries[i].performed_at,
                performed_by: actor,
                message: store.audit_entries[i].message.clone(),
            },
        );
        proof {
            assert(resolved@ =~= store.audit_entries@.take(i as int + 1).map_values(
                |e: AuditLog| spec_log_entry(*store, e),
            ));
        }
        i += 1;
    }
    proof {
        assert(store.audit_entries@.take(store.audit_entries@.len() as int)
            =~= store.audit_entries@);
    }
    sort_desc(resolved)
}

/// The most recent rows of the audit-log listing: the first `limit` rows
/// of the full listing, ordered by `performed_at`, newest first. The
/// result extends to a non-increasing ordering of the whole log, so the
/// rows returned are ones with the largest timestamps.
pub fn list_recent(store: &Store, limit: usize) -> (r: Vec<LogEntry>)
    ensures
        sorted_desc(r@),
        r@.len() == vstd::math::min(limit as int, store.audit_entries@.len() as int),
        exists|rest: Seq<LogEntry>|
            sorted_desc(#[trigger] (r@ + rest)) && (r@ + rest).to_multiset()
                == store.audit_entries@.map_values(
                |e: AuditLog| spec_log_entry(*store, e),
            ).to_multiset(),
{
    let mut rows = audit_log_entries(store);
    let ghost full = rows@;
    proof {
        full.to_multiset_ensures();
        store.audit_entries@.map_values(|e: AuditLog| spec_log_entry(*store, e))
            .to_multiset_ensures();
        assert(full.len() == store.audit_entries@.len());
    }
    rows.truncate(limit);
    proof {
        if limit < full.len() {
            let rest = full.skip(limit as int);
            assert(rows@ + rest =~= full);
        } else {
            assert(rows@ + Seq::<LogEntry>::empty() =~= full);
        }
    }
    rows
}

/// Issue an invite for the user: verify that the user exists, then
/// create and persist the invite. Fails with `NotFound` exactly when the
/// user does not resolve, and with `PersistenceFailure` exactly when the
/// identifier space is exhausted; an error changes nothing.
pub fn create_invite_passkey(store: &mut Store, user_id: u64, now: i64) -> (r: Result<
    InvitePasskey,
    AppError,
>)
    requires
        old(store).wf(),
        now <= i64::MAX - INVITE_VALIDITY_MILLIS,
    ensures
        final(store).wf(),
        r == Err::<InvitePasskey, AppError>(AppError::NotFound) <==> spec_find_user(
            old(store).users@,
            user_id,
        ) is None,
        r == Err::<InvitePasskey, AppError>(AppError::PersistenceFailure) <==> (spec_find_user(
            old(store).users@,
            user_id,
        ) is Some && old(store).next_id == u64::MAX),
        r is Err ==> *final(store) == *old(store),
        r is Err ==> r == Err::<InvitePasskey, AppError>(AppError::NotFound) || r == Err::<
            InvitePasskey,
            AppError,
        >(AppError::PersistenceFailure),
        r matches Ok(inv) ==> {
            &&& inv.user == user_id
            &&& inv.id == old(store).next_id
            &&& inv.valid_until == now + INVITE_VALIDITY_MILLIS
            &&& !inv.used
            &&& inv.created_at == now
            &&& final(store).invites@ == old(store).invites@.push(inv)
            &&& final(store).next_id == old(store).next_id + 1
            &&& final(store).same_but_invites(*old(store))
        },
{
    let user = match find_by_id_error::<User>(store, user_id) {
        Ok(u) => u,
        Err(e) => {
            return Err(e);
        },
    };
    proof {
        lemma_find_user_id(store.users@, user_id);
    }
    store.create_invite(&user, now)
}

} // verus!
