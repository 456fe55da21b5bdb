use vstd::prelude::*;

use crate::db::{Count, Countable, Named, Store};
use crate::error::AppError;
use crate::user::User;

verus! {

/// An immutable record of an administrative action. Entries are append
/// only: they are never mutated or deleted after creation. Attribution to
/// an actor is kept as a separate link relation in the store, so that an
/// entry without a link denotes a system-initiated action.
#[derive(Clone, Debug)]
pub struct AuditLog {
    pub id: u64,
    pub performed_at: i64,
    pub message: String,
}

impl AuditLog {
    /// Append one immutable entry with the given timestamp; when an actor
    /// is given, additionally record a durable attribution link from the
    /// actor to the entry. Fails with `PersistenceFailure` exactly when
    /// the identifier space is exhausted, and then changes nothing.
    pub fn log(store: &mut Store, user: Option<&User>, message: String, now: i64) -> (r: Result<
        (),
        AppError,
    >)
        requires
            old(store).wf(),
        ensures
            final(store).wf(),
            r is Err <==> old(store).next_id == u64::MAX,
            r is Err ==> r == Err::<(), AppError>(AppError::PersistenceFailure)
                && *final(store) == *old(store),
            r is Ok ==> {
                &&& final(store).audit_entries@ == old(store).audit_entries@.push(
                    (AuditLog { id: old(store).next_id, performed_at: now, message: message }),
                )
                &&& (match user {
                    Some(u) => final(store).performed_links@ == old(store).performed_links@.push(
                        ((u.id, old(store).next_id)),
                    ),
                    None => final(store).performed_links@ == old(store).performed_links@,
                })
                &&& final(store).next_id == old(store).next_id + 1
                &&& final(store).same_but_audit(*old(store))
            },
    {
        if store.next_id == u64::MAX {
            return Err(AppError::PersistenceFailure);
        }
        let id = store.next_id;
        let entry = AuditLog { id, performed_at: now, message };
        store.audit_entries.push(entry);
        if let Some(u) = user {
            store.performed_links.push((u.id, id));
        }
        store.next_id = id + 1;
        Ok(())
    }
}

impl Named for AuditLog {
    open spec fn spec_name() -> Seq<char> {
        "audit_log"@
    }

    fn name() -> (s: &'static str) {
        "audit_log"
    }
}

impl Countable for AuditLog {
    open spec fn spec_count(store: Store) -> nat {
        store.audit_entries@.len()
    }

    fn count(store: &Store) -> (c: Count) {
        Count { count: store.audit_entries.len() }
    }
}

} // verus!
