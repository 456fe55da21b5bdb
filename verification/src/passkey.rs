use vstd::prelude::*;

use crate::db::{Count, Countable, Named, Store};

verus! {

/// A registered credential: the terminal artifact of a successful
/// registration ceremony, immutable thereafter. The `passkey` field holds
/// the opaque authenticator public-key material in serialized form.
#[derive(Clone, Debug)]
pub struct Passkey {
    pub id: u64,
    pub user: u64,
    pub name: String,
    pub created_at: i64,
    pub passkey: Vec<u8>,
}

impl Named for Passkey {
    open spec fn spec_name() -> Seq<char> {
        "passkey"@
    }

    fn name() -> (s: &'static str) {
        "passkey"
    }
}

impl Countable for Passkey {
    open spec fn spec_count(store: Store) -> nat {
        store.passkeys@.len()
    }

    fn count(store: &Store) -> (c: Count) {
        Count { count: store.passkeys.len() }
    }
}

} // verus!
