use vstd::prelude::*;

use crate::db::{spec_find_group, Count, Countable, Named, Store, Stored};

verus! {

/// A named group of users. Membership is kept as a relation in the store.
#[derive(Clone, Debug)]
pub struct Group {
    pub id: u64,
    pub name: String,
}

impl Group {
    /// An exact copy of the group record.
    pub fn duplicate(&self) -> (g: Group)
        ensures
            g == *self,
    {
        Group { id: self.id, name: self.name.clone() }
    }
}

impl Named for Group {
    open spec fn spec_name() -> Seq<char> {
        "group"@
    }

    fn name() -> (s: &'static str) {
        "group"
    }
}

impl Countable for Group {
    open spec fn spec_count(store: Store) -> nat {
        store.groups@.len()
    }

    fn count(store: &Store) -> (c: Count) {
        Count { count: store.groups.len() }
    }
}

impl Stored for Group {
    open spec fn spec_find(store: Store, id: u64) -> Option<Group> {
        spec_find_group(store.groups@, id)
    }

    fn find_in_store(store: &Store, id: u64) -> (r: Option<Group>) {
        let ghost s0 = store.groups@;
        proof {
            assert(s0.skip(0) =~= s0);
        }
        let mut i: usize = 0;
        while i < store.groups.len()
            invariant
                i <= s0.len(),
                store.groups@ == s0,
                spec_find_group(s0, id) == spec_find_group(s0.skip(i as int), id),
            decreases s0.len() - i,
        {
            if store.groups[i].id == id {
                proof {
                    let s = s0.skip(i as int);
                    assert(s.first() == s0[i as int]);
                    assert(spec_find_group(s, id) == Some(s.first()));
                }
                return Some(store.groups[i].duplicate());
            }
            proof {
                assert(s0.skip(i as int).drop_first() =~= s0.skip(i as int + 1));
            }
            i += 1;
        }
        proof {
            assert(s0.skip(s0.len() as int) =~= Seq::<Group>::empty());
        }
        None
    }
}

} // verus!
