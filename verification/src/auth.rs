//! The whitelist that authorizes users: an immutable set of permitted
//! account identifiers, built once at startup.

use std::collections::HashSet;

use vstd::prelude::*;

use crate::messenger::{AuthFilter, UserId};

verus! {

broadcast use vstd::std_specs::hash::group_hash_axioms;

/// The set of permitted users. Built once from configuration; never changed
/// while the process runs.
pub struct UserWhitelist {
    allowed: HashSet<u64>,
}

impl View for UserWhitelist {
    type V = Set<u64>;

    closed spec fn view(&self) -> Set<u64> {
        self.allowed@
    }
}

impl UserWhitelist {
    /// Wraps an already-built set of permitted identifiers.
    pub fn new(users: HashSet<u64>) -> (r: Self)
        ensures
            r@ == users@,
    {
        UserWhitelist { allowed: users }
    }

    /// Builds the whitelist holding exactly the given identifiers.
    pub fn from_iter(users: Vec<u64>) -> (r: Self)
        ensures
            forall|u: u64| r@.contains(u) <==> users@.contains(u),
    {
        let mut allowed: HashSet<u64> = HashSet::new();
        let n = users.len();
        let mut i: usize = 0;
        while i < n
            invariant
                i <= n,
                n == users.len(),
                forall|u: u64| allowed@.contains(u) <==> users@.take(i as int).contains(u),
            decreases n - i,
        {
            let u = users[i];
            allowed.insert(u);
            proof {
                let pre = users@.take(i as int);
                let post = users@.take(i as int + 1);
                assert(post.drop_last() =~= pre);
                assert(post.last() == users@[i as int]);
                assert forall|v: u64| post.contains(v) implies allowed@.contains(v) by {
                    let idx = choose|idx: int| 0 <= idx < post.len() && post[idx] == v;
                    if idx < pre.len() {
                        assert(pre[idx] == v);
                    }
                }
                assert forall|v: u64| allowed@.contains(v) implies post.contains(v) by {
                    if v == u {
                        assert(post[post.len() - 1] == v);
                    } else {
                        let idx = choose|idx: int| 0 <= idx < pre.len() && pre[idx] == v;
                        assert(post[idx] == v);
                    }
                }
            }
            i += 1;
        }
        proof {
            assert(users@.take(n as int) =~= users@);
        }
        UserWhitelist { allowed }
    }
}

impl AuthFilter for UserWhitelist {
    open spec fn spec_allowed(&self, user_id: UserId) -> bool {
        self@.contains(user_id.0)
    }

    fn is_allowed(&self, user_id: UserId) -> (r: bool) {
        self.allowed.contains(&user_id.0)
    }
}

} // verus!
