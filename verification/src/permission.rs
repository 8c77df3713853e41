//! The single elevation check: whether a user id is on the configured
//! administrator allowlist.

use vstd::prelude::*;

verus! {

/// True exactly when `user_id` appears on the allowlist.
pub fn check_permission(user_id: i64, admins: &Vec<i64>) -> (r: bool)
    ensures
        r == admins@.contains(user_id),
{
    let mut i: usize = 0;
    while i < admins.len()
        invariant
            i <= admins.len(),
            forall|k: int| 0 <= k < i ==> admins@[k] != user_id,
        decreases admins.len() - i,
    {
        if admins[i] == user_id {
            return true;
        }
        i += 1;
    }
    proof {
        assert(!admins@.contains(user_id));
    }
    false
}

} // verus!
