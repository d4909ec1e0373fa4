//! Helpers for assembling the tick scheduler's system dependency lists.
//!
//! The scheduler harness itself is an external collaborator; these functions
//! only compute which named systems a system must run after, where some of
//! those edges exist only in one role (e.g. input handling exists on the
//! client but not on the server).

use vstd::prelude::*;

verus! {

/// Returns `dependencies` as an owned list when `condition` holds, and an
/// empty list otherwise.
pub fn optional_dependencies(dependencies: &[&'static str], condition: bool) -> (r: Vec<
    &'static str,
>)
    ensures
        condition ==> r@ == dependencies@,
        !condition ==> r@ == Seq::<&'static str>::empty(),
{
    let mut r: Vec<&'static str> = Vec::new();
    if condition {
        let mut i: usize = 0;
        while i < dependencies.len()
            invariant
                i <= dependencies.len(),
                r@ == dependencies@.take(i as int),
            decreases dependencies.len() - i,
        {
            r.push(dependencies[i]);
            i = i + 1;
        }
        assert(dependencies@.take(dependencies@.len() as int) == dependencies@);
    }
    r
}

/// Returns `mandatory` followed by `optional` when `condition` holds, and
/// `mandatory` alone otherwise.
pub fn dependencies_with_optional(
    mandatory: &[&'static str],
    condition: bool,
    optional: &[&'static str],
) -> (r: Vec<&'static str>)
    ensures
        condition ==> r@ == mandatory@ + optional@,
        !condition ==> r@ == mandatory@,
{
    let mut dependencies = optional_dependencies(mandatory, true);
    let mut tail = optional_dependencies(optional, condition);
    dependencies.append(&mut tail);
    proof {
        if !condition {
            assert(dependencies@ == mandatory@ + Seq::<&'static str>::empty());
            assert(mandatory@ + Seq::<&'static str>::empty() == mandatory@);
        }
    }
    dependencies
}

} // verus!
