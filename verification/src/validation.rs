//! Decisions behind the administrative command guards.
//!
//! The guards themselves talk to the platform (fetch the guild's roles,
//! test membership, post an error reply); the decisions they rest on are
//! here, on plain values.

use vstd::prelude::*;

verus! {

/// Whether a command received the argument count it requires.
pub fn has_correct_arg_count(expected: usize, actual: usize) -> (r: bool)
    ensures
        r == (expected == actual),
{
    expected == actual
}

/// The position of the first role whose name is exactly `target`, if any:
/// the role whose membership gates the administrative commands.
pub fn find_named_role(names: &Vec<String>, target: &String) -> (r: Option<usize>)
    ensures
        r matches Some(i) ==> i < names@.len() && names@[i as int]@ == target@ && (forall|k: int|
            0 <= k < i ==> #[trigger] names@[k]@ != target@),
        r is None ==> forall|k: int| 0 <= k < names@.len() ==> #[trigger] names@[k]@ != target@,
{
    let n = names.len();
    let mut i: usize = 0;
    while i < n
        invariant
            0 <= i <= n,
            n == names@.len(),
            forall|k: int| 0 <= k < i ==> #[trigger] names@[k]@ != target@,
        decreases n - i,
    {
        let nm = &names[i];
        if nm.eq(target) {
            return Some(i);
        }
        i += 1;
    }
    None
}

} // verus!
