//! Comparisons on text, stated over sequences of characters.

use vstd::prelude::*;
use vstd::std_specs::iter::IteratorSpec;

verus! {

/// Whether `text` begins with `prefix`, character by character.
pub fn starts_with(text: &str, prefix: &str) -> (found: bool)
    ensures
        found == prefix@.is_prefix_of(text@),
{
    let mut rest = text.chars();
    let mut wanted = prefix.chars();
    let ghost mut done: int = 0;
    loop
        invariant
            0 <= done <= prefix@.len(),
            done <= text@.len(),
            wanted.remaining() == prefix@.skip(done),
            rest.remaining() == text@.skip(done),
            forall|k: int| 0 <= k < done ==> text@[k] == prefix@[k],
        decreases prefix@.len() - done,
    {
        match wanted.next() {
            None => {
                return true;
            },
            Some(expected) => {
                match rest.next() {
                    None => {
                        return false;
                    },
                    Some(actual) => {
                        if actual != expected {
                            return false;
                        }
                        proof {
                            done = done + 1;
                        }
                    },
                }
            },
        }
    }
}

/// Whether two pieces of text hold the same characters.
pub fn same_text(left: &str, right: &str) -> (same: bool)
    ensures
        same == (left@ == right@),
{
    let forward = starts_with(left, right);
    let backward = starts_with(right, left);
    proof {
        if forward && backward {
            assert(left@ =~= right@);
        }
    }
    forward && backward
}

} // verus!
