//! The key under which a chain is logged.

use vstd::prelude::*;

verus! {

/// The key that a chain is logged under when it is given to a logger as a
/// key-value pair of its own, without a key chosen by the caller: `error`.
pub fn implicit_key() -> (key: &'static str)
    ensures
        key@ == seq!['e', 'r', 'r', 'o', 'r'],
{
    proof {
        reveal_strlit("error");
    }
    "error"
}

} // verus!
