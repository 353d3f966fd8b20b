//! Choice among the places a configuration or runtime directory may be.
use vstd::prelude::*;

verus! {

/// The first of several candidates that qualifies, by position: `qualifies[i]`
/// says whether candidate `i` does (exists, or holds what is looked for).
/// The candidates are tried in order of preference, so the first one wins.
pub fn first_qualifying(qualifies: &[bool]) -> (r: Option<usize>)
    ensures
        r matches Some(i) ==> i < qualifies@.len() && qualifies@[i as int] && forall|j: int|
            0 <= j < i ==> !qualifies@[j],
        r is None ==> forall|j: int| 0 <= j < qualifies@.len() ==> !qualifies@[j],
{
    let mut i: usize = 0;
    while i < qualifies.len()
        invariant
            i <= qualifies@.len(),
            forall|j: int| 0 <= j < i ==> !qualifies@[j],
        decreases qualifies@.len() - i,
    {
        if qualifies[i] {
            return Some(i);
        }
        i = i + 1;
    }
    None
}

} // verus!
