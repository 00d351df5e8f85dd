//! Enumerations that are sent as strings and may grow: a literal that is
//! known gives its variant, and any other literal is kept as it came.

use vstd::prelude::*;
use crate::text::same_text;

verus! {

/// Looks a literal up in a table of known literals and gives the first
/// position that holds it. The comparison is exact: case matters and nothing
/// is trimmed. A literal that the table does not hold is no failure: the
/// caller keeps it in its catch-all variant.
pub fn find_literal(literals: &[&str], raw: &str) -> (found: Option<usize>)
    ensures
        match found {
            Some(i) => {
                &&& i < literals@.len()
                &&& literals@[i as int]@ == raw@
                &&& forall|j: int| 0 <= j < i ==> (#[trigger] literals@[j])@ != raw@
            },
            None => forall|j: int| 0 <= j < literals@.len() ==> (#[trigger] literals@[j])@ != raw@,
        },
{
    let mut i: usize = 0;
    while i < literals.len()
        invariant
            i <= literals.len(),
            forall|j: int| 0 <= j < i ==> (#[trigger] literals@[j])@ != raw@,
        decreases literals.len() - i,
    {
        if same_text(literals[i], raw) {
            return Some(i);
        }
        i += 1;
    }
    None
}

} // verus!
