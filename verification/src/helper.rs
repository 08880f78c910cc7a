//! Small conversions shared by the planning modules.

use vstd::prelude::*;

verus! {

/// Converts a length or index to the 32-bit count that driver descriptors
/// carry. The value has to fit.
pub fn usize_into_u32(value: usize) -> (result: u32)
    requires
        value <= u32::MAX,
    ensures
        result == value,
{
    value as u32
}

/// The character sequences that a list of strings holds, in order.
pub open spec fn texts(list: Seq<String>) -> Seq<Seq<char>> {
    Seq::new(list.len(), |i: int| list[i]@)
}

/// Whether `list` holds a string with the characters of `name`.
pub fn contains_name(list: &Vec<String>, name: &String) -> (found: bool)
    ensures
        found == texts(list@).contains(name@),
{
    let mut i: usize = 0;
    while i < list.len()
        invariant
            i <= list.len(),
            forall|k: int| 0 <= k < i ==> list[k]@ != name@,
        decreases list.len() - i,
    {
        if list[i] == *name {
            assert(texts(list@)[i as int] == name@);
            return true;
        }
        i += 1;
    }
    false
}

} // verus!
