//! Selection of an item by a drawn position.

use vstd::prelude::*;

verus! {

/// Returns the item of `source` that stands at the drawn position `index`.
///
/// Every position below the length of the slice selects the item that stands
/// there. A position past the last item selects nothing and yields `None`;
/// with an empty slice that holds of every position, so nothing is ever read
/// out of bounds.
pub fn chose<'a, T>(source: &'a [T], index: usize) -> (r: Option<&'a T>)
    ensures
        index < source@.len() ==> r == Some(&source@[index as int]),
        index >= source@.len() ==> r.is_none(),
        r matches Some(item) ==> source@.contains(*item),
{
    if index < source.len() {
        Some(&source[index])
    } else {
        None
    }
}

} // verus!
