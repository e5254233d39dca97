//! Which enemy ship model a new aircraft uses.
use vstd::prelude::*;
use crate::random::random_index;

verus! {

/// A random ship model among `count`, or none when there are no models.
pub fn pick_ship(count: usize) -> (r: Option<usize>)
    ensures
        count == 0 <==> r is None,
        r matches Some(i) ==> i < count,
{
    if count == 0 {
        None
    } else {
        Some(random_index(count))
    }
}

} // verus!
