//! Small helpers on vectors.

use vstd::prelude::*;

verus! {

/// A vector with the same elements in the same order.
pub fn copy_of<T: Copy>(items: &Vec<T>) -> (copy: Vec<T>)
    ensures
        copy@ == items@,
{
    let mut copy: Vec<T> = Vec::new();
    let mut i: usize = 0;
    while i < items.len()
        invariant
            i <= items.len(),
            copy@ == items@.take(i as int),
        decreases items.len() - i,
    {
        copy.push(items[i]);
        i += 1;
        assert(copy@ =~= items@.take(i as int));
    }
    assert(items@.take(i as int) =~= items@);
    copy
}

} // verus!
