//! Warming up the message buffer before it is measured.
use vstd::prelude::*;

verus! {

/// Touches every byte of `data` twice, adding one to each byte in each pass,
/// so that the whole buffer is resident before a measurement starts.
pub fn prefetch(data: &mut [u8])
    requires
        forall|i: int| 0 <= i < old(data)@.len() ==> old(data)@[i] + 2 <= u8::MAX,
    ensures
        final(data)@.len() == old(data)@.len(),
        forall|i: int| 0 <= i < old(data)@.len() ==> final(data)@[i] == old(data)@[i] + 2,
{
    let len = data.len();
    let ghost start = data@;
    for i in 0..len
        invariant
            len == data@.len(),
            start.len() == len,
            forall|k: int| 0 <= k < len ==> start[k] + 2 <= u8::MAX,
            forall|k: int| 0 <= k < i ==> data@[k] == start[k] + 1,
            forall|k: int| i <= k < len ==> data@[k] == start[k],
    {
        assert(data@[i as int] == start[i as int]);
        data[i] = data[i] + 1;
    }
    for j in 0..len
        invariant
            len == data@.len(),
            start.len() == len,
            forall|k: int| 0 <= k < len ==> start[k] + 2 <= u8::MAX,
            forall|k: int| 0 <= k < j ==> data@[k] == start[k] + 2,
            forall|k: int| j <= k < len ==> data@[k] == start[k] + 1,
    {
        assert(data@[j as int] == start[j as int] + 1);
        data[j] = data[j] + 1;
    }
}

} // verus!
