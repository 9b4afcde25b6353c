use vstd::prelude::*;

verus! {

/// Whether frame `frame` is one of those captured when every `every`-th frame
/// is kept: the frames whose number is a multiple of `every`.
pub fn capture_due(frame: u64, every: u64) -> (r: bool)
    requires
        every > 0,
    ensures
        r == (frame % every == 0),
{
    frame % every == 0
}

} // verus!
