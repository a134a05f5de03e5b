use vstd::prelude::*;

verus! {

/// The `(repeat, single)` flags that toggling repeat asks of the player, given
/// the current ones: off, then repeat the queue, then repeat one song, then off.
/// With repeat off, `single` is left as it is.
pub fn repeat_toggled(repeat: bool, single: bool) -> (r: (bool, bool))
    ensures
        repeat && single ==> r == (false, false),
        repeat && !single ==> r == (true, true),
        !repeat ==> r == (true, single),
{
    if repeat && single {
        (false, false)
    } else if repeat {
        (true, true)
    } else {
        (true, single)
    }
}

} // verus!
