use vstd::prelude::*;

verus! {

/// The shared copy of the local player is refreshed in a fixed step only when
/// the player component or its transform changed since the last step.
pub fn needs_sync(player_changed: bool, transform_changed: bool) -> (r: bool)
    ensures
        r == (player_changed || transform_changed),
{
    player_changed || transform_changed
}

} // verus!
