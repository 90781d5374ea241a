use vstd::prelude::*;

verus! {

/// Steering direction on the screen plane, one unit step per axis.
/// `x` grows to the right and `y` grows upwards.
#[derive(Clone, Copy, Debug, PartialEq, Eq, Structural)]
pub struct GridDirection {
    pub x: i8,
    pub y: i8,
}

/// What the movement system does with one player in a frame.
#[derive(Clone, Copy, Debug, PartialEq, Eq, Structural)]
pub enum PlayerStep {
    /// No key held and the player already stands still: nothing is written,
    /// so the player is not marked as changed.
    Keep,
    /// No key held but the player still has a velocity: it is set to zero.
    Stop,
    /// Keys are held: the player moves along this direction.
    Move(GridDirection),
}

/// 1 for a held key, 0 for a released one.
pub open spec fn key_value(held: bool) -> int {
    if held { 1 } else { 0 }
}

/// The direction that the four keys (W, S, D, A) ask for.
pub open spec fn spec_direction(up: bool, down: bool, right: bool, left: bool) -> GridDirection {
    GridDirection {
        x: (key_value(right) - key_value(left)) as i8,
        y: (key_value(up) - key_value(down)) as i8,
    }
}

pub open spec fn spec_is_still(dir: GridDirection) -> bool {
    dir.x == 0 && dir.y == 0
}

/// The step for a player with the given direction and current velocity.
pub open spec fn spec_player_step(dir: GridDirection, velocity_is_zero: bool) -> PlayerStep {
    if spec_is_still(dir) {
        if velocity_is_zero { PlayerStep::Keep } else { PlayerStep::Stop }
    } else {
        PlayerStep::Move(dir)
    }
}

/// Sums the unit steps of the held keys: D and A act on `x`, W and S on `y`;
/// opposite keys cancel out.
pub fn movement_direction(up: bool, down: bool, right: bool, left: bool) -> (dir: GridDirection)
    ensures
        dir == spec_direction(up, down, right, left),
        dir.x == key_value(right) - key_value(left),
        dir.y == key_value(up) - key_value(down),
        dir.x == (if right { 1int } else { 0int }) - (if left { 1int } else { 0int }),
        dir.y == (if up { 1int } else { 0int }) - (if down { 1int } else { 0int }),
        -1 <= dir.x <= 1,
        -1 <= dir.y <= 1,
{
    let mut x: i8 = 0;
    let mut y: i8 = 0;
    if up {
        y = y + 1;
    }
    if down {
        y = y - 1;
    }
    if right {
        x = x + 1;
    }
    if left {
        x = x - 1;
    }
    GridDirection { x, y }
}

impl GridDirection {
    /// Whether no key asks for movement.
    pub fn is_still(&self) -> (r: bool)
        ensures
            r == spec_is_still(*self),
            r == (self.x == 0 && self.y == 0),
    {
        self.x == 0 && self.y == 0
    }
}

/// Decides what happens to one player in a frame of the movement system.
pub fn plan_player_step(dir: GridDirection, velocity_is_zero: bool) -> (step: PlayerStep)
    ensures
        step == spec_player_step(dir, velocity_is_zero),
        (dir.x != 0 || dir.y != 0) ==> step == PlayerStep::Move(dir),
        (dir.x == 0 && dir.y == 0 && velocity_is_zero) ==> step == PlayerStep::Keep,
        (dir.x == 0 && dir.y == 0 && !velocity_is_zero) ==> step == PlayerStep::Stop,
{
    if dir.is_still() {
        if velocity_is_zero {
            PlayerStep::Keep
        } else {
            PlayerStep::Stop
        }
    } else {
        PlayerStep::Move(dir)
    }
}

/// A direction is still exactly when both of its components are zero: any
/// direction with a non-zero component moves the player along it, whatever
/// its velocity; a zero direction keeps a standing player and stops a
/// moving one.
pub proof fn lemma_step_follows_components(dir: GridDirection, velocity_is_zero: bool)
    ensures
        spec_is_still(dir) <==> (dir.x == 0 && dir.y == 0),
        dir.x != 0 ==> spec_player_step(dir, velocity_is_zero) == PlayerStep::Move(dir),
        dir.y != 0 ==> spec_player_step(dir, velocity_is_zero) == PlayerStep::Move(dir),
        (dir.x == 0 && dir.y == 0) ==> spec_player_step(dir, velocity_is_zero) == (if velocity_is_zero {
            PlayerStep::Keep
        } else {
            PlayerStep::Stop
        }),
{
}

/// From the keys to the step: the player moves exactly when W and S differ
/// or D and A differ, and then along `(D - A, W - S)`; otherwise it is kept
/// or stopped by its velocity alone.
pub proof fn lemma_keys_decide_step(up: bool, down: bool, right: bool, left: bool, velocity_is_zero: bool)
    ensures
        (up != down || right != left) ==> spec_player_step(
            spec_direction(up, down, right, left),
            velocity_is_zero,
        ) == PlayerStep::Move(GridDirection {
            x: (key_value(right) - key_value(left)) as i8,
            y: (key_value(up) - key_value(down)) as i8,
        }),
        (up == down && right == left) ==> spec_player_step(
            spec_direction(up, down, right, left),
            velocity_is_zero,
        ) == (if velocity_is_zero {
            PlayerStep::Keep
        } else {
            PlayerStep::Stop
        }),
{
}

/// Once a player has been stopped, later frames without held keys leave it
/// untouched: a stop is followed by keeping, never by another write.
pub proof fn lemma_stop_then_keep(dir: GridDirection)
    requires
        spec_player_step(dir, false) == PlayerStep::Stop,
    ensures
        spec_player_step(dir, true) == PlayerStep::Keep,
{
}

/// Held keys decide the step alone: the current velocity matters only when
/// no key asks for movement.
pub proof fn lemma_moving_ignores_velocity(dir: GridDirection, a: bool, b: bool)
    requires
        !spec_is_still(dir),
    ensures
        spec_player_step(dir, a) == spec_player_step(dir, b),
        spec_player_step(dir, a) == PlayerStep::Move(dir),
{
}

/// Holding two opposite keys is the same as holding neither of them.
pub proof fn lemma_opposite_keys_cancel(up: bool, down: bool, right: bool, left: bool)
    ensures
        spec_direction(true, true, right, left) == spec_direction(false, false, right, left),
        spec_direction(up, down, true, true) == spec_direction(up, down, false, false),
{
}

} // verus!
