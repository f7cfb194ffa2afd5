//! The pointer: what mouse and touch amount to in one tick.

use vstd::prelude::*;
use crate::geometry::Vec2;

verus! {

/// The pointer of one tick: where it is in the world, and whether it went
/// down or up in this tick.
#[derive(Clone, Copy, Debug, PartialEq, Eq, Structural)]
pub struct Actions {
    pub just_pressed: bool,
    pub just_released: bool,
    pub position: Option<Vec2>,
}

/// What the touch screen reports in one tick.
#[derive(Clone, Copy, Debug, PartialEq, Eq, Structural)]
pub struct TouchInput {
    /// Where the first finger that rests on the screen is, in the world.
    pub position: Option<Vec2>,
    /// Whether any finger went down in this tick.
    pub any_just_pressed: bool,
    /// Whether any finger went up in this tick.
    pub any_just_released: bool,
}

/// What the left mouse button and the cursor report in one tick.
#[derive(Clone, Copy, Debug, PartialEq, Eq, Structural)]
pub struct MouseInput {
    pub pressed: bool,
    pub just_pressed: bool,
    pub just_released: bool,
    /// Where the cursor is in the world, if it is over the window.
    pub position: Option<Vec2>,
}

impl Default for Actions {
    /// No pointer.
    fn default() -> (actions: Actions)
        ensures
            actions == Actions::idle(),
    {
        Actions { just_pressed: false, just_released: false, position: None }
    }
}

impl Actions {
    /// The pointer of a tick in which nothing points.
    pub open spec fn idle() -> Actions {
        Actions { just_pressed: false, just_released: false, position: None }
    }

    /// The pointer that follows `self` once `touch` and `mouse` are read. A
    /// finger on the screen decides alone. Without one the mouse decides
    /// while its button is held or has just gone up: it gives its own
    /// position and edges, and leaves the pointer as it was while the cursor
    /// is off the window. Otherwise nothing points.
    pub open spec fn processed(self, touch: TouchInput, mouse: MouseInput) -> Actions {
        if let Some(position) = touch.position {
            Actions {
                just_pressed: touch.any_just_pressed,
                just_released: touch.any_just_released,
                position: Some(position),
            }
        } else if mouse.pressed || mouse.just_released {
            if let Some(position) = mouse.position {
                Actions {
                    just_pressed: mouse.just_pressed,
                    just_released: mouse.just_released,
                    position: Some(position),
                }
            } else {
                self
            }
        } else {
            Actions::idle()
        }
    }
}

/// Reads touch and mouse into the pointer of this tick.
pub fn process_actions(actions: &mut Actions, touch: &TouchInput, mouse: &MouseInput)
    ensures
        *final(actions) == old(actions).processed(*touch, *mouse),
        touch.position is Some ==> final(actions).position == touch.position,
        touch.position is None && !mouse.pressed && !mouse.just_released ==> *final(actions)
            == Actions::idle(),
{
    if let Some(position) = touch.position {
        actions.position = Some(position);
        actions.just_pressed = touch.any_just_pressed;
        actions.just_released = touch.any_just_released;
    } else if mouse.pressed || mouse.just_released {
        if let Some(position) = mouse.position {
            actions.position = Some(position);
            actions.just_pressed = mouse.just_pressed;
            actions.just_released = mouse.just_released;
        }
    } else {
        actions.position = None;
        actions.just_pressed = false;
        actions.just_released = false;
    }
}

} // verus!
