//! Logical input of one frame: what the player holds, and what the last move ran into.

use vstd::prelude::*;

verus! {

/// What the host reports of one logical action in one frame.
#[derive(Clone, Copy, Debug, PartialEq, Eq, Structural)]
pub enum ActionState {
    /// The action's key is up.
    Released,
    /// The key is down and was already down in the frame before.
    Held,
    /// The key went down in this frame.
    JustPressed,
}

impl ActionState {
    /// Whether the key counts as down in this frame: from its press on, until released.
    pub open spec fn down(self) -> bool {
        self is Held || self is JustPressed
    }

    /// Whether the key went down in this frame.
    pub open spec fn pressed_now(self) -> bool {
        self is JustPressed
    }

    /// Resolves the two flags that an input backend keeps for a key. A fresh
    /// press counts even if the key is up again within the frame; a key that
    /// is merely down is held.
    pub fn from_sample(held: bool, just_pressed: bool) -> (r: ActionState)
        ensures
            r is JustPressed <==> just_pressed,
            r is Held <==> held && !just_pressed,
            r is Released <==> !held && !just_pressed,
    {
        if just_pressed {
            ActionState::JustPressed
        } else if held {
            ActionState::Held
        } else {
            ActionState::Released
        }
    }

    /// Whether the key counts as down in this frame.
    pub fn is_down(self) -> (r: bool)
        ensures
            r == self.down(),
    {
        match self {
            ActionState::Released => false,
            ActionState::Held => true,
            ActionState::JustPressed => true,
        }
    }

    /// Whether the key went down in this frame.
    pub fn is_just_pressed(self) -> (r: bool)
        ensures
            r == self.pressed_now(),
    {
        match self {
            ActionState::JustPressed => true,
            _ => false,
        }
    }
}

/// The three logical actions of one frame.
#[derive(Clone, Copy, Debug, PartialEq, Eq, Structural)]
pub struct FrameInput {
    /// Walk towards negative x.
    pub move_left: ActionState,
    /// Walk towards positive x.
    pub move_right: ActionState,
    /// Start a jump.
    pub jump: ActionState,
}

impl FrameInput {
    /// -1 for left, +1 for right, 0 where neither or both are down.
    pub open spec fn direction(self) -> int {
        let right: int = if self.move_right.down() { 1 } else { 0 };
        let left: int = if self.move_left.down() { 1 } else { 0 };
        right - left
    }

    /// The sign of the horizontal movement asked for; both keys cancel out.
    pub fn horizontal(&self) -> (r: i8)
        ensures
            r == self.direction(),
    {
        let left = self.move_left.is_down();
        let right = self.move_right.is_down();
        if left == right {
            0
        } else if right {
            1
        } else {
            -1
        }
    }
}

/// Contact flags that the resolver reports after it has applied a displacement.
#[derive(Clone, Copy, Debug, PartialEq, Eq, Structural)]
pub struct ResolverFeedback {
    /// The body rests on something below it.
    pub grounded: bool,
    /// The body touches nothing below it.
    pub airborne: bool,
    /// The body touches something above it.
    pub ceiling: bool,
    /// The body touches something beside it.
    pub wall: bool,
}

impl ResolverFeedback {
    /// A report says exactly one of grounded and airborne.
    pub open spec fn consistent(self) -> bool {
        self.grounded != self.airborne
    }

    /// Ground contact that the controller acts on. A report that claims both
    /// grounded and airborne is read as no contact, so the body keeps falling.
    pub open spec fn contact(self) -> bool {
        self.grounded && !self.airborne
    }

    /// Whether the report says exactly one of grounded and airborne. The host
    /// may log a report that fails this; the controller goes on either way.
    pub fn is_consistent(&self) -> (r: bool)
        ensures
            r == self.consistent(),
    {
        self.grounded != self.airborne
    }

    /// Whether the report is one of ground contact that the controller acts on.
    pub fn ground_contact(&self) -> (r: bool)
        ensures
            r == self.contact(),
    {
        self.grounded && !self.airborne
    }
}

} // verus!
