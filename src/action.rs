//! Editing modes, the actions that keys resolve to, and the steps that bind them.

use vstd::prelude::*;
use crate::motion::{CountPolicy, Direction, MotionKind, MotionSpec};

verus! {

/// The editing modes. Exactly one is active at a time; a machine starts in `Insert`.
#[derive(Clone, Copy, Debug, Default, Hash, PartialEq, Eq, Structural)]
pub enum HelixMode {
    #[default]
    Insert,
    Normal,
    Select,
}

/// What a key asks of the cursor/selection engine.
#[derive(Clone, Copy, Debug, Default, PartialEq, Eq, Structural)]
pub enum HelixAction {
    /// Insert one literal character at the head.
    Type(char),
    /// Move the head by the motion; the anchor stays.
    Motion(MotionSpec),
    /// Move the head by the motion and reset the anchor next to the old head,
    /// one cell in the given direction, so that consecutive traversals select
    /// fresh stretches of text.
    TraverseMotion(MotionSpec, Direction),
    #[default]
    NoOp,
}

/// The result of a binding: an optional action and an optional mode to enter.
pub type HelixStep = (Option<HelixAction>, Option<HelixMode>);

impl HelixAction {
    /// The motion that the action performs, if it moves the head.
    pub open spec fn spec_motion_target(self) -> Option<MotionSpec> {
        match self {
            HelixAction::Motion(m) => Some(m),
            HelixAction::TraverseMotion(m, _) => Some(m),
            _ => None,
        }
    }

    pub fn motion_target(&self) -> (r: Option<MotionSpec>)
        ensures
            r == self.spec_motion_target(),
    {
        match self {
            HelixAction::Motion(m) => Some(*m),
            HelixAction::TraverseMotion(m, _) => Some(*m),
            _ => None,
        }
    }

    /// The kind of motion that the action performs, if it moves the head.
    pub fn motion_kind(&self) -> (r: Option<MotionKind>)
        ensures
            r == (match self.spec_motion_target() {
                Some(m) => Some(m.kind),
                None => None,
            }),
    {
        match self.motion_target() {
            Some(m) => Some(m.kind),
            None => None,
        }
    }

    /// The action's motion, repeated as `count` says instead of as it said before.
    pub fn to_edit_target(&self, count: CountPolicy) -> (r: Option<MotionSpec>)
        ensures
            r == (match self.spec_motion_target() {
                Some(m) => Some(MotionSpec { kind: m.kind, dir: m.dir, count }),
                None => None,
            }),
    {
        match self.motion_target() {
            Some(m) => Some(MotionSpec { kind: m.kind, dir: m.dir, count }),
            None => None,
        }
    }
}

} // verus!
