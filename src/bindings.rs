//! The binding tables of the three modes and the resolution of a key to a step.

use vstd::prelude::*;
use crate::action::{HelixAction, HelixMode, HelixStep};
use crate::commands::{
    append_mode, insert_mode, move_char_left, move_char_right, move_next_word_start,
    move_prev_word_start, move_visual_line_down, move_visual_line_up,
};
use crate::motion::{Direction, MotionSpec};

verus! {

/// The key that leaves Insert mode.
pub const ESC: char = '\u{1B}';

/// The motions that Normal and Select mode share.
pub open spec fn motion_key(key: char) -> Option<MotionSpec> {
    if key == 'h' {
        Some(move_char_left())
    } else if key == 'l' {
        Some(move_char_right())
    } else if key == 'j' {
        Some(move_visual_line_down())
    } else if key == 'k' {
        Some(move_visual_line_up())
    } else {
        None
    }
}

/// The step that `key` is bound to in `mode`, if it is bound there.
pub open spec fn bound(mode: HelixMode, key: char) -> Option<HelixStep> {
    match mode {
        HelixMode::Insert => if key == ESC {
            Some((None, Some(HelixMode::Normal)))
        } else {
            None
        },
        HelixMode::Normal => if motion_key(key) is Some {
            Some((Some(HelixAction::Motion(motion_key(key)->0)), None))
        } else if key == 'w' {
            Some((Some(HelixAction::TraverseMotion(move_next_word_start(), Direction::Next)), None))
        } else if key == 'b' {
            Some(
                (Some(HelixAction::TraverseMotion(move_prev_word_start(), Direction::Previous)), None),
            )
        } else if key == 'v' {
            Some((None, Some(HelixMode::Select)))
        } else if key == 'i' {
            Some(insert_mode())
        } else if key == 'a' {
            Some(append_mode())
        } else {
            None
        },
        HelixMode::Select => if motion_key(key) is Some {
            Some((Some(HelixAction::Motion(motion_key(key)->0)), None))
        } else if key == 'v' {
            Some((None, Some(HelixMode::Normal)))
        } else {
            None
        },
    }
}

/// What an unbound key does: in Insert a key that carries a character types it;
/// in Normal and Select unbound keys are ignored.
pub open spec fn unmapped_step(mode: HelixMode, key: Option<char>) -> HelixStep {
    match (mode, key) {
        (HelixMode::Insert, Some(c)) => (Some(HelixAction::Type(c)), None),
        _ => (None, None),
    }
}

/// The step that `key` resolves to in `mode`: its binding, else the fallback.
pub open spec fn resolved(mode: HelixMode, key: char) -> HelixStep {
    match bound(mode, key) {
        Some(step) => step,
        None => unmapped_step(mode, Some(key)),
    }
}

/// The mode after a step taken in `mode`.
pub open spec fn after(mode: HelixMode, step: HelixStep) -> HelixMode {
    match step.1 {
        Some(m) => m,
        None => mode,
    }
}

/// The binding catalog, one entry per bound key of each mode.
pub open spec fn binding_table() -> Seq<(HelixMode, char, HelixStep)> {
    seq![
        (HelixMode::Insert, ESC, (None, Some(HelixMode::Normal))),
        (HelixMode::Normal, 'h', (Some(HelixAction::Motion(move_char_left())), None)),
        (HelixMode::Normal, 'l', (Some(HelixAction::Motion(move_char_right())), None)),
        (HelixMode::Normal, 'j', (Some(HelixAction::Motion(move_visual_line_down())), None)),
        (HelixMode::Normal, 'k', (Some(HelixAction::Motion(move_visual_line_up())), None)),
        (
            HelixMode::Normal,
            'w',
            (Some(HelixAction::TraverseMotion(move_next_word_start(), Direction::Next)), None),
        ),
        (
            HelixMode::Normal,
            'b',
            (Some(HelixAction::TraverseMotion(move_prev_word_start(), Direction::Previous)), None),
        ),
        (HelixMode::Normal, 'v', (None, Some(HelixMode::Select))),
        (HelixMode::Normal, 'i', insert_mode()),
        (HelixMode::Normal, 'a', append_mode()),
        (HelixMode::Select, 'v', (None, Some(HelixMode::Normal))),
        (HelixMode::Select, 'h', (Some(HelixAction::Motion(move_char_left())), None)),
        (HelixMode::Select, 'l', (Some(HelixAction::Motion(move_char_right())), None)),
        (HelixMode::Select, 'j', (Some(HelixAction::Motion(move_visual_line_down())), None)),
        (HelixMode::Select, 'k', (Some(HelixAction::Motion(move_visual_line_up())), None)),
    ]
}

/// The step that `key` is bound to in `mode`.
pub fn binding(mode: HelixMode, key: char) -> (r: Option<HelixStep>)
    ensures
        r == bound(mode, key),
{
    let shared = if key == 'h' {
        Some(move_char_left())
    } else if key == 'l' {
        Some(move_char_right())
    } else if key == 'j' {
        Some(move_visual_line_down())
    } else if key == 'k' {
        Some(move_visual_line_up())
    } else {
        None
    };
    match mode {
        HelixMode::Insert => if key == ESC {
            Some((None, Some(HelixMode::Normal)))
        } else {
            None
        },
        HelixMode::Normal => match shared {
            Some(m) => Some((Some(HelixAction::Motion(m)), None)),
            None => if key == 'w' {
                Some(
                    (Some(HelixAction::TraverseMotion(move_next_word_start(), Direction::Next)), None),
                )
            } else if key == 'b' {
                Some(
                    (
                        Some(HelixAction::TraverseMotion(move_prev_word_start(), Direction::Previous)),
                        None,
                    ),
                )
            } else if key == 'v' {
                Some((None, Some(HelixMode::Select)))
            } else if key == 'i' {
                Some(insert_mode())
            } else if key == 'a' {
                Some(append_mode())
            } else {
                None
            },
        },
        HelixMode::Select => match shared {
            Some(m) => Some((Some(HelixAction::Motion(m)), None)),
            None => if key == 'v' {
                Some((None, Some(HelixMode::Normal)))
            } else {
                None
            },
        },
    }
}

/// The catalog as a list, for machines that load their bindings entry by entry.
/// Each entry is a binding, and each binding has exactly one entry.
pub fn bindings() -> (r: Vec<(HelixMode, char, HelixStep)>)
    ensures
        r@ == binding_table(),
        forall|i: int| 0 <= i < r@.len() ==> bound(#[trigger] r@[i].0, r@[i].1) == Some(r@[i].2),
        forall|i: int, j: int|
            0 <= i < j < r@.len() ==> (#[trigger] r@[i].0, r@[i].1) != (#[trigger] r@[j].0, r@[j].1),
        forall|mode: HelixMode, key: char|
            #[trigger] bound(mode, key) is Some ==> exists|i: int|
                0 <= i < r@.len() && r@[i].0 == mode && r@[i].1 == key,
{
    let r = vec![
        (HelixMode::Insert, ESC, (None, Some(HelixMode::Normal))),
        (HelixMode::Normal, 'h', (Some(HelixAction::Motion(move_char_left())), None)),
        (HelixMode::Normal, 'l', (Some(HelixAction::Motion(move_char_right())), None)),
        (HelixMode::Normal, 'j', (Some(HelixAction::Motion(move_visual_line_down())), None)),
        (HelixMode::Normal, 'k', (Some(HelixAction::Motion(move_visual_line_up())), None)),
        (
            HelixMode::Normal,
            'w',
            (Some(HelixAction::TraverseMotion(move_next_word_start(), Direction::Next)), None),
        ),
        (
            HelixMode::Normal,
            'b',
            (Some(HelixAction::TraverseMotion(move_prev_word_start(), Direction::Previous)), None),
        ),
        (HelixMode::Normal, 'v', (None, Some(HelixMode::Select))),
        (HelixMode::Normal, 'i', insert_mode()),
        (HelixMode::Normal, 'a', append_mode()),
        (HelixMode::Select, 'v', (None, Some(HelixMode::Normal))),
        (HelixMode::Select, 'h', (Some(HelixAction::Motion(move_char_left())), None)),
        (HelixMode::Select, 'l', (Some(HelixAction::Motion(move_char_right())), None)),
        (HelixMode::Select, 'j', (Some(HelixAction::Motion(move_visual_line_down())), None)),
        (HelixMode::Select, 'k', (Some(HelixAction::Motion(move_visual_line_up())), None)),
    ];
    proof {
        let t = binding_table();
        assert(r@ =~= t);
        assert forall|mode: HelixMode, key: char| #[trigger] bound(mode, key) is Some implies exists|i: int|
            0 <= i < t.len() && t[i].0 == mode && t[i].1 == key by {
            let i: int = match mode {
                HelixMode::Insert => 0,
                HelixMode::Normal => if key == 'h' {
                    1
                } else if key == 'l' {
                    2
                } else if key == 'j' {
                    3
                } else if key == 'k' {
                    4
                } else if key == 'w' {
                    5
                } else if key == 'b' {
                    6
                } else if key == 'v' {
                    7
                } else if key == 'i' {
                    8
                } else {
                    9
                },
                HelixMode::Select => if key == 'v' {
                    10
                } else if key == 'h' {
                    11
                } else if key == 'l' {
                    12
                } else if key == 'j' {
                    13
                } else {
                    14
                },
            };
            assert(t[i].0 == mode && t[i].1 == key);
        }
    }
    r
}

impl HelixMode {
    /// The fallback for a key that no binding of this mode matches; `key` is the
    /// character that the key carries, if any.
    pub fn unmapped(&self, key: Option<char>) -> (r: (Vec<HelixAction>, Option<HelixMode>))
        ensures
            r.1 is None,
            r.0@ == (match unmapped_step(*self, key).0 {
                Some(a) => seq![a],
                None => Seq::<HelixAction>::empty(),
            }),
    {
        match self {
            HelixMode::Normal | HelixMode::Select => (vec![], None),
            HelixMode::Insert => match key {
                Some(c) => (vec![HelixAction::Type(c)], None),
                None => (vec![], None),
            },
        }
    }
}

/// Resolve `key` in `mode`: the bound step, else the mode's fallback.
pub fn resolve(mode: HelixMode, key: char) -> (r: HelixStep)
    ensures
        r == resolved(mode, key),
{
    match binding(mode, key) {
        Some(step) => step,
        None => match mode {
            HelixMode::Insert => (Some(HelixAction::Type(key)), None),
            _ => (None, None),
        },
    }
}

} // verus!
