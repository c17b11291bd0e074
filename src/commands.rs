//! The command catalog: each named editing command and the motion or step it stands for.

use vstd::prelude::*;
use crate::action::{HelixAction, HelixMode, HelixStep};
use crate::motion::{CountPolicy, Direction, MotionKind, MotionSpec, WordStyle};

verus! {

pub open spec fn spec_move_char_left() -> MotionSpec {
    MotionSpec { kind: MotionKind::Column, dir: Direction::Previous, count: CountPolicy::Contextual }
}

pub open spec fn spec_move_char_right() -> MotionSpec {
    MotionSpec { kind: MotionKind::Column, dir: Direction::Next, count: CountPolicy::Contextual }
}

pub open spec fn spec_move_visual_line_down() -> MotionSpec {
    MotionSpec { kind: MotionKind::Line, dir: Direction::Next, count: CountPolicy::Contextual }
}

pub open spec fn spec_move_visual_line_up() -> MotionSpec {
    MotionSpec { kind: MotionKind::Line, dir: Direction::Previous, count: CountPolicy::Contextual }
}

/// Helix's next word start: to the end of the blank run before the following
/// word, that is, its last blank cell.
pub open spec fn spec_move_next_word_start() -> MotionSpec {
    MotionSpec {
        kind: MotionKind::WordEnd(WordStyle::Whitespace(false)),
        dir: Direction::Next,
        count: CountPolicy::Contextual,
    }
}

/// Helix's previous word start: to the first letter of the previous word.
pub open spec fn spec_move_prev_word_start() -> MotionSpec {
    MotionSpec {
        kind: MotionKind::WordBegin(WordStyle::Little),
        dir: Direction::Previous,
        count: CountPolicy::Contextual,
    }
}

pub open spec fn spec_insert_mode() -> HelixStep {
    (None, Some(HelixMode::Insert))
}

pub open spec fn spec_append_mode() -> HelixStep {
    (Some(HelixAction::Motion(spec_move_char_right())), Some(HelixMode::Insert))
}

/// `move_char_left`
#[verifier::when_used_as_spec(spec_move_char_left)]
pub fn move_char_left() -> (r: MotionSpec)
    ensures
        r == spec_move_char_left(),
{
    MotionSpec { kind: MotionKind::Column, dir: Direction::Previous, count: CountPolicy::Contextual }
}

/// `move_char_right`
#[verifier::when_used_as_spec(spec_move_char_right)]
pub fn move_char_right() -> (r: MotionSpec)
    ensures
        r == spec_move_char_right(),
{
    MotionSpec { kind: MotionKind::Column, dir: Direction::Next, count: CountPolicy::Contextual }
}

/// `move_visual_line_down`
#[verifier::when_used_as_spec(spec_move_visual_line_down)]
pub fn move_visual_line_down() -> (r: MotionSpec)
    ensures
        r == spec_move_visual_line_down(),
{
    MotionSpec { kind: MotionKind::Line, dir: Direction::Next, count: CountPolicy::Contextual }
}

/// `move_visual_line_up`
#[verifier::when_used_as_spec(spec_move_visual_line_up)]
pub fn move_visual_line_up() -> (r: MotionSpec)
    ensures
        r == spec_move_visual_line_up(),
{
    MotionSpec { kind: MotionKind::Line, dir: Direction::Previous, count: CountPolicy::Contextual }
}

/// `move_next_word_start`
#[verifier::when_used_as_spec(spec_move_next_word_start)]
pub fn move_next_word_start() -> (r: MotionSpec)
    ensures
        r == spec_move_next_word_start(),
{
    MotionSpec {
        kind: MotionKind::WordEnd(WordStyle::Whitespace(false)),
        dir: Direction::Next,
        count: CountPolicy::Contextual,
    }
}

/// `move_prev_word_start`
#[verifier::when_used_as_spec(spec_move_prev_word_start)]
pub fn move_prev_word_start() -> (r: MotionSpec)
    ensures
        r == spec_move_prev_word_start(),
{
    MotionSpec {
        kind: MotionKind::WordBegin(WordStyle::Little),
        dir: Direction::Previous,
        count: CountPolicy::Contextual,
    }
}

/// `insert_mode` (`i`): enter Insert with the cursor before the selection; with a
/// collapsed selection that takes no motion.
#[verifier::when_used_as_spec(spec_insert_mode)]
pub fn insert_mode() -> (r: HelixStep)
    ensures
        r == spec_insert_mode(),
{
    (None, Some(HelixMode::Insert))
}

/// `append_mode` (`a`): enter Insert with the cursor after the selection, by one
/// step to the right first.
#[verifier::when_used_as_spec(spec_append_mode)]
pub fn append_mode() -> (r: HelixStep)
    ensures
        r == spec_append_mode(),
{
    (Some(HelixAction::Motion(move_char_right())), Some(HelixMode::Insert))
}

} // verus!
