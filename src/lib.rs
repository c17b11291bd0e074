//! Input-processing core of a Helix-style modal line editor: a key machine that
//! resolves keys to actions under three editing modes, and a cursor/selection
//! engine that applies those actions to a text buffer.

mod action;
mod bindings;
mod commands;
mod engine;
mod laws;
mod machine;
mod motion;
mod text;

pub use action::{HelixAction, HelixMode, HelixStep};
pub use bindings::{binding, bindings, bound, resolve, resolved, ESC};
pub use commands::{
    append_mode, insert_mode, move_char_left, move_char_right, move_next_word_start,
    move_prev_word_start, move_visual_line_down, move_visual_line_up,
};
pub use engine::{
    applied, column_target, landing, line_target, rope_movement, rope_target, traverse_anchor,
    well_formed, HelixBuffer, Selection, TargetShape,
};
pub use laws::{
    drive, lemma_column_step_back, lemma_escape_is_idempotent, lemma_mode_edges, lemma_select_motions_keep_anchor,
    lemma_selection_persists, lemma_traverse_next_disjoint, lemma_traverse_previous_disjoint, run,
};
pub use machine::HelixMachine;
pub use motion::{CountPolicy, Direction, MotionKind, MotionSpec, WordStyle};
pub use text::{clamp, offset_of, position_at, Cursor};
