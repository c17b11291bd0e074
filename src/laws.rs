//! Properties that relate several steps of the machine and the engine.

use vstd::prelude::*;
use crate::action::{HelixAction, HelixMode};
use crate::bindings::{after, motion_key, resolved, ESC};
use crate::engine::{
    applied, landing, last_blank, lemma_applied_well_formed, lemma_last_blank_range, offset_at, sorted,
    traverse_anchor, well_formed, Selection,
};
use crate::machine::emitted;
use crate::motion::{Direction, MotionKind, MotionSpec};
use crate::text::{
    breaks_at, is_position, lemma_clamp_pos, lemma_pos_at_bounded, lemma_pos_at_increasing,
    line_len, pos_at, pos_le, pos_lt, Cursor,
};

verus! {

/// The text and selection after applying `actions` in order, each with no count
/// from the caller.
pub open spec fn run(text: Seq<char>, sel: Selection, actions: Seq<HelixAction>) -> (
    Seq<char>,
    Selection,
)
    decreases actions.len(),
{
    if actions.len() == 0 {
        (text, sel)
    } else {
        let next = applied(text, sel, actions[0], None);
        run(next.0, next.1, actions.drop_first())
    }
}

/// The mode, text and selection after feeding `keys` one by one to a machine in
/// `mode` and applying each action it produces.
pub open spec fn drive(mode: HelixMode, text: Seq<char>, sel: Selection, keys: Seq<char>) -> (
    HelixMode,
    Seq<char>,
    Selection,
)
    decreases keys.len(),
{
    if keys.len() == 0 {
        (mode, text, sel)
    } else {
        let step = resolved(mode, keys[0]);
        let next = applied(text, sel, emitted(step), None);
        drive(after(mode, step), next.0, next.1, keys.drop_first())
    }
}

/// Whatever actions are applied, one after another, the buffer keeps its
/// selection, and the head of it names a position of the text.
pub proof fn lemma_selection_persists(text: Seq<char>, sel: Selection, actions: Seq<HelixAction>)
    requires
        well_formed(text, sel),
    ensures
        well_formed(run(text, sel, actions).0, run(text, sel, actions).1),
        is_position(run(text, sel, actions).0, run(text, sel, actions).1.head@),
    decreases actions.len(),
{
    if actions.len() > 0 {
        let next = applied(text, sel, actions[0], None);
        lemma_applied_well_formed(text, sel, actions[0], None);
        lemma_selection_persists(next.0, next.1, actions.drop_first());
    }
}

/// In Select mode, keys bound to motions keep the machine in Select and move only
/// the head: the anchor stays where it was, and the text is untouched.
pub proof fn lemma_select_motions_keep_anchor(text: Seq<char>, sel: Selection, keys: Seq<char>)
    requires
        forall|i: int| 0 <= i < keys.len() ==> motion_key(#[trigger] keys[i]) is Some,
    ensures
        drive(HelixMode::Select, text, sel, keys).0 == HelixMode::Select,
        drive(HelixMode::Select, text, sel, keys).1 == text,
        drive(HelixMode::Select, text, sel, keys).2.anchor == sel.anchor,
    decreases keys.len(),
{
    if keys.len() > 0 {
        assert(motion_key(keys[0]) is Some);
        let step = resolved(HelixMode::Select, keys[0]);
        let next = applied(text, sel, emitted(step), None);
        assert(keys.drop_first().len() < keys.len());
        assert forall|i: int| 0 <= i < keys.drop_first().len() implies motion_key(
            #[trigger] keys.drop_first()[i],
        ) is Some by {
            assert(keys.drop_first()[i] == keys[i + 1]);
        }
        lemma_select_motions_keep_anchor(next.0, next.1, keys.drop_first());
    }
}

/// Escape in Normal mode is ignored: the mode, the text and the selection stay.
/// So pressing Escape again after leaving Insert changes nothing more.
pub proof fn lemma_escape_is_idempotent(mode: HelixMode, text: Seq<char>, sel: Selection)
    requires
        mode == HelixMode::Insert || mode == HelixMode::Normal,
    ensures
        drive(HelixMode::Normal, text, sel, seq![ESC]) == (HelixMode::Normal, text, sel),
        drive(mode, text, sel, seq![ESC, ESC]) == drive(mode, text, sel, seq![ESC]),
        drive(mode, text, sel, seq![ESC]).0 == HelixMode::Normal,
{
    let one = seq![ESC];
    let two = seq![ESC, ESC];
    assert(one.drop_first() =~= Seq::<char>::empty());
    assert(two.drop_first() =~= one);
    reveal_with_fuel(drive, 3);
}

/// The cells before a position on its line are positions too.
proof fn lemma_earlier_column(text: Seq<char>, i: nat, c: nat)
    requires
        c <= pos_at(text, i).1,
    ensures
        i >= pos_at(text, i).1 - c,
        pos_at(text, (i - (pos_at(text, i).1 - c)) as nat) == (pos_at(text, i).0, c),
    decreases pos_at(text, i).1 - c,
{
    if pos_at(text, i).1 > c {
        assert(i > 0);
        assert(!breaks_at(text, i - 1));
        lemma_earlier_column(text, (i - 1) as nat, c);
    }
}

/// A character-wise step backward by `n` cells keeps the head on its line and
/// puts it `n` columns back, or at column zero where the line is shorter than
/// that; from column zero it stays where it is.
pub proof fn lemma_column_step_back(text: Seq<char>, sel: Selection, m: MotionSpec, given: Option<usize>)
    requires
        well_formed(text, sel),
        m.kind == MotionKind::Column,
        m.dir == Direction::Previous,
    ensures
        ({
            let n = m.count.spec_resolve(given) as int;
            let x = if sel.head.column >= n {
                sel.head.column - n
            } else {
                0
            };
            let end = line_len(text, sel.head.line as nat) as int;
            landing(text, sel.head, m, given) == Cursor {
                line: sel.head.line,
                column: (if x <= end {
                    x
                } else {
                    end
                }) as usize,
            }
        }),
        sel.head.column == 0 ==> landing(text, sel.head, m, given) == sel.head,
{
    let n = m.count.spec_resolve(given) as int;
    let x = if sel.head.column >= n {
        sel.head.column - n
    } else {
        0
    };
    let end = line_len(text, sel.head.line as nat) as int;
    let c: nat = (if x <= end {
        x
    } else {
        end
    }) as nat;
    let i = choose|i: nat| i < text.len() && #[trigger] pos_at(text, i) == sel.head@;
    lemma_earlier_column(text, i, c);
    assert(is_position(text, (sel.head.line as nat, c)));
    lemma_clamp_pos(text, (sel.head.line as nat, c));
}

/// Modes change only along the binding table: no key leads from Insert straight
/// to Select, nor from Select straight to Insert, and Escape is the only way out
/// of Insert.
pub proof fn lemma_mode_edges(key: char)
    ensures
        after(HelixMode::Insert, resolved(HelixMode::Insert, key)) != HelixMode::Select,
        after(HelixMode::Select, resolved(HelixMode::Select, key)) != HelixMode::Insert,
        after(HelixMode::Insert, resolved(HelixMode::Insert, key)) != HelixMode::Insert <==> key
            == ESC,
{
}

/// Two traversals forward: where the second moves the head forward, its anchor
/// comes right after the previous head and at or before the new head, strictly
/// before it unless the head moved a single cell along its line. Where the first
/// moved forward too, the second selection starts after the first one ends: the
/// two do not overlap.
pub proof fn lemma_traverse_next_disjoint(
    text: Seq<char>,
    sel: Selection,
    first: MotionSpec,
    second: MotionSpec,
)
    requires
        well_formed(text, sel),
        ({
            let s1 = applied(text, sel, HelixAction::TraverseMotion(first, Direction::Next), None).1;
            let s2 = applied(text, s1, HelixAction::TraverseMotion(second, Direction::Next), None).1;
            pos_lt(s1.head@, s2.head@)
        }),
    ensures
        ({
            let s1 = applied(text, sel, HelixAction::TraverseMotion(first, Direction::Next), None).1;
            let s2 = applied(text, s1, HelixAction::TraverseMotion(second, Direction::Next), None).1;
            &&& pos_lt(s1.head@, s2.anchor@) && pos_le(s2.anchor@, s2.head@)
            &&& pos_lt(s2.anchor@, s2.head@) <==> !(s2.head.line == s1.head.line
                && s2.head.column == s1.head.column + 1)
            &&& sorted(s2).0 == s2.anchor
            &&& pos_lt(sel.head@, s1.head@) ==> sorted(s1).1 == s1.head && pos_lt(
                sorted(s1).1@,
                sorted(s2).0@,
            )
        }),
{
    let a1 = HelixAction::TraverseMotion(first, Direction::Next);
    let s1 = applied(text, sel, a1, None).1;
    lemma_applied_well_formed(text, sel, a1, None);
    lemma_column_bound(text, sel.head);
    lemma_column_bound(text, s1.head);
}

/// Two traversals backward: where the second moves the head backward, its anchor
/// lies at or after the new head and at or before the previous head, strictly
/// before it unless that head stood at column zero, whether the anchor is the cell
/// next to the old head or, for word motions, the last blank cell between the two
/// heads. Where the first moved backward too and its head is off column zero, the
/// second selection ends before the first one starts: the two do not overlap.
pub proof fn lemma_traverse_previous_disjoint(
    text: Seq<char>,
    sel: Selection,
    first: MotionSpec,
    second: MotionSpec,
)
    requires
        well_formed(text, sel),
        ({
            let s1 = applied(text, sel, HelixAction::TraverseMotion(first, Direction::Previous), None).1;
            let s2 = applied(text, s1, HelixAction::TraverseMotion(second, Direction::Previous), None).1;
            pos_lt(s2.head@, s1.head@)
        }),
    ensures
        ({
            let s1 = applied(text, sel, HelixAction::TraverseMotion(first, Direction::Previous), None).1;
            let s2 = applied(text, s1, HelixAction::TraverseMotion(second, Direction::Previous), None).1;
            &&& pos_le(s2.head@, s2.anchor@) && pos_le(s2.anchor@, s1.head@)
            &&& s1.head.column > 0 ==> pos_lt(s2.anchor@, s1.head@)
            &&& sorted(s2).1 == s2.anchor
            &&& pos_lt(s1.head@, sel.head@) ==> sorted(s1).0 == s1.head
            &&& pos_lt(s1.head@, sel.head@) && s1.head.column > 0 ==> pos_lt(
                sorted(s2).1@,
                sorted(s1).0@,
            )
        }),
{
    let a1 = HelixAction::TraverseMotion(first, Direction::Previous);
    let s1 = applied(text, sel, a1, None).1;
    let a2 = HelixAction::TraverseMotion(second, Direction::Previous);
    let s2 = applied(text, s1, a2, None).1;
    lemma_applied_well_formed(text, sel, a1, None);
    lemma_applied_well_formed(text, s1, a2, None);
    if pos_lt(s1.head@, sel.head@) {
        lemma_backward_anchor(text, sel.head, s1.head, first.kind);
    }
    lemma_backward_anchor(text, s1.head, s2.head, second.kind);
}

/// A backward traversal from `old_head` to an earlier `new_head` anchors at or
/// after the new head and at or before the old one, strictly before it where the
/// old head is off column zero.
proof fn lemma_backward_anchor(text: Seq<char>, old_head: Cursor, new_head: Cursor, kind: MotionKind)
    requires
        text.len() < usize::MAX,
        is_position(text, old_head@),
        is_position(text, new_head@),
        pos_lt(new_head@, old_head@),
    ensures
        pos_le(new_head@, traverse_anchor(text, old_head, new_head, kind, Direction::Previous)@),
        pos_le(traverse_anchor(text, old_head, new_head, kind, Direction::Previous)@, old_head@),
        old_head.column > 0 ==> pos_lt(
            traverse_anchor(text, old_head, new_head, kind, Direction::Previous)@,
            old_head@,
        ),
{
    let lo = offset_at(text, new_head);
    let hi = offset_at(text, old_head);
    assert(lo < text.len() && pos_at(text, lo) == new_head@);
    assert(hi < text.len() && pos_at(text, hi) == old_head@);
    if hi <= lo {
        if hi < lo {
            lemma_pos_at_increasing(text, hi, lo);
        }
    }
    lemma_last_blank_range(text, lo, hi);
    if kind.spec_is_word() {
        if let Some(k) = last_blank(text, lo, hi) {
            lemma_pos_at_bounded(text, k);
            if lo < k {
                lemma_pos_at_increasing(text, lo, k);
            }
            lemma_pos_at_increasing(text, k, hi);
        }
    }
}

/// The column of a valid head fits below `usize::MAX`.
proof fn lemma_column_bound(text: Seq<char>, c: Cursor)
    requires
        text.len() < usize::MAX,
        is_position(text, c@),
    ensures
        c.column < usize::MAX,
{
    let k = choose|k: nat| k < text.len() && #[trigger] pos_at(text, k) == c@;
    lemma_pos_at_bounded(text, k);
}

} // verus!
