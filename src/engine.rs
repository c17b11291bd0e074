//! The cursor/selection engine: a text with one leader selection, to which
//! resolved actions are applied. Where a motion lands is computed by modalkit's
//! text rope; what becomes of the anchor is decided here.

use vstd::prelude::*;
use crate::action::HelixAction;
use crate::motion::Direction::{Next, Previous};
use crate::motion::MotionKind::{Column, Line, WordBegin, WordEnd};
use crate::motion::WordStyle::{Little, Whitespace};
use crate::motion::{Direction, MotionKind, MotionSpec};
use crate::text::{
    clamp, clamp_pos, ends_with_newline, is_blank, is_position, last_line, lemma_clamp_pos,
    lemma_pos_at_bounded, lemma_pos_at_injective, line_len, offset_of, pos_at, position_at,
    spec_is_blank, Cursor,
};
use modalkit::actions::EditAction;
use modalkit::editing::context::EditContext;
use modalkit::editing::cursor::Cursor as RopeCursor;
use modalkit::editing::rope::EditRope;
use modalkit::prelude::{
    Count, CursorMovements, CursorMovementsContext, MoveDir1D, MoveType, ViewportContext,
    WordStyle as Words,
};

verus! {

/// Where modalkit's rope moves the cursor `at` of `text` by `count` steps of the
/// motion `kind` in direction `dir`, as (line, column), or `None` where the
/// motion does not apply.
pub uninterp spec fn rope_movement(
    text: Seq<char>,
    at: Cursor,
    kind: MotionKind,
    dir: Direction,
    count: nat,
) -> Option<(usize, usize)>;

/// Where a character-wise step of `n` cells takes `at`: along its line, no
/// further than the line's end and no further back than its start.
pub open spec fn column_target(text: Seq<char>, at: (nat, nat), dir: Direction, n: nat) -> (
    usize,
    usize,
) {
    let x: int = match dir {
        Direction::Next => (at.1 + n) as int,
        Direction::Previous => if at.1 >= n {
            at.1 - n
        } else {
            0
        },
    };
    let end = line_len(text, at.0);
    (at.0 as usize, (if x <= end {
        x
    } else {
        end as int
    }) as usize)
}

/// Where a line-wise step of `n` lines takes `at`: no further than the first and
/// the last line, keeping the column where the new line is long enough and going
/// to its end where it is not.
pub open spec fn line_target(text: Seq<char>, at: (nat, nat), dir: Direction, n: nat) -> (
    usize,
    usize,
) {
    let y: int = match dir {
        Direction::Next => (at.0 + n) as int,
        Direction::Previous => if at.0 >= n {
            at.0 - n
        } else {
            0
        },
    };
    let line: nat = if y <= last_line(text) {
        y as nat
    } else {
        last_line(text)
    };
    let end = line_len(text, line);
    (line as usize, (if at.1 <= end {
        at.1
    } else {
        end
    }) as usize)
}

/// Relies on modalkit's `EditRope::movement` (trait `CursorMovements`), on a rope
/// that `EditRope::from` builds from the text, run as a motion in a default editing
/// context (where a cursor may stand on a line's last column). Its result depends
/// on the text, the cursor, the motion and the count alone, and is `None` where
/// modalkit finds no place to move to. A column step sets the column with
/// `set_column`, a line step the line with `set_line`; both clamp as stated. The
/// cursor must lie on the text, whose lines must end with a break, as modalkit's
/// buffers keep them.
#[verifier::external_body]
fn movement(text: &Vec<char>, at: Cursor, kind: MotionKind, dir: Direction, count: usize) -> (r:
    Option<(usize, usize)>)
    requires
        ends_with_newline(text@),
        is_position(text@, at@),
    ensures
        r == rope_movement(text@, at, kind, dir, count as nat),
        kind == MotionKind::Column ==> r == Some(column_target(text@, at@, dir, count as nat)),
        kind == MotionKind::Line ==> r == Some(line_target(text@, at@, dir, count as nat)),
{
    let dir = match dir { Next => MoveDir1D::Next, Previous => MoveDir1D::Previous };
    let word = |s| match s { Little => Words::Little, Whitespace(n) => Words::Whitespace(n) };
    let motion = match kind {
        Column => MoveType::Column(dir, false),
        Line => MoveType::Line(dir),
        WordBegin(s) => MoveType::WordBegin(word(s), dir),
        WordEnd(s) => MoveType::WordEnd(word(s), dir),
    };
    EditRope::from(String::from_iter(text)).movement(&RopeCursor::new(at.line, at.column), &motion,
        &Count::Exact(count), &CursorMovementsContext { action: &EditAction::Motion, view: &ViewportContext::default(),
        context: &EditContext::default() }).map(|c| (c.y, c.x))
}

/// The granularity of a selection; this engine selects character-wise only.
#[derive(Clone, Copy, Debug, PartialEq, Eq, Hash, Structural)]
pub enum TargetShape {
    CharWise,
}

/// A selection: the head, where the cursor sits and which motions move, and the
/// anchor, its fixed end. A collapsed selection has `head == anchor`; it is still a
/// selection.
#[derive(Clone, Copy, Debug, PartialEq, Eq, Hash, Structural)]
pub struct Selection {
    pub head: Cursor,
    pub anchor: Cursor,
    pub shape: TargetShape,
}

pub open spec fn collapsed(c: Cursor) -> Selection {
    Selection { head: c, anchor: c, shape: TargetShape::CharWise }
}

/// The cursor at a position whose coordinates fit in `usize`.
pub open spec fn cursor_at(p: (nat, nat)) -> Cursor {
    Cursor { line: p.0 as usize, column: p.1 as usize }
}

/// The offset that a valid position names.
pub open spec fn offset_at(text: Seq<char>, c: Cursor) -> nat {
    choose|i: nat| i < text.len() && pos_at(text, i) == c@
}

/// A text and a selection that the engine can hold: the text ends with a line
/// feed, every offset fits in `usize`, and the head names a character of the text.
pub open spec fn well_formed(text: Seq<char>, sel: Selection) -> bool {
    &&& ends_with_newline(text)
    &&& text.len() < usize::MAX
    &&& is_position(text, sel.head@)
}

/// The text with a line feed added at its end, unless it already ends with one.
pub open spec fn with_final_newline(text: Seq<char>) -> Seq<char> {
    if ends_with_newline(text) {
        text
    } else {
        text.push('\n')
    }
}

/// Where a motion takes the head: the rope's answer brought to the nearest valid
/// position, or the head itself where the rope has none.
pub open spec fn landing(text: Seq<char>, head: Cursor, m: MotionSpec, given: Option<usize>) -> Cursor {
    match rope_target(text, head, m, given) {
        Some(p) => cursor_at(clamp_pos(text, (p.0 as nat, p.1 as nat))),
        None => head,
    }
}

/// Where the rope sends the head for motion `m`: a column or line step as stated
/// by `column_target` and `line_target`, a word motion as the rope alone knows.
pub open spec fn rope_target(text: Seq<char>, head: Cursor, m: MotionSpec, given: Option<usize>) -> Option<
    (usize, usize),
> {
    let n = m.count.spec_resolve(given) as nat;
    match m.kind {
        MotionKind::Column => Some(column_target(text, head@, m.dir, n)),
        MotionKind::Line => Some(line_target(text, head@, m.dir, n)),
        _ => rope_movement(text, head, m.kind, m.dir, n),
    }
}

/// The last blank offset in `[lo, hi)`.
pub open spec fn last_blank(text: Seq<char>, lo: nat, hi: nat) -> Option<nat>
    decreases hi,
{
    if hi <= lo {
        None
    } else if spec_is_blank(text[hi - 1]) {
        Some((hi - 1) as nat)
    } else {
        last_blank(text, lo, (hi - 1) as nat)
    }
}

/// The cell next to the old head, one step in `dir` on its line; the column does
/// not go below zero.
pub open spec fn adjacent(old_head: Cursor, dir: Direction) -> Cursor {
    match dir {
        Direction::Next => Cursor { line: old_head.line, column: (old_head.column + 1) as usize },
        Direction::Previous => Cursor {
            line: old_head.line,
            column: if old_head.column == 0 {
                0
            } else {
                (old_head.column - 1) as usize
            },
        },
    }
}

/// The anchor after a traversal from `old_head` to `new_head`. A backward word
/// traversal anchors at the last blank cell between the two heads, where there is
/// one; every other traversal anchors next to the old head.
pub open spec fn traverse_anchor(
    text: Seq<char>,
    old_head: Cursor,
    new_head: Cursor,
    kind: MotionKind,
    dir: Direction,
) -> Cursor {
    let blank = last_blank(text, offset_at(text, new_head), offset_at(text, old_head));
    if kind.spec_is_word() && dir == Direction::Previous && blank is Some {
        cursor_at(pos_at(text, blank->0))
    } else {
        adjacent(old_head, dir)
    }
}

/// The text and selection after `action`, with `given` as the caller's count.
/// Typing inserts at the head and collapses the selection just after the new
/// character; a character that would make the text too long for `usize` offsets
/// leaves everything as it was.
pub open spec fn applied(text: Seq<char>, sel: Selection, action: HelixAction, given: Option<usize>) -> (
    Seq<char>,
    Selection,
) {
    match action {
        HelixAction::Type(c) => if text.len() + 1 < usize::MAX {
            let i = offset_at(text, sel.head);
            let t = text.insert(i as int, c);
            (t, collapsed(cursor_at(pos_at(t, i + 1))))
        } else {
            (text, sel)
        },
        HelixAction::Motion(m) => (
            text,
            Selection { head: landing(text, sel.head, m, given), anchor: sel.anchor, shape: sel.shape },
        ),
        HelixAction::TraverseMotion(m, dir) => {
            let h = landing(text, sel.head, m, given);
            (
                text,
                Selection {
                    head: h,
                    anchor: traverse_anchor(text, sel.head, h, m.kind, dir),
                    shape: TargetShape::CharWise,
                },
            )
        },
        HelixAction::NoOp => (text, sel),
    }
}

proof fn lemma_cursor_at(text: Seq<char>, i: nat)
    requires
        i < text.len(),
        text.len() < usize::MAX,
    ensures
        cursor_at(pos_at(text, i))@ == pos_at(text, i),
        is_position(text, cursor_at(pos_at(text, i))@),
{
    lemma_pos_at_bounded(text, i);
}

proof fn lemma_offset_at(text: Seq<char>, c: Cursor, i: nat)
    requires
        i < text.len(),
        pos_at(text, i) == c@,
    ensures
        offset_at(text, c) == i,
{
    let j = offset_at(text, c);
    lemma_pos_at_injective(text, i, j);
}

/// A blank found between two offsets lies between them.
pub proof fn lemma_last_blank_range(text: Seq<char>, lo: nat, hi: nat)
    ensures
        last_blank(text, lo, hi) matches Some(k) ==> lo <= k < hi && spec_is_blank(text[k as int]),
    decreases hi,
{
    if hi > lo && !spec_is_blank(text[hi - 1]) {
        lemma_last_blank_range(text, lo, (hi - 1) as nat);
    }
}

/// Where a motion lands is a position of the text.
pub proof fn lemma_landing(text: Seq<char>, head: Cursor, m: MotionSpec, given: Option<usize>)
    requires
        text.len() < usize::MAX,
        is_position(text, head@),
    ensures
        is_position(text, landing(text, head, m, given)@),
{
    match rope_target(text, head, m, given) {
        Some(p) => {
            let q = clamp_pos(text, (p.0 as nat, p.1 as nat));
            lemma_clamp_pos(text, (p.0 as nat, p.1 as nat));
            let k = choose|k: nat| k < text.len() && #[trigger] pos_at(text, k) == q;
            lemma_cursor_at(text, k);
        },
        None => {},
    }
}

/// Every action keeps the text and selection well formed.
pub proof fn lemma_applied_well_formed(
    text: Seq<char>,
    sel: Selection,
    action: HelixAction,
    given: Option<usize>,
)
    requires
        well_formed(text, sel),
    ensures
        well_formed(applied(text, sel, action, given).0, applied(text, sel, action, given).1),
{
    match action {
        HelixAction::Type(c) => {
            if text.len() + 1 < usize::MAX {
                let i = offset_at(text, sel.head);
                let t = text.insert(i as int, c);
                assert(t.last() == text.last());
                lemma_cursor_at(t, i + 1);
            }
        },
        HelixAction::Motion(m) => {
            lemma_landing(text, sel.head, m, given);
        },
        HelixAction::TraverseMotion(m, _) => {
            lemma_landing(text, sel.head, m, given);
        },
        HelixAction::NoOp => {},
    }
}

/// The last blank offset in `[lo, hi)`.
fn find_last_blank(text: &Vec<char>, lo: usize, hi: usize) -> (r: Option<usize>)
    requires
        hi <= text@.len(),
    ensures
        r matches Some(k) ==> k < hi && last_blank(text@, lo as nat, hi as nat) == Some(k as nat),
        r is None ==> last_blank(text@, lo as nat, hi as nat) is None,
{
    let mut k = hi;
    while k > lo
        invariant
            k <= hi <= text@.len(),
            last_blank(text@, lo as nat, hi as nat) == last_blank(text@, lo as nat, k as nat),
        decreases k,
    {
        if is_blank(text[k - 1]) {
            return Some(k - 1);
        }
        k = k - 1;
    }
    None
}

/// A text together with the leader selection of its cursor group.
pub struct HelixBuffer {
    text: Vec<char>,
    leader: Selection,
}

impl View for HelixBuffer {
    /// The text, and the leader selection.
    type V = (Seq<char>, Selection);

    closed spec fn view(&self) -> (Seq<char>, Selection) {
        (self.text@, self.leader)
    }
}

impl HelixBuffer {
    pub open spec fn inv(&self) -> bool {
        well_formed(self@.0, self@.1)
    }

    /// A buffer holding `text`, with a line feed added at its end unless it
    /// already ends with one, and a collapsed selection at `start`, or at the
    /// nearest valid position before it where `start` lies outside the text.
    pub fn new(text: Vec<char>, start: Cursor) -> (r: HelixBuffer)
        requires
            text@.len() + 1 < usize::MAX,
        ensures
            r.inv(),
            r@.0 == with_final_newline(text@),
            r@.1 == collapsed(cursor_at(clamp_pos(r@.0, start@))),
            is_position(r@.0, start@) ==> r@.1 == collapsed(start),
    {
        let mut text = text;
        if text.len() == 0 || text[text.len() - 1] != '\n' {
            text.push('\n');
        }
        let c = clamp(&text, start);
        proof {
            lemma_clamp_pos(text@, start@);
            let k = choose|k: nat| k < text@.len() && #[trigger] pos_at(text@, k) == c@;
            lemma_pos_at_bounded(text@, k);
        }
        HelixBuffer { text, leader: Selection { head: c, anchor: c, shape: TargetShape::CharWise } }
    }

    /// The text.
    pub fn text(&self) -> (r: &Vec<char>)
        ensures
            r@ == self@.0,
    {
        &self.text
    }

    /// The head of the leader selection.
    pub fn leader(&self) -> (r: Cursor)
        ensures
            r == self@.1.head,
    {
        self.leader.head
    }

    /// The anchor of the leader selection.
    pub fn anchor(&self) -> (r: Cursor)
        ensures
            r == self@.1.anchor,
    {
        self.leader.anchor
    }

    /// The leader selection as (start, end, shape), its two ends in reading
    /// order. There always is one.
    pub fn selection(&self) -> (r: Option<(Cursor, Cursor, TargetShape)>)
        ensures
            r == Some(sorted(self@.1)),
    {
        let h = self.leader.head;
        let a = self.leader.anchor;
        if h.line < a.line || (h.line == a.line && h.column <= a.column) {
            Some((h, a, self.leader.shape))
        } else {
            Some((a, h, self.leader.shape))
        }
    }

    /// Apply `action` with no count from the caller: a contextual count is one.
    pub fn apply_motion(&mut self, action: &HelixAction)
        requires
            old(self).inv(),
        ensures
            final(self).inv(),
            final(self)@ == applied(old(self)@.0, old(self)@.1, *action, None),
    {
        self.apply(action, None)
    }

    /// Apply `action`, with `count` as the caller's repeat count.
    pub fn apply(&mut self, action: &HelixAction, count: Option<usize>)
        requires
            old(self).inv(),
        ensures
            final(self).inv(),
            final(self)@ == applied(old(self)@.0, old(self)@.1, *action, count),
    {
        let ghost text0 = self.text@;
        let ghost sel0 = self.leader;
        match action {
            HelixAction::Type(c) => {
                if self.text.len() >= usize::MAX - 1 {
                    return;
                }
                let i = match offset_of(&self.text, self.leader.head) {
                    Some(i) => i,
                    None => { return; },
                };
                proof {
                    lemma_offset_at(text0, sel0.head, i as nat);
                }
                self.text.insert(i, *c);
                let h = position_at(&self.text, i + 1);
                proof {
                    lemma_cursor_at(self.text@, (i + 1) as nat);
                }
                self.leader = Selection { head: h, anchor: h, shape: TargetShape::CharWise };
            },
            HelixAction::Motion(m) => {
                let h = self.land(m, count);
                self.leader = Selection { head: h, anchor: self.leader.anchor, shape: self.leader.shape };
            },
            HelixAction::TraverseMotion(m, dir) => {
                let old_head = self.leader.head;
                let h = self.land(m, count);
                let a = self.anchor_after(old_head, h, m.kind, *dir);
                self.leader = Selection { head: h, anchor: a, shape: TargetShape::CharWise };
            },
            HelixAction::NoOp => {},
        }
    }

    /// Where the motion `m` takes the head.
    fn land(&self, m: &MotionSpec, count: Option<usize>) -> (r: Cursor)
        requires
            self.inv(),
        ensures
            r == landing(self@.0, self@.1.head, *m, count),
            is_position(self@.0, r@),
    {
        let n = m.count.resolve(count);
        match movement(&self.text, self.leader.head, m.kind, m.dir, n) {
            Some((line, column)) => {
                let c = clamp(&self.text, Cursor { line, column });
                proof {
                    let k = choose|k: nat| k < self.text@.len() && #[trigger] pos_at(self.text@, k) == c@;
                    lemma_pos_at_bounded(self.text@, k);
                }
                c
            },
            None => self.leader.head,
        }
    }

    /// The anchor after a traversal from `old_head` to `new_head`.
    fn anchor_after(&self, old_head: Cursor, new_head: Cursor, kind: MotionKind, dir: Direction) -> (r:
        Cursor)
        requires
            self.inv(),
            old_head == self@.1.head,
            is_position(self@.0, new_head@),
        ensures
            r == traverse_anchor(self@.0, old_head, new_head, kind, dir),
    {
        let ghost text = self.text@;
        if kind.is_word() && dir == Direction::Previous {
            let hi = offset_of(&self.text, old_head);
            let lo = offset_of(&self.text, new_head);
            match (lo, hi) {
                (Some(lo), Some(hi)) => {
                    proof {
                        lemma_offset_at(text, old_head, hi as nat);
                        lemma_offset_at(text, new_head, lo as nat);
                    }
                    match find_last_blank(&self.text, lo, hi) {
                        Some(k) => {
                            let c = position_at(&self.text, k);
                            proof {
                                lemma_cursor_at(text, k as nat);
                            }
                            return c;
                        },
                        None => {},
                    }
                },
                _ => {},
            }
        }
        proof {
            let k = choose|k: nat| k < text.len() && #[trigger] pos_at(text, k) == old_head@;
            lemma_pos_at_bounded(text, k);
        }
        match dir {
            Direction::Next => Cursor { line: old_head.line, column: old_head.column + 1 },
            Direction::Previous => Cursor {
                line: old_head.line,
                column: if old_head.column == 0 {
                    0
                } else {
                    old_head.column - 1
                },
            },
        }
    }
}

/// A selection's two ends in reading order, with its shape.
pub open spec fn sorted(sel: Selection) -> (Cursor, Cursor, TargetShape) {
    let h = sel.head;
    let a = sel.anchor;
    if h.line < a.line || (h.line == a.line && h.column <= a.column) {
        (h, a, sel.shape)
    } else {
        (a, h, sel.shape)
    }
}

} // verus!
