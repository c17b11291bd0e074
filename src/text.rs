//! Positions in a text: lines and columns, the offsets they stand for, and
//! the nearest valid position to any requested one.

use vstd::prelude::*;

verus! {

/// A position in the text: a line and a column, both counted from zero.
/// Ordered by line, then by column.
#[derive(Clone, Copy, Debug, PartialEq, Eq, Hash, PartialOrd, Ord, Structural)]
pub struct Cursor {
    pub line: usize,
    pub column: usize,
}

impl View for Cursor {
    type V = (nat, nat);

    open spec fn view(&self) -> (nat, nat) {
        (self.line as nat, self.column as nat)
    }
}

impl Cursor {
    pub fn new(line: usize, column: usize) -> (r: Cursor)
        ensures
            r.line == line,
            r.column == column,
    {
        Cursor { line, column }
    }
}

/// Line breaks: line feed, vertical tab, form feed, carriage return, next line,
/// line separator and paragraph separator.
pub open spec fn spec_is_line_break(c: char) -> bool {
    c == '\n' || c == '\u{0B}' || c == '\u{0C}' || c == '\r' || c == '\u{85}' || c == '\u{2028}'
        || c == '\u{2029}'
}

/// The character at offset `i` ends its line: it is a line break, and not a
/// carriage return that a line feed follows (the two end one line together).
pub open spec fn breaks_at(text: Seq<char>, i: int) -> bool {
    &&& spec_is_line_break(text[i])
    &&& !(text[i] == '\r' && i + 1 < text.len() && text[i + 1] == '\n')
}

/// The position of the character at offset `i`, or of the end of the text when
/// `i` is its length: the character after a line's end starts column zero of the
/// following line.
pub open spec fn pos_at(text: Seq<char>, i: nat) -> (nat, nat)
    decreases i,
{
    if i == 0 {
        (0, 0)
    } else {
        let p = pos_at(text, (i - 1) as nat);
        if breaks_at(text, i - 1) {
            (p.0 + 1, 0)
        } else {
            (p.0, p.1 + 1)
        }
    }
}

/// The text ends with a line feed, so that every line ends with a line break.
pub open spec fn ends_with_newline(text: Seq<char>) -> bool {
    text.len() > 0 && text.last() == '\n'
}

/// The line of the last character: the last line that a cursor can stand on.
pub open spec fn last_line(text: Seq<char>) -> nat {
    pos_at(text, (text.len() - 1) as nat).0
}

/// The number of columns of line `y`, not counting the break that ends it: the
/// column of that break.
pub open spec fn line_len(text: Seq<char>, y: nat) -> nat {
    pos_at(
        text,
        choose|k: nat| k < text.len() && #[trigger] pos_at(text, k).0 == y && breaks_at(text, k as int),
    ).1
}

/// Reading order on positions.
pub open spec fn pos_le(a: (nat, nat), b: (nat, nat)) -> bool {
    a.0 < b.0 || (a.0 == b.0 && a.1 <= b.1)
}

pub open spec fn pos_lt(a: (nat, nat), b: (nat, nat)) -> bool {
    pos_le(a, b) && a != b
}

/// `p` names a character of the text.
pub open spec fn is_position(text: Seq<char>, p: (nat, nat)) -> bool {
    exists|i: nat| i < text.len() && #[trigger] pos_at(text, i) == p
}

/// The largest offset up to `n` whose position does not come after `p`.
pub open spec fn floor_index(text: Seq<char>, p: (nat, nat), n: nat) -> nat
    decreases n,
{
    if n == 0 {
        0
    } else if pos_le(pos_at(text, n), p) {
        n
    } else {
        floor_index(text, p, (n - 1) as nat)
    }
}

/// The nearest valid position at or before `p`: `p` itself when it is valid,
/// the end of its line when its column lies beyond it, the last character when
/// its line does.
pub open spec fn clamp_pos(text: Seq<char>, p: (nat, nat)) -> (nat, nat) {
    pos_at(text, floor_index(text, p, (text.len() - 1) as nat))
}

/// Blank cells: spaces, tabs and line breaks.
pub open spec fn spec_is_blank(c: char) -> bool {
    c == ' ' || c == '\t' || c == '\n' || c == '\r'
}

pub fn is_blank(c: char) -> (r: bool)
    ensures
        r == spec_is_blank(c),
{
    c == ' ' || c == '\t' || c == '\n' || c == '\r'
}

/// Whether the character at offset `i` ends its line.
pub fn breaks_after(text: &Vec<char>, i: usize) -> (r: bool)
    requires
        i < text@.len(),
    ensures
        r == breaks_at(text@, i as int),
{
    let c = text[i];
    let brk = c == '\n' || c == '\u{0B}' || c == '\u{0C}' || c == '\r' || c == '\u{85}' || c
        == '\u{2028}' || c == '\u{2029}';
    brk && !(c == '\r' && i < text.len() - 1 && text[i + 1] == '\n')
}

pub proof fn lemma_pos_at_bounded(text: Seq<char>, i: nat)
    ensures
        pos_at(text, i).0 <= i,
        pos_at(text, i).1 <= i,
    decreases i,
{
    if i > 0 {
        lemma_pos_at_bounded(text, (i - 1) as nat);
    }
}

/// Positions strictly increase with offsets.
pub proof fn lemma_pos_at_increasing(text: Seq<char>, i: nat, j: nat)
    requires
        i < j,
    ensures
        pos_lt(pos_at(text, i), pos_at(text, j)),
    decreases j,
{
    if i < j - 1 {
        lemma_pos_at_increasing(text, i, (j - 1) as nat);
    }
}

/// Distinct offsets have distinct positions.
pub proof fn lemma_pos_at_injective(text: Seq<char>, i: nat, j: nat)
    requires
        pos_at(text, i) == pos_at(text, j),
    ensures
        i == j,
{
    if i < j {
        lemma_pos_at_increasing(text, i, j);
    } else if j < i {
        lemma_pos_at_increasing(text, j, i);
    }
}

proof fn lemma_floor_index(text: Seq<char>, p: (nat, nat), n: nat)
    ensures
        floor_index(text, p, n) <= n,
        floor_index(text, p, n) > 0 ==> pos_le(pos_at(text, floor_index(text, p, n)), p),
        forall|k: nat|
            floor_index(text, p, n) < k <= n ==> !pos_le(#[trigger] pos_at(text, k), p),
    decreases n,
{
    if n > 0 {
        lemma_floor_index(text, p, (n - 1) as nat);
    }
}

/// The clamped position is valid, and a valid position is left as it is.
pub proof fn lemma_clamp_pos(text: Seq<char>, p: (nat, nat))
    requires
        text.len() > 0,
    ensures
        is_position(text, clamp_pos(text, p)),
        is_position(text, p) ==> clamp_pos(text, p) == p,
{
    let n = (text.len() - 1) as nat;
    let f = floor_index(text, p, n);
    lemma_floor_index(text, p, n);
    assert(pos_at(text, f) == clamp_pos(text, p));
    if is_position(text, p) {
        let j = choose|j: nat| j < text.len() && #[trigger] pos_at(text, j) == p;
        if j > f {
            assert(!pos_le(pos_at(text, j), p));
        } else if j < f {
            lemma_pos_at_increasing(text, j, f);
        }
    }
}

/// The position of offset `i`.
pub fn position_at(text: &Vec<char>, i: usize) -> (r: Cursor)
    requires
        i <= text@.len(),
    ensures
        r@ == pos_at(text@, i as nat),
{
    let mut line: usize = 0;
    let mut column: usize = 0;
    let mut j: usize = 0;
    while j < i
        invariant
            j <= i <= text@.len(),
            (line as nat, column as nat) == pos_at(text@, j as nat),
        decreases i - j,
    {
        proof {
            lemma_pos_at_bounded(text@, j as nat);
        }
        if breaks_after(text, j) {
            line = line + 1;
            column = 0;
        } else {
            column = column + 1;
        }
        j = j + 1;
    }
    Cursor { line, column }
}

/// The offset that position `c` names, if it is valid.
pub fn offset_of(text: &Vec<char>, c: Cursor) -> (r: Option<usize>)
    ensures
        r is Some <==> is_position(text@, c@),
        r matches Some(i) ==> i < text@.len() && pos_at(text@, i as nat) == c@,
{
    let mut line: usize = 0;
    let mut column: usize = 0;
    let mut j: usize = 0;
    loop
        invariant
            j <= text@.len(),
            (line as nat, column as nat) == pos_at(text@, j as nat),
            forall|k: nat| k < j ==> #[trigger] pos_at(text@, k) != c@,
        decreases text@.len() - j,
    {
        if j == text.len() {
            return None;
        }
        if line == c.line && column == c.column {
            return Some(j);
        }
        proof {
            lemma_pos_at_bounded(text@, j as nat);
        }
        if breaks_after(text, j) {
            line = line + 1;
            column = 0;
        } else {
            column = column + 1;
        }
        j = j + 1;
    }
}

/// The nearest valid position at or before `c`.
pub fn clamp(text: &Vec<char>, c: Cursor) -> (r: Cursor)
    requires
        text@.len() > 0,
    ensures
        r@ == clamp_pos(text@, c@),
        is_position(text@, r@),
        is_position(text@, c@) ==> r == c,
{
    let mut line: usize = 0;
    let mut column: usize = 0;
    let mut best = Cursor { line: 0, column: 0 };
    let mut j: usize = 0;
    while j < text.len() - 1
        invariant
            j < text@.len(),
            (line as nat, column as nat) == pos_at(text@, j as nat),
            best@ == pos_at(text@, floor_index(text@, c@, j as nat)),
        decreases text@.len() - j,
    {
        proof {
            lemma_pos_at_bounded(text@, j as nat);
        }
        if breaks_after(text, j) {
            line = line + 1;
            column = 0;
        } else {
            column = column + 1;
        }
        j = j + 1;
        if line < c.line || (line == c.line && column <= c.column) {
            best = Cursor { line, column };
        }
    }
    proof {
        lemma_clamp_pos(text@, c@);
    }
    best
}

} // verus!
