//! Motion descriptors: what a motion moves over, and how often.

use vstd::prelude::*;

verus! {

/// A direction along a line or through the text.
#[derive(Clone, Copy, Debug, PartialEq, Eq, Hash, Structural)]
pub enum Direction {
    Previous,
    Next,
}

/// Which characters make up a word for word-wise motions.
#[derive(Clone, Copy, Debug, PartialEq, Eq, Hash, Structural)]
pub enum WordStyle {
    /// Runs of alphanumerics and underscores, or runs of other non-blank characters.
    Little,
    /// Runs of non-blank characters; the flag says whether newlines count as blanks.
    Whitespace(bool),
}

/// The kind of a motion; its direction is given beside it.
#[derive(Clone, Copy, Debug, PartialEq, Eq, Hash, Structural)]
pub enum MotionKind {
    /// Character-wise step along the line; it stops at the line's start and end.
    Column,
    /// Line-wise step.
    Line,
    /// To the beginning of a word.
    WordBegin(WordStyle),
    /// To the end of a word.
    WordEnd(WordStyle),
}

/// How many times a motion repeats.
#[derive(Clone, Copy, Debug, PartialEq, Eq, Hash, Structural)]
pub enum CountPolicy {
    /// Whatever count the caller supplies, or one when it supplies none.
    Contextual,
    /// Exactly this many times.
    Exact(usize),
}

/// A motion: its kind, its direction and its count policy.
#[derive(Clone, Copy, Debug, PartialEq, Eq, Hash, Structural)]
pub struct MotionSpec {
    pub kind: MotionKind,
    pub dir: Direction,
    pub count: CountPolicy,
}

impl MotionKind {
    /// Word-wise motions, whose traversals place the anchor by word boundaries.
    pub open spec fn spec_is_word(self) -> bool {
        self is WordBegin || self is WordEnd
    }

    pub fn is_word(&self) -> (r: bool)
        ensures
            r == self.spec_is_word(),
    {
        match self {
            MotionKind::WordBegin(_) | MotionKind::WordEnd(_) => true,
            _ => false,
        }
    }
}

impl CountPolicy {
    /// The count in effect when the caller supplies `given`.
    pub open spec fn spec_resolve(self, given: Option<usize>) -> usize {
        match self {
            CountPolicy::Exact(n) => n,
            CountPolicy::Contextual => match given {
                Some(n) => n,
                None => 1,
            },
        }
    }

    pub fn resolve(&self, given: Option<usize>) -> (r: usize)
        ensures
            r == self.spec_resolve(given),
    {
        match self {
            CountPolicy::Exact(n) => *n,
            CountPolicy::Contextual => match given {
                Some(n) => n,
                None => 1,
            },
        }
    }
}

} // verus!
