//! The input binding automaton: owns the current mode, resolves one key at a
//! time, and queues the action that each key produces.

use vstd::prelude::*;
use crate::action::{HelixAction, HelixMode, HelixStep};
use crate::bindings::{after, resolve, resolved};

verus! {

/// The action that a step hands on: its own, or `NoOp` when it has none.
pub open spec fn emitted(step: HelixStep) -> HelixAction {
    match step.0 {
        Some(a) => a,
        None => HelixAction::NoOp,
    }
}

/// A key machine for the Helix edit mode. Every binding is a single key, so no
/// partially matched sequence is ever held between keys.
pub struct HelixMachine {
    mode: HelixMode,
    pending: Vec<HelixAction>,
}

impl View for HelixMachine {
    /// The current mode, and the actions produced and not yet taken, oldest first.
    type V = (HelixMode, Seq<HelixAction>);

    closed spec fn view(&self) -> (HelixMode, Seq<HelixAction>) {
        (self.mode, self.pending@)
    }
}

impl HelixMachine {
    /// A machine in Insert mode with no pending action.
    pub fn empty() -> (r: HelixMachine)
        ensures
            r@.0 == HelixMode::Insert,
            r@.1 == Seq::<HelixAction>::empty(),
    {
        HelixMachine { mode: HelixMode::Insert, pending: Vec::new() }
    }

    pub fn mode(&self) -> (r: HelixMode)
        ensures
            r == self@.0,
    {
        self.mode
    }

    /// Feed one key: resolve it in the current mode, queue the action it
    /// produces (`NoOp` when none) and enter the mode that it names, if any.
    pub fn input_key(&mut self, key: char)
        ensures
            final(self)@.0 == after(old(self)@.0, resolved(old(self)@.0, key)),
            final(self)@.1 == old(self)@.1.push(emitted(resolved(old(self)@.0, key))),
    {
        let step = resolve(self.mode, key);
        let action = match step.0 {
            Some(a) => a,
            None => HelixAction::NoOp,
        };
        self.pending.push(action);
        match step.1 {
            Some(m) => self.mode = m,
            None => {},
        }
    }

    /// Take the oldest pending action, if there is one.
    pub fn pop(&mut self) -> (r: Option<HelixAction>)
        ensures
            final(self)@.0 == old(self)@.0,
            old(self)@.1.len() == 0 ==> r is None && final(self)@.1 == old(self)@.1,
            old(self)@.1.len() > 0 ==> r == Some(old(self)@.1[0]) && final(self)@.1
                == old(self)@.1.drop_first(),
    {
        if self.pending.len() == 0 {
            None
        } else {
            let a = self.pending.remove(0);
            assert(old(self)@.1.remove(0) =~= old(self)@.1.drop_first());
            Some(a)
        }
    }
}

} // verus!
