//! The undo/redo subsystem: two bounded command stacks.
//!
//! Pushing a new command always clears the redo stack; when the undo stack is
//! at capacity the oldest entry is evicted silently.

use std::collections::VecDeque;

use vstd::prelude::*;

use crate::commands::Command;
use crate::commands::CommandModel;
use crate::grid::Grid;

verus! {

/// The default maximum history depth.
pub const DEFAULT_MAX_DEPTH: usize = 100;

/// Undo/redo history manager over two bounded stacks.
pub struct History {
    /// Undo stack, oldest first.
    undo_stack: VecDeque<Command>,
    /// Redo stack, oldest first.
    redo_stack: VecDeque<Command>,
    /// Maximum depth of either stack.
    max_depth: usize,
}

impl History {
    /// The models of the undo stack, oldest first.
    pub closed spec fn undo_models(&self) -> Seq<CommandModel> {
        Seq::new(self.undo_stack@.len(), |i: int| self.undo_stack@[i]@)
    }

    /// The models of the redo stack, oldest first.
    pub closed spec fn redo_models(&self) -> Seq<CommandModel> {
        Seq::new(self.redo_stack@.len(), |i: int| self.redo_stack@[i]@)
    }

    /// The configured capacity.
    pub closed spec fn spec_max_depth(&self) -> nat {
        self.max_depth as nat
    }

    /// Every stored command carries consistent captured state, and neither
    /// stack outgrows the capacity (one entry is tolerated at capacity zero).
    pub open spec fn wf(&self) -> bool {
        &&& forall|i: int|
            0 <= i < self.undo_models().len() ==> (#[trigger] self.undo_models()[i]).inv()
        &&& forall|i: int|
            0 <= i < self.redo_models().len() ==> (#[trigger] self.redo_models()[i]).inv()
        &&& self.undo_models().len() + self.redo_models().len() <= if self.spec_max_depth()
            == 0 {
            1nat
        } else {
            self.spec_max_depth()
        }
    }

    /// Create a new history with the given maximum depth.
    pub fn new(max_depth: usize) -> (r: Self)
        ensures
            r.wf(),
            r.undo_models().len() == 0,
            r.redo_models().len() == 0,
            r.spec_max_depth() == max_depth,
    {
        History {
            undo_stack: VecDeque::with_capacity(max_depth),
            redo_stack: VecDeque::with_capacity(max_depth),
            max_depth,
        }
    }

    /// Push a command onto the undo stack: the redo stack is cleared, and at
    /// capacity the oldest undo entry is evicted first.
    pub fn push(&mut self, command: Command)
        requires
            old(self).wf(),
            command@.inv(),
        ensures
            final(self).wf(),
            final(self).spec_max_depth() == old(self).spec_max_depth(),
            final(self).redo_models().len() == 0,
            final(self).undo_models() == (
                if old(self).undo_models().len() >= old(self).spec_max_depth()
                    && old(self).undo_models().len() >= 1 {
                old(self).undo_models().drop_first().push(command@)
            } else {
                old(self).undo_models().push(command@)
            }),
    {
        self.redo_stack.clear();

        if self.undo_stack.len() >= self.max_depth {
            self.undo_stack.pop_front();
        }

        self.undo_stack.push_back(command);
        proof {
            if old(self).undo_models().len() >= old(self).spec_max_depth()
                && old(self).undo_models().len() >= 1 {
                assert(self.undo_models() =~= old(self).undo_models().drop_first().push(command@));
            } else {
                assert(self.undo_models() =~= old(self).undo_models().push(command@));
            }
            assert(self.redo_models() =~= Seq::<CommandModel>::empty());
        }
    }

    /// Undo the most recent command against the grid, moving it to the redo
    /// stack; reports failure when there is nothing to undo.
    pub fn undo(&mut self, grid: &mut Grid) -> (r: bool)
        requires
            old(self).wf(),
            old(grid).inv(),
        ensures
            final(self).wf(),
            final(grid).inv(),
            final(self).spec_max_depth() == old(self).spec_max_depth(),
            r == (old(self).undo_models().len() > 0),
            !r ==> final(self).undo_models() == old(self).undo_models()
                && final(self).redo_models() == old(self).redo_models()
                && final(grid)@ == old(grid)@,
            r ==> ({
                let p = old(self).undo_models().last().undo_t(old(grid)@);
                &&& final(grid)@ == p.1
                &&& final(self).undo_models() == old(self).undo_models().drop_last()
                &&& final(self).redo_models() == old(self).redo_models().push(p.0)
            }),
    {
        match self.undo_stack.pop_back() {
            Some(mut cmd) => {
                proof {
                    assert(old(self).undo_models().last().inv());
                }
                cmd.undo(grid);
                self.redo_stack.push_back(cmd);
                proof {
                    assert(self.undo_models() =~= old(self).undo_models().drop_last());
                    assert(self.redo_models() =~= old(self).redo_models().push(
                        old(self).undo_models().last().undo_t(old(grid)@).0,
                    ));
                }
                true
            },
            None => {
                proof {
                    assert(self.undo_models() =~= old(self).undo_models());
                    assert(self.redo_models() =~= old(self).redo_models());
                }
                false
            },
        }
    }

    /// Redo the most recently undone command against the grid, moving it back
    /// to the undo stack; reports failure when there is nothing to redo.
    pub fn redo(&mut self, grid: &mut Grid) -> (r: bool)
        requires
            old(self).wf(),
            old(grid).inv(),
        ensures
            final(self).wf(),
            final(grid).inv(),
            final(self).spec_max_depth() == old(self).spec_max_depth(),
            r == (old(self).redo_models().len() > 0),
            !r ==> final(self).undo_models() == old(self).undo_models()
                && final(self).redo_models() == old(self).redo_models()
                && final(grid)@ == old(grid)@,
            r ==> ({
                let p = old(self).redo_models().last().apply_t(old(grid)@);
                &&& final(grid)@ == p.1
                &&& final(self).redo_models() == old(self).redo_models().drop_last()
                &&& final(self).undo_models() == old(self).undo_models().push(p.0)
            }),
    {
        match self.redo_stack.pop_back() {
            Some(mut cmd) => {
                proof {
                    assert(old(self).redo_models().last().inv());
                }
                cmd.apply(grid);
                self.undo_stack.push_back(cmd);
                proof {
                    assert(self.redo_models() =~= old(self).redo_models().drop_last());
                    assert(self.undo_models() =~= old(self).undo_models().push(
                        old(self).redo_models().last().apply_t(old(grid)@).0,
                    ));
                }
                true
            },
            None => {
                proof {
                    assert(self.undo_models() =~= old(self).undo_models());
                    assert(self.redo_models() =~= old(self).redo_models());
                }
                false
            },
        }
    }

    /// Check if undo is available.
    pub fn can_undo(&self) -> (r: bool)
        ensures
            r == (self.undo_models().len() > 0),
    {
        self.undo_stack.len() > 0
    }

    /// Check if redo is available.
    pub fn can_redo(&self) -> (r: bool)
        ensures
            r == (self.redo_models().len() > 0),
    {
        self.redo_stack.len() > 0
    }

    /// The number of undo steps available.
    pub fn undo_count(&self) -> (r: usize)
        ensures
            r == self.undo_models().len(),
    {
        self.undo_stack.len()
    }

    /// The number of redo steps available.
    pub fn redo_count(&self) -> (r: usize)
        ensures
            r == self.redo_models().len(),
    {
        self.redo_stack.len()
    }

    /// Drop all history.
    pub fn clear(&mut self)
        ensures
            final(self).wf(),
            final(self).spec_max_depth() == old(self).spec_max_depth(),
            final(self).undo_models().len() == 0,
            final(self).redo_models().len() == 0,
    {
        self.undo_stack.clear();
        self.redo_stack.clear();
    }

    /// The description of the command the next undo would revert.
    pub fn undo_description(&self) -> (r: Option<&str>)
        ensures
            match r {
                Some(d) => self.undo_models().len() > 0 && d@ == self.undo_models().last().description_of(),
                None => self.undo_models().len() == 0,
            },
    {
        if self.undo_stack.len() > 0 {
            Some(self.undo_stack[self.undo_stack.len() - 1].description())
        } else {
            None
        }
    }

    /// The description of the command the next redo would reapply.
    pub fn redo_description(&self) -> (r: Option<&str>)
        ensures
            match r {
                Some(d) => self.redo_models().len() > 0 && d@ == self.redo_models().last().description_of(),
                None => self.redo_models().len() == 0,
            },
    {
        if self.redo_stack.len() > 0 {
            Some(self.redo_stack[self.redo_stack.len() - 1].description())
        } else {
            None
        }
    }
}

impl Default for History {
    /// The default history holds up to 100 commands.
    fn default() -> (r: Self)
        ensures
            r.wf(),
            r.undo_models().len() == 0,
            r.redo_models().len() == 0,
            r.spec_max_depth() == 100,
    {
        History::new(DEFAULT_MAX_DEPTH)
    }
}

/// The undo-stack length after one push, exactly as `push` ensures it: at
/// capacity the oldest entry is evicted and the length stays put, otherwise
/// it grows by one.
pub open spec fn count_after_push(c: nat, cap: nat) -> nat {
    if c >= cap && c >= 1 {
        c
    } else {
        c + 1
    }
}

/// The undo-stack length after `k` consecutive pushes.
pub open spec fn count_after_pushes(c: nat, cap: nat, k: nat) -> nat
    decreases k,
{
    if k == 0 {
        c
    } else {
        count_after_pushes(count_after_push(c, cap), cap, (k - 1) as nat)
    }
}

/// The history bound: pushing `k` commands onto a history holding `c` entries
/// of capacity `cap` leaves `min(c + k, cap)` undoable entries. In
/// particular, `k >= cap` pushes onto an empty history leave exactly `cap`
/// entries, and no sequence of pushes ever exceeds the capacity.
pub proof fn lemma_history_bound(c: nat, cap: nat, k: nat)
    requires
        cap >= 1,
        c <= cap,
    ensures
        count_after_pushes(c, cap, k) == if c + k <= cap {
            (c + k) as int
        } else {
            cap as int
        },
    decreases k,
{
    if k > 0 {
        lemma_history_bound(count_after_push(c, cap), cap, (k - 1) as nat);
    }
}

} // verus!
