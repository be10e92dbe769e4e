//! The command as a plain pair: each entry carries its two labels
//! directly, with no dispatch wrapper and no captured state.
//!
//! Suits commands small enough to be given as values at append time.

use vstd::prelude::*;
use crate::command::{execute_labels, output_views, rollback_labels};

verus! {

/// One appended command: its execute label and its rollback label.
pub struct Command {
    execute: String,
    rollback: String,
}

/// An ordered log of commands, stored as one sequence of pairs.
///
/// The view is the sequence of label pairs in insertion order: for each
/// entry, its execute label first and its rollback label second.
pub struct Schema {
    commands: Vec<Command>,
}

impl Schema {
    pub closed spec fn view(&self) -> Seq<(Seq<char>, Seq<char>)> {
        Seq::new(
            self.commands@.len(),
            |i: int| (self.commands@[i].execute@, self.commands@[i].rollback@),
        )
    }

    /// An empty schema.
    pub fn new() -> (s: Self)
        ensures
            s@ == Seq::<(Seq<char>, Seq<char>)>::empty(),
    {
        let s = Schema { commands: Vec::new() };
        proof {
            assert(s@ =~= Seq::<(Seq<char>, Seq<char>)>::empty());
        }
        s
    }

    /// Appends one command, given as its pair of labels.
    pub fn add_migration(&mut self, execute: String, rollback: String)
        ensures
            final(self)@ == old(self)@.push((execute@, rollback@)),
    {
        self.commands.push(Command { execute, rollback });
        proof {
            assert(self@ =~~= old(self)@.push((execute@, rollback@)));
        }
    }

    /// The execute labels of all entries, in insertion order.
    pub fn execute(&self) -> (r: Vec<String>)
        ensures
            r@.len() == self@.len(),
            output_views(r@) == execute_labels(self@),
    {
        let mut out: Vec<String> = Vec::new();
        let mut k: usize = 0;
        while k < self.commands.len()
            invariant
                k <= self.commands@.len(),
                out@.len() == k,
                forall|i: int| 0 <= i < k ==> out@[i]@ == self@[i].0,
            decreases self.commands@.len() - k,
        {
            out.push(self.commands[k].execute.clone());
            k += 1;
        }
        proof {
            assert(output_views(out@) =~~= execute_labels(self@));
        }
        out
    }

    /// The rollback labels of all entries, in reverse insertion order.
    pub fn rollback(&self) -> (r: Vec<String>)
        ensures
            r@.len() == self@.len(),
            output_views(r@) == rollback_labels(self@),
    {
        let n = self.commands.len();
        let mut out: Vec<String> = Vec::new();
        let mut k: usize = 0;
        while k < n
            invariant
                n == self.commands@.len(),
                k <= n,
                out@.len() == k,
                forall|i: int| 0 <= i < k ==> out@[i]@ == self@[n - 1 - i].1,
            decreases n - k,
        {
            out.push(self.commands[n - 1 - k].rollback.clone());
            k += 1;
        }
        proof {
            assert(output_views(out@) =~~= rollback_labels(self@));
        }
        out
    }
}

impl Default for Schema {
    /// An empty schema.
    fn default() -> (s: Self)
        ensures
            s@ == Seq::<(Seq<char>, Seq<char>)>::empty(),
    {
        Self::new()
    }
}

} // verus!
