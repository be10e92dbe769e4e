//! The command as two parallel logs: the execute labels and the rollback
//! labels are kept in two independently ordered sequences that grow in
//! step.
//!
//! Suits commands whose two actions are handed in separately.

use vstd::prelude::*;
use crate::command::{execute_labels, output_views, rollback_labels};

verus! {

/// An ordered log of commands, stored as two parallel sequences of equal
/// length: one of execute labels, one of rollback labels.
///
/// The view pairs the two sequences up position by position: for each
/// entry, its execute label first and its rollback label second.
pub struct Schema {
    executes: Vec<String>,
    rollbacks: Vec<String>,
}

impl Schema {
    /// The two parallel sequences have one entry per appended command, so
    /// they are equally long.
    pub closed spec fn wf(&self) -> bool {
        self.executes@.len() == self.rollbacks@.len()
    }

    pub closed spec fn view(&self) -> Seq<(Seq<char>, Seq<char>)> {
        Seq::new(
            self.executes@.len(),
            |i: int| (self.executes@[i]@, self.rollbacks@[i]@),
        )
    }

    /// An empty schema.
    pub fn new() -> (s: Self)
        ensures
            s.wf(),
            s@ == Seq::<(Seq<char>, Seq<char>)>::empty(),
    {
        let s = Schema { executes: Vec::new(), rollbacks: Vec::new() };
        proof {
            assert(s@ =~= Seq::<(Seq<char>, Seq<char>)>::empty());
        }
        s
    }

    /// Appends one command, given as its pair of labels: both parallel
    /// sequences grow by one entry.
    pub fn add_migration(&mut self, execute: String, rollback: String)
        requires
            old(self).wf(),
        ensures
            final(self).wf(),
            final(self)@ == old(self)@.push((execute@, rollback@)),
    {
        self.executes.push(execute);
        self.rollbacks.push(rollback);
        proof {
            assert(self@ =~~= old(self)@.push((execute@, rollback@)));
        }
    }

    /// The execute labels, in insertion order.
    pub fn execute(&self) -> (r: Vec<String>)
        ensures
            r@.len() == self@.len(),
            output_views(r@) == execute_labels(self@),
    {
        let mut out: Vec<String> = Vec::new();
        let mut k: usize = 0;
        while k < self.executes.len()
            invariant
                k <= self.executes@.len(),
                out@.len() == k,
                forall|i: int| 0 <= i < k ==> out@[i]@ == self@[i].0,
            decreases self.executes@.len() - k,
        {
            out.push(self.executes[k].clone());
            k += 1;
        }
        proof {
            assert(output_views(out@) =~~= execute_labels(self@));
        }
        out
    }

    /// The rollback labels, in reverse insertion order.
    pub fn rollback(&self) -> (r: Vec<String>)
        requires
            self.wf(),
        ensures
            r@.len() == self@.len(),
            output_views(r@) == rollback_labels(self@),
    {
        let n = self.rollbacks.len();
        let mut out: Vec<String> = Vec::new();
        let mut k: usize = 0;
        while k < n
            invariant
                n == self.rollbacks@.len(),
                n == self.executes@.len(),
                k <= n,
                out@.len() == k,
                forall|i: int| 0 <= i < k ==> out@[i]@ == self@[n - 1 - i].1,
            decreases n - k,
        {
            out.push(self.rollbacks[n - 1 - k].clone());
            k += 1;
        }
        proof {
            assert(output_views(out@) =~~= rollback_labels(self@));
        }
        out
    }
}

impl Default for Schema {
    /// An empty schema.
    fn default() -> (s: Self)
        ensures
            s.wf(),
            s@ == Seq::<(Seq<char>, Seq<char>)>::empty(),
    {
        Self::new()
    }
}

} // verus!
