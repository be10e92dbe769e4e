//! The command as a polymorphic object: any type with the two-action
//! capability set `{execute, rollback}` can be appended to the schema.
//!
//! Suits commands that are whole structs with their own state and methods.

use vstd::prelude::*;
use vstd::string::StringExecFns;
use crate::command::{execute_labels, output_views, rollback_labels};

verus! {

/// The capability set of a reversible operation: each action returns a
/// descriptive label, pinned down by the matching spec function.
pub trait Migration {
    /// The label that `execute` returns.
    spec fn execute_spec(&self) -> Seq<char>;

    /// The label that `rollback` returns.
    spec fn rollback_spec(&self) -> Seq<char>;

    fn execute(&self) -> (r: &str)
        ensures
            r@ == self.execute_spec(),
    ;

    fn rollback(&self) -> (r: &str)
        ensures
            r@ == self.rollback_spec(),
    ;
}

/// A migration that creates a table and drops it on rollback.
pub struct CreateTable;

impl Migration for CreateTable {
    open spec fn execute_spec(&self) -> Seq<char> {
        "create table"@
    }

    open spec fn rollback_spec(&self) -> Seq<char> {
        "drop table"@
    }

    fn execute(&self) -> (r: &str) {
        "create table"
    }

    fn rollback(&self) -> (r: &str) {
        "drop table"
    }
}

/// A migration that adds a field and removes it on rollback.
pub struct AddField;

impl Migration for AddField {
    open spec fn execute_spec(&self) -> Seq<char> {
        "add field"@
    }

    open spec fn rollback_spec(&self) -> Seq<char> {
        "remove field"@
    }

    fn execute(&self) -> (r: &str) {
        "add field"
    }

    fn rollback(&self) -> (r: &str) {
        "remove field"
    }
}

/// An ordered log of migrations, one entry per appended command.
///
/// The view is the sequence of label pairs in insertion order: for each
/// entry, its execute label first and its rollback label second.
pub struct Schema {
    commands: Vec<(String, String)>,
}

impl Schema {
    pub closed spec fn view(&self) -> Seq<(Seq<char>, Seq<char>)> {
        Seq::new(
            self.commands@.len(),
            |i: int| (self.commands@[i].0@, self.commands@[i].1@),
        )
    }

    /// An empty schema.
    pub fn new() -> (s: Self)
        ensures
            s@ == Seq::<(Seq<char>, Seq<char>)>::empty(),
    {
        let s = Schema { commands: Vec::new() };
        proof {
            assert(s@ =~= Seq::<(Seq<char>, Seq<char>)>::empty());
        }
        s
    }

    /// Appends one command: the log grows by that command's label pair.
    pub fn add_migration<M: Migration>(&mut self, cmd: Box<M>)
        ensures
            final(self)@ == old(self)@.push((cmd.execute_spec(), cmd.rollback_spec())),
    {
        let entry = (
            String::from_str(cmd.execute()),
            String::from_str(cmd.rollback()),
        );
        self.commands.push(entry);
        proof {
            assert(self@ =~~= old(self)@.push((cmd.execute_spec(), cmd.rollback_spec())));
        }
    }

    /// The execute labels of all entries, in insertion order.
    pub fn execute(&self) -> (r: Vec<String>)
        ensures
            r@.len() == self@.len(),
            output_views(r@) == execute_labels(self@),
    {
        let mut out: Vec<String> = Vec::new();
        let mut k: usize = 0;
        while k < self.commands.len()
            invariant
                k <= self.commands@.len(),
                out@.len() == k,
                forall|i: int| 0 <= i < k ==> out@[i]@ == self@[i].0,
            decreases self.commands@.len() - k,
        {
            out.push(self.commands[k].0.clone());
            k += 1;
        }
        proof {
            assert(output_views(out@) =~~= execute_labels(self@));
        }
        out
    }

    /// The rollback labels of all entries, in reverse insertion order.
    pub fn rollback(&self) -> (r: Vec<String>)
        ensures
            r@.len() == self@.len(),
            output_views(r@) == rollback_labels(self@),
    {
        let n = self.commands.len();
        let mut out: Vec<String> = Vec::new();
        let mut k: usize = 0;
        while k < n
            invariant
                n == self.commands@.len(),
                k <= n,
                out@.len() == k,
                forall|i: int| 0 <= i < k ==> out@[i]@ == self@[n - 1 - i].1,
            decreases n - k,
        {
            out.push(self.commands[n - 1 - k].1.clone());
            k += 1;
        }
        proof {
            assert(output_views(out@) =~~= rollback_labels(self@));
        }
        out
    }
}

impl Default for Schema {
    /// An empty schema.
    fn default() -> (s: Self)
        ensures
            s@ == Seq::<(Seq<char>, Seq<char>)>::empty(),
    {
        Self::new()
    }
}

} // verus!
