//! The command pattern: a schema holds an ordered log of reversible
//! migrations, applies them in insertion order with `execute`, and undoes
//! them in reverse insertion order with `rollback`.
//!
//! Three representations of a migration coexist, one per submodule, and
//! all three share the model below: a migration is the pair of labels its
//! two actions produce, and a schema is the sequence of those pairs in
//! insertion order.

use vstd::prelude::*;

pub mod fn_trait_object;
pub mod function_pointer;
pub mod trait_object;

verus! {

/// The labels that executing a log produces: the execute label of each
/// entry, in insertion order.
pub open spec fn execute_labels(log: Seq<(Seq<char>, Seq<char>)>) -> Seq<Seq<char>> {
    Seq::new(log.len(), |i: int| log[i].0)
}

/// The labels that rolling a log back produces: the rollback label of each
/// entry, in reverse insertion order.
pub open spec fn rollback_labels(log: Seq<(Seq<char>, Seq<char>)>) -> Seq<Seq<char>> {
    Seq::new(log.len(), |i: int| log[log.len() - 1 - i].1)
}

/// The character sequences behind a vector of owned label strings.
pub open spec fn output_views(out: Seq<String>) -> Seq<Seq<char>> {
    Seq::new(out.len(), |i: int| out[i]@)
}

/// A schema with no appended migrations yields the empty sequence from
/// both `execute` and `rollback`.
pub proof fn lemma_empty_log()
    ensures
        execute_labels(Seq::<(Seq<char>, Seq<char>)>::empty()) == Seq::<Seq<char>>::empty(),
        rollback_labels(Seq::<(Seq<char>, Seq<char>)>::empty()) == Seq::<Seq<char>>::empty(),
{
    assert(execute_labels(Seq::<(Seq<char>, Seq<char>)>::empty())
        =~= Seq::<Seq<char>>::empty());
    assert(rollback_labels(Seq::<(Seq<char>, Seq<char>)>::empty())
        =~= Seq::<Seq<char>>::empty());
}

/// Rolling back visits exactly the rollback labels of the log, in reverse
/// insertion order.
pub proof fn lemma_rollback_reverses(log: Seq<(Seq<char>, Seq<char>)>)
    ensures
        rollback_labels(log) == Seq::new(log.len(), |i: int| log[i].1).reverse(),
{
    assert(rollback_labels(log) =~= Seq::new(log.len(), |i: int| log[i].1).reverse());
}

/// The execute output is determined by the log alone: any two results
/// that meet the shared execute contract over the same log agree label
/// for label. Repeated calls on one schema, or calls on schemas of
/// different representations holding equivalent entries, therefore
/// return identical label sequences.
pub proof fn lemma_execute_determined(
    log: Seq<(Seq<char>, Seq<char>)>,
    a: Seq<String>,
    b: Seq<String>,
)
    requires
        output_views(a) == execute_labels(log),
        output_views(b) == execute_labels(log),
    ensures
        output_views(a) == output_views(b),
{
}

/// The rollback output is determined by the log alone, exactly as the
/// execute output is.
pub proof fn lemma_rollback_determined(
    log: Seq<(Seq<char>, Seq<char>)>,
    a: Seq<String>,
    b: Seq<String>,
)
    requires
        output_views(a) == rollback_labels(log),
        output_views(b) == rollback_labels(log),
    ensures
        output_views(a) == output_views(b),
{
}

} // verus!
