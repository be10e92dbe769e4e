//! The newtype pattern: a password wrapper whose printable form never
//! reveals the wrapped secret.

use vstd::prelude::*;
use vstd::string::StringExecFns;

verus! {

/// What a password shows when displayed: sixteen asterisks, whatever the
/// secret is and however long it is.
pub open spec fn mask() -> Seq<char> {
    Seq::new(16, |i: int| '*')
}

/// A secret wrapped so that display code cannot leak it.
///
/// The view is the wrapped secret itself; `masked` is the only printable
/// form, and its contract does not depend on the secret at all.
pub struct Password(String);

impl Password {
    pub closed spec fn view(&self) -> Seq<char> {
        self.0@
    }

    /// Wraps a secret.
    pub fn new(secret: String) -> (p: Password)
        ensures
            p@ == secret@,
    {
        Password(secret)
    }

    /// The masked display form: independent of the wrapped secret.
    pub fn masked(&self) -> (r: String)
        ensures
            r@ == mask(),
            r@.len() == 16,
    {
        let r = String::from_str("****************");
        proof {
            reveal_strlit("****************");
            assert(r@ =~= mask());
        }
        r
    }
}

} // verus!
