//! The operations that a user can ask for, and the names they are asked by.

use crate::text::text_equal;
use vstd::prelude::*;

verus! {

/// What one run of the controller is to do.
#[derive(Clone, Copy, Debug, PartialEq, Eq, Structural)]
pub enum Operation {
    /// Create the manifest, unless there is one.
    Init,
    /// Step the stored version up to its next patch version.
    BumpPatch,
    /// Step the stored version up to its next major version.
    BumpMajor,
    /// Compare the stored version with the remote one, and sync where the
    /// remote one is newer.
    Reconcile,
}

impl Operation {
    /// The operation that the subcommand `name` asks for, if it names one.
    pub open spec fn named(name: Seq<char>) -> Option<Operation> {
        if name == "init"@ {
            Some(Operation::Init)
        } else if name == "update"@ {
            Some(Operation::BumpPatch)
        } else if name == "update-major"@ {
            Some(Operation::BumpMajor)
        } else if name == "fetch"@ {
            Some(Operation::Reconcile)
        } else {
            None
        }
    }

    /// Whether this operation steps the stored version up.
    pub open spec fn is_bump(self) -> bool {
        self == Operation::BumpPatch || self == Operation::BumpMajor
    }

    /// Tells which operation a subcommand asks for: `init`, `update`,
    /// `update-major` or `fetch`. Any other name asks for none.
    pub fn from_subcommand(name: &str) -> (operation: Option<Operation>)
        ensures
            operation == Operation::named(name@),
    {
        if text_equal(name, "init") {
            Some(Operation::Init)
        } else if text_equal(name, "update") {
            Some(Operation::BumpPatch)
        } else if text_equal(name, "update-major") {
            Some(Operation::BumpMajor)
        } else if text_equal(name, "fetch") {
            Some(Operation::Reconcile)
        } else {
            None
        }
    }
}

/// The four subcommands ask for four different operations, and each is
/// found by its own name.
pub proof fn law_subcommands_are_distinct()
    ensures
        Operation::named("init"@) == Some(Operation::Init),
        Operation::named("update"@) == Some(Operation::BumpPatch),
        Operation::named("update-major"@) == Some(Operation::BumpMajor),
        Operation::named("fetch"@) == Some(Operation::Reconcile),
{
    reveal_strlit("init");
    reveal_strlit("update");
    reveal_strlit("update-major");
    reveal_strlit("fetch");
    assert("update"@.len() != "init"@.len());
    assert("update-major"@.len() != "init"@.len());
    assert("update-major"@.len() != "update"@.len());
    assert("fetch"@.len() != "init"@.len());
    assert("fetch"@.len() != "update"@.len());
    assert("fetch"@.len() != "update-major"@.len());
}

} // verus!
