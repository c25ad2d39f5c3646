//! Wealth, as one of two classes.

use vstd::prelude::*;

verus! {

/// How well off someone is.
pub enum Status {
    Rich,
    Poor,
}

impl Status {
    /// What is said of people of this status.
    pub open spec fn description(self) -> Seq<char> {
        match self {
            Status::Rich => "The rich have lots of money"@,
            Status::Poor => "The poor have no money"@,
        }
    }

    /// The sentence that describes this status.
    pub fn describe(&self) -> (line: &'static str)
        ensures
            line@ == self.description(),
    {
        match self {
            Status::Rich => "The rich have lots of money",
            Status::Poor => "The poor have no money",
        }
    }
}

/// The sentence tells which of the two it describes.
pub proof fn lemma_description_injective(a: Status, b: Status)
    requires
        a.description() == b.description(),
    ensures
        a == b,
{
    reveal_strlit("The rich have lots of money");
    reveal_strlit("The poor have no money");
    assert(Status::Rich.description()[4] == 'r');
    assert(Status::Poor.description()[4] == 'p');
}

} // verus!
