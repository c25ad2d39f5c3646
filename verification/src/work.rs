//! Occupation, as one of two classes.

use vstd::prelude::*;

verus! {

/// What someone does for a living.
pub enum Work {
    Civilian,
    Soldier,
}

impl Work {
    /// What is said of people in this line of work.
    pub open spec fn description(self) -> Seq<char> {
        match self {
            Work::Civilian => "Civilians work!"@,
            Work::Soldier => "Soldiers Fight!"@,
        }
    }

    /// The sentence that describes this line of work.
    pub fn describe(&self) -> (line: &'static str)
        ensures
            line@ == self.description(),
    {
        match self {
            Work::Civilian => "Civilians work!",
            Work::Soldier => "Soldiers Fight!",
        }
    }
}

/// The sentence tells which of the two it describes.
pub proof fn lemma_description_injective(a: Work, b: Work)
    requires
        a.description() == b.description(),
    ensures
        a == b,
{
    reveal_strlit("Civilians work!");
    reveal_strlit("Soldiers Fight!");
    assert(Work::Civilian.description()[0] == 'C');
    assert(Work::Soldier.description()[0] == 'S');
}

} // verus!
