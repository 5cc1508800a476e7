use vstd::prelude::*;

verus! {

/// The kinds of basic resource a planet may generate.
#[derive(Clone, Copy, PartialEq, Eq, Structural, Debug)]
pub enum BasicKind {
    Oxygen,
    Hydrogen,
    Carbon,
    Silicon,
}

/// The kinds of complex resource a planet may combine.
#[derive(Clone, Copy, PartialEq, Eq, Structural, Debug)]
pub enum ComplexKind {
    Diamond,
    Water,
    Life,
    Robot,
    Dolphin,
    AIPartner,
}

/// How a run of the explorer's AI ends.
#[derive(Clone, Copy, PartialEq, Eq, Structural, Debug)]
pub enum AiReturn {
    Stop,
    Reset,
    Kill,
}

/// What came of taking one carbon out of the bag.
#[derive(Clone, Copy, PartialEq, Eq, Structural, Debug)]
pub enum TakeOutcome {
    /// A carbon was taken out.
    Carbon,
    /// The bag refused: there was none to take.
    Absent,
    /// The bag handed out something that is not a carbon.
    Unexpected,
}

/// Whether `kinds` lists `kind`.
pub fn lists_basic(kinds: &Vec<BasicKind>, kind: BasicKind) -> (found: bool)
    ensures
        found == kinds@.contains(kind),
{
    let mut i: usize = 0;
    while i < kinds.len()
        invariant
            i <= kinds.len(),
            forall|j: int| 0 <= j < i ==> kinds@[j] != kind,
        decreases kinds.len() - i,
    {
        if kinds[i] == kind {
            return true;
        }
        i = i + 1;
    }
    false
}

/// Whether `kinds` lists `kind`.
pub fn lists_complex(kinds: &Vec<ComplexKind>, kind: ComplexKind) -> (found: bool)
    ensures
        found == kinds@.contains(kind),
{
    let mut i: usize = 0;
    while i < kinds.len()
        invariant
            i <= kinds.len(),
            forall|j: int| 0 <= j < i ==> kinds@[j] != kind,
        decreases kinds.len() - i,
    {
        if kinds[i] == kind {
            return true;
        }
        i = i + 1;
    }
    false
}

} // verus!
