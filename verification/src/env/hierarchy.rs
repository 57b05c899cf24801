//! What a set of deployment tiers must offer to key a configuration.
use vstd::prelude::*;

verus! {

/// An ordered set of deployment tiers, each written as one fixed word.
///
/// `Environments` takes any such set as its keys. What it proves of its
/// records rests on the two laws below and on the contracts of the three
/// functions, so an implementation that is not verified has to keep them by
/// other means: `ordinal` gives each tier a number of its own, and `parse`
/// reads back what `render` writes.
pub trait Hierarchy: Sized {
    /// The word a tier is written as.
    spec fn name(&self) -> Seq<char>;

    /// The position of a tier in the hierarchy; a tier with a smaller rank comes first.
    spec fn rank(&self) -> u64;

    /// The tier a word stands for, if any.
    spec fn named(text: Seq<char>) -> Option<Self>;

    /// No two tiers share a position.
    proof fn lemma_rank_injective(a: Self, b: Self)
        ensures
            a.rank() == b.rank() ==> a == b,
    ;

    /// Reading back the word a tier is written as gives the tier again.
    proof fn lemma_named_name(key: Self)
        ensures
            Self::named(key.name()) == Some(key),
    ;

    /// Reads a tier from the word it is written as.
    fn parse(text: &str) -> (key: Option<Self>)
        ensures
            key == Self::named(text@),
    ;

    /// Writes a tier as its word.
    fn render(&self) -> (text: String)
        ensures
            text@ == self.name(),
    ;

    /// The position of this tier in the hierarchy.
    fn ordinal(&self) -> (n: u64)
        ensures
            n == self.rank(),
    ;
}

} // verus!
