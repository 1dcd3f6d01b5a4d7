//! The oracle side of Grover's search: which index of the search space is
//! the one sought.

use vstd::prelude::*;

verus! {

/// An oracle for Grover's search.
pub trait GroverOracle {
    /// Whether the given index is the target.
    fn is_target(&self, index: usize) -> bool;

    /// The target index.
    fn target(&self) -> usize;
}

/// An oracle that marks a single index of the search space.
#[derive(Debug, Clone)]
pub struct SingleTargetOracle {
    target: usize,
    search_space_size: usize,
}

impl SingleTargetOracle {
    /// The index that the oracle marks.
    pub closed spec fn target_index(&self) -> usize {
        self.target
    }

    /// The size of the search space the oracle was made for.
    pub closed spec fn space_size(&self) -> usize {
        self.search_space_size
    }

    /// Creates an oracle for a search space of `search_space_size` indices,
    /// marking `target` reduced into that space.
    pub fn new(target: usize, search_space_size: usize) -> (o: Self)
        requires
            search_space_size > 0,
        ensures
            o.target_index() == target % search_space_size,
            o.space_size() == search_space_size,
            o.target_index() < o.space_size(),
    {
        SingleTargetOracle { target: target % search_space_size, search_space_size }
    }
}

impl GroverOracle for SingleTargetOracle {
    fn is_target(&self, index: usize) -> (res: bool)
        ensures
            res == (index == self.target_index()),
    {
        index == self.target
    }

    fn target(&self) -> (res: usize)
        ensures
            res == self.target_index(),
    {
        self.target
    }
}

/// How many entries of `flags` are `true`.
pub open spec fn true_count(flags: Seq<bool>) -> nat
    decreases flags.len(),
{
    if flags.len() == 0 {
        0
    } else {
        true_count(flags.drop_last()) + (if flags.last() { 1nat } else { 0nat })
    }
}

/// Counts the successful searches among outcomes, given as their success
/// flags.
pub fn count_true(flags: &[bool]) -> (n: usize)
    ensures
        n == true_count(flags@),
        n == flags@.filter(kept_if_true()).len(),
        n <= flags@.len(),
{
    let mut n: usize = 0;
    let mut i: usize = 0;
    assert(flags@.take(0) =~= Seq::<bool>::empty());
    while i < flags.len()
        invariant
            i <= flags@.len(),
            n == true_count(flags@.take(i as int)),
            n <= i,
        decreases flags@.len() - i,
    {
        assert(flags@.take(i + 1).drop_last() =~= flags@.take(i as int));
        if flags[i] {
            n = n + 1;
        }
        i = i + 1;
    }
    assert(flags@.take(i as int) =~= flags@);
    proof { lemma_true_count_is_filter_len(flags@); }
    n
}

/// The test that keeps an entry when it is `true`.
pub open spec fn kept_if_true() -> spec_fn(bool) -> bool {
    |b: bool| b
}

/// The count of `true` entries is the length of what is left when every
/// `false` entry is dropped.
pub proof fn lemma_true_count_is_filter_len(flags: Seq<bool>)
    ensures
        true_count(flags) == flags.filter(kept_if_true()).len(),
    decreases flags.len(),
{
    reveal_with_fuel(Seq::<bool>::filter, 1);
    if flags.len() > 0 {
        lemma_true_count_is_filter_len(flags.drop_last());
    }
}

/// One more entry adds one to the count exactly when it is `true`, wherever
/// in the sequence it stands.
pub proof fn lemma_true_count_push(flags: Seq<bool>, b: bool)
    ensures
        true_count(flags.push(b)) == true_count(flags) + (if b { 1nat } else { 0nat }),
{
    assert(flags.push(b).drop_last() =~= flags);
}

/// Counts of two parts add up to the count of the whole.
pub proof fn lemma_true_count_concat(a: Seq<bool>, b: Seq<bool>)
    ensures
        true_count(a + b) == true_count(a) + true_count(b),
    decreases b.len(),
{
    if b.len() == 0 {
        assert(a + b =~= a);
    } else {
        lemma_true_count_concat(a, b.drop_last());
        assert((a + b).drop_last() =~= a + b.drop_last());
        assert((a + b).last() == b.last());
    }
}

/// All successes count them all; no successes count none; and the count
/// never exceeds the number of entries.
pub proof fn lemma_true_count_bounds(flags: Seq<bool>)
    ensures
        (forall|i: int| 0 <= i < flags.len() ==> flags[i]) ==> true_count(flags) == flags.len(),
        (forall|i: int| 0 <= i < flags.len() ==> !flags[i]) ==> true_count(flags) == 0,
        true_count(flags) <= flags.len(),
    decreases flags.len(),
{
    if flags.len() > 0 {
        lemma_true_count_bounds(flags.drop_last());
        assert forall|i: int| 0 <= i < flags.drop_last().len() implies flags.drop_last()[i] == flags[i] by {}
    }
}

} // verus!
