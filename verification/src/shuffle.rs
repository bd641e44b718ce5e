//! The seeded permutation of the grid cells.
//!
//! The shuffle itself is delegated to `rand`'s Fisher-Yates over a ChaCha20
//! generator seeded from the run's single integer seed. Determinism is
//! load-bearing: the index page and every puzzle page are drawn in separate
//! passes and must agree on the permutation, so the shuffled order is named
//! as a function of the cell sequence and the seed alone.

use vstd::prelude::*;

use crate::geometry::BoxCell;

verus! {

pub uninterp spec fn chacha_shuffle_of(cells: Seq<BoxCell>, seed: u64) -> Seq<BoxCell>;

/// Relies on `rand_chacha::ChaChaRng::seed_from_u64` and
/// `rand::seq::SliceRandom::shuffle` (rand 0.8): ChaCha20 is a deterministic
/// stream generator, so the same integer seed yields the same random stream
/// in every process and on every platform, and `shuffle` runs an in-place
/// Fisher-Yates that only swaps slice elements. The shuffled order is
/// therefore a function of the element sequence and the seed alone, and the
/// multiset and count of elements are unchanged.
#[verifier::external_body]
fn chacha_shuffle(cells: Vec<BoxCell>, seed: u64) -> (r: Vec<BoxCell>)
    ensures
        r@ == chacha_shuffle_of(cells@, seed),
        r@.to_multiset() == cells@.to_multiset(),
        r@.len() == cells@.len(),
{
    let mut cells = cells;
    let mut rng = <rand_chacha::ChaChaRng as rand::SeedableRng>::seed_from_u64(seed);
    rand::seq::SliceRandom::shuffle(cells.as_mut_slice(), &mut rng);
    cells
}

/// Shuffle the canonical cell sequence with the run's seed. The result is a
/// rearrangement of the input (same multiset of cells, same length) and is
/// the same on every run with the same cells and seed.
pub fn seeded_permutation(cells: Vec<BoxCell>, seed: u64) -> (r: Vec<BoxCell>)
    ensures
        r@ == chacha_shuffle_of(cells@, seed),
        r@.to_multiset() == cells@.to_multiset(),
        r@.len() == cells@.len(),
{
    chacha_shuffle(cells, seed)
}

/// Determinism of the seeded permutation: runs over equal cell sequences
/// with equal seeds produce identical permutations.
pub proof fn lemma_seeded_permutation_deterministic(
    cells1: Seq<BoxCell>,
    cells2: Seq<BoxCell>,
    seed1: u64,
    seed2: u64,
)
    requires
        cells1 == cells2,
        seed1 == seed2,
    ensures
        chacha_shuffle_of(cells1, seed1) == chacha_shuffle_of(cells2, seed2),
{
}

/// A rearrangement keeps exactly the elements it was given: anything contained
/// in the shuffled sequence was contained in the input, and conversely.
pub proof fn lemma_shuffle_same_elements(cells: Seq<BoxCell>, seed: u64)
    requires
        chacha_shuffle_of(cells, seed).to_multiset() == cells.to_multiset(),
    ensures
        forall|c: BoxCell|
            chacha_shuffle_of(cells, seed).contains(c) <==> cells.contains(c),
{
    let r = chacha_shuffle_of(cells, seed);
    r.to_multiset_ensures();
    cells.to_multiset_ensures();
    assert forall|c: BoxCell| r.contains(c) <==> cells.contains(c) by {
        assert(r.to_multiset().count(c) == cells.to_multiset().count(c));
    }
}

} // verus!
