//! Splitting the shuffled permutation into pairs.
//!
//! The first half of the permutation is zipped positionally with the second
//! half; the resulting pair sequence is the single source of truth for the
//! index page's connectors and every puzzle page's image placement.

use vstd::prelude::*;

use crate::geometry::BoxCell;

verus! {

/// Two grid cells linked by the permutation's split-and-zip step.
#[derive(Clone, Copy, PartialEq, Eq, Structural, Debug)]
pub struct Pair {
    pub fst: BoxCell,
    pub snd: BoxCell,
}

/// Pair `i` joins element `i` of the first half of the permutation with
/// element `i` of the second half.
pub open spec fn spec_pair_up(perm: Seq<BoxCell>) -> Seq<Pair> {
    Seq::new((perm.len() / 2) as nat, |i: int| Pair { fst: perm[i], snd: perm[i + perm.len() / 2] })
}

/// All cells appearing across a pair sequence: the firsts, then the seconds.
pub open spec fn pairs_elements(pairs: Seq<Pair>) -> Seq<BoxCell> {
    pairs.map_values(|p: Pair| p.fst) + pairs.map_values(|p: Pair| p.snd)
}

/// Zip the two halves of an even-length permutation into pairs; an
/// odd-length sequence is rejected explicitly rather than truncated.
pub fn pair_up(perm: &Vec<BoxCell>) -> (r: Option<Vec<Pair>>)
    ensures
        r is Some <==> perm@.len() % 2 == 0,
        r matches Some(pairs) ==> pairs@ == spec_pair_up(perm@),
{
    if perm.len() % 2 != 0 {
        return None;
    }
    let half: usize = perm.len() / 2;
    let mut pairs: Vec<Pair> = Vec::new();
    let mut i: usize = 0;
    while i < half
        invariant
            half == perm@.len() / 2,
            perm@.len() <= usize::MAX,
            perm@.len() % 2 == 0,
            i <= half,
            pairs@.len() == i,
            forall|j: int| 0 <= j < i ==> pairs@[j] == spec_pair_up(perm@)[j],
        decreases half - i,
    {
        pairs.push(Pair { fst: perm[i], snd: perm[i + half] });
        i = i + 1;
    }
    proof {
        assert(pairs@ =~= spec_pair_up(perm@));
    }
    Some(pairs)
}

/// The split-and-zip step loses and duplicates nothing: an even-length
/// permutation yields exactly half as many pairs, pair `i` draws its first
/// cell from the first half and its second cell from the second half, and
/// the cells across all pairs are exactly the permutation's cells — in
/// particular the two multisets are equal.
pub proof fn lemma_pairs_cover_permutation(perm: Seq<BoxCell>)
    requires
        perm.len() % 2 == 0,
    ensures
        spec_pair_up(perm).len() == perm.len() / 2,
        forall|i: int|
            0 <= i < perm.len() / 2 ==> (#[trigger] spec_pair_up(perm)[i]).fst == perm[i]
                && spec_pair_up(perm)[i].snd == perm[i + perm.len() / 2],
        pairs_elements(spec_pair_up(perm)) == perm,
        pairs_elements(spec_pair_up(perm)).to_multiset() == perm.to_multiset(),
{
    assert(pairs_elements(spec_pair_up(perm)) =~= perm);
}

} // verus!
