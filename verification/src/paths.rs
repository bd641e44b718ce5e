//! Deriving matched image pairs from a directory listing.
//!
//! A puzzle folder holds files named `<stem>_fst.png`, each with a sibling
//! `<stem>_snd.png`. From a listing of file names (as byte strings, in the
//! listing's own order) the pairs are exactly the `_fst.png` entries, each
//! joined with its name under the suffix substitution.

use vstd::prelude::*;

verus! {

/// The byte string `"_fst.png"`.
pub open spec fn fst_suffix() -> Seq<u8> {
    seq![0x5fu8, 0x66u8, 0x73u8, 0x74u8, 0x2eu8, 0x70u8, 0x6eu8, 0x67u8]
}

/// The byte string `"_snd.png"`.
pub open spec fn snd_suffix() -> Seq<u8> {
    seq![0x5fu8, 0x73u8, 0x6eu8, 0x64u8, 0x2eu8, 0x70u8, 0x6eu8, 0x67u8]
}

/// `s` ends with the byte string `suffix`.
pub open spec fn ends_with(s: Seq<u8>, suffix: Seq<u8>) -> bool {
    suffix.len() <= s.len() && s.subrange(s.len() - suffix.len(), s.len() as int) == suffix
}

/// The sibling of a `_fst.png` name: the same stem with the `_snd.png`
/// suffix in its place.
pub open spec fn partner_name(s: Seq<u8>) -> Seq<u8> {
    s.subrange(0, s.len() - fst_suffix().len()) + snd_suffix()
}

/// The image pairs found in a name listing, in listing order: one pair per
/// name ending in `_fst.png`, joined with its derived sibling name.
pub open spec fn spec_image_pairs(names: Seq<Seq<u8>>) -> Seq<(Seq<u8>, Seq<u8>)>
    decreases names.len(),
{
    if names.len() == 0 {
        Seq::empty()
    } else {
        let prefix = spec_image_pairs(names.drop_last());
        if ends_with(names.last(), fst_suffix()) {
            prefix.push((names.last(), partner_name(names.last())))
        } else {
            prefix
        }
    }
}

/// Two image file paths representing one puzzle's matched images.
#[derive(PartialEq, Eq, Debug)]
pub struct ImagePair {
    pub fst: Vec<u8>,
    pub snd: Vec<u8>,
}

impl ImagePair {
    /// The pair of byte strings this value holds.
    pub open spec fn model(self) -> (Seq<u8>, Seq<u8>) {
        (self.fst@, self.snd@)
    }
}

/// The byte strings held by a sequence of image pairs.
pub open spec fn pairs_model(pairs: Seq<ImagePair>) -> Seq<(Seq<u8>, Seq<u8>)> {
    pairs.map_values(|p: ImagePair| p.model())
}

/// The suffix `"_fst.png"` as bytes.
pub fn fst_suffix_bytes() -> (r: Vec<u8>)
    ensures
        r@ == fst_suffix(),
{
    let mut v: Vec<u8> = Vec::new();
    v.push(0x5fu8);  // '_'
    v.push(0x66u8);  // 'f'
    v.push(0x73u8);  // 's'
    v.push(0x74u8);  // 't'
    v.push(0x2eu8);  // '.'
    v.push(0x70u8);  // 'p'
    v.push(0x6eu8);  // 'n'
    v.push(0x67u8);  // 'g'
    proof {
        assert(v@ =~= fst_suffix());
    }
    v
}

/// The suffix `"_snd.png"` as bytes.
pub fn snd_suffix_bytes() -> (r: Vec<u8>)
    ensures
        r@ == snd_suffix(),
{
    let mut v: Vec<u8> = Vec::new();
    v.push(0x5fu8);  // '_'
    v.push(0x73u8);  // 's'
    v.push(0x6eu8);  // 'n'
    v.push(0x64u8);  // 'd'
    v.push(0x2eu8);  // '.'
    v.push(0x70u8);  // 'p'
    v.push(0x6eu8);  // 'n'
    v.push(0x67u8);  // 'g'
    proof {
        assert(v@ =~= snd_suffix());
    }
    v
}

/// Test whether `s` ends with `suffix`.
pub fn ends_with_bytes(s: &Vec<u8>, suffix: &Vec<u8>) -> (r: bool)
    ensures
        r == ends_with(s@, suffix@),
{
    if suffix.len() > s.len() {
        return false;
    }
    let off: usize = s.len() - suffix.len();
    let mut i: usize = 0;
    while i < suffix.len()
        invariant
            suffix@.len() <= s@.len() <= usize::MAX,
            off == s@.len() - suffix@.len(),
            i <= suffix@.len(),
            forall|j: int| 0 <= j < i ==> s@[off + j] == suffix@[j],
        decreases suffix@.len() - i,
    {
        if s[off + i] != suffix[i] {
            proof {
                assert(s@.subrange(off as int, s@.len() as int)[i as int] != suffix@[i as int]);
            }
            return false;
        }
        i = i + 1;
    }
    proof {
        assert(s@.subrange(off as int, s@.len() as int) =~= suffix@);
    }
    true
}

/// Derive the `_snd.png` sibling of a `_fst.png` name.
pub fn partner_of(name: &Vec<u8>) -> (r: Vec<u8>)
    requires
        ends_with(name@, fst_suffix()),
    ensures
        r@ == partner_name(name@),
{
    let keep: usize = name.len() - 8;
    let mut out: Vec<u8> = Vec::new();
    let mut i: usize = 0;
    while i < keep
        invariant
            keep <= name@.len() <= usize::MAX,
            i <= keep,
            out@ == name@.subrange(0, i as int),
        decreases keep - i,
    {
        out.push(name[i]);
        proof {
            assert(out@ =~= name@.subrange(0, i + 1));
        }
        i = i + 1;
    }
    let mut suffix = snd_suffix_bytes();
    out.append(&mut suffix);
    proof {
        assert(out@ =~= partner_name(name@));
    }
    out
}

/// Copy a byte string.
pub(crate) fn clone_bytes(v: &Vec<u8>) -> (r: Vec<u8>)
    ensures
        r@ == v@,
{
    let r = v.clone();
    proof {
        assert(r@ =~= v@);
    }
    r
}

/// Scan a listing of file names in order and return the image pairs it
/// yields: each name ending in `_fst.png`, joined with the same name under
/// the `_snd.png` substitution.
pub fn image_pairs_of(names: &Vec<Vec<u8>>) -> (r: Vec<ImagePair>)
    ensures
        pairs_model(r@) == spec_image_pairs(names.deep_view()),
{
    let suffix = fst_suffix_bytes();
    let mut out: Vec<ImagePair> = Vec::new();
    let mut i: usize = 0;
    while i < names.len()
        invariant
            suffix@ == fst_suffix(),
            i <= names@.len(),
            names.deep_view().len() == names@.len(),
            forall|j: int| 0 <= j < names@.len() ==> names.deep_view()[j] == #[trigger] names@[j]@,
            pairs_model(out@) == spec_image_pairs(names.deep_view().take(i as int)),
        decreases names@.len() - i,
    {
        let ghost prefix = names.deep_view().take(i as int);
        proof {
            assert(names.deep_view().take(i + 1).drop_last() =~= prefix);
            assert(names.deep_view().take(i + 1).last() == names@[i as int]@);
        }
        if ends_with_bytes(&names[i], &suffix) {
            let fst = clone_bytes(&names[i]);
            let snd = partner_of(&names[i]);
            out.push(ImagePair { fst, snd });
            proof {
                assert(pairs_model(out@) =~= spec_image_pairs(names.deep_view().take(i + 1)));
            }
        } else {
            proof {
                assert(pairs_model(out@) =~= spec_image_pairs(names.deep_view().take(i + 1)));
            }
        }
        i = i + 1;
    }
    proof {
        assert(names.deep_view().take(names@.len() as int) =~= names.deep_view());
    }
    out
}

} // verus!
