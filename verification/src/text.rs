//! Page title text, built as exact byte strings.
//!
//! Every page carries a title of the form `<name>: seed=<seed>`; rendering
//! the seed in decimal here keeps the full title a function of the run
//! configuration alone.

use vstd::prelude::*;

verus! {

/// The decimal rendering of `n` as ASCII digits, most significant first.
pub open spec fn spec_decimal(n: nat) -> Seq<u8>
    decreases n,
{
    if n < 10 {
        seq![(0x30 + n) as u8]
    } else {
        spec_decimal(n / 10).push((0x30 + n % 10) as u8)
    }
}

/// The fixed text between a page's name and its seed digits: `": seed="`.
pub open spec fn seed_label() -> Seq<u8> {
    seq![0x3au8, 0x20u8, 0x73u8, 0x65u8, 0x65u8, 0x64u8, 0x3du8]
}

/// The title of a page named `name` in a run seeded with `seed`:
/// `<name>: seed=<seed>`.
pub open spec fn spec_title(name: Seq<u8>, seed: u64) -> Seq<u8> {
    name + seed_label() + spec_decimal(seed as nat)
}

/// Render `n` in decimal, most significant digit first.
pub fn decimal_digits(n: u64) -> (r: Vec<u8>)
    ensures
        r@ == spec_decimal(n as nat),
    decreases n,
{
    if n < 10 {
        let mut v: Vec<u8> = Vec::new();
        v.push(0x30u8 + n as u8);
        proof {
            assert(v@ =~= spec_decimal(n as nat));
        }
        v
    } else {
        let mut v = decimal_digits(n / 10);
        v.push(0x30u8 + (n % 10) as u8);
        v
    }
}

/// Build the page title `<name>: seed=<seed>`.
pub fn title_text(name: &Vec<u8>, seed: u64) -> (r: Vec<u8>)
    ensures
        r@ == spec_title(name@, seed),
{
    let mut out: Vec<u8> = Vec::new();
    let mut i: usize = 0;
    while i < name.len()
        invariant
            i <= name@.len(),
            out@ == name@.subrange(0, i as int),
        decreases name@.len() - i,
    {
        out.push(name[i]);
        proof {
            assert(out@ =~= name@.subrange(0, i + 1));
        }
        i = i + 1;
    }
    proof {
        assert(out@ =~= name@);
    }
    out.push(0x3au8);  // ':'
    out.push(0x20u8);  // ' '
    out.push(0x73u8);  // 's'
    out.push(0x65u8);  // 'e'
    out.push(0x65u8);  // 'e'
    out.push(0x64u8);  // 'd'
    out.push(0x3du8);  // '='
    proof {
        assert(out@ =~= name@ + seed_label());
    }
    let mut digits = decimal_digits(seed);
    out.append(&mut digits);
    proof {
        assert(out@ =~= spec_title(name@, seed));
    }
    out
}

} // verus!
