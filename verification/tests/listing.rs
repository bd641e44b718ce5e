//! Deriving matched image pairs from a directory listing.

use connections::paths::{ends_with_bytes, fst_suffix_bytes, image_pairs_of, partner_of};

#[test]
fn suffix_matching_is_exact() {
    let suffix = fst_suffix_bytes();
    assert_eq!(suffix, b"_fst.png".to_vec());
    assert!(ends_with_bytes(&b"cat_fst.png".to_vec(), &suffix));
    assert!(ends_with_bytes(&b"_fst.png".to_vec(), &suffix));
    assert!(!ends_with_bytes(&b"cat_snd.png".to_vec(), &suffix));
    assert!(!ends_with_bytes(&b"cat_fst.PNG".to_vec(), &suffix));
    assert!(!ends_with_bytes(&b"fst.png".to_vec(), &suffix));
}

#[test]
fn partner_swaps_the_suffix() {
    assert_eq!(partner_of(&b"cat_fst.png".to_vec()), b"cat_snd.png".to_vec());
    assert_eq!(partner_of(&b"puzzles/a/x_fst.png".to_vec()), b"puzzles/a/x_snd.png".to_vec());
}

#[test]
fn listing_keeps_order_and_skips_other_files() {
    let names: Vec<Vec<u8>> = vec![
        b"zebra_fst.png".to_vec(),
        b"notes.txt".to_vec(),
        b"zebra_snd.png".to_vec(),
        b"ant_fst.png".to_vec(),
    ];
    let pairs = image_pairs_of(&names);
    assert_eq!(pairs.len(), 2);
    assert_eq!(pairs[0].fst, b"zebra_fst.png".to_vec());
    assert_eq!(pairs[0].snd, b"zebra_snd.png".to_vec());
    assert_eq!(pairs[1].fst, b"ant_fst.png".to_vec());
    assert_eq!(pairs[1].snd, b"ant_snd.png".to_vec());
}

#[test]
fn empty_listing_yields_no_pairs() {
    let pairs = image_pairs_of(&Vec::new());
    assert!(pairs.is_empty());
}
