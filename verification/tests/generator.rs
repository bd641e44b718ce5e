//! End-to-end behaviour of the sheet generator: determinism, pairing,
//! geometry, fitting, truncation and page plans.

use connections::fitting::{fit_scale, Frac, GenError};
use connections::geometry::{dot_anchor, grid_layout, BoxCell};
use connections::pairing::pair_up;
use connections::plan::{build_sheet, index_title_bytes, DrawCmd, LoadedImage, LoadedImagePair};
use connections::run_config;
use connections::shuffle::seeded_permutation;
use connections::text::{decimal_digits, title_text};

fn cells_of(n: u64) -> Vec<BoxCell> {
    (0..n).map(|i| BoxCell { x: 7 * i, y: 11 * i, index: i }).collect()
}

fn image(path: &[u8], width: u64, height: u64) -> LoadedImage {
    LoadedImage { path: path.to_vec(), width, height }
}

fn image_pairs(count: usize, width: u64, height: u64) -> Vec<LoadedImagePair> {
    (0..count)
        .map(|i| LoadedImagePair {
            fst: image(format!("p{}_fst.png", i).as_bytes(), width, height),
            snd: image(format!("p{}_snd.png", i).as_bytes(), width, height),
        })
        .collect()
}

#[test]
fn permutation_is_deterministic() {
    let cfg = run_config(11);
    let grid = grid_layout(&cfg);
    let perm1 = seeded_permutation(grid.clone(), cfg.seed);
    let perm2 = seeded_permutation(grid.clone(), cfg.seed);
    assert_eq!(perm1, perm2);
    assert_eq!(perm1.len(), 16);
    // With this seed the shuffle does rearrange the cells.
    assert_ne!(perm1, grid);
    let mut indices: Vec<u64> = perm1.iter().map(|c| c.index).collect();
    indices.sort();
    assert_eq!(indices, (0..16).collect::<Vec<u64>>());
}

#[test]
fn pairer_splits_even_lengths_in_half() {
    for n in [2u64, 4, 8, 16] {
        let cells = cells_of(n);
        let pairs = pair_up(&cells).expect("even lengths must pair");
        let half = (n / 2) as usize;
        assert_eq!(pairs.len(), half);
        let mut seen: Vec<u64> = Vec::new();
        for (i, p) in pairs.iter().enumerate() {
            assert_eq!(p.fst, cells[i]);
            assert_eq!(p.snd, cells[i + half]);
            seen.push(p.fst.index);
            seen.push(p.snd.index);
        }
        seen.sort();
        assert_eq!(seen, (0..n).collect::<Vec<u64>>());
    }
}

#[test]
fn pairer_rejects_odd_lengths() {
    assert!(pair_up(&cells_of(3)).is_none());
    assert!(pair_up(&cells_of(15)).is_none());
}

#[test]
fn grid_cell_five_sits_one_box_in_from_the_margin() {
    let cfg = run_config(11);
    let cells = grid_layout(&cfg);
    assert_eq!(cells.len(), 16);
    // Box sizes in subunits of 1/8 point: 118.75 pt and 180.5 pt.
    assert_eq!(cells[0], BoxCell { x: 480, y: 480, index: 0 });
    // Cell 5: column 1, row 1, top-left (178.75 pt, 240.5 pt).
    assert_eq!(cells[5], BoxCell { x: 480 + 950, y: 480 + 1444, index: 5 });
    assert_eq!(cells[5].x as f64 / 8.0, 178.75);
    assert_eq!(cells[5].y as f64 / 8.0, 240.5);
}

#[test]
fn dot_anchor_is_centered_above_the_bottom_edge() {
    let cfg = run_config(11);
    let cells = grid_layout(&cfg);
    let anchor = dot_anchor(&cfg, &cells[0]);
    // Centre of a 118.75 pt box at the half inner margin above the bottom:
    // (60 + 118.75 / 2, 60 + 180.5 - 5) = (119.375 pt, 235.5 pt).
    assert_eq!(anchor.x, 480 + 950 / 2);
    assert_eq!(anchor.y, 480 + 1444 - 40);
    assert_eq!(anchor.x as f64 / 8.0, 119.375);
    assert_eq!(anchor.y as f64 / 8.0, 235.5);
}

#[test]
fn fit_scale_picks_the_smaller_ratio() {
    // Image 200 x 100 into a 100 x 80 interior: min(100/200, 80/100) = 0.5.
    let f = fit_scale(200, 100, 100, 80).expect("nonzero dimensions must fit");
    assert_eq!(f, Frac { num: 100, den: 200 });
    assert_eq!(f.num as f64 / f.den as f64, 0.5);
}

#[test]
fn fit_scale_rejects_zero_dimensions() {
    assert_eq!(fit_scale(0, 100, 100, 80), Err(GenError::DegenerateGeometryError));
    assert_eq!(fit_scale(200, 0, 100, 80), Err(GenError::DegenerateGeometryError));
}

#[test]
fn titles_carry_the_seed_in_decimal() {
    assert_eq!(decimal_digits(0), b"0".to_vec());
    assert_eq!(decimal_digits(11), b"11".to_vec());
    assert_eq!(decimal_digits(907), b"907".to_vec());
    assert_eq!(title_text(&index_title_bytes(), 11), b"connections: seed=11".to_vec());
    assert_eq!(title_text(&b"animals".to_vec(), 3), b"animals: seed=3".to_vec());
}

#[test]
fn index_page_draws_two_dots_and_a_line_per_pair() {
    let cfg = run_config(11);
    let sheet = build_sheet(cfg);
    assert_eq!(sheet.pairs.len(), 8);
    let cmds = sheet.index_commands();
    assert_eq!(cmds.len(), 1 + 3 * 8);
    match &cmds[0] {
        DrawCmd::Title { x, y, text } => {
            assert_eq!((*x, *y), (240, 240));
            assert_eq!(text, &b"connections: seed=11".to_vec());
        }
        other => panic!("expected a title, got {:?}", other),
    }
    for (i, p) in sheet.pairs.iter().enumerate() {
        let a = dot_anchor(&cfg, &p.fst);
        let b = dot_anchor(&cfg, &p.snd);
        assert_eq!(cmds[1 + 3 * i], DrawCmd::Dot { x: a.x, y: a.y, radius: 40 });
        assert_eq!(cmds[2 + 3 * i], DrawCmd::Dot { x: b.x, y: b.y, radius: 40 });
        assert_eq!(
            cmds[3 + 3 * i],
            DrawCmd::Line { x1: a.x, y1: a.y, x2: b.x, y2: b.y }
        );
    }
}

#[test]
fn puzzle_page_truncates_to_the_shorter_sequence() {
    // 16 cells give 8 box pairs; only 4 image pairs exist, so exactly 4 are
    // placed (8 image commands) and the remaining box pairs are skipped.
    let cfg = run_config(11);
    let sheet = build_sheet(cfg);
    let images = image_pairs(4, 200, 100);
    let cmds = sheet
        .puzzle_commands(&b"animals".to_vec(), &images)
        .expect("nonzero dimensions must render");
    assert_eq!(cmds.len(), 1 + 2 * 4);
    match &cmds[0] {
        DrawCmd::Title { x, y, text } => {
            assert_eq!((*x, *y), (240, 240));
            assert_eq!(text, &b"animals: seed=11".to_vec());
        }
        other => panic!("expected a title, got {:?}", other),
    }
    // Interior 790 x 1284 subunits; image 200 x 100: width binds, 790/200.
    let scale = Frac { num: 790, den: 200 };
    for (i, p) in sheet.pairs.iter().take(4).enumerate() {
        assert_eq!(
            cmds[1 + 2 * i],
            DrawCmd::Image {
                path: format!("p{}_fst.png", i).into_bytes(),
                x: p.fst.x + 80,
                y: p.fst.y + 80,
                scale,
            }
        );
        assert_eq!(
            cmds[2 + 2 * i],
            DrawCmd::Image {
                path: format!("p{}_snd.png", i).into_bytes(),
                x: p.snd.x + 80,
                y: p.snd.y + 80,
                scale,
            }
        );
    }
}

#[test]
fn puzzle_page_rejects_a_degenerate_image() {
    let cfg = run_config(11);
    let sheet = build_sheet(cfg);
    let mut images = image_pairs(3, 200, 100);
    images[1].snd.width = 0;
    assert_eq!(
        sheet.puzzle_commands(&b"animals".to_vec(), &images),
        Err(GenError::DegenerateGeometryError)
    );
    // A degenerate image beyond the truncated pair count is never consulted:
    // with 9 image pairs and 8 box pairs the ninth is silently skipped.
    let mut extra = image_pairs(9, 10, 10);
    extra[8].fst.width = 0;
    assert!(sheet.puzzle_commands(&b"animals".to_vec(), &extra).is_ok());
}

#[test]
fn whole_runs_with_one_seed_are_identical() {
    let images = image_pairs(4, 640, 480);
    let run = |seed: u64| {
        let sheet = build_sheet(run_config(seed));
        let index = sheet.index_commands();
        let puzzle = sheet
            .puzzle_commands(&b"shapes".to_vec(), &images)
            .expect("nonzero dimensions must render");
        (sheet.pairs, index, puzzle)
    };
    let (pairs1, index1, puzzle1) = run(11);
    let (pairs2, index2, puzzle2) = run(11);
    assert_eq!(pairs1, pairs2);
    assert_eq!(index1, index2);
    assert_eq!(puzzle1, puzzle2);
}
