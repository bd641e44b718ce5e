//! Deterministic layout and pairing core for printable "connections" puzzle
//! sheets.
//!
//! A fixed grid of boxes is laid out on a page, shuffled by a seeded
//! pseudo-random generator, and split into pairs; connector dots mark the
//! pairing on an index page, and matched image pairs are fitted into the same
//! boxes on one page per puzzle. All geometry is carried in integer subunits
//! (eighths of a typographic point) so that every coordinate is exact and
//! every run of the generator with the same seed reproduces the same pages.

use vstd::prelude::*;

pub mod fitting;
pub mod geometry;
pub mod pairing;
pub mod paths;
pub mod plan;
pub mod shuffle;
pub mod text;

use crate::geometry::GridConfig;

verus! {

/// Number of geometry subunits per typographic point. Page sizes, margins and
/// all derived coordinates are expressed in these subunits so that halves and
/// quarters of the fixed page constants stay exact integers.
pub const SUBUNITS_PER_POINT: u64 = 8;

/// A4 page width: 595 points, in subunits.
pub const A4_PAGE_WIDTH: u64 = 595 * 8;

/// A4 page height: 842 points, in subunits.
pub const A4_PAGE_HEIGHT: u64 = 842 * 8;

/// Outer page margin: 60 points, in subunits.
pub const PAGE_MARGIN: u64 = 60 * 8;

/// Inner margin of each box: 10 points, in subunits.
pub const BOX_MARGIN: u64 = 10 * 8;

/// Number of grid cells on a page.
pub const CELL_COUNT: usize = 16;

/// The fixed run configuration: a 16-cell grid on an A4 page, parameterised
/// only by the run's seed.
pub fn run_config(seed: u64) -> (c: GridConfig)
    ensures
        c == (GridConfig {
            page_width: A4_PAGE_WIDTH,
            page_height: A4_PAGE_HEIGHT,
            margin: PAGE_MARGIN,
            box_margin: BOX_MARGIN,
            cell_count: CELL_COUNT,
            seed,
        }),
        c.wf(),
{
    GridConfig {
        page_width: A4_PAGE_WIDTH,
        page_height: A4_PAGE_HEIGHT,
        margin: PAGE_MARGIN,
        box_margin: BOX_MARGIN,
        cell_count: CELL_COUNT,
        seed,
    }
}

} // verus!
