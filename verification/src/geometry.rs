//! Page geometry: the fixed grid of boxes and the connector-dot anchors.
//!
//! All lengths are integer subunits (eighths of a typographic point), so the
//! quarter-page box sizes and half-margin offsets of the fixed page constants
//! are exact and every computed coordinate is reproducible bit for bit.

use vstd::prelude::*;

verus! {

/// Largest page side accepted, in subunits.
pub const MAX_PAGE_SIDE: u64 = 0x1_0000_0000;

/// Largest cell count accepted.
pub const MAX_CELL_COUNT: usize = 4096;

/// Loose bound on any coordinate a grid cell can carry; small enough that
/// anchor and interior offsets never overflow a `u64`.
pub const MAX_COORD: u64 = 0x1_0000_0000_0000;

/// A page-space coordinate in subunits.
#[derive(Clone, Copy, PartialEq, Eq, Structural, Debug)]
pub struct Point {
    pub x: u64,
    pub y: u64,
}

/// One grid cell: its top-left corner and its pre-shuffle position, from
/// which its row and column are derived.
#[derive(Clone, Copy, PartialEq, Eq, Structural, Debug)]
pub struct BoxCell {
    pub x: u64,
    pub y: u64,
    pub index: u64,
}

/// The fixed constants of one run: page size, outer margin, inner box margin
/// (all in subunits), cell count and permutation seed.
#[derive(Clone, Copy, PartialEq, Eq, Structural, Debug)]
pub struct GridConfig {
    pub page_width: u64,
    pub page_height: u64,
    pub margin: u64,
    pub box_margin: u64,
    pub cell_count: usize,
    pub seed: u64,
}

impl GridConfig {
    /// Width of one box in the 4-column grid.
    pub open spec fn box_width(self) -> int {
        (self.page_width - 2 * self.margin) / 4
    }

    /// Height of one box in the 4-row grid.
    pub open spec fn box_height(self) -> int {
        (self.page_height - 2 * self.margin) / 4
    }

    /// Width of a box interior after subtracting the inner margin on both
    /// sides.
    pub open spec fn inner_width(self) -> int {
        self.box_width() - 2 * self.box_margin
    }

    /// Height of a box interior after subtracting the inner margin on both
    /// sides.
    pub open spec fn inner_height(self) -> int {
        self.box_height() - 2 * self.box_margin
    }

    /// The constraints every run configuration obeys: the margins fit on the
    /// page, box sizes divide out exactly into even numbers of subunits (so
    /// box centres and half-margins are exact), the interior is not negative,
    /// and the cell count fills a 4-column grid.
    pub open spec fn wf(self) -> bool {
        &&& self.page_width <= MAX_PAGE_SIDE
        &&& self.page_height <= MAX_PAGE_SIDE
        &&& 2 * self.margin <= self.page_width
        &&& 2 * self.margin <= self.page_height
        &&& self.margin % 2 == 0
        &&& (self.page_width - 2 * self.margin) % 8 == 0
        &&& (self.page_height - 2 * self.margin) % 8 == 0
        &&& self.box_margin % 2 == 0
        &&& 2 * self.box_margin <= self.box_width()
        &&& 2 * self.box_margin <= self.box_height()
        &&& self.cell_count % 4 == 0
        &&& self.cell_count <= MAX_CELL_COUNT
    }
}

/// The grid cell at pre-shuffle position `i`: column `i % 4`, row `i / 4`,
/// offset from the outer margin by whole box widths and heights.
pub open spec fn spec_cell(cfg: GridConfig, i: int) -> BoxCell {
    BoxCell {
        x: (cfg.margin + (i % 4) * cfg.box_width()) as u64,
        y: (cfg.margin + (i / 4) * cfg.box_height()) as u64,
        index: i as u64,
    }
}

/// The canonical (pre-shuffle) grid: cells `0 .. cell_count` in order.
pub open spec fn spec_grid(cfg: GridConfig) -> Seq<BoxCell> {
    Seq::new(cfg.cell_count as nat, |i: int| spec_cell(cfg, i))
}

/// A coordinate bound that every cell of a well-formed grid satisfies, loose
/// enough to survive the shuffle and tight enough that anchor and interior
/// offsets stay inside `u64`.
pub open spec fn cell_bounded(c: BoxCell) -> bool {
    c.x <= MAX_COORD && c.y <= MAX_COORD
}

/// Every cell of a well-formed grid satisfies the coordinate bound.
pub proof fn lemma_grid_cells_bounded(cfg: GridConfig)
    requires
        cfg.wf(),
    ensures
        forall|i: int|
            0 <= i < spec_grid(cfg).len() ==> cell_bounded(#[trigger] spec_grid(cfg)[i]),
{
    assert forall|i: int| 0 <= i < spec_grid(cfg).len() implies cell_bounded(
        #[trigger] spec_grid(cfg)[i],
    ) by {
        let bw = cfg.box_width();
        let bh = cfg.box_height();
        assert((i % 4) * bw <= 3 * bw) by (nonlinear_arith)
            requires 0 <= i % 4 <= 3 && bw >= 0;
        assert((i / 4) * bh <= 1024 * bh) by (nonlinear_arith)
            requires 0 <= i / 4 <= 1024 && bh >= 0;
    }
}

/// Lay out the canonical grid of `cfg.cell_count` boxes: purely a function of
/// the geometry constants, no randomness.
pub fn grid_layout(cfg: &GridConfig) -> (r: Vec<BoxCell>)
    requires
        cfg.wf(),
    ensures
        r@ == spec_grid(*cfg),
        forall|i: int| 0 <= i < r@.len() ==> cell_bounded(#[trigger] r@[i]),
{
    let box_w: u64 = (cfg.page_width - 2 * cfg.margin) / 4;
    let box_h: u64 = (cfg.page_height - 2 * cfg.margin) / 4;
    let mut cells: Vec<BoxCell> = Vec::new();
    let mut i: usize = 0;
    while i < cfg.cell_count
        invariant
            cfg.wf(),
            box_w == cfg.box_width(),
            box_h == cfg.box_height(),
            i <= cfg.cell_count,
            cells@.len() == i,
            forall|j: int| 0 <= j < i ==> cells@[j] == spec_cell(*cfg, j),
        decreases cfg.cell_count - i,
    {
        let col: u64 = (i % 4) as u64;
        let row: u64 = (i / 4) as u64;
        assert(col * box_w <= 3 * box_w) by (nonlinear_arith)
            requires col <= 3 && box_w >= 0;
        assert(row * box_h <= 1024 * box_h) by (nonlinear_arith)
            requires row <= 1024 && box_h >= 0;
        let x: u64 = cfg.margin + col * box_w;
        let y: u64 = cfg.margin + row * box_h;
        cells.push(BoxCell { x, y, index: i as u64 });
        i = i + 1;
    }
    proof {
        assert(cells@ =~= spec_grid(*cfg));
        lemma_grid_cells_bounded(*cfg);
    }
    cells
}

/// The canonical connector-dot anchor of a box: horizontally centred, half an
/// inner margin above the bottom edge.
pub open spec fn spec_anchor(cfg: GridConfig, c: BoxCell) -> Point {
    Point {
        x: (c.x + cfg.box_width() / 2) as u64,
        y: (c.y + cfg.box_height() - cfg.box_margin / 2) as u64,
    }
}

/// Compute a box's connector-dot anchor point.
pub fn dot_anchor(cfg: &GridConfig, c: &BoxCell) -> (p: Point)
    requires
        cfg.wf(),
        cell_bounded(*c),
    ensures
        p == spec_anchor(*cfg, *c),
{
    let box_w: u64 = (cfg.page_width - 2 * cfg.margin) / 4;
    let box_h: u64 = (cfg.page_height - 2 * cfg.margin) / 4;
    Point { x: c.x + box_w / 2, y: c.y + box_h - cfg.box_margin / 2 }
}

} // verus!
