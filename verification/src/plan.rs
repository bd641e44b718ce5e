//! Page plans: the once-computed pairing and the drawing commands of each
//! page.
//!
//! A `SheetPlan` holds the run configuration and the pair sequence derived
//! from it; it is computed once and reused by the index page and by every
//! puzzle page, which is what makes the index page's connector diagram a
//! correct legend for every puzzle page. A page is rendered as a sequence of
//! drawing commands against an abstract page-oriented canvas; an unverified
//! shell performs them and finalizes the page.

use vstd::prelude::*;

use crate::fitting::{Frac, GenError, MAX_FIT_SIDE, fit_scale, spec_fit_scale};
use crate::geometry::{
    BoxCell, GridConfig, cell_bounded, dot_anchor, grid_layout, lemma_grid_cells_bounded,
    spec_anchor, spec_grid,
};
use crate::pairing::{Pair, pair_up, spec_pair_up};
use crate::paths::clone_bytes;
use crate::shuffle::{chacha_shuffle_of, lemma_shuffle_same_elements, seeded_permutation};
use crate::text::{spec_title, title_text};

verus! {

/// Radius of a connector dot: 5 points, in subunits.
pub const DOT_RADIUS: u64 = 5 * 8;

/// One primitive of the abstract drawing surface. A `Title` writes the page
/// title at a text anchor; a `Dot` is a filled circle; a `Line` is a stroked
/// straight segment; an `Image` places the named image with its top-left
/// corner at `(x, y)` under the given uniform scale, inside a transform
/// scope of its own so the translate and scale cannot leak into later
/// commands.
#[derive(PartialEq, Eq, Debug)]
pub enum DrawCmd {
    Title { x: u64, y: u64, text: Vec<u8> },
    Dot { x: u64, y: u64, radius: u64 },
    Line { x1: u64, y1: u64, x2: u64, y2: u64 },
    Image { path: Vec<u8>, x: u64, y: u64, scale: Frac },
}

/// The mathematical value of one drawing command.
pub enum CmdModel {
    Title { x: u64, y: u64, text: Seq<u8> },
    Dot { x: u64, y: u64, radius: u64 },
    Line { x1: u64, y1: u64, x2: u64, y2: u64 },
    Image { path: Seq<u8>, x: u64, y: u64, scale: Frac },
}

impl DrawCmd {
    /// The value this command holds.
    pub open spec fn model(self) -> CmdModel {
        match self {
            DrawCmd::Title { x, y, text } => CmdModel::Title { x, y, text: text@ },
            DrawCmd::Dot { x, y, radius } => CmdModel::Dot { x, y, radius },
            DrawCmd::Line { x1, y1, x2, y2 } => CmdModel::Line { x1, y1, x2, y2 },
            DrawCmd::Image { path, x, y, scale } => CmdModel::Image { path: path@, x, y, scale },
        }
    }
}

/// The values held by a command sequence.
pub open spec fn cmd_models(cmds: Seq<DrawCmd>) -> Seq<CmdModel> {
    cmds.map_values(|c: DrawCmd| c.model())
}

/// An image known by path and native pixel dimensions; the dimensions come
/// from the decoder of the unverified shell.
#[derive(PartialEq, Eq, Debug)]
pub struct LoadedImage {
    pub path: Vec<u8>,
    pub width: u64,
    pub height: u64,
}

/// One puzzle's matched images, after loading.
#[derive(PartialEq, Eq, Debug)]
pub struct LoadedImagePair {
    pub fst: LoadedImage,
    pub snd: LoadedImage,
}

/// The mathematical value of a loaded image.
pub struct ImageModel {
    pub path: Seq<u8>,
    pub width: u64,
    pub height: u64,
}

/// The mathematical value of a loaded image pair.
pub struct ImagePairModel {
    pub fst: ImageModel,
    pub snd: ImageModel,
}

impl LoadedImage {
    /// The value this image record holds.
    pub open spec fn model(self) -> ImageModel {
        ImageModel { path: self.path@, width: self.width, height: self.height }
    }
}

impl LoadedImagePair {
    /// The value this pair of image records holds.
    pub open spec fn model(self) -> ImagePairModel {
        ImagePairModel { fst: self.fst.model(), snd: self.snd.model() }
    }
}

/// The values held by a sequence of loaded image pairs.
pub open spec fn images_model(images: Seq<LoadedImagePair>) -> Seq<ImagePairModel> {
    images.map_values(|p: LoadedImagePair| p.model())
}

/// Both images of a pair report usable (nonzero) dimensions.
pub open spec fn pair_nondegenerate(p: ImagePairModel) -> bool {
    p.fst.width > 0 && p.fst.height > 0 && p.snd.width > 0 && p.snd.height > 0
}

/// The first `m` image pairs all report usable dimensions.
pub open spec fn all_nondegenerate(images: Seq<ImagePairModel>, m: int) -> bool {
    forall|j: int| 0 <= j < m ==> pair_nondegenerate(#[trigger] images[j])
}

/// The run's pairing: the configuration together with the pair sequence
/// that its grid, seed and shuffle determine. Computed once per run and
/// reused unchanged by every page.
pub struct SheetPlan {
    pub config: GridConfig,
    pub pairs: Vec<Pair>,
}

impl SheetPlan {
    /// The pair sequence a configuration determines: the canonical grid,
    /// shuffled with the seed, split in halves and zipped.
    pub open spec fn spec_pairs(cfg: GridConfig) -> Seq<Pair> {
        spec_pair_up(chacha_shuffle_of(spec_grid(cfg), cfg.seed))
    }

    /// A well-formed sheet holds exactly the pair sequence its own
    /// configuration determines, over a well-formed configuration, with
    /// every cell inside the coordinate bound.
    pub open spec fn wf(self) -> bool {
        &&& self.config.wf()
        &&& self.pairs@ == Self::spec_pairs(self.config)
        &&& forall|i: int|
            0 <= i < self.pairs@.len() ==> cell_bounded((#[trigger] self.pairs@[i]).fst)
                && cell_bounded(self.pairs@[i].snd)
    }
}

/// Build the run's sheet plan: lay out the grid, shuffle it with the seed,
/// and pair the halves. The result is a function of the configuration alone.
pub fn build_sheet(config: GridConfig) -> (r: SheetPlan)
    requires
        config.wf(),
    ensures
        r.config == config,
        r.wf(),
{
    let cells = grid_layout(&config);
    let perm = seeded_permutation(cells, config.seed);
    proof {
        lemma_grid_cells_bounded(config);
        lemma_shuffle_same_elements(spec_grid(config), config.seed);
        assert forall|i: int| 0 <= i < perm@.len() implies cell_bounded(#[trigger] perm@[i]) by {
            assert(perm@.contains(perm@[i]));
            assert(chacha_shuffle_of(spec_grid(config), config.seed).contains(perm@[i]));
            assert(spec_grid(config).contains(perm@[i]));
            let j = choose|j: int|
                0 <= j < spec_grid(config).len() && spec_grid(config)[j] == perm@[i];
            assert(cell_bounded(spec_grid(config)[j]));
        }
    }
    match pair_up(&perm) {
        Some(pairs) => SheetPlan { config, pairs },
        None => {
            proof {
                assert(perm@.len() % 2 == 0);
                assert(false);
            }
            SheetPlan { config, pairs: Vec::new() }
        },
    }
}

/// The fixed name of the index page: `"connections"`.
pub open spec fn index_title() -> Seq<u8> {
    seq![
        0x63u8, 0x6fu8, 0x6eu8, 0x6eu8, 0x65u8, 0x63u8, 0x74u8, 0x69u8, 0x6fu8, 0x6eu8, 0x73u8,
    ]
}

/// The name of the index page as bytes.
pub fn index_title_bytes() -> (r: Vec<u8>)
    ensures
        r@ == index_title(),
{
    let mut v: Vec<u8> = Vec::new();
    v.push(0x63u8);  // 'c'
    v.push(0x6fu8);  // 'o'
    v.push(0x6eu8);  // 'n'
    v.push(0x6eu8);  // 'n'
    v.push(0x65u8);  // 'e'
    v.push(0x63u8);  // 'c'
    v.push(0x74u8);  // 't'
    v.push(0x69u8);  // 'i'
    v.push(0x6fu8);  // 'o'
    v.push(0x6eu8);  // 'n'
    v.push(0x73u8);  // 's'
    proof {
        assert(v@ =~= index_title());
    }
    v
}

/// The index page as drawing commands: the title, then, for every pair, a
/// filled dot at each side's canonical anchor and a line between the two
/// anchors.
pub open spec fn spec_index_plan(cfg: GridConfig, pairs: Seq<Pair>) -> Seq<CmdModel> {
    seq![
        CmdModel::Title {
            x: (cfg.margin / 2) as u64,
            y: (cfg.margin / 2) as u64,
            text: spec_title(index_title(), cfg.seed),
        },
    ] + Seq::new(
        (3 * pairs.len()) as nat,
        |k: int|
            {
                let a = spec_anchor(cfg, pairs[k / 3].fst);
                let b = spec_anchor(cfg, pairs[k / 3].snd);
                if k % 3 == 0 {
                    CmdModel::Dot { x: a.x, y: a.y, radius: DOT_RADIUS }
                } else if k % 3 == 1 {
                    CmdModel::Dot { x: b.x, y: b.y, radius: DOT_RADIUS }
                } else {
                    CmdModel::Line { x1: a.x, y1: a.y, x2: b.x, y2: b.y }
                }
            },
    )
}

impl SheetPlan {
    /// Render the index page: title, then one dot per pair side and one
    /// connecting line per pair, all at positions the configuration and the
    /// seed determine.
    pub fn index_commands(&self) -> (r: Vec<DrawCmd>)
        requires
            self.wf(),
        ensures
            cmd_models(r@) == spec_index_plan(self.config, self.pairs@),
    {
        let plan_ghost = Ghost(spec_index_plan(self.config, self.pairs@));
        let name = index_title_bytes();
        let text = title_text(&name, self.config.seed);
        let mut cmds: Vec<DrawCmd> = Vec::new();
        cmds.push(
            DrawCmd::Title { x: self.config.margin / 2, y: self.config.margin / 2, text },
        );
        proof {
            assert(cmd_models(cmds@) =~= plan_ghost@.take(1));
        }
        let mut i: usize = 0;
        while i < self.pairs.len()
            invariant
                self.wf(),
                plan_ghost@ == spec_index_plan(self.config, self.pairs@),
                i <= self.pairs@.len(),
                cmds@.len() == 1 + 3 * i,
                cmd_models(cmds@) == plan_ghost@.take(1 + 3 * i),
            decreases self.pairs@.len() - i,
        {
            let p = self.pairs[i];
            let a = dot_anchor(&self.config, &p.fst);
            let b = dot_anchor(&self.config, &p.snd);
            cmds.push(DrawCmd::Dot { x: a.x, y: a.y, radius: DOT_RADIUS });
            cmds.push(DrawCmd::Dot { x: b.x, y: b.y, radius: DOT_RADIUS });
            cmds.push(DrawCmd::Line { x1: a.x, y1: a.y, x2: b.x, y2: b.y });
            proof {
                let k0 = 3 * i as int;
                assert(k0 / 3 == i && k0 % 3 == 0);
                assert((k0 + 1) / 3 == i && (k0 + 1) % 3 == 1);
                assert((k0 + 2) / 3 == i && (k0 + 2) % 3 == 2);
                assert(cmd_models(cmds@) =~= plan_ghost@.take(1 + 3 * (i + 1)));
            }
            i = i + 1;
        }
        proof {
            assert(plan_ghost@.take(1 + 3 * self.pairs@.len() as int) =~= plan_ghost@);
        }
        cmds
    }
}

/// The command placing one image in one box: translated to the box interior
/// origin and scaled uniformly to fit the interior.
pub open spec fn spec_image_cmd(cfg: GridConfig, cell: BoxCell, img: ImageModel) -> CmdModel {
    CmdModel::Image {
        path: img.path,
        x: (cell.x + cfg.box_margin) as u64,
        y: (cell.y + cfg.box_margin) as u64,
        scale: spec_fit_scale(
            img.width as int,
            img.height as int,
            cfg.inner_width(),
            cfg.inner_height(),
        ),
    }
}

/// A puzzle page as drawing commands: the title, then the image pairs zipped
/// positionally against the box pairs and truncated to the shorter of the
/// two sequences — a count mismatch is handled by this truncation, never by
/// an error.
pub open spec fn spec_puzzle_plan(
    cfg: GridConfig,
    pairs: Seq<Pair>,
    images: Seq<ImagePairModel>,
    name: Seq<u8>,
) -> Seq<CmdModel> {
    let m = if pairs.len() <= images.len() {
        pairs.len() as int
    } else {
        images.len() as int
    };
    seq![
        CmdModel::Title {
            x: (cfg.margin / 2) as u64,
            y: (cfg.margin / 2) as u64,
            text: spec_title(name, cfg.seed),
        },
    ] + Seq::new(
        (2 * m) as nat,
        |k: int|
            if k % 2 == 0 {
                spec_image_cmd(cfg, pairs[k / 2].fst, images[k / 2].fst)
            } else {
                spec_image_cmd(cfg, pairs[k / 2].snd, images[k / 2].snd)
            },
    )
}

impl SheetPlan {
    /// Render one puzzle page: title, then each loaded image pair placed in
    /// its box pair, truncated to the shorter of the two sequences. An image
    /// with a zero dimension has no defined scale and aborts the page.
    pub fn puzzle_commands(&self, name: &Vec<u8>, images: &Vec<LoadedImagePair>) -> (r: Result<
        Vec<DrawCmd>,
        GenError,
    >)
        requires
            self.wf(),
            forall|i: int|
                0 <= i < images@.len() ==> (#[trigger] images@[i]).fst.width <= MAX_FIT_SIDE
                    && images@[i].fst.height <= MAX_FIT_SIDE && images@[i].snd.width
                    <= MAX_FIT_SIDE && images@[i].snd.height <= MAX_FIT_SIDE,
        ensures
            ({
                let m = if self.pairs@.len() <= images@.len() {
                    self.pairs@.len() as int
                } else {
                    images@.len() as int
                };
                &&& (r is Ok <==> all_nondegenerate(images_model(images@), m))
                &&& (r matches Err(e) ==> e == GenError::DegenerateGeometryError)
                &&& (r matches Ok(cmds) ==> cmd_models(cmds@) == spec_puzzle_plan(
                    self.config,
                    self.pairs@,
                    images_model(images@),
                    name@,
                ))
            }),
    {
        let ghost imgs = images_model(images@);
        let ghost plan = spec_puzzle_plan(self.config, self.pairs@, imgs, name@);
        let m: usize = if self.pairs.len() <= images.len() {
            self.pairs.len()
        } else {
            images.len()
        };
        let inner_w: u64 = (self.config.page_width - 2 * self.config.margin) / 4 - 2
            * self.config.box_margin;
        let inner_h: u64 = (self.config.page_height - 2 * self.config.margin) / 4 - 2
            * self.config.box_margin;
        let text = title_text(name, self.config.seed);
        let mut cmds: Vec<DrawCmd> = Vec::new();
        cmds.push(
            DrawCmd::Title { x: self.config.margin / 2, y: self.config.margin / 2, text },
        );
        proof {
            assert(cmd_models(cmds@) =~= plan.take(1));
        }
        let mut i: usize = 0;
        while i < m
            invariant
                self.wf(),
                imgs == images_model(images@),
                plan == spec_puzzle_plan(self.config, self.pairs@, imgs, name@),
                m <= self.pairs@.len(),
                m <= images@.len(),
                forall|j: int|
                    0 <= j < images@.len() ==> (#[trigger] images@[j]).fst.width <= MAX_FIT_SIDE
                        && images@[j].fst.height <= MAX_FIT_SIDE && images@[j].snd.width
                        <= MAX_FIT_SIDE && images@[j].snd.height <= MAX_FIT_SIDE,
                inner_w == self.config.inner_width(),
                inner_h == self.config.inner_height(),
                i <= m,
                all_nondegenerate(imgs, i as int),
                cmds@.len() == 1 + 2 * i,
                cmd_models(cmds@) == plan.take(1 + 2 * i),
            decreases m - i,
        {
            let p = self.pairs[i];
            let pair_images = &images[i];
            let scale_fst = match fit_scale(
                pair_images.fst.width,
                pair_images.fst.height,
                inner_w,
                inner_h,
            ) {
                Ok(f) => f,
                Err(_) => {
                    proof {
                        assert(!pair_nondegenerate(imgs[i as int]));
                    }
                    return Err(GenError::DegenerateGeometryError);
                },
            };
            let scale_snd = match fit_scale(
                pair_images.snd.width,
                pair_images.snd.height,
                inner_w,
                inner_h,
            ) {
                Ok(f) => f,
                Err(_) => {
                    proof {
                        assert(!pair_nondegenerate(imgs[i as int]));
                    }
                    return Err(GenError::DegenerateGeometryError);
                },
            };
            cmds.push(
                DrawCmd::Image {
                    path: clone_bytes(&pair_images.fst.path),
                    x: p.fst.x + self.config.box_margin,
                    y: p.fst.y + self.config.box_margin,
                    scale: scale_fst,
                },
            );
            cmds.push(
                DrawCmd::Image {
                    path: clone_bytes(&pair_images.snd.path),
                    x: p.snd.x + self.config.box_margin,
                    y: p.snd.y + self.config.box_margin,
                    scale: scale_snd,
                },
            );
            proof {
                let k0 = 2 * i as int;
                assert(k0 / 2 == i && k0 % 2 == 0);
                assert((k0 + 1) / 2 == i && (k0 + 1) % 2 == 1);
                assert(cmd_models(cmds@) =~= plan.take(1 + 2 * (i + 1)));
            }
            i = i + 1;
        }
        proof {
            assert(plan.take(1 + 2 * m) =~= plan);
        }
        Ok(cmds)
    }
}

/// Determinism of the whole generator: two well-formed sheets over the same
/// configuration carry the same pairing, plan the same index page, and plan
/// the same page for every puzzle name and image listing.
pub proof fn lemma_generator_deterministic(s1: SheetPlan, s2: SheetPlan)
    requires
        s1.wf(),
        s2.wf(),
        s1.config == s2.config,
    ensures
        s1.pairs@ == s2.pairs@,
        spec_index_plan(s1.config, s1.pairs@) == spec_index_plan(s2.config, s2.pairs@),
        forall|name: Seq<u8>, images: Seq<ImagePairModel>|
            #[trigger] spec_puzzle_plan(s1.config, s1.pairs@, images, name) == spec_puzzle_plan(
                s2.config,
                s2.pairs@,
                images,
                name,
            ),
{
}

} // verus!
