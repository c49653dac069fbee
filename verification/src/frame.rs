//! Derivation of display images from the engine's native frame buffer.
//!
//! The native frame is a row-major buffer of packed 32-bit `0x00RRGGBB`
//! pixels. Two images are derived from it, both deterministically:
//!
//! - a [`DisplayGrid`] for the remote low-resolution display, by
//!   nearest-neighbor decimation: cell (row `i`, col `j`) samples the native
//!   pixel at `(i * height / GRID_ROWS, j * width / GRID_COLS)`;
//! - a full-resolution RGB byte buffer for the local mirror window, by a
//!   straight per-pixel channel split.

use vstd::prelude::*;
use vstd::std_specs::vec::spec_vec_len;

verus! {

/// The number of rows of the remote display's grid.
pub const GRID_ROWS: usize = 14;

/// The number of columns of the remote display's grid.
pub const GRID_COLS: usize = 28;

/// The number of cells of the remote display's grid.
pub const GRID_CELLS: usize = 392;

/// The largest native frame dimension the downsampler accepts; keeps all
/// index arithmetic inside `usize` on every machine.
pub const MAX_DIMENSION: usize = 0x0400_0000;

/// An RGB color triple.
#[derive(Debug, Clone, Copy, PartialEq, Eq, Structural)]
pub struct Rgb {
    pub red: u8,
    pub green: u8,
    pub blue: u8,
}

/// The red channel of a packed `0x00RRGGBB` pixel.
pub open spec fn spec_red(p: u32) -> u8 {
    ((p >> 16) & 0xFF) as u8
}

/// The green channel of a packed `0x00RRGGBB` pixel.
pub open spec fn spec_green(p: u32) -> u8 {
    ((p >> 8) & 0xFF) as u8
}

/// The blue channel of a packed `0x00RRGGBB` pixel.
pub open spec fn spec_blue(p: u32) -> u8 {
    (p & 0xFF) as u8
}

/// The color of a packed `0x00RRGGBB` pixel.
pub open spec fn spec_rgb(p: u32) -> Rgb {
    Rgb { red: spec_red(p), green: spec_green(p), blue: spec_blue(p) }
}

/// Splits a packed `0x00RRGGBB` pixel into its channels.
pub fn rgb_of_pixel(p: u32) -> (c: Rgb)
    ensures
        c == spec_rgb(p),
{
    proof {
        assert(((p >> 16) & 0xFF) < 256 && ((p >> 8) & 0xFF) < 256 && (p & 0xFF) < 256)
            by (bit_vector);
    }
    Rgb { red: ((p >> 16) & 0xFF) as u8, green: ((p >> 8) & 0xFF) as u8, blue: (p & 0xFF) as u8 }
}

/// The row-major index of a grid cell.
pub open spec fn cell_index(i: int, j: int) -> int {
    i * 28 + j
}

/// The index of the native pixel that grid cell (row `i`, col `j`) samples.
pub open spec fn sample_index(i: int, j: int, width: int, height: int) -> int {
    (i * height / 14) * width + (j * width / 28)
}

/// What it means for `g` to be the downsampled grid of a native frame:
/// 392 cells, each holding the channels of its sampled native pixel.
pub open spec fn is_downsample_of(g: Seq<Rgb>, buf: Seq<u32>, width: int, height: int) -> bool {
    g.len() == 392 && forall|i: int, j: int|
        0 <= i < 14 && 0 <= j < 28 ==> g[#[trigger] cell_index(i, j)] == spec_rgb(
            buf[sample_index(i, j, width, height)],
        )
}

/// The sampled native pixel of every grid cell lies inside the native
/// frame.
pub proof fn lemma_sample_index_in_bounds(i: int, j: int, width: int, height: int)
    requires
        0 <= i < 14,
        0 <= j < 28,
        1 <= width,
        1 <= height,
    ensures
        0 <= i * height / 14 < height,
        0 <= j * width / 28 < width,
        0 <= sample_index(i, j, width, height) < width * height,
{
    assert(0 <= i * height / 14 < height && 0 <= j * width / 28 < width) by (nonlinear_arith)
        requires
            0 <= i < 14,
            0 <= j < 28,
            1 <= width,
            1 <= height,
    ;
    let y = i * height / 14;
    let x = j * width / 28;
    assert(y * width + x < height * width) by (nonlinear_arith)
        requires
            0 <= y < height,
            0 <= x < width,
    ;
}

/// The downsampled image for the remote display: `GRID_ROWS` x `GRID_COLS`
/// cells in row-major order, one color triple per cell.
#[derive(Debug, Clone, PartialEq, Eq)]
pub struct DisplayGrid {
    /// The cells in row-major order; always exactly `GRID_CELLS` of them.
    pub cells: Vec<Rgb>,
}

impl View for DisplayGrid {
    type V = Seq<Rgb>;

    open spec fn view(&self) -> Seq<Rgb> {
        self.cells@
    }
}

impl DisplayGrid {
    /// A well-formed grid holds exactly one cell per position.
    pub open spec fn wf(&self) -> bool {
        self.cells@.len() == 392
    }
}

/// Downsamples a native frame to the remote display's grid by
/// nearest-neighbor decimation: cell (row `i`, col `j`) samples the native
/// pixel at `(i * height / GRID_ROWS, j * width / GRID_COLS)`. The result is
/// a pure function of the frame contents and dimensions, so identical frames
/// give byte-for-byte identical grids.
pub fn downsample(buf: &Vec<u32>, width: usize, height: usize) -> (g: DisplayGrid)
    requires
        buf@.len() == width * height,
        1 <= width <= MAX_DIMENSION,
        1 <= height <= MAX_DIMENSION,
    ensures
        g.wf(),
        is_downsample_of(g@, buf@, width as int, height as int),
{
    let mut cells: Vec<Rgb> = Vec::new();
    let mut i: usize = 0;
    while i < GRID_ROWS
        invariant
            buf@.len() == width * height,
            1 <= width <= MAX_DIMENSION,
            1 <= height <= MAX_DIMENSION,
            0 <= i <= 14,
            cells@.len() == i * 28,
            forall|ii: int, jj: int|
                0 <= ii < i && 0 <= jj < 28 ==> cells@[#[trigger] cell_index(ii, jj)] == spec_rgb(
                    buf@[sample_index(ii, jj, width as int, height as int)],
                ),
        decreases 14 - i,
    {
        proof {
            assert(i as int * height as int <= 13 * 0x0400_0000) by (nonlinear_arith)
                requires
                    0 <= (i as int) <= 13,
                    0 <= (height as int) <= 0x0400_0000,
            ;
        }
        let y = (i * height) / 14;
        proof {
            lemma_sample_index_in_bounds(i as int, 0, width as int, height as int);
        }
        let mut j: usize = 0;
        while j < GRID_COLS
            invariant
                buf@.len() == width * height,
                1 <= width <= MAX_DIMENSION,
                1 <= height <= MAX_DIMENSION,
                0 <= i < 14,
                0 <= j <= 28,
                y == i * height / 14,
                0 <= y < height,
                cells@.len() == i * 28 + j,
                forall|ii: int, jj: int|
                    0 <= ii < i && 0 <= jj < 28 ==> cells@[#[trigger] cell_index(ii, jj)]
                        == spec_rgb(buf@[sample_index(ii, jj, width as int, height as int)]),
                forall|jj: int|
                    0 <= jj < j ==> cells@[#[trigger] cell_index(i as int, jj)] == spec_rgb(
                        buf@[sample_index(i as int, jj, width as int, height as int)],
                    ),
            decreases 28 - j,
        {
            proof {
                assert(j as int * width as int <= 27 * 0x0400_0000) by (nonlinear_arith)
                    requires
                        0 <= (j as int) <= 27,
                        0 <= (width as int) <= 0x0400_0000,
                ;
            }
            let x = (j * width) / 28;
            proof {
                lemma_sample_index_in_bounds(i as int, j as int, width as int, height as int);
                assert(y * width + x == sample_index(
                    i as int,
                    j as int,
                    width as int,
                    height as int,
                ));
                assert(y as int * width as int + x < width as int * height as int)
                    by (nonlinear_arith)
                    requires
                        0 <= (y as int) < (height as int),
                        0 <= (x as int) < (width as int),
                ;
            }
            proof {
                broadcast use vstd::std_specs::vec::axiom_spec_len;

                assert(spec_vec_len(buf) == buf@.len());
            }
            let idx = y * width + x;
            cells.push(rgb_of_pixel(buf[idx]));
            j += 1;
            proof {
                assert(cell_index(i as int, j - 1) == cells@.len() - 1);
            }
        }
        i += 1;
    }
    proof {
        assert(cells@.len() == 392);
    }
    DisplayGrid { cells }
}

/// Downsampling determinism: the downsampled grid is a function of the
/// native frame contents and dimensions alone, so two grids derived from
/// identical frames are identical cell for cell.
pub proof fn lemma_downsample_deterministic(
    g1: Seq<Rgb>,
    g2: Seq<Rgb>,
    buf: Seq<u32>,
    width: int,
    height: int,
)
    requires
        is_downsample_of(g1, buf, width, height),
        is_downsample_of(g2, buf, width, height),
    ensures
        g1 == g2,
{
    assert forall|k: int| 0 <= k < 392 implies g1[k] == g2[k] by {
        let i = k / 28;
        let j = k % 28;
        assert(0 <= i < 14 && 0 <= j < 28 && cell_index(i, j) == k) by (nonlinear_arith)
            requires
                0 <= k < 392,
                i == k / 28,
                j == k % 28,
        ;
        assert(g1[cell_index(i, j)] == g2[cell_index(i, j)]);
    }
    assert(g1 =~= g2);
}

/// A uniformly colored native frame downsamples to a uniformly colored
/// grid: every cell holds exactly the channels of the one pixel color.
pub proof fn lemma_downsample_uniform(
    g: Seq<Rgb>,
    buf: Seq<u32>,
    width: int,
    height: int,
    p: u32,
)
    requires
        is_downsample_of(g, buf, width, height),
        buf.len() == width * height,
        1 <= width,
        1 <= height,
        forall|k: int| 0 <= k < buf.len() ==> buf[k] == p,
    ensures
        forall|c: int| 0 <= c < g.len() ==> g[c] == spec_rgb(p),
{
    assert forall|c: int| 0 <= c < g.len() implies g[c] == spec_rgb(p) by {
        let i = c / 28;
        let j = c % 28;
        assert(0 <= i < 14 && 0 <= j < 28 && cell_index(i, j) == c) by (nonlinear_arith)
            requires
                0 <= c < 392,
                i == c / 28,
                j == c % 28,
        ;
        lemma_sample_index_in_bounds(i, j, width, height);
        assert(g[cell_index(i, j)] == spec_rgb(buf[sample_index(i, j, width, height)]));
    }
}

/// Converts a native frame to the mirror window's RGB byte buffer: three
/// bytes per pixel, in pixel order, channels ordered red, green, blue. No
/// resampling: this is a straight per-pixel channel split.
pub fn mirror_frame(buf: &Vec<u32>) -> (v: Vec<u8>)
    requires
        buf@.len() <= 0x1000_0000,
    ensures
        v@.len() == 3 * buf@.len(),
        forall|p: int|
            0 <= p < buf@.len() ==> v@[3 * p] == spec_red(#[trigger] buf@[p]) && v@[3 * p + 1]
                == spec_green(buf@[p]) && v@[3 * p + 2] == spec_blue(buf@[p]),
{
    let mut v: Vec<u8> = Vec::new();
    let mut p: usize = 0;
    while p < buf.len()
        invariant
            buf@.len() <= 0x1000_0000,
            0 <= p <= buf@.len(),
            v@.len() == 3 * p,
            forall|q: int|
                0 <= q < p ==> v@[3 * q] == spec_red(#[trigger] buf@[q]) && v@[3 * q + 1]
                    == spec_green(buf@[q]) && v@[3 * q + 2] == spec_blue(buf@[q]),
        decreases buf@.len() - p,
    {
        let c = rgb_of_pixel(buf[p]);
        v.push(c.red);
        v.push(c.green);
        v.push(c.blue);
        p += 1;
    }
    v
}

} // verus!
