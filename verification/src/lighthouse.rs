//! Conversion of a [`DisplayGrid`] into the remote display's own frame type.
//!
//! The remote transport takes frames as `lighthouse_client::protocol::Frame`,
//! a fixed 14 x 28 grid of colors in row-major order. That type is opaque
//! here; its constructor and its pixel writer are relied upon through the
//! trusted items below, and the conversion loop itself is verified against
//! them.

use vstd::prelude::*;

use lighthouse_client::protocol::{Color, Frame};

use crate::frame::{cell_index, DisplayGrid, Rgb, GRID_COLS, GRID_ROWS};

verus! {

#[verifier::external_type_specification]
#[verifier::external_body]
pub struct ExFrame(Frame);

/// The pixels of a remote-display frame, in row-major order: the pixel at
/// column x, row y sits at index `y * 28 + x`.
pub uninterp spec fn frame_pixels(f: Frame) -> Seq<(u8, u8, u8)>;

/// Relies on `Frame::empty` of lighthouse_client: a frame of 14 * 28 = 392
/// pixels, all black.
#[verifier::external_body]
fn frame_empty() -> (f: Frame)
    ensures
        frame_pixels(f).len() == 392,
        forall|k: int| 0 <= k < 392 ==> frame_pixels(f)[k] == (0u8, 0u8, 0u8),
{
    Frame::empty()
}

/// Relies on `Frame::set` of lighthouse_client: writes the pixel at column
/// x, row y, i.e. at index `y * 28 + x` of the row-major pixel array.
#[verifier::external_body]
fn frame_set(f: &mut Frame, x: usize, y: usize, c: Rgb)
    requires
        x < 28,
        y < 14,
    ensures
        frame_pixels(*final(f)) == frame_pixels(*old(f)).update(
            y as int * 28 + x as int,
            (c.red, c.green, c.blue),
        ),
{
    f.set(x, y, Color::new(c.red, c.green, c.blue))
}

/// Builds the remote display's frame from a display grid: the pixel at
/// column j, row i is cell (i, j) of the grid.
pub fn to_lighthouse_frame(grid: &DisplayGrid) -> (f: Frame)
    requires
        grid.wf(),
    ensures
        frame_pixels(f).len() == 392,
        forall|i: int, j: int|
            0 <= i < 14 && 0 <= j < 28 ==> frame_pixels(f)[#[trigger] cell_index(i, j)] == (
            grid@[cell_index(i, j)].red,
            grid@[cell_index(i, j)].green,
            grid@[cell_index(i, j)].blue,
            ),
{
    let mut f = frame_empty();
    let mut i: usize = 0;
    while i < GRID_ROWS
        invariant
            grid.wf(),
            0 <= i <= 14,
            frame_pixels(f).len() == 392,
            forall|ii: int, jj: int|
                0 <= ii < i && 0 <= jj < 28 ==> frame_pixels(f)[#[trigger] cell_index(ii, jj)] == (
                grid@[cell_index(ii, jj)].red,
                grid@[cell_index(ii, jj)].green,
                grid@[cell_index(ii, jj)].blue,
                ),
        decreases 14 - i,
    {
        let mut j: usize = 0;
        while j < GRID_COLS
            invariant
                grid.wf(),
                0 <= i < 14,
                0 <= j <= 28,
                frame_pixels(f).len() == 392,
                forall|ii: int, jj: int|
                    0 <= ii < i && 0 <= jj < 28 ==> frame_pixels(f)[#[trigger] cell_index(ii, jj)]
                        == (
                    grid@[cell_index(ii, jj)].red,
                    grid@[cell_index(ii, jj)].green,
                    grid@[cell_index(ii, jj)].blue,
                    ),
                forall|jj: int|
                    0 <= jj < j ==> frame_pixels(f)[#[trigger] cell_index(i as int, jj)] == (
                    grid@[cell_index(i as int, jj)].red,
                    grid@[cell_index(i as int, jj)].green,
                    grid@[cell_index(i as int, jj)].blue,
                    ),
            decreases 28 - j,
        {
            let idx = i * 28 + j;
            let c = grid.cells[idx];
            frame_set(&mut f, j, i, c);
            j += 1;
        }
        i += 1;
    }
    f
}

/// A message sent from the engine bridge to the updater: one frame for the
/// remote display per engine tick.
pub enum UpdaterMessage {
    Frame(Frame),
}

} // verus!
