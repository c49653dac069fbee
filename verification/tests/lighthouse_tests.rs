use lighthouse_doom::frame::{downsample, GRID_CELLS};
use lighthouse_doom::lighthouse::to_lighthouse_frame;
use lighthouse_doom::mapper::approximate_direction;
use lighthouse_doom::message::{Direction, MilliVec};

#[test]
fn lighthouse_frame_matches_grid() {
    // Build a grid from a patterned native frame and check the produced
    // remote frame byte for byte against the grid cells.
    let w = 56usize;
    let h = 28usize;
    let buf: Vec<u32> = (0..w * h).map(|k| (k as u32).wrapping_mul(97) & 0x00FFFFFF).collect();
    let grid = downsample(&buf, w, h);
    let frame = to_lighthouse_frame(&grid);
    let bytes: Vec<u8> = Vec::from(frame);
    assert_eq!(bytes.len(), 3 * GRID_CELLS);
    for (k, cell) in grid.cells.iter().enumerate() {
        assert_eq!(bytes[3 * k], cell.red, "red of cell {k}");
        assert_eq!(bytes[3 * k + 1], cell.green, "green of cell {k}");
        assert_eq!(bytes[3 * k + 2], cell.blue, "blue of cell {k}");
    }
}

#[test]
fn direction_approximation_matches_remote_protocol() {
    // The fixed-point cardinal approximation agrees with the remote
    // protocol's own floating-point one on a grid of sample vectors.
    let to_dir = |d: lighthouse_client::protocol::Direction| match d {
        lighthouse_client::protocol::Direction::Up => Direction::Up,
        lighthouse_client::protocol::Direction::Down => Direction::Down,
        lighthouse_client::protocol::Direction::Left => Direction::Left,
        lighthouse_client::protocol::Direction::Right => Direction::Right,
    };
    for x in -20i32..=20 {
        for y in -20i32..=20 {
            let mine = approximate_direction(MilliVec { x: x * 50, y: y * 50 });
            let theirs = lighthouse_client::protocol::Direction::approximate_from(
                lighthouse_client::protocol::Vec2::new(x as f64 / 20.0, y as f64 / 20.0),
            )
            .map(to_dir);
            assert_eq!(mine, theirs, "vector ({x}, {y})");
        }
    }
}
