use lighthouse_doom::frame::{downsample, mirror_frame, Rgb, GRID_CELLS, GRID_COLS, GRID_ROWS};

#[test]
fn solid_red_grid() {
    // A solid red native frame downsamples to a grid of (255, 0, 0) cells,
    // whatever the resolution.
    for (w, h) in [(640usize, 400usize), (28, 14), (127, 97)] {
        let buf = vec![0x00FF0000u32; w * h];
        let g = downsample(&buf, w, h);
        assert_eq!(g.cells.len(), GRID_CELLS);
        for c in &g.cells {
            assert_eq!(*c, Rgb { red: 255, green: 0, blue: 0 });
        }
    }
}

#[test]
fn downsample_is_deterministic() {
    let w = 320usize;
    let h = 200usize;
    let buf: Vec<u32> = (0..w * h).map(|k| (k as u32).wrapping_mul(2654435761)).collect();
    let g1 = downsample(&buf, w, h);
    let g2 = downsample(&buf, w, h);
    assert_eq!(g1, g2);
}

#[test]
fn downsample_samples_nearest_neighbor() {
    // On a native frame the size of the grid itself, cell (i, j) is exactly
    // pixel (j, i).
    let w = GRID_COLS;
    let h = GRID_ROWS;
    let mut buf = vec![0u32; w * h];
    for y in 0..h {
        for x in 0..w {
            buf[y * w + x] = ((y as u32) << 16) | ((x as u32) << 8) | 0x42;
        }
    }
    let g = downsample(&buf, w, h);
    for i in 0..GRID_ROWS {
        for j in 0..GRID_COLS {
            assert_eq!(
                g.cells[i * GRID_COLS + j],
                Rgb { red: i as u8, green: j as u8, blue: 0x42 }
            );
        }
    }
}

#[test]
fn downsample_sampling_formula() {
    // At a doubled resolution, cell (i, j) samples pixel
    // (j * w / 28, i * h / 14) = (2 * j, 2 * i).
    let w = 2 * GRID_COLS;
    let h = 2 * GRID_ROWS;
    let mut buf = vec![0u32; w * h];
    for y in 0..h {
        for x in 0..w {
            buf[y * w + x] = ((y as u32) << 16) | (x as u32);
        }
    }
    let g = downsample(&buf, w, h);
    for i in 0..GRID_ROWS {
        for j in 0..GRID_COLS {
            let cell = g.cells[i * GRID_COLS + j];
            assert_eq!(cell.red, (2 * i) as u8);
            assert_eq!(cell.blue, (2 * j) as u8);
        }
    }
}

#[test]
fn mirror_frame_splits_channels() {
    let buf = vec![0x00112233u32, 0x00FFEEDD, 0x00000000, 0x00FFFFFF];
    let v = mirror_frame(&buf);
    assert_eq!(v.len(), 12);
    assert_eq!(&v[0..3], &[0x11, 0x22, 0x33]);
    assert_eq!(&v[3..6], &[0xFF, 0xEE, 0xDD]);
    assert_eq!(&v[6..9], &[0x00, 0x00, 0x00]);
    assert_eq!(&v[9..12], &[0xFF, 0xFF, 0xFF]);
}

#[test]
fn mirror_frame_ignores_alpha_byte() {
    // Only the low 24 bits of a pixel reach the mirror image.
    let v = mirror_frame(&vec![0xAA010203u32]);
    assert_eq!(v, vec![0x01, 0x02, 0x03]);
}
