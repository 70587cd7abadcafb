use digit_canvas::raster::{crop_rgba, downsample, render, RenderError, BITMAP_SIZE, CANVAS_SIZE};

/// A white RGBA raster with black pixels wherever `ink` holds.
fn raster(width: u32, height: u32, ink: impl Fn(u32, u32) -> bool) -> Vec<u8> {
    let mut v = Vec::with_capacity((width * height * 4) as usize);
    for y in 0..height {
        for x in 0..width {
            let c = if ink(x, y) { 0 } else { 255 };
            v.extend_from_slice(&[c, c, c, 255]);
        }
    }
    v
}

fn red(bitmap: &[u8], col: usize, row: usize) -> u8 {
    bitmap[(row * BITMAP_SIZE as usize + col) * 4]
}

#[test]
fn crop_takes_the_region_row_by_row() {
    let rgba: Vec<u8> = (0..24).collect();
    assert_eq!(crop_rgba(&rgba, 3, 2, 1, 0, 2, 2), Ok((4..12).chain(16..24).collect::<Vec<u8>>()));
    assert_eq!(crop_rgba(&rgba, 3, 2, 0, 1, 1, 1), Ok(vec![12, 13, 14, 15]));
}

#[test]
fn crop_errors() {
    let rgba: Vec<u8> = (0..24).collect();
    assert_eq!(crop_rgba(&rgba, 3, 2, 0, 0, 0, 1), Err(RenderError::EmptyRegion));
    assert_eq!(crop_rgba(&rgba, 3, 2, 2, 0, 2, 1), Err(RenderError::OutOfBounds));
    assert_eq!(crop_rgba(&rgba, 3, 2, 0, 1, 1, 2), Err(RenderError::OutOfBounds));
    assert_eq!(crop_rgba(&rgba[..20].to_vec(), 3, 2, 0, 0, 1, 1), Err(RenderError::BufferTooSmall));
}

#[test]
fn render_refuses_small_or_short_rasters() {
    let small = raster(400, 500, |_, _| false);
    assert_eq!(render(&small, 400, 500), Err(RenderError::OutOfBounds));
    let short = vec![255u8; 500 * 499 * 4];
    assert_eq!(render(&short, 500, 500), Err(RenderError::BufferTooSmall));
    assert_eq!(downsample(vec![0u8; 16]), Err(RenderError::BufferTooSmall));
}

#[test]
fn diagonal_stroke_marks_the_diagonal() {
    let rgba = raster(CANVAS_SIZE, CANVAS_SIZE, |x, y| (x as i64 - y as i64).abs() <= 28);
    let bitmap = render(&rgba, CANVAS_SIZE, CANVAS_SIZE).unwrap();
    assert_eq!(bitmap.len(), 8 * 8 * 4);
    assert!(red(&bitmap, 0, 7) >= 250);
    assert!(red(&bitmap, 7, 0) >= 250);
    let darkest_far = (0..8usize)
        .flat_map(|r| (0..8usize).map(move |c| (r, c)))
        .filter(|(r, c)| r.abs_diff(*c) >= 3)
        .map(|(r, c)| red(&bitmap, c, r))
        .min()
        .unwrap();
    for i in 0..8 {
        assert!(red(&bitmap, i, i) < 200);
        assert!(red(&bitmap, i, i) < darkest_far);
    }
}

#[test]
fn render_looks_only_at_the_canvas() {
    let rgba = raster(600, 520, |x, y| x >= CANVAS_SIZE || y >= CANVAS_SIZE);
    let bitmap = render(&rgba, 600, 520).unwrap();
    assert!(bitmap.iter().all(|b| *b >= 250));
}

#[test]
fn render_is_deterministic() {
    let rgba = raster(CANVAS_SIZE, CANVAS_SIZE, |x, y| x + y < 300 && x > 100);
    let a = render(&rgba, CANVAS_SIZE, CANVAS_SIZE).unwrap();
    let b = render(&rgba.clone(), CANVAS_SIZE, CANVAS_SIZE).unwrap();
    assert_eq!(a, b);
    let direct = downsample(rgba).unwrap();
    assert_eq!(a, direct);
}
