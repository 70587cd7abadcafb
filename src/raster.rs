//! From a raster of the window to the small bitmap: crop the canvas out of the
//! window's pixels, then scale it down.
use vstd::prelude::*;

verus! {

/// Side of the square canvas, in pixels.
pub const CANVAS_SIZE: u32 = 500;

/// Side of the square bitmap that the canvas is scaled down to.
pub const BITMAP_SIZE: u32 = 8;

/// Why a raster could not be turned into a bitmap.
#[derive(Clone, Copy, Debug, PartialEq, Eq, Structural)]
pub enum RenderError {
    /// The region to crop has no pixels.
    EmptyRegion,
    /// The region to crop reaches past the raster.
    OutOfBounds,
    /// The buffer holds fewer bytes than the raster's dimensions call for.
    BufferTooSmall,
}

#[verifier::external_type_specification]
#[verifier::external_body]
pub struct ExResizeError(fast_image_resize::ResizeError);

/// Bytes of row `row` of an RGBA raster `width` pixels wide, from column `x`
/// on, `w` pixels long.
pub open spec fn row_slice(rgba: Seq<u8>, width: nat, x: nat, w: nat, row: nat) -> Seq<u8> {
    rgba.subrange(((row * width + x) * 4) as int, ((row * width + x + w) * 4) as int)
}

/// The first `rows` rows of the `w` by `h` region at (`x`, `y`) of an RGBA raster
/// `width` pixels wide, row after row.
pub open spec fn cropped_rows(rgba: Seq<u8>, width: nat, x: nat, y: nat, w: nat, rows: nat) -> Seq<u8>
    decreases rows,
{
    if rows == 0 {
        seq![]
    } else {
        cropped_rows(rgba, width, x, y, w, (rows - 1) as nat) + row_slice(
            rgba,
            width,
            x,
            w,
            (y + rows - 1) as nat,
        )
    }
}

/// What scaling an RGBA raster of `width` by `height` pixels to `dst_width` by
/// `dst_height` pixels gives.
pub uninterp spec fn resized_rgba(src: Seq<u8>, width: u32, height: u32, dst_width: u32, dst_height: u32) -> Seq<u8>;

/// Relies on image::RgbaImage::from_raw to view the buffer as a `width` by `height`
/// RGBA image (it does when the buffer holds that many pixels), and on
/// fast_image_resize::Resizer::resize, with its default options, to scale it into a
/// new U8x4 image of `dst_width` by `dst_height` pixels, whose buffer `Image::new`
/// allocates with four bytes per pixel. The resize succeeds: the source is
/// `ImageRgba8`, whose pixel type is U8x4 like the destination's, its view builds
/// from a buffer of that size (U8x4 needs no alignment), the default crop box is
/// the whole image, and an empty image returns early.
#[verifier::external_body]
fn resize_rgba(src: Vec<u8>, width: u32, height: u32, dst_width: u32, dst_height: u32) -> (r: Result<
    Vec<u8>,
    fast_image_resize::ResizeError,
>)
    requires
        width * height * 4 <= src@.len(),
        dst_width * dst_height * 4 <= usize::MAX,
    ensures
        r is Ok,
        r matches Ok(v) ==> v@ == resized_rgba(src@, width, height, dst_width, dst_height)
            && v@.len() == dst_width * dst_height * 4,
{
    let src = image::DynamicImage::from(image::RgbaImage::from_raw(width, height, src).unwrap());
    let mut dst = fast_image_resize::images::Image::new(
        dst_width,
        dst_height,
        fast_image_resize::PixelType::U8x4,
    );
    fast_image_resize::Resizer::new().resize(&src, &mut dst, None)?;
    Ok(dst.into_vec())
}

/// Copies the `w` by `h` region at (`x`, `y`) out of an RGBA raster of `width`
/// by `height` pixels, row after row.
pub fn crop_rgba(rgba: &Vec<u8>, width: u32, height: u32, x: u32, y: u32, w: u32, h: u32) -> (r: Result<
    Vec<u8>,
    RenderError,
>)
    ensures
        (w == 0 || h == 0) ==> r == Err::<Vec<u8>, RenderError>(RenderError::EmptyRegion),
        (w != 0 && h != 0 && (x + w > width || y + h > height)) ==> r == Err::<
            Vec<u8>,
            RenderError,
        >(RenderError::OutOfBounds),
        (w != 0 && h != 0 && x + w <= width && y + h <= height && rgba@.len() < width * height
            * 4) ==> r == Err::<Vec<u8>, RenderError>(RenderError::BufferTooSmall),
        (w != 0 && h != 0 && x + w <= width && y + h <= height && rgba@.len() >= width * height
            * 4) ==> (r matches Ok(v) && v@ == cropped_rows(
            rgba@,
            width as nat,
            x as nat,
            y as nat,
            w as nat,
            h as nat,
        ) && v@.len() == w * h * 4),
{
    if w == 0 || h == 0 {
        return Err(RenderError::EmptyRegion);
    }
    if x as u64 + w as u64 > width as u64 || y as u64 + h as u64 > height as u64 {
        return Err(RenderError::OutOfBounds);
    }
    let len = rgba.len();
    assert((width as u64) * (height as u64) <= u64::MAX) by (nonlinear_arith)
        requires
            width <= u32::MAX,
            height <= u32::MAX,
    ;
    let pixels: u64 = width as u64 * height as u64;
    if pixels > (len / 4) as u64 {
        assert(rgba@.len() < width * height * 4) by (nonlinear_arith)
            requires
                pixels == width * height,
                pixels > len / 4,
                len == rgba@.len(),
        ;
        return Err(RenderError::BufferTooSmall);
    }
    assert(width * height * 4 <= len) by (nonlinear_arith)
        requires
            pixels == width * height,
            pixels <= len / 4,
    ;
    let ghost (wn, xn, yn, cw) = (width as nat, x as nat, y as nat, w as nat);
    let mut out: Vec<u8> = Vec::new();
    let mut r: u32 = 0;
    while r < h
        invariant
            r <= h,
            x + w <= width,
            y + h <= height,
            width * height * 4 <= len,
            len == rgba@.len(),
            wn == width && xn == x && yn == y && cw == w,
            out@ == cropped_rows(rgba@, wn, xn, yn, cw, r as nat),
            out@.len() == r * w * 4,
        decreases h - r,
    {
        let row: u32 = y + r;
        assert(((row + 1) * width) * 4 <= width * height * 4) by (nonlinear_arith)
            requires
                row + 1 <= height,
        ;
        assert((row * width + x + w) * 4 <= ((row + 1) * width) * 4) by (nonlinear_arith)
            requires
                x + w <= width,
        ;
        let start: usize = (row as usize * width as usize + x as usize) * 4;
        let end: usize = start + w as usize * 4;
        assert(end == (row * width + x + w) * 4) by (nonlinear_arith)
            requires
                start == (row * width + x) * 4,
                end == start + w * 4,
        ;
        let ghost before = out@;
        let mut k: usize = start;
        while k < end
            invariant
                start <= k <= end,
                end <= rgba@.len(),
                out@ == before + rgba@.subrange(start as int, k as int),
            decreases end - k,
        {
            out.push(rgba[k]);
            assert(rgba@.subrange(start as int, k + 1) =~= rgba@.subrange(start as int, k as int).push(
                rgba@[k as int],
            ));
            k += 1;
        }
        assert(row_slice(rgba@, wn, xn, cw, row as nat) == rgba@.subrange(start as int, end as int));
        assert(out@.len() == (r + 1) * w * 4) by (nonlinear_arith)
            requires
                out@.len() == r * w * 4 + (end - start),
                end - start == w * 4,
        ;
        assert(out@ == cropped_rows(rgba@, wn, xn, yn, cw, (r + 1) as nat));
        r += 1;
    }
    assert(out@.len() == w * h * 4) by (nonlinear_arith)
        requires
            out@.len() == r * w * 4,
            r == h,
    ;
    Ok(out)
}

/// Scales a raster of the canvas, `CANVAS_SIZE` pixels square, down to the
/// bitmap, `BITMAP_SIZE` pixels square.
pub fn downsample(canvas: Vec<u8>) -> (r: Result<Vec<u8>, RenderError>)
    ensures
        canvas@.len() < CANVAS_SIZE * CANVAS_SIZE * 4 ==> r == Err::<Vec<u8>, RenderError>(
            RenderError::BufferTooSmall,
        ),
        canvas@.len() >= CANVAS_SIZE * CANVAS_SIZE * 4 ==> (r matches Ok(v) && v@ == resized_rgba(
            canvas@,
            CANVAS_SIZE,
            CANVAS_SIZE,
            BITMAP_SIZE,
            BITMAP_SIZE,
        ) && v@.len() == BITMAP_SIZE * BITMAP_SIZE * 4),
{
    if canvas.len() < (CANVAS_SIZE as usize) * (CANVAS_SIZE as usize) * 4 {
        return Err(RenderError::BufferTooSmall);
    }
    let resized = resize_rgba(canvas, CANVAS_SIZE, CANVAS_SIZE, BITMAP_SIZE, BITMAP_SIZE);
    match resized {
        Ok(v) => Ok(v),
        Err(_) => {
            proof {
                assert(resized is Ok);
            }
            Err(RenderError::BufferTooSmall)
        },
    }
}

/// The bitmap of a raster of the window, `width` by `height` pixels, whose top
/// left `CANVAS_SIZE` pixels square are the canvas.
pub open spec fn bitmap_of(rgba: Seq<u8>, width: u32) -> Seq<u8> {
    resized_rgba(
        cropped_rows(rgba, width as nat, 0, 0, CANVAS_SIZE as nat, CANVAS_SIZE as nat),
        CANVAS_SIZE,
        CANVAS_SIZE,
        BITMAP_SIZE,
        BITMAP_SIZE,
    )
}

/// Crops the canvas out of a raster of the window and scales it down to the bitmap.
pub fn render(rgba: &Vec<u8>, width: u32, height: u32) -> (r: Result<Vec<u8>, RenderError>)
    ensures
        (width < CANVAS_SIZE || height < CANVAS_SIZE) ==> r == Err::<Vec<u8>, RenderError>(
            RenderError::OutOfBounds,
        ),
        (width >= CANVAS_SIZE && height >= CANVAS_SIZE && rgba@.len() < width * height * 4) ==> r
            == Err::<Vec<u8>, RenderError>(RenderError::BufferTooSmall),
        (width >= CANVAS_SIZE && height >= CANVAS_SIZE && rgba@.len() >= width * height * 4)
            ==> (r matches Ok(v) && v@ == bitmap_of(rgba@, width) && v@.len() == BITMAP_SIZE
            * BITMAP_SIZE * 4),
{
    let canvas = crop_rgba(rgba, width, height, 0, 0, CANVAS_SIZE, CANVAS_SIZE)?;
    downsample(canvas)
}

/// Rendering is deterministic: two renders of the same raster that succeed give
/// byte-identical bitmaps.
pub proof fn lemma_render_deterministic(rgba: Seq<u8>, width: u32, first: Seq<u8>, second: Seq<u8>)
    requires
        first == bitmap_of(rgba, width),
        second == bitmap_of(rgba, width),
    ensures
        first == second,
{
}

} // verus!
