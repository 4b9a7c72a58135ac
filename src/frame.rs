use vstd::prelude::*;

use crate::hit::{nearest_of, Hit};

verus! {

/// Why a render is refused at its entry.
#[derive(Clone, Copy, Debug, PartialEq, Eq, Structural)]
pub enum RenderError {
    /// The raster is narrower or lower than two pixels.
    RasterTooSmall,
    /// The raster's framebuffer is too large to address.
    RasterTooLarge,
    /// The ambient-occlusion sample count is zero.
    NoSamples,
    /// The hits or shades do not give one entry per pixel.
    SizeMismatch,
}

/// The colour of one pixel: black for a miss, else its shade.
pub open spec fn pixel_of(h: Hit, shade: (u8, u8, u8)) -> (u8, u8, u8) {
    if h.is_miss_spec() {
        (0, 0, 0)
    } else {
        shade
    }
}

/// Channel `c` (0 red, 1 green, 2 blue) of a pixel.
pub open spec fn channel(p: (u8, u8, u8), c: int) -> u8 {
    if c == 0 {
        p.0
    } else if c == 1 {
        p.1
    } else {
        p.2
    }
}

/// The framebuffer of a traced and shaded raster: three bytes (red, green,
/// blue) per pixel, in the pixel order of the hits.
pub open spec fn frame_spec(hits: Seq<Hit>, shades: Seq<(u8, u8, u8)>) -> Seq<u8> {
    Seq::new(3 * hits.len(), |k: int| channel(pixel_of(hits[k / 3], shades[k / 3]), k % 3))
}

/// The framebuffer of a `w` by `h` raster, three bytes per pixel, fits in
/// memory.
pub open spec fn raster_fits(w: u32, h: u32) -> bool {
    3 * w as int * h as int <= usize::MAX
}

/// Computes [`raster_fits`].
fn fits(w: u32, h: u32) -> (r: bool)
    ensures
        r == raster_fits(w, h),
{
    proof {
        assert(3 * w as int * h as int <= 3 * u32::MAX as int * u32::MAX as int)
            by (nonlinear_arith)
            requires w <= u32::MAX, h <= u32::MAX;
    }
    3 * (w as u128) * (h as u128) <= usize::MAX as u128
}

/// Accepts a raster of at least two by two pixels whose framebuffer fits in
/// memory, and a positive sample count; the camera's ray generation divides
/// by one less than each side.
pub fn validate(screen_width: u32, screen_height: u32, ao_samples: u32) -> (r: Result<
    (),
    RenderError,
>)
    ensures
        (screen_width < 2 || screen_height < 2) ==> r == Err::<(), RenderError>(
            RenderError::RasterTooSmall,
        ),
        (screen_width >= 2 && screen_height >= 2 && !raster_fits(screen_width, screen_height))
            ==> r == Err::<(), RenderError>(RenderError::RasterTooLarge),
        (screen_width >= 2 && screen_height >= 2 && raster_fits(screen_width, screen_height)
            && ao_samples == 0) ==> r == Err::<(), RenderError>(RenderError::NoSamples),
        (screen_width >= 2 && screen_height >= 2 && raster_fits(screen_width, screen_height)
            && ao_samples > 0) ==> r == Ok::<(), RenderError>(()),
{
    if screen_width < 2 || screen_height < 2 {
        Err(RenderError::RasterTooSmall)
    } else if !fits(screen_width, screen_height) {
        Err(RenderError::RasterTooLarge)
    } else if ao_samples == 0 {
        Err(RenderError::NoSamples)
    } else {
        Ok(())
    }
}

/// Builds the framebuffer of a `screen_width` by `screen_height` raster from
/// the primary hit of each pixel and the shade computed for it, rows first
/// from row 0: a missed pixel is black, any other takes its shade.
pub fn render(
    screen_width: u32,
    screen_height: u32,
    hits: &Vec<Hit>,
    shades: &Vec<(u8, u8, u8)>,
) -> (r: Result<Vec<u8>, RenderError>)
    ensures
        (screen_width < 2 || screen_height < 2) ==> r == Err::<Vec<u8>, RenderError>(
            RenderError::RasterTooSmall,
        ),
        (screen_width >= 2 && screen_height >= 2 && !raster_fits(screen_width, screen_height))
            ==> r == Err::<Vec<u8>, RenderError>(RenderError::RasterTooLarge),
        (screen_width >= 2 && screen_height >= 2 && raster_fits(screen_width, screen_height) && (
        hits@.len() != screen_width as int * screen_height as int || shades@.len()
            != hits@.len())) ==> r == Err::<Vec<u8>, RenderError>(RenderError::SizeMismatch),
        (screen_width >= 2 && screen_height >= 2 && raster_fits(screen_width, screen_height)
            && hits@.len() == screen_width as int * screen_height as int && shades@.len()
            == hits@.len()) ==> (r is Ok && r->Ok_0@ == frame_spec(hits@, shades@)),
{
    if screen_width < 2 || screen_height < 2 {
        return Err(RenderError::RasterTooSmall);
    }
    if !fits(screen_width, screen_height) {
        return Err(RenderError::RasterTooLarge);
    }
    proof {
        assert(screen_width as int * screen_height as int <= 3 * screen_width as int
            * screen_height as int) by (nonlinear_arith)
            requires screen_width >= 0, screen_height >= 0;
    }
    let pixels: usize = screen_width as usize * screen_height as usize;
    if hits.len() != pixels || shades.len() != hits.len() {
        return Err(RenderError::SizeMismatch);
    }
    proof {
        assert(3 * (screen_width as int * screen_height as int) == 3 * screen_width as int
            * screen_height as int) by (nonlinear_arith);
    }
    let mut framebuffer: Vec<u8> = Vec::new();
    let mut i: usize = 0;
    while i < hits.len()
        invariant
            i <= hits@.len(),
            shades@.len() == hits@.len(),
            3 * hits@.len() <= usize::MAX,
            framebuffer@.len() == 3 * i,
            forall|k: int|
                0 <= k < 3 * i ==> #[trigger] framebuffer@[k] == channel(
                    pixel_of(hits@[k / 3], shades@[k / 3]),
                    k % 3,
                ),
        decreases hits@.len() - i,
    {
        let p: (u8, u8, u8) = if hits[i].is_miss() {
            (0, 0, 0)
        } else {
            shades[i]
        };
        framebuffer.push(p.0);
        framebuffer.push(p.1);
        framebuffer.push(p.2);
        proof {
            let b = 3 * i as int;
            assert(b / 3 == i && b % 3 == 0);
            assert((b + 1) / 3 == i && (b + 1) % 3 == 1);
            assert((b + 2) / 3 == i && (b + 2) % 3 == 2);
        }
        i = i + 1;
    }
    proof {
        assert(framebuffer@ =~= frame_spec(hits@, shades@));
    }
    Ok(framebuffer)
}

/// With no primitive in the scene every ray casts to the miss, and every
/// pixel of the framebuffer is black.
pub proof fn lemma_empty_scene_is_black(hits: Seq<Hit>, shades: Seq<(u8, u8, u8)>)
    requires
        shades.len() == hits.len(),
        forall|i: int| 0 <= i < hits.len() ==> #[trigger] hits[i] == nearest_of(Seq::<Hit>::empty()),
    ensures
        forall|k: int| 0 <= k < 3 * hits.len() ==> #[trigger] frame_spec(hits, shades)[k] == 0,
{
    assert forall|k: int| 0 <= k < 3 * hits.len() implies #[trigger] frame_spec(hits, shades)[k]
        == 0 by {
        assert(hits[k / 3] == nearest_of(Seq::<Hit>::empty()));
    }
}

} // verus!
