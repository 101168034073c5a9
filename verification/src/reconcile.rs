//! Dimension reconciliation: choosing the common working resolution for
//! two differently sized grids, and resizing the larger one down to it.

use vstd::prelude::*;

use crate::grid::PixelGrid;

verus! {

/// The dimension pair with the smaller pixel count; `dim_2` on a tie.
pub fn min(dim_1: (u32, u32), dim_2: (u32, u32)) -> (r: (u32, u32))
    requires
        dim_1.0 * dim_1.1 <= u32::MAX,
        dim_2.0 * dim_2.1 <= u32::MAX,
    ensures
        r == (if dim_1.0 * dim_1.1 < dim_2.0 * dim_2.1 {
            dim_1
        } else {
            dim_2
        }),
{
    let pix_1: u32 = dim_1.0 * dim_1.1;
    let pix_2: u32 = dim_2.0 * dim_2.1;
    if pix_1 < pix_2 {
        dim_1
    } else {
        dim_2
    }
}

/// The target dimensions reconciliation settles on: those of the grid
/// with the smaller area, the overlay's on a tie.
pub open spec fn target_dims(base: PixelGrid, overlay: PixelGrid) -> (u32, u32) {
    if base.area() < overlay.area() {
        (base.width, base.height)
    } else {
        (overlay.width, overlay.height)
    }
}

/// Reconciliation never upsamples: the target dimensions are those of one
/// of the two inputs, and their area is no larger than either input's.
pub proof fn lemma_target_dims_never_upsample(base: PixelGrid, overlay: PixelGrid)
    ensures
        target_dims(base, overlay) == (base.width, base.height) || target_dims(base, overlay)
            == (overlay.width, overlay.height),
        target_dims(base, overlay).0 * target_dims(base, overlay).1 <= base.area(),
        target_dims(base, overlay).0 * target_dims(base, overlay).1 <= overlay.area(),
{
}

/// The pixels that the codec crate's triangle-filter resampling produces
/// for the given source pixels and the two sizes; a function of its
/// arguments alone.
pub uninterp spec fn resize_pixels(data: Seq<u8>, sw: nat, sh: nat, tw: nat, th: nat) -> Seq<u8>;

/// Relies on `image::DynamicImage::resize_exact` with the
/// `FilterType::Triangle` filter: the result has exactly the requested
/// dimensions (so `width * height * 4` RGBA bytes), and its pixels depend
/// on the source pixels and the two sizes alone.
#[verifier::external_body]
fn resize_grid(grid: &PixelGrid, width: u32, height: u32) -> (r: PixelGrid)
    requires
        grid.wf(),
        width > 0,
        height > 0,
        width * height * 4 <= u32::MAX,
    ensures
        r.width == width,
        r.height == height,
        r.data@.len() == width * height * 4,
        r.data@ == resize_pixels(
            grid.data@,
            grid.width as nat,
            grid.height as nat,
            width as nat,
            height as nat,
        ),
{
    let img = image::RgbaImage::from_raw(grid.width, grid.height, grid.data.clone()).unwrap();
    let resized = image::DynamicImage::ImageRgba8(img)
        .resize_exact(width, height, image::imageops::FilterType::Triangle);
    PixelGrid { width, height, data: resized.to_rgba8().into_raw() }
}

/// Brings two grids to a common size: the smaller-area grid's dimensions
/// become the target, the other grid is resampled down to them, and the
/// pair comes back as `(background, overlay)`.
///
/// The overlay is always one of the inputs unchanged — the one whose
/// dimensions already equal the target — so reconciliation never
/// upsamples; when both inputs already share their dimensions neither is
/// resampled.
pub fn common_denominator(base: PixelGrid, overlay: PixelGrid) -> (r: (PixelGrid, PixelGrid))
    requires
        base.wf(),
        overlay.wf(),
    ensures
        r.0.wf(),
        r.1.wf(),
        (r.0.width, r.0.height) == target_dims(base, overlay),
        (r.1.width, r.1.height) == target_dims(base, overlay),
        (overlay.width, overlay.height) == target_dims(base, overlay) ==> r.1 == overlay
            && (if (base.width, base.height) == target_dims(base, overlay) {
            r.0 == base
        } else {
            r.0.data@ == resize_pixels(
                base.data@,
                base.width as nat,
                base.height as nat,
                target_dims(base, overlay).0 as nat,
                target_dims(base, overlay).1 as nat,
            )
        }),
        (overlay.width, overlay.height) != target_dims(base, overlay) ==> r.1 == base
            && r.0.data@ == resize_pixels(
            overlay.data@,
            overlay.width as nat,
            overlay.height as nat,
            target_dims(base, overlay).0 as nat,
            target_dims(base, overlay).1 as nat,
        ),
{
    let (width, height) = min((base.width, base.height), (overlay.width, overlay.height));

    if overlay.width == width && overlay.height == height {
        if base.width == width && base.height == height {
            (base, overlay)
        } else {
            (resize_grid(&base, width, height), overlay)
        }
    } else {
        (resize_grid(&overlay, width, height), base)
    }
}

} // verus!
