//! Per-pixel alpha compositing over tightly packed RGBA bytes.
//!
//! A pixel is four consecutive bytes `R, G, B, A`. Compositing walks the
//! overlay and blends its colour channels into the background, weighted by
//! the overlay's alpha; the background's own alpha byte is never touched.

use vstd::prelude::*;

use crate::grid::PixelGrid;

verus! {

/// One output colour channel of standard alpha compositing: the overlay
/// value `o` weighted by the overlay alpha `a` (out of 255) plus the
/// background value `b` weighted by the remainder, truncated toward zero.
pub open spec fn blend_channel(o: u8, b: u8, a: u8) -> u8 {
    (((o as int) * (a as int) + (b as int) * (255 - a as int)) / 255) as u8
}

/// The blended value of a channel never needs more than a byte.
pub proof fn lemma_blend_channel_bounds(o: u8, b: u8, a: u8)
    ensures
        0 <= (o as int) * (a as int) + (b as int) * (255 - a as int) <= 255 * 255,
{
    assert(0 <= (o as int) * (a as int) + (b as int) * (255 - a as int) <= 255 * 255)
        by (nonlinear_arith)
        requires
            0 <= o <= 255,
            0 <= b <= 255,
            0 <= a <= 255,
    ;
}

/// A fully opaque overlay wins the channel outright.
pub proof fn lemma_blend_channel_full_alpha(o: u8, b: u8)
    ensures
        blend_channel(o, b, 255) == o,
{
    assert((o as int) * 255 / 255 == o as int) by (nonlinear_arith);
}

/// A fully transparent overlay leaves the channel untouched.
pub proof fn lemma_blend_channel_zero_alpha(o: u8, b: u8)
    ensures
        blend_channel(o, b, 0) == b,
{
    assert((b as int) * 255 / 255 == b as int) by (nonlinear_arith);
}

fn blend_channel_exec(o: u8, b: u8, a: u8) -> (r: u8)
    ensures
        r == blend_channel(o, b, a),
{
    proof {
        lemma_blend_channel_bounds(o, b, a);
    }
    let num: u32 = (o as u32) * (a as u32) + (b as u32) * (255 - (a as u32));
    (num / 255) as u8
}

/// Byte `j` of the composited image: alpha bytes keep the background's
/// value, colour bytes are blended under the alpha byte of their own
/// pixel.
pub open spec fn composite_byte(bg: Seq<u8>, ov: Seq<u8>, j: int) -> u8
    recommends
        0 <= j < bg.len(),
        bg.len() == ov.len(),
{
    if j % 4 == 3 {
        bg[j]
    } else {
        blend_channel(ov[j], bg[j], ov[4 * (j / 4) + 3])
    }
}

/// The whole composited byte sequence: the overlay blended over the
/// background, pixel by pixel, with the background's alpha bytes kept.
pub open spec fn composite_bytes(bg: Seq<u8>, ov: Seq<u8>) -> Seq<u8>
    recommends
        bg.len() == ov.len(),
{
    Seq::new(bg.len(), |j: int| composite_byte(bg, ov, j))
}

/// Compositing never touches an alpha byte: at every pixel the output
/// alpha equals the background's alpha before the blend.
pub proof fn lemma_composite_keeps_alpha(bg: Seq<u8>, ov: Seq<u8>)
    requires
        bg.len() == ov.len(),
    ensures
        forall|j: int|
            0 <= j < bg.len() && j % 4 == 3 ==> composite_bytes(bg, ov)[j] == bg[j],
{
}

/// A fully opaque overlay wins every colour channel outright: its alpha
/// byte is 255 at every pixel, so every output colour byte equals the
/// overlay's and every output alpha byte equals the background's.
pub proof fn lemma_composite_full_alpha(bg: Seq<u8>, ov: Seq<u8>)
    requires
        bg.len() == ov.len(),
        bg.len() % 4 == 0,
        forall|p: int| 0 <= p < bg.len() / 4 ==> ov[#[trigger] (4 * p + 3)] == 255,
    ensures
        forall|j: int|
            0 <= j < bg.len() && j % 4 != 3 ==> composite_bytes(bg, ov)[j] == ov[j],
        forall|j: int|
            0 <= j < bg.len() && j % 4 == 3 ==> composite_bytes(bg, ov)[j] == bg[j],
{
    assert forall|j: int| 0 <= j < bg.len() && j % 4 != 3 implies composite_bytes(bg, ov)[j]
        == ov[j] by {
        let p = j / 4;
        assert(0 <= p < bg.len() / 4 && 4 * p + 3 < bg.len()) by (nonlinear_arith)
            requires
                0 <= j < bg.len(),
                bg.len() % 4 == 0,
                p == j / 4,
        ;
        assert(ov[4 * p + 3] == 255);
        lemma_blend_channel_full_alpha(ov[j], bg[j]);
    }
}

/// At any single pixel whose overlay alpha byte is 255, compositing
/// replaces the three colour bytes with the overlay's exactly and keeps
/// the background's alpha byte, whatever the other pixels hold.
pub proof fn lemma_composite_pixel_full_alpha(bg: Seq<u8>, ov: Seq<u8>, p: int)
    requires
        bg.len() == ov.len(),
        bg.len() % 4 == 0,
        0 <= p < bg.len() / 4,
        ov[4 * p + 3] == 255,
    ensures
        forall|c: int|
            0 <= c < 3 ==> composite_bytes(bg, ov)[#[trigger] (4 * p + c)] == ov[4 * p + c],
        composite_bytes(bg, ov)[4 * p + 3] == bg[4 * p + 3],
{
    assert(4 * p + 4 <= bg.len()) by (nonlinear_arith)
        requires
            0 <= p < bg.len() / 4,
            bg.len() % 4 == 0,
    ;
    assert forall|c: int| 0 <= c < 3 implies composite_bytes(bg, ov)[#[trigger] (4 * p + c)]
        == ov[4 * p + c] by {
        assert((4 * p + c) % 4 == c && (4 * p + c) / 4 == p) by (nonlinear_arith)
            requires
                0 <= c < 4,
        ;
        lemma_blend_channel_full_alpha(ov[4 * p + c], bg[4 * p + c]);
    }
    assert((4 * p + 3) % 4 == 3) by (nonlinear_arith);
}

/// At any single pixel whose overlay alpha byte is 0, compositing keeps
/// all four background bytes exactly, whatever the other pixels hold.
pub proof fn lemma_composite_pixel_zero_alpha(bg: Seq<u8>, ov: Seq<u8>, p: int)
    requires
        bg.len() == ov.len(),
        bg.len() % 4 == 0,
        0 <= p < bg.len() / 4,
        ov[4 * p + 3] == 0,
    ensures
        forall|c: int|
            0 <= c < 4 ==> composite_bytes(bg, ov)[#[trigger] (4 * p + c)] == bg[4 * p + c],
{
    assert(4 * p + 4 <= bg.len()) by (nonlinear_arith)
        requires
            0 <= p < bg.len() / 4,
            bg.len() % 4 == 0,
    ;
    assert forall|c: int| 0 <= c < 4 implies composite_bytes(bg, ov)[#[trigger] (4 * p + c)]
        == bg[4 * p + c] by {
        assert((4 * p + c) % 4 == c && (4 * p + c) / 4 == p) by (nonlinear_arith)
            requires
                0 <= c < 4,
        ;
        if c != 3 {
            lemma_blend_channel_zero_alpha(ov[4 * p + c], bg[4 * p + c]);
        }
    }
}

/// A fully transparent overlay changes nothing: its alpha byte is 0 at
/// every pixel, so the composited bytes equal the background exactly.
pub proof fn lemma_composite_zero_alpha(bg: Seq<u8>, ov: Seq<u8>)
    requires
        bg.len() == ov.len(),
        bg.len() % 4 == 0,
        forall|p: int| 0 <= p < bg.len() / 4 ==> ov[#[trigger] (4 * p + 3)] == 0,
    ensures
        composite_bytes(bg, ov) =~= bg,
{
    assert forall|j: int| 0 <= j < bg.len() implies composite_bytes(bg, ov)[j] == bg[j] by {
        if j % 4 != 3 {
            let p = j / 4;
            assert(0 <= p < bg.len() / 4 && 4 * p + 3 < bg.len()) by (nonlinear_arith)
                requires
                    0 <= j < bg.len(),
                    bg.len() % 4 == 0,
                    p == j / 4,
            ;
            assert(ov[4 * p + 3] == 0);
            lemma_blend_channel_zero_alpha(ov[j], bg[j]);
        }
    }
}

/// Blends one overlay pixel into the background bytes in place: the three
/// colour bytes starting at `i` are blended under the alpha byte at
/// `i + 3`, which itself stays what it was.
fn apply_overlay(background: &mut Vec<u8>, overlay: &Vec<u8>, i: usize)
    requires
        old(background)@.len() == overlay@.len(),
        i % 4 == 0,
        i + 4 <= overlay@.len(),
    ensures
        final(background)@.len() == old(background)@.len(),
        forall|j: int|
            0 <= j < old(background)@.len() && !(i <= j < i + 3) ==> final(background)@[j]
                == old(background)@[j],
        forall|j: int|
            i <= j < i + 3 ==> final(background)@[j] == blend_channel(
                overlay@[j],
                old(background)@[j],
                overlay@[i + 3],
            ),
{
    let ghost orig = background@;
    let alpha: u8 = overlay[i + 3];
    let mut c: usize = 0;
    while c < 3
        invariant
            c <= 3,
            background@.len() == overlay@.len(),
            background@.len() == orig.len(),
            i % 4 == 0,
            i + 4 <= overlay@.len(),
            alpha == overlay@[i + 3],
            forall|j: int|
                0 <= j < background@.len() && !(i <= j < i + c) ==> background@[j] == orig[j],
            forall|j: int|
                i <= j < i + c ==> background@[j] == blend_channel(
                    overlay@[j],
                    orig[j],
                    overlay@[i + 3],
                ),
        decreases 3 - c,
    {
        let blended = blend_channel_exec(overlay[i + c], background[i + c], alpha);
        background[i + c] = blended;
        c = c + 1;
    }
}

/// Walks the overlay pixel by pixel and blends it into the background in
/// place, leaving exactly the composited byte sequence.
pub fn overlay_image(background: &mut Vec<u8>, overlay: &Vec<u8>)
    requires
        old(background)@.len() == overlay@.len(),
        old(background)@.len() % 4 == 0,
    ensures
        final(background)@ == composite_bytes(old(background)@, overlay@),
{
    let ghost orig = background@;
    let pixels: usize = background.len() / 4;
    let mut p: usize = 0;
    while p < pixels
        invariant
            p <= pixels,
            pixels == orig.len() / 4,
            4 * pixels <= usize::MAX,
            background@.len() == overlay@.len(),
            background@.len() == orig.len(),
            orig.len() % 4 == 0,
            forall|j: int| 4 * p <= j < orig.len() ==> background@[j] == orig[j],
            forall|j: int|
                0 <= j < 4 * p ==> background@[j] == composite_byte(orig, overlay@, j),
        decreases pixels - p,
    {
        proof {
            assert(4 * (p as int) + 4 <= orig.len() && (4 * (p as int)) % 4 == 0)
                by (nonlinear_arith)
                requires
                    0 <= p < pixels,
                    pixels == orig.len() / 4,
                    orig.len() % 4 == 0,
            ;
        }
        let i: usize = 4 * p;
        let ghost pre = background@;
        apply_overlay(background, overlay, i);
        proof {
            assert forall|j: int| 0 <= j < 4 * (p + 1) implies background@[j] == composite_byte(
                orig,
                overlay@,
                j,
            ) by {
                if 4 * p <= j < 4 * p + 3 {
                    assert(j / 4 == p && j % 4 != 3) by (nonlinear_arith)
                        requires
                            4 * p <= j < 4 * p + 3,
                    ;
                    assert(background@[j] == blend_channel(
                        overlay@[j],
                        pre[j],
                        overlay@[4 * (p as int) + 3],
                    ));
                } else if j == 4 * p + 3 {
                    assert(j % 4 == 3) by (nonlinear_arith)
                        requires
                            j == 4 * p + 3,
                    ;
                }
            }
        }
        p = p + 1;
    }
    proof {
        assert(4 * (pixels as int) == orig.len()) by (nonlinear_arith)
            requires
                pixels == orig.len() / 4,
                orig.len() % 4 == 0,
        ;
        assert(background@ =~= composite_bytes(orig, overlay@));
    }
}

/// Composites the overlay grid over the background grid and returns the
/// finished RGBA bytes: colour channels blended under the overlay's
/// alpha, alpha channel kept from the background.
pub fn combine_images(background: PixelGrid, overlay: PixelGrid) -> (r: Vec<u8>)
    requires
        background.wf(),
        overlay.wf(),
        background.width == overlay.width,
        background.height == overlay.height,
    ensures
        r@ == composite_bytes(background.data@, overlay.data@),
        r@.len() == background.data@.len(),
{
    let mut data = background.data;
    proof {
        assert(data@.len() % 4 == 0) by (nonlinear_arith)
            requires
                data@.len() == background.width * background.height * 4,
        ;
    }
    overlay_image(&mut data, &overlay.data);
    data
}

} // verus!
