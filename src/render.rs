//! Turning an iteration matrix into RGB pixels.
//!
//! Matrix row 0 is the bottom of the picture (the start of the imaginary
//! interval), while images are stored top row first, so image row `y` shows
//! matrix row `height - 1 - y`.

use vstd::prelude::*;
use crate::color::{ColorSchemes, MandelRGB};

verus! {

/// A picture in the `image` crate's RGB buffer, kept in `image`.
#[verifier::external_body]
pub struct RgbPicture {
    pub image: image::RgbImage,
}

/// The subpixel bytes that a picture holds, row by row from the top.
pub uninterp spec fn picture_bytes(picture: RgbPicture) -> Seq<u8>;

/// Width and height of a picture.
pub uninterp spec fn picture_size(picture: RgbPicture) -> (u32, u32);

/// Relies on image::ImageBuffer::from_raw: it returns an image of the given
/// size that keeps `raw` as its data when `raw` holds at least
/// `3 * width * height` bytes, and `None` otherwise.
#[verifier::external_body]
fn picture_from_raw(width: u32, height: u32, raw: Vec<u8>) -> (r: Option<RgbPicture>)
    ensures
        r is Some <==> 3 * width * height <= raw@.len(),
        r matches Some(p) ==> picture_bytes(p) == raw@ && picture_size(p) == (width, height),
{
    image::RgbImage::from_raw(width, height, raw).map(|image| RgbPicture { image })
}

/// All rows of `iters` have the length of the first one.
pub open spec fn is_rectangular(iters: Seq<Vec<usize>>) -> bool {
    iters.len() > 0 && forall|i: int| 0 <= i < iters.len() ==> (#[trigger] iters[i])@.len() == iters[0]@.len()
}

/// The colour of pixel `(x, y)` of the image, `y` counted from the top.
pub open spec fn pixel_color<S: MandelRGB>(
    iters: Seq<Vec<usize>>,
    max_iters: nat,
    scheme: S,
    x: int,
    y: int,
) -> (u8, u8, u8) {
    scheme.color_of(iters[iters.len() - 1 - y]@[x] as nat, max_iters)
}

/// Channel `k` (0 red, 1 green, 2 blue) of a colour.
pub open spec fn channel(c: (u8, u8, u8), k: int) -> u8 {
    if k == 0 {
        c.0
    } else if k == 1 {
        c.1
    } else {
        c.2
    }
}

/// `bytes` is the image of `iters`: three bytes per pixel, pixels row by row
/// from the top, left to right.
pub open spec fn is_image_of<S: MandelRGB>(
    bytes: Seq<u8>,
    iters: Seq<Vec<usize>>,
    max_iters: nat,
    scheme: S,
) -> bool {
    let w = iters[0]@.len() as int;
    let h = iters.len() as int;
    &&& bytes.len() == 3 * w * h
    &&& forall|x: int, y: int, k: int|
        0 <= x < w && 0 <= y < h && 0 <= k < 3 ==> #[trigger] bytes[3 * (y * w + x) + k] == channel(
            pixel_color(iters, max_iters, scheme, x, y),
            k,
        )
}

proof fn lemma_pixel_index(w: int, y: int, x: int, y2: int, x2: int)
    requires
        0 <= x < w,
        0 <= x2 <= w,
        0 <= y < y2,
    ensures
        y * w + x < y2 * w + x2,
{
    assert(y * w + w <= y2 * w) by (nonlinear_arith)
        requires
            y < y2,
            0 <= w,
    ;
}

/// The RGB bytes of the image of `iters` under `scheme`.
pub fn render_rgb<S: MandelRGB>(iters: &Vec<Vec<usize>>, max_iters: usize, scheme: &S) -> (bytes: Vec<u8>)
    requires
        is_rectangular(iters@),
        3 * iters@.len() * iters@[0]@.len() <= usize::MAX,
    ensures
        is_image_of(bytes@, iters@, max_iters as nat, *scheme),
{
    let h = iters.len();
    let w = iters[0].len();
    proof {
        assert(3 * h * w == 3 * (h * w)) by (nonlinear_arith);
        assert(h * w == w * h) by (nonlinear_arith);
    }
    let mut bytes: Vec<u8> = Vec::new();
    let mut y: usize = 0;
    while y < h
        invariant
            y <= h,
            h == iters@.len(),
            w == iters@[0]@.len(),
            is_rectangular(iters@),
            bytes@.len() == 3 * (y * w),
            forall|x2: int, y2: int, k: int|
                0 <= x2 < w && 0 <= y2 < y && 0 <= k < 3 ==> #[trigger] bytes@[3 * (y2 * w + x2) + k]
                    == channel(pixel_color(iters@, max_iters as nat, *scheme, x2, y2), k),
        decreases h - y,
    {
        let src = &iters[h - 1 - y];
        let mut x: usize = 0;
        while x < w
            invariant
                y < h,
                x <= w,
                h == iters@.len(),
                w == iters@[0]@.len(),
                is_rectangular(iters@),
                *src == iters@[h - 1 - y],
                bytes@.len() == 3 * (y * w + x),
                forall|x2: int, y2: int, k: int|
                    0 <= x2 < w && 0 <= y2 < y && 0 <= k < 3 ==> #[trigger] bytes@[3 * (y2 * w + x2) + k]
                        == channel(pixel_color(iters@, max_iters as nat, *scheme, x2, y2), k),
                forall|x2: int, k: int|
                    0 <= x2 < x && 0 <= k < 3 ==> #[trigger] bytes@[3 * (y * w + x2) + k] == channel(
                        pixel_color(iters@, max_iters as nat, *scheme, x2, y as int),
                        k,
                    ),
            decreases w - x,
        {
            assert(src@.len() == w);
            let (r, g, b) = scheme.rgb(src[x], max_iters);
            let ghost before = bytes@;
            bytes.push(r);
            bytes.push(g);
            bytes.push(b);
            proof {
                let n = 3 * (y * w + x);
                assert(bytes@.len() == n + 3);
                assert forall|x2: int, y2: int, k: int|
                    0 <= x2 < w && 0 <= y2 < y && 0 <= k < 3 implies #[trigger] bytes@[3 * (y2 * w
                        + x2) + k] == channel(pixel_color(iters@, max_iters as nat, *scheme, x2, y2), k) by {
                    lemma_pixel_index(w as int, y2, x2, y as int, x as int);
                    assert(bytes@[3 * (y2 * w + x2) + k] == before[3 * (y2 * w + x2) + k]);
                }
                assert forall|x2: int, k: int|
                    0 <= x2 < x + 1 && 0 <= k < 3 implies #[trigger] bytes@[3 * (y * w + x2) + k]
                        == channel(pixel_color(iters@, max_iters as nat, *scheme, x2, y as int), k) by {
                    if x2 < x {
                        assert(bytes@[3 * (y * w + x2) + k] == before[3 * (y * w + x2) + k]);
                    }
                }
            }
            x += 1;
        }
        proof {
            assert((y + 1) * w == y * w + w) by (nonlinear_arith);
        }
        y += 1;
    }
    proof {
        assert(3 * (h * w) == 3 * w * h) by (nonlinear_arith);
    }
    bytes
}

/// The image of `iters` in the scheme that `color_schemes` has selected,
/// `max_iters` being the cap the matrix was computed with.
pub fn get_image_buf(
    iters: &Vec<Vec<usize>>,
    max_iters: usize,
    color_schemes: ColorSchemes,
) -> (img: RgbPicture)
    requires
        is_rectangular(iters@),
        iters@.len() <= u32::MAX,
        iters@[0]@.len() <= u32::MAX,
        3 * iters@.len() * iters@[0]@.len() <= usize::MAX,
    ensures
        picture_size(img) == (iters@[0]@.len() as u32, iters@.len() as u32),
        is_image_of(picture_bytes(img), iters@, max_iters as nat, color_schemes.current()),
{
    let scheme = color_schemes.get();
    let bytes = render_rgb(iters, max_iters, scheme);
    let w = iters[0].len() as u32;
    let h = iters.len() as u32;
    proof {
        assert(3 * w * h == 3 * iters@.len() * iters@[0]@.len()) by (nonlinear_arith)
            requires
                w == iters@[0]@.len(),
                h == iters@.len(),
        ;
    }
    picture_from_raw(w, h, bytes).unwrap()
}

} // verus!
