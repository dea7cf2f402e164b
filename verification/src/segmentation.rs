//! Silhouette-mask scanning: the width of the body at one row of a binary mask.

use crate::photo::{photo_dimensions, Photo};
use image::GrayImage;
use vstd::prelude::*;

verus! {

/// Side, in pixels, of the square grid on which the segmentation model decides.
pub const U2NET_SIZE: u32 = 320;

/// A binary body-silhouette mask: a grayscale image in which the body is bright.
#[verifier::external_body]
pub struct BodyMask {
    image: GrayImage,
}

/// The samples of a mask: its image's data buffer, one byte per pixel, row by row.
pub uninterp spec fn mask_samples(mask: BodyMask) -> Seq<u8>;

/// The width and height that a mask's image was made with.
pub uninterp spec fn mask_dimensions(mask: BodyMask) -> (u32, u32);

/// The samples of a one-channel image of dimensions `dims` with samples `samples` after
/// `DynamicImage::resize_exact` to `new_dims` with the nearest-neighbour filter.
pub uninterp spec fn nearest_resized(samples: Seq<u8>, dims: (u32, u32), new_dims: (u32, u32)) -> Seq<u8>;

/// The value is one of the samples of an image of dimensions `dims`.
pub open spec fn is_copied_sample(v: u8, samples: Seq<u8>, dims: (u32, u32)) -> bool {
    exists|j: int| 0 <= j < dims.0 * dims.1 && v == #[trigger] samples[j]
}

impl BodyMask {
    /// Calls `ImageBuffer::from_raw`, which keeps the buffer as the image's data when it
    /// holds at least `width * height` one-byte samples (a product that must fit in
    /// `usize`), and returns `None` otherwise.
    #[verifier::external_body]
    fn from_raw(width: u32, height: u32, samples: Vec<u8>) -> (mask: Option<BodyMask>)
        ensures
            mask is Some <==> (width * height <= usize::MAX && width * height <= samples@.len()),
            mask matches Some(m) ==> mask_samples(m) == samples@ && mask_dimensions(m) == (
                width,
                height,
            ),
    {
        GrayImage::from_raw(width, height, samples).map(|image| BodyMask { image })
    }

    /// Calls `ImageBuffer::dimensions`, which returns the width and height stored in the
    /// image. Claims as well that the data buffer holds at least `width * height` samples,
    /// which every constructor of `ImageBuffer` checks (`from_raw` refuses a shorter buffer).
    #[verifier::external_body]
    fn image_dimensions(&self) -> (d: (u32, u32))
        ensures
            d == mask_dimensions(*self),
            mask_samples(*self).len() >= d.0 * d.1,
    {
        self.image.dimensions()
    }

    /// Calls `DynamicImage::resize_exact` with `FilterType::Nearest` on the mask's image and
    /// takes the grayscale image back. The result is a new buffer of exactly
    /// `width * height` samples (`ImageBuffer::new` panics when that product overflows
    /// `usize`, which `requires` rules out). An image without pixels gives zeros. Otherwise
    /// each output sample is a copy of one source sample: the box kernel with zero support
    /// reads a window of exactly one source pixel per output pixel, with weight 1. When the
    /// dimensions do not change the result is a copy of the first `width * height` samples.
    /// Which source pixel each output pixel copies is named, not stated.
    #[verifier::external_body]
    fn resized(&self, width: u32, height: u32) -> (out: BodyMask)
        requires
            width * height <= usize::MAX,
        ensures
            mask_dimensions(out) == (width, height),
            mask_samples(out) == nearest_resized(
                mask_samples(*self),
                mask_dimensions(*self),
                (width, height),
            ),
            mask_samples(out).len() == width * height,
            mask_dimensions(*self) == (width, height) ==> mask_samples(out) == mask_samples(
                *self,
            ).take(width * height),
            forall|i: int|
                (mask_dimensions(*self).0 == 0 || mask_dimensions(*self).1 == 0) && 0 <= i < width
                    * height ==> #[trigger] mask_samples(out)[i] == 0,
            forall|i: int|
                mask_dimensions(*self).0 > 0 && mask_dimensions(*self).1 > 0 && 0 <= i < width
                    * height ==> is_copied_sample(mask_samples(out)[i], mask_samples(*self), mask_dimensions(*self)),
    {
        let image = image::DynamicImage::ImageLuma8(self.image.clone()).resize_exact(
            width,
            height,
            image::imageops::FilterType::Nearest,
        ).into_luma8();
        BodyMask { image }
    }

    /// A mask of `width` by `height` pixels with the given samples, row by row; `None`
    /// unless there is exactly one sample per pixel.
    pub fn from_samples(width: u32, height: u32, samples: Vec<u8>) -> (mask: Option<BodyMask>)
        ensures
            mask is Some <==> samples@.len() == width * height,
            mask matches Some(m) ==> mask_samples(m) == samples@ && mask_dimensions(m) == (
                width,
                height,
            ),
    {
        proof {
            assert(width * height <= 0xffff_ffff * 0xffff_ffff) by (nonlinear_arith)
                requires
                    width <= 0xffff_ffff,
                    height <= 0xffff_ffff,
            ;
        }
        if (width as u64) * (height as u64) == samples.len() as u64 {
            BodyMask::from_raw(width, height, samples)
        } else {
            None
        }
    }

    /// The width and height of the mask.
    pub fn dimensions(&self) -> (d: (u32, u32))
        ensures
            d == mask_dimensions(*self),
    {
        self.image_dimensions()
    }

    /// Calls `ImageBuffer::get_pixel` and takes the pixel's one channel: the sample at index
    /// `y * width + x` of the data buffer, the row-major layout that `get_pixel` reads for a
    /// one-channel pixel. `get_pixel` panics outside the image, which `requires` rules out.
    #[verifier::external_body]
    fn sample(&self, x: u32, y: u32) -> (v: u8)
        requires
            x < mask_dimensions(*self).0,
            y < mask_dimensions(*self).1,
        ensures
            v == mask_samples(*self)[y * mask_dimensions(*self).0 + x],
    {
        self.image.get_pixel(x, y)[0]
    }
}

/// The samples of a binary mask with one sample per flag among the first `n`: 255 for a
/// body pixel, 0 for background.
pub open spec fn binary_samples(body: Seq<bool>, n: nat) -> Seq<u8> {
    Seq::new(n, |i: int| if body[i] { 255u8 } else { 0u8 })
}

/// The body silhouette at the photo's resolution, from the segmentation model's decision for
/// each pixel of its `grid` by `grid` input (row by row, `true` for body): a binary mask of
/// that grid, 255 on the body and 0 elsewhere, resized to the photo's size with the
/// nearest-neighbour filter. Every sample of the result is 255 (body) or 0 (background).
pub fn silhouette_mask(grid: u32, body: &Vec<bool>, photo: &Photo) -> (mask: BodyMask)
    requires
        grid * grid <= usize::MAX,
        body@.len() >= grid * grid,
        photo_dimensions(*photo).0 * photo_dimensions(*photo).1 <= usize::MAX,
    ensures
        mask_dimensions(mask) == photo_dimensions(*photo),
        forall|i: int|
            0 <= i < mask_dimensions(mask).0 * mask_dimensions(mask).1 ==> #[trigger] mask_samples(
                mask,
            )[i] == 0 || mask_samples(mask)[i] == 255,
        mask_samples(mask) == nearest_resized(
            binary_samples(body@, (grid * grid) as nat),
            (grid, grid),
            photo_dimensions(*photo),
        ),
        photo_dimensions(*photo) == (grid, grid) ==> mask_samples(mask) == binary_samples(
            body@,
            (grid * grid) as nat,
        ),
{
    let (width, height) = photo.dimensions();
    let n = grid as usize * grid as usize;
    let mut samples: Vec<u8> = Vec::with_capacity(n);
    let mut i: usize = 0;
    while i < n
        invariant
            n == grid * grid,
            n <= body@.len(),
            i <= n,
            samples@ == binary_samples(body@, i as nat),
        decreases n - i,
    {
        samples.push(if body[i] { 255u8 } else { 0u8 });
        i = i + 1;
        assert(samples@ =~= binary_samples(body@, i as nat));
    }
    let grid_mask = BodyMask::from_raw(grid, grid, samples).unwrap();
    let mask = grid_mask.resized(width, height);
    assert forall|i: int|
        0 <= i < width * height implies #[trigger] mask_samples(mask)[i] == 0 || mask_samples(
            mask,
        )[i] == 255 by {
        if grid > 0 {
            assert(is_copied_sample(mask_samples(mask)[i], mask_samples(grid_mask), (grid, grid)));
            let j = choose|j: int|
                0 <= j < grid * grid && mask_samples(mask)[i] == #[trigger] mask_samples(grid_mask)[j];
            assert(mask_samples(grid_mask)[j] == binary_samples(body@, (grid * grid) as nat)[j]);
        }
    }
    mask
}

/// Reading a binary mask back: a pixel of the mask built from the model's decisions is on
/// the body exactly when the decision for it was body.
pub proof fn lemma_binary_mask_reads_back(body: Seq<bool>, width: int, height: int, row: int, x: int)
    requires
        0 <= row < height,
        0 <= x < width,
        body.len() >= width * height,
    ensures
        on_body(binary_samples(body, (width * height) as nat), width, row, x) == body[row * width + x],
{
    assert(0 <= row * width + x < width * height) by (nonlinear_arith)
        requires
            0 <= row < height,
            0 <= x < width,
    ;
}

/// Whether pixel `x` of row `row` belongs to the body: its sample is above 127.
pub open spec fn on_body(samples: Seq<u8>, width: int, row: int, x: int) -> bool {
    samples[row * width + x] > 127
}

/// The row actually scanned for a requested row: the last row when the request lies below
/// the image.
pub open spec fn scanned_row(row: u32, height: u32) -> int {
    if row < height {
        row as int
    } else {
        height - 1
    }
}

/// `px` is the body width of the row: the distance from the leftmost to the rightmost body
/// pixel, or 0 when the row holds no body pixel.
pub open spec fn is_row_width(samples: Seq<u8>, width: int, row: int, px: int) -> bool {
    ||| (forall|x: int| 0 <= x < width ==> !#[trigger] on_body(samples, width, row, x)) && px == 0
    ||| exists|l: int, r: int|
        {
            &&& 0 <= l <= r < width
            &&& on_body(samples, width, row, l)
            &&& on_body(samples, width, row, r)
            &&& forall|x: int|
                0 <= x < width && #[trigger] on_body(samples, width, row, x) ==> l <= x <= r
            &&& px == r - l
        }
}

/// The row that `width_at_row` scans is the requested row clamped to the last row of the
/// mask: `min(row, height - 1)`. So a request at or below the bottom reads the same width as
/// a request for the last row, and a request inside the mask reads its own row.
pub proof fn lemma_scanned_row_clamps(samples: Seq<u8>, width: int, row: u32, height: u32, px: int)
    requires
        height > 0,
    ensures
        row < height ==> scanned_row(row, height) == row,
        row >= height ==> scanned_row(row, height) == height - 1,
        row >= height ==> (is_row_width(samples, width, scanned_row(row, height), px)
            <==> is_row_width(samples, width, height - 1, px)),
        0 <= scanned_row(row, height) < height,
{
}

/// Sample `x` of row `row` of a row-major image `width` samples wide.
pub open spec fn pixel(samples: Seq<u8>, width: int, row: int, x: int) -> u8 {
    samples[row * width + x]
}

/// What the body width of a row says about the row's samples: every pair of samples above
/// 127 in the row lies at most `px` apart; when `px > 0` the row has samples above 127 exactly
/// `px` apart; and a row with no sample above 127 has width 0.
pub proof fn lemma_row_width_meaning(samples: Seq<u8>, width: int, row: int, px: int)
    requires
        is_row_width(samples, width, row, px),
    ensures
        forall|a: int, b: int|
            0 <= a <= b < width && #[trigger] pixel(samples, width, row, a) > 127
                && #[trigger] pixel(samples, width, row, b) > 127 ==> b - a <= px,
        px > 0 ==> exists|a: int|
            0 <= a && a + px < width && #[trigger] pixel(samples, width, row, a) > 127 && pixel(
                samples,
                width,
                row,
                a + px,
            ) > 127,
        (forall|x: int| 0 <= x < width ==> #[trigger] pixel(samples, width, row, x) <= 127) ==> px == 0,
        px >= 0,
{
    if exists|x: int| 0 <= x < width && on_body(samples, width, row, x) {
        let x = choose|x: int| 0 <= x < width && on_body(samples, width, row, x);
        let (l, r) = choose|l: int, r: int|
            {
                &&& 0 <= l <= r < width
                &&& on_body(samples, width, row, l)
                &&& on_body(samples, width, row, r)
                &&& forall|y: int|
                    0 <= y < width && #[trigger] on_body(samples, width, row, y) ==> l <= y <= r
                &&& px == r - l
            };
        assert forall|a: int, b: int|
            0 <= a <= b < width && #[trigger] pixel(samples, width, row, a) > 127
                && #[trigger] pixel(samples, width, row, b) > 127 implies b - a <= px by {
            assert(on_body(samples, width, row, a));
            assert(on_body(samples, width, row, b));
        }
        assert(on_body(samples, width, row, l));
        assert(l + px == r);
        assert(pixel(samples, width, row, l) > 127 && pixel(samples, width, row, l + px) > 127);
        assert(pixel(samples, width, row, x) > 127);
    } else {
        assert(px == 0) by {
            if !(forall|y: int| 0 <= y < width ==> !#[trigger] on_body(samples, width, row, y)) {
                let y = choose|y: int| 0 <= y < width && on_body(samples, width, row, y);
                assert(false);
            }
        }
        assert forall|a: int, b: int|
            0 <= a <= b < width && #[trigger] pixel(samples, width, row, a) > 127
                && #[trigger] pixel(samples, width, row, b) > 127 implies b - a <= px by {
            assert(on_body(samples, width, row, a));
        }
    }
}

/// The width in pixels of the body silhouette at row `row` of the mask (clamped to the last
/// row): the distance from the leftmost to the rightmost pixel above 127, or 0 when there is
/// none.
pub fn width_at_row(mask: &BodyMask, row: u32) -> (px: u32)
    requires
        mask_dimensions(*mask).1 > 0,
    ensures
        px < mask_dimensions(*mask).0 || px == 0,
        is_row_width(
            mask_samples(*mask),
            mask_dimensions(*mask).0 as int,
            scanned_row(row, mask_dimensions(*mask).1),
            px as int,
        ),
{
    let (w, h) = mask.image_dimensions();
    let row = if row < h - 1 { row } else { h - 1 };
    let ghost samples = mask_samples(*mask);
    let mut left = w;
    let mut right: u32 = 0;
    let mut found = false;
    let mut x: u32 = 0;
    while x < w
        invariant
            w == mask_dimensions(*mask).0,
            h == mask_dimensions(*mask).1,
            row < h,
            samples == mask_samples(*mask),
            x <= w,
            found <==> exists|k: int| 0 <= k < x && #[trigger] on_body(samples, w as int, row as int, k),
            !found ==> left == w && right == 0,
            found ==> {
                &&& left <= right < x
                &&& on_body(samples, w as int, row as int, left as int)
                &&& on_body(samples, w as int, row as int, right as int)
                &&& forall|k: int|
                    0 <= k < x && #[trigger] on_body(samples, w as int, row as int, k) ==> left <= k <= right
            },
        decreases w - x,
    {
        if mask.sample(x, row) > 127 {
            assert(on_body(samples, w as int, row as int, x as int));
            if x < left {
                left = x;
            }
            if x > right {
                right = x;
            }
            found = true;
        }
        x = x + 1;
    }
    if found {
        right - left
    } else {
        0
    }
}

} // verus!
