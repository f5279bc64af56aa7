//! Preparation of a decoded panorama for upload as a texture: downscaling
//! to the device's size limit and padding to the 2:1 equirectangular shape.
use vstd::prelude::*;

verus! {

/// An image as rows of RGBA texels, top row first, four bytes per texel.
pub struct PanoramaImage {
    pub width: u32,
    pub height: u32,
    pub data: Vec<u8>,
}

/// Colour of the padding above a short image: opaque black.
pub open spec fn fill_byte(i: int) -> u8 {
    if i % 4 == 3 {
        255u8
    } else {
        0u8
    }
}

/// `n` bytes of padding colour, whole texels when `n` is a multiple of 4.
pub open spec fn fill_bytes(n: nat) -> Seq<u8> {
    Seq::new(n, |i: int| fill_byte(i))
}

/// What Lanczos3 resampling makes of a `width` x `height` RGBA image.
pub uninterp spec fn lanczos3_resampled(
    width: u32,
    height: u32,
    data: Seq<u8>,
    new_width: u32,
    new_height: u32,
) -> Seq<u8>;

/// Whether the image is larger than the device accepts and can be resampled.
pub open spec fn needs_downscale(width: int, height: int, max_dim: int) -> bool {
    (width > max_dim || height > max_dim) && width > 0 && height > 0
}

/// One side scaled by `max_dim / longest`, rounded down, and at least 1.
pub open spec fn scaled_side(side: int, longest: int, max_dim: int) -> int {
    let s = side * max_dim / longest;
    if s < 1 {
        1
    } else {
        s
    }
}

pub open spec fn longest_side(width: int, height: int) -> int {
    if width >= height {
        width
    } else {
        height
    }
}

/// Size after fitting into `max_dim` x `max_dim` with the aspect kept.
pub open spec fn fitted_size(width: int, height: int, max_dim: int) -> (int, int) {
    if needs_downscale(width, height, max_dim) {
        let longest = longest_side(width, height);
        (scaled_side(width, longest, max_dim), scaled_side(height, longest, max_dim))
    } else {
        (width, height)
    }
}

/// Height after padding: half the width when the image is shorter than that.
pub open spec fn padded_height(width: int, height: int) -> int {
    if width / 2 > 0 && height < width / 2 {
        width / 2
    } else {
        height
    }
}

/// Texels after padding: the fill rows on top, then the image unchanged.
pub open spec fn padded_data(width: int, height: int, data: Seq<u8>) -> Seq<u8> {
    fill_bytes((4 * width * (padded_height(width, height) - height)) as nat) + data
}

impl PanoramaImage {
    /// Four bytes for each texel.
    pub open spec fn wf(&self) -> bool {
        &&& self.data@.len() == 4 * self.width * self.height
        &&& 4 * self.width * self.height <= usize::MAX
    }

    /// An image over the given texel bytes, or `None` where their number
    /// is not four per texel.
    pub fn from_rgba(width: u32, height: u32, data: Vec<u8>) -> (r: Option<PanoramaImage>)
        ensures
            r.is_some() <==> data@.len() == 4 * width * height,
            r matches Some(img) ==> img.width == width && img.height == height
                && img.data@ == data@,
    {
        let n = data.len() as u128;
        proof {
            assert(4 * (width as int) * (height as int) <= 4 * (u64::MAX as int)) by (nonlinear_arith)
                requires
                    width <= u32::MAX,
                    height <= u32::MAX,
            ;
        }
        if n == 4 * (width as u128) * (height as u128) {
            Some(PanoramaImage { width, height, data })
        } else {
            None
        }
    }
}

/// Relies on image::imageops::resize with FilterType::Lanczos3: the result
/// is an RGBA buffer of exactly the requested size, whose texels depend on
/// the source and the requested size alone.
#[verifier::external_body]
fn resample_lanczos3(img: &PanoramaImage, new_width: u32, new_height: u32) -> (r: PanoramaImage)
    requires
        img.wf(),
        img.width >= 1,
        img.height >= 1,
        new_width >= 1,
        new_height >= 1,
        4 * new_width * new_height <= usize::MAX,
    ensures
        r.width == new_width,
        r.height == new_height,
        r.data@ == lanczos3_resampled(img.width, img.height, img.data@, new_width, new_height),
        r.data@.len() == 4 * new_width * new_height,
{
    let src = image::RgbaImage::from_raw(img.width, img.height, img.data.clone()).unwrap();
    let out = image::imageops::resize(&src, new_width, new_height, image::imageops::FilterType::Lanczos3);
    PanoramaImage { width: new_width, height: new_height, data: out.into_raw() }
}

proof fn lemma_mul_mono(a: int, b: int, c: int, d: int)
    by (nonlinear_arith)
    requires
        0 <= a <= b,
        0 <= c <= d,
    ensures
        a * c <= b * d,
{
}

proof fn lemma_scaled_side_bounds(side: int, longest: int, max_dim: int)
    requires
        1 <= side <= longest,
        1 <= max_dim < longest,
    ensures
        1 <= scaled_side(side, longest, max_dim) <= side,
        scaled_side(side, longest, max_dim) <= max_dim,
        side == longest ==> scaled_side(side, longest, max_dim) == max_dim,
{
    lemma_mul_mono(side, side, max_dim, longest);
    lemma_mul_mono(side, longest, max_dim, max_dim);
    vstd::arithmetic::mul::lemma_mul_is_commutative(side, max_dim);
    vstd::arithmetic::div_mod::lemma_div_is_ordered(side * max_dim, side * longest, longest);
    vstd::arithmetic::div_mod::lemma_div_is_ordered(side * max_dim, longest * max_dim, longest);
    vstd::arithmetic::mul::lemma_mul_is_commutative(max_dim, longest);
    vstd::arithmetic::div_mod::lemma_div_by_multiple(side, longest);
    vstd::arithmetic::div_mod::lemma_div_by_multiple(max_dim, longest);
}

/// The size that an image of `width` x `height` texels is resampled to so
/// that neither side exceeds `max_dim`; the longer side becomes exactly
/// `max_dim`, the shorter is scaled by the same ratio, rounded down.
pub fn fitted_dimensions(width: u32, height: u32, max_dim: u32) -> (r: (u32, u32))
    requires
        max_dim >= 1,
    ensures
        (r.0 as int, r.1 as int) == fitted_size(width as int, height as int, max_dim as int),
        r.0 <= max_dim || r.0 == width,
        r.1 <= max_dim || r.1 == height,
{
    if (width > max_dim || height > max_dim) && width > 0 && height > 0 {
        let longest: u32 = if width >= height { width } else { height };
        proof {
            lemma_scaled_side_bounds(width as int, longest as int, max_dim as int);
            lemma_scaled_side_bounds(height as int, longest as int, max_dim as int);
        }
        proof {
            lemma_mul_mono(width as int, u32::MAX as int, max_dim as int, u32::MAX as int);
            lemma_mul_mono(height as int, u32::MAX as int, max_dim as int, u32::MAX as int);
        }
        let w = (width as u64) * (max_dim as u64) / (longest as u64);
        let h = (height as u64) * (max_dim as u64) / (longest as u64);
        let w: u32 = if w < 1 { 1 } else { w as u32 };
        let h: u32 = if h < 1 { 1 } else { h as u32 };
        (w, h)
    } else {
        (width, height)
    }
}

/// Embeds an image that is less than half as tall as it is wide at the
/// bottom of a canvas of `width` x `width / 2` texels whose upper rows are
/// opaque black, so that row 0 stays the north pole. Any other image is
/// returned unchanged.
pub fn pad_to_equirect(img: PanoramaImage) -> (r: PanoramaImage)
    requires
        img.wf(),
        4 * img.width * (img.width / 2) <= usize::MAX,
    ensures
        r.wf(),
        r.width == img.width,
        r.height == padded_height(img.width as int, img.height as int),
        r.data@ == padded_data(img.width as int, img.height as int, img.data@),
{
    let target_h = img.width / 2;
    if target_h > 0 && img.height < target_h {
        proof {
            assert(4 * img.width * (target_h - img.height) + 4 * img.width * img.height
                == 4 * img.width * target_h) by (nonlinear_arith);
            lemma_mul_mono(4 * img.width, 4 * img.width, 1, target_h - img.height);
            lemma_mul_mono(4 * img.width, 4 * img.width, target_h - img.height, target_h as int);
        }
        let n: usize = 4 * (img.width as usize) * ((target_h - img.height) as usize);
        let mut data: Vec<u8> = Vec::new();
        let mut i: usize = 0;
        while i < n
            invariant
                i <= n,
                data@ == fill_bytes(i as nat),
            decreases n - i,
        {
            if i % 4 == 3 {
                data.push(255u8);
            } else {
                data.push(0u8);
            }
            i = i + 1;
            assert(data@ =~= fill_bytes(i as nat));
        }
        let mut j: usize = 0;
        while j < img.data.len()
            invariant
                j <= img.data@.len(),
                data@ == fill_bytes(n as nat) + img.data@.subrange(0, j as int),
            decreases img.data@.len() - j,
        {
            data.push(img.data[j]);
            j = j + 1;
            assert(data@ =~= fill_bytes(n as nat) + img.data@.subrange(0, j as int));
        }
        assert(img.data@.subrange(0, img.data@.len() as int) =~= img.data@);
        PanoramaImage { width: img.width, height: target_h, data }
    } else {
        assert(fill_bytes(0) + img.data@ =~= img.data@);
        img
    }
}

/// The texel bytes that `prepare_panorama` makes of an image.
pub open spec fn prepared_data(img: PanoramaImage, max_dim: int) -> Seq<u8> {
    let (w, h) = fitted_size(img.width as int, img.height as int, max_dim);
    let fitted = if needs_downscale(img.width as int, img.height as int, max_dim) {
        lanczos3_resampled(img.width, img.height, img.data@, w as u32, h as u32)
    } else {
        img.data@
    };
    padded_data(w, h, fitted)
}

/// Turns a decoded image into the texture that is uploaded: resampled with
/// Lanczos3 to fit `max_dim` x `max_dim` where it is larger, then padded
/// at the top to the 2:1 equirectangular shape where it is too short.
pub fn prepare_panorama(img: PanoramaImage, max_dim: u32) -> (r: PanoramaImage)
    requires
        img.wf(),
        max_dim >= 1,
        4 * img.width * (img.width / 2) <= usize::MAX,
    ensures
        r.wf(),
        r.width == fitted_size(img.width as int, img.height as int, max_dim as int).0,
        r.height == padded_height(
            fitted_size(img.width as int, img.height as int, max_dim as int).0,
            fitted_size(img.width as int, img.height as int, max_dim as int).1,
        ),
        r.data@ == prepared_data(img, max_dim as int),
        r.width <= max_dim || r.width == img.width,
        img.width <= max_dim && img.height <= max_dim ==> r.width == img.width
            && r.data@ == padded_data(img.width as int, img.height as int, img.data@),
        needs_downscale(img.width as int, img.height as int, max_dim as int) ==> r.width
            <= max_dim && r.height <= max_dim,
{
    let ghost w = img.width as int;
    let ghost h = img.height as int;
    let (fw, fh) = fitted_dimensions(img.width, img.height, max_dim);
    let fitted = if fw != img.width || fh != img.height {
        proof {
            assert(needs_downscale(w, h, max_dim as int));
            let longest = longest_side(w, h);
            lemma_scaled_side_bounds(w, longest, max_dim as int);
            lemma_scaled_side_bounds(h, longest, max_dim as int);
            lemma_mul_mono(4 * fw, 4 * w, fh as int, h);
            lemma_mul_mono(4 * fw, 4 * w, fw as int / 2, w / 2);
        }
        resample_lanczos3(&img, fw, fh)
    } else {
        proof {
            if needs_downscale(w, h, max_dim as int) {
                let longest = longest_side(w, h);
                lemma_scaled_side_bounds(longest, longest, max_dim as int);
            }
        }
        img
    };
    pad_to_equirect(fitted)
}

} // verus!
