//! Decoded frames: RGBA samples in row-major order, and the crop of one.
use vstd::prelude::*;
use crate::crop::CropRectParams;
use crate::crop::CropSkip;

verus! {

/// What a frame is: its size in pixels and its samples, row by row, four
/// per pixel.
pub struct FrameView {
    pub width: u32,
    pub height: u32,
    pub pixels: Seq<u8>,
}

/// A decoded image with 8-bit RGBA pixels.
pub struct Frame {
    width: u32,
    height: u32,
    pixels: Vec<u8>,
}

/// Position of a sample in a row-major RGBA buffer of the given width.
pub open spec fn sample_index(width: int, col: int, row: int, channel: int) -> int {
    (row * width + col) * 4 + channel
}

/// `out` holds exactly the pixels of `rect` taken from a buffer `src` of
/// width `src_width`: pixel `(col, row)` of `out` is pixel
/// `(rect.x + col, rect.y + row)` of `src`.
pub open spec fn is_crop(out: Seq<u8>, src: Seq<u8>, src_width: int, rect: CropRectParams) -> bool {
    &&& out.len() == 4 * rect.width * rect.height
    &&& forall|col: int, row: int, channel: int|
        0 <= col < rect.width && 0 <= row < rect.height && 0 <= channel < 4 ==> out[#[trigger] sample_index(
            rect.width as int,
            col,
            row,
            channel,
        )] == src[sample_index(src_width, rect.x + col, rect.y + row, channel)]
}

/// A crop is determined by its source and rectangle: two buffers that
/// both hold the pixels of `rect` are equal.
pub proof fn lemma_crop_is_unique(
    a: Seq<u8>,
    b: Seq<u8>,
    src: Seq<u8>,
    src_width: int,
    rect: CropRectParams,
)
    requires
        is_crop(a, src, src_width, rect),
        is_crop(b, src, src_width, rect),
    ensures
        a == b,
{
    let w = rect.width as int;
    let h = rect.height as int;
    assert forall|k: int| 0 <= k < a.len() implies a[k] == b[k] by {
        let pixel = k / 4;
        let channel = k % 4;
        assert(w > 0 && pixel < w * h) by (nonlinear_arith)
            requires
                0 <= k < 4 * w * h,
                0 <= w,
                0 <= h,
                pixel == k / 4,
        ;
        let col = pixel % w;
        let row = pixel / w;
        vstd::arithmetic::div_mod::lemma_fundamental_div_mod(pixel, w);
        vstd::arithmetic::div_mod::lemma_mod_pos_bound(pixel, w);
        vstd::arithmetic::div_mod::lemma_div_pos_is_pos(pixel, w);
        vstd::arithmetic::div_mod::lemma_multiply_divide_lt(pixel, w, h);
        assert(sample_index(w, col, row, channel) == k);
    }
    assert(a =~= b);
}

impl View for Frame {
    type V = FrameView;

    closed spec fn view(&self) -> FrameView {
        FrameView { width: self.width, height: self.height, pixels: self.pixels@ }
    }
}

impl FrameView {
    /// The buffer holds four samples for each pixel and no more.
    pub open spec fn well_formed(self) -> bool {
        self.pixels.len() == 4 * self.width * self.height
    }

    /// This frame is the part `area` of the frame `source`.
    pub open spec fn is_part_of(self, source: FrameView, area: CropRectParams) -> bool {
        &&& self.width == area.width
        &&& self.height == area.height
        &&& is_crop(self.pixels, source.pixels, source.width as int, area)
    }
}

impl Frame {
    #[verifier::type_invariant]
    spec fn sized(self) -> bool {
        self.pixels@.len() == 4 * self.width * self.height
    }

    /// Makes a frame from its size and samples. The samples must be as many
    /// as the size asks for.
    pub fn new(width: u32, height: u32, pixels: Vec<u8>) -> (frame: Option<Frame>)
        ensures
            frame is Some <==> pixels@.len() == 4 * width * height,
            frame is Some ==> frame->Some_0@ == (FrameView { width, height, pixels: pixels@ }),
    {
        assert(4 * (width as u128) * (height as u128) <= 4 * 0xffff_ffff * 0xffff_ffff)
            by (nonlinear_arith)
            requires
                width <= 0xffff_ffff,
                height <= 0xffff_ffff,
        ;
        let wanted: u128 = 4 * (width as u128) * (height as u128);
        if pixels.len() as u128 == wanted {
            Some(Frame { width, height, pixels })
        } else {
            None
        }
    }

    /// Width in pixels.
    pub fn width(&self) -> (w: u32)
        ensures
            w == self@.width,
    {
        self.width
    }

    /// Height in pixels.
    pub fn height(&self) -> (h: u32)
        ensures
            h == self@.height,
    {
        self.height
    }

    /// The samples, row by row.
    pub fn pixels(&self) -> (p: &Vec<u8>)
        ensures
            p@ == self@.pixels,
            self@.well_formed(),
    {
        proof {
            use_type_invariant(self);
        }
        &self.pixels
    }

    /// Gives the samples away.
    pub fn into_pixels(self) -> (p: Vec<u8>)
        ensures
            p@ == self@.pixels,
            self@.well_formed(),
    {
        proof {
            use_type_invariant(&self);
        }
        self.pixels
    }

    /// Crops the frame to `rect`, clamped to the frame. The frame is left
    /// out where the rectangle's origin lies outside of it or the rectangle
    /// is empty.
    pub fn crop(self, rect: CropRectParams) -> (r: Result<Frame, CropSkip>)
        ensures
            match rect.clamped(self@.width, self@.height) {
                Err(skip) => r is Err && r->Err_0 == skip,
                Ok(area) => r is Ok && r->Ok_0@.is_part_of(self@, area),
            },
    {
        proof {
            use_type_invariant(&self);
        }
        match rect.clamp_to(self.width, self.height) {
            Err(skip) => Err(skip),
            Ok(area) => {
                let pixels = crop_samples(self.pixels, self.width, self.height, area).unwrap();
                Ok(Frame { width: area.width, height: area.height, pixels })
            },
        }
    }
}

/// Hands the samples to the `image` crate as an RGBA buffer
/// (`ImageBuffer::from_raw`), takes the view of `rect` on it
/// (`imageops::crop_imm`) and copies that view into a buffer of its own
/// (`SubImage::to_image`, `ImageBuffer::into_raw`).
///
/// Trusted: for a buffer of exactly `width * height` pixels and a rectangle
/// that covers at least one pixel and lies inside the image, the crate
/// accepts the buffer and the copy holds the rectangle's pixels in
/// row-major order. (An image or a rectangle without pixels is left out:
/// the crate measures a buffer as four times the width, times the height,
/// and where the first product alone exceeds `usize` it refuses even an
/// empty buffer.)
#[verifier::external_body]
fn crop_samples(samples: Vec<u8>, width: u32, height: u32, rect: CropRectParams) -> (out: Option<
    Vec<u8>,
>)
    requires
        samples@.len() == 4 * width * height,
        !rect.empty(),
        rect.within(width as int, height as int),
    ensures
        out is Some,
        is_crop(out->Some_0@, samples@, width as int, rect),
{
    let source = image::RgbaImage::from_raw(width, height, samples)?;
    let area = image::imageops::crop_imm(&source, rect.x, rect.y, rect.width, rect.height);
    Some(area.to_image().into_raw())
}

} // verus!
