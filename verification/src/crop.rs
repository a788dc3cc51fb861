//! Crop rectangles and their application to decoded frames.
//!
//! A rectangle is given in pixels. Before it is applied to an image it is
//! clamped to the image: the origin stays where it is, width and height
//! shrink until the rectangle ends at the right and bottom edge.
use vstd::prelude::*;

verus! {

/// A crop rectangle in pixel units; `(x, y)` is its top left corner.
#[derive(Clone, Copy, Debug, PartialEq, Eq, Structural)]
pub struct CropRectParams {
    pub x: u32,
    pub y: u32,
    pub width: u32,
    pub height: u32,
}

/// Why a rectangle cannot be applied to an image.
#[derive(Clone, Copy, Debug, PartialEq, Eq, Structural)]
pub enum CropSkip {
    /// The rectangle's origin lies right of or below the image.
    OriginOutside,
    /// The rectangle covers no pixel.
    EmptyArea,
}

impl CropRectParams {
    /// The rectangle covers no pixel.
    pub open spec fn empty(self) -> bool {
        self.width == 0 || self.height == 0
    }

    /// The rectangle lies inside an image of the given size.
    pub open spec fn within(self, image_width: int, image_height: int) -> bool {
        self.x + self.width <= image_width && self.y + self.height <= image_height
    }

    /// The rectangle as it is applied to an image of the given size: the
    /// same origin, width and height cut off at the image's edges.
    pub open spec fn clamped(self, image_width: u32, image_height: u32) -> Result<
        CropRectParams,
        CropSkip,
    > {
        if self.x >= image_width || self.y >= image_height {
            Err(CropSkip::OriginOutside)
        } else if self.empty() {
            Err(CropSkip::EmptyArea)
        } else {
            Ok(
                CropRectParams {
                    x: self.x,
                    y: self.y,
                    width: vstd::math::min(self.width as int, image_width - self.x) as u32,
                    height: vstd::math::min(self.height as int, image_height - self.y) as u32,
                },
            )
        }
    }

    /// Tells whether the rectangle covers no pixel.
    pub fn is_empty(&self) -> (b: bool)
        ensures
            b == self.empty(),
    {
        self.width == 0 || self.height == 0
    }

    /// Clamps the rectangle to an image of the given size.
    pub fn clamp_to(&self, image_width: u32, image_height: u32) -> (r: Result<
        CropRectParams,
        CropSkip,
    >)
        ensures
            r == self.clamped(image_width, image_height),
    {
        if self.x >= image_width || self.y >= image_height {
            return Err(CropSkip::OriginOutside);
        }
        if self.width == 0 || self.height == 0 {
            return Err(CropSkip::EmptyArea);
        }
        let room_right: u32 = image_width - self.x;
        let room_below: u32 = image_height - self.y;
        let width: u32 = if self.width > room_right {
            room_right
        } else {
            self.width
        };
        let height: u32 = if self.height > room_below {
            room_below
        } else {
            self.height
        };
        Ok(CropRectParams { x: self.x, y: self.y, width, height })
    }
}

/// A clamped rectangle lies inside the image, covers at least one pixel,
/// keeps the origin and is no larger than the rectangle asked for.
pub proof fn lemma_clamped_within_image(rect: CropRectParams, image_width: u32, image_height: u32)
    requires
        rect.clamped(image_width, image_height) is Ok,
    ensures
        ({
            let c = rect.clamped(image_width, image_height)->Ok_0;
            &&& c.within(image_width as int, image_height as int)
            &&& !c.empty()
            &&& c.x == rect.x && c.y == rect.y
            &&& c.width <= rect.width && c.height <= rect.height
        }),
{
}

/// A rectangle that covers a pixel and lies inside the image is applied as
/// it is.
pub proof fn lemma_inside_is_unchanged(rect: CropRectParams, image_width: u32, image_height: u32)
    requires
        !rect.empty(),
        rect.within(image_width as int, image_height as int),
    ensures
        rect.clamped(image_width, image_height) == Ok::<CropRectParams, CropSkip>(rect),
{
}

/// A rectangle that reaches over the right or bottom edge is cut off at
/// that edge: it is refused only for its origin or for being empty, and
/// its far corner moves to the image's far corner where that is nearer.
pub proof fn lemma_overflow_is_clamped(rect: CropRectParams, image_width: u32, image_height: u32)
    ensures
        ({
            let clamped = rect.clamped(image_width, image_height);
            &&& clamped is Ok <==> rect.x < image_width && rect.y < image_height && !rect.empty()
            &&& clamped is Ok ==> clamped->Ok_0.x + clamped->Ok_0.width == vstd::math::min(
                rect.x + rect.width,
                image_width as int,
            )
            &&& clamped is Ok ==> clamped->Ok_0.y + clamped->Ok_0.height == vstd::math::min(
                rect.y + rect.height,
                image_height as int,
            )
        }),
{
}

/// Clamping a clamped rectangle to the same image changes nothing.
pub proof fn lemma_clamp_is_idempotent(rect: CropRectParams, image_width: u32, image_height: u32)
    requires
        rect.clamped(image_width, image_height) is Ok,
    ensures
        rect.clamped(image_width, image_height)->Ok_0.clamped(image_width, image_height)
            == rect.clamped(image_width, image_height),
{
}

} // verus!
