//! The settings of the perspective projection.
//!
//! Field of view and clip planes are fixed; the aspect ratio follows the size
//! of the window's drawable area. All four are kept as exact fractions of
//! integers, so that nothing is rounded before the projection matrix itself is
//! computed from them.

use vstd::prelude::*;

verus! {

/// Field of view of the scene, in degrees.
pub const FOV_DEGREES: u32 = 90;

/// Distance of the near clip plane, in tenths of a unit.
pub const NEAR_CLIP_TENTHS: u32 = 1;

/// Distance of the far clip plane, in units.
pub const FAR_CLIP: u32 = 1000;

/// Size of the window's drawable area, in pixels.
#[derive(Clone, Copy, Debug, PartialEq, Eq, Structural)]
pub struct DrawSize {
    pub width: u32,
    pub height: u32,
}

/// The fraction `num / den`, kept as written: it is neither reduced nor
/// evaluated. With `den == 0` it stands for no number at all.
#[derive(Clone, Copy, Debug, PartialEq, Eq, Structural)]
pub struct Ratio {
    pub num: u32,
    pub den: u32,
}

impl Ratio {
    /// Whether the fraction stands for a number.
    pub open spec fn defined(self) -> bool {
        self.den != 0
    }

    /// Whether two fractions that both stand for a number stand for the same
    /// one.
    pub open spec fn same_value(self, other: Ratio) -> bool {
        self.num * other.den == other.num * self.den
    }

    /// Whether the fraction stands for a number.
    pub fn is_defined(&self) -> (defined: bool)
        ensures
            defined == self.defined(),
    {
        self.den != 0
    }

    /// Whether `self` and `other` stand for the same number. The answer means
    /// something only where both are defined.
    pub fn has_same_value(&self, other: &Ratio) -> (same: bool)
        ensures
            same == self.same_value(*other),
    {
        assert(self.num * other.den <= u64::MAX && other.num * self.den <= u64::MAX)
            by (nonlinear_arith)
            requires
                self.num <= u32::MAX,
                self.den <= u32::MAX,
                other.num <= u32::MAX,
                other.den <= u32::MAX,
        ;
        let left: u64 = (self.num as u64) * (other.den as u64);
        let right: u64 = (other.num as u64) * (self.den as u64);
        left == right
    }
}

/// The settings from which the projection matrix is computed.
#[derive(Clone, Copy, Debug, PartialEq, Eq, Structural)]
pub struct Perspective {
    /// Field of view, in degrees.
    pub fov: Ratio,
    /// Distance of the near clip plane.
    pub near_clip: Ratio,
    /// Distance of the far clip plane.
    pub far_clip: Ratio,
    /// Width of the drawable area over its height.
    pub aspect_ratio: Ratio,
}

/// The aspect ratio of a drawable area: its width over its height.
pub open spec fn aspect_of(size: DrawSize) -> Ratio {
    Ratio { num: size.width, den: size.height }
}

/// The scene's projection settings for a drawable area of the given size: a
/// field of view of 90 degrees, clip planes at 0.1 and 1000, and the area's
/// aspect ratio.
pub open spec fn scene_perspective(size: DrawSize) -> Perspective {
    Perspective {
        fov: Ratio { num: FOV_DEGREES, den: 1 },
        near_clip: Ratio { num: NEAR_CLIP_TENTHS, den: 10 },
        far_clip: Ratio { num: FAR_CLIP, den: 1 },
        aspect_ratio: aspect_of(size),
    }
}

impl Perspective {
    /// These settings with the aspect ratio of a drawable area of the given
    /// size; field of view and clip planes stay as they are.
    pub open spec fn resized(self, size: DrawSize) -> Perspective {
        Perspective { aspect_ratio: aspect_of(size), ..self }
    }

    /// The scene's projection settings for a drawable area of the given size.
    ///
    /// A height of zero is not rejected: the aspect ratio is then undefined,
    /// and so is every matrix computed from it.
    pub fn new(size: DrawSize) -> (perspective: Perspective)
        ensures
            perspective == scene_perspective(size),
            perspective.aspect_ratio.defined() <==> size.height != 0,
    {
        Perspective {
            fov: Ratio { num: FOV_DEGREES, den: 1 },
            near_clip: Ratio { num: NEAR_CLIP_TENTHS, den: 10 },
            far_clip: Ratio { num: FAR_CLIP, den: 1 },
            aspect_ratio: Ratio { num: size.width, den: size.height },
        }
    }

    /// Follows a resize of the window: the aspect ratio becomes that of the
    /// new drawable area, and nothing else changes.
    ///
    /// A height of zero is not rejected: the aspect ratio is then undefined.
    pub fn resize(&mut self, size: DrawSize)
        ensures
            *final(self) == old(self).resized(size),
            final(self).aspect_ratio == aspect_of(size),
            final(self).fov == old(self).fov,
            final(self).near_clip == old(self).near_clip,
            final(self).far_clip == old(self).far_clip,
    {
        self.aspect_ratio = Ratio { num: size.width, den: size.height };
    }
}

/// Resizing the scene's settings gives the settings the scene would have had
/// from the start at the new size, whatever the size was before.
pub proof fn lemma_resize_forgets_old_size(before: DrawSize, after: DrawSize)
    ensures
        scene_perspective(before).resized(after) == scene_perspective(after),
{
}

} // verus!
