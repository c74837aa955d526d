//! Resolution, work-group grid and byte sizes derived from it.

use vstd::prelude::*;

verus! {

/// Pixels covered by one work-group along each axis.
pub const WORKGROUP_EXTENT: u32 = 16;

/// Number of work-groups needed to cover `pixels` pixels along one axis:
/// the quotient by `WORKGROUP_EXTENT`, rounded up.
pub open spec fn groups_for(pixels: nat) -> nat {
    ((pixels + WORKGROUP_EXTENT - 1) / (WORKGROUP_EXTENT as int)) as nat
}

/// `groups_for(p)` groups cover `p` pixels, and one group fewer would not.
pub proof fn lemma_groups_cover(pixels: nat)
    ensures
        groups_for(pixels) * WORKGROUP_EXTENT >= pixels,
        pixels > 0 ==> (groups_for(pixels) - 1) * WORKGROUP_EXTENT < pixels,
        pixels == 0 ==> groups_for(pixels) == 0,
{
}

/// The fixed size of the output image, in pixels.
#[derive(Clone, Copy, Debug, PartialEq, Eq, Structural)]
pub struct Resolution {
    pub width: u32,
    pub height: u32,
}

/// A dispatch size in work-groups.
#[derive(Clone, Copy, Debug, PartialEq, Eq, Structural)]
pub struct Grid {
    pub x: u32,
    pub y: u32,
    pub z: u32,
}

impl Resolution {
    /// Number of pixels of the image.
    pub open spec fn pixels(self) -> nat {
        (self.width as nat) * (self.height as nat)
    }

    /// The grid that covers the whole image with one layer of work-groups.
    pub open spec fn grid(self) -> Grid {
        Grid {
            x: groups_for(self.width as nat) as u32,
            y: groups_for(self.height as nat) as u32,
            z: 1,
        }
    }

    /// Byte size of a buffer that holds `record_size` bytes per pixel.
    pub open spec fn bytes(self, record_size: nat) -> nat {
        self.pixels() * record_size
    }

    /// The dispatch grid for a pass over the whole image.
    pub fn workgroup_grid(&self) -> (g: Grid)
        ensures
            g == self.grid(),
            g.x == groups_for(self.width as nat),
            g.y == groups_for(self.height as nat),
    {
        Grid { x: groups_along(self.width), y: groups_along(self.height), z: 1 }
    }

    /// Number of pixels of the image.
    pub fn pixel_count(&self) -> (n: u64)
        ensures
            n == self.pixels(),
    {
        let w: u64 = self.width as u64;
        let h: u64 = self.height as u64;
        assert(w * h <= 0xffff_ffff * 0xffff_ffff) by (nonlinear_arith)
            requires
                0 <= w <= 0xffff_ffff,
                0 <= h <= 0xffff_ffff,
        ;
        w * h
    }

    /// Byte size of a buffer that holds `record_size` bytes per pixel, or
    /// `None` where that size does not fit in 64 bits.
    pub fn buffer_bytes(&self, record_size: u32) -> (size: Option<u64>)
        ensures
            match size {
                Some(s) => s == self.bytes(record_size as nat),
                None => self.bytes(record_size as nat) > u64::MAX,
            },
    {
        self.pixel_count().checked_mul(record_size as u64)
    }
}

/// Work-groups along an axis of `pixels` pixels.
pub fn groups_along(pixels: u32) -> (g: u32)
    ensures
        g == groups_for(pixels as nat),
{
    let whole: u32 = pixels / WORKGROUP_EXTENT;
    if pixels % WORKGROUP_EXTENT == 0 {
        whole
    } else {
        whole + 1
    }
}

} // verus!
