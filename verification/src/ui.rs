//! UI regions and the occlusion filter.
//!
//! Each frame the caller collects the laid-out UI panels and buttons as a
//! list of `UiRegion` values (centre position and half extents in screen
//! units).  A click whose cursor lies inside any region, bounds inclusive,
//! belongs to the UI and must never reach the world.  The list is rebuilt
//! every frame, since panels such as the tile picker appear and disappear.

use vstd::prelude::*;

verus! {

use crate::geometry::ScreenPos;

/// One laid-out UI node: its centre in screen coordinates and half of its
/// size on each axis.
#[derive(Clone, Copy, PartialEq, Eq, Structural, Debug)]
pub struct UiRegion {
    pub center_x: i32,
    pub center_y: i32,
    pub half_width: i32,
    pub half_height: i32,
}

impl UiRegion {
    /// The region's axis-aligned box: (centre - half size, centre + half
    /// size) on each axis, as (min x, min y, max x, max y).
    pub open spec fn spec_bounds(self) -> (int, int, int, int) {
        (
            self.center_x - self.half_width,
            self.center_y - self.half_height,
            self.center_x + self.half_width,
            self.center_y + self.half_height,
        )
    }

    /// Computes the region's bounding box, widened to 64 bits so that no
    /// screen coordinate can overflow.
    pub fn bounds(&self) -> (r: (i64, i64, i64, i64))
        ensures
            r.0 == self.spec_bounds().0,
            r.1 == self.spec_bounds().1,
            r.2 == self.spec_bounds().2,
            r.3 == self.spec_bounds().3,
    {
        (
            self.center_x as i64 - self.half_width as i64,
            self.center_y as i64 - self.half_height as i64,
            self.center_x as i64 + self.half_width as i64,
            self.center_y as i64 + self.half_height as i64,
        )
    }

    /// Whether `p` lies in the region's box, bounds inclusive.
    pub open spec fn spec_contains(self, p: ScreenPos) -> bool {
        &&& self.spec_bounds().0 <= p.x <= self.spec_bounds().2
        &&& self.spec_bounds().1 <= p.y <= self.spec_bounds().3
    }

    /// Point-in-box test with inclusive bounds.
    pub fn contains(&self, p: ScreenPos) -> (r: bool)
        ensures
            r == self.spec_contains(p),
    {
        let (min_x, min_y, max_x, max_y) = self.bounds();
        min_x <= p.x as i64 && p.x as i64 <= max_x && min_y <= p.y as i64 && p.y as i64 <= max_y
    }
}

/// Whether `p` lies inside any of the given regions.
pub open spec fn spec_occluded(p: ScreenPos, regions: Seq<UiRegion>) -> bool {
    exists|i: int| 0 <= i < regions.len() && (#[trigger] regions[i]).spec_contains(p)
}

/// The occlusion filter: scans every region laid out this frame and reports
/// whether the cursor position falls inside one of them.  A click for which
/// this holds is discarded before any world interaction.
pub fn is_occluded(p: ScreenPos, regions: &Vec<UiRegion>) -> (r: bool)
    ensures
        r == spec_occluded(p, regions@),
{
    let n = regions.len();
    let mut i: usize = 0;
    while i < n
        invariant
            i <= n,
            n == regions.len(),
            forall|j: int| 0 <= j < i ==> !(#[trigger] regions@[j]).spec_contains(p),
        decreases n - i,
    {
        if regions[i].contains(p) {
            return true;
        }
        i = i + 1;
    }
    false
}

} // verus!
