//! Display geometry and the bounding box forwarded to the input-resolution service.
use vstd::prelude::*;

verus! {

/// Geometry of one display: its top-left corner, width and height.
#[derive(Clone, Copy, Debug)]
pub struct DisplayRect {
    pub origin: (i32, i32),
    pub width: usize,
    pub height: usize,
}

/// Descriptor of one display as the enumeration reported it; copied, never changed.
#[derive(Debug)]
pub struct DisplayInfo {
    pub x: i32,
    pub y: i32,
    pub width: i32,
    pub height: i32,
    pub name: String,
    pub online: bool,
    pub cursor_embedded: bool,
}

impl DisplayInfo {
    /// A copy of this descriptor.
    pub fn snapshot(&self) -> (r: DisplayInfo)
        ensures
            r == *self,
    {
        DisplayInfo {
            x: self.x,
            y: self.y,
            width: self.width,
            height: self.height,
            name: self.name.clone(),
            online: self.online,
            cursor_embedded: self.cursor_embedded,
        }
    }
}

/// A copy of a list of descriptors, in the same order.
pub fn snapshot_all(v: &Vec<DisplayInfo>) -> (r: Vec<DisplayInfo>)
    ensures
        r@ == v@,
{
    let mut r: Vec<DisplayInfo> = Vec::new();
    let mut i: usize = 0;
    while i < v.len()
        invariant
            i <= v@.len(),
            r@ == v@.subrange(0, i as int),
        decreases v@.len() - i,
    {
        r.push(v[i].snapshot());
        i = i + 1;
        assert(r@ =~= v@.subrange(0, i as int));
    }
    assert(v@.subrange(0, v@.len() as int) =~= v@);
    r
}

/// The box `(minx, maxx, miny, maxy)` handed to the input-resolution service.
#[derive(Clone, Copy, Debug, PartialEq, Eq, Structural)]
pub struct ResolutionBounds {
    pub minx: i32,
    pub maxx: i32,
    pub miny: i32,
    pub maxy: i32,
}

/// The far horizontal edge of a display.
pub open spec fn right_edge(r: DisplayRect) -> int {
    r.origin.0 + r.width
}

/// The far vertical edge of a display.
pub open spec fn bottom_edge(r: DisplayRect) -> int {
    r.origin.1 + r.height
}

/// Whether the box of a display is forwarded: it has an area, and its edges
/// are coordinates the input-resolution service can take.
pub open spec fn forwards(r: DisplayRect) -> bool {
    r.width != 0 && r.height != 0 && right_edge(r) <= i32::MAX && bottom_edge(r) <= i32::MAX
}

/// The box forwarded for the display `r`, if any.
pub open spec fn bounds_of(r: DisplayRect) -> Option<ResolutionBounds> {
    if forwards(r) {
        Some(
            ResolutionBounds {
                minx: r.origin.0,
                maxx: right_edge(r) as i32,
                miny: r.origin.1,
                maxy: bottom_edge(r) as i32,
            },
        )
    } else {
        None
    }
}

/// The smallest axis-aligned box covering the display `rect`, when it is to
/// be forwarded; `None` for a box without area (min equal to max on an axis),
/// which is never forwarded, or one whose far edge is past `i32::MAX`.
pub fn resolution_bounds(rect: &DisplayRect) -> (r: Option<ResolutionBounds>)
    ensures
        r == bounds_of(*rect),
        r is Some <==> forwards(*rect),
        r matches Some(b) ==> b.minx == rect.origin.0 && b.maxx == right_edge(*rect) && b.miny
            == rect.origin.1 && b.maxy == bottom_edge(*rect),
{
    let (x, y) = rect.origin;
    if rect.width == 0 || rect.height == 0 {
        return None;
    }
    let maxx = x as i128 + rect.width as i128;
    let maxy = y as i128 + rect.height as i128;
    if maxx > i32::MAX as i128 || maxy > i32::MAX as i128 {
        return None;
    }
    Some(ResolutionBounds { minx: x, maxx: maxx as i32, miny: y, maxy: maxy as i32 })
}

} // verus!
