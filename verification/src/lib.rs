//! An interactive 2D vector-graphics scene core: shape nodes with
//! transform/selection components, a dual-tessellation engine that produces
//! GPU-ready draw primitives alongside identity-colored picking primitives,
//! and a dirty-tracking cache that avoids re-tessellating unchanged geometry.
//!
//! All geometry lives on an integer pixel grid: positions, scales and
//! vertices are `i64` pixel coordinates and the device pixel ratio is a
//! positive integer. The embedding converts to whatever vertex format its
//! rasterizer wants at the boundary; everything the core itself computes —
//! point lists, bounds, coverage, picking colors — is exact.
use vstd::prelude::*;

pub mod color;
pub mod components;
pub mod geometry;
pub mod node;
pub mod scene;

pub use color::Color;
pub use components::Component;
pub use components::ComponentKind;
pub use components::SelectionComponent;
pub use components::TransformComponent;
pub use geometry::Point;
pub use geometry::Rect;
pub use node::DrawPrimitive;
pub use node::RadiantPathNode;
pub use scene::RadiantScene;

verus! {

/// Largest node id whose picking color encoding is representable: ids are
/// offset by one before being packed into three 8-bit color channels, and the
/// zero color is reserved for "no node", so valid ids run up to 2^24 - 2.
pub const MAX_NODE_ID: u64 = 16777214;

/// Bound on the magnitude of node positions and scales, in pixels.
/// Keeps every derived vertex coordinate comfortably inside `i64`.
pub const MAX_COORD: i64 = 1000000000000;

/// Bound on the device pixel ratio accepted by a screen descriptor.
pub const MAX_PIXELS_PER_POINT: u32 = 65536;

/// Hard failures surfaced by the core. Capability absence and degenerate
/// geometry are expected conditions returned as empty/optional values, not
/// errors; the only hard failure is a node id too large for the picking
/// color space, rejected at creation time so that silent wraparound can
/// never corrupt another node's picking identity.
#[derive(Clone, Copy, Debug, PartialEq, Eq, Structural)]
pub enum RadiantError {
    IdentityEncodingOverflow,
}

/// Physical description of the render target: its size in pixels and the
/// device pixel ratio, supplied by the windowing layer on init and resize.
#[derive(Clone, Copy, Debug)]
pub struct ScreenDescriptor {
    pub size_in_pixels: [u32; 2],
    pub pixels_per_point: u32,
}

impl ScreenDescriptor {
    /// A descriptor is well formed when its pixel ratio is positive and bounded.
    pub open spec fn wf(self) -> bool {
        1 <= self.pixels_per_point <= MAX_PIXELS_PER_POINT
    }

    pub fn new(size_in_pixels: [u32; 2], pixels_per_point: u32) -> (r: Self)
        requires
            1 <= pixels_per_point <= MAX_PIXELS_PER_POINT,
        ensures
            r.wf(),
            r.size_in_pixels == size_in_pixels,
            r.pixels_per_point == pixels_per_point,
    {
        ScreenDescriptor { size_in_pixels, pixels_per_point }
    }
}

} // verus!
