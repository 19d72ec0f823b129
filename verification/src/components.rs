//! Typed slices of node state — transform and selection — together with the
//! capability lookup vocabulary: a caller asks a node for a component by
//! kind and receives the matching component value, or a clean "not present"
//! answer, without the node exposing a fixed interface per component. New
//! capability kinds extend the two enums without touching existing call
//! sites.
use vstd::prelude::*;
use crate::geometry::Point;
use crate::geometry::point_ok;

verus! {

/// Position and scale of a node, in pixels. Mutated by tools, read by
/// tessellation.
#[derive(Clone, Copy, Debug, PartialEq, Eq, Structural)]
pub struct TransformComponent {
    pub position: Point,
    pub scale: Point,
}

impl TransformComponent {
    /// A transform is well formed when both its position and scale are
    /// within the coordinate bounds the tessellator accepts.
    pub open spec fn wf(self) -> bool {
        point_ok(self.position) && point_ok(self.scale)
    }

    pub fn new() -> (r: Self)
        ensures
            r.wf(),
            r.position == (Point { x: 0, y: 0 }),
            r.scale == (Point { x: 0, y: 0 }),
    {
        TransformComponent { position: Point { x: 0, y: 0 }, scale: Point { x: 0, y: 0 } }
    }

    pub fn set_xy(&mut self, position: Point)
        requires
            point_ok(position),
        ensures
            final(self).position == position,
            final(self).scale == old(self).scale,
    {
        self.position = position;
    }

    pub fn get_xy(&self) -> (r: Point)
        ensures
            r == self.position,
    {
        self.position
    }

    pub fn set_scale(&mut self, scale: Point)
        requires
            point_ok(scale),
        ensures
            final(self).scale == scale,
            final(self).position == old(self).position,
    {
        self.scale = scale;
    }

    pub fn get_scale(&self) -> (r: Point)
        ensures
            r == self.scale,
    {
        self.scale
    }
}

/// Whether a node is currently selected. Mutated by tools and by the scene
/// on pick events; never an input to geometry.
#[derive(Clone, Copy, Debug, PartialEq, Eq, Structural)]
pub struct SelectionComponent {
    pub selected: bool,
}

impl SelectionComponent {
    pub fn new() -> (r: Self)
        ensures
            !r.selected,
    {
        SelectionComponent { selected: false }
    }

    pub fn is_selected(&self) -> (r: bool)
        ensures
            r == self.selected,
    {
        self.selected
    }

    pub fn set_selected(&mut self, selected: bool)
        ensures
            final(self).selected == selected,
    {
        self.selected = selected;
    }
}

/// The capability kinds a caller can request from a node.
#[derive(Clone, Copy, Debug, PartialEq, Eq, Structural)]
pub enum ComponentKind {
    Transform,
    Selection,
}

/// A component value returned by capability lookup, tagged by its kind.
#[derive(Clone, Copy, Debug, PartialEq, Eq, Structural)]
pub enum Component {
    Transform(TransformComponent),
    Selection(SelectionComponent),
}

} // verus!
