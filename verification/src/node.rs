//! The path shape node: owns its transform and selection components and a
//! cached pair of tessellation results — visual draw primitives and
//! identity-colored picking primitives — kept in lockstep by a two-state
//! dirty protocol. The cache becomes stale (Dirty) on any geometry-affecting
//! mutation and is refreshed (Clean) only inside `tessellate`; reads of the
//! cached fields demand a clean node, so a stale read is impossible from
//! verified callers.
use vstd::prelude::*;
use crate::MAX_NODE_ID;
use crate::RadiantError;
use crate::ScreenDescriptor;
use crate::color::Color;
use crate::color::draw_color;
use crate::color::encode_id;
use crate::color::encode_spec;
use crate::components::Component;
use crate::components::ComponentKind;
use crate::components::SelectionComponent;
use crate::components::TransformComponent;
use crate::geometry::Point;
use crate::geometry::Rect;
use crate::geometry::bounds_of;
use crate::geometry::compute_bounds;
use crate::geometry::make_path_points;
use crate::geometry::path_points;
use crate::geometry::point_ok;
use crate::geometry::ppp_ok;

verus! {

/// A GPU-ready primitive: the vertices of one filled convex polygon and the
/// single color it is filled with.
#[derive(Debug, PartialEq)]
pub struct DrawPrimitive {
    pub points: Vec<Point>,
    pub color: Color,
}

/// The mathematical content of a primitive: its vertex sequence and color.
#[verifier::ext_equal]
pub struct PrimModel {
    pub points: Seq<Point>,
    pub color: Color,
}

impl View for DrawPrimitive {
    type V = PrimModel;

    open spec fn view(&self) -> PrimModel {
        PrimModel { points: self.points@, color: self.color }
    }
}

/// The mathematical content of a primitive sequence.
pub open spec fn prims_view(v: Seq<DrawPrimitive>) -> Seq<PrimModel> {
    v.map_values(|p: DrawPrimitive| p@)
}

impl Clone for DrawPrimitive {
    /// Clones preserve the primitive's content exactly.
    fn clone(&self) -> (r: Self)
        ensures
            r@ == self@,
    {
        DrawPrimitive { points: clone_points(&self.points), color: self.color }
    }
}

fn clone_points(v: &Vec<Point>) -> (r: Vec<Point>)
    ensures
        r@ == v@,
{
    let mut r: Vec<Point> = Vec::new();
    let mut i: usize = 0;
    while i < v.len()
        invariant
            0 <= i <= v@.len(),
            r@ == v@.take(i as int),
        decreases v@.len() - i,
    {
        r.push(v[i]);
        proof {
            assert(v@.take(i + 1) =~= v@.take(i as int).push(v@[i as int]));
        }
        i = i + 1;
    }
    proof {
        assert(v@.take(v@.len() as int) =~= v@);
    }
    r
}

/// The single draw primitive a transform snapshot tessellates to, at a given
/// pixel ratio: the path polygon filled with the fixed visual color.
pub open spec fn draw_prim_model(t: TransformComponent, k: u32) -> PrimModel {
    PrimModel { points: path_points(t.position, t.scale, k), color: draw_color() }
}

/// The single picking primitive of the same snapshot: the identical polygon,
/// filled with the bijective color encoding of the node's identity.
pub open spec fn pick_prim_model(id: u64, t: TransformComponent, k: u32) -> PrimModel {
    PrimModel { points: path_points(t.position, t.scale, k), color: encode_spec(id) }
}

/// Abstract state of a path node, the value `RadiantPathNode@` yields.
#[verifier::ext_equal]
pub struct NodeModel {
    pub id: u64,
    pub transform: TransformComponent,
    pub selected: bool,
    pub dirty: bool,
    pub primitives: Seq<PrimModel>,
    pub pick_primitives: Seq<PrimModel>,
    pub bounding_rect: Rect,
    pub tessellated_for: u32,
    pub count: u64,
}

impl NodeModel {
    /// The cached fields are exactly what tessellating the current
    /// transform at the cached pixel ratio produces: one draw primitive,
    /// one picking primitive over the same points, and the tight bounds.
    pub open spec fn cache_valid(self) -> bool {
        &&& self.primitives == seq![draw_prim_model(self.transform, self.tessellated_for)]
        &&& self.pick_primitives == seq![
            pick_prim_model(self.id, self.transform, self.tessellated_for),
        ]
        &&& self.bounding_rect == bounds_of(
            path_points(self.transform.position, self.transform.scale, self.tessellated_for),
        )
    }

    /// Well-formedness: the id is encodable, coordinates are bounded, and a
    /// clean node's caches are valid for its current transform.
    pub open spec fn wf(self) -> bool {
        &&& self.id <= MAX_NODE_ID
        &&& self.transform.wf()
        &&& ppp_ok(self.tessellated_for)
        &&& (!self.dirty ==> self.cache_valid())
    }

    /// Everything but the selection flag agrees between the two states.
    pub open spec fn same_but_selected(self, other: NodeModel) -> bool {
        &&& self.id == other.id
        &&& self.transform == other.transform
        &&& self.dirty == other.dirty
        &&& self.same_caches(other)
    }

    /// The cached fields agree between the two states.
    pub open spec fn same_caches(self, other: NodeModel) -> bool {
        &&& self.primitives == other.primitives
        &&& self.pick_primitives == other.pick_primitives
        &&& self.bounding_rect == other.bounding_rect
        &&& self.tessellated_for == other.tessellated_for
        &&& self.count == other.count
    }

    /// The logical state — identity, transform, selection — agrees between
    /// the two states; only caches and the dirty flag may differ.
    pub open spec fn same_logical(self, other: NodeModel) -> bool {
        &&& self.id == other.id
        &&& self.transform == other.transform
        &&& self.selected == other.selected
    }
}

/// A path shape node.
pub struct RadiantPathNode {
    id: u64,
    transform: TransformComponent,
    selection: SelectionComponent,
    primitives: Vec<DrawPrimitive>,
    selection_primitives: Vec<DrawPrimitive>,
    needs_tessellation: bool,
    bounding_rect: Rect,
    tessellated_for: u32,
    tessellation_count: u64,
}

impl View for RadiantPathNode {
    type V = NodeModel;

    closed spec fn view(&self) -> NodeModel {
        NodeModel {
            id: self.id,
            transform: self.transform,
            selected: self.selection.selected,
            dirty: self.needs_tessellation,
            primitives: prims_view(self.primitives@),
            pick_primitives: prims_view(self.selection_primitives@),
            bounding_rect: self.bounding_rect,
            tessellated_for: self.tessellated_for,
            count: self.tessellation_count,
        }
    }
}

impl RadiantPathNode {
    /// Creates a node with the given identity at the given position, with
    /// zero scale, no selection, and an empty, dirty cache. Ids beyond the
    /// picking color space have no valid encoding and are excluded; the
    /// scene rejects them with an error before construction.
    pub fn new(id: u64, position: Point) -> (r: Self)
        requires
            id <= MAX_NODE_ID,
            point_ok(position),
        ensures
            r@.wf(),
            r@.id == id,
            r@.transform.position == position,
            r@.transform.scale == (Point { x: 0, y: 0 }),
            !r@.selected,
            r@.dirty,
            r@.primitives == Seq::<PrimModel>::empty(),
            r@.pick_primitives == Seq::<PrimModel>::empty(),
            r@.count == 0,
    {
        let mut transform = TransformComponent::new();
        transform.set_xy(position);
        let selection = SelectionComponent::new();
        let r = RadiantPathNode {
            id,
            transform,
            selection,
            primitives: Vec::new(),
            selection_primitives: Vec::new(),
            needs_tessellation: true,
            bounding_rect: Rect { min_x: 0, min_y: 0, max_x: 0, max_y: 0 },
            tessellated_for: 1,
            tessellation_count: 0,
        };
        proof {
            assert(r@.primitives =~= Seq::<PrimModel>::empty());
            assert(r@.pick_primitives =~= Seq::<PrimModel>::empty());
        }
        r
    }

    /// Creation with the overflow policy applied: an id at or beyond
    /// 2^24 - 1 cannot be packed into the picking color channels, and
    /// accepting it would silently corrupt picking for an unrelated node,
    /// so it is rejected here — and only here — as a hard failure.
    pub fn try_new(id: u64, position: Point) -> (r: Result<Self, RadiantError>)
        requires
            point_ok(position),
        ensures
            id <= MAX_NODE_ID ==> (r matches Ok(node) && node@.wf() && node@.id == id
                && node@.transform.position == position && node@.transform.scale == (Point {
                x: 0,
                y: 0,
            }) && !node@.selected && node@.dirty && node@.count == 0),
            id > MAX_NODE_ID ==> r == Err::<Self, RadiantError>(
                RadiantError::IdentityEncodingOverflow,
            ),
    {
        if id > MAX_NODE_ID {
            return Err(RadiantError::IdentityEncodingOverflow);
        }
        Ok(RadiantPathNode::new(id, position))
    }

    /// Recomputes both primitive sets and the bounding rect from the
    /// current transform if and only if the node is dirty; a clean node is
    /// returned untouched, bit for bit. The dirty flag is cleared before
    /// the geometry is derived, so a mutation racing in behind this call is
    /// picked up by the next one, never dropped.
    fn refresh_cache(&mut self, k: u32)
        requires
            old(self)@.wf(),
            ppp_ok(k),
        ensures
            final(self)@.wf(),
            !final(self)@.dirty,
            final(self)@.same_logical(old(self)@),
            !old(self)@.dirty ==> *final(self) == *old(self),
            old(self)@.dirty ==> {
                &&& final(self)@.tessellated_for == k
                &&& final(self)@.cache_valid()
                &&& final(self)@.count == if old(self)@.count < u64::MAX {
                    (old(self)@.count + 1) as u64
                } else {
                    old(self)@.count
                }
            },
    {
        if !self.needs_tessellation {
            return ;
        }
        self.needs_tessellation = false;

        let position = self.transform.get_xy();
        let scale = self.transform.get_scale();
        let points = make_path_points(position, scale, k);
        self.bounding_rect = compute_bounds(&points);

        let visual = Color { r: 255, g: 128, b: 128 };
        let draw_points = clone_points(&points);
        let mut draw_prims: Vec<DrawPrimitive> = Vec::new();
        draw_prims.push(DrawPrimitive { points: draw_points, color: visual });
        self.primitives = draw_prims;

        let identity = encode_id(self.id);
        let mut pick_prims: Vec<DrawPrimitive> = Vec::new();
        pick_prims.push(DrawPrimitive { points, color: identity });
        self.selection_primitives = pick_prims;

        self.tessellated_for = k;
        if self.tessellation_count < u64::MAX {
            self.tessellation_count = self.tessellation_count + 1;
        }
        proof {
            assert(self@.primitives =~~= seq![draw_prim_model(self@.transform, k)]);
            assert(self@.pick_primitives =~~= seq![
                pick_prim_model(self@.id, self@.transform, k),
            ]);
        }
    }

    /// Lazily tessellates, then hands back a copy of one cached primitive
    /// set: the picking set when `selection` is true, else the visual set.
    /// Calling twice with no intervening mutation leaves the node untouched
    /// and returns identical primitives, without recomputation; a dirty
    /// node is recomputed for the descriptor's pixel ratio. The returned
    /// copy cannot corrupt the cache.
    pub fn tessellate(&mut self, selection: bool, screen_descriptor: &ScreenDescriptor) -> (r:
        Vec<DrawPrimitive>)
        requires
            old(self)@.wf(),
            screen_descriptor.wf(),
        ensures
            final(self)@.wf(),
            !final(self)@.dirty,
            final(self)@.same_logical(old(self)@),
            !old(self)@.dirty ==> *final(self) == *old(self),
            old(self)@.dirty ==> {
                &&& final(self)@.tessellated_for == screen_descriptor.pixels_per_point
                &&& final(self)@.cache_valid()
                &&& final(self)@.count == if old(self)@.count < u64::MAX {
                    (old(self)@.count + 1) as u64
                } else {
                    old(self)@.count
                }
            },
            prims_view(r@) == if selection {
                final(self)@.pick_primitives
            } else {
                final(self)@.primitives
            },
    {
        self.refresh_cache(screen_descriptor.pixels_per_point);
        let r = if selection {
            clone_prims(&self.selection_primitives)
        } else {
            clone_prims(&self.primitives)
        };
        proof {
            if selection {
                assert(prims_view(r@) =~= self@.pick_primitives);
            } else {
                assert(prims_view(r@) =~= self@.primitives);
            }
        }
        r
    }

    /// First tessellation on insertion into a scene, against the scene's
    /// current screen descriptor.
    pub fn attach_to_scene(&mut self, screen_descriptor: &ScreenDescriptor)
        requires
            old(self)@.wf(),
            screen_descriptor.wf(),
        ensures
            final(self)@.wf(),
            !final(self)@.dirty,
            final(self)@.same_logical(old(self)@),
            !old(self)@.dirty ==> *final(self) == *old(self),
            old(self)@.dirty ==> final(self)@.tessellated_for
                == screen_descriptor.pixels_per_point,
    {
        self.refresh_cache(screen_descriptor.pixels_per_point);
    }

    /// Drops the cached primitive buffers on removal from a scene and
    /// marks the node dirty, so a later re-attach starts from a recompute.
    pub fn detach(&mut self)
        requires
            old(self)@.wf(),
        ensures
            final(self)@.wf(),
            final(self)@.dirty,
            final(self)@.same_logical(old(self)@),
            final(self)@.primitives == Seq::<PrimModel>::empty(),
            final(self)@.pick_primitives == Seq::<PrimModel>::empty(),
            final(self)@.count == old(self)@.count,
    {
        self.primitives = Vec::new();
        self.selection_primitives = Vec::new();
        self.needs_tessellation = true;
        proof {
            assert(self@.primitives =~= Seq::<PrimModel>::empty());
            assert(self@.pick_primitives =~= Seq::<PrimModel>::empty());
        }
    }

    /// Marks the cached geometry stale; the next `tessellate` recomputes.
    pub fn set_needs_tessellation(&mut self)
        requires
            old(self)@.wf(),
        ensures
            final(self)@.wf(),
            final(self)@.dirty,
            final(self)@.same_logical(old(self)@),
            final(self)@.same_caches(old(self)@),
    {
        self.needs_tessellation = true;
    }

    pub fn get_id(&self) -> (r: u64)
        ensures
            r == self@.id,
    {
        self.id
    }

    /// Re-identifies the node. The picking colors baked into the cache
    /// belong to the old identity, so the cache is marked stale.
    pub fn set_id(&mut self, id: u64)
        requires
            old(self)@.wf(),
            id <= MAX_NODE_ID,
        ensures
            final(self)@.wf(),
            final(self)@.id == id,
            final(self)@.dirty,
            final(self)@.transform == old(self)@.transform,
            final(self)@.selected == old(self)@.selected,
            final(self)@.same_caches(old(self)@),
    {
        self.id = id;
        self.needs_tessellation = true;
    }

    /// The tight bounds of the cached geometry, in pixel space. Reading
    /// them from a dirty node would be a stale-cache read, so a clean node
    /// is demanded; scene-level readers tessellate first.
    pub fn get_bounding_rect(&self) -> (r: Rect)
        requires
            self@.wf(),
            !self@.dirty,
        ensures
            r == self@.bounding_rect,
            r == bounds_of(
                path_points(self@.transform.position, self@.transform.scale, self@.tessellated_for),
            ),
    {
        self.bounding_rect
    }

    /// Moves the node: a geometry-affecting mutation, so the cache is
    /// marked stale.
    pub fn set_position(&mut self, position: Point)
        requires
            old(self)@.wf(),
            point_ok(position),
        ensures
            final(self)@.wf(),
            final(self)@.transform.position == position,
            final(self)@.transform.scale == old(self)@.transform.scale,
            final(self)@.dirty,
            final(self)@.id == old(self)@.id,
            final(self)@.selected == old(self)@.selected,
            final(self)@.same_caches(old(self)@),
    {
        self.transform.set_xy(position);
        self.needs_tessellation = true;
    }

    /// Rescales the node: a geometry-affecting mutation, so the cache is
    /// marked stale.
    pub fn set_scale(&mut self, scale: Point)
        requires
            old(self)@.wf(),
            point_ok(scale),
        ensures
            final(self)@.wf(),
            final(self)@.transform.scale == scale,
            final(self)@.transform.position == old(self)@.transform.position,
            final(self)@.dirty,
            final(self)@.id == old(self)@.id,
            final(self)@.selected == old(self)@.selected,
            final(self)@.same_caches(old(self)@),
    {
        self.transform.set_scale(scale);
        self.needs_tessellation = true;
    }

    /// Changes only the selection flag. Selection never affects geometry:
    /// the dirty flag, both primitive sets and the bounds are untouched, so
    /// the picking identity under any pixel is exactly what it was.
    pub fn set_selected(&mut self, selected: bool)
        requires
            old(self)@.wf(),
        ensures
            final(self)@.wf(),
            final(self)@.selected == selected,
            final(self)@.same_but_selected(old(self)@),
    {
        self.selection.set_selected(selected);
    }

    pub fn is_selected(&self) -> (r: bool)
        ensures
            r == self@.selected,
    {
        self.selection.is_selected()
    }

    pub fn is_dirty(&self) -> (r: bool)
        ensures
            r == self@.dirty,
    {
        self.needs_tessellation
    }

    /// How many times this node has actually recomputed its geometry;
    /// cache hits leave it unchanged.
    pub fn tessellation_count(&self) -> (r: u64)
        ensures
            r == self@.count,
    {
        self.tessellation_count
    }

    /// Capability lookup: returns a copy of the requested component. A path
    /// node holds both base capabilities, so no request here reports
    /// absence; a kind the node did not hold would yield `None`.
    pub fn get_component(&self, kind: ComponentKind) -> (r: Option<Component>)
        ensures
            kind == ComponentKind::Transform ==> r == Some(Component::Transform(self@.transform)),
            kind == ComponentKind::Selection ==> r == Some(
                Component::Selection(SelectionComponent { selected: self@.selected }),
            ),
    {
        match kind {
            ComponentKind::Transform => Some(Component::Transform(self.transform)),
            ComponentKind::Selection => Some(Component::Selection(self.selection)),
        }
    }

    /// Capability update, the writable half of the lookup: stores the given
    /// component back into the node and reports whether the node holds that
    /// kind. Writing the transform affects geometry and marks the cache
    /// stale; writing the selection does not.
    pub fn set_component(&mut self, component: Component) -> (r: bool)
        requires
            old(self)@.wf(),
            component matches Component::Transform(t) ==> t.wf(),
        ensures
            final(self)@.wf(),
            r == true,
            component matches Component::Transform(t) ==> {
                &&& final(self)@.transform == t
                &&& final(self)@.dirty
                &&& final(self)@.id == old(self)@.id
                &&& final(self)@.selected == old(self)@.selected
                &&& final(self)@.same_caches(old(self)@)
            },
            component matches Component::Selection(s) ==> {
                &&& final(self)@.selected == s.selected
                &&& final(self)@.same_but_selected(old(self)@)
            },
    {
        match component {
            Component::Transform(t) => {
                self.transform = t;
                self.needs_tessellation = true;
            },
            Component::Selection(s) => {
                self.selection = s;
            },
        }
        true
    }
}

/// Law: for any node state, the draw pass and the picking pass are built
/// over the identical point list — same vertex count and coordinates — and
/// differ only in color: the fixed visual color on one side, the identity
/// encoding on the other.
pub proof fn lemma_geometry_consistency(id: u64, t: TransformComponent, k: u32)
    ensures
        draw_prim_model(t, k).points == pick_prim_model(id, t, k).points,
        draw_prim_model(t, k).color == draw_color(),
        pick_prim_model(id, t, k).color == encode_spec(id),
{
}

/// Law: reading back the fill color of a node's picking primitive and
/// decoding it always resolves to exactly that node's id, whatever the
/// transform and pixel ratio — the consumer-facing picking protocol.
pub proof fn lemma_pick_color_resolves(id: u64, t: TransformComponent, k: u32)
    requires
        id <= MAX_NODE_ID,
    ensures
        crate::color::decode_spec(pick_prim_model(id, t, k).color) == Some(id),
{
    crate::color::lemma_pick_round_trip(id);
}

/// Law: whenever position or scale actually changed, the recomputed
/// primitives differ from the pre-mutation cache — in both passes.
pub proof fn lemma_changed_transform_changes_primitives(
    t1: TransformComponent,
    t2: TransformComponent,
    id: u64,
    k: u32,
)
    requires
        t1.wf(),
        t2.wf(),
        crate::geometry::ppp_ok(k),
        t1 != t2,
    ensures
        draw_prim_model(t1, k) != draw_prim_model(t2, k),
        pick_prim_model(id, t1, k) != pick_prim_model(id, t2, k),
{
    if t1.position == t2.position && t1.scale == t2.scale {
        assert(t1 == t2);
    }
    crate::geometry::lemma_path_points_injective(
        t1.position,
        t1.scale,
        t2.position,
        t2.scale,
        k,
    );
}

fn clone_prims(v: &Vec<DrawPrimitive>) -> (r: Vec<DrawPrimitive>)
    ensures
        r@.len() == v@.len(),
        forall|i: int| 0 <= i < v@.len() ==> #[trigger] r@[i]@ == v@[i]@,
{
    let mut r: Vec<DrawPrimitive> = Vec::new();
    let mut i: usize = 0;
    while i < v.len()
        invariant
            0 <= i <= v@.len(),
            r@.len() == i,
            forall|j: int| 0 <= j < i ==> #[trigger] r@[j]@ == v@[j]@,
        decreases v@.len() - i,
    {
        let p = v[i].clone();
        r.push(p);
        i = i + 1;
    }
    r
}

} // verus!
