//! The scene: sole owner of the ordered node collection (insertion order is
//! paint order, later nodes drawn on top), of identity assignment, and of
//! the screen descriptor. It drives lazy tessellation for rendering and
//! resolves hit tests through the identity-colored picking primitives,
//! top-most node first.
use vstd::prelude::*;
use crate::MAX_NODE_ID;
use crate::RadiantError;
use crate::ScreenDescriptor;
use crate::color::decode_color;
use crate::color::lemma_pick_round_trip;
use crate::geometry::Point;
use crate::geometry::covers;
use crate::geometry::covers_point;
use crate::geometry::lemma_path_points_bounded;
use crate::geometry::path_points;
use crate::geometry::point_ok;
use crate::geometry::vertex_ok;
use crate::node::DrawPrimitive;
use crate::node::RadiantPathNode;
use crate::node::draw_prim_model;
use crate::node::prims_view;

verus! {

/// The topmost node among the first `i` in paint order whose picking
/// geometry at pixel ratio `k` covers `p`: later nodes are drawn on top, so
/// they win, matching rendering occlusion. `None` when no node covers `p`.
pub open spec fn hit_from(nodes: Seq<RadiantPathNode>, k: u32, p: Point, i: int) -> Option<u64>
    recommends
        i <= nodes.len(),
    decreases i,
{
    if i <= 0 {
        None
    } else if covers(
        path_points(nodes[i - 1]@.transform.position, nodes[i - 1]@.transform.scale, k),
        p,
    ) {
        Some(nodes[i - 1]@.id)
    } else {
        hit_from(nodes, k, p, i - 1)
    }
}

/// The scene graph.
pub struct RadiantScene {
    nodes: Vec<RadiantPathNode>,
    screen_descriptor: ScreenDescriptor,
    next_id: u64,
}

impl RadiantScene {
    /// The nodes in paint order.
    pub closed spec fn nodes_spec(self) -> Seq<RadiantPathNode> {
        self.nodes@
    }

    pub closed spec fn screen_spec(self) -> ScreenDescriptor {
        self.screen_descriptor
    }

    /// The identity the next attached node receives.
    pub closed spec fn next_id_spec(self) -> u64 {
        self.next_id
    }

    /// Scene invariant: the descriptor is well formed; every node is well
    /// formed; a clean node's cache was computed at the current pixel
    /// ratio; identities are unique and below the assignment cursor, so no
    /// two live nodes can share a picking encoding.
    pub open spec fn wf(self) -> bool {
        &&& self.screen_spec().wf()
        &&& forall|i: int|
            0 <= i < self.nodes_spec().len() ==> (#[trigger] self.nodes_spec()[i])@.wf()
        &&& forall|i: int|
            0 <= i < self.nodes_spec().len() ==> !(#[trigger] self.nodes_spec()[i])@.dirty
                ==> self.nodes_spec()[i]@.tessellated_for == self.screen_spec().pixels_per_point
        &&& forall|i: int|
            0 <= i < self.nodes_spec().len() ==> (#[trigger] self.nodes_spec()[i])@.id
                < self.next_id_spec()
        &&& forall|i: int, j: int|
            0 <= i < j < self.nodes_spec().len() ==> (#[trigger] self.nodes_spec()[i])@.id < (
            #[trigger] self.nodes_spec()[j])@.id
        &&& self.next_id_spec() <= MAX_NODE_ID + 1
    }

    /// Identity uniqueness: no two live nodes share an id, so — with the
    /// injectivity of the color encoding — no two live nodes can share a
    /// picking color.
    pub open spec fn ids_unique(self) -> bool {
        forall|i: int, j: int|
            0 <= i < self.nodes_spec().len() && 0 <= j < self.nodes_spec().len() && i != j ==> (
            #[trigger] self.nodes_spec()[i])@.id != (#[trigger] self.nodes_spec()[j])@.id
    }

    /// Law: a well-formed scene has pairwise distinct node identities.
    /// Ids are handed out in increasing paint order and never rewritten,
    /// which `wf` records; distinctness follows.
    pub proof fn lemma_ids_unique(self)
        requires
            self.wf(),
        ensures
            self.ids_unique(),
    {
        assert forall|i: int, j: int|
            0 <= i < self.nodes_spec().len() && 0 <= j < self.nodes_spec().len() && i
                != j implies (#[trigger] self.nodes_spec()[i])@.id != (
        #[trigger] self.nodes_spec()[j])@.id by {
            if i < j {
                assert(self.nodes_spec()[i]@.id < self.nodes_spec()[j]@.id);
            } else {
                assert(self.nodes_spec()[j]@.id < self.nodes_spec()[i]@.id);
            }
        };
    }

    pub fn new(screen_descriptor: ScreenDescriptor) -> (r: Self)
        requires
            screen_descriptor.wf(),
        ensures
            r.wf(),
            r.ids_unique(),
            r.nodes_spec().len() == 0,
            r.screen_spec() == screen_descriptor,
            r.next_id_spec() == 0,
    {
        RadiantScene { nodes: Vec::new(), screen_descriptor, next_id: 0 }
    }

    pub fn screen_descriptor(&self) -> (r: ScreenDescriptor)
        ensures
            r == self.screen_spec(),
    {
        self.screen_descriptor
    }

    pub fn node_count(&self) -> (r: usize)
        ensures
            r == self.nodes_spec().len(),
    {
        self.nodes.len()
    }

    pub fn get_node(&self, i: usize) -> (r: &RadiantPathNode)
        requires
            i < self.nodes_spec().len(),
        ensures
            *r == self.nodes_spec()[i as int],
    {
        &self.nodes[i]
    }

    /// Inserts a node at the top of the paint order. The scene is the sole
    /// authority for identities: it stamps the node with the next one and
    /// triggers the node's first tessellation against the current screen.
    /// When the id space of the picking encoding is exhausted the node is
    /// rejected — failing fast here is what keeps every live node's
    /// picking color collision-free.
    pub fn attach(&mut self, node: RadiantPathNode) -> (r: Result<u64, RadiantError>)
        requires
            old(self).wf(),
            node@.wf(),
        ensures
            final(self).wf(),
            final(self).screen_spec() == old(self).screen_spec(),
            old(self).next_id_spec() > MAX_NODE_ID ==> r == Err::<u64, RadiantError>(
                RadiantError::IdentityEncodingOverflow,
            ) && *final(self) == *old(self),
            old(self).next_id_spec() <= MAX_NODE_ID ==> {
                &&& r == Ok::<u64, RadiantError>(old(self).next_id_spec())
                &&& final(self).next_id_spec() == old(self).next_id_spec() + 1
                &&& final(self).nodes_spec().len() == old(self).nodes_spec().len() + 1
                &&& forall|j: int|
                    0 <= j < old(self).nodes_spec().len() ==> final(self).nodes_spec()[j] == old(
                        self,
                    ).nodes_spec()[j]
                &&& final(self).nodes_spec().last()@.id == old(self).next_id_spec()
                &&& final(self).nodes_spec().last()@.transform == node@.transform
                &&& final(self).nodes_spec().last()@.selected == node@.selected
                &&& !final(self).nodes_spec().last()@.dirty
                &&& final(self).nodes_spec().last()@.cache_valid()
                &&& final(self).nodes_spec().last()@.tessellated_for == old(
                    self,
                ).screen_spec().pixels_per_point
            },
    {
        if self.next_id > MAX_NODE_ID {
            return Err(RadiantError::IdentityEncodingOverflow);
        }
        let id = self.next_id;
        let mut node = node;
        node.set_id(id);
        let screen = self.screen_descriptor;
        node.attach_to_scene(&screen);
        self.next_id = id + 1;
        self.nodes.push(node);
        Ok(id)
    }

    /// Creates a fresh path node at the given position and attaches it.
    pub fn add_node(&mut self, position: Point) -> (r: Result<u64, RadiantError>)
        requires
            old(self).wf(),
            point_ok(position),
        ensures
            final(self).wf(),
            final(self).screen_spec() == old(self).screen_spec(),
            old(self).next_id_spec() > MAX_NODE_ID ==> r == Err::<u64, RadiantError>(
                RadiantError::IdentityEncodingOverflow,
            ) && *final(self) == *old(self),
            old(self).next_id_spec() <= MAX_NODE_ID ==> {
                &&& r == Ok::<u64, RadiantError>(old(self).next_id_spec())
                &&& final(self).next_id_spec() == old(self).next_id_spec() + 1
                &&& final(self).nodes_spec().len() == old(self).nodes_spec().len() + 1
                &&& forall|j: int|
                    0 <= j < old(self).nodes_spec().len() ==> final(self).nodes_spec()[j] == old(
                        self,
                    ).nodes_spec()[j]
                &&& final(self).nodes_spec().last()@.id == old(self).next_id_spec()
                &&& final(self).nodes_spec().last()@.transform.position == position
                &&& final(self).nodes_spec().last()@.transform.scale == (Point { x: 0, y: 0 })
                &&& !final(self).nodes_spec().last()@.selected
                &&& !final(self).nodes_spec().last()@.dirty
                &&& final(self).nodes_spec().last()@.cache_valid()
            },
    {
        let node = RadiantPathNode::new(0, position);
        self.attach(node)
    }

    /// Removes the node at the given paint-order index from the scene,
    /// hands it back detached — cache dropped and stale — and keeps every
    /// other node in order. The freed identity is not reused.
    pub fn remove_node(&mut self, i: usize) -> (r: RadiantPathNode)
        requires
            old(self).wf(),
            i < old(self).nodes_spec().len(),
        ensures
            final(self).wf(),
            final(self).screen_spec() == old(self).screen_spec(),
            final(self).next_id_spec() == old(self).next_id_spec(),
            final(self).nodes_spec() == old(self).nodes_spec().remove(i as int),
            r@.same_logical(old(self).nodes_spec()[i as int]@),
            r@.dirty,
    {
        proof {
            assert(self.nodes_spec() == self.nodes@);
            assert(self.nodes_spec()[i as int]@.wf());
        }
        let mut node = self.nodes.remove(i);
        node.detach();
        proof {
            let prior = old(self).nodes_spec();
            assert(self.nodes_spec() == self.nodes@);
            assert forall|j: int| 0 <= j < self.nodes_spec().len() implies {
                &&& (#[trigger] self.nodes_spec()[j])@.wf()
                &&& (!self.nodes_spec()[j]@.dirty ==> self.nodes_spec()[j]@.tessellated_for
                    == self.screen_spec().pixels_per_point)
                &&& self.nodes_spec()[j]@.id < self.next_id_spec()
            } by {
                assert(self.nodes_spec()[j] == self.nodes@[j]);
                if j < i as int {
                    assert(self.nodes@[j] == prior[j]);
                } else {
                    assert(self.nodes@[j] == prior[j + 1]);
                }
            };
            assert forall|a: int, b: int|
                0 <= a < b < self.nodes_spec().len() implies (
            #[trigger] self.nodes_spec()[a])@.id < (#[trigger] self.nodes_spec()[b])@.id by {
                let pa: int = if a < i as int {
                    a
                } else {
                    a + 1
                };
                let pb: int = if b < i as int {
                    b
                } else {
                    b + 1
                };
                assert(self.nodes_spec()[a] == prior[pa]);
                assert(self.nodes_spec()[b] == prior[pb]);
                assert(prior[pa]@.id < prior[pb]@.id);
            };
            assert(self.wf());
        }
        node
    }

    /// Updates the screen descriptor. Geometry depends on the pixel ratio
    /// but not on the surface size, so nodes are marked stale only when
    /// the pixel ratio actually changed; a pure size change reconfigures
    /// the surface without forcing any re-tessellation.
    pub fn resize(&mut self, screen_descriptor: ScreenDescriptor)
        requires
            old(self).wf(),
            screen_descriptor.wf(),
        ensures
            final(self).wf(),
            final(self).screen_spec() == screen_descriptor,
            final(self).next_id_spec() == old(self).next_id_spec(),
            final(self).nodes_spec().len() == old(self).nodes_spec().len(),
            screen_descriptor.pixels_per_point == old(self).screen_spec().pixels_per_point
                ==> final(self).nodes_spec() == old(self).nodes_spec(),
            screen_descriptor.pixels_per_point != old(self).screen_spec().pixels_per_point
                ==> forall|i: int|
                0 <= i < old(self).nodes_spec().len() ==> {
                    &&& (#[trigger] final(self).nodes_spec()[i])@.dirty
                    &&& final(self).nodes_spec()[i]@.same_logical(old(self).nodes_spec()[i]@)
                    &&& final(self).nodes_spec()[i]@.same_caches(old(self).nodes_spec()[i]@)
                },
    {
        let changed = screen_descriptor.pixels_per_point
            != self.screen_descriptor.pixels_per_point;
        self.screen_descriptor = screen_descriptor;
        if changed {
            let mut i: usize = 0;
            while i < self.nodes.len()
                invariant
                    old(self).wf(),
                    0 <= i <= self.nodes@.len(),
                    self.nodes@.len() == old(self).nodes_spec().len(),
                    self.screen_descriptor == screen_descriptor,
                    self.next_id == old(self).next_id_spec(),
                    forall|j: int|
                        i <= j < self.nodes@.len() ==> #[trigger] self.nodes@[j] == old(
                            self,
                        ).nodes_spec()[j],
                    forall|j: int|
                        0 <= j < i ==> {
                            &&& (#[trigger] self.nodes@[j])@.dirty
                            &&& self.nodes@[j]@.same_logical(old(self).nodes_spec()[j]@)
                            &&& self.nodes@[j]@.same_caches(old(self).nodes_spec()[j]@)
                            &&& self.nodes@[j]@.wf()
                        },
                decreases self.nodes@.len() - i,
            {
                let node = &mut self.nodes[i];
                proof {
                    assert(old(self).nodes_spec()[i as int]@.wf());
                }
                node.set_needs_tessellation();
                i = i + 1;
            }
        }
    }

    /// Tessellates every node lazily, in paint order, and collects their
    /// visual draw primitives — one per node, in order — for the external
    /// rasterizer. Clean nodes are served from cache without recomputation.
    pub fn render(&mut self) -> (r: Vec<DrawPrimitive>)
        requires
            old(self).wf(),
        ensures
            final(self).wf(),
            final(self).screen_spec() == old(self).screen_spec(),
            final(self).next_id_spec() == old(self).next_id_spec(),
            final(self).nodes_spec().len() == old(self).nodes_spec().len(),
            forall|i: int|
                0 <= i < old(self).nodes_spec().len() ==> {
                    &&& (#[trigger] final(self).nodes_spec()[i])@.same_logical(
                        old(self).nodes_spec()[i]@,
                    )
                    &&& !final(self).nodes_spec()[i]@.dirty
                    &&& final(self).nodes_spec()[i]@.cache_valid()
                    &&& final(self).nodes_spec()[i]@.tessellated_for == old(
                        self,
                    ).screen_spec().pixels_per_point
                },
            r@.len() == old(self).nodes_spec().len(),
            forall|i: int|
                0 <= i < r@.len() ==> (#[trigger] r@[i])@ == draw_prim_model(
                    old(self).nodes_spec()[i]@.transform,
                    old(self).screen_spec().pixels_per_point,
                ),
    {
        let screen = self.screen_descriptor;
        let mut out: Vec<DrawPrimitive> = Vec::new();
        let mut i: usize = 0;
        while i < self.nodes.len()
            invariant
                old(self).wf(),
                0 <= i <= self.nodes@.len(),
                self.nodes@.len() == old(self).nodes_spec().len(),
                self.screen_descriptor == old(self).screen_spec(),
                self.next_id == old(self).next_id_spec(),
                screen == old(self).screen_spec(),
                forall|j: int|
                    i <= j < self.nodes@.len() ==> #[trigger] self.nodes@[j] == old(
                        self,
                    ).nodes_spec()[j],
                forall|j: int|
                    0 <= j < i ==> {
                        &&& (#[trigger] self.nodes@[j])@.same_logical(old(self).nodes_spec()[j]@)
                        &&& !self.nodes@[j]@.dirty
                        &&& self.nodes@[j]@.cache_valid()
                        &&& self.nodes@[j]@.tessellated_for == screen.pixels_per_point
                        &&& self.nodes@[j]@.wf()
                    },
                out@.len() == i,
                forall|j: int|
                    0 <= j < i ==> (#[trigger] out@[j])@ == draw_prim_model(
                        old(self).nodes_spec()[j]@.transform,
                        screen.pixels_per_point,
                    ),
            decreases self.nodes@.len() - i,
        {
            proof {
                assert(old(self).nodes_spec()[i as int]@.wf());
            }
            let node = &mut self.nodes[i];
            let mut prims = node.tessellate(false, &screen);
            proof {
                assert(prims_view(prims@).len() == prims@.len());
                assert(prims@.len() == 1);
                assert(prims@[0]@ == prims_view(prims@)[0]);
            }
            let p = prims.pop().unwrap();
            out.push(p);
            i = i + 1;
        }
        out
    }

    /// Resolves the node under a point by evaluating the identity-colored
    /// picking primitives in reverse paint order — the top-most covering
    /// node wins, matching rendering occlusion — and decoding the color
    /// found there back into the node's id. `None` means background.
    /// Nodes are tessellated lazily on the way down.
    pub fn hit_test(&mut self, point: Point) -> (r: Option<u64>)
        requires
            old(self).wf(),
            vertex_ok(point),
        ensures
            final(self).wf(),
            final(self).screen_spec() == old(self).screen_spec(),
            final(self).next_id_spec() == old(self).next_id_spec(),
            final(self).nodes_spec().len() == old(self).nodes_spec().len(),
            forall|i: int|
                0 <= i < old(self).nodes_spec().len() ==> (#[trigger] final(self).nodes_spec()[i])@.same_logical(
                    old(self).nodes_spec()[i]@,
                ),
            r == hit_from(
                old(self).nodes_spec(),
                old(self).screen_spec().pixels_per_point,
                point,
                old(self).nodes_spec().len() as int,
            ),
    {
        let screen = self.screen_descriptor;
        let ghost k = screen.pixels_per_point;
        let ghost orig = self.nodes@;
        proof {
            assert(self.nodes_spec() == self.nodes@);
            assert forall|j: int| 0 <= j < self.nodes@.len() implies {
                &&& (#[trigger] self.nodes@[j])@.wf()
                &&& (!self.nodes@[j]@.dirty ==> self.nodes@[j]@.tessellated_for == k)
                &&& self.nodes@[j]@.id < self.next_id
            } by {
                assert(self.nodes@[j] == old(self).nodes_spec()[j]);
            };
            assert forall|a: int, b: int| 0 <= a < b < orig.len() implies (#[trigger] orig[a])@.id
                < (#[trigger] orig[b])@.id by {
                assert(orig[a] == old(self).nodes_spec()[a]);
                assert(orig[b] == old(self).nodes_spec()[b]);
            };
        }
        let mut i: usize = self.nodes.len();
        while i > 0
            invariant
                vertex_ok(point),
                0 <= i <= self.nodes@.len(),
                orig == old(self).nodes_spec(),
                self.nodes@.len() == orig.len(),
                screen == old(self).screen_spec(),
                screen.wf(),
                k == screen.pixels_per_point,
                self.screen_descriptor == old(self).screen_spec(),
                self.next_id == old(self).next_id_spec(),
                self.next_id <= MAX_NODE_ID + 1,
                forall|j: int|
                    0 <= j < self.nodes@.len() ==> (#[trigger] self.nodes@[j])@.wf(),
                forall|j: int|
                    0 <= j < self.nodes@.len() ==> (!(#[trigger] self.nodes@[j])@.dirty
                        ==> self.nodes@[j]@.tessellated_for == k),
                forall|j: int|
                    0 <= j < self.nodes@.len() ==> (#[trigger] self.nodes@[j])@.id < self.next_id,
                forall|j: int|
                    0 <= j < orig.len() ==> (#[trigger] self.nodes@[j])@.same_logical(orig[j]@),
                forall|a: int, b: int|
                    0 <= a < b < orig.len() ==> (#[trigger] orig[a])@.id < (#[trigger] orig[b])@.id,
                hit_from(orig, k, point, orig.len() as int) == hit_from(orig, k, point, i as int),
            decreases i,
        {
            i = i - 1;
            let ghost pre = self.nodes@;
            let node = &mut self.nodes[i];
            let prims = node.tessellate(true, &screen);
            let ghost m = node@;
            proof {
                assert(m.cache_valid() && m.tessellated_for == k);
                assert(prims_view(prims@).len() == prims@.len());
                assert(prims@.len() == 1);
                assert(prims@[0]@ == prims_view(prims@)[0]);
                assert(prims@[0]@.points == path_points(m.transform.position, m.transform.scale, k));
                lemma_path_points_bounded(m.transform.position, m.transform.scale, k);
            }
            let covered = covers_point(&prims[0].points, point);
            if covered {
                let decoded = decode_color(prims[0].color);
                proof {
                    lemma_pick_round_trip(m.id);
                    assert(m.same_logical(orig[i as int]@));
                    assert(covers(
                        path_points(orig[i as int]@.transform.position, orig[i as int]@.transform.scale, k),
                        point,
                    ));
                    assert(hit_from(orig, k, point, i + 1) == Some(orig[i as int]@.id));
                    assert(self.nodes_spec() == self.nodes@);
                    assert forall|j: int| 0 <= j < self.nodes_spec().len() implies {
                        &&& (#[trigger] self.nodes_spec()[j])@.wf()
                        &&& (!self.nodes_spec()[j]@.dirty ==> self.nodes_spec()[j]@.tessellated_for
                            == self.screen_spec().pixels_per_point)
                        &&& self.nodes_spec()[j]@.id < self.next_id_spec()
                        &&& self.nodes_spec()[j]@.same_logical(old(self).nodes_spec()[j]@)
                    } by {
                        assert(self.nodes_spec()[j] == self.nodes@[j]);
                        if j != i as int {
                            assert(self.nodes@[j] == pre[j]);
                        }
                    };
                    assert forall|a: int, b: int|
                        0 <= a < b < self.nodes_spec().len() implies (
                    #[trigger] self.nodes_spec()[a])@.id < (
                    #[trigger] self.nodes_spec()[b])@.id by {
                        assert(self.nodes_spec()[a]@.same_logical(old(self).nodes_spec()[a]@));
                        assert(self.nodes_spec()[b]@.same_logical(old(self).nodes_spec()[b]@));
                        assert(orig[a]@.id < orig[b]@.id);
                    };
                    assert(self.wf());
                }
                return decoded;
            }
            proof {
                assert(m.same_logical(orig[i as int]@));
                assert(!covers(
                    path_points(orig[i as int]@.transform.position, orig[i as int]@.transform.scale, k),
                    point,
                ));
                assert(hit_from(orig, k, point, i + 1) == hit_from(orig, k, point, i as int));
            }
        }
        proof {
            assert(self.nodes_spec() == self.nodes@);
            assert forall|j: int| 0 <= j < self.nodes_spec().len() implies {
                &&& (#[trigger] self.nodes_spec()[j])@.wf()
                &&& (!self.nodes_spec()[j]@.dirty ==> self.nodes_spec()[j]@.tessellated_for
                    == self.screen_spec().pixels_per_point)
                &&& self.nodes_spec()[j]@.id < self.next_id_spec()
                &&& self.nodes_spec()[j]@.same_logical(old(self).nodes_spec()[j]@)
            } by {
                assert(self.nodes_spec()[j] == self.nodes@[j]);
            };
            assert forall|a: int, b: int|
                0 <= a < b < self.nodes_spec().len() implies (
            #[trigger] self.nodes_spec()[a])@.id < (#[trigger] self.nodes_spec()[b])@.id by {
                assert(self.nodes_spec()[a]@.same_logical(old(self).nodes_spec()[a]@));
                assert(self.nodes_spec()[b]@.same_logical(old(self).nodes_spec()[b]@));
                assert(orig[a]@.id < orig[b]@.id);
            };
            assert(self.wf());
        }
        None
    }

    /// Pointer-down: resolves the node under the pointer and moves the
    /// selection there — the hit node becomes selected, every other node
    /// deselected; with no hit the selection clears. Returns whether any
    /// selection flag changed, which is when a redraw is warranted.
    /// Selection is presentation state: no geometry cache is invalidated.
    pub fn on_mouse_down(&mut self, position: Point) -> (r: bool)
        requires
            old(self).wf(),
            vertex_ok(position),
        ensures
            final(self).wf(),
            final(self).screen_spec() == old(self).screen_spec(),
            final(self).next_id_spec() == old(self).next_id_spec(),
            final(self).nodes_spec().len() == old(self).nodes_spec().len(),
            forall|i: int|
                0 <= i < old(self).nodes_spec().len() ==> {
                    &&& (#[trigger] final(self).nodes_spec()[i])@.id == old(
                        self,
                    ).nodes_spec()[i]@.id
                    &&& final(self).nodes_spec()[i]@.transform == old(
                        self,
                    ).nodes_spec()[i]@.transform
                },
            ({
                let h = hit_from(
                    old(self).nodes_spec(),
                    old(self).screen_spec().pixels_per_point,
                    position,
                    old(self).nodes_spec().len() as int,
                );
                forall|i: int|
                    0 <= i < final(self).nodes_spec().len() ==> ((
                    #[trigger] final(self).nodes_spec()[i])@.selected <==> h == Some(
                        final(self).nodes_spec()[i]@.id,
                    ))
            }),
            r == exists|i: int|
                0 <= i < old(self).nodes_spec().len() && (#[trigger] final(self).nodes_spec()[i])@.selected
                    != old(self).nodes_spec()[i]@.selected,
    {
        let hit = self.hit_test(position);
        let ghost h = hit;
        let ghost mid = self.nodes@;
        let ghost k = self.screen_descriptor.pixels_per_point;
        proof {
            assert(self.nodes_spec() == self.nodes@);
            assert forall|j: int| 0 <= j < mid.len() implies {
                &&& (#[trigger] mid[j])@.wf()
                &&& (!mid[j]@.dirty ==> mid[j]@.tessellated_for == k)
                &&& mid[j]@.id < self.next_id
                &&& mid[j]@.same_logical(old(self).nodes_spec()[j]@)
            } by {
                assert(mid[j] == self.nodes_spec()[j]);
            };
        }
        let mut changed = false;
        let mut i: usize = 0;
        while i < self.nodes.len()
            invariant
                0 <= i <= self.nodes@.len(),
                self.nodes@.len() == mid.len(),
                mid.len() == old(self).nodes_spec().len(),
                self.screen_descriptor == old(self).screen_spec(),
                self.screen_descriptor.wf(),
                self.next_id == old(self).next_id_spec(),
                self.next_id <= MAX_NODE_ID + 1,
                k == self.screen_descriptor.pixels_per_point,
                h == hit,
                forall|j: int|
                    0 <= j < mid.len() ==> {
                        &&& (#[trigger] mid[j])@.wf()
                        &&& (!mid[j]@.dirty ==> mid[j]@.tessellated_for == k)
                        &&& mid[j]@.id < self.next_id
                        &&& mid[j]@.same_logical(old(self).nodes_spec()[j]@)
                    },
                forall|j: int| i <= j < mid.len() ==> #[trigger] self.nodes@[j] == mid[j],
                forall|j: int|
                    0 <= j < i ==> {
                        &&& (#[trigger] self.nodes@[j])@.same_but_selected(mid[j]@)
                        &&& (self.nodes@[j]@.selected <==> h == Some(self.nodes@[j]@.id))
                        &&& self.nodes@[j]@.wf()
                    },
                changed == exists|j: int|
                    0 <= j < i && (#[trigger] self.nodes@[j])@.selected != mid[j]@.selected,
            decreases self.nodes@.len() - i,
        {
            let ghost pre = self.nodes@;
            proof {
                assert(self.nodes@[i as int] == mid[i as int]);
            }
            let current = &self.nodes[i];
            let want = match hit {
                Some(hit_id) => current.get_id() == hit_id,
                None => false,
            };
            let was = current.is_selected();
            if was != want {
                let node = &mut self.nodes[i];
                node.set_selected(want);
                changed = true;
                proof {
                    assert(self.nodes@[i as int]@.selected != mid[i as int]@.selected);
                }
            }
            i = i + 1;
        }
        proof {
            assert(self.nodes_spec() == self.nodes@);
            assert forall|j: int| 0 <= j < self.nodes_spec().len() implies {
                &&& (#[trigger] self.nodes_spec()[j])@.wf()
                &&& (!self.nodes_spec()[j]@.dirty ==> self.nodes_spec()[j]@.tessellated_for
                    == self.screen_spec().pixels_per_point)
                &&& self.nodes_spec()[j]@.id < self.next_id_spec()
                &&& self.nodes_spec()[j]@.id == old(self).nodes_spec()[j]@.id
                &&& self.nodes_spec()[j]@.transform == old(self).nodes_spec()[j]@.transform
                &&& (self.nodes_spec()[j]@.selected <==> h == Some(self.nodes_spec()[j]@.id))
                &&& (self.nodes_spec()[j]@.selected != old(self).nodes_spec()[j]@.selected
                    <==> self.nodes@[j]@.selected != mid[j]@.selected)
            } by {
                assert(self.nodes_spec()[j] == self.nodes@[j]);
            };
            assert(self.wf());
            if changed {
                let jw = choose|j: int|
                    0 <= j < self.nodes@.len() && (#[trigger] self.nodes@[j])@.selected
                        != mid[j]@.selected;
                assert(self.nodes_spec()[jw]@.selected != old(self).nodes_spec()[jw]@.selected);
            }
        }
        changed
    }

    /// Moves one node, routed through the node so the geometry cache is
    /// invalidated exactly when geometry is affected.
    pub fn set_node_position(&mut self, i: usize, position: Point)
        requires
            old(self).wf(),
            i < old(self).nodes_spec().len(),
            point_ok(position),
        ensures
            final(self).wf(),
            final(self).screen_spec() == old(self).screen_spec(),
            final(self).next_id_spec() == old(self).next_id_spec(),
            final(self).nodes_spec().len() == old(self).nodes_spec().len(),
            forall|j: int|
                0 <= j < old(self).nodes_spec().len() && j != i
                    ==> #[trigger] final(self).nodes_spec()[j] == old(self).nodes_spec()[j],
            final(self).nodes_spec()[i as int]@.transform.position == position,
            final(self).nodes_spec()[i as int]@.transform.scale == old(
                self,
            ).nodes_spec()[i as int]@.transform.scale,
            final(self).nodes_spec()[i as int]@.dirty,
            final(self).nodes_spec()[i as int]@.id == old(self).nodes_spec()[i as int]@.id,
            final(self).nodes_spec()[i as int]@.selected == old(
                self,
            ).nodes_spec()[i as int]@.selected,
    {
        proof {
            assert(self.nodes_spec() == self.nodes@);
            assert(self.nodes_spec()[i as int]@.wf());
        }
        let node = &mut self.nodes[i];
        node.set_position(position);
        proof {
            assert(self.nodes_spec() == self.nodes@);
            assert forall|j: int| 0 <= j < self.nodes_spec().len() implies {
                &&& (#[trigger] self.nodes_spec()[j])@.wf()
                &&& (!self.nodes_spec()[j]@.dirty ==> self.nodes_spec()[j]@.tessellated_for
                    == self.screen_spec().pixels_per_point)
                &&& self.nodes_spec()[j]@.id < self.next_id_spec()
            } by {
                assert(self.nodes_spec()[j] == self.nodes@[j]);
                if j != i as int {
                    assert(self.nodes@[j] == old(self).nodes_spec()[j]);
                }
            };
            assert(self.wf());
        }
    }

    /// Rescales one node, routed through the node as `set_node_position`.
    pub fn set_node_scale(&mut self, i: usize, scale: Point)
        requires
            old(self).wf(),
            i < old(self).nodes_spec().len(),
            point_ok(scale),
        ensures
            final(self).wf(),
            final(self).screen_spec() == old(self).screen_spec(),
            final(self).next_id_spec() == old(self).next_id_spec(),
            final(self).nodes_spec().len() == old(self).nodes_spec().len(),
            forall|j: int|
                0 <= j < old(self).nodes_spec().len() && j != i
                    ==> #[trigger] final(self).nodes_spec()[j] == old(self).nodes_spec()[j],
            final(self).nodes_spec()[i as int]@.transform.scale == scale,
            final(self).nodes_spec()[i as int]@.transform.position == old(
                self,
            ).nodes_spec()[i as int]@.transform.position,
            final(self).nodes_spec()[i as int]@.dirty,
            final(self).nodes_spec()[i as int]@.id == old(self).nodes_spec()[i as int]@.id,
            final(self).nodes_spec()[i as int]@.selected == old(
                self,
            ).nodes_spec()[i as int]@.selected,
    {
        proof {
            assert(self.nodes_spec() == self.nodes@);
            assert(self.nodes_spec()[i as int]@.wf());
        }
        let node = &mut self.nodes[i];
        node.set_scale(scale);
        proof {
            assert(self.nodes_spec() == self.nodes@);
            assert forall|j: int| 0 <= j < self.nodes_spec().len() implies {
                &&& (#[trigger] self.nodes_spec()[j])@.wf()
                &&& (!self.nodes_spec()[j]@.dirty ==> self.nodes_spec()[j]@.tessellated_for
                    == self.screen_spec().pixels_per_point)
                &&& self.nodes_spec()[j]@.id < self.next_id_spec()
            } by {
                assert(self.nodes_spec()[j] == self.nodes@[j]);
                if j != i as int {
                    assert(self.nodes@[j] == old(self).nodes_spec()[j]);
                }
            };
            assert(self.wf());
        }
    }

    /// Selects or deselects one node directly. Selection never touches the
    /// geometry caches or the dirty flag of any node.
    pub fn set_node_selected(&mut self, i: usize, selected: bool)
        requires
            old(self).wf(),
            i < old(self).nodes_spec().len(),
        ensures
            final(self).wf(),
            final(self).screen_spec() == old(self).screen_spec(),
            final(self).next_id_spec() == old(self).next_id_spec(),
            final(self).nodes_spec().len() == old(self).nodes_spec().len(),
            forall|j: int|
                0 <= j < old(self).nodes_spec().len() && j != i
                    ==> #[trigger] final(self).nodes_spec()[j] == old(self).nodes_spec()[j],
            final(self).nodes_spec()[i as int]@.selected == selected,
            final(self).nodes_spec()[i as int]@.same_but_selected(
                old(self).nodes_spec()[i as int]@,
            ),
    {
        proof {
            assert(self.nodes_spec() == self.nodes@);
            assert(self.nodes_spec()[i as int]@.wf());
        }
        let node = &mut self.nodes[i];
        node.set_selected(selected);
        proof {
            assert(self.nodes_spec() == self.nodes@);
            assert forall|j: int| 0 <= j < self.nodes_spec().len() implies {
                &&& (#[trigger] self.nodes_spec()[j])@.wf()
                &&& (!self.nodes_spec()[j]@.dirty ==> self.nodes_spec()[j]@.tessellated_for
                    == self.screen_spec().pixels_per_point)
                &&& self.nodes_spec()[j]@.id < self.next_id_spec()
            } by {
                assert(self.nodes_spec()[j] == self.nodes@[j]);
                if j != i as int {
                    assert(self.nodes@[j] == old(self).nodes_spec()[j]);
                }
            };
            assert(self.wf());
        }
    }

    /// Pointer-move: tool-specific drag semantics live outside this core,
    /// so the scene itself changes nothing and never asks for a redraw.
    pub fn on_mouse_move(&mut self, position: Point) -> (r: bool)
        requires
            old(self).wf(),
        ensures
            *final(self) == *old(self),
            r == false,
    {
        let _ = position;
        false
    }

    /// Pointer-up: like pointer-move, a no-op inside this core.
    pub fn on_mouse_up(&mut self, position: Point) -> (r: bool)
        requires
            old(self).wf(),
        ensures
            *final(self) == *old(self),
            r == false,
    {
        let _ = position;
        false
    }
}

} // verus!
