//! The live render set: one render node per renderable scene entity,
//! bundling the entity's shared resource handles with its cheap per-entity
//! state (transform, uniform bindings, blend flag), plus the single camera
//! transform.

use vstd::pervasive::VecAdditionalExecFns;
use vstd::prelude::*;

use crate::pon::{deep_clone_pon, Pon, PonV};

verus! {

/// One renderable entity: its identifier, handles into the three resource
/// caches, and its cheap state. Transform, uniform bindings and camera stay
/// in descriptor form; the backend translates them at draw time, and a
/// missing transform means identity.
pub struct RenderNode {
    pub id: u64,
    pub shader: usize,
    pub vertex_array: usize,
    pub textures: Vec<(String, usize)>,
    pub transform: Option<Pon>,
    pub uniforms: Option<Pon>,
    pub alpha: bool,
}

/// Mathematical model of a render node.
#[verifier::ext_equal]
pub struct NodeV {
    pub id: u64,
    pub shader: int,
    pub vertex_array: int,
    pub textures: Seq<(Seq<char>, int)>,
    pub transform: Option<PonV>,
    pub uniforms: Option<PonV>,
    pub alpha: bool,
}

/// Model of a list of named resource handles.
pub open spec fn handles_view(v: Seq<(String, usize)>) -> Seq<(Seq<char>, int)> {
    Seq::new(
        v.len(),
        |i: int|
            if 0 <= i < v.len() {
                (v[i].0@, v[i].1 as int)
            } else {
                (Seq::empty(), 0int)
            },
    )
}

/// Model of an optional descriptor value.
pub open spec fn opt_view(p: Option<Pon>) -> Option<PonV> {
    match p {
        Some(q) => Some(q@),
        None => None,
    }
}

impl View for RenderNode {
    type V = NodeV;

    open spec fn view(&self) -> NodeV {
        NodeV {
            id: self.id,
            shader: self.shader as int,
            vertex_array: self.vertex_array as int,
            textures: handles_view(self.textures@),
            transform: opt_view(self.transform),
            uniforms: opt_view(self.uniforms),
            alpha: self.alpha,
        }
    }
}

/// Mathematical model of the renderer.
#[verifier::ext_equal]
pub struct RendererV {
    pub nodes: Seq<NodeV>,
    pub camera: Option<PonV>,
}

/// The live render set and the camera transform (descriptor form; missing
/// means identity).
pub struct Renderer {
    pub nodes: Vec<RenderNode>,
    pub camera: Option<Pon>,
}

impl View for Renderer {
    type V = RendererV;

    open spec fn view(&self) -> RendererV {
        RendererV {
            nodes: Seq::new(
                self.nodes@.len(),
                |i: int|
                    if 0 <= i < self.nodes@.len() {
                        self.nodes@[i]@
                    } else {
                        arbitrary()
                    },
            ),
            camera: opt_view(self.camera),
        }
    }
}

/// The render set after discarding the node of entity `id`: the first node
/// with that identifier is removed, the rest keep their order.
pub open spec fn remove_id(nodes: Seq<NodeV>, id: u64) -> Seq<NodeV>
    decreases nodes.len(),
{
    if nodes.len() == 0 {
        nodes
    } else if nodes[0].id == id {
        nodes.drop_first()
    } else {
        seq![nodes[0]] + remove_id(nodes.drop_first(), id)
    }
}

proof fn lemma_remove_id_at(nodes: Seq<NodeV>, id: u64, i: int)
    requires
        0 <= i < nodes.len(),
        nodes[i].id == id,
        forall|j: int| 0 <= j < i ==> nodes[j].id != id,
    ensures
        remove_id(nodes, id) == nodes.remove(i),
    decreases i,
{
    if i == 0 {
        assert(remove_id(nodes, id) =~= nodes.remove(0));
    } else {
        lemma_remove_id_at(nodes.drop_first(), id, i - 1);
        assert(nodes.drop_first()[i - 1] == nodes[i]);
        assert(seq![nodes[0]] + nodes.drop_first().remove(i - 1) =~= nodes.remove(i));
    }
}

proof fn lemma_remove_id_missing(nodes: Seq<NodeV>, id: u64)
    requires
        forall|j: int| 0 <= j < nodes.len() ==> nodes[j].id != id,
    ensures
        remove_id(nodes, id) == nodes,
    decreases nodes.len(),
{
    if nodes.len() > 0 {
        lemma_remove_id_missing(nodes.drop_first(), id);
        assert(seq![nodes[0]] + nodes.drop_first() =~= nodes);
    }
}

/// The render set after a transform update for entity `id`: every node of
/// that entity carries the new transform, all else is untouched.
pub open spec fn set_transform_spec(nodes: Seq<NodeV>, id: u64, t: Option<PonV>) -> Seq<NodeV> {
    Seq::new(
        nodes.len(),
        |i: int|
            if 0 <= i < nodes.len() {
                if nodes[i].id == id {
                    NodeV { transform: t, ..nodes[i] }
                } else {
                    nodes[i]
                }
            } else {
                arbitrary()
            },
    )
}

impl Renderer {
    /// An empty render set with the identity camera.
    pub fn new() -> (r: Renderer)
        ensures
            r@.nodes == Seq::<NodeV>::empty(),
            r@.camera is None,
    {
        let r = Renderer { nodes: Vec::new(), camera: None };
        proof {
            assert(r@.nodes =~= Seq::<NodeV>::empty());
        }
        r
    }

    /// Registers a freshly built node.
    pub fn add_node(&mut self, node: RenderNode)
        ensures
            final(self)@.nodes == old(self)@.nodes.push(node@),
            final(self)@.camera == old(self)@.camera,
    {
        let ghost prev = self@.nodes;
        self.nodes.push(node);
        proof {
            assert(self@.nodes =~= prev.push(self.nodes@.last()@));
        }
    }

    /// Discards the node of entity `entity_id`, if one exists.
    #[verifier::loop_isolation(false)]
    pub fn remove_node(&mut self, entity_id: u64)
        ensures
            final(self)@.nodes == remove_id(old(self)@.nodes, entity_id),
            final(self)@.camera == old(self)@.camera,
    {
        let n = self.nodes.len();
        let mut i: usize = 0;
        while i < n
            invariant
                self.nodes == old(self).nodes,
                self.camera == old(self).camera,
                n == self.nodes@.len(),
                i <= n,
                forall|j: int| 0 <= j < i ==> self@.nodes[j].id != entity_id,
            decreases n - i,
        {
            if self.nodes[i].id == entity_id {
                let ghost prev = self@.nodes;
                self.nodes.remove(i);
                proof {
                    lemma_remove_id_at(prev, entity_id, i as int);
                    assert(self@.nodes =~= prev.remove(i as int));
                }
                return ;
            }
            i = i + 1;
        }
        proof {
            lemma_remove_id_missing(self@.nodes, entity_id);
        }
    }

    /// Overwrites the transform of entity `entity_id`'s node in place; a
    /// missing node makes this a no-op (rendering is gated on mesh
    /// resolvability, not on transform presence).
    #[verifier::loop_isolation(false)]
    pub fn set_transform(&mut self, entity_id: u64, transform: &Option<Pon>)
        ensures
            final(self)@.nodes == set_transform_spec(
                old(self)@.nodes,
                entity_id,
                opt_view(*transform),
            ),
            final(self)@.camera == old(self)@.camera,
    {
        let n = self.nodes.len();
        let mut i: usize = 0;
        while i < n
            invariant
                self.camera == old(self).camera,
                n == self.nodes@.len(),
                i <= n,
                forall|j: int|
                    i <= j < n ==> self@.nodes[j] == old(self)@.nodes[j],
                forall|j: int|
                    0 <= j < i ==> self@.nodes[j] == set_transform_spec(
                        old(self)@.nodes,
                        entity_id,
                        opt_view(*transform),
                    )[j],
            decreases n - i,
        {
            if self.nodes[i].id == entity_id {
                let t = match transform {
                    Some(p) => Some(deep_clone_pon(p)),
                    None => None,
                };
                let ghost cur = self.nodes@;
                let ghost cur_view = self@.nodes;
                let prev_node = self.nodes.remove(i);
                let node = RenderNode { transform: t, ..prev_node };
                self.nodes.insert(i, node);
                proof {
                    assert(self.nodes@ =~= cur.update(i as int, node));
                    assert(node@ == NodeV {
                        transform: opt_view(*transform),
                        ..cur_view[i as int]
                    });
                    assert(self@.nodes =~= cur_view.update(i as int, node@));
                    assert(self@.nodes[i as int] == set_transform_spec(
                        old(self)@.nodes,
                        entity_id,
                        opt_view(*transform),
                    )[i as int]);
                }
            }
            i = i + 1;
        }
        proof {
            assert(self@.nodes =~= set_transform_spec(
                old(self)@.nodes,
                entity_id,
                opt_view(*transform),
            ));
        }
    }
}

} // verus!
