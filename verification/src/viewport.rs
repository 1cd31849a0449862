//! The scene synchronizer: it receives batched property-change
//! notifications from the scene graph, decides per entity whether its render
//! node must be rebuilt, patched in place, or left alone, and resolves every
//! rebuild through the content-addressed resource caches.
//!
//! Structural properties (`mesh`, `diffuse`, `alpha`) force a full rebuild
//! of the entity's node: the old node is discarded and a new one is built
//! from the entity's current descriptors. Cheap properties (`transformed`,
//! `camera`) patch state in place without touching the caches.

use vstd::prelude::*;

use crate::assets::{AssetStore, AssetV};
use crate::cache::{
    binding_of, cache_step, ShaderProgramCache, TextureCache, VertexArrayCache,
};
use crate::error::{CompileError, CompileErrorV};
use crate::pon::{deep_clone_pon, str_eq, Pon, PonV};
use crate::pon_to_resource::{
    shader_of, texture_of, wft, MeshV, ShaderSource, ShaderSourceV, TextureV,
};
use crate::renderer::{
    handles_view, opt_view, remove_id, set_transform_spec, NodeV, RenderNode, Renderer,
};

verus! {

// ---------------------------------------------------------------------------
// The scene-graph snapshot
// ---------------------------------------------------------------------------

/// One changed (entity, property) pair, as delivered by the scene graph's
/// change notification.
pub struct PropRef {
    pub entity_id: u64,
    pub property_key: String,
}

impl View for PropRef {
    type V = (u64, Seq<char>);

    open spec fn view(&self) -> (u64, Seq<char>) {
        (self.entity_id, self.property_key@)
    }
}

/// The model of a property store: (entity, property, value) triples; the
/// most recently set triple for a pair wins.
pub open spec fn store_lookup(
    store: Seq<(u64, Seq<char>, PonV)>,
    entity_id: u64,
    key: Seq<char>,
) -> Option<PonV>
    decreases store.len(),
{
    if store.len() == 0 {
        None
    } else if store[0].0 == entity_id && store[0].1 == key {
        Some(store[0].2)
    } else {
        store_lookup(store.drop_first(), entity_id, key)
    }
}

proof fn lemma_store_lookup_found(
    store: Seq<(u64, Seq<char>, PonV)>,
    entity_id: u64,
    key: Seq<char>,
    i: int,
)
    requires
        0 <= i < store.len(),
        store[i].0 == entity_id && store[i].1 == key,
        forall|j: int| 0 <= j < i ==> !(store[j].0 == entity_id && store[j].1 == key),
    ensures
        store_lookup(store, entity_id, key) == Some(store[i].2),
    decreases i,
{
    if i > 0 {
        lemma_store_lookup_found(store.drop_first(), entity_id, key, i - 1);
    }
}

proof fn lemma_store_lookup_missing(
    store: Seq<(u64, Seq<char>, PonV)>,
    entity_id: u64,
    key: Seq<char>,
)
    requires
        forall|j: int|
            0 <= j < store.len() ==> !(store[j].0 == entity_id && store[j].1 == key),
    ensures
        store_lookup(store, entity_id, key) is None,
    decreases store.len(),
{
    if store.len() > 0 {
        lemma_store_lookup_missing(store.drop_first(), entity_id, key);
    }
}

/// A snapshot of the scene graph's property values, as handed to the
/// synchronizer by the host: the external scene graph is consulted through
/// this value, never directly.
pub struct PropertyStore {
    entries: Vec<(u64, String, Pon)>,
}

impl View for PropertyStore {
    type V = Seq<(u64, Seq<char>, PonV)>;

    closed spec fn view(&self) -> Seq<(u64, Seq<char>, PonV)> {
        Seq::new(
            self.entries@.len(),
            |i: int|
                if 0 <= i < self.entries@.len() {
                    (self.entries@[i].0, self.entries@[i].1@, self.entries@[i].2@)
                } else {
                    arbitrary()
                },
        )
    }
}

impl PropertyStore {
    /// An empty scene: no entity carries any property.
    pub fn new() -> (r: PropertyStore)
        ensures
            r@ == Seq::<(u64, Seq<char>, PonV)>::empty(),
    {
        let r = PropertyStore { entries: Vec::new() };
        proof {
            assert(r@ =~= Seq::<(u64, Seq<char>, PonV)>::empty());
        }
        r
    }

    /// Sets a property value; the newest value for a pair shadows older
    /// ones.
    pub fn set_property(&mut self, entity_id: u64, property_key: String, value: Pon)
        ensures
            final(self)@ == old(self)@.insert(0, (entity_id, property_key@, value@)),
    {
        let ghost prev = self@;
        self.entries.insert(0, (entity_id, property_key, value));
        proof {
            assert(self@ =~= prev.insert(
                0,
                (self.entries@[0].0, self.entries@[0].1@, self.entries@[0].2@),
            ));
        }
    }

    /// Reads an entity's current value for a property, if it has one.
    #[verifier::loop_isolation(false)]
    pub fn get_property_value(&self, entity_id: u64, property_key: &str) -> (r: Option<&Pon>)
        ensures
            match r {
                Some(p) => store_lookup(self@, entity_id, property_key@) == Some(p@),
                None => store_lookup(self@, entity_id, property_key@) is None,
            },
    {
        let n = self.entries.len();
        let mut i: usize = 0;
        while i < n
            invariant
                i <= n,
                forall|j: int|
                    0 <= j < i ==> !(self@[j].0 == entity_id && self@[j].1 == property_key@),
            decreases n - i,
        {
            if self.entries[i].0 == entity_id && str_eq(
                self.entries[i].1.as_str(),
                property_key,
            ) {
                proof {
                    lemma_store_lookup_found(self@, entity_id, property_key@, i as int);
                }
                return Some(&self.entries[i].2);
            }
            i = i + 1;
        }
        proof {
            lemma_store_lookup_missing(self@, entity_id, property_key@);
        }
        None
    }
}

// ---------------------------------------------------------------------------
// The synchronizer's model
// ---------------------------------------------------------------------------

/// Mathematical model of the whole synchronizer: the three cache contents,
/// the live render set and the camera.
#[verifier::ext_equal]
pub struct SysV {
    pub shaders: Seq<(PonV, ShaderSourceV)>,
    pub vertex_arrays: Seq<(PonV, MeshV)>,
    pub textures: Seq<(PonV, TextureV)>,
    pub nodes: Seq<NodeV>,
    pub camera: Option<PonV>,
}

/// How one rebuild attempt ended: the entity was not renderable (and that
/// is no error), a node was built and registered, or a resolution failed
/// and the entity is simply not rendered.
#[verifier::ext_equal]
pub enum BuildOutcome {
    Silent,
    Added,
    Failed(CompileErrorV),
}

/// A property whose change forces a full node rebuild.
pub open spec fn is_structural(key: Seq<char>) -> bool {
    key == "mesh"@ || key == "diffuse"@ || key == "alpha"@
}

/// The texture slots of an entity: its `textures` object if set, else a
/// single `diffuse` slot from its `diffuse` property, else nothing — in
/// which case the entity is not renderable.
pub open spec fn texture_fields_of(store: Seq<(u64, Seq<char>, PonV)>, eid: u64) -> Option<
    PonV,
> {
    match store_lookup(store, eid, "textures"@) {
        Some(t) => Some(t),
        None => match store_lookup(store, eid, "diffuse"@) {
            Some(d) => Some(PonV::Object(seq![("diffuse"@, d)])),
            None => None,
        },
    }
}

/// The blend flag: absent means off; a non-boolean value is a wrong-typed
/// field.
pub open spec fn alpha_of(store: Seq<(u64, Seq<char>, PonV)>, eid: u64) -> Result<
    bool,
    CompileErrorV,
> {
    match store_lookup(store, eid, "alpha"@) {
        None => Ok(false),
        Some(v) => match v {
            PonV::Boolean(b) => Ok(b),
            _ => Err(wft("alpha"@, "boolean"@)),
        },
    }
}

/// Resolving an entity's texture slots left to right: one cache access per
/// named slot. The first failure aborts the remaining slots and is fatal
/// for the node, but every slot already resolved stays cached.
pub open spec fn resolve_slots(
    entries: Seq<(PonV, TextureV)>,
    assets: Seq<(Seq<char>, AssetV)>,
    fields: Seq<(Seq<char>, PonV)>,
) -> (Seq<(PonV, TextureV)>, Result<Seq<(Seq<char>, int)>, CompileErrorV>)
    decreases fields.len(),
{
    if fields.len() == 0 {
        (entries, Ok(Seq::empty()))
    } else {
        let (e1, r1) = cache_step(entries, fields[0].1, texture_of(assets, fields[0].1));
        match r1 {
            Err(er) => (e1, Err(er)),
            Ok(h) => {
                let (e2, r2) = resolve_slots(e1, assets, fields.drop_first());
                match r2 {
                    Err(er) => (e2, Err(er)),
                    Ok(hs) => (e2, Ok(seq![(fields[0].0, h)] + hs)),
                }
            },
        }
    }
}

/// One rebuild attempt for entity `eid` against the current store: read the
/// shader (defaulting to the baseline `"basic"` key), the mesh and the
/// texture slots; resolve them through the caches (the vertex binding keyed
/// on the (shader, mesh) pair); then register the node. Missing mesh or
/// missing texture slots abort silently; any resolution failure is fatal
/// for this entity only, and everything already resolved stays cached.
pub open spec fn build_node(
    sys: SysV,
    assets: Seq<(Seq<char>, AssetV)>,
    store: Seq<(u64, Seq<char>, PonV)>,
    eid: u64,
) -> (SysV, BuildOutcome) {
    let shader_key = match store_lookup(store, eid, "shader"@) {
        Some(p) => p,
        None => PonV::Str("basic"@),
    };
    match store_lookup(store, eid, "mesh"@) {
        None => (sys, BuildOutcome::Silent),
        Some(mesh_key) => match texture_fields_of(store, eid) {
            None => (sys, BuildOutcome::Silent),
            Some(tk) => {
                let (sh_e, sh_r) = cache_step(
                    sys.shaders,
                    shader_key,
                    shader_of(assets, shader_key),
                );
                let sys1 = SysV { shaders: sh_e, ..sys };
                match sh_r {
                    Err(e) => (sys1, BuildOutcome::Failed(e)),
                    Ok(sh_h) => {
                        let bkey = PonV::Array(seq![shader_key, mesh_key]);
                        let (va_e, va_r) = cache_step(
                            sys1.vertex_arrays,
                            bkey,
                            binding_of(bkey),
                        );
                        let sys2 = SysV { vertex_arrays: va_e, ..sys1 };
                        match va_r {
                            Err(e) => (sys2, BuildOutcome::Failed(e)),
                            Ok(va_h) => match tk {
                                PonV::Object(fields) => {
                                    let (tx_e, tx_r) = resolve_slots(
                                        sys2.textures,
                                        assets,
                                        fields,
                                    );
                                    let sys3 = SysV { textures: tx_e, ..sys2 };
                                    match tx_r {
                                        Err(e) => (sys3, BuildOutcome::Failed(e)),
                                        Ok(handles) => match alpha_of(store, eid) {
                                            Err(e) => (sys3, BuildOutcome::Failed(e)),
                                            Ok(alpha) => {
                                                let node = NodeV {
                                                    id: eid,
                                                    shader: sh_h,
                                                    vertex_array: va_h,
                                                    textures: handles,
                                                    transform: store_lookup(
                                                        store,
                                                        eid,
                                                        "transformed"@,
                                                    ),
                                                    uniforms: store_lookup(
                                                        store,
                                                        eid,
                                                        "uniforms"@,
                                                    ),
                                                    alpha,
                                                };
                                                (
                                                    SysV {
                                                        nodes: sys3.nodes.push(node),
                                                        ..sys3
                                                    },
                                                    BuildOutcome::Added,
                                                )
                                            },
                                        },
                                    }
                                },
                                _ => (
                                    sys2,
                                    BuildOutcome::Failed(wft("textures"@, "object"@)),
                                ),
                            },
                        }
                    },
                }
            },
        },
    }
}

/// A structural change handling for one entity: discard its node, then
/// attempt one rebuild.
pub open spec fn rebuild_spec(
    sys: SysV,
    assets: Seq<(Seq<char>, AssetV)>,
    store: Seq<(u64, Seq<char>, PonV)>,
    eid: u64,
) -> SysV {
    build_node(SysV { nodes: remove_id(sys.nodes, eid), ..sys }, assets, store, eid).0
}

/// The entities that appear in a structural trigger, deduplicated in order
/// of first appearance: several structural properties changing together on
/// one entity still produce exactly one rebuild.
pub open spec fn structural_entities(changes: Seq<(u64, Seq<char>)>) -> Seq<u64>
    decreases changes.len(),
{
    if changes.len() == 0 {
        Seq::empty()
    } else {
        let rest = structural_entities(changes.drop_last());
        let last = changes.last();
        if is_structural(last.1) && !rest.contains(last.0) {
            rest.push(last.0)
        } else {
            rest
        }
    }
}

/// The structural pass: one remove + rebuild per deduplicated entity, in
/// order.
pub open spec fn rebuild_all(
    sys: SysV,
    assets: Seq<(Seq<char>, AssetV)>,
    store: Seq<(u64, Seq<char>, PonV)>,
    ents: Seq<u64>,
) -> SysV
    decreases ents.len(),
{
    if ents.len() == 0 {
        sys
    } else {
        rebuild_spec(rebuild_all(sys, assets, store, ents.drop_last()), assets, store, ents.last())
    }
}

/// The cheap transform pass: for every `transformed` change, in order, the
/// entity's node takes the store's current transform (missing means
/// identity); entities without a node are untouched.
pub open spec fn apply_transforms(
    nodes: Seq<NodeV>,
    store: Seq<(u64, Seq<char>, PonV)>,
    changes: Seq<(u64, Seq<char>)>,
) -> Seq<NodeV>
    decreases changes.len(),
{
    if changes.len() == 0 {
        nodes
    } else {
        let prev = apply_transforms(nodes, store, changes.drop_last());
        let last = changes.last();
        if last.1 == "transformed"@ {
            set_transform_spec(prev, last.0, store_lookup(store, last.0, "transformed"@))
        } else {
            prev
        }
    }
}

/// The camera pass: every `camera` change overwrites the single camera
/// transform with the changed entity's current `camera` value (missing
/// means identity).
pub open spec fn apply_camera(
    camera: Option<PonV>,
    store: Seq<(u64, Seq<char>, PonV)>,
    changes: Seq<(u64, Seq<char>)>,
) -> Option<PonV>
    decreases changes.len(),
{
    if changes.len() == 0 {
        camera
    } else {
        let prev = apply_camera(camera, store, changes.drop_last());
        let last = changes.last();
        if last.1 == "camera"@ {
            store_lookup(store, last.0, "camera"@)
        } else {
            prev
        }
    }
}

/// One whole notification batch: the structural pass, then the transform
/// pass, then the camera pass.
pub open spec fn sync_spec(
    sys: SysV,
    assets: Seq<(Seq<char>, AssetV)>,
    store: Seq<(u64, Seq<char>, PonV)>,
    changes: Seq<(u64, Seq<char>)>,
) -> SysV {
    let s1 = rebuild_all(sys, assets, store, structural_entities(changes));
    SysV {
        nodes: apply_transforms(s1.nodes, store, changes),
        camera: apply_camera(s1.camera, store, changes),
        ..s1
    }
}

// ---------------------------------------------------------------------------
// The synchronizer
// ---------------------------------------------------------------------------

/// The three per-category resource caches.
pub struct Resources {
    pub shader_programs: ShaderProgramCache,
    pub vertex_arrays: VertexArrayCache,
    pub textures: TextureCache,
}

/// The synchronizer: the resource caches plus the live render set.
pub struct ViewportSubSystem {
    pub resources: Resources,
    pub renderer: Renderer,
}

impl View for ViewportSubSystem {
    type V = SysV;

    open spec fn view(&self) -> SysV {
        SysV {
            shaders: self.resources.shader_programs@,
            vertex_arrays: self.resources.vertex_arrays@,
            textures: self.resources.textures@,
            nodes: self.renderer@.nodes,
            camera: self.renderer@.camera,
        }
    }
}

/// The view of a changed-property batch.
pub open spec fn changes_view(prop_refs: Seq<PropRef>) -> Seq<(u64, Seq<char>)> {
    Seq::new(
        prop_refs.len(),
        |i: int|
            if 0 <= i < prop_refs.len() {
                prop_refs[i]@
            } else {
                arbitrary()
            },
    )
}

impl ViewportSubSystem {
    /// A fresh synchronizer. The host hands in the baseline shader's source
    /// pair; it is seeded into the shader cache under the key `"basic"`,
    /// which is also the default shader specification for entities that
    /// name none.
    pub fn new(basic_vertex_src: String, basic_fragment_src: String) -> (r: ViewportSubSystem)
        ensures
            r@ == (SysV {
                shaders: seq![
                    (
                        PonV::Str("basic"@),
                        ShaderSourceV {
                            vertex_src: basic_vertex_src@,
                            vertex_debug_source_name: "basic"@,
                            fragment_src: basic_fragment_src@,
                            fragment_debug_source_name: "basic"@,
                        },
                    ),
                ],
                vertex_arrays: Seq::empty(),
                textures: Seq::empty(),
                nodes: Seq::empty(),
                camera: None,
            }),
            r.resources.shader_programs.compile_attempts() == 0,
            r.resources.vertex_arrays.compile_attempts() == 0,
            r.resources.textures.compile_attempts() == 0,
    {
        let mut shader_programs = ShaderProgramCache::new();
        shader_programs.set(
            Pon::Str("basic".to_owned()),
            ShaderSource {
                vertex_src: basic_vertex_src,
                vertex_debug_source_name: "basic".to_owned(),
                fragment_src: basic_fragment_src,
                fragment_debug_source_name: "basic".to_owned(),
            },
        );
        let r = ViewportSubSystem {
            resources: Resources {
                shader_programs,
                vertex_arrays: VertexArrayCache::new(),
                textures: TextureCache::new(),
            },
            renderer: Renderer::new(),
        };
        proof {
            assert(r@.shaders =~= seq![
                (
                    PonV::Str("basic"@),
                    ShaderSourceV {
                        vertex_src: basic_vertex_src@,
                        vertex_debug_source_name: "basic"@,
                        fragment_src: basic_fragment_src@,
                        fragment_debug_source_name: "basic"@,
                    },
                ),
            ]);
            assert(r@ =~= (SysV {
                shaders: r@.shaders,
                vertex_arrays: Seq::empty(),
                textures: Seq::empty(),
                nodes: Seq::empty(),
                camera: None,
            }));
        }
        r
    }

    /// Discards entity `entity_id`'s render node, if it has one.
    pub fn renderer_remove(&mut self, entity_id: u64)
        ensures
            final(self)@ == (SysV {
                nodes: remove_id(old(self)@.nodes, entity_id),
                ..old(self)@
            }),
    {
        self.renderer.remove_node(entity_id);
    }

    /// One rebuild attempt for entity `entity_id`: resolves its current
    /// descriptors through the caches and registers the node. Returns
    /// whether a node was built; a missing mesh or missing texture slots
    /// abort silently with `Ok(false)`, and a resolution failure returns
    /// the error with no node registered.
    #[verifier::loop_isolation(false)]
    pub fn renderer_add(
        &mut self,
        assets: &AssetStore,
        store: &PropertyStore,
        entity_id: u64,
    ) -> (r: Result<bool, CompileError>)
        ensures
            ({
                let (s2, out) = build_node(old(self)@, assets@, store@, entity_id);
                &&& final(self)@ == s2
                &&& match r {
                    Ok(true) => out is Added,
                    Ok(false) => out is Silent,
                    Err(e) => out == BuildOutcome::Failed(e@),
                }
            }),
    {
        let shader_key: Pon = match store.get_property_value(entity_id, "shader") {
            Some(p) => deep_clone_pon(p),
            None => Pon::Str("basic".to_owned()),
        };
        let mesh_key: Pon = match store.get_property_value(entity_id, "mesh") {
            Some(p) => deep_clone_pon(p),
            None => {
                return Ok(false);
            },
        };
        let texture_keys: Pon = match store.get_property_value(entity_id, "textures") {
            Some(p) => deep_clone_pon(p),
            None => {
                match store.get_property_value(entity_id, "diffuse") {
                    Some(d) => {
                        let mut fields: Vec<(String, Pon)> = Vec::new();
                        fields.push(("diffuse".to_owned(), deep_clone_pon(d)));
                        let obj = Pon::Object(fields);
                        proof {
                            assert(crate::pon::fields_view(fields@) =~= seq![
                                ("diffuse"@, d@),
                            ]);
                        }
                        obj
                    },
                    None => {
                        return Ok(false);
                    },
                }
            },
        };
        let sh_h = match self.resources.shader_programs.get(assets, &shader_key) {
            Ok(h) => h,
            Err(e) => {
                return Err(e);
            },
        };
        let mut binding_parts: Vec<Pon> = Vec::new();
        binding_parts.push(shader_key);
        binding_parts.push(mesh_key);
        let binding_key = Pon::Array(binding_parts);
        proof {
            assert(crate::pon::elems_view(binding_parts@) =~= seq![
                binding_parts@[0]@,
                binding_parts@[1]@,
            ]);
        }
        let va_h = match self.resources.vertex_arrays.get(&binding_key) {
            Ok(h) => h,
            Err(e) => {
                return Err(e);
            },
        };
        let tex_fields = match &texture_keys {
            Pon::Object(fields) => fields,
            _ => {
                return Err(
                    CompileError::WrongFieldType {
                        field: "textures".to_owned(),
                        expected: "object".to_owned(),
                    },
                );
            },
        };
        let ghost fields_v = crate::pon::fields_view(tex_fields@);
        let ghost tex_entries0 = self.resources.textures@;
        let ghost snap_shaders = self.resources.shader_programs;
        let ghost snap_vas = self.resources.vertex_arrays;
        let ghost snap_renderer = self.renderer;
        let ghost full = resolve_slots(tex_entries0, assets@, fields_v);
        let mut gl_textures: Vec<(String, usize)> = Vec::new();
        let nf = tex_fields.len();
        let mut i: usize = 0;
        proof {
            assert(fields_v.skip(0) =~= fields_v);
            assert(handles_view(gl_textures@) =~= Seq::<(Seq<char>, int)>::empty());
            if full.1 is Ok {
                assert(handles_view(gl_textures@) + full.1->Ok_0 =~= full.1->Ok_0);
            }
        }
        while i < nf
            invariant
                nf == tex_fields@.len(),
                i <= nf,
                gl_textures@.len() == i,
                self.resources.shader_programs == snap_shaders,
                self.resources.vertex_arrays == snap_vas,
                self.renderer == snap_renderer,
                full == resolve_slots(tex_entries0, assets@, fields_v),
                ({
                    let part = resolve_slots(
                        self.resources.textures@,
                        assets@,
                        fields_v.skip(i as int),
                    );
                    &&& full.0 == part.0
                    &&& (part.1 is Err ==> full.1 == part.1)
                    &&& (part.1 is Ok ==> full.1 == Ok::<Seq<(Seq<char>, int)>, CompileErrorV>(
                        handles_view(gl_textures@) + part.1->Ok_0,
                    ))
                }),
            decreases nf - i,
        {
            proof {
                assert(fields_v.skip(i as int)[0] == fields_v[i as int]);
                assert(fields_v[i as int] == (tex_fields@[i as int].0@, crate::pon::pon_view(
                    tex_fields@[i as int].1,
                )));
                assert(fields_v.skip(i as int).drop_first() =~= fields_v.skip(i as int + 1));
            }
            let ghost part_i = resolve_slots(
                self.resources.textures@,
                assets@,
                fields_v.skip(i as int),
            );
            let slot_key = &tex_fields[i].1;
            match self.resources.textures.get(assets, slot_key) {
                Ok(h) => {
                    let ghost gl_prev = gl_textures@;
                    gl_textures.push((tex_fields[i].0.clone(), h));
                    proof {
                        let part_next = resolve_slots(
                            self.resources.textures@,
                            assets@,
                            fields_v.skip(i as int + 1),
                        );
                        assert(handles_view(gl_textures@) =~= handles_view(gl_prev).push(
                            (fields_v[i as int].0, h as int),
                        ));
                        if part_next.1 is Ok {
                            let hs = part_next.1->Ok_0;
                            assert(part_i.1 == Ok::<Seq<(Seq<char>, int)>, CompileErrorV>(
                                seq![(fields_v[i as int].0, h as int)] + hs,
                            ));
                            assert(handles_view(gl_prev) + (seq![
                                (fields_v[i as int].0, h as int),
                            ] + hs) =~= handles_view(gl_textures@) + hs);
                        }
                    }
                },
                Err(e) => {
                    return Err(e);
                },
            }
            i = i + 1;
        }
        proof {
            assert(fields_v.skip(nf as int) =~= Seq::<(Seq<char>, PonV)>::empty());
            assert(handles_view(gl_textures@) + Seq::<(Seq<char>, int)>::empty()
                =~= handles_view(gl_textures@));
        }
        let alpha: bool = match store.get_property_value(entity_id, "alpha") {
            Some(p) => match p {
                Pon::Boolean(b) => *b,
                _ => {
                    return Err(
                        CompileError::WrongFieldType {
                            field: "alpha".to_owned(),
                            expected: "boolean".to_owned(),
                        },
                    );
                },
            },
            None => false,
        };
        let transform: Option<Pon> = match store.get_property_value(entity_id, "transformed") {
            Some(p) => Some(deep_clone_pon(p)),
            None => None,
        };
        let uniforms: Option<Pon> = match store.get_property_value(entity_id, "uniforms") {
            Some(p) => Some(deep_clone_pon(p)),
            None => None,
        };
        let node = RenderNode {
            id: entity_id,
            shader: sh_h,
            vertex_array: va_h,
            textures: gl_textures,
            transform,
            uniforms,
            alpha,
        };
        proof {
            let (s2, out) = build_node(old(self)@, assets@, store@, entity_id);
            assert(out is Added);
            assert(node@.textures =~= s2.nodes.last().textures);
            assert(node@ =~= s2.nodes.last());
        }
        self.renderer.add_node(node);
        proof {
            let (s2, out) = build_node(old(self)@, assets@, store@, entity_id);
            assert(final(self)@ =~= s2);
        }
        Ok(true)
    }
}

/// Whether a vector of entity identifiers holds `x`.
fn contains_u64(v: &Vec<u64>, x: u64) -> (b: bool)
    ensures
        b == v@.contains(x),
{
    let n = v.len();
    let mut k: usize = 0;
    while k < n
        invariant
            n == v@.len(),
            k <= n,
            forall|j: int| 0 <= j < k ==> v@[j] != x,
        decreases n - k,
    {
        if v[k] == x {
            proof {
                assert(v@[k as int] == x);
            }
            return true;
        }
        k = k + 1;
    }
    proof {
        assert(!v@.contains(x));
    }
    false
}

impl ViewportSubSystem {
    /// Services one batched change notification: every entity named by a
    /// structural trigger (`mesh`, `diffuse`, `alpha`) — deduplicated, so
    /// several structural properties changing together still produce exactly
    /// one rebuild — has its node discarded and rebuilt from the entity's
    /// current descriptors; every `transformed` change patches the existing
    /// node's transform in place without touching the caches; every `camera`
    /// change overwrites the single camera transform. A rebuild failure is
    /// fatal for that entity only: it is simply not rendered.
    #[verifier::loop_isolation(false)]
    pub fn on_property_value_change(
        &mut self,
        assets: &AssetStore,
        store: &PropertyStore,
        prop_refs: &Vec<PropRef>,
    )
        ensures
            final(self)@ == sync_spec(old(self)@, assets@, store@, changes_view(prop_refs@)),
    {
        let ghost changes = changes_view(prop_refs@);
        let n = prop_refs.len();
        let mut ents: Vec<u64> = Vec::new();
        let mut i: usize = 0;
        proof {
            assert(changes.subrange(0, 0) =~= Seq::<(u64, Seq<char>)>::empty());
        }
        while i < n
            invariant
                n == prop_refs@.len(),
                i <= n,
                ents@ == structural_entities(changes.subrange(0, i as int)),
            decreases n - i,
        {
            let pr = &prop_refs[i];
            proof {
                assert(changes.subrange(0, i as int + 1).drop_last() =~= changes.subrange(
                    0,
                    i as int,
                ));
                assert(changes.subrange(0, i as int + 1).last() == changes[i as int]);
                assert(changes[i as int] == (pr.entity_id, pr.property_key@));
            }
            let is_s = str_eq(pr.property_key.as_str(), "mesh") || str_eq(
                pr.property_key.as_str(),
                "diffuse",
            ) || str_eq(pr.property_key.as_str(), "alpha");
            if is_s {
                if !contains_u64(&ents, pr.entity_id) {
                    ents.push(pr.entity_id);
                }
            }
            i = i + 1;
        }
        proof {
            assert(changes.subrange(0, n as int) =~= changes);
        }
        let ghost s0 = self@;
        let ghost ents_v = ents@;
        let ne = ents.len();
        let mut k: usize = 0;
        proof {
            assert(ents_v.subrange(0, 0) =~= Seq::<u64>::empty());
        }
        while k < ne
            invariant
                ne == ents@.len(),
                ents@ == ents_v,
                k <= ne,
                self@ == rebuild_all(s0, assets@, store@, ents_v.subrange(0, k as int)),
            decreases ne - k,
        {
            let eid = ents[k];
            self.renderer_remove(eid);
            proof {
                assert(ents_v.subrange(0, k as int + 1).drop_last() =~= ents_v.subrange(
                    0,
                    k as int,
                ));
            }
            match self.renderer_add(assets, store, eid) {
                Ok(_) => {},
                Err(_) => {},
            }
            k = k + 1;
        }
        proof {
            assert(ents_v.subrange(0, ne as int) =~= ents_v);
        }
        let ghost s1 = self@;
        let mut j: usize = 0;
        while j < n
            invariant
                n == prop_refs@.len(),
                j <= n,
                self@.shaders == s1.shaders,
                self@.vertex_arrays == s1.vertex_arrays,
                self@.textures == s1.textures,
                self@.camera == s1.camera,
                self@.nodes == apply_transforms(s1.nodes, store@, changes.subrange(0, j as int)),
            decreases n - j,
        {
            let pr = &prop_refs[j];
            proof {
                assert(changes.subrange(0, j as int + 1).drop_last() =~= changes.subrange(
                    0,
                    j as int,
                ));
                assert(changes.subrange(0, j as int + 1).last() == changes[j as int]);
                assert(changes[j as int] == (pr.entity_id, pr.property_key@));
            }
            if str_eq(pr.property_key.as_str(), "transformed") {
                let t: Option<Pon> = match store.get_property_value(pr.entity_id, "transformed") {
                    Some(p) => Some(deep_clone_pon(p)),
                    None => None,
                };
                proof {
                    assert(opt_view(t) == store_lookup(store@, pr.entity_id, "transformed"@));
                }
                self.renderer.set_transform(pr.entity_id, &t);
            }
            j = j + 1;
        }
        proof {
            assert(changes.subrange(0, n as int) =~= changes);
        }
        let ghost nodes2 = self@.nodes;
        let mut c: usize = 0;
        while c < n
            invariant
                n == prop_refs@.len(),
                c <= n,
                self@.shaders == s1.shaders,
                self@.vertex_arrays == s1.vertex_arrays,
                self@.textures == s1.textures,
                self@.nodes == nodes2,
                self@.camera == apply_camera(s1.camera, store@, changes.subrange(0, c as int)),
            decreases n - c,
        {
            let pr = &prop_refs[c];
            proof {
                assert(changes.subrange(0, c as int + 1).drop_last() =~= changes.subrange(
                    0,
                    c as int,
                ));
                assert(changes.subrange(0, c as int + 1).last() == changes[c as int]);
                assert(changes[c as int] == (pr.entity_id, pr.property_key@));
            }
            if str_eq(pr.property_key.as_str(), "camera") {
                let t: Option<Pon> = match store.get_property_value(pr.entity_id, "camera") {
                    Some(p) => Some(deep_clone_pon(p)),
                    None => None,
                };
                proof {
                    assert(opt_view(t) == store_lookup(store@, pr.entity_id, "camera"@));
                }
                self.renderer.camera = t;
            }
            c = c + 1;
        }
        proof {
            assert(changes.subrange(0, n as int) =~= changes);
            assert(final(self)@ =~= sync_spec(old(self)@, assets@, store@, changes));
        }
    }
}

// ---------------------------------------------------------------------------
// Laws of the synchronizer
// ---------------------------------------------------------------------------

/// Law: an entity whose `mesh` is set but which has neither `textures` nor
/// `diffuse` produces no render node, and no error is raised — the rebuild
/// is silent and leaves the synchronizer exactly as the removal left it.
pub proof fn lemma_not_renderable_is_silent(
    sys: SysV,
    assets: Seq<(Seq<char>, AssetV)>,
    store: Seq<(u64, Seq<char>, PonV)>,
    eid: u64,
)
    requires
        store_lookup(store, eid, "mesh"@) is Some,
        store_lookup(store, eid, "textures"@) is None,
        store_lookup(store, eid, "diffuse"@) is None,
    ensures
        build_node(sys, assets, store, eid).1 is Silent,
        build_node(sys, assets, store, eid).0 == sys,
        rebuild_spec(sys, assets, store, eid) == (SysV {
            nodes: remove_id(sys.nodes, eid),
            ..sys
        }),
{
}

/// Law: resolving an entity's texture slots preserves at-most-one-entry-
/// per-fingerprint in the texture cache.
pub proof fn lemma_resolve_slots_keeps_keys_unique(
    entries: Seq<(PonV, TextureV)>,
    assets: Seq<(Seq<char>, AssetV)>,
    fields: Seq<(Seq<char>, PonV)>,
)
    requires
        crate::cache::keys_unique(entries),
    ensures
        crate::cache::keys_unique(resolve_slots(entries, assets, fields).0),
    decreases fields.len(),
{
    if fields.len() > 0 {
        let c = texture_of(assets, fields[0].1);
        let (e1, r1) = cache_step(entries, fields[0].1, c);
        crate::cache::lemma_cache_step_keeps_keys_unique(entries, fields[0].1, c);
        if r1 is Ok {
            lemma_resolve_slots_keeps_keys_unique(e1, assets, fields.drop_first());
        }
    }
}

/// Law: a rebuild never duplicates a cache entry: if no cache holds two
/// entries for structurally equal specifications, none does afterwards
/// either.
pub proof fn lemma_rebuild_keeps_keys_unique(
    sys: SysV,
    assets: Seq<(Seq<char>, AssetV)>,
    store: Seq<(u64, Seq<char>, PonV)>,
    eid: u64,
)
    requires
        crate::cache::keys_unique(sys.shaders),
        crate::cache::keys_unique(sys.vertex_arrays),
        crate::cache::keys_unique(sys.textures),
    ensures
        ({
            let s2 = rebuild_spec(sys, assets, store, eid);
            &&& crate::cache::keys_unique(s2.shaders)
            &&& crate::cache::keys_unique(s2.vertex_arrays)
            &&& crate::cache::keys_unique(s2.textures)
        }),
{
    let shader_key = match store_lookup(store, eid, "shader"@) {
        Some(p) => p,
        None => PonV::Str("basic"@),
    };
    crate::cache::lemma_cache_step_keeps_keys_unique(
        sys.shaders,
        shader_key,
        shader_of(assets, shader_key),
    );
    let (sh_e, _) = cache_step(sys.shaders, shader_key, shader_of(assets, shader_key));
    match store_lookup(store, eid, "mesh"@) {
        None => {},
        Some(mesh_key) => {
            let bkey = PonV::Array(seq![shader_key, mesh_key]);
            crate::cache::lemma_cache_step_keeps_keys_unique(
                sys.vertex_arrays,
                bkey,
                binding_of(bkey),
            );
            match texture_fields_of(store, eid) {
                None => {},
                Some(tk) => match tk {
                    PonV::Object(fields) => {
                        lemma_resolve_slots_keeps_keys_unique(sys.textures, assets, fields);
                    },
                    _ => {},
                },
            }
        },
    }
}

/// Law: an entity that names no shader resolves through the baseline entry
/// seeded under the key `"basic"`: the shader access is a hit on that entry,
/// so a rebuild never compiles a shader for such an entity and the shader
/// cache is left untouched.
pub proof fn lemma_default_shader_hits_baseline(
    sys: SysV,
    assets: Seq<(Seq<char>, AssetV)>,
    store: Seq<(u64, Seq<char>, PonV)>,
    eid: u64,
)
    requires
        store_lookup(store, eid, "shader"@) is None,
        sys.shaders.len() > 0,
        sys.shaders[0].0 == PonV::Str("basic"@),
    ensures
        cache_step(
            sys.shaders,
            PonV::Str("basic"@),
            shader_of(assets, PonV::Str("basic"@)),
        ) == (sys.shaders, Ok::<int, CompileErrorV>(0)),
        build_node(sys, assets, store, eid).0.shaders == sys.shaders,
{
    assert(crate::cache::cache_lookup(sys.shaders, PonV::Str("basic"@)) == Some(0int));
}

/// Law: a single structural change on an entity causes exactly one remove +
/// one rebuild: the whole batch collapses to discarding the entity's node
/// and building a fresh one, and neither the transform pass nor the camera
/// pass does anything.
pub proof fn lemma_structural_change_rebuilds_once(
    sys: SysV,
    assets: Seq<(Seq<char>, AssetV)>,
    store: Seq<(u64, Seq<char>, PonV)>,
    eid: u64,
    key: Seq<char>,
)
    requires
        is_structural(key),
    ensures
        sync_spec(sys, assets, store, seq![(eid, key)]) == rebuild_spec(sys, assets, store, eid),
{
    reveal_strlit("mesh");
    reveal_strlit("diffuse");
    reveal_strlit("alpha");
    reveal_strlit("transformed");
    reveal_strlit("camera");
    let changes: Seq<(u64, Seq<char>)> = seq![(eid, key)];
    assert(changes.drop_last() =~= Seq::<(u64, Seq<char>)>::empty());
    assert(structural_entities(Seq::<(u64, Seq<char>)>::empty()) =~= Seq::<u64>::empty());
    assert(!Seq::<u64>::empty().contains(eid));
    assert(changes.last() == (eid, key));
    assert(structural_entities(changes) =~= seq![eid]);
    let ents: Seq<u64> = seq![eid];
    assert(ents.drop_last() =~= Seq::<u64>::empty());
    assert(rebuild_all(sys, assets, store, Seq::<u64>::empty()) == sys);
    assert(ents.last() == eid);
    let s1 = rebuild_spec(sys, assets, store, eid);
    assert(rebuild_all(sys, assets, store, ents) == s1);
    assert("transformed"@.len() == 11);
    assert("camera"@.len() == 6);
    assert("mesh"@.len() == 4);
    assert("diffuse"@.len() == 7);
    assert("alpha"@.len() == 5);
    assert(key != "transformed"@);
    assert(key != "camera"@);
    assert(apply_transforms(s1.nodes, store, Seq::<(u64, Seq<char>)>::empty()) == s1.nodes);
    assert(apply_transforms(s1.nodes, store, changes) == s1.nodes);
    assert(apply_camera(s1.camera, store, Seq::<(u64, Seq<char>)>::empty()) == s1.camera);
    assert(apply_camera(s1.camera, store, changes) == s1.camera);
    assert(sync_spec(sys, assets, store, changes) =~= s1);
}

/// Law: a `transformed`-only notification for an entity leaves every cache,
/// every node's resources and the camera untouched; it only overwrites the
/// transform field of that entity's node with the store's current value.
pub proof fn lemma_transform_only_patches_in_place(
    sys: SysV,
    assets: Seq<(Seq<char>, AssetV)>,
    store: Seq<(u64, Seq<char>, PonV)>,
    eid: u64,
)
    ensures
        ({
            let s2 = sync_spec(sys, assets, store, seq![(eid, "transformed"@)]);
            &&& s2.shaders == sys.shaders
            &&& s2.vertex_arrays == sys.vertex_arrays
            &&& s2.textures == sys.textures
            &&& s2.camera == sys.camera
            &&& s2.nodes == set_transform_spec(
                sys.nodes,
                eid,
                store_lookup(store, eid, "transformed"@),
            )
            &&& s2.nodes.len() == sys.nodes.len()
            &&& forall|i: int|
                0 <= i < sys.nodes.len() ==> (#[trigger] s2.nodes[i]).id == sys.nodes[i].id
                    && s2.nodes[i].shader == sys.nodes[i].shader && s2.nodes[i].vertex_array
                    == sys.nodes[i].vertex_array && s2.nodes[i].textures == sys.nodes[i].textures
                    && s2.nodes[i].uniforms == sys.nodes[i].uniforms && s2.nodes[i].alpha
                    == sys.nodes[i].alpha
        }),
{
    reveal_strlit("mesh");
    reveal_strlit("diffuse");
    reveal_strlit("alpha");
    reveal_strlit("transformed");
    reveal_strlit("camera");
    let changes: Seq<(u64, Seq<char>)> = seq![(eid, "transformed"@)];
    assert(changes.drop_last() =~= Seq::<(u64, Seq<char>)>::empty());
    assert("transformed"@.len() == 11);
    assert("mesh"@.len() == 4);
    assert("diffuse"@.len() == 7);
    assert("alpha"@.len() == 5);
    assert(!is_structural("transformed"@));
    assert(structural_entities(Seq::<(u64, Seq<char>)>::empty()) =~= Seq::<u64>::empty());
    assert(changes.last() == (eid, "transformed"@));
    assert(structural_entities(changes) =~= Seq::<u64>::empty());
    assert(rebuild_all(sys, assets, store, Seq::<u64>::empty()) == sys);
    assert("camera"@.len() == 6);
    assert("transformed"@ != "camera"@);
    assert(apply_camera(sys.camera, store, Seq::<(u64, Seq<char>)>::empty()) == sys.camera);
    assert(apply_camera(sys.camera, store, changes) == sys.camera);
    assert(apply_transforms(sys.nodes, store, Seq::<(u64, Seq<char>)>::empty()) == sys.nodes);
    assert(apply_transforms(sys.nodes, store, changes) == set_transform_spec(
        sys.nodes,
        eid,
        store_lookup(store, eid, "transformed"@),
    ));
}

} // verus!
