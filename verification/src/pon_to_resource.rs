//! The resource compiler: pure interpretation of a typed descriptor value
//! into a CPU-side resource (mesh buffers + layout, pixel buffer, shader
//! source pair). Dispatch is on the descriptor's tag; every compilation rule
//! is specified exactly by a spec-level compiler that the executable
//! functions are proved to implement.

use vstd::prelude::*;

use crate::assets::{asset_lookup, AssetData, AssetStore, AssetV};
use crate::error::{CompileError, CompileErrorV};
use crate::pon::{
    elems_view, field_of, get_field, pon_view, str_eq, Pon, PonV,
};

verus! {

// ---------------------------------------------------------------------------
// Compiled resources
// ---------------------------------------------------------------------------

/// A compiled mesh.
///
/// Vertex floats are carried as 32-bit IEEE 754 bit patterns: the core moves
/// them from the descriptor into buffers untouched, and the graphics backend
/// reinterprets them on upload. A grid mesh keeps its validated parameters;
/// synthesising its vertex positions is floating-point work that belongs to
/// the backend collaborator, not to this core.
#[derive(Debug)]
pub enum Mesh {
    Fixed {
        layout: Vec<(String, usize)>,
        vertex_data: Vec<u32>,
        element_data: Vec<u32>,
    },
    Grid {
        layout: Vec<(String, usize)>,
        n_vertices_width: u32,
        n_vertices_height: u32,
    },
}

/// Mathematical model of a compiled mesh.
#[verifier::ext_equal]
pub enum MeshV {
    Fixed {
        layout: Seq<(Seq<char>, usize)>,
        vertex_data: Seq<u32>,
        element_data: Seq<u32>,
    },
    Grid {
        layout: Seq<(Seq<char>, usize)>,
        n_vertices_width: u32,
        n_vertices_height: u32,
    },
}

/// Model of a vertex layout: (attribute name, component count) pairs.
pub open spec fn layout_view(v: Seq<(String, usize)>) -> Seq<(Seq<char>, usize)> {
    Seq::new(
        v.len(),
        |i: int|
            if 0 <= i < v.len() {
                (v[i].0@, v[i].1)
            } else {
                (Seq::empty(), 0usize)
            },
    )
}

impl View for Mesh {
    type V = MeshV;

    open spec fn view(&self) -> MeshV {
        match self {
            Mesh::Fixed { layout, vertex_data, element_data } => MeshV::Fixed {
                layout: layout_view(layout@),
                vertex_data: vertex_data@,
                element_data: element_data@,
            },
            Mesh::Grid { layout, n_vertices_width, n_vertices_height } => MeshV::Grid {
                layout: layout_view(layout@),
                n_vertices_width: *n_vertices_width,
                n_vertices_height: *n_vertices_height,
            },
        }
    }
}

/// A compiled texture: an 8-bit RGBA pixel buffer, or the single-channel
/// variant used for height/data maps, whose samples are 32-bit IEEE 754 bit
/// patterns.
#[derive(Debug)]
pub enum Texture {
    Image { width: u32, height: u32, pixels: Vec<u8> },
    Floats { width: u32, height: u32, data: Vec<u32> },
}

/// Mathematical model of a compiled texture.
#[verifier::ext_equal]
pub enum TextureV {
    Image { width: u32, height: u32, pixels: Seq<u8> },
    Floats { width: u32, height: u32, data: Seq<u32> },
}

impl View for Texture {
    type V = TextureV;

    open spec fn view(&self) -> TextureV {
        match self {
            Texture::Image { width, height, pixels } => TextureV::Image {
                width: *width,
                height: *height,
                pixels: pixels@,
            },
            Texture::Floats { width, height, data } => TextureV::Floats {
                width: *width,
                height: *height,
                data: data@,
            },
        }
    }
}

/// A compiled shader program: vertex and fragment source text, each with a
/// debug label derived from its originating sub-specification (used in
/// backend compile diagnostics, not for correctness).
pub struct ShaderSource {
    pub vertex_src: String,
    pub vertex_debug_source_name: String,
    pub fragment_src: String,
    pub fragment_debug_source_name: String,
}

/// Mathematical model of a compiled shader program.
#[verifier::ext_equal]
pub struct ShaderSourceV {
    pub vertex_src: Seq<char>,
    pub vertex_debug_source_name: Seq<char>,
    pub fragment_src: Seq<char>,
    pub fragment_debug_source_name: Seq<char>,
}

impl View for ShaderSource {
    type V = ShaderSourceV;

    open spec fn view(&self) -> ShaderSourceV {
        ShaderSourceV {
            vertex_src: self.vertex_src@,
            vertex_debug_source_name: self.vertex_debug_source_name@,
            fragment_src: self.fragment_src@,
            fragment_debug_source_name: self.fragment_debug_source_name@,
        }
    }
}

// ---------------------------------------------------------------------------
// Vertex layouts
// ---------------------------------------------------------------------------

/// A layout entry is a two-or-more element array whose head is the attribute
/// name and whose second element is the component count.
pub open spec fn layout_elem_valid(p: PonV) -> bool {
    match p {
        PonV::Array(es) => es.len() >= 2 && es[0] is Str && es[1] is Integer,
        _ => false,
    }
}

/// The (name, component count) of a valid layout entry.
pub open spec fn layout_elem(p: PonV) -> (Seq<char>, usize) {
    match p {
        PonV::Array(es) => (
            match es[0] {
                PonV::Str(s) => s,
                _ => Seq::empty(),
            },
            match es[1] {
                PonV::Integer(n) => n as usize,
                _ => 0usize,
            },
        ),
        _ => (Seq::empty(), 0usize),
    }
}

pub open spec fn layout_valid(es: Seq<PonV>) -> bool {
    forall|i: int| 0 <= i < es.len() ==> layout_elem_valid(#[trigger] es[i])
}

pub open spec fn layout_entries(es: Seq<PonV>) -> Seq<(Seq<char>, usize)> {
    Seq::new(
        es.len(),
        |i: int|
            if 0 <= i < es.len() {
                layout_elem(es[i])
            } else {
                (Seq::empty(), 0usize)
            },
    )
}

/// The standard position/texcoord/normal layout that a grid mesh defaults
/// to when its specification names none.
pub open spec fn default_layout_spec() -> Seq<(Seq<char>, usize)> {
    seq![("position"@, 3usize), ("texcoord"@, 2usize), ("normal"@, 3usize)]
}

fn default_layout() -> (r: Vec<(String, usize)>)
    ensures
        layout_view(r@) == default_layout_spec(),
{
    let mut r: Vec<(String, usize)> = Vec::new();
    r.push(("position".to_owned(), 3));
    r.push(("texcoord".to_owned(), 2));
    r.push(("normal".to_owned(), 3));
    proof {
        assert(layout_view(r@) =~= default_layout_spec());
    }
    r
}

/// Interprets a layout array. Any element that is not a
/// [name, component count, ...] array is a malformed nested value.
#[verifier::loop_isolation(false)]
pub fn pon_to_layout(layout_node_array: &Vec<Pon>) -> (r: Result<
    Vec<(String, usize)>,
    CompileError,
>)
    ensures
        match r {
            Ok(l) => layout_valid(elems_view(layout_node_array@)) && layout_view(l@)
                == layout_entries(elems_view(layout_node_array@)),
            Err(e) => !layout_valid(elems_view(layout_node_array@)) && e@
                == CompileErrorV::MalformedNestedValue,
        },
{
    let n = layout_node_array.len();
    let mut out: Vec<(String, usize)> = Vec::new();
    let mut i: usize = 0;
    while i < n
        invariant
            out@.len() == i,
            i <= n,
            forall|j: int|
                0 <= j < i ==> layout_elem_valid(#[trigger] elems_view(layout_node_array@)[j]),
            forall|j: int|
                0 <= j < i ==> layout_view(out@)[j] == layout_entries(
                    elems_view(layout_node_array@),
                )[j],
        decreases n - i,
    {
        match &layout_node_array[i] {
            Pon::Array(es) => {
                proof {
                    assert(elems_view(layout_node_array@)[i as int] == pon_view(
                        layout_node_array@[i as int],
                    ));
                    assert(layout_node_array@[i as int] == Pon::Array(*es));
                    assert(pon_view(layout_node_array@[i as int]) == PonV::Array(
                        elems_view(es@),
                    ));
                    assert(elems_view(es@).len() == es@.len());
                }
                if es.len() < 2 {
                    proof {
                        assert(!layout_elem_valid(elems_view(layout_node_array@)[i as int]));
                    }
                    return Err(CompileError::MalformedNestedValue);
                }
                match (&es[0], &es[1]) {
                    (Pon::Str(name), Pon::Integer(count)) => {
                        let c: usize = #[verifier::truncate] (*count as usize);
                        let ghost out_prev = out@;
                        out.push((name.clone(), c));
                        proof {
                            assert(elems_view(es@)[0] == pon_view(es@[0]));
                            assert(elems_view(es@)[1] == pon_view(es@[1]));
                            assert(elems_view(es@)[0] == PonV::Str(name@));
                            assert(elems_view(es@)[1] == PonV::Integer(*count));
                            assert forall|j: int| 0 <= j < i + 1 implies layout_view(out@)[j]
                                == layout_entries(elems_view(layout_node_array@))[j] by {
                                if j < i {
                                    assert(out@[j] == out_prev[j]);
                                    assert(layout_view(out_prev)[j] == layout_entries(
                                        elems_view(layout_node_array@),
                                    )[j]);
                                } else {
                                    assert(layout_view(out@)[j] == (name@, c));
                                    assert(layout_entries(elems_view(layout_node_array@))[j]
                                        == layout_elem(elems_view(layout_node_array@)[j]));
                                }
                            }
                        }
                    },
                    _ => {
                        proof {
                            assert(elems_view(es@)[0] == pon_view(es@[0]));
                            assert(elems_view(es@)[1] == pon_view(es@[1]));
                            assert(!layout_elem_valid(elems_view(layout_node_array@)[i as int]));
                        }
                        return Err(CompileError::MalformedNestedValue);
                    },
                }
            },
            _ => {
                proof {
                    assert(!layout_elem_valid(elems_view(layout_node_array@)[i as int]));
                }
                return Err(CompileError::MalformedNestedValue);
            },
        }
        i = i + 1;
    }
    proof {
        assert(layout_view(out@) =~= layout_entries(elems_view(layout_node_array@)));
    }
    Ok(out)
}

// ---------------------------------------------------------------------------
// Meshes
// ---------------------------------------------------------------------------

pub open spec fn all_floats(es: Seq<PonV>) -> bool {
    forall|i: int| 0 <= i < es.len() ==> (#[trigger] es[i]) is Float
}

pub open spec fn float_bits(es: Seq<PonV>) -> Seq<u32> {
    Seq::new(
        es.len(),
        |i: int|
            if 0 <= i < es.len() {
                match es[i] {
                    PonV::Float(b) => b,
                    _ => 0u32,
                }
            } else {
                0u32
            },
    )
}

pub open spec fn all_ints(es: Seq<PonV>) -> bool {
    forall|i: int| 0 <= i < es.len() ==> (#[trigger] es[i]) is Integer
}

/// Integer array elements narrowed to unsigned 32 bits (index buffers take
/// the low bits; out-of-range indices are a backend-time fault, not caught
/// here).
pub open spec fn int_u32s(es: Seq<PonV>) -> Seq<u32> {
    Seq::new(
        es.len(),
        |i: int|
            if 0 <= i < es.len() {
                match es[i] {
                    PonV::Integer(n) => n as u32,
                    _ => 0u32,
                }
            } else {
                0u32
            },
    )
}

/// Integer array elements narrowed to unsigned 8 bits.
pub open spec fn int_u8s(es: Seq<PonV>) -> Seq<u8> {
    Seq::new(
        es.len(),
        |i: int|
            if 0 <= i < es.len() {
                match es[i] {
                    PonV::Integer(n) => n as u8,
                    _ => 0u8,
                }
            } else {
                0u8
            },
    )
}

pub open spec fn wft(field: Seq<char>, expected: Seq<char>) -> CompileErrorV {
    CompileErrorV::WrongFieldType { field, expected }
}

/// The compilation rule for `static_mesh`: required fields `layout`,
/// `vertices` (float array) and `indices` (integer array, narrowed to u32).
pub open spec fn static_mesh_of(data: PonV) -> Result<MeshV, CompileErrorV> {
    match field_of(data, "layout"@) {
        Err(e) => Err(e),
        Ok(lv) => match lv {
            PonV::Array(les) => if !layout_valid(les) {
                Err(CompileErrorV::MalformedNestedValue)
            } else {
                match field_of(data, "vertices"@) {
                    Err(e) => Err(e),
                    Ok(vv) => match vv {
                        PonV::Array(ves) => if !all_floats(ves) {
                            Err(wft("vertices"@, "float array"@))
                        } else {
                            match field_of(data, "indices"@) {
                                Err(e) => Err(e),
                                Ok(iv) => match iv {
                                    PonV::Array(ies) => if !all_ints(ies) {
                                        Err(wft("indices"@, "integer array"@))
                                    } else {
                                        Ok(
                                            MeshV::Fixed {
                                                layout: layout_entries(les),
                                                vertex_data: float_bits(ves),
                                                element_data: int_u32s(ies),
                                            },
                                        )
                                    },
                                    _ => Err(wft("indices"@, "integer array"@)),
                                },
                            }
                        },
                        _ => Err(wft("vertices"@, "float array"@)),
                    },
                }
            },
            _ => Err(wft("layout"@, "array"@)),
        },
    }
}

/// The compilation rule for `grid_mesh`: required integer fields
/// `n_vertices_width` and `n_vertices_height`; `layout` is optional and a
/// missing or non-array `layout` falls back to the standard layout, while a
/// layout array with a malformed entry is an error.
pub open spec fn grid_mesh_of(data: PonV) -> Result<MeshV, CompileErrorV> {
    let lres: Result<Seq<(Seq<char>, usize)>, CompileErrorV> = match field_of(data, "layout"@) {
        Ok(lv) => match lv {
            PonV::Array(les) => if layout_valid(les) {
                Ok(layout_entries(les))
            } else {
                Err(CompileErrorV::MalformedNestedValue)
            },
            _ => Ok(default_layout_spec()),
        },
        Err(_) => Ok(default_layout_spec()),
    };
    match lres {
        Err(e) => Err(e),
        Ok(layout) => match int_field_of(data, "n_vertices_width"@) {
            Err(e) => Err(e),
            Ok(w) => match int_field_of(data, "n_vertices_height"@) {
                Err(e) => Err(e),
                Ok(h) => Ok(
                    MeshV::Grid {
                        layout,
                        n_vertices_width: w as u32,
                        n_vertices_height: h as u32,
                    },
                ),
            },
        },
    }
}

/// A required integer field.
pub open spec fn int_field_of(data: PonV, name: Seq<char>) -> Result<i64, CompileErrorV> {
    match field_of(data, name) {
        Err(e) => Err(e),
        Ok(v) => match v {
            PonV::Integer(n) => Ok(n),
            _ => Err(wft(name, "integer"@)),
        },
    }
}

/// The mesh compiler: dispatches on the typed tag.
pub open spec fn mesh_of(p: PonV) -> Result<MeshV, CompileErrorV> {
    match p {
        PonV::Typed { tag, data } => {
            if tag == "static_mesh"@ {
                static_mesh_of(*data)
            } else if tag == "grid_mesh"@ {
                grid_mesh_of(*data)
            } else {
                Err(CompileErrorV::UnrecognizedType(tag))
            }
        },
        _ => Err(CompileErrorV::MalformedNestedValue),
    }
}

fn int_field(data: &Pon, name: &str) -> (r: Result<i64, CompileError>)
    ensures
        match r {
            Ok(n) => int_field_of(data@, name@) == Ok::<i64, CompileErrorV>(n),
            Err(e) => int_field_of(data@, name@) == Err::<i64, CompileErrorV>(e@),
        },
{
    match get_field(data, name) {
        Err(e) => Err(e),
        Ok(v) => match v {
            Pon::Integer(n) => Ok(*n),
            _ => Err(
                CompileError::WrongFieldType {
                    field: name.to_owned(),
                    expected: "integer".to_owned(),
                },
            ),
        },
    }
}

#[verifier::loop_isolation(false)]
fn static_mesh_exec(data: &Pon) -> (r: Result<Mesh, CompileError>)
    ensures
        match r {
            Ok(m) => static_mesh_of(data@) == Ok::<MeshV, CompileErrorV>(m@),
            Err(e) => static_mesh_of(data@) == Err::<MeshV, CompileErrorV>(e@),
        },
{
    let layout_node = match get_field(data, "layout") {
        Ok(p) => p,
        Err(e) => {
            return Err(e);
        },
    };
    let les = match layout_node {
        Pon::Array(v) => v,
        _ => {
            return Err(
                CompileError::WrongFieldType {
                    field: "layout".to_owned(),
                    expected: "array".to_owned(),
                },
            );
        },
    };
    let layout = match pon_to_layout(les) {
        Ok(l) => l,
        Err(e) => {
            return Err(e);
        },
    };
    let vertices_node = match get_field(data, "vertices") {
        Ok(p) => p,
        Err(e) => {
            return Err(e);
        },
    };
    let ves = match vertices_node {
        Pon::Array(v) => v,
        _ => {
            return Err(
                CompileError::WrongFieldType {
                    field: "vertices".to_owned(),
                    expected: "float array".to_owned(),
                },
            );
        },
    };
    let mut vertex_data: Vec<u32> = Vec::new();
    let nv = ves.len();
    let mut i: usize = 0;
    while i < nv
        invariant
            vertex_data@.len() == i,
            i <= nv,
            forall|j: int| 0 <= j < i ==> (#[trigger] elems_view(ves@)[j]) is Float,
            forall|j: int| 0 <= j < i ==> vertex_data@[j] == float_bits(elems_view(ves@))[j],
        decreases nv - i,
    {
        proof {
            assert(elems_view(ves@)[i as int] == pon_view(ves@[i as int]));
        }
        match &ves[i] {
            Pon::Float(b) => {
                vertex_data.push(*b);
            },
            _ => {
                return Err(
                    CompileError::WrongFieldType {
                        field: "vertices".to_owned(),
                        expected: "float array".to_owned(),
                    },
                );
            },
        }
        i = i + 1;
    }
    let indices_node = match get_field(data, "indices") {
        Ok(p) => p,
        Err(e) => {
            return Err(e);
        },
    };
    let ies = match indices_node {
        Pon::Array(v) => v,
        _ => {
            return Err(
                CompileError::WrongFieldType {
                    field: "indices".to_owned(),
                    expected: "integer array".to_owned(),
                },
            );
        },
    };
    let mut element_data: Vec<u32> = Vec::new();
    let ni = ies.len();
    let mut k: usize = 0;
    while k < ni
        invariant
            element_data@.len() == k,
            k <= ni,
            forall|j: int| 0 <= j < k ==> (#[trigger] elems_view(ies@)[j]) is Integer,
            forall|j: int| 0 <= j < k ==> element_data@[j] == int_u32s(elems_view(ies@))[j],
        decreases ni - k,
    {
        proof {
            assert(elems_view(ies@)[k as int] == pon_view(ies@[k as int]));
        }
        match &ies[k] {
            Pon::Integer(n) => {
                element_data.push(#[verifier::truncate] (*n as u32));
            },
            _ => {
                return Err(
                    CompileError::WrongFieldType {
                        field: "indices".to_owned(),
                        expected: "integer array".to_owned(),
                    },
                );
            },
        }
        k = k + 1;
    }
    let m = Mesh::Fixed { layout, vertex_data, element_data };
    proof {
        assert(vertex_data@ =~= float_bits(elems_view(ves@)));
        assert(element_data@ =~= int_u32s(elems_view(ies@)));
        assert(m@ =~= MeshV::Fixed {
            layout: layout_entries(elems_view(les@)),
            vertex_data: float_bits(elems_view(ves@)),
            element_data: int_u32s(elems_view(ies@)),
        });
    }
    Ok(m)
}

fn grid_mesh_exec(data: &Pon) -> (r: Result<Mesh, CompileError>)
    ensures
        match r {
            Ok(m) => grid_mesh_of(data@) == Ok::<MeshV, CompileErrorV>(m@),
            Err(e) => grid_mesh_of(data@) == Err::<MeshV, CompileErrorV>(e@),
        },
{
    let layout = match get_field(data, "layout") {
        Ok(p) => match p {
            Pon::Array(les) => match pon_to_layout(les) {
                Ok(l) => l,
                Err(e) => {
                    return Err(e);
                },
            },
            _ => default_layout(),
        },
        Err(_) => default_layout(),
    };
    let w = match int_field(data, "n_vertices_width") {
        Ok(n) => n,
        Err(e) => {
            return Err(e);
        },
    };
    let h = match int_field(data, "n_vertices_height") {
        Ok(n) => n,
        Err(e) => {
            return Err(e);
        },
    };
    Ok(
        Mesh::Grid {
            layout,
            n_vertices_width: #[verifier::truncate] (w as u32),
            n_vertices_height: #[verifier::truncate] (h as u32),
        },
    )
}

/// Compiles a mesh specification: `static_mesh` reads explicit buffers,
/// `grid_mesh` validates procedural-grid parameters; any other tag is
/// unrecognized.
pub fn pon_to_mesh(node: &Pon) -> (r: Result<Mesh, CompileError>)
    ensures
        match r {
            Ok(m) => mesh_of(node@) == Ok::<MeshV, CompileErrorV>(m@),
            Err(e) => mesh_of(node@) == Err::<MeshV, CompileErrorV>(e@),
        },
{
    match node {
        Pon::Typed { tag, data } => {
            if str_eq(tag.as_str(), "static_mesh") {
                static_mesh_exec(data)
            } else if str_eq(tag.as_str(), "grid_mesh") {
                grid_mesh_exec(data)
            } else {
                Err(CompileError::UnrecognizedType(tag.clone()))
            }
        },
        _ => Err(CompileError::MalformedNestedValue),
    }
}

// ---------------------------------------------------------------------------
// Textures
// ---------------------------------------------------------------------------

/// A little-endian 32-bit read at byte offset `i`.
pub open spec fn le_u32(b: Seq<u8>, i: int) -> u32 {
    (b[i] as int + b[i + 1] as int * 0x100 + b[i + 2] as int * 0x10000 + b[i + 3] as int
        * 0x1000000) as u32
}

/// The compilation rule for `static_texture`: required fields `pixels`
/// (integer array, narrowed to u8), `width` and `height`; the pixel count
/// must match an exact RGBA8 buffer, else the error reports both sizes.
pub open spec fn static_texture_of(data: PonV) -> Result<TextureV, CompileErrorV> {
    match field_of(data, "pixels"@) {
        Err(e) => Err(e),
        Ok(pv) => match pv {
            PonV::Array(pes) => if !all_ints(pes) {
                Err(wft("pixels"@, "integer array"@))
            } else {
                match int_field_of(data, "width"@) {
                    Err(e) => Err(e),
                    Ok(w) => match int_field_of(data, "height"@) {
                        Err(e) => Err(e),
                        Ok(h) => {
                            let wu = w as u32;
                            let hu = h as u32;
                            if wu as int * hu as int * 4 != pes.len() {
                                Err(
                                    CompileErrorV::SizeMismatch {
                                        expected: wu as int * hu as int * 4,
                                        actual: pes.len() as int,
                                    },
                                )
                            } else {
                                Ok(
                                    TextureV::Image {
                                        width: wu,
                                        height: hu,
                                        pixels: int_u8s(pes),
                                    },
                                )
                            }
                        },
                    },
                }
            },
            _ => Err(wft("pixels"@, "integer array"@)),
        },
    }
}

/// Whether a path names the raw little-endian height-map format.
pub open spec fn has_dhm_ext(s: Seq<char>) -> bool {
    s.len() >= 4 && s[s.len() - 4] == '.' && s[s.len() - 3] == 'd' && s[s.len() - 2] == 'h'
        && s[s.len() - 1] == 'm'
}

/// The raw height-map format: a little-endian 32-bit width, a little-endian
/// 32-bit height, then `width * height` little-endian 32-bit float samples
/// in row-major order. A shorter file is a decode error.
pub open spec fn dhm_of(path: Seq<char>, b: Seq<u8>) -> Result<TextureV, CompileErrorV> {
    if b.len() < 8 {
        Err(CompileErrorV::AssetDecodeError { path, cause: "truncated height map"@ })
    } else {
        let w = le_u32(b, 0);
        let h = le_u32(b, 4);
        if b.len() < 8 + 4 * (w as int) * (h as int) {
            Err(CompileErrorV::AssetDecodeError { path, cause: "truncated height map"@ })
        } else {
            Ok(
                TextureV::Floats {
                    width: w,
                    height: h,
                    data: Seq::new(
                        (w as int * h as int) as nat,
                        |i: int| le_u32(b, 8 + 4 * i),
                    ),
                },
            )
        }
    }
}

/// What the standard image decoder yields for a byte buffer: the RGBA8
/// dimensions and pixels on success, or the decoder's message. The result is
/// a function of the bytes alone.
pub uninterp spec fn rgba_decode(bytes: Seq<u8>) -> Result<(u32, u32, Seq<u8>), Seq<char>>;

/// Relies on image::load_from_memory and image::DynamicImage::to_rgba8: the
/// decoded image is a function of the input bytes alone, and a decoded RGBA8
/// buffer holds exactly width * height * 4 bytes.
#[verifier::external_body]
fn decode_image(bytes: &Vec<u8>) -> (r: Result<(u32, u32, Vec<u8>), String>)
    ensures
        match r {
            Ok(d) => rgba_decode(bytes@) matches Ok(s) && s.0 == d.0 && s.1 == d.1 && s.2
                == d.2@ && d.2@.len() == 4 * (d.0 as int) * (d.1 as int),
            Err(e) => rgba_decode(bytes@) matches Err(m) && m == e@,
        },
{
    match image::load_from_memory(bytes.as_slice()) {
        Ok(img) => {
            let rgba = img.to_rgba8();
            let w = rgba.width();
            let h = rgba.height();
            Ok((w, h, rgba.into_raw()))
        },
        Err(e) => Err(e.to_string()),
    }
}

/// The compilation rule for `texture_from_file`: the payload is a path
/// string, resolved against the host's loaded assets. A `.dhm` path is
/// parsed as the raw height-map format; any other path is decoded as a
/// standard image container and converted to 8-bit RGBA.
pub open spec fn texture_from_file_of(assets: Seq<(Seq<char>, AssetV)>, data: PonV) -> Result<
    TextureV,
    CompileErrorV,
> {
    match data {
        PonV::Str(path) => match asset_lookup(assets, path) {
            None => Err(
                CompileErrorV::AssetIoError { path, cause: "asset not loaded"@ },
            ),
            Some(AssetV::Text(_)) => Err(
                CompileErrorV::AssetIoError { path, cause: "not a binary asset"@ },
            ),
            Some(AssetV::Bytes(b)) => if has_dhm_ext(path) {
                dhm_of(path, b)
            } else {
                match rgba_decode(b) {
                    Ok(d) => Ok(TextureV::Image { width: d.0, height: d.1, pixels: d.2 }),
                    Err(m) => Err(CompileErrorV::AssetDecodeError { path, cause: m }),
                }
            },
        },
        _ => Err(CompileErrorV::MalformedNestedValue),
    }
}

/// The texture compiler: dispatches on the typed tag.
pub open spec fn texture_of(assets: Seq<(Seq<char>, AssetV)>, p: PonV) -> Result<
    TextureV,
    CompileErrorV,
> {
    match p {
        PonV::Typed { tag, data } => {
            if tag == "static_texture"@ {
                static_texture_of(*data)
            } else if tag == "texture_from_file"@ {
                texture_from_file_of(assets, *data)
            } else {
                Err(CompileErrorV::UnrecognizedType(tag))
            }
        },
        _ => Err(CompileErrorV::MalformedNestedValue),
    }
}

#[verifier::loop_isolation(false)]
fn static_texture_exec(data: &Pon) -> (r: Result<Texture, CompileError>)
    ensures
        match r {
            Ok(t) => static_texture_of(data@) == Ok::<TextureV, CompileErrorV>(t@),
            Err(e) => static_texture_of(data@) == Err::<TextureV, CompileErrorV>(e@),
        },
{
    let pixels_node = match get_field(data, "pixels") {
        Ok(p) => p,
        Err(e) => {
            return Err(e);
        },
    };
    let pes = match pixels_node {
        Pon::Array(v) => v,
        _ => {
            return Err(
                CompileError::WrongFieldType {
                    field: "pixels".to_owned(),
                    expected: "integer array".to_owned(),
                },
            );
        },
    };
    let mut pixels: Vec<u8> = Vec::new();
    let np = pes.len();
    let mut i: usize = 0;
    while i < np
        invariant
            pixels@.len() == i,
            i <= np,
            forall|j: int| 0 <= j < i ==> (#[trigger] elems_view(pes@)[j]) is Integer,
            forall|j: int| 0 <= j < i ==> pixels@[j] == int_u8s(elems_view(pes@))[j],
        decreases np - i,
    {
        proof {
            assert(elems_view(pes@)[i as int] == pon_view(pes@[i as int]));
        }
        match &pes[i] {
            Pon::Integer(n) => {
                pixels.push(#[verifier::truncate] (*n as u8));
            },
            _ => {
                return Err(
                    CompileError::WrongFieldType {
                        field: "pixels".to_owned(),
                        expected: "integer array".to_owned(),
                    },
                );
            },
        }
        i = i + 1;
    }
    let w = match int_field(data, "width") {
        Ok(n) => #[verifier::truncate] (n as u32),
        Err(e) => {
            return Err(e);
        },
    };
    let h = match int_field(data, "height") {
        Ok(n) => #[verifier::truncate] (n as u32),
        Err(e) => {
            return Err(e);
        },
    };
    proof {
        assert((w as int) * (h as int) * 4 < 0x100000000000000000000000000000000) by (nonlinear_arith)
            requires
                (w as int) < 0x100000000,
                (h as int) < 0x100000000,
        ;
    }
    let expected: u128 = (w as u128) * (h as u128) * 4;
    if expected != pixels.len() as u128 {
        return Err(CompileError::SizeMismatch { expected, actual: pixels.len() as u128 });
    }
    let t = Texture::Image { width: w, height: h, pixels };
    proof {
        assert(pixels@ =~= int_u8s(elems_view(pes@)));
        assert(t@ =~= TextureV::Image {
            width: w,
            height: h,
            pixels: int_u8s(elems_view(pes@)),
        });
    }
    Ok(t)
}

/// Reads a little-endian 32-bit value at byte offset `i`.
fn read_le_u32(b: &Vec<u8>, i: usize) -> (r: u32)
    requires
        i + 4 <= b@.len(),
    ensures
        r == le_u32(b@, i as int),
{
    let n = b.len();
    let b0 = b[i] as u32;
    let b1 = b[i + 1] as u32;
    let b2 = b[i + 2] as u32;
    let b3 = b[i + 3] as u32;
    b0 + b1 * 0x100 + b2 * 0x10000 + b3 * 0x1000000
}

/// Whether the path's last four characters are `.dhm`.
fn has_dhm_extension(s: &str) -> (r: bool)
    ensures
        r == has_dhm_ext(s@),
{
    let n = s.unicode_len();
    if n < 4 {
        return false;
    }
    s.get_char(n - 4) == '.' && s.get_char(n - 3) == 'd' && s.get_char(n - 2) == 'h'
        && s.get_char(n - 1) == 'm'
}

#[verifier::loop_isolation(false)]
fn parse_dhm(path: &String, b: &Vec<u8>) -> (r: Result<Texture, CompileError>)
    ensures
        match r {
            Ok(t) => dhm_of(path@, b@) == Ok::<TextureV, CompileErrorV>(t@),
            Err(e) => dhm_of(path@, b@) == Err::<TextureV, CompileErrorV>(e@),
        },
{
    if b.len() < 8 {
        return Err(
            CompileError::AssetDecodeError {
                path: path.clone(),
                cause: "truncated height map".to_owned(),
            },
        );
    }
    let w = read_le_u32(b, 0);
    let h = read_le_u32(b, 4);
    proof {
        assert(8 + 4 * ((w as int) * (h as int)) < 0x100000000000000000000000000000000) by (nonlinear_arith)
            requires
                (w as int) < 0x100000000,
                (h as int) < 0x100000000,
        ;
    }
    let count128: u128 = (w as u128) * (h as u128);
    proof {
        assert(count128 == (w as int) * (h as int));
        assert(4 * (w as int) * (h as int) == 4 * ((w as int) * (h as int)))
            by (nonlinear_arith);
    }
    if (b.len() as u128) < 8 + 4 * count128 {
        proof {
            assert(b@.len() < 8 + 4 * (w as int) * (h as int));
        }
        return Err(
            CompileError::AssetDecodeError {
                path: path.clone(),
                cause: "truncated height map".to_owned(),
            },
        );
    }
    proof {
        assert(4 * count128 + 8 <= b@.len());
        assert(count128 <= usize::MAX as u128);
    }
    let count: usize = (count128) as usize;
    proof {
        assert(count == (w as int) * (h as int));
    }
    let mut data: Vec<u32> = Vec::new();
    let mut i: usize = 0;
    while i < count
        invariant
            data@.len() == i,
            i <= count,
            count == w as int * h as int,
            8 + 4 * count <= b@.len(),
            forall|j: int| 0 <= j < i ==> data@[j] == le_u32(b@, 8 + 4 * j),
        decreases count - i,
    {
        let v = read_le_u32(b, 8 + 4 * i);
        data.push(v);
        i = i + 1;
    }
    let t = Texture::Floats { width: w, height: h, data };
    proof {
        assert(data@ =~= Seq::new(
            (w as int * h as int) as nat,
            |i: int| le_u32(b@, 8 + 4 * i),
        ));
        assert(t@ =~= TextureV::Floats {
            width: w,
            height: h,
            data: Seq::new((w as int * h as int) as nat, |i: int| le_u32(b@, 8 + 4 * i)),
        });
    }
    Ok(t)
}

fn texture_from_file_exec(assets: &AssetStore, data: &Pon) -> (r: Result<Texture, CompileError>)
    ensures
        match r {
            Ok(t) => texture_from_file_of(assets@, data@) == Ok::<TextureV, CompileErrorV>(t@),
            Err(e) => texture_from_file_of(assets@, data@) == Err::<TextureV, CompileErrorV>(
                e@,
            ),
        },
{
    let path = match data {
        Pon::Str(s) => s,
        _ => {
            return Err(CompileError::MalformedNestedValue);
        },
    };
    match assets.lookup(path.as_str()) {
        None => Err(
            CompileError::AssetIoError {
                path: path.clone(),
                cause: "asset not loaded".to_owned(),
            },
        ),
        Some(AssetData::Text(_)) => Err(
            CompileError::AssetIoError {
                path: path.clone(),
                cause: "not a binary asset".to_owned(),
            },
        ),
        Some(AssetData::Bytes(b)) => {
            if has_dhm_extension(path.as_str()) {
                parse_dhm(path, b)
            } else {
                match decode_image(b) {
                    Ok((w, h, px)) => Ok(Texture::Image { width: w, height: h, pixels: px }),
                    Err(m) => Err(
                        CompileError::AssetDecodeError { path: path.clone(), cause: m },
                    ),
                }
            }
        },
    }
}

/// Compiles a texture specification: `static_texture` reads an explicit
/// RGBA8 buffer, `texture_from_file` decodes a loaded asset; any other tag
/// is unrecognized.
pub fn pon_to_texture(assets: &AssetStore, node: &Pon) -> (r: Result<Texture, CompileError>)
    ensures
        match r {
            Ok(t) => texture_of(assets@, node@) == Ok::<TextureV, CompileErrorV>(t@),
            Err(e) => texture_of(assets@, node@) == Err::<TextureV, CompileErrorV>(e@),
        },
{
    match node {
        Pon::Typed { tag, data } => {
            if str_eq(tag.as_str(), "static_texture") {
                static_texture_exec(data)
            } else if str_eq(tag.as_str(), "texture_from_file") {
                texture_from_file_exec(assets, data)
            } else {
                Err(CompileError::UnrecognizedType(tag.clone()))
            }
        },
        _ => Err(CompileError::MalformedNestedValue),
    }
}

// ---------------------------------------------------------------------------
// Shader programs
// ---------------------------------------------------------------------------

/// The debug label of a shader stage: the sub-specification's textual
/// rendering, `tag(argument)`.
pub open spec fn label_of(tag: Seq<char>, arg: Seq<char>) -> Seq<char> {
    tag + "("@ + arg + ")"@
}

/// One shader stage: `static_shader` carries inline source,
/// `shader_from_file` names a text asset; any other tag is unrecognized, and
/// a stage whose payload is not a string is malformed.
pub open spec fn shader_stage_of(
    assets: Seq<(Seq<char>, AssetV)>,
    field: Seq<char>,
    stage: PonV,
) -> Result<(Seq<char>, Seq<char>), CompileErrorV> {
    match stage {
        PonV::Typed { tag, data } => match *data {
            PonV::Str(arg) => {
                if tag == "shader_from_file"@ {
                    match asset_lookup(assets, arg) {
                        Some(AssetV::Text(t)) => Ok((t, label_of(tag, arg))),
                        Some(AssetV::Bytes(_)) => Err(
                            CompileErrorV::AssetIoError {
                                path: arg,
                                cause: "not a text asset"@,
                            },
                        ),
                        None => Err(
                            CompileErrorV::AssetIoError {
                                path: arg,
                                cause: "asset not loaded"@,
                            },
                        ),
                    }
                } else if tag == "static_shader"@ {
                    Ok((arg, label_of(tag, arg)))
                } else {
                    Err(CompileErrorV::UnrecognizedType(tag))
                }
            },
            _ => Err(CompileErrorV::MalformedNestedValue),
        },
        _ => Err(wft(field, "typed value"@)),
    }
}

/// The shader compiler: a `shader_program` with `vertex` and `fragment`
/// sub-specifications, each compiled by `shader_stage_of`.
pub open spec fn shader_of(assets: Seq<(Seq<char>, AssetV)>, p: PonV) -> Result<
    ShaderSourceV,
    CompileErrorV,
> {
    match p {
        PonV::Typed { tag, data } => {
            if tag == "shader_program"@ {
                match field_of(*data, "vertex"@) {
                    Err(e) => Err(e),
                    Ok(v) => match field_of(*data, "fragment"@) {
                        Err(e) => Err(e),
                        Ok(f) => match shader_stage_of(assets, "vertex"@, v) {
                            Err(e) => Err(e),
                            Ok(vs) => match shader_stage_of(assets, "fragment"@, f) {
                                Err(e) => Err(e),
                                Ok(fs) => Ok(
                                    ShaderSourceV {
                                        vertex_src: vs.0,
                                        vertex_debug_source_name: vs.1,
                                        fragment_src: fs.0,
                                        fragment_debug_source_name: fs.1,
                                    },
                                ),
                            },
                        },
                    },
                }
            } else {
                Err(CompileErrorV::UnrecognizedType(tag))
            }
        },
        _ => Err(CompileErrorV::MalformedNestedValue),
    }
}

fn make_label(tag: &String, arg: &String) -> (r: String)
    ensures
        r@ == label_of(tag@, arg@),
{
    let mut s = tag.clone();
    s.append("(");
    s.append(arg.as_str());
    s.append(")");
    proof {
        assert(s@ =~= label_of(tag@, arg@));
    }
    s
}

fn shader_stage_exec(assets: &AssetStore, field: &str, stage: &Pon) -> (r: Result<
    (String, String),
    CompileError,
>)
    ensures
        match r {
            Ok(p) => shader_stage_of(assets@, field@, stage@) == Ok::<
                (Seq<char>, Seq<char>),
                CompileErrorV,
            >((p.0@, p.1@)),
            Err(e) => shader_stage_of(assets@, field@, stage@) == Err::<
                (Seq<char>, Seq<char>),
                CompileErrorV,
            >(e@),
        },
{
    let (tag, sdata) = match stage {
        Pon::Typed { tag, data } => (tag, &**data),
        _ => {
            return Err(
                CompileError::WrongFieldType {
                    field: field.to_owned(),
                    expected: "typed value".to_owned(),
                },
            );
        },
    };
    proof {
        assert(stage@ == PonV::Typed { tag: tag@, data: Box::new(pon_view(*sdata)) });
    }
    let arg = match sdata {
        Pon::Str(s) => s,
        _ => {
            return Err(CompileError::MalformedNestedValue);
        },
    };
    if str_eq(tag.as_str(), "shader_from_file") {
        match assets.lookup(arg.as_str()) {
            Some(AssetData::Text(t)) => {
                let label = make_label(tag, arg);
                Ok((t.clone(), label))
            },
            Some(AssetData::Bytes(_)) => Err(
                CompileError::AssetIoError {
                    path: arg.clone(),
                    cause: "not a text asset".to_owned(),
                },
            ),
            None => Err(
                CompileError::AssetIoError {
                    path: arg.clone(),
                    cause: "asset not loaded".to_owned(),
                },
            ),
        }
    } else if str_eq(tag.as_str(), "static_shader") {
        let label = make_label(tag, arg);
        Ok((arg.clone(), label))
    } else {
        Err(CompileError::UnrecognizedType(tag.clone()))
    }
}

/// Compiles a shader-program specification into its vertex and fragment
/// source pair, each stage labelled with its sub-specification's textual
/// rendering.
pub fn pon_to_shader(assets: &AssetStore, node: &Pon) -> (r: Result<ShaderSource, CompileError>)
    ensures
        match r {
            Ok(s) => shader_of(assets@, node@) == Ok::<ShaderSourceV, CompileErrorV>(s@),
            Err(e) => shader_of(assets@, node@) == Err::<ShaderSourceV, CompileErrorV>(e@),
        },
{
    match node {
        Pon::Typed { tag, data } => {
            if str_eq(tag.as_str(), "shader_program") {
                let vertex = match get_field(data, "vertex") {
                    Ok(p) => p,
                    Err(e) => {
                        return Err(e);
                    },
                };
                let fragment = match get_field(data, "fragment") {
                    Ok(p) => p,
                    Err(e) => {
                        return Err(e);
                    },
                };
                let vs = match shader_stage_exec(assets, "vertex", vertex) {
                    Ok(p) => p,
                    Err(e) => {
                        return Err(e);
                    },
                };
                let fs = match shader_stage_exec(assets, "fragment", fragment) {
                    Ok(p) => p,
                    Err(e) => {
                        return Err(e);
                    },
                };
                Ok(
                    ShaderSource {
                        vertex_src: vs.0,
                        vertex_debug_source_name: vs.1,
                        fragment_src: fs.0,
                        fragment_debug_source_name: fs.1,
                    },
                )
            } else {
                Err(CompileError::UnrecognizedType(tag.clone()))
            }
        },
        _ => Err(CompileError::MalformedNestedValue),
    }
}

} // verus!
