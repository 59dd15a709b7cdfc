use vstd::prelude::*;

use crate::bytes::lemma_words_bytes_len;
use crate::bytes::push_words;
use crate::bytes::words_bytes;
use crate::loadable::Loadable;
use crate::result::obj_error;
use crate::result::GearError;
use crate::result::Result;

verus! {

/// Bytes one vertex occupies in the vertex buffer.
pub const VERTEX_SIZE: u64 = 32;

/// Bytes one index occupies in the index buffer.
pub const INDEX_SIZE: u64 = 4;

/// One vertex as the GPU reads it. Each component is the IEEE-754 bit
/// pattern of a 32-bit float; the renderer copies them and never interprets
/// them.
#[derive(Clone, Copy, Debug, PartialEq, Eq)]
pub struct Vertex {
    pub position: [u32; 3],
    pub tex_coords: [u32; 2],
    pub normal: [u32; 3],
}

/// Vertices with mesh-local indices (the first vertex is index 0).
pub struct Mesh {
    pub vertices: Vec<Vertex>,
    pub indices: Vec<u32>,
}

/// An ordered set of meshes drawn with one transform.
pub struct Model {
    pub meshes: Vec<Mesh>,
}

/// The 32 bytes of a vertex: position, texture coordinates, normal.
pub open spec fn vertex_bytes(v: Vertex) -> Seq<u8> {
    words_bytes(v.position@) + words_bytes(v.tex_coords@) + words_bytes(v.normal@)
}

/// Vertices laid out one after the other.
pub open spec fn vertices_bytes(vs: Seq<Vertex>) -> Seq<u8>
    decreases vs.len(),
{
    if vs.len() == 0 {
        Seq::empty()
    } else {
        vertices_bytes(vs.drop_last()) + vertex_bytes(vs.last())
    }
}

/// The vertices of all meshes, concatenated in order.
pub open spec fn model_vertices(ms: Seq<Mesh>) -> Seq<Vertex>
    decreases ms.len(),
{
    if ms.len() == 0 {
        Seq::empty()
    } else {
        model_vertices(ms.drop_last()) + ms.last().vertices@
    }
}

/// The indices of all meshes, concatenated in order, each still mesh-local.
pub open spec fn model_indices(ms: Seq<Mesh>) -> Seq<u32>
    decreases ms.len(),
{
    if ms.len() == 0 {
        Seq::empty()
    } else {
        model_indices(ms.drop_last()) + ms.last().indices@
    }
}

pub proof fn lemma_vertices_bytes_len(vs: Seq<Vertex>)
    ensures
        vertices_bytes(vs).len() == VERTEX_SIZE * vs.len(),
    decreases vs.len(),
{
    if vs.len() > 0 {
        let v = vs.last();
        lemma_vertices_bytes_len(vs.drop_last());
        lemma_words_bytes_len(v.position@);
        lemma_words_bytes_len(v.tex_coords@);
        lemma_words_bytes_len(v.normal@);
    }
}

/// Serializes vertices for upload, 32 little-endian bytes each.
pub fn encode_vertices(vs: &Vec<Vertex>) -> (r: Vec<u8>)
    ensures
        r@ == vertices_bytes(vs@),
        r@.len() == VERTEX_SIZE * vs@.len(),
{
    let mut out: Vec<u8> = Vec::new();
    let mut i: usize = 0;
    while i < vs.len()
        invariant
            i <= vs@.len(),
            out@ == vertices_bytes(vs@.take(i as int)),
        decreases vs@.len() - i,
    {
        let v = vs[i];
        let ghost before = out@;
        push_words(&mut out, &v.position);
        push_words(&mut out, &v.tex_coords);
        push_words(&mut out, &v.normal);
        proof {
            assert(vs@.take(i as int + 1).drop_last() =~= vs@.take(i as int));
            assert(out@ =~= before + vertex_bytes(v));
        }
        i = i + 1;
    }
    assert(vs@.take(i as int) =~= vs@);
    proof {
        lemma_vertices_bytes_len(vs@);
    }
    out
}

/// Serializes indices for upload, 4 little-endian bytes each.
pub fn encode_indices(is: &Vec<u32>) -> (r: Vec<u8>)
    ensures
        r@ == words_bytes(is@),
        r@.len() == INDEX_SIZE * is@.len(),
{
    let mut out: Vec<u8> = Vec::new();
    push_words(&mut out, is.as_slice());
    assert(out@ =~= words_bytes(is@));
    proof {
        lemma_words_bytes_len(is@);
    }
    out
}

/// One object of an OBJ file as flat attribute arrays, every float given as
/// its bit pattern: three position words, two texture coordinate words and
/// three normal words per vertex, and one index list over those vertices.
pub struct ObjMesh {
    pub positions: Vec<u32>,
    pub texcoords: Vec<u32>,
    pub normals: Vec<u32>,
    pub indices: Vec<u32>,
}

pub struct ObjMeshView {
    pub positions: Seq<u32>,
    pub texcoords: Seq<u32>,
    pub normals: Seq<u32>,
    pub indices: Seq<u32>,
}

impl View for ObjMesh {
    type V = ObjMeshView;

    open spec fn view(&self) -> ObjMeshView {
        ObjMeshView {
            positions: self.positions@,
            texcoords: self.texcoords@,
            normals: self.normals@,
            indices: self.indices@,
        }
    }
}

/// What tobj's OBJ parser makes of a file's bytes, triangulated and with a
/// single index per vertex: its objects, or the position of the failing
/// variant in the declaration of `tobj::LoadError`.
pub uninterp spec fn obj_parse(bytes: Seq<u8>) -> core::result::Result<Seq<ObjMeshView>, u8>;

/// Longest run of sign and digit bytes after a `/` that is accepted as a
/// texture coordinate or normal index: any such index is below 10^9.
pub const MAX_INDEX_DIGITS: usize = 9;

/// A byte that can belong to an unsigned integer written in decimal.
pub open spec fn is_index_byte(b: u8) -> bool {
    (48 <= b && b <= 57) || b == 43
}

/// The component after the `/` at `i` is a negative number: it starts with
/// a minus sign.
pub open spec fn negative_index_at(bytes: Seq<u8>, i: int) -> bool {
    i + 1 < bytes.len() && bytes[i + 1] == 45
}

/// More than `MAX_INDEX_DIGITS` sign or digit bytes follow the `/` at `i`.
pub open spec fn long_index_at(bytes: Seq<u8>, i: int) -> bool {
    &&& i + MAX_INDEX_DIGITS + 1 < bytes.len()
    &&& forall|k: int| 1 <= k <= MAX_INDEX_DIGITS + 1 ==> is_index_byte(#[trigger] bytes[i + k])
}

/// In OBJ text every texture coordinate and normal index of a face follows a
/// `/`. Here each text after a `/` is neither negative nor a number of more
/// than `MAX_INDEX_DIGITS` bytes, so every such index names an element
/// counted from the first one and is below 10^9.
pub open spec fn obj_indices_bounded(bytes: Seq<u8>) -> bool {
    forall|i: int|
        0 <= i < bytes.len() && #[trigger] bytes[i] == 47 ==> !negative_index_at(bytes, i)
            && !long_index_at(bytes, i)
}

/// Decides whether more than `MAX_INDEX_DIGITS` sign or digit bytes follow
/// position `i`.
fn long_index_from(bytes: &[u8], i: usize) -> (r: bool)
    requires
        i < bytes@.len(),
    ensures
        r == long_index_at(bytes@, i as int),
{
    if bytes.len() - i <= MAX_INDEX_DIGITS + 1 {
        return false;
    }
    let mut k: usize = 1;
    while k <= MAX_INDEX_DIGITS + 1
        invariant
            1 <= k <= MAX_INDEX_DIGITS + 2,
            i + MAX_INDEX_DIGITS + 1 < bytes@.len(),
            bytes@.len() <= usize::MAX,
            forall|q: int| 1 <= q < k ==> is_index_byte(#[trigger] bytes@[i + q]),
        decreases MAX_INDEX_DIGITS + 2 - k,
    {
        let b = bytes[i + k];
        if !((48 <= b && b <= 57) || b == 43) {
            return false;
        }
        k = k + 1;
    }
    true
}

/// Decides `obj_indices_bounded`.
pub fn check_obj_indices(bytes: &[u8]) -> (r: bool)
    ensures
        r == obj_indices_bounded(bytes@),
{
    let mut i: usize = 0;
    while i < bytes.len()
        invariant
            i <= bytes@.len(),
            forall|j: int|
                0 <= j < i && #[trigger] bytes@[j] == 47 ==> !negative_index_at(bytes@, j)
                    && !long_index_at(bytes@, j),
        decreases bytes@.len() - i,
    {
        if bytes[i] == 47 {
            if i + 1 < bytes.len() && bytes[i + 1] == 45 {
                return false;
            }
            if long_index_from(bytes, i) {
                return false;
            }
        }
        i = i + 1;
    }
    true
}

/// Relies on `tobj::load_obj_buf`, which parses OBJ text from a buffer. No
/// material library is read: the material loader reports every one as
/// missing, which tobj keeps apart from the models it returns. tobj reads a
/// texture coordinate or normal index before the first element, or one near
/// the largest `usize`, as an unsigned number and multiplies it unchecked,
/// so such text is left out.
#[verifier::external_body]
fn parse_obj(bytes: &[u8]) -> (r: core::result::Result<Vec<ObjMesh>, u8>)
    requires
        obj_indices_bounded(bytes@),
    ensures
        match r {
            Ok(objs) => obj_parse(bytes@) == Ok::<Seq<ObjMeshView>, u8>(
                objs@.map_values(|o: ObjMesh| o@),
            ),
            Err(code) => obj_parse(bytes@) == Err::<Seq<ObjMeshView>, u8>(code) && code < 16,
        },
{
    let mut reader = bytes;
    let options = tobj::LoadOptions { triangulate: true, single_index: true, ..Default::default() };
    match tobj::load_obj_buf(&mut reader, &options, |_| Err(tobj::LoadError::OpenFileFailed)) {
        Ok((models, _)) => Ok(models.into_iter().map(|m| ObjMesh {
            positions: m.mesh.positions.iter().map(|x| x.to_bits()).collect(),
            texcoords: m.mesh.texcoords.iter().map(|x| x.to_bits()).collect(),
            normals: m.mesh.normals.iter().map(|x| x.to_bits()).collect(),
            indices: m.mesh.indices,
        }).collect()),
        Err(e) => Err(e as u8),
    }
}

/// Number of vertices an object describes: one per three position words.
pub open spec fn obj_vertex_count(o: ObjMeshView) -> int {
    o.positions.len() as int / 3
}

/// Every vertex has its texture coordinates and its normal.
pub open spec fn obj_complete(o: ObjMeshView) -> bool {
    let n = obj_vertex_count(o);
    o.texcoords.len() >= 2 * n && o.normals.len() >= 3 * n
}

/// Vertex `i` of an object, assembled from its attribute arrays.
pub open spec fn obj_vertex(o: ObjMeshView, i: int) -> Vertex {
    Vertex {
        position: [o.positions[3 * i], o.positions[3 * i + 1], o.positions[3 * i + 2]],
        tex_coords: [o.texcoords[2 * i], o.texcoords[2 * i + 1]],
        normal: [o.normals[3 * i], o.normals[3 * i + 1], o.normals[3 * i + 2]],
    }
}

pub open spec fn obj_vertices(o: ObjMeshView) -> Seq<Vertex> {
    Seq::new(obj_vertex_count(o) as nat, |i: int| obj_vertex(o, i))
}

/// The model built from parsed objects: one mesh per object, or
/// `ParseFileFailed` when some object lacks texture coordinates or normals.
pub open spec fn model_from_objs(os: Seq<ObjMeshView>, r: Result<Model>) -> bool {
    if forall|k: int| 0 <= k < os.len() ==> obj_complete(#[trigger] os[k]) {
        &&& r matches Ok(m)
        &&& m.meshes@.len() == os.len()
        &&& forall|k: int|
            0 <= k < os.len() ==> {
                &&& (#[trigger] m.meshes@[k]).vertices@ == obj_vertices(os[k])
                &&& m.meshes@[k].indices@ == os[k].indices
            }
    } else {
        r == Err::<Model, GearError>(GearError::ParseFileFailed)
    }
}

/// Assembles the vertices of one object, or `None` when an attribute array
/// is too short.
fn obj_to_mesh(o: &ObjMesh) -> (r: Option<Mesh>)
    ensures
        r is Some <==> obj_complete(o@),
        r matches Some(m) ==> m.vertices@ == obj_vertices(o@) && m.indices@ == o.indices@,
{
    let n = o.positions.len() / 3;
    if o.texcoords.len() / 2 < n || o.normals.len() / 3 < n {
        return None;
    }
    let mut vertices: Vec<Vertex> = Vec::new();
    let mut i: usize = 0;
    while i < n
        invariant
            n == obj_vertex_count(o@),
            obj_complete(o@),
            o.positions@.len() <= usize::MAX,
            o.texcoords@.len() <= usize::MAX,
            o.normals@.len() <= usize::MAX,
            i <= n,
            vertices@ == obj_vertices(o@).take(i as int),
        decreases n - i,
    {
        proof {
            assert(3 * i + 2 < o.positions@.len()) by (nonlinear_arith)
                requires i < n, n == o.positions@.len() / 3;
            assert(2 * i + 1 < o.texcoords@.len()) by (nonlinear_arith)
                requires i < n, o.texcoords@.len() >= 2 * n;
            assert(3 * i + 2 < o.normals@.len()) by (nonlinear_arith)
                requires i < n, o.normals@.len() >= 3 * n;
        }
        let v = Vertex {
            position: [o.positions[3 * i], o.positions[3 * i + 1], o.positions[3 * i + 2]],
            tex_coords: [o.texcoords[2 * i], o.texcoords[2 * i + 1]],
            normal: [o.normals[3 * i], o.normals[3 * i + 1], o.normals[3 * i + 2]],
        };
        vertices.push(v);
        i = i + 1;
        assert(vertices@ =~= obj_vertices(o@).take(i as int));
    }
    assert(vertices@ =~= obj_vertices(o@));
    let mut indices: Vec<u32> = Vec::new();
    let mut j: usize = 0;
    while j < o.indices.len()
        invariant
            j <= o.indices@.len(),
            indices@ == o.indices@.take(j as int),
        decreases o.indices@.len() - j,
    {
        indices.push(o.indices[j]);
        j = j + 1;
        assert(indices@ =~= o.indices@.take(j as int));
    }
    assert(indices@ =~= o.indices@);
    Some(Mesh { vertices, indices })
}

impl Model {
    /// Builds a model from parsed OBJ objects, one mesh per object.
    pub fn from_obj_meshes(objs: &Vec<ObjMesh>) -> (r: Result<Model>)
        ensures
            model_from_objs(objs@.map_values(|o: ObjMesh| o@), r),
    {
        let ghost os = objs@.map_values(|o: ObjMesh| o@);
        let mut meshes: Vec<Mesh> = Vec::new();
        let mut k: usize = 0;
        while k < objs.len()
            invariant
                os == objs@.map_values(|o: ObjMesh| o@),
                k <= objs@.len(),
                meshes@.len() == k,
                forall|q: int| 0 <= q < k ==> obj_complete(#[trigger] os[q]),
                forall|q: int|
                    0 <= q < k ==> {
                        &&& (#[trigger] meshes@[q]).vertices@ == obj_vertices(os[q])
                        &&& meshes@[q].indices@ == os[q].indices
                    },
            decreases objs@.len() - k,
        {
            match obj_to_mesh(&objs[k]) {
                Some(m) => {
                    meshes.push(m);
                },
                None => {
                    assert(!obj_complete(os[k as int]));
                    return Err(GearError::ParseFileFailed);
                },
            }
            k = k + 1;
        }
        Ok(Model { meshes })
    }
}

impl Loadable for Model {
    /// A model is the parsed OBJ file's objects, one mesh each; a parse
    /// failure is mapped to the engine's error. Text whose texture
    /// coordinate or normal indices are not bounded as
    /// `obj_indices_bounded` states is rejected as malformed.
    open spec fn loaded(bytes: Seq<u8>, r: Result<Self>) -> bool {
        if !obj_indices_bounded(bytes) {
            r == Err::<Model, GearError>(GearError::ParseFileFailed)
        } else {
            match obj_parse(bytes) {
                Ok(os) => model_from_objs(os, r),
                Err(code) => r == Err::<Model, GearError>(obj_error(code)),
            }
        }
    }

    fn load(bytes: &[u8]) -> (r: Result<Self>) {
        if !check_obj_indices(bytes) {
            return Err(GearError::ParseFileFailed);
        }
        match parse_obj(bytes) {
            Ok(objs) => Model::from_obj_meshes(&objs),
            Err(code) => Err(GearError::from_obj_code(code)),
        }
    }
}

} // verus!
