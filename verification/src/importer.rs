//! Asset ingestion: raw primitive records into renderable descriptors.
//!
//! A model parser hands over one raw record per primitive: flat position,
//! normal, texture-coordinate and tangent streams, an index list and an
//! optional material index. Ingestion validates the record shape and the
//! index range, converts the source axis convention to right-handed Y-up
//! (applied identically to positions, normals and tangents so lighting
//! stays consistent), fills absent attribute streams with their documented
//! defaults, interleaves the vertex buffer, computes the bounding sphere
//! and resolves the material. Any structural failure aborts the whole
//! object; a primitive without vertices is legal and yields no mesh.

use vstd::prelude::*;

use crate::bounding::{axis_sum, is_sqrt_of, max_dist2, BoundingSphere};
use crate::fixed::{clamp_coord128, spec_clamp_coord, SCALE};
use crate::material::{
    resolve_material, resolved_ok, spec_default_material, MaterialDesc, RawMaterial,
};
use crate::scene::{Mat4Fx, MeshDesc, ObjDesc};
use crate::texture::{has_suffix4, spec_has_suffix4};

verus! {

/// Errors that abort the import of one object.
#[derive(Clone, Copy, Debug, PartialEq, Eq, Structural)]
pub enum ImportError {
    FileUnreadable,
    UnsupportedFormat,
    MalformedGeometry,
}

/// The two supported model containers: the flat polygon format with a
/// companion material file, and the hierarchical node-graph scene format.
#[derive(Clone, Copy, Debug, PartialEq, Eq, Structural)]
pub enum ModelFormat {
    Obj,
    Gltf,
}

/// Axis convention of a source format. `YUp` already matches the target
/// convention; `ZUp` needs its Y and Z axes swapped with one negation.
#[derive(Clone, Copy, Debug, PartialEq, Eq, Structural)]
pub enum SourceAxes {
    YUp,
    ZUp,
}

/// One raw primitive record from a model parser: flat attribute streams
/// (three position and normal coordinates, two texture coordinates and
/// four tangent components per vertex; an empty stream means absent), the
/// index list, and the material reference.
#[derive(Clone, Debug)]
pub struct RawPrimitive {
    pub name: String,
    pub positions: Vec<i64>,
    pub normals: Vec<i64>,
    pub texcoords: Vec<i64>,
    pub tangents: Vec<i64>,
    pub indices: Vec<u32>,
    pub material_index: Option<usize>,
}

/// Texture file contents read for one raw material's three slots; `None`
/// where the path is empty or the file could not be read.
#[derive(Clone, Debug)]
pub struct TextureFiles {
    pub ambient: Option<Vec<u8>>,
    pub diffuse: Option<Vec<u8>>,
    pub specular: Option<Vec<u8>>,
}

/// The path names the flat polygon format.
pub open spec fn ext_obj(p: Seq<u8>) -> bool {
    spec_has_suffix4(p, 46u8, 111u8, 98u8, 106u8)
}

/// The path names the binary node-graph container.
pub open spec fn ext_glb(p: Seq<u8>) -> bool {
    spec_has_suffix4(p, 46u8, 103u8, 108u8, 98u8)
}

/// The path names the textual node-graph container.
pub open spec fn ext_gltf(p: Seq<u8>) -> bool {
    &&& p.len() >= 5
    &&& p[p.len() - 5] == 46u8
    &&& p[p.len() - 4] == 103u8
    &&& p[p.len() - 3] == 108u8
    &&& p[p.len() - 2] == 116u8
    &&& p[p.len() - 1] == 102u8
}

/// Recognize a model file by its extension; anything else is unsupported.
pub fn detect_format(path: &Vec<u8>) -> (r: Result<ModelFormat, ImportError>)
    ensures
        ext_obj(path@) ==> r == Ok::<ModelFormat, ImportError>(ModelFormat::Obj),
        ext_gltf(path@) || ext_glb(path@) ==> r == Ok::<ModelFormat, ImportError>(
            ModelFormat::Gltf,
        ),
        !ext_obj(path@) && !ext_gltf(path@) && !ext_glb(path@) ==> r == Err::<
            ModelFormat,
            ImportError,
        >(ImportError::UnsupportedFormat),
{
    if has_suffix4(path, 46, 111, 98, 106) {
        Ok(ModelFormat::Obj)
    } else if has_suffix4(path, 46, 103, 108, 98) {
        Ok(ModelFormat::Gltf)
    } else if path.len() >= 5 && path[path.len() - 5] == 46 && path[path.len() - 4] == 103
        && path[path.len() - 3] == 108 && path[path.len() - 2] == 116 && path[path.len() - 1]
        == 102 {
        Ok(ModelFormat::Gltf)
    } else {
        Err(ImportError::UnsupportedFormat)
    }
}

/// The axis convention each format delivers its geometry in.
pub fn source_axes(format: ModelFormat) -> (r: SourceAxes)
    ensures
        format == ModelFormat::Obj ==> r == SourceAxes::YUp,
        format == ModelFormat::Gltf ==> r == SourceAxes::ZUp,
{
    match format {
        ModelFormat::Obj => SourceAxes::YUp,
        ModelFormat::Gltf => SourceAxes::ZUp,
    }
}

/// Component `i` of a flat three-coordinate stream after axis conversion,
/// clamped into the coordinate box. Under `ZUp` the Y and Z axes swap and
/// the new Y is negated; `YUp` only clamps.
pub open spec fn spec_conv_comp(axes: SourceAxes, s: Seq<i64>, i: int) -> int {
    let j = i / 3;
    let k = i % 3;
    match axes {
        SourceAxes::YUp => spec_clamp_coord(s[i] as int),
        SourceAxes::ZUp => {
            if k == 0 {
                spec_clamp_coord(s[i] as int)
            } else if k == 1 {
                spec_clamp_coord(-(s[3 * j + 2] as int))
            } else {
                spec_clamp_coord(s[3 * j + 1] as int)
            }
        },
    }
}

/// A whole converted three-coordinate stream.
pub open spec fn spec_convert_seq(axes: SourceAxes, s: Seq<i64>) -> Seq<i64> {
    Seq::new(s.len(), |i: int| spec_conv_comp(axes, s, i) as i64)
}

/// Convert a flat three-coordinate stream to the target axis convention,
/// clamping every coordinate into the box.
pub fn convert_triples(axes: SourceAxes, src: &Vec<i64>) -> (r: Vec<i64>)
    requires
        src@.len() % 3 == 0,
    ensures
        r@.len() == src@.len(),
        forall|i: int| 0 <= i < src@.len() ==> #[trigger] r@[i] == spec_conv_comp(axes, src@, i),
        r@ == spec_convert_seq(axes, src@),
{
    proof {
        vstd::arithmetic::div_mod::lemma_fundamental_div_mod(src@.len() as int, 3);
    }
    let n: usize = src.len() / 3;
    let mut r: Vec<i64> = Vec::new();
    let mut j: usize = 0;
    while j < n
        invariant
            0 <= j <= n,
            src@.len() == 3 * n,
            src.len() == src@.len(),
            r@.len() == 3 * j,
            forall|i: int| 0 <= i < 3 * j ==> #[trigger] r@[i] == spec_conv_comp(axes, src@, i),
        decreases n - j,
    {
        let x = clamp_coord128(src[3 * j] as i128);
        let (y, z) = match axes {
            SourceAxes::YUp => (
                clamp_coord128(src[3 * j + 1] as i128),
                clamp_coord128(src[3 * j + 2] as i128),
            ),
            SourceAxes::ZUp => (
                clamp_coord128(-(src[3 * j + 2] as i128)),
                clamp_coord128(src[3 * j + 1] as i128),
            ),
        };
        r.push(x);
        r.push(y);
        r.push(z);
        proof {
            assert forall|i: int| 0 <= i < 3 * (j + 1) implies #[trigger] r@[i] == spec_conv_comp(
                axes,
                src@,
                i,
            ) by {
                if i >= 3 * j {
                    assert(i / 3 == j && (i == 3 * j || i == 3 * j + 1 || i == 3 * j + 2)) by {
                        vstd::arithmetic::div_mod::lemma_fundamental_div_mod_converse(
                            i,
                            3,
                            j as int,
                            i - 3 * j,
                        );
                    }
                }
            }
        }
        j = j + 1;
    }
    proof {
        assert(r@ =~= spec_convert_seq(axes, src@));
    }
    r
}

/// Component `i` of a flat four-component tangent stream after axis
/// conversion: the spatial part is converted and clamped exactly like a
/// position or normal, the fourth (handedness) component passes through.
pub open spec fn spec_tan_comp(axes: SourceAxes, s: Seq<i64>, i: int) -> int {
    let j = i / 4;
    let k = i % 4;
    if k == 3 {
        s[i] as int
    } else {
        match axes {
            SourceAxes::YUp => spec_clamp_coord(s[i] as int),
            SourceAxes::ZUp => {
                if k == 0 {
                    spec_clamp_coord(s[i] as int)
                } else if k == 1 {
                    spec_clamp_coord(-(s[4 * j + 2] as int))
                } else {
                    spec_clamp_coord(s[4 * j + 1] as int)
                }
            },
        }
    }
}

/// Convert a flat tangent stream to the target axis convention.
fn convert_tangents(axes: SourceAxes, src: &Vec<i64>) -> (r: Vec<i64>)
    requires
        src@.len() % 4 == 0,
    ensures
        r@.len() == src@.len(),
        forall|i: int| 0 <= i < src@.len() ==> #[trigger] r@[i] == spec_tan_comp(axes, src@, i),
{
    proof {
        vstd::arithmetic::div_mod::lemma_fundamental_div_mod(src@.len() as int, 4);
    }
    let n: usize = src.len() / 4;
    let mut r: Vec<i64> = Vec::new();
    let mut j: usize = 0;
    while j < n
        invariant
            0 <= j <= n,
            src@.len() == 4 * n,
            src.len() == src@.len(),
            r@.len() == 4 * j,
            forall|i: int| 0 <= i < 4 * j ==> #[trigger] r@[i] == spec_tan_comp(axes, src@, i),
        decreases n - j,
    {
        let x = clamp_coord128(src[4 * j] as i128);
        let (y, z) = match axes {
            SourceAxes::YUp => (
                clamp_coord128(src[4 * j + 1] as i128),
                clamp_coord128(src[4 * j + 2] as i128),
            ),
            SourceAxes::ZUp => (
                clamp_coord128(-(src[4 * j + 2] as i128)),
                clamp_coord128(src[4 * j + 1] as i128),
            ),
        };
        let w = src[4 * j + 3];
        r.push(x);
        r.push(y);
        r.push(z);
        r.push(w);
        proof {
            assert forall|i: int| 0 <= i < 4 * (j + 1) implies #[trigger] r@[i] == spec_tan_comp(
                axes,
                src@,
                i,
            ) by {
                if i >= 4 * j {
                    assert(i / 4 == j && (i == 4 * j || i == 4 * j + 1 || i == 4 * j + 2 || i == 4
                        * j + 3)) by {
                        vstd::arithmetic::div_mod::lemma_fundamental_div_mod_converse(
                            i,
                            4,
                            j as int,
                            i - 4 * j,
                        );
                    }
                }
            }
        }
        j = j + 1;
    }
    r
}

/// The normalized tangent stream of a raw primitive: four components per
/// vertex, the documented default `(1, 1, 1, 1)` where the source stream is
/// absent, otherwise the source tangents under the same axis conversion as
/// positions and normals. The renderable vertex layout does not carry
/// tangents, so the stream stands on its own beside the mesh.
pub fn tangents_of_primitive(axes: SourceAxes, prim: &RawPrimitive) -> (r: Vec<i64>)
    requires
        prim.positions@.len() % 3 == 0,
        prim.tangents@.len() == 0 || prim.tangents@.len() == 4 * (prim.positions@.len() as int
            / 3),
        4 * (prim.positions@.len() as int / 3) <= usize::MAX,
    ensures
        r@.len() == 4 * (prim.positions@.len() as int / 3),
        prim.tangents@.len() == 0 ==> forall|i: int|
            0 <= i < r@.len() ==> #[trigger] r@[i] == SCALE,
        prim.tangents@.len() > 0 ==> forall|i: int|
            0 <= i < r@.len() ==> #[trigger] r@[i] == spec_tan_comp(axes, prim.tangents@, i),
{
    proof {
        vstd::arithmetic::div_mod::lemma_fundamental_div_mod(prim.positions@.len() as int, 3);
    }
    let n: usize = prim.positions.len() / 3;
    if prim.tangents.len() == 0 {
        filled(4 * n, SCALE)
    } else {
        convert_tangents(axes, &prim.tangents)
    }
}

/// A flat stream of the given length, filled with one value.
fn filled(len: usize, value: i64) -> (r: Vec<i64>)
    ensures
        r@.len() == len,
        forall|i: int| 0 <= i < len ==> #[trigger] r@[i] == value,
{
    let mut r: Vec<i64> = Vec::new();
    let mut j: usize = 0;
    while j < len
        invariant
            0 <= j <= len,
            r@.len() == j,
            forall|i: int| 0 <= i < j ==> #[trigger] r@[i] == value,
        decreases len - j,
    {
        r.push(value);
        j = j + 1;
    }
    r
}

/// Clamp every component of a flat stream into the coordinate box.
fn clamp_stream(src: &Vec<i64>) -> (r: Vec<i64>)
    ensures
        r@.len() == src@.len(),
        forall|i: int|
            0 <= i < src@.len() ==> #[trigger] r@[i] == spec_clamp_coord(src@[i] as int),
{
    let mut r: Vec<i64> = Vec::new();
    let mut j: usize = 0;
    let n = src.len();
    while j < n
        invariant
            0 <= j <= n,
            n == src@.len(),
            r@.len() == j,
            forall|i: int| 0 <= i < j ==> #[trigger] r@[i] == spec_clamp_coord(src@[i] as int),
        decreases n - j,
    {
        r.push(clamp_coord128(src[j] as i128));
        j = j + 1;
    }
    r
}

/// Copy an index list.
fn copy_indices(src: &Vec<u32>) -> (r: Vec<u32>)
    ensures
        r@ == src@,
{
    let mut r: Vec<u32> = Vec::new();
    let mut j: usize = 0;
    let n = src.len();
    while j < n
        invariant
            0 <= j <= n,
            n == src@.len(),
            r@ == src@.subrange(0, j as int),
        decreases n - j,
    {
        r.push(src[j]);
        proof {
            assert(r@ =~= src@.subrange(0, j + 1));
        }
        j = j + 1;
    }
    proof {
        assert(r@ =~= src@);
    }
    r
}

/// Every index addresses a vertex.
pub open spec fn indices_in_range(indices: Seq<u32>, n: int) -> bool {
    forall|k: int| 0 <= k < indices.len() ==> (#[trigger] indices[k] as int) < n
}

/// Check the index list against the vertex count.
fn check_indices(indices: &Vec<u32>, n: usize) -> (r: bool)
    ensures
        r == indices_in_range(indices@, n as int),
{
    let mut k: usize = 0;
    let len = indices.len();
    while k < len
        invariant
            0 <= k <= len,
            len == indices@.len(),
            forall|kk: int| 0 <= kk < k ==> (#[trigger] indices@[kk] as int) < n,
        decreases len - k,
    {
        if indices[k] as usize >= n {
            return false;
        }
        k = k + 1;
    }
    true
}

/// A structurally sound raw primitive: whole triples of positions, whole
/// triangles of indices, attribute streams either absent or matching the
/// vertex count, and every index in range.
pub open spec fn prim_valid(p: RawPrimitive) -> bool {
    let n = p.positions@.len() as int / 3;
    &&& p.positions@.len() % 3 == 0
    &&& p.indices@.len() % 3 == 0
    &&& (p.normals@.len() == 0 || p.normals@.len() == p.positions@.len())
    &&& (p.texcoords@.len() == 0 || p.texcoords@.len() == 2 * n)
    &&& (p.tangents@.len() == 0 || p.tangents@.len() == 4 * n)
    &&& indices_in_range(p.indices@, n)
}

/// The eight interleaved vertex values of vertex `j`: converted positions
/// and normals (zeros when the normal stream is absent) and clamped
/// texture coordinates (zeros when absent).
pub open spec fn vertex_entries_ok(m: MeshDesc, axes: SourceAxes, p: RawPrimitive, j: int) -> bool {
    &&& m.vertex_data@[8 * j] == spec_conv_comp(axes, p.positions@, 3 * j)
    &&& m.vertex_data@[8 * j + 1] == spec_conv_comp(axes, p.positions@, 3 * j + 1)
    &&& m.vertex_data@[8 * j + 2] == spec_conv_comp(axes, p.positions@, 3 * j + 2)
    &&& m.vertex_data@[8 * j + 3] == (if p.normals@.len() == 0 {
        0int
    } else {
        spec_conv_comp(axes, p.normals@, 3 * j)
    })
    &&& m.vertex_data@[8 * j + 4] == (if p.normals@.len() == 0 {
        0int
    } else {
        spec_conv_comp(axes, p.normals@, 3 * j + 1)
    })
    &&& m.vertex_data@[8 * j + 5] == (if p.normals@.len() == 0 {
        0int
    } else {
        spec_conv_comp(axes, p.normals@, 3 * j + 2)
    })
    &&& m.vertex_data@[8 * j + 6] == (if p.texcoords@.len() == 0 {
        0int
    } else {
        spec_clamp_coord(p.texcoords@[2 * j] as int)
    })
    &&& m.vertex_data@[8 * j + 7] == (if p.texcoords@.len() == 0 {
        0int
    } else {
        spec_clamp_coord(p.texcoords@[2 * j + 1] as int)
    })
}

/// The geometric content a mesh descriptor must carry for a raw primitive:
/// converted and clamped positions and normals (zero-filled when absent)
/// and texture coordinates (zero-filled when absent) interleaved eight
/// values per vertex, the copied index list, the identity transform, the
/// default flags, and the bounding sphere of the converted positions.
pub open spec fn is_mesh_geom_of(m: MeshDesc, axes: SourceAxes, p: RawPrimitive) -> bool {
    let n = p.positions@.len() as int / 3;
    let cp = spec_convert_seq(axes, p.positions@);
    &&& m.name == p.name
    &&& m.mesh_id == 0
    &&& m.indices@ == p.indices@
    &&& m.element_count == p.indices@.len()
    &&& m.material_id == (match p.material_index {
        Option::Some(i) => i as int,
        Option::None => 0int,
    })
    &&& m.show == true
    &&& m.highlight == false
    &&& forall|i: int|
        0 <= i < 16 ==> m.model_matrix.m@[i] == (if i % 5 == 0 {
            SCALE as int
        } else {
            0int
        })
    &&& m.vertex_data@.len() == 8 * n
    &&& forall|j: int| 0 <= j < n ==> #[trigger] vertex_entries_ok(m, axes, p, j)
    &&& m.bounding_sphere.wf()
    &&& n > 0 ==> {
        &&& m.bounding_sphere.center.x == axis_sum(cp, 0, n) / n
        &&& m.bounding_sphere.center.y == axis_sum(cp, 1, n) / n
        &&& m.bounding_sphere.center.z == axis_sum(cp, 2, n) / n
        &&& is_sqrt_of(
            max_dist2(
                cp,
                m.bounding_sphere.center.x as int,
                m.bounding_sphere.center.y as int,
                m.bounding_sphere.center.z as int,
                n,
            ),
            m.bounding_sphere.radius as int,
        )
    }
}

/// The eight interleaved values of vertex `j`: three position and three
/// normal coordinates followed by two texture coordinates.
pub open spec fn interleaved_at(
    r: Seq<i64>,
    pos: Seq<i64>,
    normals: Seq<i64>,
    tex: Seq<i64>,
    j: int,
) -> bool {
    &&& r[8 * j] == pos[3 * j]
    &&& r[8 * j + 1] == pos[3 * j + 1]
    &&& r[8 * j + 2] == pos[3 * j + 2]
    &&& r[8 * j + 3] == normals[3 * j]
    &&& r[8 * j + 4] == normals[3 * j + 1]
    &&& r[8 * j + 5] == normals[3 * j + 2]
    &&& r[8 * j + 6] == tex[2 * j]
    &&& r[8 * j + 7] == tex[2 * j + 1]
}

/// Interleave positions, normals and texture coordinates into one vertex
/// buffer of eight values per vertex.
fn interleave(pos: &Vec<i64>, normals: &Vec<i64>, tex: &Vec<i64>) -> (r: Vec<i64>)
    requires
        pos@.len() % 3 == 0,
        normals@.len() == pos@.len(),
        tex@.len() == 2 * (pos@.len() as int / 3),
        8 * (pos@.len() as int / 3) <= usize::MAX,
    ensures
        r@.len() == 8 * (pos@.len() as int / 3),
        forall|j: int|
            0 <= j < pos@.len() as int / 3 ==> #[trigger] interleaved_at(
                r@,
                pos@,
                normals@,
                tex@,
                j,
            ),
{
    proof {
        vstd::arithmetic::div_mod::lemma_fundamental_div_mod(pos@.len() as int, 3);
    }
    let n: usize = pos.len() / 3;
    let mut r: Vec<i64> = Vec::new();
    let mut j: usize = 0;
    while j < n
        invariant
            0 <= j <= n,
            pos@.len() == 3 * n,
            pos.len() == pos@.len(),
            normals@.len() == pos@.len(),
            tex@.len() == 2 * n,
            8 * n <= usize::MAX,
            r@.len() == 8 * j,
            forall|jj: int|
                0 <= jj < j ==> #[trigger] interleaved_at(r@, pos@, normals@, tex@, jj),
        decreases n - j,
    {
        let ghost pre = r@;
        r.push(pos[3 * j]);
        r.push(pos[3 * j + 1]);
        r.push(pos[3 * j + 2]);
        r.push(normals[3 * j]);
        r.push(normals[3 * j + 1]);
        r.push(normals[3 * j + 2]);
        r.push(tex[2 * j]);
        r.push(tex[2 * j + 1]);
        proof {
            assert(r@.len() == pre.len() + 8);
            assert forall|i: int| 0 <= i < pre.len() implies r@[i] == pre[i] by {}
            assert(r@[8 * (j as int)] == pos@[3 * (j as int)]);
            assert(r@[8 * (j as int) + 1] == pos@[3 * (j as int) + 1]);
            assert(r@[8 * (j as int) + 2] == pos@[3 * (j as int) + 2]);
            assert(r@[8 * (j as int) + 3] == normals@[3 * (j as int)]);
            assert(r@[8 * (j as int) + 4] == normals@[3 * (j as int) + 1]);
            assert(r@[8 * (j as int) + 5] == normals@[3 * (j as int) + 2]);
            assert(r@[8 * (j as int) + 6] == tex@[2 * (j as int)]);
            assert(r@[8 * (j as int) + 7] == tex@[2 * (j as int) + 1]);
            assert forall|jj: int|
                0 <= jj < j + 1 implies #[trigger] interleaved_at(
                r@,
                pos@,
                normals@,
                tex@,
                jj,
            ) by {
                if jj < j {
                    assert(interleaved_at(pre, pos@, normals@, tex@, jj));
                    assert(r@[8 * jj] == pre[8 * jj]);
                    assert(r@[8 * jj + 1] == pre[8 * jj + 1]);
                    assert(r@[8 * jj + 2] == pre[8 * jj + 2]);
                    assert(r@[8 * jj + 3] == pre[8 * jj + 3]);
                    assert(r@[8 * jj + 4] == pre[8 * jj + 4]);
                    assert(r@[8 * jj + 5] == pre[8 * jj + 5]);
                    assert(r@[8 * jj + 6] == pre[8 * jj + 6]);
                    assert(r@[8 * jj + 7] == pre[8 * jj + 7]);
                }
            }
        }
        j = j + 1;
    }
    r
}

/// Build the mesh descriptor of one raw primitive, or detect that the
/// record is malformed, or that it is empty and yields no mesh. The mesh
/// id stays zero until the scene graph assigns one.
#[verifier::rlimit(50)]
pub fn mesh_from_primitive(axes: SourceAxes, prim: &RawPrimitive, mat_desc: MaterialDesc) -> (r:
    Result<Option<MeshDesc>, ImportError>)
    requires
        8 * (prim.positions@.len() as int / 3) <= usize::MAX,
    ensures
        r is Err <==> !prim_valid(*prim),
        r matches Err(e) ==> e == ImportError::MalformedGeometry,
        r == Ok::<Option<MeshDesc>, ImportError>(Option::None::<MeshDesc>) <==> prim_valid(*prim)
            && prim.positions@.len() == 0,
        r matches Ok(mo) ==> (mo matches Some(m) ==> (prim_valid(*prim) && prim.positions@.len()
            > 0 && is_mesh_geom_of(m, axes, *prim) && m.mat_desc == mat_desc)),
{
    proof {
        vstd::arithmetic::div_mod::lemma_fundamental_div_mod(prim.positions@.len() as int, 3);
    }
    if prim.positions.len() % 3 != 0 {
        return Err(ImportError::MalformedGeometry);
    }
    let n: usize = prim.positions.len() / 3;
    if prim.indices.len() % 3 != 0 {
        return Err(ImportError::MalformedGeometry);
    }
    if prim.normals.len() != 0 && prim.normals.len() != prim.positions.len() {
        return Err(ImportError::MalformedGeometry);
    }
    if prim.texcoords.len() != 0 && prim.texcoords.len() != 2 * n {
        return Err(ImportError::MalformedGeometry);
    }
    if prim.tangents.len() != 0 && (n > usize::MAX / 4 || prim.tangents.len() != 4 * n) {
        return Err(ImportError::MalformedGeometry);
    }
    if !check_indices(&prim.indices, n) {
        return Err(ImportError::MalformedGeometry);
    }
    if n == 0 {
        return Ok(Option::None);
    }

    let conv_pos = convert_triples(axes, &prim.positions);
    let normals = if prim.normals.len() == 0 {
        filled(prim.positions.len(), 0)
    } else {
        convert_triples(axes, &prim.normals)
    };
    let tex = if prim.texcoords.len() == 0 {
        filled(2 * n, 0)
    } else {
        clamp_stream(&prim.texcoords)
    };
    let bounding_sphere = BoundingSphere::from_min_max(&conv_pos);
    let vertex_data = interleave(&conv_pos, &normals, &tex);
    let indices = copy_indices(&prim.indices);
    let element_count = prim.indices.len();
    let mesh = MeshDesc {
        name: prim.name.clone(),
        mesh_id: 0,
        vertex_data,
        indices,
        element_count,
        model_matrix: Mat4Fx::identity(),
        material_id: match prim.material_index {
            Option::Some(i) => i,
            Option::None => 0,
        },
        mat_desc,
        show: true,
        highlight: false,
        bounding_sphere,
    };
    proof {
        assert forall|j: int|
            0 <= j < prim.positions@.len() as int / 3 implies #[trigger] vertex_entries_ok(
            mesh,
            axes,
            *prim,
            j,
        ) by {
            assert(interleaved_at(mesh.vertex_data@, conv_pos@, normals@, tex@, j));
            assert(mesh.vertex_data@[8 * j] == conv_pos@[3 * j]);
            assert(mesh.vertex_data@[8 * j + 1] == conv_pos@[3 * j + 1]);
            assert(mesh.vertex_data@[8 * j + 2] == conv_pos@[3 * j + 2]);
            assert(mesh.vertex_data@[8 * j + 3] == normals@[3 * j]);
            assert(mesh.vertex_data@[8 * j + 4] == normals@[3 * j + 1]);
            assert(mesh.vertex_data@[8 * j + 5] == normals@[3 * j + 2]);
            assert(mesh.vertex_data@[8 * j + 6] == tex@[2 * j]);
            assert(mesh.vertex_data@[8 * j + 7] == tex@[2 * j + 1]);
        }
        lemma_mesh_geom_of(mesh, axes, *prim);
    }
    Ok(Option::Some(mesh))
}

/// How many of the first `k` primitives have any vertices (and therefore
/// yield a mesh).
pub open spec fn count_nonempty(prims: Seq<RawPrimitive>, k: int) -> int
    decreases k,
{
    if k <= 0 {
        0
    } else {
        count_nonempty(prims, k - 1) + (if prims[k - 1].positions@.len() > 0 {
            1int
        } else {
            0int
        })
    }
}

/// The nonempty count never decreases along the list.
proof fn lemma_count_nonempty_mono(prims: Seq<RawPrimitive>, a: int, b: int)
    requires
        0 <= a <= b,
    ensures
        count_nonempty(prims, a) <= count_nonempty(prims, b),
        0 <= count_nonempty(prims, a),
    decreases b - a, a,
{
    if a < b {
        lemma_count_nonempty_mono(prims, a, b - 1);
    } else if a > 0 {
        lemma_count_nonempty_mono(prims, a - 1, a - 1);
    }
}

/// The descriptor a primitive's material reference selects: the resolution
/// of the raw record it names, or the built-in default when the reference
/// is absent or out of range.
pub open spec fn material_choice_ok(
    d: MaterialDesc,
    p: RawPrimitive,
    mats: Seq<RawMaterial>,
    files: Seq<TextureFiles>,
) -> bool {
    match p.material_index {
        Option::Some(i) => if (i as int) < mats.len() {
            resolved_ok(
                d,
                mats[i as int],
                files[i as int].ambient,
                files[i as int].diffuse,
                files[i as int].specular,
            )
        } else {
            d == spec_default_material()
        },
        Option::None => d == spec_default_material(),
    }
}

/// The resolved material a mesh must carry.
pub open spec fn mesh_material_ok(
    m: MeshDesc,
    p: RawPrimitive,
    mats: Seq<RawMaterial>,
    files: Seq<TextureFiles>,
) -> bool {
    material_choice_ok(m.mat_desc, p, mats, files)
}

/// Import one object: resolve each primitive's material, validate and
/// convert its geometry and collect the meshes in order, skipping
/// primitives without vertices. Any malformed primitive aborts the whole
/// import and nothing of the object survives.
#[verifier::rlimit(100)]
pub fn import_object(
    name: String,
    axes: SourceAxes,
    prims: &Vec<RawPrimitive>,
    materials: Vec<RawMaterial>,
    texture_files: &Vec<TextureFiles>,
) -> (r: Result<ObjDesc, ImportError>)
    requires
        texture_files@.len() == materials@.len(),
        forall|q: int|
            0 <= q < prims@.len() ==> 8 * (#[trigger] prims@[q].positions@.len() as int / 3)
                <= usize::MAX,
    ensures
        r is Ok <==> (forall|q: int| 0 <= q < prims@.len() ==> prim_valid(#[trigger] prims@[q])),
        r matches Err(e) ==> e == ImportError::MalformedGeometry,
        r matches Ok(obj) ==> {
            &&& obj.name == name
            &&& obj.materials@ == materials@
            &&& obj.meshes@.len() == count_nonempty(prims@, prims@.len() as int)
            &&& forall|q: int|
                0 <= q < prims@.len() && #[trigger] prims@[q].positions@.len() > 0 ==> {
                    let m = obj.meshes@[count_nonempty(prims@, q)];
                    &&& is_mesh_geom_of(m, axes, prims@[q])
                    &&& mesh_material_ok(m, prims@[q], materials@, texture_files@)
                }
        },
{
    let mut meshes: Vec<MeshDesc> = Vec::new();
    let mut p: usize = 0;
    let n = prims.len();
    while p < n
        invariant
            0 <= p <= n,
            n == prims@.len(),
            prims.len() == prims@.len(),
            texture_files@.len() == materials@.len(),
            texture_files.len() == texture_files@.len(),
            materials.len() == materials@.len(),
            forall|q: int|
                0 <= q < prims@.len() ==> 8 * (#[trigger] prims@[q].positions@.len() as int / 3)
                    <= usize::MAX,
            forall|q: int| 0 <= q < p ==> prim_valid(#[trigger] prims@[q]),
            meshes@.len() == count_nonempty(prims@, p as int),
            forall|q: int|
                0 <= q < p && #[trigger] prims@[q].positions@.len() > 0 ==> {
                    let m = meshes@[count_nonempty(prims@, q)];
                    &&& is_mesh_geom_of(m, axes, prims@[q])
                    &&& mesh_material_ok(m, prims@[q], materials@, texture_files@)
                },
        decreases n - p,
    {
        let prim = &prims[p];
        let mat_desc = match prim.material_index {
            Option::Some(i) => {
                if i < materials.len() {
                    resolve_material(
                        &materials[i],
                        &texture_files[i].ambient,
                        &texture_files[i].diffuse,
                        &texture_files[i].specular,
                    )
                } else {
                    MaterialDesc::default()
                }
            },
            Option::None => MaterialDesc::default(),
        };
        proof {
            assert(material_choice_ok(mat_desc, prims@[p as int], materials@, texture_files@));
        }
        let built = mesh_from_primitive(axes, prim, mat_desc);
        match built {
            Result::Err(_) => {
                proof {
                    assert(!prim_valid(prims@[p as int]));
                }
                return Err(ImportError::MalformedGeometry);
            },
            Result::Ok(Option::None) => {
                proof {
                    assert(count_nonempty(prims@, p + 1) == count_nonempty(prims@, p as int));
                }
            },
            Result::Ok(Option::Some(mesh)) => {
                proof {
                    assert(count_nonempty(prims@, p + 1) == count_nonempty(prims@, p as int) + 1);
                    assert(is_mesh_geom_of(mesh, axes, prims@[p as int]));
                    assert(mesh_material_ok(mesh, prims@[p as int], materials@, texture_files@));
                }
                let ghost pre = meshes@;
                meshes.push(mesh);
                proof {
                    assert(meshes@ == pre.push(mesh));
                    assert forall|q: int|
                        0 <= q < p + 1 && #[trigger] prims@[q].positions@.len() > 0 implies {
                        let m = meshes@[count_nonempty(prims@, q)];
                        &&& is_mesh_geom_of(m, axes, prims@[q])
                        &&& mesh_material_ok(m, prims@[q], materials@, texture_files@)
                    } by {
                        lemma_count_nonempty_mono(prims@, 0, q);
                        if q < p {
                            lemma_count_nonempty_mono(prims@, q + 1, p as int);
                            assert(count_nonempty(prims@, q + 1) == count_nonempty(prims@, q)
                                + 1);
                            assert(0 <= count_nonempty(prims@, q) < pre.len());
                            assert(meshes@[count_nonempty(prims@, q)] == pre[count_nonempty(
                                prims@,
                                q,
                            )]);
                            assert(is_mesh_geom_of(pre[count_nonempty(prims@, q)], axes, prims@[q]));
                            assert(mesh_material_ok(
                                pre[count_nonempty(prims@, q)],
                                prims@[q],
                                materials@,
                                texture_files@,
                            ));
                        } else {
                            assert(q == p);
                            assert(count_nonempty(prims@, q) == pre.len());
                            assert(meshes@[count_nonempty(prims@, q)] == mesh);
                        }
                    }
                }
            },
        }
        p = p + 1;
    }
    proof {
        lemma_count_nonempty_mono(prims@, 0, n as int);
    }
    Ok(ObjDesc { name, meshes, materials })
}

/// Assemble the geometric-content predicate from its individually
/// established pieces.
proof fn lemma_mesh_geom_of(m: MeshDesc, axes: SourceAxes, p: RawPrimitive)
    requires
        m.name == p.name,
        m.mesh_id == 0,
        m.indices@ == p.indices@,
        m.element_count == p.indices@.len(),
        m.material_id == (match p.material_index {
            Option::Some(i) => i as int,
            Option::None => 0int,
        }),
        m.show == true,
        m.highlight == false,
        forall|i: int|
            0 <= i < 16 ==> m.model_matrix.m@[i] == (if i % 5 == 0 {
                SCALE as int
            } else {
                0int
            }),
        m.vertex_data@.len() == 8 * (p.positions@.len() as int / 3),
        forall|j: int|
            0 <= j < p.positions@.len() as int / 3 ==> #[trigger] vertex_entries_ok(
                m,
                axes,
                p,
                j,
            ),
        m.bounding_sphere.wf(),
        p.positions@.len() as int / 3 > 0 ==> {
            let n = p.positions@.len() as int / 3;
            let cp = spec_convert_seq(axes, p.positions@);
            &&& m.bounding_sphere.center.x == axis_sum(cp, 0, n) / n
            &&& m.bounding_sphere.center.y == axis_sum(cp, 1, n) / n
            &&& m.bounding_sphere.center.z == axis_sum(cp, 2, n) / n
            &&& is_sqrt_of(
                max_dist2(
                    cp,
                    m.bounding_sphere.center.x as int,
                    m.bounding_sphere.center.y as int,
                    m.bounding_sphere.center.z as int,
                    n,
                ),
                m.bounding_sphere.radius as int,
            )
        },
    ensures
        is_mesh_geom_of(m, axes, p),
{
}

} // verus!
