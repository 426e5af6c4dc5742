//! Material records and their normalization.
//!
//! Raw material records come out of the model parsers with colors that may
//! be unset, an optional illumination model and texture paths that may be
//! empty. Resolution replaces colors equal to exact black with built-in
//! defaults, maps the illumination model to a lighting variant and turns
//! each non-empty texture path into a decoded texture slot; a slot whose
//! file cannot be read or decoded is simply absent, which never fails the
//! resolution as a whole.

use vstd::prelude::*;

use crate::fixed::{clamp64, spec_clamp, Vec3Fx, SCALE};
use crate::texture::{
    decode_texture, ext_jpg, ext_png, ext_tga, image_rgba_data, spec_decoded_ok,
    tga_footer_hazard, tga_parse,
};

verus! {

/// Lighting model of a resolved material.
#[allow(non_camel_case_types)]
#[derive(Clone, Copy, Debug, PartialEq, Eq, Structural)]
pub enum LightingType {
    FLAT,
    SPECULAR,
}

/// Pixel layout of a decoded texture.
#[derive(Clone, Copy, Debug, PartialEq, Eq, Structural)]
pub enum TextureFormat {
    RGB8,
    RGBA8,
}

/// A decoded texture: the pixel bytes with their dimensions and layout.
/// The rendering backend uploads these and owns the GPU handle.
#[derive(Clone, Debug)]
pub struct TextureDesc {
    pub pixels: Vec<u8>,
    pub width: u32,
    pub height: u32,
    pub format: TextureFormat,
}

/// A raw material record as handed over by a model parser. Colors are
/// fixed-point RGB triples; texture paths are byte strings, empty when the
/// slot is not referenced.
#[derive(Clone, Debug)]
pub struct RawMaterial {
    pub name: String,
    pub ambient: Vec3Fx,
    pub diffuse: Vec3Fx,
    pub specular: Vec3Fx,
    pub illumination_model: Option<u32>,
    pub dissolve: i64,
    pub shininess: i64,
    pub ambient_texture: Vec<u8>,
    pub diffuse_texture: Vec<u8>,
    pub specular_texture: Vec<u8>,
}

/// A resolved material descriptor, immutable once built.
#[derive(Clone, Debug)]
pub struct MaterialDesc {
    pub ambient_color: Vec3Fx,
    pub diffuse_color: Vec3Fx,
    pub specular_color: Vec3Fx,
    pub transparancy: i64,
    pub shininess: i64,
    pub lighting_type: LightingType,
    pub ambient_map: Option<TextureDesc>,
    pub diffuse_map: Option<TextureDesc>,
    pub specular_map: Option<TextureDesc>,
}

/// Fallback ambient color, a fifth of full white.
pub const DEFAULT_AMBIENT: i64 = 200_000;

/// Fallback diffuse color, four fifths of full white.
pub const DEFAULT_DIFFUSE: i64 = 800_000;

/// Fallback specular color, full white.
pub const DEFAULT_SPECULAR: i64 = 1_000_000;

/// A color exactly equal to black counts as unset and resolves to the
/// given default; any other color resolves to itself.
pub open spec fn spec_resolve_color(c: Vec3Fx, d: Vec3Fx) -> Vec3Fx {
    if c.x == 0 && c.y == 0 && c.z == 0 {
        d
    } else {
        c
    }
}

/// Lighting variant of an optional illumination model: model two selects
/// specular lighting, every other value and absence select flat lighting.
pub open spec fn spec_lighting_of(model: Option<u32>) -> LightingType {
    match model {
        Option::Some(2u32) => LightingType::SPECULAR,
        _ => LightingType::FLAT,
    }
}

/// Replace a color that is exactly black by the default.
pub fn resolve_color(c: Vec3Fx, d: Vec3Fx) -> (r: Vec3Fx)
    ensures
        r == spec_resolve_color(c, d),
{
    if c.x == 0 && c.y == 0 && c.z == 0 {
        d
    } else {
        c
    }
}

/// Map an optional illumination model to its lighting variant.
pub fn lighting_of(model: &Option<u32>) -> (r: LightingType)
    ensures
        r == spec_lighting_of(*model),
{
    match model {
        Option::Some(m) => {
            if *m == 2 {
                LightingType::SPECULAR
            } else {
                LightingType::FLAT
            }
        },
        Option::None => LightingType::FLAT,
    }
}

/// How a resolved texture slot relates to its raw path and file bytes: an
/// empty path or unreadable file leaves the slot absent; a filled slot is
/// exactly what decoding the bytes yields; decodable image bytes under a
/// non-empty path always fill the slot.
pub open spec fn spec_slot_ok(slot: Option<TextureDesc>, path: Seq<u8>, bytes: Option<
    Vec<u8>,
>) -> bool {
    &&& path.len() == 0 ==> slot is None
    &&& bytes is None ==> slot is None
    &&& (slot matches Some(t) ==> path.len() > 0 && (bytes matches Some(b) && spec_decoded_ok(
        t,
        path,
        b@,
    )))
    &&& (path.len() > 0 && (ext_png(path) || ext_jpg(path)) && (bytes matches Some(b)
        && image_rgba_data(b@) is Some) ==> slot is Some)
    &&& (path.len() > 0 && ext_tga(path) && (bytes matches Some(b) && !tga_footer_hazard(b@) && (
    tga_parse(b@) matches Some(h) && (h.2 == 24 || h.2 == 32))) ==> slot is Some)
    &&& (ext_tga(path) && (bytes matches Some(b) && tga_footer_hazard(b@)) ==> slot is None)
}

/// Resolve one texture slot: an empty path or a file that could not be
/// read yields no texture; otherwise the bytes are decoded, and a decode
/// failure still yields no texture rather than an error.
pub fn resolve_slot(path: &Vec<u8>, bytes: &Option<Vec<u8>>) -> (slot: Option<TextureDesc>)
    ensures
        spec_slot_ok(slot, path@, *bytes),
{
    if path.len() == 0 {
        return Option::None;
    }
    match bytes {
        Option::Some(b) => decode_texture(path, b),
        Option::None => Option::None,
    }
}

/// All the rules a resolved descriptor must satisfy against its raw record
/// and the texture file bytes read for its three slots.
pub open spec fn resolved_ok(
    m: MaterialDesc,
    raw: RawMaterial,
    ambient_bytes: Option<Vec<u8>>,
    diffuse_bytes: Option<Vec<u8>>,
    specular_bytes: Option<Vec<u8>>,
) -> bool {
    &&& m.ambient_color == spec_resolve_color(
        raw.ambient,
        Vec3Fx { x: DEFAULT_AMBIENT, y: DEFAULT_AMBIENT, z: DEFAULT_AMBIENT },
    )
    &&& m.diffuse_color == spec_resolve_color(
        raw.diffuse,
        Vec3Fx { x: DEFAULT_DIFFUSE, y: DEFAULT_DIFFUSE, z: DEFAULT_DIFFUSE },
    )
    &&& m.specular_color == spec_resolve_color(
        raw.specular,
        Vec3Fx { x: DEFAULT_SPECULAR, y: DEFAULT_SPECULAR, z: DEFAULT_SPECULAR },
    )
    &&& m.lighting_type == spec_lighting_of(raw.illumination_model)
    &&& m.transparancy == spec_clamp(raw.dissolve as int, 0, SCALE as int)
    &&& m.shininess == (if raw.shininess < 0 {
        0int
    } else {
        raw.shininess as int
    })
    &&& spec_slot_ok(m.ambient_map, raw.ambient_texture@, ambient_bytes)
    &&& spec_slot_ok(m.diffuse_map, raw.diffuse_texture@, diffuse_bytes)
    &&& spec_slot_ok(m.specular_map, raw.specular_texture@, specular_bytes)
}

/// Resolve a raw material record into a descriptor: unset colors fall back
/// to the defaults, the illumination model picks the lighting variant,
/// transparency is kept in the unit range and shininess non-negative, and
/// each texture slot is decoded from the bytes read for its path. A slot
/// whose file is missing or undecodable is absent; resolution itself
/// always succeeds.
pub fn resolve_material(
    raw: &RawMaterial,
    ambient_bytes: &Option<Vec<u8>>,
    diffuse_bytes: &Option<Vec<u8>>,
    specular_bytes: &Option<Vec<u8>>,
) -> (m: MaterialDesc)
    ensures
        resolved_ok(m, *raw, *ambient_bytes, *diffuse_bytes, *specular_bytes),
{
    let ambient_map = resolve_slot(&raw.ambient_texture, ambient_bytes);
    let diffuse_map = resolve_slot(&raw.diffuse_texture, diffuse_bytes);
    let specular_map = resolve_slot(&raw.specular_texture, specular_bytes);
    MaterialDesc {
        ambient_color: resolve_color(
            raw.ambient,
            Vec3Fx { x: DEFAULT_AMBIENT, y: DEFAULT_AMBIENT, z: DEFAULT_AMBIENT },
        ),
        diffuse_color: resolve_color(
            raw.diffuse,
            Vec3Fx { x: DEFAULT_DIFFUSE, y: DEFAULT_DIFFUSE, z: DEFAULT_DIFFUSE },
        ),
        specular_color: resolve_color(
            raw.specular,
            Vec3Fx { x: DEFAULT_SPECULAR, y: DEFAULT_SPECULAR, z: DEFAULT_SPECULAR },
        ),
        transparancy: clamp64(raw.dissolve, 0, SCALE),
        shininess: if raw.shininess < 0 {
            0
        } else {
            raw.shininess
        },
        lighting_type: lighting_of(&raw.illumination_model),
        ambient_map,
        diffuse_map,
        specular_map,
    }
}

/// The built-in fallback material, as specification.
pub open spec fn spec_default_material() -> MaterialDesc {
    MaterialDesc {
        ambient_color: Vec3Fx { x: DEFAULT_AMBIENT, y: DEFAULT_AMBIENT, z: DEFAULT_AMBIENT },
        diffuse_color: Vec3Fx { x: DEFAULT_DIFFUSE, y: DEFAULT_DIFFUSE, z: DEFAULT_DIFFUSE },
        specular_color: Vec3Fx { x: DEFAULT_SPECULAR, y: DEFAULT_SPECULAR, z: DEFAULT_SPECULAR },
        transparancy: SCALE,
        shininess: 0,
        lighting_type: LightingType::FLAT,
        ambient_map: Option::None,
        diffuse_map: Option::None,
        specular_map: Option::None,
    }
}

impl Default for MaterialDesc {
    /// The built-in fallback material: default colors, fully opaque, no
    /// shininess, flat lighting, no texture slots.
    fn default() -> (m: MaterialDesc)
        ensures
            m == spec_default_material(),
    {
        MaterialDesc {
            ambient_color: Vec3Fx { x: DEFAULT_AMBIENT, y: DEFAULT_AMBIENT, z: DEFAULT_AMBIENT },
            diffuse_color: Vec3Fx { x: DEFAULT_DIFFUSE, y: DEFAULT_DIFFUSE, z: DEFAULT_DIFFUSE },
            specular_color: Vec3Fx {
                x: DEFAULT_SPECULAR,
                y: DEFAULT_SPECULAR,
                z: DEFAULT_SPECULAR,
            },
            transparancy: SCALE,
            shininess: 0,
            lighting_type: LightingType::FLAT,
            ambient_map: Option::None,
            diffuse_map: Option::None,
            specular_map: Option::None,
        }
    }
}

} // verus!
