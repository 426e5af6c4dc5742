use cobalt::fixed::Vec3Fx;
use cobalt::material::{
    resolve_material, LightingType, MaterialDesc, RawMaterial, TextureFormat,
};
use cobalt::texture::decode_texture;

fn raw_material() -> RawMaterial {
    RawMaterial {
        name: String::from("paint"),
        ambient: Vec3Fx { x: 0, y: 0, z: 0 },
        diffuse: Vec3Fx { x: 0, y: 0, z: 0 },
        specular: Vec3Fx { x: 0, y: 0, z: 0 },
        illumination_model: None,
        dissolve: 1_000_000,
        shininess: 0,
        ambient_texture: Vec::new(),
        diffuse_texture: Vec::new(),
        specular_texture: Vec::new(),
    }
}

/// A 1x1 24-bit uncompressed TGA file: an 18-byte header followed by one
/// blue-green-red pixel.
fn tiny_tga() -> Vec<u8> {
    let mut data = vec![
        0, 0, 2, 0, 0, 0, 0, 0, 0, 0, 0, 0, 1, 0, 1, 0, 24, 0,
    ];
    data.extend_from_slice(&[10, 20, 30]);
    data
}

/// A 1x1 32-bit uncompressed TGA file.
fn tiny_tga_32() -> Vec<u8> {
    let mut data = vec![
        0, 0, 2, 0, 0, 0, 0, 0, 0, 0, 0, 0, 1, 0, 1, 0, 32, 8,
    ];
    data.extend_from_slice(&[10, 20, 30, 40]);
    data
}

/// A 1x1 8-bit grayscale uncompressed TGA file (unsupported depth).
fn tiny_tga_8() -> Vec<u8> {
    let mut data = vec![
        0, 0, 3, 0, 0, 0, 0, 0, 0, 0, 0, 0, 1, 0, 1, 0, 8, 0,
    ];
    data.push(77);
    data
}

/// A 1x1 red RGB PNG file.
fn tiny_png() -> Vec<u8> {
    vec![
        137, 80, 78, 71, 13, 10, 26, 10, 0, 0, 0, 13, 73, 72, 68, 82, 0, 0, 0, 1, 0, 0, 0, 1, 8,
        2, 0, 0, 0, 144, 119, 83, 222, 0, 0, 0, 12, 73, 68, 65, 84, 120, 156, 99, 248, 207, 192,
        0, 0, 3, 1, 1, 0, 201, 254, 146, 239, 0, 0, 0, 0, 73, 69, 78, 68, 174, 66, 96, 130,
    ]
}

#[test]
fn black_colors_resolve_to_defaults() {
    let raw = raw_material();
    let m = resolve_material(&raw, &None, &None, &None);
    assert_eq!(m.ambient_color, Vec3Fx { x: 200_000, y: 200_000, z: 200_000 });
    assert_eq!(m.diffuse_color, Vec3Fx { x: 800_000, y: 800_000, z: 800_000 });
    assert_eq!(m.specular_color, Vec3Fx { x: 1_000_000, y: 1_000_000, z: 1_000_000 });
}

#[test]
fn set_colors_resolve_unchanged() {
    let mut raw = raw_material();
    raw.ambient = Vec3Fx { x: 1_000_000, y: 0, z: 0 };
    raw.specular = Vec3Fx { x: 0, y: 1, z: 0 };
    let m = resolve_material(&raw, &None, &None, &None);
    assert_eq!(m.ambient_color, Vec3Fx { x: 1_000_000, y: 0, z: 0 });
    assert_eq!(m.specular_color, Vec3Fx { x: 0, y: 1, z: 0 });
}

#[test]
fn illumination_model_selects_lighting() {
    let mut raw = raw_material();
    raw.illumination_model = Some(1);
    assert!(matches!(
        resolve_material(&raw, &None, &None, &None).lighting_type,
        LightingType::FLAT
    ));
    raw.illumination_model = Some(2);
    assert!(matches!(
        resolve_material(&raw, &None, &None, &None).lighting_type,
        LightingType::SPECULAR
    ));
    raw.illumination_model = Some(7);
    assert!(matches!(
        resolve_material(&raw, &None, &None, &None).lighting_type,
        LightingType::FLAT
    ));
    raw.illumination_model = None;
    assert!(matches!(
        resolve_material(&raw, &None, &None, &None).lighting_type,
        LightingType::FLAT
    ));
}

#[test]
fn transparency_and_shininess_are_normalized() {
    let mut raw = raw_material();
    raw.dissolve = 7_000_000;
    raw.shininess = -5;
    let m = resolve_material(&raw, &None, &None, &None);
    assert_eq!(m.transparancy, 1_000_000);
    assert_eq!(m.shininess, 0);
    raw.dissolve = -3;
    raw.shininess = 250_000;
    let m = resolve_material(&raw, &None, &None, &None);
    assert_eq!(m.transparancy, 0);
    assert_eq!(m.shininess, 250_000);
}

#[test]
fn default_material_is_fallback() {
    let m = MaterialDesc::default();
    assert_eq!(m.ambient_color, Vec3Fx { x: 200_000, y: 200_000, z: 200_000 });
    assert_eq!(m.transparancy, 1_000_000);
    assert!(matches!(m.lighting_type, LightingType::FLAT));
    assert!(m.ambient_map.is_none() && m.diffuse_map.is_none() && m.specular_map.is_none());
}

#[test]
fn tga_texture_decodes_by_depth() {
    let path: Vec<u8> = b"skin.tga".to_vec();
    let t = decode_texture(&path, &tiny_tga()).expect("24-bit TGA decodes");
    assert_eq!(t.width, 1);
    assert_eq!(t.height, 1);
    assert!(matches!(t.format, TextureFormat::RGB8));
    assert_eq!(t.pixels, vec![10, 20, 30]);

    let t32 = decode_texture(&path, &tiny_tga_32()).expect("32-bit TGA decodes");
    assert!(matches!(t32.format, TextureFormat::RGBA8));
    assert_eq!(t32.pixels, vec![10, 20, 30, 40]);
}

#[test]
fn shallow_tga_depth_is_rejected() {
    let path: Vec<u8> = b"skin.tga".to_vec();
    assert!(decode_texture(&path, &tiny_tga_8()).is_none());
}

#[test]
fn png_texture_decodes_to_rgba() {
    let path: Vec<u8> = b"skin.png".to_vec();
    let t = decode_texture(&path, &tiny_png()).expect("PNG decodes");
    assert_eq!(t.width, 1);
    assert_eq!(t.height, 1);
    assert!(matches!(t.format, TextureFormat::RGBA8));
    assert_eq!(t.pixels, vec![255, 0, 0, 255]);
}

#[test]
fn unknown_extension_yields_no_texture() {
    let path: Vec<u8> = b"skin.bmp".to_vec();
    assert!(decode_texture(&path, &tiny_png()).is_none());
}

#[test]
fn failed_decode_leaves_slot_absent() {
    let mut raw = raw_material();
    raw.diffuse_texture = b"skin.png".to_vec();
    raw.ambient_texture = b"wall.tga".to_vec();
    let garbage: Option<Vec<u8>> = Some(vec![1, 2, 3, 4, 5]);
    let m = resolve_material(&raw, &garbage, &garbage.clone(), &None);
    assert!(m.ambient_map.is_none());
    assert!(m.diffuse_map.is_none());
    assert!(m.specular_map.is_none());
}

#[test]
fn readable_texture_fills_slot() {
    let mut raw = raw_material();
    raw.diffuse_texture = b"skin.png".to_vec();
    let m = resolve_material(&raw, &None, &Some(tiny_png()), &None);
    let t = m.diffuse_map.expect("slot filled");
    assert_eq!((t.width, t.height), (1, 1));
    assert!(m.ambient_map.is_none());
}

/// The 24-bit TGA above followed by a footer whose extension-area offset
/// points far past the end of the file.
fn tiny_tga_bad_footer() -> Vec<u8> {
    let mut data = tiny_tga();
    data.extend_from_slice(&[255, 255, 255, 255, 0, 0, 0, 0]);
    data.extend_from_slice(b"TRUEVISION-XFILE.\0");
    data
}

/// The 24-bit TGA above followed by a well-formed footer (both offsets
/// unset).
fn tiny_tga_with_footer() -> Vec<u8> {
    let mut data = tiny_tga();
    data.extend_from_slice(&[0, 0, 0, 0, 0, 0, 0, 0]);
    data.extend_from_slice(b"TRUEVISION-XFILE.\0");
    data
}

#[test]
fn hazardous_footer_yields_no_texture() {
    let path: Vec<u8> = b"skin.tga".to_vec();
    assert!(decode_texture(&path, &tiny_tga_bad_footer()).is_none());
}

#[test]
fn well_formed_footer_still_decodes() {
    let path: Vec<u8> = b"skin.tga".to_vec();
    let t = decode_texture(&path, &tiny_tga_with_footer()).expect("footered TGA decodes");
    assert_eq!((t.width, t.height), (1, 1));
    assert!(matches!(t.format, TextureFormat::RGB8));
    assert_eq!(t.pixels, vec![10, 20, 30]);
}

#[test]
fn hazardous_footer_leaves_slot_absent() {
    let mut raw = raw_material();
    raw.diffuse_texture = b"wall.tga".to_vec();
    let m = resolve_material(&raw, &None, &Some(tiny_tga_bad_footer()), &None);
    assert!(m.diffuse_map.is_none());
}

#[test]
fn decodable_tga_fills_slot() {
    let mut raw = raw_material();
    raw.ambient_texture = b"wall.tga".to_vec();
    let m = resolve_material(&raw, &Some(tiny_tga()), &None, &None);
    let t = m.ambient_map.expect("slot filled");
    assert_eq!((t.width, t.height), (1, 1));
}
