use terra::fixed::{FX_HALF, FX_ONE};
use terra::loader::{is_supported_extension, SpriteLoader};
use terra::sprite::{get_id, quad_indices, sprite_data_from_pixels, Sprite};

#[test]
fn same_path_hashes_to_same_identity() {
    let a = get_id("./assets/sprites/gengar.png");
    let b = get_id("./assets/sprites/gengar.png");
    assert_eq!(a, b);
}

#[test]
fn distinct_paths_hash_to_distinct_identities() {
    let a = get_id("./assets/sprites/gengar.png");
    let b = get_id("./assets/sprites/haunter.png");
    assert_ne!(a, b);
    let c = get_id("./assets/sprites/gengar.PNG");
    assert_ne!(a, c);
}

#[test]
fn identity_is_fnv1a_of_path_bytes() {
    // FNV-1a 64-bit reference values.
    assert_eq!(get_id(""), 0xcbf29ce484222325);
    assert_eq!(get_id("a"), 0xaf63dc4c8601ec8c);
    assert_eq!(get_id("foobar"), 0x85944171f73967e8);
}

#[test]
fn quad_indices_are_the_shared_pattern() {
    assert_eq!(quad_indices(), [0, 1, 2, 1, 0, 3]);
}

#[test]
fn sprite_data_quad_matches_pixel_aspect_ratio() {
    // A 4x2 sprite: half width = (4 * half unit) / 2 = one unit.
    let pixels = vec![0u8; 4 * 4 * 2];
    let d = sprite_data_from_pixels(4, 2, pixels.clone());
    assert_eq!(d.width, 4);
    assert_eq!(d.height, 2);
    assert_eq!(d.pixels, pixels);
    assert_eq!(d.indices, [0, 1, 2, 1, 0, 3]);
    let hw = FX_ONE;
    assert_eq!(d.vertices[0].vertex, [-hw, FX_HALF, 0, FX_ONE]);
    assert_eq!(d.vertices[1].vertex, [hw, -FX_HALF, FX_ONE, 0]);
    assert_eq!(d.vertices[2].vertex, [-hw, -FX_HALF, 0, 0]);
    assert_eq!(d.vertices[3].vertex, [hw, FX_HALF, FX_ONE, FX_ONE]);
}

#[test]
fn sprite_keeps_identity_and_path() {
    let s = Sprite::new(42, String::from("./assets/sprites/gengar.png"));
    assert_eq!(s.id(), 42);
    assert_eq!(s.path(), "./assets/sprites/gengar.png");
    let c = s.clone();
    assert_eq!(c.id(), 42);
    assert_eq!(c.path(), "./assets/sprites/gengar.png");
}

/// A hand-assembled 2x2 24-bit BMP: red and white on the top row, blue
/// and green on the bottom row.
fn tiny_bmp() -> Vec<u8> {
    let mut b: Vec<u8> = Vec::new();
    // File header: magic, file size, reserved, pixel data offset.
    b.extend_from_slice(&[0x42, 0x4d]);
    b.extend_from_slice(&70u32.to_le_bytes());
    b.extend_from_slice(&[0, 0, 0, 0]);
    b.extend_from_slice(&54u32.to_le_bytes());
    // DIB header: size, width, height, planes, bit depth, no
    // compression, image size, resolution, palette.
    b.extend_from_slice(&40u32.to_le_bytes());
    b.extend_from_slice(&2i32.to_le_bytes());
    b.extend_from_slice(&2i32.to_le_bytes());
    b.extend_from_slice(&1u16.to_le_bytes());
    b.extend_from_slice(&24u16.to_le_bytes());
    b.extend_from_slice(&0u32.to_le_bytes());
    b.extend_from_slice(&16u32.to_le_bytes());
    b.extend_from_slice(&2835u32.to_le_bytes());
    b.extend_from_slice(&2835u32.to_le_bytes());
    b.extend_from_slice(&0u32.to_le_bytes());
    b.extend_from_slice(&0u32.to_le_bytes());
    // Pixel rows, bottom-up, BGR, each row padded to four bytes:
    // bottom row blue then green, top row red then white.
    b.extend_from_slice(&[0xff, 0x00, 0x00, 0x00, 0xff, 0x00, 0x00, 0x00]);
    b.extend_from_slice(&[0x00, 0x00, 0xff, 0xff, 0xff, 0xff, 0x00, 0x00]);
    b
}

#[test]
fn load_decodes_an_image_into_rgba_pixels() {
    let sprite = Sprite::new(get_id("quad.bmp"), String::from("quad.bmp"));
    let data = sprite.load(&tiny_bmp()).expect("the image should decode");
    assert_eq!(data.width, 2);
    assert_eq!(data.height, 2);
    assert_eq!(data.pixels.len(), 16);
    // Top-left pixel is red, top-right white, bottom row blue and green.
    assert_eq!(&data.pixels[0..4], &[0xff, 0x00, 0x00, 0xff]);
    assert_eq!(&data.pixels[4..8], &[0xff, 0xff, 0xff, 0xff]);
    assert_eq!(&data.pixels[8..12], &[0x00, 0x00, 0xff, 0xff]);
    assert_eq!(&data.pixels[12..16], &[0x00, 0xff, 0x00, 0xff]);
    // A square sprite spans half a unit either way.
    assert_eq!(data.vertices[0].vertex, [-FX_HALF, FX_HALF, 0, FX_ONE]);
}

#[test]
fn load_rejects_undecodable_bytes() {
    let sprite = Sprite::new(7, String::from("broken.png"));
    assert!(sprite.load(&[0u8, 1, 2, 3]).is_none());
}

/// A hand-assembled 1x1 uncompressed 24-bit TGA holding one orange
/// pixel. TGA has no magic bytes, so only the path's extension can tell
/// the decoder what it is.
fn tiny_tga() -> Vec<u8> {
    let mut b: Vec<u8> = Vec::new();
    // Header: no id, no color map, uncompressed true color, color map
    // spec, origin, 1x1, 24 bits per pixel, default descriptor.
    b.extend_from_slice(&[0, 0, 2]);
    b.extend_from_slice(&[0, 0, 0, 0, 0]);
    b.extend_from_slice(&[0, 0, 0, 0]);
    b.extend_from_slice(&[1, 0, 1, 0]);
    b.extend_from_slice(&[24, 0]);
    // One BGR pixel: orange.
    b.extend_from_slice(&[0x00, 0x80, 0xff]);
    b
}

#[test]
fn load_decodes_a_tga_sprite_by_its_extension() {
    let sprite = Sprite::new(get_id("orange.tga"), String::from("orange.tga"));
    let data = sprite.load(&tiny_tga()).expect("a tga sprite must decode");
    assert_eq!(data.width, 1);
    assert_eq!(data.height, 1);
    assert_eq!(data.pixels, vec![0xff, 0x80, 0x00, 0xff]);
}

#[test]
fn tga_bytes_cannot_be_guessed_without_the_extension() {
    // The same bytes under a non-tga path go through format guessing,
    // which cannot recognize tga — the sprite is skipped, not mangled.
    let sprite = Sprite::new(get_id("orange.png"), String::from("orange.png"));
    assert!(sprite.load(&tiny_tga()).is_none());
}

#[test]
fn supported_extensions_are_recognized() {
    assert!(is_supported_extension("png"));
    assert!(is_supported_extension("jpeg"));
    assert!(is_supported_extension("jpg"));
    assert!(is_supported_extension("tiff"));
    assert!(is_supported_extension("bmp"));
    assert!(is_supported_extension("tga"));
    assert!(!is_supported_extension("gif"));
    assert!(!is_supported_extension("PNG"));
    assert!(!is_supported_extension(""));
    assert!(!is_supported_extension("pngg"));
}

#[test]
fn loader_registers_and_finds_sprites() {
    let mut loader = SpriteLoader::new();
    let id = loader.register(String::from("./assets/sprites/gengar.png"));
    assert_eq!(id, get_id("./assets/sprites/gengar.png"));
    let found = loader.get(&id).expect("the sprite should be registered");
    assert_eq!(found.id(), id);
    assert_eq!(found.path(), "./assets/sprites/gengar.png");
    assert!(loader.get(&id.wrapping_add(1)).is_none());
}

#[test]
fn loader_reregistration_keeps_one_sprite_per_identity() {
    let mut loader = SpriteLoader::new();
    let a = loader.register(String::from("./a.png"));
    let b = loader.register(String::from("./b.png"));
    let a2 = loader.register(String::from("./a.png"));
    assert_eq!(a, a2);
    assert_ne!(a, b);
    assert_eq!(loader.get(&a).unwrap().path(), "./a.png");
    assert_eq!(loader.get(&b).unwrap().path(), "./b.png");
}
