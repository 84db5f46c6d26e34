//! Sprites and their identity.
//!
//! A sprite is a textured unit quad identified by a stable 64-bit
//! fingerprint of its source path. The fingerprint is the FNV-1a hash of
//! the path's UTF-8 bytes, so the same path always maps to the same
//! identity, in any process.

use vstd::prelude::*;
use vstd::string::StringSliceAdditionalSpecFns;
use crate::data::Vertex;
use crate::fixed::{FX_ONE, FX_HALF};

verus! {

/// FNV-1a 64-bit offset basis.
pub const FNV_OFFSET: u64 = 0xcbf29ce484222325;

/// FNV-1a 64-bit prime.
pub const FNV_PRIME: u64 = 0x100000001b3;

/// One FNV-1a round: fold a byte into the running hash.
pub open spec fn fnv1a_step(acc: u64, byte: u8) -> u64 {
    vstd::wrapping::u64_specs::wrapping_mul(acc ^ (byte as u64), FNV_PRIME)
}

/// The FNV-1a hash of `bytes` continued from the accumulator `acc`.
pub open spec fn fnv1a_from(bytes: Seq<u8>, acc: u64) -> u64
    decreases bytes.len(),
{
    if bytes.len() == 0 {
        acc
    } else {
        fnv1a_from(bytes.drop_first(), fnv1a_step(acc, bytes[0]))
    }
}

/// The sprite identity derived from a path's UTF-8 bytes.
pub open spec fn sprite_id_of(path_bytes: Seq<u8>) -> u64 {
    fnv1a_from(path_bytes, FNV_OFFSET)
}

/// The stable identity for the sprite at `path`: the FNV-1a hash of the
/// path string. Equal paths always receive equal identities.
pub fn get_id(path: &str) -> (r: u64)
    ensures
        r == sprite_id_of(path.spec_bytes()),
{
    let bytes: &[u8] = path.as_bytes();
    let ghost all: Seq<u8> = bytes@;
    let mut acc: u64 = FNV_OFFSET;
    let mut i: usize = 0;
    proof {
        assert(all.skip(0) =~= all);
    }
    while i < bytes.len()
        invariant
            i <= all.len(),
            bytes@ == all,
            fnv1a_from(all, FNV_OFFSET) == fnv1a_from(all.skip(i as int), acc),
        decreases all.len() - i,
    {
        proof {
            assert(all.skip(i as int).drop_first() =~= all.skip(i + 1));
        }
        acc = (acc ^ (bytes[i] as u64)).wrapping_mul(FNV_PRIME);
        i = i + 1;
    }
    proof {
        assert(all.skip(all.len() as int) =~= Seq::<u8>::empty());
    }
    acc
}

/// Identical path strings always hash to the same sprite identity: the
/// identity is a function of the path's bytes and nothing else.
pub proof fn lemma_sprite_id_deterministic(a: Seq<u8>, b: Seq<u8>)
    requires
        a == b,
    ensures
        sprite_id_of(a) == sprite_id_of(b),
{
}

/// A sprite asset: a stable identity and the source path it was derived
/// from. Immutable once created; many renderer instances may share one
/// sprite.
#[derive(Debug)]
pub struct Sprite {
    id: u64,
    path: String,
}

impl Clone for Sprite {
    /// Cloning keeps both the identity and the path.
    fn clone(&self) -> (r: Self)
        ensures
            r.spec_id() == self.spec_id(),
            r.spec_path() == self.spec_path(),
    {
        Sprite { id: self.id, path: self.path.clone() }
    }
}

/// The quad index pattern shared by every sprite: two triangles over
/// four corners.
pub open spec fn spec_quad_indices() -> Seq<u32> {
    seq![0u32, 1, 2, 1, 0, 3]
}

/// The shared quad index buffer contents, identical for every sprite.
pub fn quad_indices() -> (r: [u32; 6])
    ensures
        r@ == spec_quad_indices(),
{
    let r: [u32; 6] = [0, 1, 2, 1, 0, 3];
    proof {
        assert(r@ =~= spec_quad_indices());
    }
    r
}

/// The quad's half width for a sprite of `width` by `height` pixels: half
/// the pixel aspect ratio, in fixed point (truncating division), so the
/// quad's physical aspect ratio matches the sprite's pixel aspect ratio
/// with a fixed half-unit height.
pub open spec fn quad_half_width(width: u32, height: u32) -> int {
    (width * FX_HALF) / (height as int)
}

/// The UTF-8 bytes of a TGA file suffix, dot included.
pub open spec fn spec_tga_suffix(bytes: Seq<u8>) -> bool {
    bytes.len() >= 4 && bytes.skip(bytes.len() - 4) == seq![46u8, 116, 103, 97]  // ".tga"
}

/// Whether a path names a TGA file. TGA streams carry no magic bytes,
/// so the decoder must be told the format from the path's extension —
/// guessing from the contents cannot find it.
pub fn is_tga_path(path: &str) -> (r: bool)
    ensures
        r == spec_tga_suffix(path.spec_bytes()),
{
    let b: &[u8] = path.as_bytes();
    if b.len() < 4 {
        return false;
    }
    let n = b.len() - 4;
    proof {
        assert(forall|i: int| 0 <= i < 4 ==> b@.skip(n as int)[i] == b@[n + i]);
    }
    if b[n] == 46 && b[n + 1] == 116 && b[n + 2] == 103 && b[n + 3] == 97 {
        proof {
            assert(b@.skip(n as int) =~= seq![46u8, 116, 103, 97]);
        }
        true
    } else {
        false
    }
}

/// The pixels that `image`'s decoding (`load_from_memory`, or
/// `load_from_memory_with_format` for TGA) followed by
/// `DynamicImage::to_rgba8` produces from a byte stream: a function of
/// the format hint and the bytes alone.
pub uninterp spec fn decoded_rgba(tga: bool, bytes: Seq<u8>) -> Seq<u8>;

/// The dimensions of the image the same decoding finds in a byte
/// stream, or `None` when the bytes do not decode: a function of the
/// format hint and the bytes alone.
pub uninterp spec fn decoded_dims(tga: bool, bytes: Seq<u8>) -> Option<(u32, u32)>;

/// Relies on `image::load_from_memory` (or, with the TGA hint,
/// `image::load_from_memory_with_format`, since TGA has no magic bytes
/// to guess from) and `DynamicImage::to_rgba8`: decoding succeeds on
/// exactly the byte streams the decoder accepts, and on success the
/// pixel buffer is the image's tightly packed RGBA8 data, four bytes
/// for each of `width * height` pixels — all determined by the hint and
/// the input bytes alone.
#[verifier::external_body]
fn decode_image(tga: bool, bytes: &[u8]) -> (r: Option<(u32, u32, Vec<u8>)>)
    ensures
        (r is Some) == (decoded_dims(tga, bytes@) is Some),
        r matches Some((width, height, pixels)) ==> decoded_dims(tga, bytes@) == Some(
            (width, height),
        ) && pixels@ == decoded_rgba(tga, bytes@) && pixels@.len() == 4 * width * height,
{
    let decoded = if tga {
        image::load_from_memory_with_format(bytes, image::ImageFormat::Tga)
    } else {
        image::load_from_memory(bytes)
    };
    match decoded {
        Ok(img) => {
            let rgba = img.to_rgba8();
            Some((rgba.width(), rgba.height(), rgba.into_raw()))
        }
        Err(_) => None,
    }
}

/// A sprite's decoded form, ready for upload: four quad vertices, the
/// shared index pattern, and the RGBA8 pixel buffer with its dimensions.
#[derive(Clone, Debug, PartialEq, Eq)]
pub struct SpriteData {
    pub vertices: [Vertex; 4],
    pub indices: [u32; 6],
    pub width: u32,
    pub height: u32,
    pub pixels: Vec<u8>,
}

/// The geometry and pixel fields of a sprite's decoded form agree: the
/// vertices are the four corners of a quad of half the pixel aspect ratio
/// by one half, each carrying its texture corner, the indices are the
/// shared pattern, and the pixel buffer holds four bytes per pixel.
pub open spec fn sprite_data_wf(d: SpriteData) -> bool {
    let hw = quad_half_width(d.width, d.height);
    &&& d.width > 0
    &&& d.height > 0
    &&& d.pixels@.len() == 4 * d.width * d.height
    &&& d.indices@ == spec_quad_indices()
    &&& d.vertices[0].vertex@ == seq![(-hw) as i64, FX_HALF, 0, FX_ONE]
    &&& d.vertices[1].vertex@ == seq![hw as i64, (-FX_HALF) as i64, FX_ONE, 0]
    &&& d.vertices[2].vertex@ == seq![(-hw) as i64, (-FX_HALF) as i64, 0, 0]
    &&& d.vertices[3].vertex@ == seq![hw as i64, FX_HALF, FX_ONE, FX_ONE]
}

/// Builds a sprite's decoded form from an RGBA8 pixel buffer and its
/// dimensions.
pub fn sprite_data_from_pixels(width: u32, height: u32, pixels: Vec<u8>) -> (r: SpriteData)
    requires
        width > 0,
        height > 0,
        pixels@.len() == 4 * width * height,
    ensures
        sprite_data_wf(r),
        r.width == width,
        r.height == height,
        r.pixels == pixels,
{
    let half_w_wide: u64 = ((width as u64) * (FX_HALF as u64)) / (height as u64);
    let hw: i64 = half_w_wide as i64;
    proof {
        assert((width as u64) * (FX_HALF as u64) == width * FX_HALF);
        assert(hw == quad_half_width(width, height));
    }
    let vertices: [Vertex; 4] = [
        Vertex { vertex: [-hw, FX_HALF, 0, FX_ONE] },
        Vertex { vertex: [hw, (-FX_HALF) as i64, FX_ONE, 0] },
        Vertex { vertex: [-hw, (-FX_HALF) as i64, 0, 0] },
        Vertex { vertex: [hw, FX_HALF, FX_ONE, FX_ONE] },
    ];
    let r = SpriteData { vertices, indices: quad_indices(), width, height, pixels };
    proof {
        let ghost ghw = quad_half_width(width, height);
        assert(r.vertices[0].vertex@ =~= seq![(-ghw) as i64, FX_HALF, 0, FX_ONE]);
        assert(r.vertices[1].vertex@ =~= seq![ghw as i64, (-FX_HALF) as i64, FX_ONE, 0]);
        assert(r.vertices[2].vertex@ =~= seq![(-ghw) as i64, (-FX_HALF) as i64, 0, 0]);
        assert(r.vertices[3].vertex@ =~= seq![ghw as i64, FX_HALF, FX_ONE, FX_ONE]);
    }
    r
}

impl Sprite {
    /// The sprite's stable identity, for contracts.
    pub closed spec fn spec_id(&self) -> u64 {
        self.id
    }

    /// The characters of the sprite's source path, for contracts.
    pub closed spec fn spec_path(&self) -> Seq<char> {
        self.path@
    }

    /// A sprite with the given identity and source path.
    pub fn new(id: u64, path: String) -> (r: Sprite)
        ensures
            r.spec_id() == id,
            r.spec_path() == path@,
    {
        Sprite { id, path }
    }

    /// The sprite's stable identity.
    pub fn id(&self) -> (r: u64)
        ensures
            r == self.spec_id(),
    {
        self.id
    }

    /// The sprite's source path.
    pub fn path(&self) -> (r: &str)
        ensures
            r@ == self.spec_path(),
    {
        self.path.as_str()
    }

    /// Whether this sprite's source file is decoded as TGA, judged from
    /// its path's extension.
    pub open spec fn spec_is_tga(&self) -> bool {
        spec_tga_suffix(vstd::utf8::encode_utf8(self.spec_path()))
    }

    /// Decodes the sprite from the contents of its source file and
    /// builds its upload-ready form: `Some` exactly when the bytes
    /// decode (as TGA for a `.tga` path, by content otherwise) to an
    /// image with nonzero dimensions, carrying that image's pixels and
    /// dimensions. An unreadable sprite is skipped, not fatal.
    pub fn load(&self, bytes: &[u8]) -> (r: Option<SpriteData>)
        ensures
            (r is Some) == (decoded_dims(self.spec_is_tga(), bytes@) matches Some((w, h)) && w > 0
                && h > 0),
            r matches Some(d) ==> sprite_data_wf(d) && d.pixels@ == decoded_rgba(
                self.spec_is_tga(),
                bytes@,
            ) && decoded_dims(self.spec_is_tga(), bytes@) == Some((d.width, d.height)),
    {
        let tga = is_tga_path(self.path());
        match decode_image(tga, bytes) {
            Some((width, height, pixels)) => {
                if width > 0 && height > 0 {
                    Some(sprite_data_from_pixels(width, height, pixels))
                } else {
                    None
                }
            }
            None => None,
        }
    }
}

} // verus!
