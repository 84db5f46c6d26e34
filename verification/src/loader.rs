//! The sprite loader: a directory's worth of sprites, keyed by identity.
//!
//! The backend scans the asset directory and registers each image file's
//! path here; the loader derives the stable identity from the path and
//! keeps one sprite per identity.

use vstd::prelude::*;
use vstd::string::StringSliceAdditionalSpecFns;
use crate::sprite::{Sprite, get_id, sprite_id_of};

verus! {

/// The file extensions recognized as sprite images, as UTF-8 bytes:
/// png, jpeg, jpg, tiff, bmp and tga.
pub open spec fn spec_supported_extension(ext: Seq<u8>) -> bool {
    ||| ext == seq![112u8, 110, 103]  // png
    ||| ext == seq![106u8, 112, 101, 103]  // jpeg
    ||| ext == seq![106u8, 112, 103]  // jpg
    ||| ext == seq![116u8, 105, 102, 102]  // tiff
    ||| ext == seq![98u8, 109, 112]  // bmp
    ||| ext == seq![116u8, 103, 97]  // tga
}

/// Whether a slice holds exactly the three given bytes.
fn bytes_eq3(b: &[u8], x0: u8, x1: u8, x2: u8) -> (r: bool)
    ensures
        r == (b@ == seq![x0, x1, x2]),
{
    if b.len() == 3 && b[0] == x0 && b[1] == x1 && b[2] == x2 {
        proof {
            assert(b@ =~= seq![x0, x1, x2]);
        }
        true
    } else {
        false
    }
}

/// Whether a slice holds exactly the four given bytes.
fn bytes_eq4(b: &[u8], x0: u8, x1: u8, x2: u8, x3: u8) -> (r: bool)
    ensures
        r == (b@ == seq![x0, x1, x2, x3]),
{
    if b.len() == 4 && b[0] == x0 && b[1] == x1 && b[2] == x2 && b[3] == x3 {
        proof {
            assert(b@ =~= seq![x0, x1, x2, x3]);
        }
        true
    } else {
        false
    }
}

/// Whether `ext` (a file extension, without the dot) names a supported
/// sprite image format.
pub fn is_supported_extension(ext: &str) -> (r: bool)
    ensures
        r == spec_supported_extension(ext.spec_bytes()),
{
    let b: &[u8] = ext.as_bytes();
    bytes_eq3(b, 112, 110, 103) || bytes_eq4(b, 106, 112, 101, 103) || bytes_eq3(b, 106, 112, 103)
        || bytes_eq4(b, 116, 105, 102, 102) || bytes_eq3(b, 98, 109, 112) || bytes_eq3(
        b,
        116,
        103,
        97,
    )
}

/// The first sprite with the given identity in the sequence, if any: its
/// source path.
pub open spec fn spec_lookup(s: Seq<Sprite>, id: u64) -> Option<Seq<char>>
    decreases s.len(),
{
    if s.len() == 0 {
        None
    } else if s[0].spec_id() == id {
        Some(s[0].spec_path())
    } else {
        spec_lookup(s.drop_first(), id)
    }
}

/// Replacing the first entry that carries `id` with another entry
/// carrying `id` changes only that identity's lookup.
proof fn lemma_lookup_update(s: Seq<Sprite>, i: int, x: Sprite, id: u64)
    requires
        0 <= i < s.len(),
        s[i].spec_id() == x.spec_id(),
        forall|j: int| 0 <= j < i ==> (#[trigger] s[j].spec_id()) != x.spec_id(),
    ensures
        spec_lookup(s.update(i, x), id) == if id == x.spec_id() {
            Some(x.spec_path())
        } else {
            spec_lookup(s, id)
        },
    decreases s.len(),
{
    let t = s.update(i, x);
    if i == 0 {
        if id == x.spec_id() {
        } else {
            assert(t.drop_first() =~= s.drop_first());
        }
    } else {
        assert(t.drop_first() =~= s.drop_first().update(i - 1, x));
        assert(forall|j: int| 0 <= j < i - 1 ==> (#[trigger] s.drop_first()[j].spec_id())
            != x.spec_id());
        lemma_lookup_update(s.drop_first(), i - 1, x, id);
    }
}

/// Appending an entry leaves every other identity's lookup unchanged and
/// makes the new identity found, provided it was absent.
proof fn lemma_lookup_push(s: Seq<Sprite>, x: Sprite, id: u64)
    requires
        spec_lookup(s, x.spec_id()) is None,
    ensures
        spec_lookup(s.push(x), id) == if id == x.spec_id() {
            Some(x.spec_path())
        } else {
            spec_lookup(s, id)
        },
    decreases s.len(),
{
    if s.len() == 0 {
        assert(s.push(x)[0] == x);
        if id != x.spec_id() {
            assert(spec_lookup(s.push(x), id) == spec_lookup(s.push(x).drop_first(), id));
            assert(s.push(x).drop_first() =~= Seq::<Sprite>::empty());
        }
    } else {
        assert(s.push(x)[0] == s[0]);
        assert(s.push(x).drop_first() =~= s.drop_first().push(x));
        lemma_lookup_push(s.drop_first(), x, id);
    }
}

/// The sprites found in the asset directory, one per identity.
#[derive(Debug)]
pub struct SpriteLoader {
    sprites: Vec<Sprite>,
}

impl SpriteLoader {
    /// The stored sprites, for contracts.
    pub closed spec fn spec_sprites(&self) -> Seq<Sprite> {
        self.sprites@
    }

    /// The source path registered under `id`, if any.
    pub open spec fn spec_get(&self, id: u64) -> Option<Seq<char>> {
        spec_lookup(self.spec_sprites(), id)
    }

    /// An empty loader.
    pub fn new() -> (r: SpriteLoader)
        ensures
            r.spec_sprites().len() == 0,
            forall|id: u64| r.spec_get(id) is None,
    {
        SpriteLoader { sprites: Vec::new() }
    }

    /// The sprite registered under `id`, if any: a copy carrying that
    /// identity and its registered path.
    pub fn get(&self, id: &u64) -> (r: Option<Sprite>)
        ensures
            (r is Some) == (self.spec_get(*id) is Some),
            r matches Some(s) ==> s.spec_id() == *id && self.spec_get(*id) == Some(s.spec_path()),
    {
        let ghost all = self.sprites@;
        let mut i: usize = 0;
        proof {
            assert(all.skip(0) =~= all);
        }
        while i < self.sprites.len()
            invariant
                i <= all.len(),
                self.sprites@ == all,
                spec_lookup(all, *id) == spec_lookup(all.skip(i as int), *id),
            decreases all.len() - i,
        {
            proof {
                assert(all.skip(i as int)[0] == all[i as int]);
                assert(all.skip(i as int).drop_first() =~= all.skip(i + 1));
            }
            if self.sprites[i].id() == *id {
                return Some(self.sprites[i].clone());
            }
            i = i + 1;
        }
        proof {
            assert(all.skip(all.len() as int) =~= Seq::<Sprite>::empty());
        }
        None
    }

    /// Registers the sprite at `path`: derives its identity from the
    /// path, then inserts it, replacing any sprite already registered
    /// under that identity. Returns the identity.
    pub fn register(&mut self, path: String) -> (id: u64)
        ensures
            id == sprite_id_of(vstd::utf8::encode_utf8(path@)),
            final(self).spec_get(id) == Some(path@),
            forall|id2: u64| id2 != id ==> final(self).spec_get(id2) == old(self).spec_get(id2),
    {
        let ghost path_chars = path@;
        let id = get_id(path.as_str());
        let sprite = Sprite::new(id, path);
        let ghost all = self.sprites@;
        let mut i: usize = 0;
        proof {
            assert(all.skip(0) =~= all);
        }
        while i < self.sprites.len()
            invariant
                i <= all.len(),
                self.sprites@ == all,
                all == old(self).sprites@,
                path_chars == path@,
                id == sprite_id_of(vstd::utf8::encode_utf8(path_chars)),
                spec_lookup(all, id) == spec_lookup(all.skip(i as int), id),
                forall|j: int| 0 <= j < i ==> (#[trigger] all[j].spec_id()) != id,
                sprite.spec_id() == id,
                sprite.spec_path() == path_chars,
            decreases all.len() - i,
        {
            proof {
                assert(all.skip(i as int)[0] == all[i as int]);
                assert(all.skip(i as int).drop_first() =~= all.skip(i + 1));
            }
            if self.sprites[i].id() == id {
                let slot = vstd::std_specs::vec::vec_index_mut(&mut self.sprites, i);
                *slot = sprite;
                proof {
                    assert(self.sprites@ == all.update(i as int, sprite));
                    lemma_lookup_update(all, i as int, sprite, id);
                    assert forall|id2: u64| id2 != id implies spec_lookup(
                        all.update(i as int, sprite),
                        id2,
                    ) == spec_lookup(all, id2) by {
                        lemma_lookup_update(all, i as int, sprite, id2);
                    }
                }
                return id;
            }
            i = i + 1;
        }
        proof {
            assert(all.skip(all.len() as int) =~= Seq::<Sprite>::empty());
        }
        self.sprites.push(sprite);
        proof {
            assert forall|id2: u64| true implies spec_lookup(all.push(sprite), id2) == if id2 == id {
                Some(sprite.spec_path())
            } else {
                spec_lookup(all, id2)
            } by {
                lemma_lookup_push(all, sprite, id2);
            }
        }
        id
    }

}

} // verus!
