//! GPU-resident sprite resources.
//!
//! The GPU objects themselves (buffers, images, descriptor sets) are
//! owned by the backend; here each is an opaque integer handle. The cache
//! maps a sprite identity to its handles, created at most once per
//! identity and reused by every instance referencing that sprite.

use vstd::prelude::*;

verus! {

/// A handle to a backend buffer.
#[derive(Clone, Copy, Debug, PartialEq, Eq, Structural)]
pub struct BufferId(pub u64);

/// A handle to a backend image with its view.
#[derive(Clone, Copy, Debug, PartialEq, Eq, Structural)]
pub struct ImageId(pub u64);

/// A handle to a backend descriptor set.
#[derive(Clone, Copy, Debug, PartialEq, Eq, Structural)]
pub struct DescriptorSetId(pub u64);

/// A handle to a backend graphics pipeline.
#[derive(Clone, Copy, Debug, PartialEq, Eq, Structural)]
pub struct PipelineId(pub u64);

/// A handle to a backend swapchain.
#[derive(Clone, Copy, Debug, PartialEq, Eq, Structural)]
pub struct SwapchainId(pub u64);

/// A handle to a backend framebuffer.
#[derive(Clone, Copy, Debug, PartialEq, Eq, Structural)]
pub struct FramebufferId(pub u64);

/// A handle to a backend render pass.
#[derive(Clone, Copy, Debug, PartialEq, Eq, Structural)]
pub struct RenderPassId(pub u64);

/// A handle to a backend swapchain image.
#[derive(Clone, Copy, Debug, PartialEq, Eq, Structural)]
pub struct RenderTargetId(pub u64);

/// One sprite's GPU residency: its texture image, the descriptor set
/// binding that image with the shared sampler, and its quad vertex
/// buffer. Never mutated after creation.
#[derive(Clone, Copy, Debug, PartialEq, Eq, Structural)]
pub struct SpriteResources {
    pub image: ImageId,
    pub vertex_buffer: BufferId,
    pub image_set: DescriptorSetId,
}

impl SpriteResources {
    /// A resource record from its three handles.
    pub fn new(image: ImageId, vertex_buffer: BufferId, image_set: DescriptorSetId) -> (r:
        SpriteResources)
        ensures
            r == (SpriteResources { image, vertex_buffer, image_set }),
    {
        SpriteResources { image, vertex_buffer, image_set }
    }

    /// The texture image handle.
    pub fn image(&self) -> (r: ImageId)
        ensures
            r == self.image,
    {
        self.image
    }

    /// The quad vertex buffer handle.
    pub fn vertex_buffer(&self) -> (r: BufferId)
        ensures
            r == self.vertex_buffer,
    {
        self.vertex_buffer
    }

    /// The texture descriptor set handle.
    pub fn image_set(&self) -> (r: DescriptorSetId)
        ensures
            r == self.image_set,
    {
        self.image_set
    }
}

/// The resources of the first entry carrying `id`, if any.
pub open spec fn spec_res_lookup(s: Seq<(u64, SpriteResources)>, id: u64) -> Option<
    SpriteResources,
>
    decreases s.len(),
{
    if s.len() == 0 {
        None
    } else if s[0].0 == id {
        Some(s[0].1)
    } else {
        spec_res_lookup(s.drop_first(), id)
    }
}

/// An identity absent from every entry is never found.
proof fn lemma_res_lookup_absent(s: Seq<(u64, SpriteResources)>, id: u64)
    requires
        forall|j: int| 0 <= j < s.len() ==> (#[trigger] s[j].0) != id,
    ensures
        spec_res_lookup(s, id) is None,
    decreases s.len(),
{
    if s.len() > 0 {
        lemma_res_lookup_absent(s.drop_first(), id);
    }
}

/// Appending an entry for an absent identity makes it found and leaves
/// every other identity's lookup unchanged.
proof fn lemma_res_lookup_push(s: Seq<(u64, SpriteResources)>, e: (u64, SpriteResources), id: u64)
    requires
        spec_res_lookup(s, e.0) is None,
    ensures
        spec_res_lookup(s.push(e), id) == if id == e.0 {
            Some(e.1)
        } else {
            spec_res_lookup(s, id)
        },
    decreases s.len(),
{
    reveal_with_fuel(spec_res_lookup, 3);
    if s.len() == 0 {
        assert(s.push(e)[0] == e);
        if id != e.0 {
            assert(s.push(e).drop_first() =~= Seq::<(u64, SpriteResources)>::empty());
        }
    } else {
        assert(s.push(e)[0] == s[0]);
        if s[0].0 == id {
            assert(spec_res_lookup(s.push(e), id) == Some(s[0].1));
        } else {
            assert(s.push(e).drop_first() =~= s.drop_first().push(e));
            lemma_res_lookup_push(s.drop_first(), e, id);
            assert(spec_res_lookup(s.push(e), id) == spec_res_lookup(s.drop_first().push(e), id));
        }
    }
}

/// Dropping the entry at `i` removes exactly its identity, provided the
/// identities are pairwise distinct.
proof fn lemma_res_lookup_remove(s: Seq<(u64, SpriteResources)>, i: int, id: u64)
    requires
        0 <= i < s.len(),
        forall|j: int, k: int|
            0 <= j < k < s.len() ==> (#[trigger] s[j].0) != (#[trigger] s[k].0),
    ensures
        spec_res_lookup(s.remove(i), id) == if id == s[i].0 {
            None
        } else {
            spec_res_lookup(s, id)
        },
    decreases s.len(),
{
    if i == 0 {
        assert(s.remove(0) =~= s.drop_first());
        if id == s[0].0 {
            assert(forall|j: int| 0 <= j < s.drop_first().len() ==> (#[trigger] s.drop_first()[j].0)
                != id);
            lemma_res_lookup_absent(s.drop_first(), id);
        }
    } else {
        assert(s.remove(i)[0] == s[0]);
        assert(s.remove(i).drop_first() =~= s.drop_first().remove(i - 1));
        lemma_res_lookup_remove(s.drop_first(), i - 1, id);
    }
}

/// The sprite resource cache: one resource record per sprite identity,
/// plus the shared quad index buffer, created exactly once and reused for
/// every draw.
#[derive(Debug)]
pub struct GraphicsResources {
    sprites: Vec<(u64, SpriteResources)>,
    sprite_index_buffer: BufferId,
}

impl GraphicsResources {
    /// The cached entries, for contracts.
    pub closed spec fn spec_entries(&self) -> Seq<(u64, SpriteResources)> {
        self.sprites@
    }

    /// The resources cached for `id`, if any.
    pub open spec fn spec_sprite(&self, id: u64) -> Option<SpriteResources> {
        spec_res_lookup(self.spec_entries(), id)
    }

    /// The shared quad index buffer handle, for contracts.
    pub closed spec fn spec_index_buffer(&self) -> BufferId {
        self.sprite_index_buffer
    }

    /// Cached identities are pairwise distinct.
    pub closed spec fn wf(&self) -> bool {
        forall|j: int, k: int|
            0 <= j < k < self.sprites@.len() ==> (#[trigger] self.sprites@[j].0)
                != (#[trigger] self.sprites@[k].0)
    }

    /// An empty cache around the shared quad index buffer.
    pub fn new(sprite_index_buffer: BufferId) -> (r: GraphicsResources)
        ensures
            forall|id: u64| r.spec_sprite(id) is None,
            r.spec_index_buffer() == sprite_index_buffer,
            r.wf(),
    {
        GraphicsResources { sprites: Vec::new(), sprite_index_buffer }
    }

    /// The shared quad index buffer handle.
    pub fn sprite_index_buffer(&self) -> (r: BufferId)
        ensures
            r == self.spec_index_buffer(),
    {
        self.sprite_index_buffer
    }

    /// The resources cached for `id`, if any.
    pub fn sprite(&self, id: &u64) -> (r: Option<SpriteResources>)
        ensures
            r == self.spec_sprite(*id),
    {
        let ghost all = self.sprites@;
        let mut i: usize = 0;
        proof {
            assert(all.skip(0) =~= all);
        }
        while i < self.sprites.len()
            invariant
                i <= all.len(),
                self.sprites@ == all,
                spec_res_lookup(all, *id) == spec_res_lookup(all.skip(i as int), *id),
            decreases all.len() - i,
        {
            proof {
                assert(all.skip(i as int)[0] == all[i as int]);
                assert(all.skip(i as int).drop_first() =~= all.skip(i + 1));
            }
            if self.sprites[i].0 == *id {
                return Some(self.sprites[i].1);
            }
            i = i + 1;
        }
        proof {
            assert(all.skip(all.len() as int) =~= Seq::<(u64, SpriteResources)>::empty());
        }
        None
    }

    /// Whether resources are cached for `id`.
    pub fn contains(&self, id: &u64) -> (r: bool)
        ensures
            r == (self.spec_sprite(*id) is Some),
    {
        self.sprite(id).is_some()
    }

    /// Law: the cache is an at-most-once memoization per identity. On a
    /// hit the cached handles come back and the candidate is discarded,
    /// so a second call with the same identity returns handles identical
    /// to the first call's; on a miss the candidate handles are cached
    /// under the identity. Either way no other identity's entry changes.
    pub fn get_or_create(&mut self, id: u64, fresh: SpriteResources) -> (r: SpriteResources)
        requires
            old(self).wf(),
        ensures
            r == if old(self).spec_sprite(id) is Some {
                old(self).spec_sprite(id).unwrap()
            } else {
                fresh
            },
            final(self).spec_sprite(id) == Some(r),
            forall|id2: u64| id2 != id ==> final(self).spec_sprite(id2) == old(self).spec_sprite(
                id2,
            ),
            final(self).spec_index_buffer() == old(self).spec_index_buffer(),
            final(self).wf(),
    {
        match self.sprite(&id) {
            Some(cached) => cached,
            None => {
                let ghost all = self.sprites@;
                self.sprites.push((id, fresh));
                proof {
                    assert forall|id2: u64| true implies spec_res_lookup(all.push((id, fresh)), id2)
                        == if id2 == id {
                        Some(fresh)
                    } else {
                        spec_res_lookup(all, id2)
                    } by {
                        lemma_res_lookup_push(all, (id, fresh), id2);
                    }
                    assert forall|j: int, k: int|
                        0 <= j < k < self.sprites@.len() implies (#[trigger] self.sprites@[j].0)
                        != (#[trigger] self.sprites@[k].0) by {
                        if k == all.len() as int {
                            if self.sprites@[j].0 == id {
                                lemma_res_lookup_found(all, j, id);
                            }
                        }
                    }
                }
                fresh
            }
        }
    }

    /// Caches `res` under `id`, which must not be cached yet: resource
    /// creation happens at most once per identity.
    pub fn add_sprite(&mut self, id: u64, res: SpriteResources)
        requires
            old(self).wf(),
            old(self).spec_sprite(id) is None,
        ensures
            final(self).spec_sprite(id) == Some(res),
            forall|id2: u64| id2 != id ==> final(self).spec_sprite(id2) == old(self).spec_sprite(
                id2,
            ),
            final(self).spec_index_buffer() == old(self).spec_index_buffer(),
            final(self).wf(),
    {
        let _ = self.get_or_create(id, res);
    }

    /// Evicts the resources cached for `id`, if any; every other entry
    /// stays.
    pub fn remove_sprite(&mut self, id: &u64)
        requires
            old(self).wf(),
        ensures
            final(self).spec_sprite(*id) is None,
            forall|id2: u64| id2 != *id ==> final(self).spec_sprite(id2) == old(self).spec_sprite(
                id2,
            ),
            final(self).spec_index_buffer() == old(self).spec_index_buffer(),
            final(self).wf(),
    {
        let ghost all = self.sprites@;
        let mut i: usize = 0;
        proof {
            assert(all.skip(0) =~= all);
        }
        while i < self.sprites.len()
            invariant
                i <= all.len(),
                self.sprites@ == all,
                all == old(self).sprites@,
                self.sprite_index_buffer == old(self).sprite_index_buffer,
                old(self).wf(),
                spec_res_lookup(all, *id) == spec_res_lookup(all.skip(i as int), *id),
                forall|j: int| 0 <= j < i ==> (#[trigger] all[j].0) != *id,
            decreases all.len() - i,
        {
            proof {
                assert(all.skip(i as int)[0] == all[i as int]);
                assert(all.skip(i as int).drop_first() =~= all.skip(i + 1));
            }
            if self.sprites[i].0 == *id {
                self.sprites.remove(i);
                proof {
                    assert forall|id2: u64| true implies spec_res_lookup(all.remove(i as int), id2)
                        == if id2 == all[i as int].0 {
                        None
                    } else {
                        spec_res_lookup(all, id2)
                    } by {
                        lemma_res_lookup_remove(all, i as int, id2);
                    }
                    assert forall|j: int, k: int|
                        0 <= j < k < self.sprites@.len() implies (#[trigger] self.sprites@[j].0)
                        != (#[trigger] self.sprites@[k].0) by {
                        if k < i as int {
                        } else if j < i as int {
                            assert(self.sprites@[k] == all[k + 1]);
                        } else {
                            assert(self.sprites@[j] == all[j + 1]);
                            assert(self.sprites@[k] == all[k + 1]);
                        }
                    }
                }
                return ;
            }
            i = i + 1;
        }
        proof {
            assert(all.skip(all.len() as int) =~= Seq::<(u64, SpriteResources)>::empty());
        }
    }
}

/// A found index pins the lookup: if the identities are pairwise
/// distinct up to `i` and entry `i` carries `id`, the lookup finds it.
proof fn lemma_res_lookup_found(s: Seq<(u64, SpriteResources)>, i: int, id: u64)
    requires
        0 <= i < s.len(),
        s[i].0 == id,
    ensures
        spec_res_lookup(s, id) is Some,
    decreases s.len(),
{
    if s[0].0 != id {
        lemma_res_lookup_found(s.drop_first(), i - 1, id);
    }
}

/// Law: resources cached for two distinct identities are independent:
/// caching the second leaves the first exactly as it was, so both map to
/// their own handles afterwards.
pub proof fn lemma_distinct_identities_independent(
    c0: GraphicsResources,
    c1: GraphicsResources,
    id1: u64,
    id2: u64,
    r1: SpriteResources,
    r2: SpriteResources,
)
    requires
        id1 != id2,
        c0.spec_sprite(id1) == Some(r1),
        c1.spec_sprite(id2) == Some(r2),
        forall|x: u64| x != id2 ==> c1.spec_sprite(x) == c0.spec_sprite(x),
    ensures
        c1.spec_sprite(id1) == Some(r1),
        c1.spec_sprite(id2) == Some(r2),
{
}

} // verus!
