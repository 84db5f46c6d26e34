//! The scene registry: renderer instances grouped by sprite identity.
//!
//! Each sprite identity owns a bucket holding its active instances in
//! insertion order — draw order, hence visual stacking, follows that
//! order. Adding appends to the identity's bucket; removing drops the
//! matching instance id from it and touches nothing else.

use vstd::prelude::*;
use vstd::seq_lib::group_seq_properties;
use crate::camera::Camera;
use crate::sprite_renderer::SpriteRenderer;

verus! {

broadcast use group_seq_properties;

/// One sprite identity's bucket of active renderer instances, in
/// insertion order.
#[derive(Debug)]
pub struct Bucket {
    pub sprite_id: u64,
    pub renderers: Vec<SpriteRenderer>,
}

/// The instances of the first bucket carrying `id`, if any.
pub open spec fn spec_bucket_lookup(s: Seq<Bucket>, id: u64) -> Option<Seq<SpriteRenderer>>
    decreases s.len(),
{
    if s.len() == 0 {
        None
    } else if s[0].sprite_id == id {
        Some(s[0].renderers@)
    } else {
        spec_bucket_lookup(s.drop_first(), id)
    }
}

/// A bucket at `i` carrying `id`, with no earlier bucket carrying it,
/// is the one the lookup finds.
proof fn lemma_bucket_lookup_found(s: Seq<Bucket>, i: int, id: u64)
    requires
        0 <= i < s.len(),
        s[i].sprite_id == id,
        forall|j: int| 0 <= j < i ==> (#[trigger] s[j].sprite_id) != id,
    ensures
        spec_bucket_lookup(s, id) == Some(s[i].renderers@),
    decreases s.len(),
{
    if i > 0 {
        lemma_bucket_lookup_found(s.drop_first(), i - 1, id);
    }
}

/// Appending a bucket for an absent identity makes it found and leaves
/// every other identity's lookup unchanged.
proof fn lemma_bucket_lookup_push(s: Seq<Bucket>, b: Bucket, id: u64)
    requires
        spec_bucket_lookup(s, b.sprite_id) is None,
    ensures
        spec_bucket_lookup(s.push(b), id) == if id == b.sprite_id {
            Some(b.renderers@)
        } else {
            spec_bucket_lookup(s, id)
        },
    decreases s.len(),
{
    reveal_with_fuel(spec_bucket_lookup, 3);
    if s.len() == 0 {
        assert(s.push(b)[0] == b);
        if id != b.sprite_id {
            assert(s.push(b).drop_first() =~= Seq::<Bucket>::empty());
        }
    } else {
        assert(s.push(b)[0] == s[0]);
        if s[0].sprite_id != id {
            assert(s.push(b).drop_first() =~= s.drop_first().push(b));
            lemma_bucket_lookup_push(s.drop_first(), b, id);
        }
    }
}

/// Replacing the first bucket that carries an identity with another
/// bucket carrying the same identity changes only that identity's
/// lookup.
proof fn lemma_bucket_lookup_update(s: Seq<Bucket>, i: int, nb: Bucket, id: u64)
    requires
        0 <= i < s.len(),
        s[i].sprite_id == nb.sprite_id,
        forall|j: int| 0 <= j < i ==> (#[trigger] s[j].sprite_id) != nb.sprite_id,
    ensures
        spec_bucket_lookup(s.update(i, nb), id) == if id == nb.sprite_id {
            Some(nb.renderers@)
        } else {
            spec_bucket_lookup(s, id)
        },
    decreases s.len(),
{
    let t = s.update(i, nb);
    if i == 0 {
        if id != nb.sprite_id {
            assert(t.drop_first() =~= s.drop_first());
        }
    } else {
        assert(t[0] == s[0]);
        assert(t.drop_first() =~= s.drop_first().update(i - 1, nb));
        lemma_bucket_lookup_update(s.drop_first(), i - 1, nb, id);
    }
}

/// The scene registry: buckets of renderer instances keyed by sprite
/// identity, and the scene's camera.
#[derive(Debug)]
pub struct GraphicsContext {
    buckets: Vec<Bucket>,
    camera: Camera,
}

impl GraphicsContext {
    /// The buckets, for contracts.
    pub closed spec fn spec_buckets(&self) -> Seq<Bucket> {
        self.buckets@
    }

    /// The camera, for contracts.
    pub closed spec fn spec_camera(&self) -> Camera {
        self.camera
    }

    /// The instances registered for `sid`, in insertion order; empty
    /// when the identity has no bucket.
    pub open spec fn spec_bucket(&self, sid: u64) -> Seq<SpriteRenderer> {
        match spec_bucket_lookup(self.spec_buckets(), sid) {
            Some(b) => b,
            None => Seq::empty(),
        }
    }

    /// Bucket identities are pairwise distinct.
    pub closed spec fn wf(&self) -> bool {
        forall|j: int, k: int|
            0 <= j < k < self.buckets@.len() ==> (#[trigger] self.buckets@[j].sprite_id)
                != (#[trigger] self.buckets@[k].sprite_id)
    }

    /// An empty registry with a fresh camera.
    pub fn new() -> (r: GraphicsContext)
        ensures
            forall|sid: u64| r.spec_bucket(sid) == Seq::<SpriteRenderer>::empty(),
            r.spec_buckets().len() == 0,
            r.spec_camera() == Camera::spec_initial(),
            r.wf(),
    {
        GraphicsContext { buckets: Vec::new(), camera: Camera::new() }
    }

    /// The camera.
    pub fn camera(&self) -> (r: &Camera)
        ensures
            *r == self.spec_camera(),
    {
        &self.camera
    }

    /// Mutable access to the camera.
    pub fn camera_mut(&mut self) -> (r: &mut Camera)
        ensures
            *r == old(self).spec_camera(),
            final(self).spec_camera() == *final(r),
            final(self).spec_buckets() == old(self).spec_buckets(),
            old(self).wf() ==> final(self).wf(),
    {
        &mut self.camera
    }

    /// The buckets, for iteration: each sprite identity with its
    /// instances in insertion order.
    pub fn sprite_renderers(&self) -> (r: &Vec<Bucket>)
        ensures
            r@ == self.spec_buckets(),
    {
        &self.buckets
    }

    /// The index of the bucket for `sid`, if one exists.
    fn find_bucket(&self, sid: u64) -> (r: Option<usize>)
        ensures
            r matches Some(i) ==> i < self.spec_buckets().len()
                && self.spec_buckets()[i as int].sprite_id == sid
                && (forall|j: int| 0 <= j < i ==> (#[trigger] self.spec_buckets()[j].sprite_id) != sid)
                && spec_bucket_lookup(self.spec_buckets(), sid) == Some(
                self.spec_buckets()[i as int].renderers@,
            ),
            r is None ==> spec_bucket_lookup(self.spec_buckets(), sid) is None,
    {
        let ghost all = self.buckets@;
        let mut i: usize = 0;
        proof {
            assert(all.skip(0) =~= all);
        }
        while i < self.buckets.len()
            invariant
                i <= all.len(),
                self.buckets@ == all,
                spec_bucket_lookup(all, sid) == spec_bucket_lookup(all.skip(i as int), sid),
                forall|j: int| 0 <= j < i ==> (#[trigger] all[j].sprite_id) != sid,
            decreases all.len() - i,
        {
            proof {
                assert(all.skip(i as int)[0] == all[i as int]);
                assert(all.skip(i as int).drop_first() =~= all.skip(i + 1));
            }
            if self.buckets[i].sprite_id == sid {
                return Some(i);
            }
            i = i + 1;
        }
        proof {
            assert(all.skip(all.len() as int) =~= Seq::<Bucket>::empty());
        }
        None
    }

    /// Registers a renderer instance: appends it to the bucket for its
    /// sprite's identity, creating the bucket if absent. Returns that
    /// identity, so the caller can make sure the sprite's GPU resources
    /// exist before the next frame draws it.
    pub fn add_sprite_renderer(&mut self, renderer: SpriteRenderer) -> (sprite_id: u64)
        requires
            old(self).wf(),
        ensures
            sprite_id == renderer.spec_sprite().spec_id(),
            final(self).spec_bucket(sprite_id) == old(self).spec_bucket(sprite_id).push(renderer),
            forall|sid2: u64| sid2 != sprite_id ==> final(self).spec_bucket(sid2) == old(
                self,
            ).spec_bucket(sid2),
            final(self).spec_camera() == old(self).spec_camera(),
            final(self).wf(),
    {
        let sid = renderer.sprite().id();
        let ghost all = self.buckets@;
        match self.find_bucket(sid) {
            Some(i) => {
                let ghost ob = all[i as int];
                let slot = vstd::std_specs::vec::vec_index_mut(&mut self.buckets, i);
                slot.renderers.push(renderer);
                proof {
                    let nb = self.buckets@[i as int];
                    assert(self.buckets@ == all.update(i as int, nb));
                    assert(nb.sprite_id == sid);
                    assert(nb.renderers@ == ob.renderers@.push(renderer));
                    assert forall|id2: u64| true implies spec_bucket_lookup(
                        all.update(i as int, nb),
                        id2,
                    ) == if id2 == sid {
                        Some(nb.renderers@)
                    } else {
                        spec_bucket_lookup(all, id2)
                    } by {
                        lemma_bucket_lookup_update(all, i as int, nb, id2);
                    }
                    assert forall|j: int, k: int|
                        0 <= j < k < self.buckets@.len() implies (#[trigger] self.buckets@[j].sprite_id)
                        != (#[trigger] self.buckets@[k].sprite_id) by {
                        assert(self.buckets@[j].sprite_id == all[j].sprite_id);
                        assert(self.buckets@[k].sprite_id == all[k].sprite_id);
                    }
                }
                sid
            }
            None => {
                let mut renderers: Vec<SpriteRenderer> = Vec::new();
                renderers.push(renderer);
                let b = Bucket { sprite_id: sid, renderers };
                self.buckets.push(b);
                proof {
                    let nb = self.buckets@.last();
                    assert(self.buckets@ == all.push(nb));
                    assert(nb.renderers@ =~= Seq::<SpriteRenderer>::empty().push(renderer));
                    assert forall|id2: u64| true implies spec_bucket_lookup(all.push(nb), id2)
                        == if id2 == sid {
                        Some(nb.renderers@)
                    } else {
                        spec_bucket_lookup(all, id2)
                    } by {
                        lemma_bucket_lookup_push(all, nb, id2);
                    }
                    assert forall|j: int, k: int|
                        0 <= j < k < self.buckets@.len() implies (#[trigger] self.buckets@[j].sprite_id)
                        != (#[trigger] self.buckets@[k].sprite_id) by {
                        if k == all.len() as int {
                            if self.buckets@[j].sprite_id == sid {
                                lemma_bucket_lookup_found(all, j, sid);
                            }
                        } else {
                            assert(self.buckets@[j].sprite_id == all[j].sprite_id);
                            assert(self.buckets@[k].sprite_id == all[k].sprite_id);
                        }
                    }
                }
                sid
            }
        }
    }
    /// Unregisters an instance: drops the instance id from its sprite's
    /// bucket, keeping the remaining instances in their insertion order.
    /// Other buckets, the camera, and any cached GPU resources are left
    /// untouched — removing the last instance of a sprite does not evict
    /// its resources.
    pub fn remove_sprite_renderer(&mut self, sprite_id: u64, instance_id: u64)
        requires
            old(self).wf(),
        ensures
            final(self).spec_bucket(sprite_id) == old(self).spec_bucket(sprite_id).filter(
                |x: SpriteRenderer| x.spec_id() != instance_id,
            ),
            forall|sid2: u64| sid2 != sprite_id ==> final(self).spec_bucket(sid2) == old(
                self,
            ).spec_bucket(sid2),
            final(self).spec_camera() == old(self).spec_camera(),
            final(self).wf(),
    {
        let ghost keep = |x: SpriteRenderer| x.spec_id() != instance_id;
        let ghost all = self.buckets@;
        match self.find_bucket(sprite_id) {
            None => {
                proof {
                    reveal_with_fuel(Seq::<_>::filter, 2);
                    assert(Seq::<SpriteRenderer>::empty().filter(keep)
                        =~= Seq::<SpriteRenderer>::empty());
                }
            }
            Some(bi) => {
                let ghost ob = all[bi as int].renderers@;
                let slot = vstd::std_specs::vec::vec_index_mut(&mut self.buckets, bi);
                let mut i: usize = 0;
                let ghost mut j: int = 0int;
                proof {
                    assert(ob.subrange(0, 0) =~= Seq::<SpriteRenderer>::empty());
                    reveal_with_fuel(Seq::<_>::filter, 2);
                    assert(ob.subrange(0, 0).filter(keep) =~= Seq::<SpriteRenderer>::empty());
                    assert(ob.skip(0) =~= ob);
                    assert(slot.renderers@ =~= ob.subrange(0, 0).filter(keep) + ob.skip(0));
                }
                while i < slot.renderers.len()
                    invariant
                        slot.sprite_id == all[bi as int].sprite_id,
                        0 <= j <= ob.len(),
                        i == ob.subrange(0, j).filter(keep).len(),
                        slot.renderers@ == ob.subrange(0, j).filter(keep) + ob.skip(j),
                        keep == (|x: SpriteRenderer| x.spec_id() != instance_id),
                    decreases ob.len() - j,
                {
                    proof {
                        assert(slot.renderers@.len() == i + ob.skip(j).len());
                        assert(j < ob.len());
                        assert(slot.renderers@[i as int] == ob.skip(j)[0]);
                        assert(ob.skip(j)[0] == ob[j]);
                    }
                    if slot.renderers[i].id() == instance_id {
                        slot.renderers.remove(i);
                        proof {
                            assert(slot.renderers@ =~= ob.subrange(0, j).filter(keep) + ob.skip(
                                j + 1,
                            ));
                            lemma_filter_take_step(ob, j, keep);
                            assert(!keep(ob[j]));
                            j = j + 1;
                        }
                    } else {
                        proof {
                            lemma_filter_take_step(ob, j, keep);
                            assert(keep(ob[j]));
                            assert(ob.subrange(0, j + 1).filter(keep) == ob.subrange(0, j).filter(
                                keep,
                            ).push(ob[j]));
                            assert(slot.renderers@ =~= ob.subrange(0, j + 1).filter(keep) + ob.skip(
                                j + 1,
                            ));
                            j = j + 1;
                        }
                        i = i + 1;
                    }
                }
                proof {
                    assert(ob.skip(j).len() == 0);
                    assert(j == ob.len());
                    assert(ob.subrange(0, j) =~= ob);
                    assert(ob.skip(j) =~= Seq::<SpriteRenderer>::empty());
                    assert(slot.renderers@ =~= ob.filter(keep));
                }
                proof {
                    let nb = self.buckets@[bi as int];
                    assert(self.buckets@ == all.update(bi as int, nb));
                    assert(nb.sprite_id == sprite_id);
                    assert(nb.renderers@ == ob.filter(keep));
                    assert forall|id2: u64| true implies spec_bucket_lookup(
                        all.update(bi as int, nb),
                        id2,
                    ) == if id2 == sprite_id {
                        Some(nb.renderers@)
                    } else {
                        spec_bucket_lookup(all, id2)
                    } by {
                        lemma_bucket_lookup_update(all, bi as int, nb, id2);
                    }
                    assert forall|p: int, k: int|
                        0 <= p < k < self.buckets@.len() implies (#[trigger] self.buckets@[p].sprite_id)
                        != (#[trigger] self.buckets@[k].sprite_id) by {
                        assert(self.buckets@[p].sprite_id == all[p].sprite_id);
                        assert(self.buckets@[k].sprite_id == all[k].sprite_id);
                    }
                }
            }
        }
    }
}

/// Taking one more element into the filtered prefix appends it exactly
/// when the predicate keeps it.
proof fn lemma_filter_take_step(s: Seq<SpriteRenderer>, j: int, keep: spec_fn(SpriteRenderer) -> bool)
    requires
        0 <= j < s.len(),
    ensures
        s.subrange(0, j + 1).filter(keep) == if keep(s[j]) {
            s.subrange(0, j).filter(keep).push(s[j])
        } else {
            s.subrange(0, j).filter(keep)
        },
{
    reveal_with_fuel(Seq::<_>::filter, 2);
    let a = s.subrange(0, j);
    let b = s.subrange(0, j + 1);
    assert(b =~= a + seq![s[j]]);
    Seq::<SpriteRenderer>::filter_distributes_over_add(a, seq![s[j]], keep);
    assert(seq![s[j]].drop_last() =~= Seq::<SpriteRenderer>::empty());
    if keep(s[j]) {
        assert(seq![s[j]].filter(keep) =~= seq![s[j]]);
        assert(a.filter(keep) + seq![s[j]] =~= a.filter(keep).push(s[j]));
    } else {
        assert(seq![s[j]].filter(keep) =~= Seq::<SpriteRenderer>::empty());
        assert(a.filter(keep) + Seq::<SpriteRenderer>::empty() =~= a.filter(keep));
    }
}

/// One step of the registry's evolution: what the scene owner did.
pub enum RegOp {
    /// An instance was registered.
    Add(SpriteRenderer),
    /// The given instance id was unregistered from the given sprite
    /// identity's bucket.
    Remove(u64, u64),
}

/// The instances a bucket holds after replaying `ops` from an empty
/// registry: exactly those added for `sid` and not yet removed, in
/// insertion order.
pub open spec fn bucket_after(ops: Seq<RegOp>, sid: u64) -> Seq<SpriteRenderer>
    decreases ops.len(),
{
    if ops.len() == 0 {
        Seq::empty()
    } else {
        let pre = bucket_after(ops.drop_last(), sid);
        match ops.last() {
            RegOp::Add(r) => if r.spec_sprite().spec_id() == sid {
                pre.push(r)
            } else {
                pre
            },
            RegOp::Remove(sid2, iid) => if sid2 == sid {
                pre.filter(|x: SpriteRenderer| x.spec_id() != iid)
            } else {
                pre
            },
        }
    }
}

/// Whether `after` relates to `before` as one registry operation
/// prescribes: exactly the postcondition of `add_sprite_renderer` or
/// `remove_sprite_renderer` on the buckets.
pub open spec fn reg_step(before: GraphicsContext, op: RegOp, after: GraphicsContext) -> bool {
    match op {
        RegOp::Add(r) => {
            &&& after.spec_bucket(r.spec_sprite().spec_id()) == before.spec_bucket(
                r.spec_sprite().spec_id(),
            ).push(r)
            &&& forall|sid2: u64|
                sid2 != r.spec_sprite().spec_id() ==> after.spec_bucket(sid2) == before.spec_bucket(
                    sid2,
                )
        },
        RegOp::Remove(sid, iid) => {
            &&& after.spec_bucket(sid) == before.spec_bucket(sid).filter(
                |x: SpriteRenderer| x.spec_id() != iid,
            )
            &&& forall|sid2: u64| sid2 != sid ==> after.spec_bucket(sid2) == before.spec_bucket(
                sid2,
            )
        },
    }
}

/// Law: for any sequence of add and remove calls starting from an empty
/// registry, each sprite identity's bucket holds exactly the instances
/// added for it and not yet removed, in insertion order. `states` is the
/// chain of registry values, each related to the next by the contract of
/// the call made between them.
pub proof fn lemma_registry_tracks_operations(states: Seq<GraphicsContext>, ops: Seq<RegOp>, sid: u64)
    requires
        states.len() == ops.len() + 1,
        forall|sid2: u64| states[0].spec_bucket(sid2) == Seq::<SpriteRenderer>::empty(),
        forall|k: int| 0 <= k < ops.len() ==> reg_step(states[k], #[trigger] ops[k], states[k + 1]),
    ensures
        states.last().spec_bucket(sid) == bucket_after(ops, sid),
    decreases ops.len(),
{
    if ops.len() == 0 {
    } else {
        let n = ops.len() as int;
        lemma_registry_tracks_operations(states.drop_last(), ops.drop_last(), sid);
        assert(states.drop_last().last() == states[n - 1]);
        assert(reg_step(states[n - 1], ops[n - 1], states[n]));
        assert(ops.last() == ops[n - 1]);
        match ops.last() {
            RegOp::Add(r) => {
                if r.spec_sprite().spec_id() != sid {
                    assert(states[n].spec_bucket(sid) == states[n - 1].spec_bucket(sid));
                }
            }
            RegOp::Remove(sid2, _iid) => {
                if sid2 != sid {
                    assert(states[n].spec_bucket(sid) == states[n - 1].spec_bucket(sid));
                }
            }
        }
    }
}

} // verus!
