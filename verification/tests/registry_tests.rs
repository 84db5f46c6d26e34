use terra::context::GraphicsContext;
use terra::fixed::{Fx, Vec2Fx, FX_ONE};
use terra::resources::{BufferId, DescriptorSetId, GraphicsResources, ImageId, SpriteResources};
use terra::sprite::{get_id, Sprite};
use terra::sprite_renderer::SpriteRenderer;
use terra::transform::Rotation;

fn sprite(path: &str) -> Sprite {
    Sprite::new(get_id(path), String::from(path))
}

fn ids_of(ctx: &GraphicsContext, sid: u64) -> Vec<u64> {
    let mut out = Vec::new();
    for bucket in ctx.sprite_renderers() {
        if bucket.sprite_id == sid {
            for r in &bucket.renderers {
                out.push(r.id());
            }
        }
    }
    out
}

#[test]
fn buckets_hold_added_instances_in_insertion_order() {
    let mut ctx = GraphicsContext::new();
    let s = sprite("./a.png");
    let first = SpriteRenderer::new(s.clone(), "first");
    let second = SpriteRenderer::new(s.clone(), "second");
    let other = SpriteRenderer::new(sprite("./b.png"), "other");
    let (fid, sid2) = (first.id(), second.id());

    let sid = ctx.add_sprite_renderer(first);
    assert_eq!(sid, s.id());
    ctx.add_sprite_renderer(second);
    let other_sid = ctx.add_sprite_renderer(other);
    assert_ne!(sid, other_sid);

    assert_eq!(ids_of(&ctx, sid), vec![fid, sid2]);
    assert_eq!(ids_of(&ctx, other_sid).len(), 1);
}

#[test]
fn removal_drops_exactly_the_removed_instance() {
    let mut ctx = GraphicsContext::new();
    let s = sprite("./a.png");
    let first = SpriteRenderer::new(s.clone(), "first");
    let second = SpriteRenderer::new(s.clone(), "second");
    let third = SpriteRenderer::new(s.clone(), "third");
    let (id1, id2, id3) = (first.id(), second.id(), third.id());
    let sid = ctx.add_sprite_renderer(first);
    ctx.add_sprite_renderer(second);
    ctx.add_sprite_renderer(third);

    ctx.remove_sprite_renderer(sid, id2);
    assert_eq!(ids_of(&ctx, sid), vec![id1, id3]);

    // Removing an unknown instance changes nothing.
    ctx.remove_sprite_renderer(sid, id2);
    assert_eq!(ids_of(&ctx, sid), vec![id1, id3]);

    ctx.remove_sprite_renderer(sid, id1);
    ctx.remove_sprite_renderer(sid, id3);
    assert_eq!(ids_of(&ctx, sid), Vec::<u64>::new());
}

#[test]
fn removing_one_of_two_instances_keeps_the_resource_and_the_sibling() {
    let mut ctx = GraphicsContext::new();
    let s = sprite("./a.png");
    let first = SpriteRenderer::new(s.clone(), "first");
    let second = SpriteRenderer::new(s.clone(), "second");
    let (id1, id2) = (first.id(), second.id());
    let sid = ctx.add_sprite_renderer(first);
    ctx.add_sprite_renderer(second);

    let mut res = GraphicsResources::new(BufferId(1));
    res.add_sprite(sid, SpriteResources::new(ImageId(10), BufferId(11), DescriptorSetId(12)));

    ctx.remove_sprite_renderer(sid, id1);

    // The sprite's GPU resources are untouched and the sibling is still
    // registered.
    let kept = res.sprite(&sid).expect("the resource must survive the removal");
    assert_eq!(kept.image(), ImageId(10));
    assert_eq!(kept.vertex_buffer(), BufferId(11));
    assert_eq!(kept.image_set(), DescriptorSetId(12));
    assert_eq!(ids_of(&ctx, sid), vec![id2]);
}

#[test]
fn resource_cache_memoizes_per_identity() {
    let mut res = GraphicsResources::new(BufferId(1));
    assert!(!res.contains(&7));
    let first = res.get_or_create(
        7,
        SpriteResources::new(ImageId(100), BufferId(101), DescriptorSetId(102)),
    );
    // A second call with the same identity returns identical handles and
    // does not overwrite them with the new candidate.
    let second = res.get_or_create(
        7,
        SpriteResources::new(ImageId(200), BufferId(201), DescriptorSetId(202)),
    );
    assert_eq!(first, second);
    assert_eq!(second.image(), ImageId(100));

    // A different identity gets its own, independent resources.
    let other = res.get_or_create(
        8,
        SpriteResources::new(ImageId(300), BufferId(301), DescriptorSetId(302)),
    );
    assert_eq!(other.image(), ImageId(300));
    assert_eq!(res.sprite(&7).unwrap().image(), ImageId(100));
    assert_eq!(res.sprite(&8).unwrap().image(), ImageId(300));
}

#[test]
fn resource_cache_eviction_is_per_identity() {
    let mut res = GraphicsResources::new(BufferId(1));
    res.add_sprite(7, SpriteResources::new(ImageId(100), BufferId(101), DescriptorSetId(102)));
    res.add_sprite(8, SpriteResources::new(ImageId(200), BufferId(201), DescriptorSetId(202)));
    res.remove_sprite(&7);
    assert!(res.sprite(&7).is_none());
    assert_eq!(res.sprite(&8).unwrap().image(), ImageId(200));
    assert_eq!(res.sprite_index_buffer(), BufferId(1));
}

#[test]
fn renderer_instance_carries_its_parts() {
    let s = sprite("./a.png");
    let mut r = SpriteRenderer::new(s, "Gengar");
    assert_eq!(r.name(), "Gengar");
    assert_eq!(r.sprite().id(), get_id("./a.png"));
    assert_eq!(r.transform().position(), Vec2Fx::zeros());
    assert_eq!(r.transform().scale().x.raw(), FX_ONE);
    assert_eq!(r.color().get().0.raw(), FX_ONE);

    r.transform_mut().set_position(Vec2Fx::new(Fx::from_int(2), Fx::from_int(0)));
    assert_eq!(r.transform().position().x.raw(), 2 * FX_ONE);
    r.color_mut().set(Fx::zero(), Fx::one(), Fx::zero());
    assert_eq!(r.color().get().1.raw(), FX_ONE);
    assert_eq!(r.color().get().0.raw(), 0);
}

#[test]
fn transform_translate_and_rotate_accumulate() {
    let s = sprite("./a.png");
    let mut r = SpriteRenderer::new(s, "mover");
    let t = r.transform_mut();
    t.translate(&Vec2Fx::new(Fx::from_int(1), Fx::from_int(2)));
    t.translate(&Vec2Fx::new(Fx::from_int(1), Fx::from_int(-1)));
    assert_eq!(t.position().x.raw(), 2 * FX_ONE);
    assert_eq!(t.position().y.raw(), FX_ONE);

    // Turning by ninety degrees: the caller samples cosine and sine.
    let quarter = Rotation::from_parts(Fx::from_int(90), Fx::zero(), Fx::one());
    let angle = t.rotate(Fx::from_int(90), quarter);
    assert_eq!(angle.raw(), 90 * FX_ONE);
    assert_eq!(t.rotation().raw(), 90 * FX_ONE);
}
