//! Renderer instances: placements of a sprite in the scene.
//!
//! Each instance carries its own transform and tint and references one
//! shared sprite. Instances are told apart by a random identifier drawn
//! at construction.

use vstd::prelude::*;
use crate::data::Color;
use crate::sprite::Sprite;
use crate::transform::Transform;

verus! {

/// Relies on `uuid::Uuid::new_v4`: a freshly generated random version 4
/// identifier, as its 128-bit value. Nothing is promised of the value.
#[verifier::external_body]
fn random_uuid() -> u128 {
    uuid::Uuid::new_v4().as_u128()
}

/// A placement of a sprite in the scene: a unique instance identifier,
/// a display name, a transform and a tint.
#[derive(Debug)]
pub struct SpriteRenderer {
    id: u64,
    name: String,
    transform: Transform,
    sprite: Sprite,
    color: Color,
}

impl SpriteRenderer {
    /// The instance identifier, for contracts.
    pub closed spec fn spec_id(&self) -> u64 {
        self.id
    }

    /// The display name, for contracts.
    pub closed spec fn spec_name(&self) -> Seq<char> {
        self.name@
    }

    /// The transform, for contracts.
    pub closed spec fn spec_transform(&self) -> Transform {
        self.transform
    }

    /// The referenced sprite, for contracts.
    pub closed spec fn spec_sprite(&self) -> Sprite {
        self.sprite
    }

    /// The tint, for contracts.
    pub closed spec fn spec_color(&self) -> Color {
        self.color
    }

    /// A new instance of `sprite` named `name`, at the identity
    /// transform with a white tint, under a freshly drawn random
    /// identifier (of which nothing is promised).
    pub fn new(sprite: Sprite, name: &str) -> (r: SpriteRenderer)
        ensures
            r.spec_sprite() == sprite,
            r.spec_name() == name@,
            r.spec_transform() == Transform::spec_identity(),
            r.spec_color() == Color::spec_white(),
    {
        let wide = random_uuid();
        let lo: u64 = #[verifier::truncate] (wide as u64);
        let hi: u64 = #[verifier::truncate] ((wide >> 64) as u64);
        SpriteRenderer {
            id: lo ^ hi,
            transform: Transform::new(),
            name: name.to_owned(),
            sprite,
            color: Color::new(),
        }
    }

    /// The instance identifier.
    pub fn id(&self) -> (r: u64)
        ensures
            r == self.spec_id(),
    {
        self.id
    }

    /// The display name.
    pub fn name(&self) -> (r: &str)
        ensures
            r@ == self.spec_name(),
    {
        self.name.as_str()
    }

    /// The referenced sprite.
    pub fn sprite(&self) -> (r: &Sprite)
        ensures
            *r == self.spec_sprite(),
    {
        &self.sprite
    }

    /// The transform.
    pub fn transform(&self) -> (r: &Transform)
        ensures
            *r == self.spec_transform(),
    {
        &self.transform
    }

    /// Mutable access to the transform.
    pub fn transform_mut(&mut self) -> (r: &mut Transform)
        ensures
            *r == old(self).spec_transform(),
            final(self).spec_transform() == *final(r),
            final(self).spec_id() == old(self).spec_id(),
            final(self).spec_name() == old(self).spec_name(),
            final(self).spec_sprite() == old(self).spec_sprite(),
            final(self).spec_color() == old(self).spec_color(),
    {
        &mut self.transform
    }

    /// The tint.
    pub fn color(&self) -> (r: &Color)
        ensures
            *r == self.spec_color(),
    {
        &self.color
    }

    /// Mutable access to the tint.
    pub fn color_mut(&mut self) -> (r: &mut Color)
        ensures
            *r == old(self).spec_color(),
            final(self).spec_color() == *final(r),
            final(self).spec_id() == old(self).spec_id(),
            final(self).spec_name() == old(self).spec_name(),
            final(self).spec_sprite() == old(self).spec_sprite(),
            final(self).spec_transform() == old(self).spec_transform(),
    {
        &mut self.color
    }
}

} // verus!
