use vstd::prelude::*;

use crate::bitsets::{single_flag, BitSet, Flag};
use macroquad::color::Color;
use macroquad::math::Vec2;
use macroquad::texture::Texture2D;
use rapier2d::dynamics::RigidBodyHandle;
use rapier2d::geometry::ColliderHandle;

verus! {

/// A required-flags pattern: an entity matches when it has every flag of it.
pub type Query = BitSet;

pub const TEXTURE: Flag = 1;

pub const RIGIDBODY: Flag = 2;

pub const COLLIDER: Flag = 4;

pub const FIXED_COLLIDER: Flag = 8;

pub const PLAYER: Flag = 16;

pub const NUM_COMPONENTS: usize = 5;

/// The flags that are backed by a component container; `FIXED_COLLIDER` is a
/// tag with no container of its own.
pub const STORED_FLAGS: Flag = 23;

/// The flag of every component kind, in order.
pub fn every_component() -> (r: Vec<Flag>)
    ensures
        r@.len() == NUM_COMPONENTS,
        forall|i: int| 0 <= i < NUM_COMPONENTS ==> r@[i] == single_flag(i as u32),
{
    let mut r: Vec<Flag> = Vec::new();
    let mut i: usize = 0;
    while i < NUM_COMPONENTS
        invariant
            i <= NUM_COMPONENTS,
            r@.len() == i,
            forall|j: int| 0 <= j < i ==> r@[j] == single_flag(j as u32),
        decreases NUM_COMPONENTS - i,
    {
        r.push(1u32 << (i as u32));
        i = i + 1;
    }
    r
}

#[verifier::external_type_specification]
#[verifier::external_body]
pub struct ExTexture2D(Texture2D);

#[verifier::external_type_specification]
#[verifier::external_body]
pub struct ExVec2(Vec2);

#[verifier::external_type_specification]
#[verifier::external_body]
pub struct ExColor(Color);

#[verifier::external_type_specification]
#[verifier::external_body]
pub struct ExRigidBodyHandle(RigidBodyHandle);

#[verifier::external_type_specification]
#[verifier::external_body]
pub struct ExColliderHandle(ColliderHandle);

/// A sprite: the texture drawn, its size and its tint.
#[derive(Clone, Copy)]
pub struct TextureComponent {
    pub texture: Texture2D,
    pub size: Vec2,
    pub color: Color,
}

/// The physics body that moves an entity.
#[derive(Clone, Copy)]
pub struct RigidbodyComponent {
    pub rigidbody_handle: RigidBodyHandle,
}

/// The physics collider attached to an entity's body.
#[derive(Clone, Copy)]
pub struct ColliderComponent {
    pub collider_handle: ColliderHandle,
}

/// Marks the entity that the player controls.
#[derive(Clone, Copy, Default)]
pub struct PlayerComponent {}

} // verus!
