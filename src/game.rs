use vstd::prelude::*;

use crate::bitsets::{BitSet, Flag};
use crate::components::{
    ColliderComponent, PlayerComponent, Query, RigidbodyComponent, TextureComponent, COLLIDER,
    FIXED_COLLIDER, PLAYER, RIGIDBODY, STORED_FLAGS, TEXTURE,
};
use crate::storage::{
    collider_table, colliders_get, colliders_insert, colliders_remove, colliders_with_capacity,
    entities_get, entities_insert, entities_keys, entities_len, entities_remove, entities_set,
    entities_with_capacity, entity_retired, entity_table, label_table, labels_get, labels_insert, labels_remove,
    labels_with_capacity, lookup, slot_of, LabelMap, one_key_per_slot, player_table,
    players_insert, players_remove, players_with_capacity, rigidbodies_get, rigidbodies_insert,
    rigidbodies_remove, rigidbodies_with_capacity, rigidbody_table, texture_table, textures_get,
    textures_insert, textures_remove, textures_with_capacity, ColliderMap, Entity, EntityMap,
    PlayerMap, RigidbodyMap, TextureMap,
};
use rapier2d::dynamics::{RigidBody, RigidBodyBuilder, RigidBodyHandle, RigidBodySet};
use rapier2d::geometry::{Collider, ColliderHandle, ColliderSet};

verus! {

pub const MAX_ENTITIES: usize = 2000;

pub const SINGLE_COMPONENT: usize = 1;

pub const BARELY_ANY_COMPONENTS: usize = 4;

pub const NOT_SO_MANY_COMPONENTS: usize = 100;

pub const MANY_COMPONENTS: usize = MAX_ENTITIES;

#[verifier::external_type_specification]
#[verifier::external_body]
pub struct ExRigidBody(RigidBody);

#[verifier::external_type_specification]
#[verifier::external_body]
pub struct ExCollider(Collider);

#[verifier::external_type_specification]
#[verifier::external_body]
pub struct ExRigidBodySet(RigidBodySet);

#[verifier::external_type_specification]
#[verifier::external_body]
pub struct ExColliderSet(ColliderSet);

/// The bodies of a body set, by handle, each with whether it is fixed.
pub uninterp spec fn physics_bodies(s: RigidBodySet) -> Map<RigidBodyHandle, bool>;

/// The colliders of a collider set, by handle, each with its parent body.
pub uninterp spec fn physics_colliders(s: ColliderSet) -> Map<ColliderHandle, Option<RigidBodyHandle>>;

/// Relies on RigidBodySet::new: a new set holds no body.
#[verifier::external_body]
fn new_body_set() -> (r: RigidBodySet)
    ensures
        physics_bodies(r).dom() == Set::<RigidBodyHandle>::empty(),
{
    RigidBodySet::new()
}

/// Relies on ColliderSet::new: a new set holds no collider.
#[verifier::external_body]
fn new_collider_set() -> (r: ColliderSet)
    ensures
        physics_colliders(r).dom() == Set::<ColliderHandle>::empty(),
{
    ColliderSet::new()
}

/// Relies on RigidBodySet::insert, which stores the body under a handle that
/// no stored body has, then ColliderSet::insert_with_parent on that handle
/// (which therefore names a body of the set, as insert_with_parent demands),
/// which stores the collider under a new handle with that body as parent.
/// Neither changes whether another body is fixed, nor another collider.
#[verifier::external_body]
fn insert_body_with_collider(
    bodies: &mut RigidBodySet,
    colliders: &mut ColliderSet,
    body: RigidBody,
    collider: Collider,
) -> (r: (RigidBodyHandle, ColliderHandle))
    ensures
        !physics_bodies(*old(bodies)).contains_key(r.0),
        physics_bodies(*final(bodies)).dom() == physics_bodies(*old(bodies)).dom().insert(r.0),
        forall|h: RigidBodyHandle|
            #[trigger] physics_bodies(*old(bodies)).contains_key(h) ==> physics_bodies(*final(bodies))[h]
                == physics_bodies(*old(bodies))[h],
        !physics_colliders(*old(colliders)).contains_key(r.1),
        physics_colliders(*final(colliders)) == physics_colliders(*old(colliders)).insert(r.1, Some(r.0)),
{
    let body_handle = bodies.insert(body);
    let collider_handle = colliders.insert_with_parent(collider, body_handle, bodies);
    (body_handle, collider_handle)
}

/// As `insert_body_with_collider`, for a body made by
/// RigidBodyBuilder::fixed and RigidBodyBuilder::build: the stored body is
/// fixed, and RigidBodySet::insert keeps its body type.
#[verifier::external_body]
fn insert_fixed_body_with_collider(
    bodies: &mut RigidBodySet,
    colliders: &mut ColliderSet,
    collider: Collider,
) -> (r: (RigidBodyHandle, ColliderHandle))
    ensures
        !physics_bodies(*old(bodies)).contains_key(r.0),
        physics_bodies(*final(bodies)) == physics_bodies(*old(bodies)).insert(r.0, true),
        !physics_colliders(*old(colliders)).contains_key(r.1),
        physics_colliders(*final(colliders)) == physics_colliders(*old(colliders)).insert(r.1, Some(r.0)),
{
    let body_handle = bodies.insert(RigidBodyBuilder::fixed().build());
    let collider_handle = colliders.insert_with_parent(collider, body_handle, bodies);
    (body_handle, collider_handle)
}

/// Whether an entity with `flags` matches query `q`: `q` is a subset of `flags`.
pub open spec fn matches(q: BitSet, flags: BitSet) -> bool {
    flags@ & q@ == q@
}

/// Whether `flags` holds every bit of `f`.
pub open spec fn has_flag(flags: BitSet, f: Flag) -> bool {
    flags@ & f == f
}

/// Whether the entity of key `id` is live in `table` and matches `q`.
pub open spec fn selects(table: Map<u64, BitSet>, q: BitSet, id: u64) -> bool {
    table.contains_key(id) && matches(q, table[id])
}

/// `new` is `old` with the flags of `id` replaced by a set of bits `bits`.
pub open spec fn flags_changed(old: Map<u64, BitSet>, new: Map<u64, BitSet>, id: u64, bits: u32) -> bool {
    &&& new.dom() == old.dom()
    &&& new[id]@ == bits
    &&& forall|k: u64| k != id && #[trigger] old.contains_key(k) ==> new[k] == old[k]
}

/// `new` stores, as the rigidbody and collider components of `id`, the
/// handles of a body and a collider that were just added to the physics
/// sets, the collider attached to that body; no other component entry, body
/// or collider changed.
pub open spec fn physics_added(old: Game, new: Game, id: u64) -> bool {
    let hb = new.rigidbodies()[id].rigidbody_handle;
    let hc = new.colliders()[id].collider_handle;
    &&& new.rigidbodies() == old.rigidbodies().insert(id, (RigidbodyComponent { rigidbody_handle: hb }))
    &&& new.colliders() == old.colliders().insert(id, (ColliderComponent { collider_handle: hc }))
    &&& !old.bodies().contains_key(hb)
    &&& new.bodies().dom() == old.bodies().dom().insert(hb)
    &&& forall|h: RigidBodyHandle|
        #[trigger] old.bodies().contains_key(h) ==> new.bodies()[h]
            == old.bodies()[h]
    &&& !old.collider_parents().contains_key(hc)
    &&& new.collider_parents() == old.collider_parents().insert(hc, Some(hb))
}

/// A flag is set for a live entity exactly when its container holds a value
/// for that entity.
pub open spec fn paired<V>(table: Map<u64, BitSet>, container: Map<u64, V>, f: Flag) -> bool {
    forall|k: u64|
        #![trigger container.contains_key(k)]
        #![trigger table.contains_key(k)]
        container.contains_key(k) <==> (table.contains_key(k) && has_flag(table[k], f))
}

proof fn lemma_flag_constants()
    by (bit_vector)
    ensures
        1u32 & 1u32 == 1u32,
        1u32 & 2u32 == 0u32,
        1u32 & 4u32 == 0u32,
        1u32 & 16u32 == 0u32,
        2u32 & 1u32 == 0u32,
        2u32 & 2u32 == 2u32,
        2u32 & 4u32 == 0u32,
        2u32 & 16u32 == 0u32,
        4u32 & 1u32 == 0u32,
        4u32 & 2u32 == 0u32,
        4u32 & 4u32 == 4u32,
        4u32 & 16u32 == 0u32,
        8u32 & 1u32 == 0u32,
        8u32 & 2u32 == 0u32,
        8u32 & 4u32 == 0u32,
        8u32 & 16u32 == 0u32,
        16u32 & 1u32 == 0u32,
        16u32 & 2u32 == 0u32,
        16u32 & 4u32 == 0u32,
        16u32 & 16u32 == 16u32,
{
}

proof fn lemma_or_flag(x: u32, f: u32, c: u32)
    by (bit_vector)
    ensures
        f & c == 0u32 ==> (((x | f) & c == c) == (x & c == c)),
        f & c == c ==> (x | f) & c == c,
{
}

proof fn lemma_and_not_flag(x: u32, f: u32, c: u32)
    by (bit_vector)
    ensures
        f & c == 0u32 ==> (((x & !f) & c == c) == (x & c == c)),
{
}

proof fn lemma_unstored(f: u32)
    by (bit_vector)
    requires
        f & 23u32 == 0u32,
    ensures
        f & 1u32 == 0u32,
        f & 2u32 == 0u32,
        f & 4u32 == 0u32,
        f & 16u32 == 0u32,
{
}

proof fn lemma_empty_flags(c: u32)
    by (bit_vector)
    requires
        c != 0u32,
    ensures
        0u32 & c != c,
{
}

/// The world of the scene: live entities with their component flags, the
/// component containers, and the physics sets that the physics components
/// refer to.
pub struct Game {
    entities: EntityMap,
    label_container: LabelMap,
    texture_container: TextureMap,
    rigidbody_container: RigidbodyMap,
    collider_container: ColliderMap,
    player_container: PlayerMap,
    pub rigid_body_set: RigidBodySet,
    pub collider_set: ColliderSet,
}

impl Game {
    /// Live entities by key, with their flags.
    pub closed spec fn flags(&self) -> Map<u64, BitSet> {
        entity_table(self.entities)
    }

    /// The handle most recently removed from each slot of the registry.
    pub closed spec fn retired(&self) -> Set<u64> {
        entity_retired(self.entities)
    }

    /// The diagnostic label of each live entity.
    pub closed spec fn labels(&self) -> Map<u64, &'static str> {
        label_table(self.label_container)
    }

    /// The bodies of the physics body set, each with whether it is fixed.
    pub closed spec fn bodies(&self) -> Map<RigidBodyHandle, bool> {
        physics_bodies(self.rigid_body_set)
    }

    /// The colliders of the physics collider set, each with its parent.
    pub closed spec fn collider_parents(&self) -> Map<ColliderHandle, Option<RigidBodyHandle>> {
        physics_colliders(self.collider_set)
    }

    pub closed spec fn textures(&self) -> Map<u64, TextureComponent> {
        texture_table(self.texture_container)
    }

    pub closed spec fn rigidbodies(&self) -> Map<u64, RigidbodyComponent> {
        rigidbody_table(self.rigidbody_container)
    }

    pub closed spec fn colliders(&self) -> Map<u64, ColliderComponent> {
        collider_table(self.collider_container)
    }

    pub closed spec fn players(&self) -> Map<u64, PlayerComponent> {
        player_table(self.player_container)
    }

    /// Every container agrees with the flags of the live entities.
    pub open spec fn wf(&self) -> bool {
        &&& self.flags().dom().finite()
        &&& one_key_per_slot(self.flags())
        &&& forall|k: u64|
            #![trigger self.labels().contains_key(k)]
            #![trigger self.flags().contains_key(k)]
            self.labels().contains_key(k) <==> self.flags().contains_key(k)
        &&& paired(self.flags(), self.textures(), TEXTURE)
        &&& paired(self.flags(), self.rigidbodies(), RIGIDBODY)
        &&& paired(self.flags(), self.colliders(), COLLIDER)
        &&& paired(self.flags(), self.players(), PLAYER)
    }
}


impl Game {
    /// An empty world, with containers sized for the scene.
    pub fn new() -> (r: Self)
        ensures
            r.wf(),
            r.flags().dom() == Set::<u64>::empty(),
            r.labels().dom() == Set::<u64>::empty(),
            r.textures().dom() == Set::<u64>::empty(),
            r.rigidbodies().dom() == Set::<u64>::empty(),
            r.colliders().dom() == Set::<u64>::empty(),
            r.players().dom() == Set::<u64>::empty(),
            r.bodies().dom() == Set::<RigidBodyHandle>::empty(),
            r.collider_parents().dom() == Set::<ColliderHandle>::empty(),
    {
        let r = Game {
            entities: entities_with_capacity(MAX_ENTITIES),
            label_container: labels_with_capacity(MANY_COMPONENTS),
            texture_container: textures_with_capacity(NOT_SO_MANY_COMPONENTS),
            rigidbody_container: rigidbodies_with_capacity(MANY_COMPONENTS),
            collider_container: colliders_with_capacity(MANY_COMPONENTS),
            player_container: players_with_capacity(SINGLE_COMPONENT),
            rigid_body_set: new_body_set(),
            collider_set: new_collider_set(),
        };
        assert(r.flags().dom().finite());
        r
    }

    /// Creates an entity with no flags and records its label, which names
    /// the entity for diagnostics only.
    pub fn new_entity(&mut self, label: &'static str) -> (r: Entity)
        requires
            old(self).wf(),
            old(self).flags().len() < MAX_ENTITIES,
        ensures
            final(self).bodies() == old(self).bodies(),
            final(self).retired() == old(self).retired(),
            final(self).collider_parents() == old(self).collider_parents(),
            final(self).wf(),
            !old(self).flags().contains_key(r@),
            !old(self).retired().contains(r@),
            final(self).flags() == old(self).flags().insert(r@, BitSet::empty_spec()),
            final(self).flags()[r@]@ == 0,
            final(self).labels() == old(self).labels().insert(r@, label),
            final(self).textures() == old(self).textures(),
            final(self).rigidbodies() == old(self).rigidbodies(),
            final(self).colliders() == old(self).colliders(),
            final(self).players() == old(self).players(),
    {
        let r = entities_insert(&mut self.entities, BitSet::empty());
        proof {
            use_type_invariant(&r);
        }
        labels_insert(&mut self.label_container, r, label);
        proof {
            lemma_empty_flags(TEXTURE);
            lemma_empty_flags(RIGIDBODY);
            lemma_empty_flags(COLLIDER);
            lemma_empty_flags(PLAYER);
        }
        r
    }

    /// Removes an entity together with every component stored for it.
    pub fn remove_entity(&mut self, entity: Entity)
        requires
            old(self).wf(),
        ensures
            final(self).bodies() == old(self).bodies(),
            old(self).flags().contains_key(entity@) ==> final(self).retired() == old(self).retired().filter(
                |k: u64| slot_of(k) != slot_of(entity@),
            ).insert(entity@),
            !old(self).flags().contains_key(entity@) ==> final(self).retired() == old(self).retired(),
            final(self).collider_parents() == old(self).collider_parents(),
            final(self).wf(),
            final(self).flags() == old(self).flags().remove(entity@),
            final(self).labels() == old(self).labels().remove(entity@),
            final(self).textures() == old(self).textures().remove(entity@),
            final(self).rigidbodies() == old(self).rigidbodies().remove(entity@),
            final(self).colliders() == old(self).colliders().remove(entity@),
            final(self).players() == old(self).players().remove(entity@),
    {
        proof {
            use_type_invariant(&entity);
        }
        entities_remove(&mut self.entities, entity);
        labels_remove(&mut self.label_container, entity);
        textures_remove(&mut self.texture_container, entity);
        rigidbodies_remove(&mut self.rigidbody_container, entity);
        colliders_remove(&mut self.collider_container, entity);
        players_remove(&mut self.player_container, entity);
    }
}


impl Game {
    /// Sets the bits of `flag` for a live entity, leaving the containers as
    /// they are; the caller restores the pairing.
    fn include_flags(&mut self, entity: Entity, flag: Flag)
        requires
            old(self).flags().contains_key(entity@),
        ensures
            final(self).bodies() == old(self).bodies(),
            final(self).retired() == old(self).retired(),
            final(self).collider_parents() == old(self).collider_parents(),
            flags_changed(old(self).flags(), final(self).flags(), entity@, old(self).flags()[entity@]@ | flag),
            final(self).flags() == old(self).flags().insert(entity@, final(self).flags()[entity@]),
            final(self).labels() == old(self).labels(),
            final(self).textures() == old(self).textures(),
            final(self).rigidbodies() == old(self).rigidbodies(),
            final(self).colliders() == old(self).colliders(),
            final(self).players() == old(self).players(),
    {
        proof {
            use_type_invariant(&entity);
        }
        let current = entities_get(&self.entities, entity);
        let mut bits = current.unwrap();
        bits.include_flag(flag);
        entities_set(&mut self.entities, entity, bits);
        assert(self.flags().dom() =~= old(self).flags().dom());
    }

    /// Sets a tag flag, one that no container backs, for a live entity.
    pub fn add_flag(&mut self, entity: Entity, flag: Flag)
        requires
            old(self).wf(),
            old(self).flags().contains_key(entity@),
            flag & STORED_FLAGS == 0,
        ensures
            final(self).bodies() == old(self).bodies(),
            final(self).retired() == old(self).retired(),
            final(self).collider_parents() == old(self).collider_parents(),
            final(self).wf(),
            final(self).labels() == old(self).labels(),
            flags_changed(old(self).flags(), final(self).flags(), entity@, old(self).flags()[entity@]@ | flag),
            final(self).textures() == old(self).textures(),
            final(self).rigidbodies() == old(self).rigidbodies(),
            final(self).colliders() == old(self).colliders(),
            final(self).players() == old(self).players(),
    {
        self.include_flags(entity, flag);
        proof {
            let x = old(self).flags()[entity@]@;
            lemma_unstored(flag);
            lemma_or_flag(x, flag, TEXTURE);
            lemma_or_flag(x, flag, RIGIDBODY);
            lemma_or_flag(x, flag, COLLIDER);
            lemma_or_flag(x, flag, PLAYER);
        }
    }

    /// Clears a tag flag, one that no container backs, for a live entity.
    pub fn remove_flag(&mut self, entity: Entity, flag: Flag)
        requires
            old(self).wf(),
            old(self).flags().contains_key(entity@),
            flag & STORED_FLAGS == 0,
        ensures
            final(self).bodies() == old(self).bodies(),
            final(self).retired() == old(self).retired(),
            final(self).collider_parents() == old(self).collider_parents(),
            final(self).wf(),
            final(self).labels() == old(self).labels(),
            flags_changed(old(self).flags(), final(self).flags(), entity@, old(self).flags()[entity@]@ & !flag),
            final(self).textures() == old(self).textures(),
            final(self).rigidbodies() == old(self).rigidbodies(),
            final(self).colliders() == old(self).colliders(),
            final(self).players() == old(self).players(),
    {
        proof {
            use_type_invariant(&entity);
        }
        let current = entities_get(&self.entities, entity);
        let mut bits = current.unwrap();
        bits.exclude_flag(flag);
        entities_set(&mut self.entities, entity, bits);
        assert(self.flags().dom() =~= old(self).flags().dom());
        proof {
            let x = old(self).flags()[entity@]@;
            lemma_unstored(flag);
            lemma_and_not_flag(x, flag, TEXTURE);
            lemma_and_not_flag(x, flag, RIGIDBODY);
            lemma_and_not_flag(x, flag, COLLIDER);
            lemma_and_not_flag(x, flag, PLAYER);
        }
    }

    /// Attaches a texture to a live entity, replacing an earlier one, and
    /// sets its `TEXTURE` flag.
    pub fn add_texture(&mut self, entity: Entity, component: TextureComponent)
        requires
            old(self).wf(),
            old(self).flags().contains_key(entity@),
        ensures
            final(self).bodies() == old(self).bodies(),
            final(self).retired() == old(self).retired(),
            final(self).collider_parents() == old(self).collider_parents(),
            final(self).wf(),
            final(self).labels() == old(self).labels(),
            flags_changed(old(self).flags(), final(self).flags(), entity@, old(self).flags()[entity@]@ | TEXTURE),
            final(self).textures() == old(self).textures().insert(entity@, component),
            final(self).rigidbodies() == old(self).rigidbodies(),
            final(self).colliders() == old(self).colliders(),
            final(self).players() == old(self).players(),
    {
        proof {
            use_type_invariant(&entity);
        }
        textures_insert(&mut self.texture_container, entity, component);
        self.include_flags(entity, TEXTURE);
        proof {
            let x = old(self).flags()[entity@]@;
            lemma_flag_constants();
            lemma_or_flag(x, TEXTURE, TEXTURE);
            lemma_or_flag(x, TEXTURE, RIGIDBODY);
            lemma_or_flag(x, TEXTURE, COLLIDER);
            lemma_or_flag(x, TEXTURE, PLAYER);
        }
    }

    /// Marks a live entity as the player's and sets its `PLAYER` flag.
    pub fn add_player_component(&mut self, entity: Entity, component: PlayerComponent)
        requires
            old(self).wf(),
            old(self).flags().contains_key(entity@),
        ensures
            final(self).bodies() == old(self).bodies(),
            final(self).retired() == old(self).retired(),
            final(self).collider_parents() == old(self).collider_parents(),
            final(self).wf(),
            final(self).labels() == old(self).labels(),
            flags_changed(old(self).flags(), final(self).flags(), entity@, old(self).flags()[entity@]@ | PLAYER),
            final(self).players() == old(self).players().insert(entity@, component),
            final(self).textures() == old(self).textures(),
            final(self).rigidbodies() == old(self).rigidbodies(),
            final(self).colliders() == old(self).colliders(),
    {
        proof {
            use_type_invariant(&entity);
        }
        players_insert(&mut self.player_container, entity, component);
        self.include_flags(entity, PLAYER);
        proof {
            let x = old(self).flags()[entity@]@;
            lemma_flag_constants();
            lemma_or_flag(x, PLAYER, TEXTURE);
            lemma_or_flag(x, PLAYER, RIGIDBODY);
            lemma_or_flag(x, PLAYER, COLLIDER);
            lemma_or_flag(x, PLAYER, PLAYER);
        }
    }

    /// Stores the given physics handles as the entity's rigidbody and
    /// collider components, replacing earlier ones, and sets `RIGIDBODY` and
    /// `COLLIDER`.
    pub fn attach_physics(
        &mut self,
        entity: Entity,
        rigidbody_handle: RigidBodyHandle,
        collider_handle: ColliderHandle,
    )
        requires
            old(self).wf(),
            old(self).flags().contains_key(entity@),
        ensures
            final(self).wf(),
            final(self).labels() == old(self).labels(),
            final(self).retired() == old(self).retired(),
            flags_changed(
                old(self).flags(),
                final(self).flags(),
                entity@,
                old(self).flags()[entity@]@ | RIGIDBODY | COLLIDER,
            ),
            final(self).rigidbodies() == old(self).rigidbodies().insert(
                entity@,
                (RigidbodyComponent { rigidbody_handle }),
            ),
            final(self).colliders() == old(self).colliders().insert(
                entity@,
                (ColliderComponent { collider_handle }),
            ),
            final(self).textures() == old(self).textures(),
            final(self).players() == old(self).players(),
            final(self).bodies() == old(self).bodies(),
            final(self).retired() == old(self).retired(),
            final(self).collider_parents() == old(self).collider_parents(),
    {
        proof {
            use_type_invariant(&entity);
        }
        rigidbodies_insert(&mut self.rigidbody_container, entity, RigidbodyComponent { rigidbody_handle });
        colliders_insert(&mut self.collider_container, entity, ColliderComponent { collider_handle });
        self.include_flags(entity, RIGIDBODY);
        self.include_flags(entity, COLLIDER);
        proof {
            let x = old(self).flags()[entity@]@;
            let y = x | RIGIDBODY;
            lemma_flag_constants();
            lemma_or_flag(x, RIGIDBODY, TEXTURE);
            lemma_or_flag(x, RIGIDBODY, RIGIDBODY);
            lemma_or_flag(x, RIGIDBODY, COLLIDER);
            lemma_or_flag(x, RIGIDBODY, PLAYER);
            lemma_or_flag(y, COLLIDER, TEXTURE);
            lemma_or_flag(y, COLLIDER, RIGIDBODY);
            lemma_or_flag(y, COLLIDER, COLLIDER);
            lemma_or_flag(y, COLLIDER, PLAYER);
        }
    }

    /// Adds `rigid_body` and `collider` to the physics sets, the collider
    /// attached to the body, and attaches the two new handles to the entity
    /// as `attach_physics` does.
    pub fn add_physics(&mut self, entity: Entity, rigid_body: RigidBody, collider: Collider)
        requires
            old(self).wf(),
            old(self).flags().contains_key(entity@),
        ensures
            final(self).wf(),
            final(self).labels() == old(self).labels(),
            final(self).retired() == old(self).retired(),
            flags_changed(
                old(self).flags(),
                final(self).flags(),
                entity@,
                old(self).flags()[entity@]@ | RIGIDBODY | COLLIDER,
            ),
            physics_added(*old(self), *final(self), entity@),
            final(self).textures() == old(self).textures(),
            final(self).players() == old(self).players(),
    {
        let (rigidbody_handle, collider_handle) = insert_body_with_collider(
            &mut self.rigid_body_set,
            &mut self.collider_set,
            rigid_body,
            collider,
        );
        self.attach_physics(entity, rigidbody_handle, collider_handle);
    }

    /// Gives a live entity a new fixed body with `collider` attached, stores
    /// their handles as `add_physics` does, and also sets the
    /// `FIXED_COLLIDER` tag.
    pub fn add_fixed_collider(&mut self, entity: Entity, collider: Collider)
        requires
            old(self).wf(),
            old(self).flags().contains_key(entity@),
        ensures
            final(self).wf(),
            final(self).labels() == old(self).labels(),
            final(self).retired() == old(self).retired(),
            flags_changed(
                old(self).flags(),
                final(self).flags(),
                entity@,
                old(self).flags()[entity@]@ | RIGIDBODY | COLLIDER | FIXED_COLLIDER,
            ),
            physics_added(*old(self), *final(self), entity@),
            final(self).bodies()[final(self).rigidbodies()[entity@].rigidbody_handle],
            final(self).textures() == old(self).textures(),
            final(self).players() == old(self).players(),
    {
        let (rigidbody_handle, collider_handle) = insert_fixed_body_with_collider(
            &mut self.rigid_body_set,
            &mut self.collider_set,
            collider,
        );
        self.attach_physics(entity, rigidbody_handle, collider_handle);
        proof {
            lemma_flag_constants();
            assert(FIXED_COLLIDER & STORED_FLAGS == 0) by (bit_vector);
        }
        self.add_flag(entity, FIXED_COLLIDER);
    }
}


impl Game {
    /// The number of live entities.
    pub fn entity_count(&self) -> (r: usize)
        requires
            self.wf(),
        ensures
            r == self.flags().len(),
    {
        entities_len(&self.entities)
    }

    /// The flags of an entity, or `None` once it is removed.
    pub fn flags_of(&self, entity: Entity) -> (r: Option<BitSet>)
        ensures
            r == lookup(self.flags(), entity@),
    {
        proof {
            use_type_invariant(&entity);
        }
        entities_get(&self.entities, entity)
    }

    /// The label an entity was created with, or `None` once it is removed.
    pub fn label(&self, entity: Entity) -> (r: Option<&'static str>)
        ensures
            r == lookup(self.labels(), entity@),
    {
        proof {
            use_type_invariant(&entity);
        }
        labels_get(&self.label_container, entity)
    }

    /// The texture stored for an entity, if any.
    pub fn texture(&self, entity: Entity) -> (r: Option<TextureComponent>)
        ensures
            r == lookup(self.textures(), entity@),
    {
        proof {
            use_type_invariant(&entity);
        }
        textures_get(&self.texture_container, entity)
    }

    /// The rigidbody stored for an entity, if any.
    pub fn rigidbody(&self, entity: Entity) -> (r: Option<RigidbodyComponent>)
        ensures
            r == lookup(self.rigidbodies(), entity@),
    {
        proof {
            use_type_invariant(&entity);
        }
        rigidbodies_get(&self.rigidbody_container, entity)
    }

    /// The collider stored for an entity, if any.
    pub fn collider(&self, entity: Entity) -> (r: Option<ColliderComponent>)
        ensures
            r == lookup(self.colliders(), entity@),
    {
        proof {
            use_type_invariant(&entity);
        }
        colliders_get(&self.collider_container, entity)
    }

    /// Every live entity whose flags hold all flags of `q`, each once, by a
    /// scan of all live entities.
    pub fn query(&self, q: Query) -> (r: Vec<Entity>)
        requires
            self.wf(),
        ensures
            forall|i: int| 0 <= i < r@.len() ==> selects(self.flags(), q, #[trigger] r@[i]@),
            forall|id: u64|
                #[trigger] selects(self.flags(), q, id) ==> exists|i: int| 0 <= i < r@.len() && r@[i]@ == id,
            forall|i: int, j: int| 0 <= i < j < r@.len() ==> r@[i]@ != r@[j]@,
    {
        let keys = entities_keys(&self.entities);
        let mut r: Vec<Entity> = Vec::new();
        let mut i: usize = 0;
        while i < keys.len()
            invariant
                i <= keys@.len(),
                forall|a: int, b: int| 0 <= a < b < keys@.len() ==> keys@[a]@ != keys@[b]@,
                forall|a: int| 0 <= a < keys@.len() ==> self.flags().contains_key(#[trigger] keys@[a]@),
                forall|k: u64|
                    self.flags().contains_key(k) ==> exists|a: int| 0 <= a < keys@.len() && #[trigger] keys@[a]@ == k,
                forall|j: int| 0 <= j < r@.len() ==> selects(self.flags(), q, #[trigger] r@[j]@),
                forall|j: int|
                    #![trigger r@[j]]
                    0 <= j < r@.len() ==> exists|a: int| 0 <= a < i && #[trigger] keys@[a]@ == r@[j]@,
                forall|a: int|
                    0 <= a < i && selects(self.flags(), q, #[trigger] keys@[a]@) ==> exists|j: int|
                        0 <= j < r@.len() && r@[j]@ == keys@[a]@,
                forall|x: int, y: int| 0 <= x < y < r@.len() ==> r@[x]@ != r@[y]@,
            decreases keys@.len() - i,
        {
            let k = keys[i];
            proof {
                use_type_invariant(&k);
            }
            let found = entities_get(&self.entities, k);
            match found {
                Some(bits) => {
                    if q.is_subset_of(&bits) {
                        let ghost old_r = r@;
                        r.push(k);
                        proof {
                            assert forall|j: int|
                                #![trigger r@[j]]
                                0 <= j < r@.len() implies exists|a: int|
                                0 <= a < i + 1 && #[trigger] keys@[a]@ == r@[j]@ by {
                                if j < old_r.len() {
                                    assert(r@[j] == old_r[j]);
                                } else {
                                    assert(keys@[i as int]@ == r@[j]@);
                                }
                            }
                            assert forall|x: int, y: int| 0 <= x < y < r@.len() implies r@[x]@ != r@[y]@ by {
                                if y == old_r.len() {
                                    let a = choose|a: int| 0 <= a < i && #[trigger] keys@[a]@ == old_r[x]@;
                                    assert(keys@[a]@ != keys@[i as int]@);
                                }
                            }
                            assert forall|a: int|
                                0 <= a < i + 1 && selects(self.flags(), q, #[trigger] keys@[a]@) implies exists|j: int|
                                0 <= j < r@.len() && r@[j]@ == keys@[a]@ by {
                                if a < i {
                                    let j = choose|j: int| 0 <= j < old_r.len() && old_r[j]@ == keys@[a]@;
                                    assert(r@[j] == old_r[j]);
                                } else {
                                    assert(r@[old_r.len() as int]@ == keys@[a]@);
                                }
                            }
                        }
                    }
                },
                None => {},
            }
            i = i + 1;
        }
        proof {
            assert forall|id: u64| #[trigger] selects(self.flags(), q, id) implies exists|j: int|
                0 <= j < r@.len() && r@[j]@ == id by {
                let a = choose|a: int| 0 <= a < keys@.len() && #[trigger] keys@[a]@ == id;
                assert(selects(self.flags(), q, keys@[a]@));
            }
        }
        r
    }
}


/// A component attached by `add_texture`, which pairs the container insert
/// with the flag, is visible both ways: the entity has `TEXTURE` and the
/// checked lookup returns the value inserted.
pub proof fn lemma_attached_texture_found(before: Game, after: Game, id: u64, component: TextureComponent)
    requires
        before.wf(),
        before.flags().contains_key(id),
        flags_changed(before.flags(), after.flags(), id, before.flags()[id]@ | TEXTURE),
        after.textures() == before.textures().insert(id, component),
    ensures
        has_flag(after.flags()[id], TEXTURE),
        lookup(after.textures(), id) == Some(component),
{
    lemma_or_flag(before.flags()[id]@, TEXTURE, TEXTURE);
    lemma_flag_constants();
}

/// The physics components attached by `add_physics` are visible both ways:
/// the entity has `RIGIDBODY` and `COLLIDER`, and the checked lookups find
/// them.
pub proof fn lemma_attached_physics_found(before: Game, after: Game, id: u64)
    requires
        before.wf(),
        after.wf(),
        before.flags().contains_key(id),
        flags_changed(before.flags(), after.flags(), id, before.flags()[id]@ | RIGIDBODY | COLLIDER),
    ensures
        has_flag(after.flags()[id], RIGIDBODY),
        has_flag(after.flags()[id], COLLIDER),
        lookup(after.rigidbodies(), id) is Some,
        lookup(after.colliders(), id) is Some,
{
    let x = before.flags()[id]@;
    lemma_flag_constants();
    lemma_or_flag(x, RIGIDBODY, RIGIDBODY);
    lemma_or_flag(x | RIGIDBODY, COLLIDER, RIGIDBODY);
    lemma_or_flag(x | RIGIDBODY, COLLIDER, COLLIDER);
    assert(after.flags().contains_key(id));
}

/// Removing an entity and then creating one never hands the removed handle
/// out again, even when the new entity takes the same slot: `remove_entity`
/// records the handle as its slot's last removed one, and `new_entity`
/// returns a handle outside that record.
pub proof fn lemma_removed_handle_not_reissued(before: Game, after: Game, id: u64, fresh: u64)
    requires
        before.flags().contains_key(id),
        after.retired() == before.retired().filter(|k: u64| slot_of(k) != slot_of(id)).insert(id),
        !after.retired().contains(fresh),
    ensures
        fresh != id,
{
}

/// Once an entity is removed, no query selects it.
pub proof fn lemma_removed_never_selected(before: Game, after: Game, id: u64)
    requires
        after.flags() == before.flags().remove(id),
    ensures
        forall|q: BitSet| !#[trigger] selects(after.flags(), q, id),
{
}

} // verus!
