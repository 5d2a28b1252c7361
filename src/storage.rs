use vstd::prelude::*;

use crate::bitsets::BitSet;
use crate::components::{ColliderComponent, PlayerComponent, RigidbodyComponent, TextureComponent};
use slotmap::{DefaultKey, DenseSlotMap, Key, KeyData, SecondaryMap, SparseSecondaryMap};

verus! {

/// The entity slot map: each live entity with its component flags.
#[verifier::external_body]
pub struct EntityMap {
    map: DenseSlotMap<DefaultKey, BitSet>,
}

/// Dense storage of the entities' diagnostic labels.
#[verifier::external_body]
pub struct LabelMap {
    map: SecondaryMap<DefaultKey, &'static str>,
}

/// Sparse storage of texture components.
#[verifier::external_body]
pub struct TextureMap {
    map: SparseSecondaryMap<DefaultKey, TextureComponent>,
}

/// Dense storage of rigidbody components.
#[verifier::external_body]
pub struct RigidbodyMap {
    map: SecondaryMap<DefaultKey, RigidbodyComponent>,
}

/// Dense storage of collider components.
#[verifier::external_body]
pub struct ColliderMap {
    map: SecondaryMap<DefaultKey, ColliderComponent>,
}

/// Dense storage of player components.
#[verifier::external_body]
pub struct PlayerMap {
    map: SecondaryMap<DefaultKey, PlayerComponent>,
}

/// The slot index of a key in its 64-bit form (the low 32 bits).
pub open spec fn slot_of(id: u64) -> u64 {
    id % 0x1_0000_0000
}

/// The 64-bit form of a live key: an odd version in the high half and a
/// slot index other than the null key's.
pub open spec fn is_key_id(id: u64) -> bool {
    (id / 0x1_0000_0000) % 2 == 1 && slot_of(id) != 0xffff_ffff
}

/// No two keys of a table share a slot index.
pub open spec fn one_key_per_slot<V>(m: Map<u64, V>) -> bool {
    forall|a: u64, b: u64|
        m.contains_key(a) && m.contains_key(b) && #[trigger] slot_of(a) == #[trigger] slot_of(b) ==> a == b
}

/// Storing under `id` does not evict another key of the same slot.
pub open spec fn slot_free_for<V>(m: Map<u64, V>, id: u64) -> bool {
    forall|k: u64| #[trigger] m.contains_key(k) && slot_of(k) == slot_of(id) ==> k == id
}

/// The entry of `id` in `m`, if any.
pub open spec fn lookup<V>(m: Map<u64, V>, id: u64) -> Option<V> {
    if m.contains_key(id) {
        Some(m[id])
    } else {
        None
    }
}

/// A handle to an entity: a slot map key, kept in its 64-bit form.
#[derive(Clone, Copy, PartialEq, Eq, Hash, Debug)]
pub struct Entity {
    id: u64,
}

impl Entity {
    #[verifier::type_invariant]
    pub open spec fn inv(&self) -> bool {
        is_key_id(self@)
    }

    pub closed spec fn view(&self) -> u64 {
        self.id
    }
}

/// What the entity slot map holds, by key.
pub uninterp spec fn entity_table(m: EntityMap) -> Map<u64, BitSet>;

/// The key most recently removed from each slot of the entity slot map: the
/// key with the slot's version from before its last removal.
pub uninterp spec fn entity_retired(m: EntityMap) -> Set<u64>;

/// Relies on DenseSlotMap::with_capacity_and_key: a new map is empty.
#[verifier::external_body]
pub(crate) fn entities_with_capacity(capacity: usize) -> (r: EntityMap)
    requires
        capacity <= 0x100_0000,
    ensures
        entity_table(r).dom() == Set::<u64>::empty(),
        entity_retired(r) == Set::<u64>::empty(),
{
    EntityMap { map: DenseSlotMap::with_capacity_and_key(capacity) }
}

/// Relies on DenseSlotMap::insert: the value is stored under a fresh key
/// whose slot no live key occupies, with the slot's version advanced past
/// the one its last removed key had; it panics only when 2^32 - 2 keys live.
#[verifier::external_body]
pub(crate) fn entities_insert(m: &mut EntityMap, v: BitSet) -> (r: Entity)
    requires
        entity_table(*old(m)).dom().finite(),
        entity_table(*old(m)).len() < 0xffff_0000,
    ensures
        !entity_table(*old(m)).contains_key(r@),
        slot_free_for(entity_table(*old(m)), r@),
        entity_table(*final(m)) == entity_table(*old(m)).insert(r@, v),
        !entity_retired(*old(m)).contains(r@),
        entity_retired(*final(m)) == entity_retired(*old(m)),
{
    Entity { id: m.map.insert(v).data().as_ffi() }
}

/// Relies on DenseSlotMap::get: the value stored under the key, if it is live.
#[verifier::external_body]
pub(crate) fn entities_get(m: &EntityMap, e: Entity) -> (r: Option<BitSet>)
    requires
        is_key_id(e@),
    ensures
        r == lookup(entity_table(*m), e@),
{
    m.map.get(DefaultKey::from(KeyData::from_ffi(e.id))).copied()
}

/// Relies on DenseSlotMap's IndexMut: replaces the value of a live key.
#[verifier::external_body]
pub(crate) fn entities_set(m: &mut EntityMap, e: Entity, v: BitSet)
    requires
        is_key_id(e@),
        entity_table(*old(m)).contains_key(e@),
    ensures
        entity_table(*final(m)) == entity_table(*old(m)).insert(e@, v),
        entity_retired(*final(m)) == entity_retired(*old(m)),
{
    m.map[DefaultKey::from(KeyData::from_ffi(e.id))] = v;
}

/// Relies on DenseSlotMap::remove: the key is no longer live, and becomes
/// the last removed key of its slot.
#[verifier::external_body]
pub(crate) fn entities_remove(m: &mut EntityMap, e: Entity)
    requires
        is_key_id(e@),
    ensures
        entity_table(*final(m)) == entity_table(*old(m)).remove(e@),
        entity_table(*old(m)).contains_key(e@) ==> entity_retired(*final(m)) == entity_retired(*old(m)).filter(
            |k: u64| slot_of(k) != slot_of(e@),
        ).insert(e@),
        !entity_table(*old(m)).contains_key(e@) ==> entity_retired(*final(m)) == entity_retired(*old(m)),
{
    m.map.remove(DefaultKey::from(KeyData::from_ffi(e.id)));
}

/// Relies on DenseSlotMap::len: the number of live keys.
#[verifier::external_body]
pub(crate) fn entities_len(m: &EntityMap) -> (r: usize)
    requires
        entity_table(*m).dom().finite(),
    ensures
        r == entity_table(*m).len(),
{
    m.map.len()
}

/// Relies on DenseSlotMap::keys: every live key, each once.
#[verifier::external_body]
pub(crate) fn entities_keys(m: &EntityMap) -> (r: Vec<Entity>)
    ensures
        forall|i: int, j: int| 0 <= i < j < r@.len() ==> r@[i]@ != r@[j]@,
        forall|i: int| 0 <= i < r@.len() ==> entity_table(*m).contains_key(#[trigger] r@[i]@),
        forall|k: u64| entity_table(*m).contains_key(k) ==> exists|i: int| 0 <= i < r@.len() && #[trigger] r@[i]@ == k,
{
    m.map.keys().map(|k| Entity { id: k.data().as_ffi() }).collect()
}

/// What the texture container holds, by key.
pub uninterp spec fn texture_table(m: TextureMap) -> Map<u64, TextureComponent>;

/// Relies on SparseSecondaryMap::with_capacity: a new map is empty.
#[verifier::external_body]
pub(crate) fn textures_with_capacity(capacity: usize) -> (r: TextureMap)
    requires
        capacity <= 0x100_0000,
    ensures
        texture_table(r).dom() == Set::<u64>::empty(),
{
    TextureMap { map: SparseSecondaryMap::with_capacity(capacity) }
}

/// Relies on SparseSecondaryMap::insert: with no other key of the same slot stored, the
/// value is stored under the key, replacing an earlier one.
#[verifier::external_body]
pub(crate) fn textures_insert(m: &mut TextureMap, e: Entity, v: TextureComponent)
    requires
        is_key_id(e@),
        slot_free_for(texture_table(*old(m)), e@),
    ensures
        texture_table(*final(m)) == texture_table(*old(m)).insert(e@, v),
{
    m.map.insert(DefaultKey::from(KeyData::from_ffi(e.id)), v);
}

/// Relies on SparseSecondaryMap::get: the value stored under the key, if any.
#[verifier::external_body]
pub(crate) fn textures_get(m: &TextureMap, e: Entity) -> (r: Option<TextureComponent>)
    requires
        is_key_id(e@),
    ensures
        r == lookup(texture_table(*m), e@),
{
    m.map.get(DefaultKey::from(KeyData::from_ffi(e.id))).copied()
}

/// Relies on SparseSecondaryMap::remove: nothing is stored under the key afterwards.
#[verifier::external_body]
pub(crate) fn textures_remove(m: &mut TextureMap, e: Entity)
    requires
        is_key_id(e@),
        one_key_per_slot(texture_table(*old(m))),
    ensures
        texture_table(*final(m)) == texture_table(*old(m)).remove(e@),
{
    m.map.remove(DefaultKey::from(KeyData::from_ffi(e.id)));
}

/// What the rigidbody container holds, by key.
pub uninterp spec fn rigidbody_table(m: RigidbodyMap) -> Map<u64, RigidbodyComponent>;

/// Relies on SecondaryMap::with_capacity: a new map is empty.
#[verifier::external_body]
pub(crate) fn rigidbodies_with_capacity(capacity: usize) -> (r: RigidbodyMap)
    requires
        capacity <= 0x100_0000,
    ensures
        rigidbody_table(r).dom() == Set::<u64>::empty(),
{
    RigidbodyMap { map: SecondaryMap::with_capacity(capacity) }
}

/// Relies on SecondaryMap::insert: with no other key of the same slot stored, the
/// value is stored under the key, replacing an earlier one.
#[verifier::external_body]
pub(crate) fn rigidbodies_insert(m: &mut RigidbodyMap, e: Entity, v: RigidbodyComponent)
    requires
        is_key_id(e@),
        slot_free_for(rigidbody_table(*old(m)), e@),
    ensures
        rigidbody_table(*final(m)) == rigidbody_table(*old(m)).insert(e@, v),
{
    m.map.insert(DefaultKey::from(KeyData::from_ffi(e.id)), v);
}

/// Relies on SecondaryMap::get: the value stored under the key, if any.
#[verifier::external_body]
pub(crate) fn rigidbodies_get(m: &RigidbodyMap, e: Entity) -> (r: Option<RigidbodyComponent>)
    requires
        is_key_id(e@),
    ensures
        r == lookup(rigidbody_table(*m), e@),
{
    m.map.get(DefaultKey::from(KeyData::from_ffi(e.id))).copied()
}

/// Relies on SecondaryMap::remove: nothing is stored under the key afterwards.
#[verifier::external_body]
pub(crate) fn rigidbodies_remove(m: &mut RigidbodyMap, e: Entity)
    requires
        is_key_id(e@),
        one_key_per_slot(rigidbody_table(*old(m))),
    ensures
        rigidbody_table(*final(m)) == rigidbody_table(*old(m)).remove(e@),
{
    m.map.remove(DefaultKey::from(KeyData::from_ffi(e.id)));
}

/// What the collider container holds, by key.
pub uninterp spec fn collider_table(m: ColliderMap) -> Map<u64, ColliderComponent>;

/// Relies on SecondaryMap::with_capacity: a new map is empty.
#[verifier::external_body]
pub(crate) fn colliders_with_capacity(capacity: usize) -> (r: ColliderMap)
    requires
        capacity <= 0x100_0000,
    ensures
        collider_table(r).dom() == Set::<u64>::empty(),
{
    ColliderMap { map: SecondaryMap::with_capacity(capacity) }
}

/// Relies on SecondaryMap::insert: with no other key of the same slot stored, the
/// value is stored under the key, replacing an earlier one.
#[verifier::external_body]
pub(crate) fn colliders_insert(m: &mut ColliderMap, e: Entity, v: ColliderComponent)
    requires
        is_key_id(e@),
        slot_free_for(collider_table(*old(m)), e@),
    ensures
        collider_table(*final(m)) == collider_table(*old(m)).insert(e@, v),
{
    m.map.insert(DefaultKey::from(KeyData::from_ffi(e.id)), v);
}

/// Relies on SecondaryMap::get: the value stored under the key, if any.
#[verifier::external_body]
pub(crate) fn colliders_get(m: &ColliderMap, e: Entity) -> (r: Option<ColliderComponent>)
    requires
        is_key_id(e@),
    ensures
        r == lookup(collider_table(*m), e@),
{
    m.map.get(DefaultKey::from(KeyData::from_ffi(e.id))).copied()
}

/// Relies on SecondaryMap::remove: nothing is stored under the key afterwards.
#[verifier::external_body]
pub(crate) fn colliders_remove(m: &mut ColliderMap, e: Entity)
    requires
        is_key_id(e@),
        one_key_per_slot(collider_table(*old(m))),
    ensures
        collider_table(*final(m)) == collider_table(*old(m)).remove(e@),
{
    m.map.remove(DefaultKey::from(KeyData::from_ffi(e.id)));
}

/// What the player container holds, by key.
pub uninterp spec fn player_table(m: PlayerMap) -> Map<u64, PlayerComponent>;

/// Relies on SecondaryMap::with_capacity: a new map is empty.
#[verifier::external_body]
pub(crate) fn players_with_capacity(capacity: usize) -> (r: PlayerMap)
    requires
        capacity <= 0x100_0000,
    ensures
        player_table(r).dom() == Set::<u64>::empty(),
{
    PlayerMap { map: SecondaryMap::with_capacity(capacity) }
}

/// Relies on SecondaryMap::insert: with no other key of the same slot stored, the
/// value is stored under the key, replacing an earlier one.
#[verifier::external_body]
pub(crate) fn players_insert(m: &mut PlayerMap, e: Entity, v: PlayerComponent)
    requires
        is_key_id(e@),
        slot_free_for(player_table(*old(m)), e@),
    ensures
        player_table(*final(m)) == player_table(*old(m)).insert(e@, v),
{
    m.map.insert(DefaultKey::from(KeyData::from_ffi(e.id)), v);
}

/// Relies on SecondaryMap::remove: nothing is stored under the key afterwards.
#[verifier::external_body]
pub(crate) fn players_remove(m: &mut PlayerMap, e: Entity)
    requires
        is_key_id(e@),
        one_key_per_slot(player_table(*old(m))),
    ensures
        player_table(*final(m)) == player_table(*old(m)).remove(e@),
{
    m.map.remove(DefaultKey::from(KeyData::from_ffi(e.id)));
}

/// What the label container holds, by key.
pub uninterp spec fn label_table(m: LabelMap) -> Map<u64, &'static str>;

/// Relies on SecondaryMap::with_capacity: a new map is empty.
#[verifier::external_body]
pub(crate) fn labels_with_capacity(capacity: usize) -> (r: LabelMap)
    requires
        capacity <= 0x100_0000,
    ensures
        label_table(r).dom() == Set::<u64>::empty(),
{
    LabelMap { map: SecondaryMap::with_capacity(capacity) }
}

/// Relies on SecondaryMap::insert: with no other key of the same slot
/// stored, the label is stored under the key, replacing an earlier one.
#[verifier::external_body]
pub(crate) fn labels_insert(m: &mut LabelMap, e: Entity, v: &'static str)
    requires
        is_key_id(e@),
        slot_free_for(label_table(*old(m)), e@),
    ensures
        label_table(*final(m)) == label_table(*old(m)).insert(e@, v),
{
    m.map.insert(DefaultKey::from(KeyData::from_ffi(e.id)), v);
}

/// Relies on SecondaryMap::get: the label stored under the key, if any.
#[verifier::external_body]
pub(crate) fn labels_get(m: &LabelMap, e: Entity) -> (r: Option<&'static str>)
    requires
        is_key_id(e@),
    ensures
        r == lookup(label_table(*m), e@),
{
    m.map.get(DefaultKey::from(KeyData::from_ffi(e.id))).copied()
}

/// Relies on SecondaryMap::remove: nothing is stored under the key afterwards.
#[verifier::external_body]
pub(crate) fn labels_remove(m: &mut LabelMap, e: Entity)
    requires
        is_key_id(e@),
        one_key_per_slot(label_table(*old(m))),
    ensures
        label_table(*final(m)) == label_table(*old(m)).remove(e@),
{
    m.map.remove(DefaultKey::from(KeyData::from_ffi(e.id)));
}

} // verus!
