use bitset_ecs::bitsets::BitSet;
use bitset_ecs::components::{
    PlayerComponent, Query, TextureComponent, COLLIDER, FIXED_COLLIDER, PLAYER, RIGIDBODY, TEXTURE,
};
use bitset_ecs::game::Game;
use bitset_ecs::storage::Entity;
use macroquad::color::Color;
use macroquad::math::vec2;
use macroquad::texture::Texture2D;
use rapier2d::dynamics::RigidBodyBuilder;
use rapier2d::geometry::ColliderBuilder;

fn sprite() -> TextureComponent {
    TextureComponent {
        texture: Texture2D::empty(),
        size: vec2(10.0, 10.0),
        color: Color::from_rgba(255, 255, 255, 255),
    }
}

fn physics(game: &mut Game, e: Entity) {
    game.add_physics(
        e,
        RigidBodyBuilder::dynamic().build(),
        ColliderBuilder::ball(5.0).build(),
    );
}

#[test]
fn new_entity_starts_without_flags() {
    let mut game = Game::new();
    let e = game.new_entity("Ball");
    assert_eq!(game.entity_count(), 1);
    let flags = game.flags_of(e).unwrap();
    assert!(BitSet::new(0).is_subset_of(&flags) && flags.is_subset_of(&BitSet::empty()));
    assert!(game.texture(e).is_none());
    assert!(game.rigidbody(e).is_none());
}

#[test]
fn entities_get_distinct_handles() {
    let mut game = Game::new();
    let a = game.new_entity("A");
    let b = game.new_entity("B");
    assert_ne!(a, b);
    game.remove_entity(a);
    let c = game.new_entity("C");
    assert_ne!(a, c);
    assert!(game.flags_of(a).is_none());
    assert!(game.flags_of(c).is_some());
}

#[test]
fn texture_insert_pairs_flag_and_value() {
    let mut game = Game::new();
    let e = game.new_entity("Ball");
    let t = TextureComponent {
        texture: Texture2D::empty(),
        size: vec2(20.0, 40.0),
        color: Color::from_rgba(125, 72, 252, 255),
    };
    game.add_texture(e, t);
    assert!(game.flags_of(e).unwrap().contains(TEXTURE));
    let got = game.texture(e).unwrap();
    assert_eq!(got.size, vec2(20.0, 40.0));
    assert_eq!(got.color, Color::from_rgba(125, 72, 252, 255));
}

#[test]
fn physics_insert_pairs_flags_and_handles() {
    let mut game = Game::new();
    let e = game.new_entity("Ball");
    physics(&mut game, e);
    let flags = game.flags_of(e).unwrap();
    assert!(flags.contains(RIGIDBODY | COLLIDER));
    assert!(!flags.contains(FIXED_COLLIDER));
    let body = game.rigidbody(e).unwrap().rigidbody_handle;
    let collider = game.collider(e).unwrap().collider_handle;
    assert!(game.rigid_body_set.get(body).is_some());
    assert_eq!(game.collider_set.get(collider).unwrap().parent(), Some(body));
}

#[test]
fn fixed_collider_sets_tag() {
    let mut game = Game::new();
    let e = game.new_entity("Ground");
    game.add_fixed_collider(e, ColliderBuilder::cuboid(800.0, 10.0).build());
    let flags = game.flags_of(e).unwrap();
    assert!(flags.contains(FIXED_COLLIDER | RIGIDBODY | COLLIDER));
    let body = game.rigidbody(e).unwrap().rigidbody_handle;
    assert!(game.rigid_body_set.get(body).unwrap().is_fixed());
}

#[test]
fn player_component_sets_flag() {
    let mut game = Game::new();
    let e = game.new_entity("Player");
    game.add_player_component(e, PlayerComponent::default());
    assert!(game.flags_of(e).unwrap().contains(PLAYER));
    assert_eq!(game.query(Query::new(PLAYER)), vec![e]);
}

#[test]
fn tag_flags_add_and_remove() {
    let mut game = Game::new();
    let e = game.new_entity("Ground");
    game.add_flag(e, FIXED_COLLIDER);
    assert!(game.flags_of(e).unwrap().contains(FIXED_COLLIDER));
    game.remove_flag(e, FIXED_COLLIDER);
    assert!(!game.flags_of(e).unwrap().contains(FIXED_COLLIDER));
}

#[test]
fn removed_entity_leaves_every_query() {
    let mut game = Game::new();
    let e = game.new_entity("Ball");
    game.add_texture(e, sprite());
    physics(&mut game, e);
    game.remove_entity(e);
    assert!(game.texture(e).is_none());
    assert!(game.rigidbody(e).is_none());
    assert!(game.collider(e).is_none());
    assert!(game.query(Query::new(TEXTURE)).is_empty());
    assert!(game.query(Query::empty()).is_empty());
    assert_eq!(game.entity_count(), 0);
}

#[test]
fn one_rigidbody_scenario() {
    let mut game = Game::new();
    let e = game.new_entity("Body");
    physics(&mut game, e);
    let h1 = game.rigidbody(e).unwrap().rigidbody_handle;
    assert_eq!(game.rigidbody(e).unwrap().rigidbody_handle, h1);
    assert_eq!(game.query(Query::new(RIGIDBODY)), vec![e]);
    assert!(game.query(Query::new(RIGIDBODY | TEXTURE)).is_empty());
    game.remove_entity(e);
    assert!(game.query(Query::new(RIGIDBODY)).is_empty());
    assert!(game.query(Query::new(RIGIDBODY | TEXTURE)).is_empty());
}

#[test]
fn query_matches_naive_filter() {
    let mut game = Game::new();
    let mut seed: u64 = 0x2545_f491_4f6c_dd1d;
    let mut all: Vec<Entity> = Vec::new();
    for _ in 0..200 {
        seed = seed.wrapping_mul(6364136223846793005).wrapping_add(1442695040888963407);
        let pick = seed >> 59;
        let e = game.new_entity("Thing");
        if pick & 1 != 0 {
            game.add_texture(e, sprite());
        }
        if pick & 2 != 0 {
            physics(&mut game, e);
        }
        if pick & 4 != 0 {
            game.add_flag(e, FIXED_COLLIDER);
        }
        if pick & 8 != 0 {
            game.add_player_component(e, PlayerComponent::default());
        }
        all.push(e);
    }
    for (i, e) in all.iter().enumerate() {
        if i % 7 == 3 {
            game.remove_entity(*e);
        }
    }
    for bits in 0..32u32 {
        let q = Query::new(bits);
        let mut got = game.query(q);
        let mut want: Vec<Entity> = all
            .iter()
            .copied()
            .filter(|e| game.flags_of(*e).map_or(false, |f| q.is_subset_of(&f)))
            .collect();
        got.sort_by_key(|e| format!("{:?}", e));
        want.sort_by_key(|e| format!("{:?}", e));
        assert_eq!(got, want);
    }
}

#[test]
fn labels_follow_entity_lifetime() {
    let mut game = Game::new();
    let a = game.new_entity("Ground");
    let b = game.new_entity("Player");
    assert_eq!(game.label(a), Some("Ground"));
    assert_eq!(game.label(b), Some("Player"));
    game.remove_entity(a);
    assert_eq!(game.label(a), None);
    assert_eq!(game.label(b), Some("Player"));
}

#[test]
fn new_game_has_empty_physics_sets() {
    let game = Game::new();
    assert_eq!(game.rigid_body_set.len(), 0);
    assert_eq!(game.collider_set.len(), 0);
    assert_eq!(game.entity_count(), 0);
}

#[test]
fn add_physics_stores_the_new_handles() {
    let mut game = Game::new();
    let e = game.new_entity("Ball");
    physics(&mut game, e);
    assert_eq!(game.rigid_body_set.len(), 1);
    assert_eq!(game.collider_set.len(), 1);
    let (body, _) = game.rigid_body_set.iter().next().unwrap();
    let (collider, c) = game.collider_set.iter().next().unwrap();
    assert_eq!(game.rigidbody(e).unwrap().rigidbody_handle, body);
    assert_eq!(game.collider(e).unwrap().collider_handle, collider);
    assert_eq!(c.parent(), Some(body));
    assert!(!game.rigid_body_set[body].is_fixed());
}

#[test]
fn attach_physics_stores_given_handles() {
    let mut game = Game::new();
    let e = game.new_entity("Ball");
    let hb = rapier2d::dynamics::RigidBodyHandle::from_raw_parts(7, 3);
    let hc = rapier2d::geometry::ColliderHandle::from_raw_parts(5, 1);
    game.attach_physics(e, hb, hc);
    assert_eq!(game.rigidbody(e).unwrap().rigidbody_handle, hb);
    assert_eq!(game.collider(e).unwrap().collider_handle, hc);
    assert!(game.flags_of(e).unwrap().contains(RIGIDBODY | COLLIDER));
    assert_eq!(game.rigid_body_set.len(), 0);
    assert_eq!(game.query(Query::new(RIGIDBODY | COLLIDER)), vec![e]);
}

#[test]
fn scene_sized_entity_count_fits() {
    let mut game = Game::new();
    for _ in 0..1503 {
        game.new_entity("Ball");
    }
    assert_eq!(game.entity_count(), 1503);
}

#[test]
fn reused_slot_gets_a_new_handle() {
    let mut game = Game::new();
    let mut prev = game.new_entity("First");
    for _ in 0..100 {
        game.remove_entity(prev);
        let next = game.new_entity("Next");
        assert_ne!(next, prev);
        assert!(game.flags_of(prev).is_none());
        assert_eq!(game.label(next), Some("Next"));
        prev = next;
    }
    assert_eq!(game.entity_count(), 1);
}
