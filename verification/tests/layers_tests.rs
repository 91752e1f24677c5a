use game_logic::layers::{layer_mask, layers_interact, BodyKind, GameLayer, LayerConfig};

#[test]
fn layer_bits_follow_declaration_order() {
    assert_eq!(GameLayer::Default.to_bits(), 1);
    assert_eq!(GameLayer::Player.to_bits(), 2);
    assert_eq!(GameLayer::Interactable.to_bits(), 4);
    assert_eq!(GameLayer::Enemy.to_bits(), 8);
}

#[test]
fn masks_hold_the_listed_layers() {
    assert_eq!(layer_mask(&[]), 0);
    assert_eq!(layer_mask(&[GameLayer::Player, GameLayer::Enemy]), 10);
    assert_eq!(layer_mask(&[GameLayer::Enemy, GameLayer::Enemy]), 8);
    let config = LayerConfig::new(&[GameLayer::Default], &[GameLayer::Player, GameLayer::Interactable]);
    assert_eq!(config, LayerConfig { memberships: 1, filters: 6 });
}

#[test]
fn body_layer_masks() {
    assert_eq!(BodyKind::Player.collision_layers(), LayerConfig { memberships: 2, filters: 5 });
    assert_eq!(BodyKind::Enemy.collision_layers(), LayerConfig { memberships: 8, filters: 15 });
    assert_eq!(BodyKind::Chest.collision_layers(), LayerConfig { memberships: 4, filters: 2 });
    assert_eq!(BodyKind::Coin.collision_layers(), LayerConfig { memberships: 4, filters: 2 });
    assert_eq!(BodyKind::Light.collision_layers(), LayerConfig { memberships: 4, filters: 2 });
    assert_eq!(BodyKind::Door.collision_layers(), LayerConfig { memberships: 5, filters: 10 });
    assert_eq!(BodyKind::Terrain.collision_layers(), LayerConfig { memberships: 1, filters: 10 });
}

fn collide(a: BodyKind, b: BodyKind) -> bool {
    layers_interact(a.collision_layers(), b.collision_layers())
}

#[test]
fn player_touches_pickups_and_walls() {
    assert!(collide(BodyKind::Player, BodyKind::Coin));
    assert!(collide(BodyKind::Player, BodyKind::Chest));
    assert!(collide(BodyKind::Player, BodyKind::Light));
    assert!(collide(BodyKind::Player, BodyKind::Door));
    assert!(collide(BodyKind::Player, BodyKind::Terrain));
}

#[test]
fn enemies_pass_through_pickups_but_not_walls() {
    assert!(!collide(BodyKind::Enemy, BodyKind::Coin));
    assert!(!collide(BodyKind::Enemy, BodyKind::Chest));
    assert!(collide(BodyKind::Enemy, BodyKind::Terrain));
    assert!(collide(BodyKind::Enemy, BodyKind::Door));
    assert!(collide(BodyKind::Enemy, BodyKind::Enemy));
}

#[test]
fn player_and_enemy_do_not_collide() {
    // The enemy collides with the player's layer, but the player does not
    // collide with the enemy layer: both sides must agree.
    assert!(!collide(BodyKind::Player, BodyKind::Enemy));
    assert!(!collide(BodyKind::Enemy, BodyKind::Player));
}

#[test]
fn pickups_do_not_collide_with_each_other() {
    assert!(!collide(BodyKind::Coin, BodyKind::Coin));
    assert!(!collide(BodyKind::Coin, BodyKind::Chest));
    assert!(!collide(BodyKind::Door, BodyKind::Terrain));
}

#[test]
fn raw_masks_follow_the_physics_rule() {
    let a = LayerConfig { memberships: 0b0001, filters: 0b1000 };
    let b = LayerConfig { memberships: 0b1000, filters: 0b0001 };
    let c = LayerConfig { memberships: 0b1000, filters: 0b0010 };
    assert!(layers_interact(a, b));
    assert!(!layers_interact(a, c));
    assert!(!layers_interact(c, a));
}
