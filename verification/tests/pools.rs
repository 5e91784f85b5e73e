use space_invaders::coordinates::Coordinates;
use space_invaders::enemy::Enemies;
use space_invaders::shoot::{Shoot, ShootOwner, Shoots, SHOOT_ENEMY_MAX, SHOOT_HERO_MAX};

#[test]
fn fresh_pools_are_empty() {
    let shoots = Shoots::new();
    assert_eq!(shoots.hero_shoots_alive, 0);
    assert_eq!(shoots.enemy_shoots_alive, 0);
    assert_eq!(shoots.hero_shoots.len(), SHOOT_HERO_MAX);
    assert_eq!(shoots.enemy_shoots.len(), SHOOT_ENEMY_MAX);
}

#[test]
fn hero_pool_never_exceeds_capacity() {
    let mut shoots = Shoots::new();
    for i in 0..5u32 {
        shoots.handle_hero_shoot(Some(Shoot::new(
            Coordinates::new(100 + i, 200),
            ShootOwner::Hero,
        )));
        assert!(shoots.hero_shoots_alive <= SHOOT_HERO_MAX);
    }
    assert_eq!(shoots.hero_shoots_alive, SHOOT_HERO_MAX);
}

/// A spawn attempted while the pool is full is a no-op: the pool's
/// composition is unchanged.
#[test]
fn full_hero_pool_rejects_spawn() {
    let mut shoots = Shoots::new();
    for _ in 0..SHOOT_HERO_MAX {
        shoots.handle_hero_shoot(Some(Shoot::new(Coordinates::new(10, 20), ShootOwner::Hero)));
    }
    assert_eq!(shoots.hero_shoots_alive, SHOOT_HERO_MAX);
    let before: Vec<_> = shoots.hero_shoots.clone();
    shoots.handle_hero_shoot(Some(Shoot::new(Coordinates::new(77, 88), ShootOwner::Hero)));
    assert_eq!(shoots.hero_shoots_alive, SHOOT_HERO_MAX);
    for i in 0..SHOOT_HERO_MAX {
        assert_eq!(shoots.hero_shoots[i].structure.coordinates, before[i].structure.coordinates);
        assert_eq!(shoots.hero_shoots[i].structure.alive, before[i].structure.alive);
    }
}

/// Three enemy shots alive at capacity three: the fourth spawn attempt is
/// rejected and the alive count stays three.
#[test]
fn full_enemy_pool_rejects_spawn() {
    let mut shoots = Shoots::new();
    let enemies = Enemies::new();
    for rnd in 0..3u32 {
        shoots.handle_enemies_shoot(rnd, &enemies);
    }
    assert_eq!(shoots.enemy_shoots_alive, 3);
    let before: Vec<_> = shoots.enemy_shoots.clone();
    shoots.handle_enemies_shoot(7, &enemies);
    assert_eq!(shoots.enemy_shoots_alive, 3);
    for i in 0..SHOOT_ENEMY_MAX {
        assert_eq!(shoots.enemy_shoots[i].structure.coordinates, before[i].structure.coordinates);
        assert_eq!(shoots.enemy_shoots[i].structure.alive, before[i].structure.alive);
    }
}

#[test]
fn enemy_spawn_uses_selected_enemy_footprint() {
    let mut shoots = Shoots::new();
    let enemies = Enemies::new();
    // rnd 2 selects the third alive member: the first row's third enemy,
    // whose column starts at 140 and whose shot appears one enemy height
    // below its top edge.
    shoots.handle_enemies_shoot(2, &enemies);
    assert_eq!(shoots.enemy_shoots_alive, 1);
    let sh = &shoots.enemy_shoots[0];
    assert!(sh.structure.alive);
    assert_eq!(sh.structure.coordinates.x(), 140);
    assert_eq!(sh.structure.coordinates.y(), 49 + 32);
}

#[test]
fn no_shot_request_spawns_nothing() {
    let mut shoots = Shoots::new();
    shoots.handle_hero_shoot(None);
    assert_eq!(shoots.hero_shoots_alive, 0);
}

#[test]
fn shots_travel_and_retire_off_screen() {
    let mut shoots = Shoots::new();
    shoots.handle_hero_shoot(Some(Shoot::new(Coordinates::new(100, 500), ShootOwner::Hero)));
    // 400 sub-pixels per millisecond: 100 ms raises the shot by 40 pixels.
    shoots.handle_movement(100);
    assert_eq!(shoots.hero_shoots_alive, 1);
    assert_eq!(shoots.hero_shoots[0].structure.coordinates.y(), 460);
    // Another 1200 ms would lift it past the top band: it retires.
    shoots.handle_movement(1200);
    assert_eq!(shoots.hero_shoots_alive, 0);
    assert!(!shoots.hero_shoots[0].structure.alive);
}
