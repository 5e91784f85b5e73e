use space_invaders::coordinates::Coordinates;
use space_invaders::enemy::{Enemies, EnemiesDirection, Enemy, ENEMY_COLS, ENEMY_STEP_DOWN,
    TOTAL_ENEMIES};
use space_invaders::hero::{Hero, HeroMovementDirection, HERO_SPAWN_X};
use space_invaders::SCREEN_MARGIN;

#[test]
fn standard_formation_layout() {
    let enemies = Enemies::new();
    assert_eq!(ENEMY_COLS, 10);
    assert_eq!(TOTAL_ENEMIES, 40);
    assert_eq!(enemies.enemies.len(), 40);
    assert_eq!(enemies.enemies_dead, 0);
    assert_eq!(enemies.direction, EnemiesDirection::Right);
    // First member sits at the margin, below the top band.
    assert_eq!(enemies.enemies[0].structure.coordinates.x(), 20);
    assert_eq!(enemies.enemies[0].structure.coordinates.y(), 49);
    // Columns are sixty pixels apart; rows fifty-seven.
    assert_eq!(enemies.enemies[1].structure.coordinates.x(), 80);
    assert_eq!(enemies.enemies[10].structure.coordinates.y(), 106);
    // The second row is the green kind; later rows are red and slightly
    // smaller.
    assert_eq!(enemies.enemies[10].structure.width, 40);
    assert_eq!(enemies.enemies[20].structure.width, 39);
    assert_eq!(enemies.enemies[20].structure.height, 31);
    for e in enemies.enemies.iter() {
        assert!(e.structure.alive);
    }
}

fn single_enemy_at(x: u32) -> Enemies {
    let mut e = Enemy::new();
    e.structure.coordinates = Coordinates::new(x, 100);
    Enemies {
        enemies: vec![e],
        enemies_dead: 0,
        direction: EnemiesDirection::Right,
    }
}

/// On a bound hit the direction flips once, every live member steps down by
/// the fixed vertical step, and nobody moves horizontally.
#[test]
fn bound_hit_flips_direction_and_steps_down() {
    // Right edge at 1250 + 40 >= 1260: a rightward bound hit.
    let mut enemies = single_enemy_at(1250);
    enemies.move_enemies(16);
    assert_eq!(enemies.direction, EnemiesDirection::Left);
    assert_eq!(enemies.enemies[0].structure.coordinates.x(), 1250);
    assert_eq!(enemies.enemies[0].structure.coordinates.y(), 100 + ENEMY_STEP_DOWN);
    // The next tick, travelling left from the bound, moves horizontally and
    // keeps the direction: no second flip.
    enemies.move_enemies(16);
    assert_eq!(enemies.direction, EnemiesDirection::Left);
    assert_eq!(enemies.enemies[0].structure.coordinates.y(), 100 + ENEMY_STEP_DOWN);
    assert!(enemies.enemies[0].structure.coordinates.x() < 1250);
}

#[test]
fn formation_moves_right_without_bound_hit() {
    let mut enemies = single_enemy_at(600);
    // One member, none dead: twenty sub-pixels per millisecond.
    enemies.move_enemies(100);
    assert_eq!(enemies.direction, EnemiesDirection::Right);
    assert_eq!(enemies.enemies[0].structure.coordinates.x(), 602);
    assert_eq!(enemies.enemies[0].structure.coordinates.y(), 100);
}

/// The formation speeds up as members die: same tick length, more travel.
#[test]
fn dead_members_speed_up_the_formation() {
    let mut fresh = Enemies::new();
    let mut thinned = Enemies::new();
    // Shoot down half of the thinned formation, keeping the first row.
    for i in 20..40 {
        thinned.enemies[i].structure.alive = false;
    }
    thinned.enemies_dead = 20;

    fresh.move_enemies(50);
    thinned.move_enemies(50);

    let fresh_travel = fresh.enemies[0].structure.coordinates.virtual_x
        - (20u64 * 1000);
    let thinned_travel = thinned.enemies[0].structure.coordinates.virtual_x
        - (20u64 * 1000);
    // Base travel: 20 sub-pixels/ms * 50 ms = 1000; doubled dead share:
    // (40 + 2*20) / 40 doubles it.
    assert_eq!(fresh_travel, 1000);
    assert_eq!(thinned_travel, 2000);
    assert!(thinned_travel >= fresh_travel);
}

#[test]
fn all_dead_counts_the_whole_formation() {
    let mut enemies = Enemies::new();
    assert!(!enemies.all_dead());
    for e in enemies.enemies.iter_mut() {
        e.structure.alive = false;
    }
    enemies.enemies_dead = TOTAL_ENEMIES;
    assert!(enemies.all_dead());
}

/// With the hero pinned at the left margin, holding left for several ticks
/// never takes its virtual position below the margin.
#[test]
fn hero_never_crosses_left_margin() {
    let mut hero = Hero::new();
    assert_eq!(hero.structure.coordinates.x(), HERO_SPAWN_X);
    for _ in 0..50 {
        hero.handle_movement(HeroMovementDirection::Left, 100);
        assert!(hero.structure.coordinates.virtual_x >= SCREEN_MARGIN as u64 * 1000);
        assert!(hero.structure.coordinates.x() >= SCREEN_MARGIN);
    }
    assert_eq!(hero.structure.coordinates.x(), SCREEN_MARGIN);
}

#[test]
fn hero_never_crosses_right_margin() {
    let mut hero = Hero::new();
    for _ in 0..50 {
        hero.handle_movement(HeroMovementDirection::Right, 100);
        assert!(hero.structure.coordinates.x() + 60 <= 1260);
    }
    assert_eq!(hero.structure.coordinates.x(), 1200);
}

#[test]
fn still_hero_stays_put() {
    let mut hero = Hero::new();
    let before = hero.structure.coordinates;
    hero.handle_movement(HeroMovementDirection::Still, 1000);
    assert_eq!(hero.structure.coordinates, before);
}

#[test]
fn sub_pixel_movement_accumulates() {
    let mut c = Coordinates::new(5, 7);
    assert_eq!(c.x(), 5);
    assert_eq!(c.y(), 7);
    // Half a pixel at a time: the integer view moves only on whole pixels.
    c.add_virtual_x(500);
    assert_eq!(c.x(), 5);
    c.add_virtual_x(500);
    assert_eq!(c.x(), 6);
    c.sub_virtual_y(250, 2);
    assert_eq!(c.y(), 6);
}
