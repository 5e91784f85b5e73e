use space_invaders::actor::{ActorStructure, Sprite};
use space_invaders::barricade::Barricade;
use space_invaders::coordinates::Coordinates;
use space_invaders::enemy::{Enemies, EnemiesDirection, Enemy};
use space_invaders::hero::Hero;
use space_invaders::shoot::{Shoot, ShootOwner, Shoots};

fn box_at(x: u32, y: u32, width: u32, height: u32) -> ActorStructure {
    ActorStructure {
        sprite: None,
        width,
        height,
        alive: true,
        coordinates: Coordinates::new(x, y),
    }
}

#[test]
fn test_hit() {
    let shoot = Shoot {
        structure: ActorStructure {
            sprite: Some(Sprite::new(0)),
            width: 1,
            height: 1,
            alive: true,
            coordinates: Coordinates::new(0, 0),
        },
        owner: ShootOwner::Hero,
    };
    let target = box_at(0, 0, 1, 1);
    assert!(shoot.is_hit(&target));
}

#[test]
fn hit_is_symmetric() {
    let pairs = [
        (box_at(0, 0, 10, 10), box_at(5, 5, 10, 10)),
        (box_at(0, 0, 10, 10), box_at(50, 50, 10, 10)),
        (box_at(100, 20, 3, 7), box_at(98, 25, 40, 32)),
        (box_at(0, 0, 1, 1), box_at(1, 1, 1, 1)),
    ];
    for (a, b) in pairs.iter() {
        let sa = Shoot { structure: *a, owner: ShootOwner::Hero };
        let sb = Shoot { structure: *b, owner: ShootOwner::Hero };
        assert_eq!(sa.is_hit(b), sb.is_hit(a));
    }
}

#[test]
fn disjoint_boxes_do_not_hit() {
    let shoot = Shoot {
        structure: box_at(0, 0, 3, 7),
        owner: ShootOwner::Hero,
    };
    let far = box_at(500, 500, 40, 32);
    assert!(!shoot.is_hit(&far));
}

/// A four-by-eight grid, all alive, and a hero shot exactly overlapping the
/// enemy at row zero, column zero: one collision pass fells that enemy,
/// raises the dead count to one, and retires the shot.
#[test]
fn hero_shot_fells_overlapped_enemy() {
    let mut members = Vec::new();
    for y in 0..4u32 {
        for x in 0..8u32 {
            let mut e = Enemy::new();
            e.structure.coordinates = Coordinates::new(20 + 60 * x, 49 + 57 * y);
            members.push(e);
        }
    }
    let mut enemies = Enemies {
        enemies: members,
        enemies_dead: 0,
        direction: EnemiesDirection::Right,
    };

    let mut shoots = Shoots::new();
    shoots.handle_hero_shoot(Some(Shoot::new(
        Coordinates::new(20, 49),
        ShootOwner::Hero,
    )));
    assert_eq!(shoots.hero_shoots_alive, 1);

    let mut hero = Hero::new();
    let mut barricades: Vec<Barricade> = Barricade::create_barricades();
    let mut barricades_alive = barricades.len();

    shoots.check_collisions(
        &mut hero,
        &mut enemies,
        &mut barricades,
        &mut barricades_alive,
    );

    assert!(!enemies.enemies[0].structure.alive);
    assert_eq!(enemies.enemies_dead, 1);
    assert_eq!(shoots.hero_shoots_alive, 0);
    for sh in 0..3 {
        assert!(!shoots.hero_shoots[sh].structure.alive);
    }
    assert_eq!(barricades_alive, barricades.len());
}

#[test]
fn enemy_shot_downs_hero() {
    let mut shoots = Shoots::new();
    let mut enemies = Enemies::new();
    // A formation member fires; drag the shot onto the hero by hand.
    shoots.handle_enemies_shoot(0, &enemies);
    assert_eq!(shoots.enemy_shoots_alive, 1);
    let mut hero = Hero::new();
    shoots.enemy_shoots[0].structure.coordinates = hero.structure.coordinates;

    let mut barricades: Vec<Barricade> = Vec::new();
    let mut barricades_alive = 0usize;
    shoots.check_collisions(
        &mut hero,
        &mut enemies,
        &mut barricades,
        &mut barricades_alive,
    );

    assert!(!hero.structure.alive);
    assert_eq!(shoots.enemy_shoots_alive, 0);
}
