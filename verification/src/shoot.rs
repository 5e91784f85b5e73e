use vstd::prelude::*;

use crate::actor::{spec_overlap, ActorStructure};
use crate::barricade::{barricade_alive_flags, Barricade};
use crate::hero::Hero;
use crate::coordinates::{spec_pixel, spec_sat_add, spec_sat_mul, spec_sat_sub, Coordinates,
    SUB_PIXELS};
use crate::counting::{count_true, lemma_count_true_bounds, lemma_count_true_full_prefix,
    lemma_count_true_prefix_step, lemma_count_true_update};
use crate::enemy::{alive_before, alive_flags, spec_dead_consistent, Enemies, Enemy};
use crate::hero::{HERO_HEIGHT, HERO_WIDTH};

verus! {

/// Width of a shot's hit box in pixels.
pub const SHOOT_BOX_WIDTH: u32 = 3;

/// Height of a shot's hit box in pixels.
pub const SHOOT_BOX_HEIGHT: u32 = 7;

/// Horizontal offset from the hero's left edge to a spawned shot: the middle
/// of the hero.
pub const SHOOT_OFFSET_X_HERO: u32 = HERO_WIDTH / 2;

/// Vertical distance above the hero at which its shot spawns.
pub const SHOOT_OFFSET_Y_HERO: u32 = 10;

/// Shot speed in sub-pixel units per millisecond.
pub const SHOOT_SPEED_SUB_PER_MS: u64 = 400;

/// Vertical clearance kept above the hero for shot spawning.
pub const SHOOT_SPAWN_OFFSET_Y: u32 = HERO_HEIGHT + 10;

/// Capacity of the enemy shot pool.
pub const SHOOT_ENEMY_MAX: usize = 3;

/// Capacity of the hero shot pool.
pub const SHOOT_HERO_MAX: usize = 3;

/// Most shots that can be alive at once, over both pools.
pub const SHOOT_MAX_ALLOC: usize = SHOOT_ENEMY_MAX + SHOOT_HERO_MAX;

/// Which faction fired a shot.
#[derive(Debug, Copy, Clone, PartialEq, Eq, Structural)]
pub enum ShootOwner {
    /// Fired by the player's ship; travels upward.
    Hero,
    /// Fired by a formation member; travels downward.
    Enemy,
}

/// One projectile slot.
#[derive(Debug, Copy, Clone, PartialEq, Eq, Structural)]
pub struct Shoot {
    /// The shot's hit box and position.
    pub structure: ActorStructure,
    /// Which faction fired it.
    pub owner: ShootOwner,
}

/// The whole-pixel position at which a shot fired by `e` appears: the
/// enemy's own column, one enemy height below its top edge.
pub open spec fn spec_enemy_spawn_coordinates(e: Enemy) -> Coordinates {
    Coordinates {
        virtual_x: (spec_pixel(e.structure.coordinates.virtual_x) * SUB_PIXELS) as u64,
        virtual_y: ((if spec_pixel(e.structure.coordinates.virtual_y) + e.structure.height
            > u32::MAX {
            u32::MAX as int
        } else {
            spec_pixel(e.structure.coordinates.virtual_y) + e.structure.height
        }) * SUB_PIXELS) as u64,
    }
}

impl Shoot {
    /// An inactive shot slot at `coordinates`, owned by `owner`.
    pub fn new(coordinates: Coordinates, owner: ShootOwner) -> (r: Self)
        ensures
            r.structure == (ActorStructure {
                sprite: None,
                width: SHOOT_BOX_WIDTH,
                height: SHOOT_BOX_HEIGHT,
                alive: false,
                coordinates,
            }),
            r.owner == owner,
    {
        Shoot {
            structure: ActorStructure {
                sprite: None,
                width: SHOOT_BOX_WIDTH,
                height: SHOOT_BOX_HEIGHT,
                alive: false,
                coordinates,
            },
            owner,
        }
    }

    /// The shot an enemy fires: an enemy-owned slot at the firing enemy's
    /// footprint.
    pub fn from_enemy(enemy: &Enemy) -> (r: Self)
        ensures
            r.structure == (ActorStructure {
                sprite: None,
                width: SHOOT_BOX_WIDTH,
                height: SHOOT_BOX_HEIGHT,
                alive: false,
                coordinates: spec_enemy_spawn_coordinates(*enemy),
            }),
            r.owner == ShootOwner::Enemy,
    {
        let x = enemy.structure.coordinates.x();
        let y = enemy.structure.coordinates.y();
        let spawn_y = if y > u32::MAX - enemy.structure.height {
            u32::MAX
        } else {
            y + enemy.structure.height
        };
        Shoot::new(Coordinates::new(x, spawn_y), ShootOwner::Enemy)
    }

    /// Whether this shot's box and `actor_structure` intersect.
    pub fn is_hit(&self, actor_structure: &ActorStructure) -> (r: bool)
        ensures
            r == spec_overlap(self.structure, *actor_structure),
    {
        self.structure.overlaps(actor_structure)
    }

    /// Whether the shot has left the play-field vertically, counting its own
    /// height at either edge.
    pub fn out_of_screen(&self, screen_height: u32) -> (r: bool)
        ensures
            r == spec_out_of_screen(*self, screen_height),
    {
        let y = self.structure.coordinates.y();
        y as u64 <= self.structure.height as u64 || y as u64 + self.structure.height as u64
            >= screen_height as u64
    }

    /// One tick of travel: upward for hero shots, downward for enemy shots,
    /// at the fixed shot speed.
    pub fn move_forward(&mut self, delta_ms: u64)
        ensures
            *final(self) == spec_moved_forward(*old(self), delta_ms),
    {
        match &self.owner {
            ShootOwner::Hero => {
                self.structure.coordinates.sub_virtual_y(SHOOT_SPEED_SUB_PER_MS, delta_ms);
            },
            ShootOwner::Enemy => {
                self.structure.coordinates.add_virtual_y(SHOOT_SPEED_SUB_PER_MS, delta_ms);
            },
        }
    }
}

/// Where `move_forward` takes a shot in one tick.
pub open spec fn spec_moved_forward(s: Shoot, delta_ms: u64) -> Shoot {
    let travelled = spec_sat_mul(SHOOT_SPEED_SUB_PER_MS, delta_ms);
    Shoot {
        structure: ActorStructure {
            coordinates: Coordinates {
                virtual_x: s.structure.coordinates.virtual_x,
                virtual_y: if s.owner == ShootOwner::Hero {
                    spec_sat_sub(s.structure.coordinates.virtual_y, travelled)
                } else {
                    spec_sat_add(s.structure.coordinates.virtual_y, travelled)
                },
            },
            ..s.structure
        },
        ..s
    }
}

/// The shot's pixel row has reached the top band (its own height) or its
/// bottom edge has reached the bottom of the screen.
pub open spec fn spec_out_of_screen(s: Shoot, screen_height: u32) -> bool {
    let y = spec_pixel(s.structure.coordinates.virtual_y);
    y <= s.structure.height || y + s.structure.height >= screen_height
}

/// What one movement tick does to a pool slot: a dead slot stays put; a live
/// one travels, and is retired if that takes it off the screen.
pub open spec fn spec_advanced_shot(s: Shoot, delta_ms: u64) -> Shoot {
    if !s.structure.alive {
        s
    } else {
        let moved = spec_moved_forward(s, delta_ms);
        if spec_out_of_screen(moved, crate::SCREEN_HEIGHT) {
            Shoot { structure: ActorStructure { alive: false, ..moved.structure }, ..moved }
        } else {
            moved
        }
    }
}

/// The alive flags of a shot pool, in storage order.
pub open spec fn shoot_alive_flags(s: Seq<Shoot>) -> Seq<bool> {
    s.map_values(|sh: Shoot| sh.structure.alive)
}

/// The two fixed-capacity projectile pools.
#[derive(Debug)]
pub struct Shoots {
    /// Slots for shots the hero fires.
    pub hero_shoots: Vec<Shoot>,
    /// How many hero slots are currently alive.
    pub hero_shoots_alive: usize,
    /// Slots for shots the formation fires.
    pub enemy_shoots: Vec<Shoot>,
    /// How many enemy slots are currently alive.
    pub enemy_shoots_alive: usize,
}

impl Shoots {
    /// Both pools well formed: fixed capacities, consistent owners, and each
    /// alive counter equal to the number of live slots in its pool.
    pub open spec fn wf(self) -> bool {
        &&& self.hero_shoots@.len() == SHOOT_HERO_MAX
        &&& self.enemy_shoots@.len() == SHOOT_ENEMY_MAX
        &&& self.hero_shoots_alive == count_true(shoot_alive_flags(self.hero_shoots@))
        &&& self.enemy_shoots_alive == count_true(shoot_alive_flags(self.enemy_shoots@))
        &&& forall|i: int|
            0 <= i < self.hero_shoots@.len() ==> (#[trigger] self.hero_shoots@[i]).owner
                == ShootOwner::Hero
        &&& forall|i: int|
            0 <= i < self.enemy_shoots@.len() ==> (#[trigger] self.enemy_shoots@[i]).owner
                == ShootOwner::Enemy
    }

    /// Empty pools: every slot inactive, both counters zero.
    pub fn new() -> (r: Self)
        ensures
            r.wf(),
            r.hero_shoots_alive == 0,
            r.enemy_shoots_alive == 0,
            forall|i: int|
                0 <= i < SHOOT_HERO_MAX ==> !(#[trigger] r.hero_shoots@[i]).structure.alive,
            forall|i: int|
                0 <= i < SHOOT_ENEMY_MAX ==> !(#[trigger] r.enemy_shoots@[i]).structure.alive,
    {
        let mut hero_shoots: Vec<Shoot> = Vec::new();
        let mut i: usize = 0;
        while i < SHOOT_HERO_MAX
            invariant
                i <= SHOOT_HERO_MAX,
                hero_shoots@.len() == i,
                forall|j: int|
                    0 <= j < i ==> #[trigger] hero_shoots@[j] == spec_empty_slot(
                        ShootOwner::Hero,
                    ),
            decreases SHOOT_HERO_MAX - i,
        {
            hero_shoots.push(Shoot::new(Coordinates::new(0, 0), ShootOwner::Hero));
            i = i + 1;
        }
        let mut enemy_shoots: Vec<Shoot> = Vec::new();
        let mut j: usize = 0;
        while j < SHOOT_ENEMY_MAX
            invariant
                j <= SHOOT_ENEMY_MAX,
                enemy_shoots@.len() == j,
                forall|k: int|
                    0 <= k < j ==> #[trigger] enemy_shoots@[k] == spec_empty_slot(
                        ShootOwner::Enemy,
                    ),
            decreases SHOOT_ENEMY_MAX - j,
        {
            enemy_shoots.push(Shoot::new(Coordinates::new(0, 0), ShootOwner::Enemy));
            j = j + 1;
        }
        let r = Shoots { hero_shoots, hero_shoots_alive: 0, enemy_shoots, enemy_shoots_alive: 0 };
        proof {
            lemma_all_dead_count_zero(r.hero_shoots@);
            lemma_all_dead_count_zero(r.enemy_shoots@);
        }
        r
    }

    /// Spawn this tick's shots: the hero's requested shot, then one from a
    /// randomly selected live enemy, each gated by its own pool capacity.
    pub fn create_shoots(&mut self, shoot: Option<Shoot>, rnd: u32, enemies: &Enemies)
        requires
            old(self).wf(),
            spec_dead_consistent(*enemies),
            enemies.enemies_dead < enemies.enemies@.len(),
        ensures
            final(self).wf(),
            spec_create_rel(*old(self), *final(self), shoot, rnd, *enemies),
    {
        self.handle_hero_shoot(shoot);
        let ghost mid = *self;
        self.handle_enemies_shoot(rnd, enemies);
        proof {
            assert(spec_hero_spawn_rel(*old(self), mid, shoot) && spec_enemy_spawn_rel(
                mid,
                *self,
                rnd,
                *enemies,
            ));
        }
    }

    /// Place the hero's requested shot in the first free hero slot, unless
    /// the pool is full or nothing was requested; a full pool rejects the
    /// spawn and changes nothing.
    pub fn handle_hero_shoot(&mut self, shoot: Option<Shoot>)
        requires
            old(self).wf(),
        ensures
            final(self).wf(),
            spec_hero_spawn_rel(*old(self), *final(self), shoot),
    {
        if self.hero_shoots_alive >= SHOOT_HERO_MAX {
            return ;
        }
        if shoot.is_none() {
            return ;
        }
        let sh = shoot.unwrap();
        let n = self.hero_shoots.len();
        let mut i: usize = 0;
        while i < n
            invariant
                self == old(self),
                old(self).wf(),
                old(self).hero_shoots_alive < SHOOT_HERO_MAX,
                shoot is Some,
                sh == shoot.unwrap(),
                n == SHOOT_HERO_MAX,
                i <= n,
                forall|j: int|
                    0 <= j < i ==> (#[trigger] self.hero_shoots@[j]).structure.alive,
            decreases n - i,
        {
            if !self.hero_shoots[i].structure.alive {
                let mut slot = self.hero_shoots[i];
                slot.structure.coordinates = sh.structure.coordinates;
                slot.structure.alive = true;
                let ghost pre = self.hero_shoots@;
                self.hero_shoots[i] = slot;
                self.hero_shoots_alive = self.hero_shoots_alive + 1;
                proof {
                    assert(shoot_alive_flags(self.hero_shoots@) =~= shoot_alive_flags(
                        pre,
                    ).update(i as int, true));
                    lemma_count_true_update(shoot_alive_flags(pre), i as int, true);
                    let ghost w = i as int;
                    assert(!(old(self).hero_shoots@[w]).structure.alive);
                    assert(self.hero_shoots@ =~= old(self).hero_shoots@.update(
                        w,
                        Shoot {
                            structure: ActorStructure {
                                alive: true,
                                coordinates: sh.structure.coordinates,
                                ..old(self).hero_shoots@[w].structure
                            },
                            ..old(self).hero_shoots@[w]
                        },
                    ));
                    assert(forall|j: int|
                        0 <= j < w ==> (#[trigger] old(self).hero_shoots@[j]).structure.alive);
                    assert(spec_hero_spawn_rel(*old(self), *self, shoot));
                }
                return ;
            }
            i = i + 1;
        }
        proof {
            crate::counting::lemma_count_true_all(shoot_alive_flags(self.hero_shoots@));
        }
    }

    /// Fire from one live formation member, chosen by `rnd` uniformly over
    /// the alive subsequence, into the first free enemy slot; a full enemy
    /// pool rejects the spawn and changes nothing.
    pub fn handle_enemies_shoot(&mut self, rnd: u32, enemies: &Enemies)
        requires
            old(self).wf(),
            spec_dead_consistent(*enemies),
            enemies.enemies_dead < enemies.enemies@.len(),
        ensures
            final(self).wf(),
            spec_enemy_spawn_rel(*old(self), *final(self), rnd, *enemies),
    {
        if self.enemy_shoots_alive >= SHOOT_ENEMY_MAX {
            return ;
        }
        let total = enemies.enemies.len();
        let dead = enemies.enemies_dead;
        let idx = (rnd as usize) % (total - dead);
        proof {
            lemma_count_true_full_prefix(alive_flags(enemies.enemies@));
        }
        let mut e_i: usize = 0;
        let mut seen: usize = 0;
        let mut firing: Option<usize> = None;
        while e_i < total
            invariant
                total == enemies.enemies@.len(),
                spec_dead_consistent(*enemies),
                idx < total - enemies.enemies_dead,
                dead == enemies.enemies_dead,
                e_i <= total,
                seen <= e_i,
                seen == alive_before(enemies.enemies@, e_i as int),
                match firing {
                    Some(c) => c < e_i && enemies.enemies@[c as int].structure.alive
                        && alive_before(enemies.enemies@, c as int) == idx,
                    None => seen <= idx,
                },
            decreases total - e_i,
        {
            let e = enemies.enemies[e_i];
            proof {
                lemma_count_true_prefix_step(alive_flags(enemies.enemies@), e_i as int);
            }
            if e.structure.alive {
                if seen == idx && firing.is_none() {
                    firing = Some(e_i);
                }
                seen = seen + 1;
            }
            e_i = e_i + 1;
        }
        proof {
            lemma_count_true_full_prefix(alive_flags(enemies.enemies@));
        }
        let c = match firing {
            Some(c) => c,
            None => { return ; },
        };
        let spawned = Shoot::from_enemy(&enemies.enemies[c]);

        let n = self.enemy_shoots.len();
        let mut i: usize = 0;
        while i < n
            invariant
                self == old(self),
                old(self).wf(),
                old(self).enemy_shoots_alive < SHOOT_ENEMY_MAX,
                n == SHOOT_ENEMY_MAX,
                i <= n,
                c < enemies.enemies@.len(),
                enemies.enemies@[c as int].structure.alive,
                alive_before(enemies.enemies@, c as int) == (rnd as int) % (
                enemies.enemies@.len() - enemies.enemies_dead as int),
                spawned.structure == (ActorStructure {
                    sprite: None,
                    width: SHOOT_BOX_WIDTH,
                    height: SHOOT_BOX_HEIGHT,
                    alive: false,
                    coordinates: spec_enemy_spawn_coordinates(enemies.enemies@[c as int]),
                }),
                forall|j: int|
                    0 <= j < i ==> (#[trigger] self.enemy_shoots@[j]).structure.alive,
            decreases n - i,
        {
            if !self.enemy_shoots[i].structure.alive {
                let mut slot = self.enemy_shoots[i];
                slot.structure.coordinates = spawned.structure.coordinates;
                slot.structure.alive = true;
                let ghost pre = self.enemy_shoots@;
                self.enemy_shoots[i] = slot;
                self.enemy_shoots_alive = self.enemy_shoots_alive + 1;
                proof {
                    assert(shoot_alive_flags(self.enemy_shoots@) =~= shoot_alive_flags(
                        pre,
                    ).update(i as int, true));
                    lemma_count_true_update(shoot_alive_flags(pre), i as int, true);
                    let ghost w = i as int;
                    let ghost cc = c as int;
                    assert(!(old(self).enemy_shoots@[w]).structure.alive);
                    assert((enemies.enemies@[cc]).structure.alive);
                    assert(self.enemy_shoots@ =~= old(self).enemy_shoots@.update(
                        w,
                        Shoot {
                            structure: ActorStructure {
                                alive: true,
                                coordinates: spec_enemy_spawn_coordinates(enemies.enemies@[cc]),
                                ..old(self).enemy_shoots@[w].structure
                            },
                            ..old(self).enemy_shoots@[w]
                        },
                    ));
                }
                return ;
            }
            i = i + 1;
        }
        proof {
            crate::counting::lemma_count_true_all(shoot_alive_flags(self.enemy_shoots@));
        }
    }

    /// Wire this tick's shots to their targets, as `spec_hero_pass` then
    /// `spec_enemy_pass` describe: each live hero shot fells the first live
    /// enemy or barricade block it overlaps, each live enemy shot downs the
    /// hero on contact or fells the first live block it overlaps, and every
    /// counter stays exact.
    #[verifier::loop_isolation(false)]
    pub fn check_collisions(
        &mut self,
        hero: &mut Hero,
        enemies: &mut Enemies,
        barricades: &mut Vec<Barricade>,
        barricades_alive: &mut usize,
    )
        requires
            old(self).wf(),
            spec_dead_consistent(*old(enemies)),
            *old(barricades_alive) == count_true(barricade_alive_flags(old(barricades)@)),
        ensures
            final(self).wf(),
            final(enemies).enemies@.len() == old(enemies).enemies@.len(),
            final(barricades)@.len() == old(barricades)@.len(),
            spec_collisions_rel(
                *old(self),
                *final(self),
                *old(hero),
                *final(hero),
                *old(enemies),
                *final(enemies),
                old(barricades)@,
                final(barricades)@,
                *final(barricades_alive),
            ),
    {
        let ghost hp = spec_hero_pass(self.hero_shoots@, enemies.enemies@, barricades@);
        let n = self.hero_shoots.len();
        proof {
            lemma_hero_pass_len(self.hero_shoots@, enemies.enemies@, barricades@);
            assert(self.hero_shoots@.subrange(0, 0) =~= hp.0.subrange(0, 0));
            assert(old(self).hero_shoots@.subrange(0, n as int) =~= old(self).hero_shoots@);
            assert(hp.0.subrange(0, n as int) =~= hp.0);
        }
        let mut i: usize = 0;
        while i < n
            invariant
                i <= n,
                self.hero_shoots@.len() == n,
                self.enemy_shoots == old(self).enemy_shoots,
                self.enemy_shoots_alive == old(self).enemy_shoots_alive,
                *hero == *old(hero),
                enemies.direction == old(enemies).direction,
                enemies.enemies@.len() == old(enemies).enemies@.len(),
                barricades@.len() == old(barricades)@.len(),
                self.hero_shoots_alive == count_true(shoot_alive_flags(self.hero_shoots@)),
                spec_dead_consistent(*enemies),
                *barricades_alive == count_true(barricade_alive_flags(barricades@)),
                forall|j: int|
                    0 <= j < n ==> (#[trigger] self.hero_shoots@[j]).owner == ShootOwner::Hero,
                forall|j: int|
                    i <= j < n ==> #[trigger] self.hero_shoots@[j] == old(self).hero_shoots@[j],
                self.hero_shoots@.subrange(0, i as int) == hp.0.subrange(0, i as int),
                spec_hero_pass(
                    old(self).hero_shoots@.subrange(i as int, n as int),
                    enemies.enemies@,
                    barricades@,
                ) == (hp.0.subrange(i as int, n as int), hp.1, hp.2),
            decreases n - i,
        {
            let ghost suffix = old(self).hero_shoots@.subrange(i as int, n as int);
            let ghost e_pre = enemies.enemies@;
            let ghost b_pre = barricades@;
            let sh = self.hero_shoots[i];
            proof {
                assert(suffix[0] == sh);
                assert(suffix.drop_first() =~= old(self).hero_shoots@.subrange(
                    i as int + 1,
                    n as int,
                ));
            }
            if sh.structure.alive {
                let ei = first_enemy_hit(&sh.structure, &enemies.enemies);
                match ei {
                    Some(f) => {
                        let mut e = enemies.enemies[f];
                        e.structure.alive = false;
                        enemies.enemies[f] = e;
                        proof {
                            crate::counting::lemma_count_true_at_least_one(
                                alive_flags(e_pre),
                                f as int,
                            );
                            assert(alive_flags(enemies.enemies@) =~= alive_flags(
                                e_pre,
                            ).update(f as int, false));
                            lemma_count_true_update(alive_flags(e_pre), f as int, false);
                            assert(enemies.enemies@ =~= e_pre.update(
                                f as int,
                                spec_dead_enemy(e_pre[f as int]),
                            ));
                        }
                        let en_total = enemies.enemies.len();
                        proof {
                            assert(enemies.enemies_dead < en_total);
                        }
                        enemies.enemies_dead = enemies.enemies_dead + 1;
                        let ghost hs_pre = self.hero_shoots@;
                        proof {
                            crate::counting::lemma_count_true_at_least_one(
                                shoot_alive_flags(hs_pre),
                                i as int,
                            );
                        }
                        let mut dead_sh = sh;
                        dead_sh.structure.alive = false;
                        self.hero_shoots[i] = dead_sh;
                        self.hero_shoots_alive = self.hero_shoots_alive - 1;
                        proof {
                            assert(shoot_alive_flags(self.hero_shoots@) =~= shoot_alive_flags(
                                hs_pre,
                            ).update(i as int, false));
                            lemma_count_true_update(shoot_alive_flags(hs_pre), i as int, false);
                            assert(self.hero_shoots@[i as int] == spec_dead_shot(sh));
                        }
                    },
                    None => {
                        let bi = first_barricade_hit(&sh.structure, barricades);
                        match bi {
                            Some(g) => {
                                let mut b = barricades[g];
                                b.structure.alive = false;
                                let ghost ba_pre = barricades@;
                                barricades[g] = b;
                                proof {
                                    crate::counting::lemma_count_true_at_least_one(
                                        barricade_alive_flags(ba_pre),
                                        g as int,
                                    );
                                    assert(barricade_alive_flags(barricades@)
                                        =~= barricade_alive_flags(ba_pre).update(
                                        g as int,
                                        false,
                                    ));
                                    lemma_count_true_update(
                                        barricade_alive_flags(ba_pre),
                                        g as int,
                                        false,
                                    );
                                    assert(barricades@ =~= b_pre.update(
                                        g as int,
                                        spec_dead_barricade(b_pre[g as int]),
                                    ));
                                }
                                *barricades_alive = *barricades_alive - 1;
                                let ghost hs_pre = self.hero_shoots@;
                                proof {
                                    crate::counting::lemma_count_true_at_least_one(
                                        shoot_alive_flags(hs_pre),
                                        i as int,
                                    );
                                }
                                let mut dead_sh = sh;
                                dead_sh.structure.alive = false;
                                self.hero_shoots[i] = dead_sh;
                                self.hero_shoots_alive = self.hero_shoots_alive - 1;
                                proof {
                                    assert(shoot_alive_flags(self.hero_shoots@)
                                        =~= shoot_alive_flags(hs_pre).update(i as int, false));
                                    lemma_count_true_update(
                                        shoot_alive_flags(hs_pre),
                                        i as int,
                                        false,
                                    );
                                    assert(self.hero_shoots@[i as int] == spec_dead_shot(sh));
                                }
                            },
                            None => {},
                        }
                    },
                }
            }
            proof {
                let rest = spec_hero_pass(suffix.drop_first(), enemies.enemies@, barricades@);
                let head = self.hero_shoots@[i as int];
                assert(spec_hero_pass(suffix, e_pre, b_pre) == (
                    seq![head] + rest.0,
                    rest.1,
                    rest.2,
                ));
                assert(hp.0.subrange(i as int, n as int) == seq![head] + rest.0);
                assert(hp.0[i as int] == (seq![head] + rest.0)[0]);
                assert((seq![head] + rest.0).drop_first() =~= rest.0);
                assert(hp.0.subrange(i as int, n as int).drop_first() =~= hp.0.subrange(
                    i as int + 1,
                    n as int,
                ));
                assert(self.hero_shoots@.subrange(0, i as int + 1) =~= hp.0.subrange(
                    0,
                    i as int + 1,
                ));
            }
            i = i + 1;
        }
        proof {
            assert(old(self).hero_shoots@.subrange(n as int, n as int) =~= Seq::<
                Shoot,
            >::empty());
            assert(hp.0.subrange(i as int, n as int) =~= Seq::<Shoot>::empty());
            assert(self.hero_shoots@.subrange(0, n as int) =~= self.hero_shoots@);
            assert(self.hero_shoots@ == hp.0);
            assert(enemies.enemies@ == hp.1);
            assert(barricades@ == hp.2);
        }

        let ghost ep = spec_enemy_pass(self.enemy_shoots@, *hero, barricades@);
        let m = self.enemy_shoots.len();
        proof {
            lemma_enemy_pass_len(self.enemy_shoots@, *hero, barricades@);
            assert(self.enemy_shoots@.subrange(0, 0) =~= ep.0.subrange(0, 0));
            assert(old(self).enemy_shoots@.subrange(0, m as int) =~= old(self).enemy_shoots@);
            assert(ep.0.subrange(0, m as int) =~= ep.0);
        }
        let mut k: usize = 0;
        while k < m
            invariant
                k <= m,
                self.enemy_shoots@.len() == m,
                self.hero_shoots@ == hp.0,
                self.hero_shoots_alive == count_true(shoot_alive_flags(self.hero_shoots@)),
                enemies.enemies@ == hp.1,
                spec_dead_consistent(*enemies),
                enemies.direction == old(enemies).direction,
                barricades@.len() == old(barricades)@.len(),
                self.enemy_shoots_alive == count_true(shoot_alive_flags(self.enemy_shoots@)),
                *barricades_alive == count_true(barricade_alive_flags(barricades@)),
                forall|j: int|
                    0 <= j < m ==> (#[trigger] self.enemy_shoots@[j]).owner
                        == ShootOwner::Enemy,
                forall|j: int|
                    k <= j < m ==> #[trigger] self.enemy_shoots@[j] == old(
                        self,
                    ).enemy_shoots@[j],
                self.enemy_shoots@.subrange(0, k as int) == ep.0.subrange(0, k as int),
                spec_enemy_pass(
                    old(self).enemy_shoots@.subrange(k as int, m as int),
                    *hero,
                    barricades@,
                ) == (ep.0.subrange(k as int, m as int), ep.1, ep.2),
            decreases m - k,
        {
            let ghost suffix = old(self).enemy_shoots@.subrange(k as int, m as int);
            let ghost h_pre = *hero;
            let ghost b_pre = barricades@;
            let sh = self.enemy_shoots[k];
            proof {
                assert(suffix[0] == sh);
                assert(suffix.drop_first() =~= old(self).enemy_shoots@.subrange(
                    k as int + 1,
                    m as int,
                ));
            }
            if sh.structure.alive {
                if sh.structure.overlaps(&hero.structure) {
                    hero.structure.alive = false;
                    let ghost es_pre = self.enemy_shoots@;
                    proof {
                        crate::counting::lemma_count_true_at_least_one(
                            shoot_alive_flags(es_pre),
                            k as int,
                        );
                    }
                    let mut dead_sh = sh;
                    dead_sh.structure.alive = false;
                    self.enemy_shoots[k] = dead_sh;
                    self.enemy_shoots_alive = self.enemy_shoots_alive - 1;
                    proof {
                        assert(shoot_alive_flags(self.enemy_shoots@) =~= shoot_alive_flags(
                            es_pre,
                        ).update(k as int, false));
                        lemma_count_true_update(shoot_alive_flags(es_pre), k as int, false);
                        assert(self.enemy_shoots@[k as int] == spec_dead_shot(sh));
                        assert(*hero == spec_dead_hero(h_pre));
                    }
                } else {
                    let bi = first_barricade_hit(&sh.structure, barricades);
                    match bi {
                        Some(g) => {
                            let mut b = barricades[g];
                            b.structure.alive = false;
                            let ghost ba_pre = barricades@;
                            barricades[g] = b;
                            proof {
                                crate::counting::lemma_count_true_at_least_one(
                                    barricade_alive_flags(ba_pre),
                                    g as int,
                                );
                                assert(barricade_alive_flags(barricades@)
                                    =~= barricade_alive_flags(ba_pre).update(g as int, false));
                                lemma_count_true_update(
                                    barricade_alive_flags(ba_pre),
                                    g as int,
                                    false,
                                );
                                assert(barricades@ =~= b_pre.update(
                                    g as int,
                                    spec_dead_barricade(b_pre[g as int]),
                                ));
                            }
                            *barricades_alive = *barricades_alive - 1;
                            let ghost es_pre = self.enemy_shoots@;
                            proof {
                                crate::counting::lemma_count_true_at_least_one(
                                    shoot_alive_flags(es_pre),
                                    k as int,
                                );
                            }
                            let mut dead_sh = sh;
                            dead_sh.structure.alive = false;
                            self.enemy_shoots[k] = dead_sh;
                            self.enemy_shoots_alive = self.enemy_shoots_alive - 1;
                            proof {
                                assert(shoot_alive_flags(self.enemy_shoots@)
                                    =~= shoot_alive_flags(es_pre).update(k as int, false));
                                lemma_count_true_update(
                                    shoot_alive_flags(es_pre),
                                    k as int,
                                    false,
                                );
                                assert(self.enemy_shoots@[k as int] == spec_dead_shot(sh));
                            }
                        },
                        None => {},
                    }
                }
            }
            proof {
                let rest = spec_enemy_pass(suffix.drop_first(), *hero, barricades@);
                let head = self.enemy_shoots@[k as int];
                assert(spec_enemy_pass(suffix, h_pre, b_pre) == (
                    seq![head] + rest.0,
                    rest.1,
                    rest.2,
                ));
                assert(ep.0.subrange(k as int, m as int) == seq![head] + rest.0);
                assert(ep.0[k as int] == (seq![head] + rest.0)[0]);
                assert((seq![head] + rest.0).drop_first() =~= rest.0);
                assert(ep.0.subrange(k as int, m as int).drop_first() =~= ep.0.subrange(
                    k as int + 1,
                    m as int,
                ));
                assert(self.enemy_shoots@.subrange(0, k as int + 1) =~= ep.0.subrange(
                    0,
                    k as int + 1,
                ));
            }
            k = k + 1;
        }
        proof {
            assert(old(self).enemy_shoots@.subrange(m as int, m as int) =~= Seq::<
                Shoot,
            >::empty());
            assert(self.enemy_shoots@.subrange(0, m as int) =~= self.enemy_shoots@);
            assert(self.enemy_shoots@ == ep.0);
        }
    }

    /// Advance every live shot by one tick of travel, retiring those that
    /// leave the screen and keeping both alive counters exact.
    pub fn handle_movement(&mut self, delta_ms: u64)
        requires
            old(self).wf(),
        ensures
            final(self).wf(),
            spec_advance_rel(*old(self), *final(self), delta_ms),
    {
        let n = self.enemy_shoots.len();
        let mut i: usize = 0;
        while i < n
            invariant
                n == self.enemy_shoots@.len(),
                n == old(self).enemy_shoots@.len(),
                i <= n,
                self.hero_shoots == old(self).hero_shoots,
                self.hero_shoots_alive == old(self).hero_shoots_alive,
                self.enemy_shoots_alive == count_true(shoot_alive_flags(self.enemy_shoots@)),
                forall|j: int|
                    0 <= j < i ==> #[trigger] self.enemy_shoots@[j] == spec_advanced_shot(
                        old(self).enemy_shoots@[j],
                        delta_ms,
                    ),
                forall|j: int| i <= j < n ==> self.enemy_shoots@[j] == old(self).enemy_shoots@[j],
            decreases n - i,
        {
            let mut sh = self.enemy_shoots[i];
            if sh.structure.alive {
                sh.move_forward(delta_ms);
                let ghost pre = self.enemy_shoots@;
                if sh.out_of_screen(crate::SCREEN_HEIGHT) {
                    proof {
                        lemma_count_true_bounds(shoot_alive_flags(pre).update(i as int, false));
                        lemma_count_true_update(shoot_alive_flags(pre), i as int, false);
                    }
                    sh.structure.alive = false;
                    self.enemy_shoots[i] = sh;
                    self.enemy_shoots_alive = self.enemy_shoots_alive - 1;
                    proof {
                        assert(shoot_alive_flags(self.enemy_shoots@) =~= shoot_alive_flags(
                            pre,
                        ).update(i as int, false));
                    }
                } else {
                    self.enemy_shoots[i] = sh;
                    proof {
                        assert(shoot_alive_flags(self.enemy_shoots@) =~= shoot_alive_flags(
                            pre,
                        ).update(i as int, true));
                        lemma_count_true_update(shoot_alive_flags(pre), i as int, true);
                    }
                }
            }
            i = i + 1;
        }
        let m = self.hero_shoots.len();
        let mut k: usize = 0;
        while k < m
            invariant
                m == self.hero_shoots@.len(),
                m == old(self).hero_shoots@.len(),
                k <= m,
                self.enemy_shoots@.len() == old(self).enemy_shoots@.len(),
                self.enemy_shoots_alive == count_true(shoot_alive_flags(self.enemy_shoots@)),
                forall|j: int|
                    0 <= j < old(self).enemy_shoots@.len() ==> #[trigger] self.enemy_shoots@[j]
                        == spec_advanced_shot(old(self).enemy_shoots@[j], delta_ms),
                self.hero_shoots_alive == count_true(shoot_alive_flags(self.hero_shoots@)),
                forall|j: int|
                    0 <= j < k ==> #[trigger] self.hero_shoots@[j] == spec_advanced_shot(
                        old(self).hero_shoots@[j],
                        delta_ms,
                    ),
                forall|j: int| k <= j < m ==> self.hero_shoots@[j] == old(self).hero_shoots@[j],
            decreases m - k,
        {
            let mut sh = self.hero_shoots[k];
            if sh.structure.alive {
                sh.move_forward(delta_ms);
                let ghost pre = self.hero_shoots@;
                if sh.out_of_screen(crate::SCREEN_HEIGHT) {
                    proof {
                        lemma_count_true_bounds(shoot_alive_flags(pre).update(k as int, false));
                        lemma_count_true_update(shoot_alive_flags(pre), k as int, false);
                    }
                    sh.structure.alive = false;
                    self.hero_shoots[k] = sh;
                    self.hero_shoots_alive = self.hero_shoots_alive - 1;
                    proof {
                        assert(shoot_alive_flags(self.hero_shoots@) =~= shoot_alive_flags(
                            pre,
                        ).update(k as int, false));
                    }
                } else {
                    self.hero_shoots[k] = sh;
                    proof {
                        assert(shoot_alive_flags(self.hero_shoots@) =~= shoot_alive_flags(
                            pre,
                        ).update(k as int, true));
                        lemma_count_true_update(shoot_alive_flags(pre), k as int, true);
                    }
                }
            }
            k = k + 1;
        }
        proof {
            lemma_owner_flags_preserved(old(self).hero_shoots@, self.hero_shoots@, delta_ms);
            lemma_owner_flags_preserved(old(self).enemy_shoots@, self.enemy_shoots@, delta_ms);
        }
    }
}

/// The hit boxes of a formation, in storage order.
pub open spec fn enemy_structures(s: Seq<Enemy>) -> Seq<ActorStructure> {
    s.map_values(|e: Enemy| e.structure)
}

/// The hit boxes of a barricade row, in storage order.
pub open spec fn barricade_structures(s: Seq<Barricade>) -> Seq<ActorStructure> {
    s.map_values(|b: Barricade| b.structure)
}

/// The first target in storage order that is alive and overlaps `sh`, or -1
/// if there is none.
pub open spec fn spec_first_hit(sh: ActorStructure, targets: Seq<ActorStructure>) -> int
    decreases targets.len(),
{
    if targets.len() == 0 {
        -1
    } else if targets[0].alive && spec_overlap(sh, targets[0]) {
        0
    } else {
        let r = spec_first_hit(sh, targets.drop_first());
        if r < 0 {
            -1
        } else {
            r + 1
        }
    }
}

/// What `spec_first_hit` returns: -1 exactly when no live target overlaps,
/// and otherwise the least index of a live overlapping target.
pub proof fn lemma_first_hit_props(sh: ActorStructure, targets: Seq<ActorStructure>)
    ensures
        spec_first_hit(sh, targets) == -1 || 0 <= spec_first_hit(sh, targets) < targets.len(),
        spec_first_hit(sh, targets) == -1 ==> forall|j: int|
            0 <= j < targets.len() ==> !((#[trigger] targets[j]).alive && spec_overlap(
                sh,
                targets[j],
            )),
        spec_first_hit(sh, targets) >= 0 ==> {
            let r = spec_first_hit(sh, targets);
            targets[r].alive && spec_overlap(sh, targets[r]) && forall|j: int|
                0 <= j < r ==> !((#[trigger] targets[j]).alive && spec_overlap(sh, targets[j]))
        },
    decreases targets.len(),
{
    if targets.len() > 0 {
        if !(targets[0].alive && spec_overlap(sh, targets[0])) {
            lemma_first_hit_props(sh, targets.drop_first());
            let tail = targets.drop_first();
            assert(forall|j: int| 0 <= j < tail.len() ==> #[trigger] tail[j] == targets[j + 1]);
            let r = spec_first_hit(sh, targets);
            if spec_first_hit(sh, tail) == -1 {
                assert forall|j: int| 0 <= j < targets.len() implies !((
                #[trigger] targets[j]).alive && spec_overlap(sh, targets[j])) by {
                    if j > 0 {
                        assert(targets[j] == tail[j - 1]);
                    }
                }
            } else {
                assert forall|j: int| 0 <= j < r implies !((#[trigger] targets[j]).alive
                    && spec_overlap(sh, targets[j])) by {
                    if j > 0 {
                        assert(targets[j] == tail[j - 1]);
                    }
                }
            }
        }
    }
}

/// The shot, retired.
pub open spec fn spec_dead_shot(s: Shoot) -> Shoot {
    Shoot { structure: ActorStructure { alive: false, ..s.structure }, ..s }
}

/// The enemy, shot down.
pub open spec fn spec_dead_enemy(e: Enemy) -> Enemy {
    Enemy { structure: ActorStructure { alive: false, ..e.structure } }
}

/// The barricade block, destroyed.
pub open spec fn spec_dead_barricade(b: Barricade) -> Barricade {
    Barricade { structure: ActorStructure { alive: false, ..b.structure } }
}

/// The hero, downed.
pub open spec fn spec_dead_hero(h: Hero) -> Hero {
    Hero { structure: ActorStructure { alive: false, ..h.structure } }
}

/// The collision pass over the hero's shots, processed in storage order.
/// Each live shot is tested against the live enemies and then the live
/// barricade blocks; on the first hit both shot and target are deactivated
/// and the shot scans no further.
pub open spec fn spec_hero_pass(
    shots: Seq<Shoot>,
    enemies: Seq<Enemy>,
    barricades: Seq<Barricade>,
) -> (Seq<Shoot>, Seq<Enemy>, Seq<Barricade>)
    decreases shots.len(),
{
    if shots.len() == 0 {
        (shots, enemies, barricades)
    } else {
        let sh = shots[0];
        if sh.structure.alive {
            let ei = spec_first_hit(sh.structure, enemy_structures(enemies));
            if ei >= 0 {
                let rest = spec_hero_pass(
                    shots.drop_first(),
                    enemies.update(ei, spec_dead_enemy(enemies[ei])),
                    barricades,
                );
                (seq![spec_dead_shot(sh)] + rest.0, rest.1, rest.2)
            } else {
                let bi = spec_first_hit(sh.structure, barricade_structures(barricades));
                if bi >= 0 {
                    let rest = spec_hero_pass(
                        shots.drop_first(),
                        enemies,
                        barricades.update(bi, spec_dead_barricade(barricades[bi])),
                    );
                    (seq![spec_dead_shot(sh)] + rest.0, rest.1, rest.2)
                } else {
                    let rest = spec_hero_pass(shots.drop_first(), enemies, barricades);
                    (seq![sh] + rest.0, rest.1, rest.2)
                }
            }
        } else {
            let rest = spec_hero_pass(shots.drop_first(), enemies, barricades);
            (seq![sh] + rest.0, rest.1, rest.2)
        }
    }
}

/// The collision pass over the formation's shots, processed in storage
/// order. Each live shot is tested against the hero's box first; on a hit
/// the shot retires and the hero goes down. Otherwise it is tested against
/// the live barricade blocks, first match wins.
pub open spec fn spec_enemy_pass(
    shots: Seq<Shoot>,
    hero: Hero,
    barricades: Seq<Barricade>,
) -> (Seq<Shoot>, Hero, Seq<Barricade>)
    decreases shots.len(),
{
    if shots.len() == 0 {
        (shots, hero, barricades)
    } else {
        let sh = shots[0];
        if sh.structure.alive {
            if spec_overlap(sh.structure, hero.structure) {
                let rest = spec_enemy_pass(shots.drop_first(), spec_dead_hero(hero), barricades);
                (seq![spec_dead_shot(sh)] + rest.0, rest.1, rest.2)
            } else {
                let bi = spec_first_hit(sh.structure, barricade_structures(barricades));
                if bi >= 0 {
                    let rest = spec_enemy_pass(
                        shots.drop_first(),
                        hero,
                        barricades.update(bi, spec_dead_barricade(barricades[bi])),
                    );
                    (seq![spec_dead_shot(sh)] + rest.0, rest.1, rest.2)
                } else {
                    let rest = spec_enemy_pass(shots.drop_first(), hero, barricades);
                    (seq![sh] + rest.0, rest.1, rest.2)
                }
            }
        } else {
            let rest = spec_enemy_pass(shots.drop_first(), hero, barricades);
            (seq![sh] + rest.0, rest.1, rest.2)
        }
    }
}

/// The hero pass keeps every sequence's length.
pub proof fn lemma_hero_pass_len(
    shots: Seq<Shoot>,
    enemies: Seq<Enemy>,
    barricades: Seq<Barricade>,
)
    ensures
        spec_hero_pass(shots, enemies, barricades).0.len() == shots.len(),
        spec_hero_pass(shots, enemies, barricades).1.len() == enemies.len(),
        spec_hero_pass(shots, enemies, barricades).2.len() == barricades.len(),
    decreases shots.len(),
{
    if shots.len() > 0 {
        let sh = shots[0];
        if sh.structure.alive {
            let ei = spec_first_hit(sh.structure, enemy_structures(enemies));
            lemma_first_hit_props(sh.structure, enemy_structures(enemies));
            if ei >= 0 {
                lemma_hero_pass_len(
                    shots.drop_first(),
                    enemies.update(ei, spec_dead_enemy(enemies[ei])),
                    barricades,
                );
            } else {
                let bi = spec_first_hit(sh.structure, barricade_structures(barricades));
                lemma_first_hit_props(sh.structure, barricade_structures(barricades));
                if bi >= 0 {
                    lemma_hero_pass_len(
                        shots.drop_first(),
                        enemies,
                        barricades.update(bi, spec_dead_barricade(barricades[bi])),
                    );
                } else {
                    lemma_hero_pass_len(shots.drop_first(), enemies, barricades);
                }
            }
        } else {
            lemma_hero_pass_len(shots.drop_first(), enemies, barricades);
        }
    }
}

/// The enemy pass keeps every sequence's length.
pub proof fn lemma_enemy_pass_len(shots: Seq<Shoot>, hero: Hero, barricades: Seq<Barricade>)
    ensures
        spec_enemy_pass(shots, hero, barricades).0.len() == shots.len(),
        spec_enemy_pass(shots, hero, barricades).2.len() == barricades.len(),
    decreases shots.len(),
{
    if shots.len() > 0 {
        let sh = shots[0];
        if sh.structure.alive {
            if spec_overlap(sh.structure, hero.structure) {
                lemma_enemy_pass_len(shots.drop_first(), spec_dead_hero(hero), barricades);
            } else {
                let bi = spec_first_hit(sh.structure, barricade_structures(barricades));
                lemma_first_hit_props(sh.structure, barricade_structures(barricades));
                if bi >= 0 {
                    lemma_enemy_pass_len(
                        shots.drop_first(),
                        hero,
                        barricades.update(bi, spec_dead_barricade(barricades[bi])),
                    );
                } else {
                    lemma_enemy_pass_len(shots.drop_first(), hero, barricades);
                }
            }
        } else {
            lemma_enemy_pass_len(shots.drop_first(), hero, barricades);
        }
    }
}

/// Index of the first live formation member that `sh` overlaps, if any.
fn first_enemy_hit(sh: &ActorStructure, enemies: &Vec<Enemy>) -> (r: Option<usize>)
    ensures
        match r {
            Some(f) => f < enemies@.len() && enemies@[f as int].structure.alive && spec_overlap(
                *sh,
                enemies@[f as int].structure,
            ) && f == spec_first_hit(*sh, enemy_structures(enemies@)),
            None => spec_first_hit(*sh, enemy_structures(enemies@)) == -1,
        },
{
    let n = enemies.len();
    let mut t: usize = 0;
    let mut found: Option<usize> = None;
    while t < n
        invariant
            t <= n,
            n == enemies@.len(),
            match found {
                Some(f) => f < t && enemies@[f as int].structure.alive && spec_overlap(
                    *sh,
                    enemies@[f as int].structure,
                ) && forall|j: int|
                    0 <= j < f ==> !((#[trigger] enemies@[j]).structure.alive && spec_overlap(
                        *sh,
                        enemies@[j].structure,
                    )),
                None => forall|j: int|
                    0 <= j < t ==> !((#[trigger] enemies@[j]).structure.alive && spec_overlap(
                        *sh,
                        enemies@[j].structure,
                    )),
            },
        decreases n - t,
    {
        if found.is_none() && enemies[t].structure.alive && sh.overlaps(
            &enemies[t].structure,
        ) {
            found = Some(t);
        }
        t = t + 1;
    }
    proof {
        lemma_first_hit_props(*sh, enemy_structures(enemies@));
        let ts = enemy_structures(enemies@);
        let r = spec_first_hit(*sh, ts);
        match found {
            Some(f) => {
                assert(ts[f as int] == enemies@[f as int].structure);
                assert(ts[f as int].alive && spec_overlap(*sh, ts[f as int]));
                assert(r != -1);
                assert(ts[r] == enemies@[r].structure);
                assert(r == f);
            },
            None => {
                if r >= 0 {
                    assert(ts[r] == enemies@[r].structure);
                    assert(false);
                }
            },
        }
    }
    found
}

/// Index of the first live barricade block that `sh` overlaps, if any.
fn first_barricade_hit(sh: &ActorStructure, barricades: &Vec<Barricade>) -> (r: Option<usize>)
    ensures
        match r {
            Some(f) => f < barricades@.len() && barricades@[f as int].structure.alive
                && spec_overlap(*sh, barricades@[f as int].structure) && f == spec_first_hit(
                *sh,
                barricade_structures(barricades@),
            ),
            None => spec_first_hit(*sh, barricade_structures(barricades@)) == -1,
        },
{
    let n = barricades.len();
    let mut t: usize = 0;
    let mut found: Option<usize> = None;
    while t < n
        invariant
            t <= n,
            n == barricades@.len(),
            match found {
                Some(f) => f < t && barricades@[f as int].structure.alive && spec_overlap(
                    *sh,
                    barricades@[f as int].structure,
                ) && forall|j: int|
                    0 <= j < f ==> !((#[trigger] barricades@[j]).structure.alive
                        && spec_overlap(*sh, barricades@[j].structure)),
                None => forall|j: int|
                    0 <= j < t ==> !((#[trigger] barricades@[j]).structure.alive
                        && spec_overlap(*sh, barricades@[j].structure)),
            },
        decreases n - t,
    {
        if found.is_none() && barricades[t].structure.alive && sh.overlaps(
            &barricades[t].structure,
        ) {
            found = Some(t);
        }
        t = t + 1;
    }
    proof {
        lemma_first_hit_props(*sh, barricade_structures(barricades@));
        let ts = barricade_structures(barricades@);
        let r = spec_first_hit(*sh, ts);
        match found {
            Some(f) => {
                assert(ts[f as int] == barricades@[f as int].structure);
                assert(ts[f as int].alive && spec_overlap(*sh, ts[f as int]));
                assert(r != -1);
                assert(ts[r] == barricades@[r].structure);
                assert(r == f);
            },
            None => {
                if r >= 0 {
                    assert(ts[r] == barricades@[r].structure);
                    assert(false);
                }
            },
        }
    }
    found
}

/// What one movement tick does to both pools: every slot advanced by
/// `spec_advanced_shot`, both counters exact again.
pub open spec fn spec_advance_rel(pre: Shoots, post: Shoots, delta_ms: u64) -> bool {
    &&& post.hero_shoots@.len() == pre.hero_shoots@.len()
    &&& post.enemy_shoots@.len() == pre.enemy_shoots@.len()
    &&& forall|i: int|
        0 <= i < pre.hero_shoots@.len() ==> #[trigger] post.hero_shoots@[i]
            == spec_advanced_shot(pre.hero_shoots@[i], delta_ms)
    &&& forall|i: int|
        0 <= i < pre.enemy_shoots@.len() ==> #[trigger] post.enemy_shoots@[i]
            == spec_advanced_shot(pre.enemy_shoots@[i], delta_ms)
    &&& post.hero_shoots_alive == count_true(shoot_alive_flags(post.hero_shoots@))
    &&& post.enemy_shoots_alive == count_true(shoot_alive_flags(post.enemy_shoots@))
}

/// What one collision pass does to the whole battlefield: the hero pass
/// runs over the hero shots, enemies and barricades, then the enemy pass
/// runs over the enemy shots, the hero and the barricades the hero pass
/// left, and the dead and alive counters are exact again.
pub open spec fn spec_collisions_rel(
    s0: Shoots,
    s1: Shoots,
    h0: Hero,
    h1: Hero,
    e0: Enemies,
    e1: Enemies,
    b0: Seq<Barricade>,
    b1: Seq<Barricade>,
    balive1: usize,
) -> bool {
    let hp = spec_hero_pass(s0.hero_shoots@, e0.enemies@, b0);
    let ep = spec_enemy_pass(s0.enemy_shoots@, h0, hp.2);
    &&& s1.hero_shoots@ == hp.0
    &&& e1.enemies@ == hp.1
    &&& s1.enemy_shoots@ == ep.0
    &&& h1 == ep.1
    &&& b1 == ep.2
    &&& e1.direction == e0.direction
    &&& spec_dead_consistent(e1)
    &&& s1.wf()
    &&& balive1 == count_true(barricade_alive_flags(b1))
}

/// An inactive slot parked at the origin.
pub open spec fn spec_empty_slot(owner: ShootOwner) -> Shoot {
    Shoot {
        structure: ActorStructure {
            sprite: None,
            width: SHOOT_BOX_WIDTH,
            height: SHOOT_BOX_HEIGHT,
            alive: false,
            coordinates: Coordinates { virtual_x: 0, virtual_y: 0 },
        },
        owner,
    }
}

/// One tick's spawning: first the hero spawn attempt, then the enemy spawn
/// attempt on the resulting pools.
pub open spec fn spec_create_rel(
    pre: Shoots,
    post: Shoots,
    shoot: Option<Shoot>,
    rnd: u32,
    g: Enemies,
) -> bool {
    exists|mid: Shoots|
        #[trigger] spec_hero_spawn_rel(pre, mid, shoot) && spec_enemy_spawn_rel(mid, post, rnd, g)
}

/// What a hero spawn attempt does to the pools: with a full pool or no
/// request nothing changes; otherwise the first free hero slot comes alive
/// at the requested position and the counter steps up by one. The enemy pool
/// is never touched.
pub open spec fn spec_hero_spawn_rel(pre: Shoots, post: Shoots, shoot: Option<Shoot>) -> bool {
    &&& post.enemy_shoots == pre.enemy_shoots
    &&& post.enemy_shoots_alive == pre.enemy_shoots_alive
    &&& if pre.hero_shoots_alive >= SHOOT_HERO_MAX || shoot is None {
        post.hero_shoots == pre.hero_shoots && post.hero_shoots_alive == pre.hero_shoots_alive
    } else {
        exists|i: int|
            {
                &&& 0 <= i < pre.hero_shoots@.len()
                &&& !(#[trigger] pre.hero_shoots@[i]).structure.alive
                &&& forall|j: int| 0 <= j < i ==> (#[trigger] pre.hero_shoots@[j]).structure.alive
                &&& post.hero_shoots@ == pre.hero_shoots@.update(
                    i,
                    Shoot {
                        structure: ActorStructure {
                            alive: true,
                            coordinates: shoot.unwrap().structure.coordinates,
                            ..pre.hero_shoots@[i].structure
                        },
                        ..pre.hero_shoots@[i]
                    },
                )
                &&& post.hero_shoots_alive == pre.hero_shoots_alive + 1
            }
    }
}

/// What an enemy spawn attempt does to the pools: with a full pool nothing
/// changes; otherwise the member chosen by `rnd` over the alive subsequence
/// fires into the first free enemy slot. The hero pool is never touched.
pub open spec fn spec_enemy_spawn_rel(pre: Shoots, post: Shoots, rnd: u32, g: Enemies) -> bool {
    &&& post.hero_shoots == pre.hero_shoots
    &&& post.hero_shoots_alive == pre.hero_shoots_alive
    &&& if pre.enemy_shoots_alive >= SHOOT_ENEMY_MAX {
        post.enemy_shoots == pre.enemy_shoots && post.enemy_shoots_alive
            == pre.enemy_shoots_alive
    } else {
        exists|c: int, i: int|
            {
                &&& 0 <= c < g.enemies@.len()
                &&& (#[trigger] g.enemies@[c]).structure.alive
                &&& alive_before(g.enemies@, c) == (rnd as int) % (g.enemies@.len()
                    - g.enemies_dead as int)
                &&& 0 <= i < pre.enemy_shoots@.len()
                &&& !(#[trigger] pre.enemy_shoots@[i]).structure.alive
                &&& forall|j: int|
                    0 <= j < i ==> (#[trigger] pre.enemy_shoots@[j]).structure.alive
                &&& post.enemy_shoots@ == pre.enemy_shoots@.update(
                    i,
                    Shoot {
                        structure: ActorStructure {
                            alive: true,
                            coordinates: spec_enemy_spawn_coordinates(g.enemies@[c]),
                            ..pre.enemy_shoots@[i].structure
                        },
                        ..pre.enemy_shoots@[i]
                    },
                )
                &&& post.enemy_shoots_alive == pre.enemy_shoots_alive + 1
            }
    }
}

/// A pool of slots that are all inactive counts zero live shots.
proof fn lemma_all_dead_count_zero(s: Seq<Shoot>)
    requires
        forall|i: int| 0 <= i < s.len() ==> !(#[trigger] s[i]).structure.alive,
    ensures
        count_true(shoot_alive_flags(s)) == 0,
    decreases s.len(),
{
    if s.len() > 0 {
        lemma_all_dead_count_zero(s.drop_last());
        assert(shoot_alive_flags(s).drop_last() =~= shoot_alive_flags(s.drop_last()));
    }
}

/// Advancing shots changes no owner tag.
proof fn lemma_owner_flags_preserved(pre: Seq<Shoot>, post: Seq<Shoot>, delta_ms: u64)
    requires
        pre.len() == post.len(),
        forall|i: int|
            0 <= i < pre.len() ==> #[trigger] post[i] == spec_advanced_shot(pre[i], delta_ms),
    ensures
        forall|i: int| 0 <= i < pre.len() ==> (#[trigger] post[i]).owner == pre[i].owner,
{
}

/// Neither pool's alive counter can exceed its configured capacity.
pub proof fn lemma_pool_within_capacity(s: Shoots)
    requires
        s.wf(),
    ensures
        s.hero_shoots_alive <= SHOOT_HERO_MAX,
        s.enemy_shoots_alive <= SHOOT_ENEMY_MAX,
{
    lemma_count_true_bounds(shoot_alive_flags(s.hero_shoots@));
    lemma_count_true_bounds(shoot_alive_flags(s.enemy_shoots@));
}

} // verus!
