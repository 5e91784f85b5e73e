use vstd::prelude::*;

use crate::actor::ActorStructure;
use crate::barricade::{barricade_alive_flags, Barricade, TOTAL_BARRICADE_BLOCKS};
use crate::coordinates::{spec_pixel, Coordinates, SUB_PIXELS};
use crate::counting::{count_true, lemma_count_true_all, lemma_count_true_pos_has_true,
    lemma_count_true_zero};
use crate::enemy::{alive_flags, spec_dead_consistent, Enemies, EnemiesDirection,
    ENEMY_SPEED_SUB_PER_MS, TOTAL_ENEMIES};
use crate::hero::{Hero, HeroMovementDirection, HERO_SPAWN_X, HERO_SPAWN_Y};
use crate::lives::LivesCount;
use crate::score_count::ScoreCount;
use crate::shoot::{spec_dead_barricade, Shoot, Shoots};
use crate::EndOfGame;

verus! {

/// Longest tick the orchestrator accepts, in milliseconds; far beyond any
/// real frame time, it only keeps the movement arithmetic within `u64`.
pub const MAX_TICK_DELTA_MS: u64 = 1000000000;

/// Entries in the session's fixed pseudo-random table.
pub const RANDOM_TABLE_LEN: usize = 20;

/// One play session's entire state, owned exclusively by the orchestrator.
#[derive(Debug)]
pub struct GameContext {
    /// The player's ship.
    pub hero: Hero,
    /// Both projectile pools.
    pub shoots: Shoots,
    /// Every barricade block of the session.
    pub barricades: Vec<Barricade>,
    /// How many barricade blocks are still standing.
    pub barricades_alive: usize,
    /// The enemy formation.
    pub enemies: Enemies,
    /// Fixed table the per-tick pseudo-random values are drawn from.
    pub random: Vec<u32>,
    /// Next entry of the random table to use.
    pub random_index: usize,
    /// Lives left.
    pub lives_count: LivesCount,
    /// Score bookkeeping.
    pub score_count: ScoreCount,
}

/// The hero as it stands right after a respawn: alive at the spawn point.
pub open spec fn spec_respawned_hero(h: Hero) -> Hero {
    Hero {
        structure: ActorStructure {
            alive: true,
            coordinates: Coordinates {
                virtual_x: (HERO_SPAWN_X * SUB_PIXELS) as u64,
                virtual_y: (HERO_SPAWN_Y * SUB_PIXELS) as u64,
            },
            ..h.structure
        },
    }
}

/// A live formation member's lower edge has reached or passed the hero's
/// upper edge.
pub open spec fn spec_enemy_reached_hero(g: Enemies, hero: Hero) -> bool {
    exists|i: int|
        0 <= i < g.enemies@.len() && (#[trigger] g.enemies@[i]).structure.alive && spec_pixel(
            g.enemies@[i].structure.coordinates.virtual_y,
        ) + g.enemies@[i].structure.height >= spec_pixel(hero.structure.coordinates.virtual_y)
}

/// A live formation member's lower edge has reached or passed the top of
/// the barricade row, whose row is given by its first block.
pub open spec fn spec_enemy_reached_barricades(g: Enemies, barricades: Seq<Barricade>) -> bool {
    exists|i: int|
        0 <= i < g.enemies@.len() && (#[trigger] g.enemies@[i]).structure.alive && spec_pixel(
            g.enemies@[i].structure.coordinates.virtual_y,
        ) + g.enemies@[i].structure.height >= spec_pixel(
            barricades[0].structure.coordinates.virtual_y,
        )
}

/// What the terminal evaluator does, in the order the rules apply: a downed
/// hero costs a life or, with none left, the session; a fully dead formation
/// wins it; a formation reaching the hero row loses it; a formation reaching
/// a still-standing barricade row razes the barricades and play goes on.
pub open spec fn spec_game_over_rel(
    pre: GameContext,
    post: GameContext,
    r: Option<EndOfGame>,
) -> bool {
    let d = pre.enemies.enemies_dead;
    let hero_down = !pre.hero.structure.alive;
    let hero1 = if hero_down {
        spec_respawned_hero(pre.hero)
    } else {
        pre.hero
    };
    &&& post.enemies == pre.enemies
    &&& post.shoots == pre.shoots
    &&& post.score_count == pre.score_count
    &&& post.random == pre.random
    &&& post.random_index == pre.random_index
    &&& if hero_down && pre.lives_count.count == 0 {
        &&& r == Some(EndOfGame::Lost(d))
        &&& post.hero == pre.hero
        &&& post.lives_count == pre.lives_count
        &&& post.barricades == pre.barricades
        &&& post.barricades_alive == pre.barricades_alive
    } else {
        &&& post.hero == hero1
        &&& post.lives_count.count == (if hero_down {
            pre.lives_count.count - 1
        } else {
            pre.lives_count.count as int
        })
        &&& if d == pre.enemies.enemies@.len() {
            &&& r == Some(EndOfGame::Won(d))
            &&& post.barricades == pre.barricades
            &&& post.barricades_alive == pre.barricades_alive
        } else if spec_enemy_reached_hero(pre.enemies, hero1) {
            &&& r == Some(EndOfGame::Lost(d))
            &&& post.barricades == pre.barricades
            &&& post.barricades_alive == pre.barricades_alive
        } else if spec_enemy_reached_barricades(pre.enemies, pre.barricades@)
            && pre.barricades_alive > 0 {
            &&& r is None
            &&& post.barricades@.len() == pre.barricades@.len()
            &&& forall|j: int|
                0 <= j < pre.barricades@.len() ==> #[trigger] post.barricades@[j]
                    == spec_dead_barricade(pre.barricades@[j])
            &&& post.barricades_alive == 0
        } else {
            &&& r is None
            &&& post.barricades == pre.barricades
            &&& post.barricades_alive == pre.barricades_alive
        }
    }
}

/// Which entry of the random table this tick draws: the cursor, wrapped
/// back to the start when it has run off the table.
pub open spec fn spec_wrapped_index(g: GameContext) -> int {
    if g.random_index >= g.random@.len() {
        0
    } else {
        g.random_index as int
    }
}

/// What one whole tick does, phase by phase: a restart request leaves the
/// session untouched and reports `Restarted`; otherwise one random value is
/// consumed, the tick's shots spawn, everything moves, collisions resolve,
/// the displayed scores refresh, and the terminal rules decide the outcome.
/// The intermediate states are the witnesses.
pub open spec fn spec_tick_rel(
    pre: GameContext,
    post: GameContext,
    dir: HeroMovementDirection,
    shoot: Option<Shoot>,
    delta_ms: u64,
    r: Option<EndOfGame>,
) -> bool {
    if dir == HeroMovementDirection::RestartGame {
        r == Some(EndOfGame::Restarted) && post == pre
    } else {
        exists|g1: GameContext, g2: GameContext, g3: GameContext, g4: GameContext|
            #![trigger crate::shoot::spec_create_rel(
                pre.shoots,
                g1.shoots,
                shoot,
                pre.random@[spec_wrapped_index(pre)],
                pre.enemies,
            ), crate::enemy::spec_move_rel(g1.enemies, g2.enemies, delta_ms),
                crate::shoot::spec_collisions_rel(
                g2.shoots,
                g3.shoots,
                g2.hero,
                g3.hero,
                g2.enemies,
                g3.enemies,
                g2.barricades@,
                g3.barricades@,
                g3.barricades_alive,
            ), spec_game_over_rel(g4, post, r)]
            {
                &&& crate::shoot::spec_create_rel(
                    pre.shoots,
                    g1.shoots,
                    shoot,
                    pre.random@[spec_wrapped_index(pre)],
                    pre.enemies,
                )
                &&& g1.random == pre.random
                &&& g1.random_index == spec_wrapped_index(pre) + 1
                &&& g1.hero == pre.hero
                &&& g1.enemies == pre.enemies
                &&& g1.barricades == pre.barricades
                &&& g1.barricades_alive == pre.barricades_alive
                &&& g1.lives_count == pre.lives_count
                &&& g1.score_count == pre.score_count
                &&& crate::enemy::spec_move_rel(g1.enemies, g2.enemies, delta_ms)
                &&& crate::hero::spec_hero_moved(g1.hero, g2.hero, dir, delta_ms)
                &&& crate::shoot::spec_advance_rel(g1.shoots, g2.shoots, delta_ms)
                &&& g2.random == g1.random
                &&& g2.random_index == g1.random_index
                &&& g2.barricades == g1.barricades
                &&& g2.barricades_alive == g1.barricades_alive
                &&& g2.lives_count == g1.lives_count
                &&& g2.score_count == g1.score_count
                &&& crate::shoot::spec_collisions_rel(
                    g2.shoots,
                    g3.shoots,
                    g2.hero,
                    g3.hero,
                    g2.enemies,
                    g3.enemies,
                    g2.barricades@,
                    g3.barricades@,
                    g3.barricades_alive,
                )
                &&& g3.random == g2.random
                &&& g3.random_index == g2.random_index
                &&& g3.lives_count == g2.lives_count
                &&& g3.score_count == g2.score_count
                &&& g4 == (GameContext {
                    score_count: ScoreCount {
                        current_score_updated: (g3.score_count.current_score
                            + g3.enemies.enemies_dead) as u32,
                        high_score_updated: (if g3.score_count.current_score
                            + g3.enemies.enemies_dead > g3.score_count.high_score {
                            (g3.score_count.current_score + g3.enemies.enemies_dead) as u32
                        } else {
                            g3.score_count.high_score
                        }),
                        ..g3.score_count
                    },
                    ..g3
                })
                &&& spec_game_over_rel(g4, post, r)
            }
    }
}

/// When the terminal evaluator ends a session: it reports a win exactly
/// when the whole formation is dead and the downed-hero rule did not end
/// the session first, and a loss exactly when the hero went down with no
/// lives left or, failing a win, a live enemy reached the hero's row.
pub proof fn lemma_terminal_outcomes(pre: GameContext, post: GameContext, r: Option<EndOfGame>)
    requires
        spec_game_over_rel(pre, post, r),
    ensures
        (r == Some(EndOfGame::Won(pre.enemies.enemies_dead))) <==> (pre.enemies.enemies_dead
            == pre.enemies.enemies@.len() && !(!pre.hero.structure.alive
            && pre.lives_count.count == 0)),
        (r == Some(EndOfGame::Lost(pre.enemies.enemies_dead))) <==> ((!pre.hero.structure.alive
            && pre.lives_count.count == 0) || (!(!pre.hero.structure.alive
            && pre.lives_count.count == 0) && pre.enemies.enemies_dead
            != pre.enemies.enemies@.len() && spec_enemy_reached_hero(
            pre.enemies,
            if !pre.hero.structure.alive {
                spec_respawned_hero(pre.hero)
            } else {
                pre.hero
            },
        ))),
{
}

impl GameContext {
    /// The session state is well formed: pools and counters consistent, the
    /// standard formation and barricade row in place, and a non-empty random
    /// table with its cursor in range.
    pub open spec fn wf(self) -> bool {
        &&& self.shoots.wf()
        &&& spec_dead_consistent(self.enemies)
        &&& self.enemies.enemies@.len() == TOTAL_ENEMIES
        &&& self.barricades_alive == count_true(barricade_alive_flags(self.barricades@))
        &&& self.barricades@.len() == TOTAL_BARRICADE_BLOCKS
        &&& self.random@.len() == RANDOM_TABLE_LEN
        &&& self.random_index <= self.random@.len()
    }

    /// A fresh session: full formation, standing barricades, empty pools,
    /// the hero at its spawn, and the carried scores and lives.
    pub fn new(high_score: u32, current_score: u32, current_lives: u8) -> (r: GameContext)
        ensures
            r.wf(),
            r.enemies.enemies_dead == 0,
            r.enemies.direction == EnemiesDirection::Right,
            r.hero.structure.alive,
            r.lives_count.count == current_lives,
            r.score_count == (ScoreCount {
                current_score,
                high_score,
                high_score_updated: high_score,
                current_score_updated: current_score,
            }),
            r.shoots.hero_shoots_alive == 0,
            r.shoots.enemy_shoots_alive == 0,
            r.barricades_alive == TOTAL_BARRICADE_BLOCKS,
            r.random_index == 0,
    {
        let enemies = Enemies::new();
        let shoots = Shoots::new();
        let hero = Hero::new();
        let barricades = Barricade::create_barricades();
        let barricades_alive = barricades.len();
        let score_count = ScoreCount::new(current_score, high_score);
        let lives_count = LivesCount::new(current_lives);

        let mut random: Vec<u32> = Vec::new();
        random.push(35);
        random.push(13);
        random.push(65);
        random.push(16);
        random.push(15);
        random.push(23);
        random.push(84);
        random.push(79);
        random.push(65);
        random.push(85);
        random.push(99);
        random.push(8);
        random.push(63);
        random.push(74);
        random.push(57);
        random.push(75);
        random.push(9);
        random.push(92);
        random.push(25);
        random.push(29);

        proof {
            assert(forall|i: int|
                0 <= i < enemies.enemies@.len() ==> alive_flags(enemies.enemies@)[i]);
            lemma_count_true_all(alive_flags(enemies.enemies@));
            assert(forall|i: int|
                0 <= i < barricades@.len() ==> barricade_alive_flags(barricades@)[i]);
            lemma_count_true_all(barricade_alive_flags(barricades@));
        }

        GameContext {
            hero,
            shoots,
            barricades,
            barricades_alive,
            enemies,
            random,
            random_index: 0,
            lives_count,
            score_count,
        }
    }

    /// Apply this tick's movement to shots, formation and hero, in that
    /// order.
    fn handle_movements(&mut self, hero_movement_direction: HeroMovementDirection, delta_ms: u64)
        requires
            old(self).wf(),
            old(self).enemies.enemies_dead < old(self).enemies.enemies@.len(),
            delta_ms <= MAX_TICK_DELTA_MS,
        ensures
            final(self).wf(),
            crate::enemy::spec_move_rel(old(self).enemies, final(self).enemies, delta_ms),
            crate::hero::spec_hero_moved(
                old(self).hero,
                final(self).hero,
                hero_movement_direction,
                delta_ms,
            ),
            crate::shoot::spec_advance_rel(old(self).shoots, final(self).shoots, delta_ms),
            final(self).barricades == old(self).barricades,
            final(self).barricades_alive == old(self).barricades_alive,
            final(self).lives_count == old(self).lives_count,
            final(self).score_count == old(self).score_count,
            final(self).random == old(self).random,
            final(self).random_index == old(self).random_index,
    {
        proof {
            lemma_count_true_pos_has_true(alive_flags(self.enemies.enemies@));
            assert(exists|i: int|
                0 <= i < self.enemies.enemies@.len()
                    && (#[trigger] self.enemies.enemies@[i]).structure.alive) by {
                let w = choose|w: int|
                    0 <= w < alive_flags(self.enemies.enemies@).len() && alive_flags(
                        self.enemies.enemies@,
                    )[w];
                assert(self.enemies.enemies@[w].structure.alive);
            }
        }
        proof {
            crate::enemy::lemma_formation_dimensions();
            vstd::arithmetic::mul::lemma_mul_upper_bound(
                ENEMY_SPEED_SUB_PER_MS as int * delta_ms as int,
                ENEMY_SPEED_SUB_PER_MS as int * MAX_TICK_DELTA_MS as int,
                self.enemies.enemies@.len() as int + 2 * self.enemies.enemies_dead as int,
                120,
            );
        }
        self.shoots.handle_movement(delta_ms);
        self.enemies.move_enemies(delta_ms);
        self.hero.handle_movement(hero_movement_direction, delta_ms);
        proof {
            crate::enemy::lemma_move_rel_preserves_consistency(
                old(self).enemies,
                self.enemies,
                delta_ms,
            );
        }
    }

    /// The terminal evaluator, exactly as `spec_game_over_rel` describes.
    #[verifier::loop_isolation(false)]
    pub fn check_game_over(&mut self) -> (r: Option<EndOfGame>)
        requires
            old(self).wf(),
        ensures
            final(self).wf(),
            spec_game_over_rel(*old(self), *final(self), r),
    {
        if !self.hero.structure.alive {
            if self.lives_count.is_out_of_lives() {
                return Some(EndOfGame::Lost(self.enemies.enemies_dead));
            }
            self.lives_count.decrease();
            self.hero.structure.alive = true;
            self.hero.structure.coordinates = Coordinates::new(HERO_SPAWN_X, HERO_SPAWN_Y);
        }

        if self.enemies.all_dead() {
            return Some(EndOfGame::Won(self.enemies.enemies_dead));
        }

        let n = self.enemies.enemies.len();
        let hero_y = self.hero.structure.coordinates.y();
        let barricade_y = self.barricades[0].structure.coordinates.y();
        let mut reached_hero = false;
        let mut reached_barricades = false;
        let mut i: usize = 0;
        while i < n
            invariant
                i <= n,
                reached_hero == exists|j: int|
                    0 <= j < i && (#[trigger] self.enemies.enemies@[j]).structure.alive
                        && spec_pixel(self.enemies.enemies@[j].structure.coordinates.virtual_y)
                        + self.enemies.enemies@[j].structure.height >= hero_y,
                reached_barricades == exists|j: int|
                    0 <= j < i && (#[trigger] self.enemies.enemies@[j]).structure.alive
                        && spec_pixel(self.enemies.enemies@[j].structure.coordinates.virtual_y)
                        + self.enemies.enemies@[j].structure.height >= barricade_y,
            decreases n - i,
        {
            let e = self.enemies.enemies[i];
            if e.structure.alive {
                let lower = e.structure.coordinates.y() as u64 + e.structure.height as u64;
                if lower >= hero_y as u64 {
                    reached_hero = true;
                }
                if lower >= barricade_y as u64 {
                    reached_barricades = true;
                }
            }
            i = i + 1;
        }

        if reached_hero {
            return Some(EndOfGame::Lost(self.enemies.enemies_dead));
        }

        if reached_barricades && self.barricades_alive > 0 {
            let m = self.barricades.len();
            let ghost pre_raze = *self;
            let ghost b_pre = self.barricades@;
            let mut j: usize = 0;
            while j < m
                invariant
                    j <= m,
                    self.barricades@.len() == m,
                    self.hero == pre_raze.hero,
                    self.enemies == pre_raze.enemies,
                    self.shoots == pre_raze.shoots,
                    self.lives_count == pre_raze.lives_count,
                    self.score_count == pre_raze.score_count,
                    self.random == pre_raze.random,
                    self.random_index == pre_raze.random_index,
                    self.barricades_alive == pre_raze.barricades_alive,
                    forall|t: int|
                        0 <= t < j ==> #[trigger] self.barricades@[t] == spec_dead_barricade(
                            b_pre[t],
                        ),
                    forall|t: int| j <= t < m ==> self.barricades@[t] == b_pre[t],
                decreases m - j,
            {
                let mut b = self.barricades[j];
                b.structure.alive = false;
                self.barricades[j] = b;
                j = j + 1;
            }
            self.barricades_alive = 0;
            proof {
                assert(forall|t: int|
                    0 <= t < m ==> !(#[trigger] barricade_alive_flags(self.barricades@)[t]));
                lemma_count_true_zero(barricade_alive_flags(self.barricades@));
            }
        }
        None
    }

    /// One simulation step: spawn this tick's shots, move everything,
    /// resolve collisions, refresh the score, and evaluate the terminal
    /// rules. A restart request short-circuits the whole step, leaving the
    /// session untouched.
    pub fn tick(
        &mut self,
        hero_movement_direction: HeroMovementDirection,
        shoot: Option<Shoot>,
        delta_ms: u64,
    ) -> (r: Option<EndOfGame>)
        requires
            old(self).wf(),
            old(self).enemies.enemies_dead < old(self).enemies.enemies@.len(),
            delta_ms <= MAX_TICK_DELTA_MS,
            old(self).score_count.current_score + old(self).enemies.enemies@.len()
                <= u32::MAX,
        ensures
            final(self).wf(),
            spec_tick_rel(
                *old(self),
                *final(self),
                hero_movement_direction,
                shoot,
                delta_ms,
                r,
            ),
            hero_movement_direction == HeroMovementDirection::RestartGame ==> r == Some(
                EndOfGame::Restarted,
            ) && *final(self) == *old(self),
            hero_movement_direction != HeroMovementDirection::RestartGame ==> (r == Some(
                EndOfGame::Restarted,
            )) == false,
            r matches Some(EndOfGame::Won(d)) ==> d == final(self).enemies.enemies_dead && d
                == final(self).enemies.enemies@.len(),
            r matches Some(EndOfGame::Lost(d)) ==> d == final(self).enemies.enemies_dead,
            final(self).score_count.current_score == old(self).score_count.current_score,
            final(self).score_count.high_score == old(self).score_count.high_score,
    {
        if matches!(hero_movement_direction, HeroMovementDirection::RestartGame) {
            return Some(EndOfGame::Restarted);
        }

        if self.random_index >= self.random.len() {
            self.random_index = 0;
        }
        let rnd = self.random[self.random_index];
        self.random_index = self.random_index + 1;

        self.shoots.create_shoots(shoot, rnd, &self.enemies);
        let ghost g1 = *self;

        self.handle_movements(hero_movement_direction, delta_ms);
        let ghost g2 = *self;

        let mut hero = self.hero;
        self.shoots.check_collisions(
            &mut hero,
            &mut self.enemies,
            &mut self.barricades,
            &mut self.barricades_alive,
        );
        self.hero = hero;
        let ghost g3 = *self;

        self.score_count.update(self.enemies.enemies_dead);
        let ghost g4 = *self;

        let r = self.check_game_over();
        proof {
            assert(crate::shoot::spec_create_rel(
                old(self).shoots,
                g1.shoots,
                shoot,
                old(self).random@[spec_wrapped_index(*old(self))],
                old(self).enemies,
            ));
            assert(g4 == (GameContext {
                score_count: ScoreCount {
                    current_score_updated: (g3.score_count.current_score
                        + g3.enemies.enemies_dead) as u32,
                    high_score_updated: (if g3.score_count.current_score
                        + g3.enemies.enemies_dead > g3.score_count.high_score {
                        (g3.score_count.current_score + g3.enemies.enemies_dead) as u32
                    } else {
                        g3.score_count.high_score
                    }),
                    ..g3.score_count
                },
                ..g3
            }));
            assert(spec_tick_rel(
                *old(self),
                *self,
                hero_movement_direction,
                shoot,
                delta_ms,
                r,
            ));
        }
        r
    }
}

} // verus!
