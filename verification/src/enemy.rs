use vstd::prelude::*;

use crate::actor::{ActorStructure, Sprite};
use crate::coordinates::{
    lemma_pixel_monotonic, spec_pixel, spec_sat_add, spec_sat_sub, Coordinates, SUB_PIXELS,
};
use crate::counting::count_true;
use crate::hero::HERO_HEIGHT;
use crate::{SCREEN_HEIGHT, SCREEN_MARGIN, SCREEN_WIDTH};

verus! {

/// Width of the basic enemy hit box in pixels.
pub const ENEMY_WIDTH: u32 = 40;

/// Height of the basic enemy hit box in pixels.
pub const ENEMY_HEIGHT: u32 = 32;

/// Horizontal gap between neighbouring enemies in a row.
pub const BASE_OFFSET_IN_BETWEEN_ALIENS_IN_ROW: u32 = 20;

/// Vertical gap between neighbouring enemy rows.
pub const BASE_OFFSET_IN_BETWEEN_ALIENS_IN_COL: u32 = 25;

/// Rows in the standard formation.
pub const ENEMY_ROWS: u32 = 4;

/// Columns in the standard formation.
#[verifier::nonlinear]
pub const ENEMY_COLS: u32 = (SCREEN_WIDTH - SCREEN_MARGIN * 2) / (ENEMY_WIDTH
    + BASE_OFFSET_IN_BETWEEN_ALIENS_IN_ROW) - 10;

/// Vertical distance between the top margin and the formation's first row.
pub const ENEMY_OFFSET_Y_FROM_MARGIN: u32 = HERO_HEIGHT;

/// How many pixels the whole formation steps down on a bound hit.
pub const ENEMY_STEP_DOWN: u32 = (SCREEN_HEIGHT - SCREEN_MARGIN) / ENEMY_HEIGHT;

/// Base formation speed in sub-pixel units per millisecond.
pub const ENEMY_SPEED_SUB_PER_MS: u64 = 20;

/// Enemies in the standard formation.
#[verifier::nonlinear]
pub const TOTAL_ENEMIES: usize = (ENEMY_ROWS * ENEMY_COLS) as usize;

/// Asset-table index of the basic enemy image.
pub const ENEMY_SPRITE_ID: usize = 1;

/// Asset-table index of the green enemy image.
pub const ENEMY_GREEN_SPRITE_ID: usize = 2;

/// Asset-table index of the red enemy image.
pub const ENEMY_RED_SPRITE_ID: usize = 3;

/// One member of the enemy formation.
#[derive(Debug, Copy, Clone, PartialEq, Eq, Structural)]
pub struct Enemy {
    /// The enemy's hit box and position.
    pub structure: ActorStructure,
}

impl Enemy {
    /// A live basic enemy at the origin.
    pub fn new() -> (r: Enemy)
        ensures
            r.structure.sprite == Some(Sprite { image: ENEMY_SPRITE_ID }),
            r.structure.width == ENEMY_WIDTH,
            r.structure.height == ENEMY_HEIGHT,
            r.structure.alive,
            r.structure.coordinates.virtual_x == 0,
            r.structure.coordinates.virtual_y == 0,
    {
        Enemy {
            structure: ActorStructure {
                sprite: Some(Sprite::new(ENEMY_SPRITE_ID)),
                width: ENEMY_WIDTH,
                height: ENEMY_HEIGHT,
                alive: true,
                coordinates: Coordinates::new(0, 0),
            },
        }
    }

    /// Turn this enemy into the green kind: same box, green image.
    pub fn set_green_alien(&mut self)
        ensures
            final(self).structure == (ActorStructure {
                sprite: Some(Sprite { image: ENEMY_GREEN_SPRITE_ID }),
                width: 40,
                height: 32,
                ..old(self).structure
            }),
    {
        self.structure.width = 40;
        self.structure.height = 32;
        self.structure.sprite = Some(Sprite::new(ENEMY_GREEN_SPRITE_ID));
    }

    /// Turn this enemy into the red kind: a slightly smaller box, red image.
    pub fn set_red_alien(&mut self)
        ensures
            final(self).structure == (ActorStructure {
                sprite: Some(Sprite { image: ENEMY_RED_SPRITE_ID }),
                width: 39,
                height: 31,
                ..old(self).structure
            }),
    {
        self.structure.width = 39;
        self.structure.height = 31;
        self.structure.sprite = Some(Sprite::new(ENEMY_RED_SPRITE_ID));
    }
}

/// The direction the formation is travelling.
#[derive(Debug, Copy, Clone, PartialEq, Eq, Structural)]
pub enum EnemiesDirection {
    /// Travelling toward the right margin.
    Right,
    /// Travelling toward the left margin.
    Left,
}

impl EnemiesDirection {
    /// The opposite travel direction.
    pub fn invert_direction(&self) -> (r: Self)
        ensures
            r == spec_invert(*self),
    {
        match self {
            EnemiesDirection::Right => EnemiesDirection::Left,
            EnemiesDirection::Left => EnemiesDirection::Right,
        }
    }
}

/// The opposite of a travel direction.
pub open spec fn spec_invert(d: EnemiesDirection) -> EnemiesDirection {
    match d {
        EnemiesDirection::Right => EnemiesDirection::Left,
        EnemiesDirection::Left => EnemiesDirection::Right,
    }
}

/// The alive flags of a formation, in storage order.
pub open spec fn alive_flags(s: Seq<Enemy>) -> Seq<bool> {
    s.map_values(|e: Enemy| e.structure.alive)
}

/// The standard formation is ten columns of four rows: forty enemies.
pub proof fn lemma_formation_dimensions()
    ensures
        ENEMY_COLS == 10,
        TOTAL_ENEMIES == 40,
{
    vstd::arithmetic::div_mod::lemma_fundamental_div_mod_converse_div(
        (SCREEN_WIDTH - SCREEN_MARGIN * 2) as int,
        (ENEMY_WIDTH + BASE_OFFSET_IN_BETWEEN_ALIENS_IN_ROW) as int,
        20,
        40,
    );
}

/// The dead counter agrees with the alive flags: exactly `enemies_dead`
/// members are down.
pub open spec fn spec_dead_consistent(g: Enemies) -> bool {
    g.enemies_dead <= g.enemies@.len() && count_true(alive_flags(g.enemies@)) == g.enemies@.len()
        - g.enemies_dead
}

/// How many members before index `i` are alive: the position `i` would take
/// in the alive subsequence.
pub open spec fn alive_before(s: Seq<Enemy>, i: int) -> int {
    count_true(alive_flags(s).subrange(0, i))
}

/// How far the formation travels horizontally in one tick, in sub-pixel
/// units: the base speed, raised by two base speeds' worth for a fully dead
/// formation, scaled linearly in between, times the elapsed milliseconds.
pub open spec fn spec_formation_offset(delta_ms: u64, total: int, dead: int) -> int {
    ENEMY_SPEED_SUB_PER_MS * delta_ms * (total + 2 * dead) / total
}

/// The grid of enemies moving and flipping direction as one unit.
#[derive(Debug)]
pub struct Enemies {
    /// The formation members, row-major from the top-left.
    pub enemies: Vec<Enemy>,
    /// How many members have been shot down.
    pub enemies_dead: usize,
    /// Current travel direction.
    pub direction: EnemiesDirection,
}

/// There is a live enemy whose right edge is at or past the right margin, so
/// a rightward-travelling formation has hit its bound.
pub open spec fn spec_right_limit(s: Seq<Enemy>) -> bool {
    exists|i: int|
        0 <= i < s.len() && s[i].structure.alive && spec_pixel(
            s[i].structure.coordinates.virtual_x,
        ) + ENEMY_WIDTH >= SCREEN_WIDTH - SCREEN_MARGIN
}

/// There is a live enemy at or past the left margin, so a leftward-travelling
/// formation has hit its bound.
pub open spec fn spec_left_limit(s: Seq<Enemy>) -> bool {
    exists|i: int|
        0 <= i < s.len() && s[i].structure.alive && spec_pixel(
            s[i].structure.coordinates.virtual_x,
        ) <= SCREEN_MARGIN
}

/// The formation has reached the screen bound it is travelling toward.
pub open spec fn spec_bound_hit(g: Enemies) -> bool {
    (g.direction == EnemiesDirection::Right && spec_right_limit(g.enemies@)) || (g.direction
        == EnemiesDirection::Left && spec_left_limit(g.enemies@))
}

/// Every live member stepped down by the fixed vertical step; nothing else
/// about any member changed.
pub open spec fn spec_stepped_down(pre: Seq<Enemy>, post: Seq<Enemy>) -> bool {
    post.len() == pre.len() && forall|i: int|
        0 <= i < pre.len() ==> post[i] == (if pre[i].structure.alive {
            Enemy {
                structure: ActorStructure {
                    coordinates: Coordinates {
                        virtual_x: pre[i].structure.coordinates.virtual_x,
                        virtual_y: spec_sat_add(
                            pre[i].structure.coordinates.virtual_y,
                            (ENEMY_STEP_DOWN * SUB_PIXELS) as u64,
                        ),
                    },
                    ..pre[i].structure
                },
            }
        } else {
            pre[i]
        })
}

/// Every live member advanced horizontally by `offset` sub-pixel units in
/// direction `dir` (stopping at zero on the left); nothing else changed.
pub open spec fn spec_shifted(
    pre: Seq<Enemy>,
    post: Seq<Enemy>,
    dir: EnemiesDirection,
    offset: u64,
) -> bool {
    post.len() == pre.len() && forall|i: int|
        0 <= i < pre.len() ==> post[i] == (if pre[i].structure.alive {
            Enemy {
                structure: ActorStructure {
                    coordinates: Coordinates {
                        virtual_x: if dir == EnemiesDirection::Right {
                            spec_sat_add(pre[i].structure.coordinates.virtual_x, offset)
                        } else {
                            spec_sat_sub(pre[i].structure.coordinates.virtual_x, offset)
                        },
                        virtual_y: pre[i].structure.coordinates.virtual_y,
                    },
                    ..pre[i].structure
                },
            }
        } else {
            pre[i]
        })
}

/// What one formation move does: on a bound hit every live member steps down
/// and the direction flips with no horizontal travel; otherwise every live
/// member advances horizontally and the direction is kept.
pub open spec fn spec_move_rel(pre: Enemies, post: Enemies, delta_ms: u64) -> bool {
    &&& post.enemies_dead == pre.enemies_dead
    &&& if spec_bound_hit(pre) {
        post.direction == spec_invert(pre.direction) && spec_stepped_down(
            pre.enemies@,
            post.enemies@,
        )
    } else {
        post.direction == pre.direction && spec_shifted(
            pre.enemies@,
            post.enemies@,
            pre.direction,
            spec_formation_offset(
                delta_ms,
                pre.enemies@.len() as int,
                pre.enemies_dead as int,
            ) as u64,
        )
    }
}

impl Enemies {
    /// Whether every formation member has been shot down.
    pub fn all_dead(&self) -> (r: bool)
        requires
            self.enemies_dead <= self.enemies@.len(),
        ensures
            r == (self.enemies_dead == self.enemies@.len()),
    {
        self.enemies.len() - self.enemies_dead == 0
    }

    /// The standard formation: every member alive, travelling right.
    pub fn new() -> (r: Enemies)
        ensures
            r.enemies@.len() == TOTAL_ENEMIES,
            forall|i: int|
                0 <= i < TOTAL_ENEMIES ==> spec_initial_enemy(
                    #[trigger] r.enemies@[i],
                    i % (ENEMY_COLS as int),
                    i / (ENEMY_COLS as int),
                ),
            r.enemies_dead == 0,
            r.direction == EnemiesDirection::Right,
    {
        Enemies {
            enemies: Self::init_enemies(),
            enemies_dead: 0,
            direction: EnemiesDirection::Right,
        }
    }

    /// Lay out the standard grid: row-major, columns spaced by the enemy
    /// width plus the row gap, rows spaced by the enemy height plus the
    /// column gap; the second row green, later rows red.
    pub fn init_enemies() -> (r: Vec<Enemy>)
        ensures
            r@.len() == TOTAL_ENEMIES,
            forall|i: int|
                0 <= i < TOTAL_ENEMIES ==> spec_initial_enemy(
                    #[trigger] r@[i],
                    i % (ENEMY_COLS as int),
                    i / (ENEMY_COLS as int),
                ),
    {
        let mut enemies: Vec<Enemy> = Vec::new();
        let mut i: usize = 0;
        while i < TOTAL_ENEMIES
            invariant
                i <= TOTAL_ENEMIES,
                enemies@.len() == i,
                forall|j: int|
                    0 <= j < i ==> spec_initial_enemy(
                        #[trigger] enemies@[j],
                        j % (ENEMY_COLS as int),
                        j / (ENEMY_COLS as int),
                    ),
            decreases TOTAL_ENEMIES - i,
        {
            proof {
                lemma_formation_dimensions();
            }
            let x = (i as u32) % ENEMY_COLS;
            let y = (i as u32) / ENEMY_COLS;
            proof {
                assert(x < 10);
                assert(y <= 3);
            }
            let col_pitch = ENEMY_WIDTH + BASE_OFFSET_IN_BETWEEN_ALIENS_IN_ROW;
            let row_pitch = ENEMY_HEIGHT + BASE_OFFSET_IN_BETWEEN_ALIENS_IN_COL;
            let offset_x = SCREEN_MARGIN + col_pitch * x;
            let offset_y = row_pitch * y + SCREEN_MARGIN + ENEMY_OFFSET_Y_FROM_MARGIN;
            let mut enemy = Enemy::new();
            enemy.structure.coordinates = Coordinates::new(offset_x, offset_y);
            if y == 1 {
                enemy.set_green_alien();
            } else if y > 1 {
                enemy.set_red_alien();
            }
            enemies.push(enemy);
            i = i + 1;
        }
        enemies
    }

    /// One formation move for a tick of `delta_ms` milliseconds, as
    /// `spec_move_rel` describes.
    pub fn move_enemies(&mut self, delta_ms: u64)
        requires
            old(self).enemies@.len() > 0,
            old(self).enemies_dead <= old(self).enemies@.len(),
            exists|i: int|
                0 <= i < old(self).enemies@.len() && old(self).enemies@[i].structure.alive,
            old(self).enemies@.len() as int + 2 * old(self).enemies_dead as int
                <= u64::MAX as int,
            ENEMY_SPEED_SUB_PER_MS * delta_ms * (old(self).enemies@.len() as int + 2 * old(
                self,
            ).enemies_dead as int) <= u64::MAX as int,
        ensures
            spec_move_rel(*old(self), *final(self), delta_ms),
    {
        let n = self.enemies.len();
        let mut found = false;
        let mut max_vx: u64 = 0;
        let mut min_vx: u64 = u64::MAX;
        let mut k: usize = 0;
        while k < n
            invariant
                n == self.enemies@.len(),
                k <= n,
                found == exists|i: int|
                    0 <= i < k && (#[trigger] self.enemies@[i]).structure.alive,
                found ==> exists|i: int|
                    0 <= i < k && (#[trigger] self.enemies@[i]).structure.alive
                        && self.enemies@[i].structure.coordinates.virtual_x == max_vx,
                found ==> exists|i: int|
                    0 <= i < k && (#[trigger] self.enemies@[i]).structure.alive
                        && self.enemies@[i].structure.coordinates.virtual_x == min_vx,
                forall|i: int|
                    0 <= i < k && (#[trigger] self.enemies@[i]).structure.alive
                        ==> self.enemies@[i].structure.coordinates.virtual_x <= max_vx,
                forall|i: int|
                    0 <= i < k && (#[trigger] self.enemies@[i]).structure.alive
                        ==> self.enemies@[i].structure.coordinates.virtual_x >= min_vx,
            decreases n - k,
        {
            let e = self.enemies[k];
            if e.structure.alive {
                if !found {
                    found = true;
                    max_vx = e.structure.coordinates.virtual_x;
                    min_vx = e.structure.coordinates.virtual_x;
                } else {
                    if e.structure.coordinates.virtual_x > max_vx {
                        max_vx = e.structure.coordinates.virtual_x;
                    }
                    if e.structure.coordinates.virtual_x < min_vx {
                        min_vx = e.structure.coordinates.virtual_x;
                    }
                }
            }
            k = k + 1;
        }
        let ghost pre = *self;

        let max_px = crate::coordinates::Coordinates {
            virtual_x: max_vx,
            virtual_y: 0,
        }.x();
        let min_px = crate::coordinates::Coordinates {
            virtual_x: min_vx,
            virtual_y: 0,
        }.x();
        let right_limit = self.direction == EnemiesDirection::Right && max_px as u64
            + ENEMY_WIDTH as u64 >= (SCREEN_WIDTH - SCREEN_MARGIN) as u64;
        let left_limit = self.direction == EnemiesDirection::Left && min_px <= SCREEN_MARGIN;

        proof {
            if right_limit {
                let i = choose|i: int|
                    0 <= i < n && (#[trigger] pre.enemies@[i]).structure.alive
                        && pre.enemies@[i].structure.coordinates.virtual_x == max_vx;
                assert(spec_right_limit(pre.enemies@));
            }
            if spec_right_limit(pre.enemies@) && pre.direction == EnemiesDirection::Right {
                let i = choose|i: int|
                    0 <= i < n && (#[trigger] pre.enemies@[i]).structure.alive && spec_pixel(
                        pre.enemies@[i].structure.coordinates.virtual_x,
                    ) + ENEMY_WIDTH >= SCREEN_WIDTH - SCREEN_MARGIN;
                lemma_pixel_monotonic(pre.enemies@[i].structure.coordinates.virtual_x, max_vx);
                assert(right_limit);
            }
            if left_limit {
                let i = choose|i: int|
                    0 <= i < n && (#[trigger] pre.enemies@[i]).structure.alive
                        && pre.enemies@[i].structure.coordinates.virtual_x == min_vx;
                assert(spec_left_limit(pre.enemies@));
            }
            if spec_left_limit(pre.enemies@) && pre.direction == EnemiesDirection::Left {
                let i = choose|i: int|
                    0 <= i < n && (#[trigger] pre.enemies@[i]).structure.alive && spec_pixel(
                        pre.enemies@[i].structure.coordinates.virtual_x,
                    ) <= SCREEN_MARGIN;
                lemma_pixel_monotonic(min_vx, pre.enemies@[i].structure.coordinates.virtual_x);
                assert(left_limit);
            }
            assert((right_limit || left_limit) == spec_bound_hit(pre));
        }

        if left_limit || right_limit {
            let step_sub = ENEMY_STEP_DOWN as u64 * SUB_PIXELS;
            let mut k: usize = 0;
            while k < n
                invariant
                    n == self.enemies@.len(),
                    n == pre.enemies@.len(),
                    k <= n,
                    self.enemies_dead == pre.enemies_dead,
                    self.direction == pre.direction,
                    step_sub == ENEMY_STEP_DOWN * SUB_PIXELS,
                    forall|i: int|
                        0 <= i < k ==> self.enemies@[i] == (if pre.enemies@[i].structure.alive {
                            Enemy {
                                structure: ActorStructure {
                                    coordinates: Coordinates {
                                        virtual_x:
                                            pre.enemies@[i].structure.coordinates.virtual_x,
                                        virtual_y: spec_sat_add(
                                            pre.enemies@[i].structure.coordinates.virtual_y,
                                            (ENEMY_STEP_DOWN * SUB_PIXELS) as u64,
                                        ),
                                    },
                                    ..pre.enemies@[i].structure
                                },
                            }
                        } else {
                            pre.enemies@[i]
                        }),
                    forall|i: int| k <= i < n ==> self.enemies@[i] == pre.enemies@[i],
                decreases n - k,
            {
                let mut e = self.enemies[k];
                if e.structure.alive {
                    e.structure.coordinates.add_virtual_y(step_sub, 1);
                    self.enemies[k] = e;
                }
                k = k + 1;
            }
            self.direction = self.direction.invert_direction();
            return ;
        }

        let total = n as u64;
        let dead = self.enemies_dead as u64;
        let factor = total + 2 * dead;
        proof {
            vstd::arithmetic::mul::lemma_mul_inequality(
                1,
                factor as int,
                ENEMY_SPEED_SUB_PER_MS as int * delta_ms as int,
            );
            vstd::arithmetic::mul::lemma_mul_is_commutative(
                factor as int,
                ENEMY_SPEED_SUB_PER_MS as int * delta_ms as int,
            );
        }
        let scaled = ENEMY_SPEED_SUB_PER_MS * delta_ms;
        let offset = scaled * factor / total;

        let mut k: usize = 0;
        let dir = self.direction;
        while k < n
            invariant
                n == self.enemies@.len(),
                n == pre.enemies@.len(),
                k <= n,
                self.enemies_dead == pre.enemies_dead,
                self.direction == pre.direction,
                dir == pre.direction,
                forall|i: int|
                    0 <= i < k ==> self.enemies@[i] == (if pre.enemies@[i].structure.alive {
                        Enemy {
                            structure: ActorStructure {
                                coordinates: Coordinates {
                                    virtual_x: if dir == EnemiesDirection::Right {
                                        spec_sat_add(
                                            pre.enemies@[i].structure.coordinates.virtual_x,
                                            offset,
                                        )
                                    } else {
                                        spec_sat_sub(
                                            pre.enemies@[i].structure.coordinates.virtual_x,
                                            offset,
                                        )
                                    },
                                    virtual_y: pre.enemies@[i].structure.coordinates.virtual_y,
                                },
                                ..pre.enemies@[i].structure
                            },
                        }
                    } else {
                        pre.enemies@[i]
                    }),
                forall|i: int| k <= i < n ==> self.enemies@[i] == pre.enemies@[i],
            decreases n - k,
        {
            let mut e = self.enemies[k];
            if e.structure.alive {
                if dir == EnemiesDirection::Right {
                    e.structure.coordinates.add_virtual_x(offset);
                } else {
                    e.structure.coordinates.sub_virtual_x(offset);
                }
                self.enemies[k] = e;
            }
            k = k + 1;
        }
    }
}

/// The standard starting state of the formation member at column `x`,
/// row `y`.
pub open spec fn spec_initial_enemy(e: Enemy, x: int, y: int) -> bool {
    &&& e.structure.alive
    &&& e.structure.coordinates.virtual_x == (SCREEN_MARGIN + (ENEMY_WIDTH
        + BASE_OFFSET_IN_BETWEEN_ALIENS_IN_ROW) * x) * SUB_PIXELS
    &&& e.structure.coordinates.virtual_y == ((ENEMY_HEIGHT
        + BASE_OFFSET_IN_BETWEEN_ALIENS_IN_COL) * y + SCREEN_MARGIN
        + ENEMY_OFFSET_Y_FROM_MARGIN) * SUB_PIXELS
    &&& if y == 1 {
        e.structure.sprite == Some(Sprite { image: ENEMY_GREEN_SPRITE_ID })
            && e.structure.width == 40 && e.structure.height == 32
    } else if y > 1 {
        e.structure.sprite == Some(Sprite { image: ENEMY_RED_SPRITE_ID })
            && e.structure.width == 39 && e.structure.height == 31
    } else {
        e.structure.sprite == Some(Sprite { image: ENEMY_SPRITE_ID }) && e.structure.width
            == ENEMY_WIDTH && e.structure.height == ENEMY_HEIGHT
    }
}

/// The formation's direction flips exactly on a bound hit, and a tick that
/// flips it moves nobody horizontally.
pub proof fn lemma_direction_flips_only_on_bound_hit(
    pre: Enemies,
    post: Enemies,
    delta_ms: u64,
)
    requires
        spec_move_rel(pre, post, delta_ms),
    ensures
        (post.direction != pre.direction) <==> spec_bound_hit(pre),
        spec_bound_hit(pre) ==> forall|i: int|
            0 <= i < pre.enemies@.len()
                ==> (#[trigger] post.enemies@[i]).structure.coordinates.virtual_x
                == pre.enemies@[i].structure.coordinates.virtual_x,
{
}

/// A formation move changes no alive flag and no dead counter, so the two
/// stay consistent.
pub proof fn lemma_move_rel_preserves_consistency(pre: Enemies, post: Enemies, delta_ms: u64)
    requires
        spec_move_rel(pre, post, delta_ms),
        spec_dead_consistent(pre),
    ensures
        spec_dead_consistent(post),
        post.enemies@.len() == pre.enemies@.len(),
{
    assert(alive_flags(post.enemies@) =~= alive_flags(pre.enemies@));
}

/// For a fixed tick length and formation size, the horizontal travel per tick
/// never shrinks as the dead count grows.
pub proof fn lemma_offset_monotonic_in_dead(delta_ms: u64, total: int, dead1: int, dead2: int)
    requires
        total > 0,
        0 <= dead1 <= dead2,
    ensures
        spec_formation_offset(delta_ms, total, dead1) <= spec_formation_offset(
            delta_ms,
            total,
            dead2,
        ),
{
    let s = ENEMY_SPEED_SUB_PER_MS * delta_ms;
    vstd::arithmetic::mul::lemma_mul_inequality(total + 2 * dead1, total + 2 * dead2, s as int);
    vstd::arithmetic::mul::lemma_mul_is_commutative(total + 2 * dead1, s as int);
    vstd::arithmetic::mul::lemma_mul_is_commutative(total + 2 * dead2, s as int);
    vstd::arithmetic::div_mod::lemma_div_is_ordered(
        s * (total + 2 * dead1),
        s * (total + 2 * dead2),
        total,
    );
}

} // verus!
