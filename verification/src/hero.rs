use vstd::prelude::*;

use crate::actor::{ActorStructure, Sprite};
use crate::coordinates::{spec_sat_add, spec_sat_mul, spec_sat_sub, Coordinates, SUB_PIXELS};
use crate::{SCREEN_MARGIN, SCREEN_WIDTH};

verus! {

/// Width of the hero's hit box in pixels.
pub const HERO_WIDTH: u32 = 60;

/// Height of the hero's hit box in pixels.
pub const HERO_HEIGHT: u32 = 29;

/// Pixel column where the hero spawns.
pub const HERO_SPAWN_X: u32 = SCREEN_WIDTH / 2 - HERO_WIDTH;

/// Pixel row where the hero spawns.
pub const HERO_SPAWN_Y: u32 = crate::SCREEN_HEIGHT_NO_MARGIN - HERO_HEIGHT;

/// Hero horizontal speed in sub-pixel units per millisecond.
pub const HERO_SPEED_SUB_PER_MS: u64 = 200;

/// Asset-table index of the hero image.
pub const HERO_SPRITE_ID: usize = 0;

/// Leftmost virtual horizontal value the hero may take: the left margin.
pub const HERO_MIN_VIRTUAL_X: u64 = SCREEN_MARGIN as u64 * SUB_PIXELS;

/// Rightmost virtual horizontal value the hero may take, so that the hero's
/// right edge stays at the right margin.
pub const HERO_MAX_VIRTUAL_X: u64 = (SCREEN_WIDTH - HERO_WIDTH - SCREEN_MARGIN) as u64
    * SUB_PIXELS;

/// The direction the player asked the hero to move this tick.
#[derive(Debug, Copy, Clone, PartialEq, Eq, Structural)]
pub enum HeroMovementDirection {
    /// Move toward the left margin.
    Left,
    /// Move toward the right margin.
    Right,
    /// No directional input.
    Still,
    /// The player asked for a fresh game.
    RestartGame,
}

/// The player's ship: one actor box clamped between the side margins.
#[derive(Debug, Copy, Clone, PartialEq, Eq, Structural)]
pub struct Hero {
    /// The hero's hit box and position.
    pub structure: ActorStructure,
}

impl Hero {
    /// A live hero at its spawn position.
    pub fn new() -> (r: Hero)
        ensures
            r.structure.width == HERO_WIDTH,
            r.structure.height == HERO_HEIGHT,
            r.structure.alive,
            r.structure.coordinates.virtual_x == HERO_SPAWN_X as u64 * SUB_PIXELS,
            r.structure.coordinates.virtual_y == HERO_SPAWN_Y as u64 * SUB_PIXELS,
    {
        Hero {
            structure: ActorStructure {
                sprite: Some(Sprite::new(HERO_SPRITE_ID)),
                width: HERO_WIDTH,
                height: HERO_HEIGHT,
                alive: true,
                coordinates: Coordinates::new(HERO_SPAWN_X, HERO_SPAWN_Y),
            },
        }
    }

    /// Move left by `delta_ms` worth of travel, clamping the virtual value at
    /// the left margin so the hero can never leave the play-field.
    fn move_left(&mut self, delta_ms: u64)
        ensures
            final(self).structure.coordinates.virtual_x == spec_left_move(
                old(self).structure.coordinates.virtual_x,
                delta_ms,
            ),
            final(self).structure.coordinates.virtual_y == old(
                self,
            ).structure.coordinates.virtual_y,
            unchanged_but_x(*old(self), *final(self)),
    {
        let travelled = match HERO_SPEED_SUB_PER_MS.checked_mul(delta_ms) {
            Some(t) => t,
            None => u64::MAX,
        };
        let moved = self.structure.coordinates.virtual_x.saturating_sub(travelled);
        let clamped = if moved < HERO_MIN_VIRTUAL_X {
            HERO_MIN_VIRTUAL_X
        } else {
            moved
        };
        self.structure.coordinates.set_virtual_x(clamped);
    }

    /// Move right by `delta_ms` worth of travel, clamping the virtual value so
    /// the hero's right edge stays within the right margin.
    fn move_right(&mut self, delta_ms: u64)
        ensures
            final(self).structure.coordinates.virtual_x == spec_right_move(
                old(self).structure.coordinates.virtual_x,
                delta_ms,
            ),
            final(self).structure.coordinates.virtual_y == old(
                self,
            ).structure.coordinates.virtual_y,
            unchanged_but_x(*old(self), *final(self)),
    {
        let travelled = match HERO_SPEED_SUB_PER_MS.checked_mul(delta_ms) {
            Some(t) => t,
            None => u64::MAX,
        };
        let moved = self.structure.coordinates.virtual_x.saturating_add(travelled);
        let clamped = if moved > HERO_MAX_VIRTUAL_X {
            HERO_MAX_VIRTUAL_X
        } else {
            moved
        };
        self.structure.coordinates.set_virtual_x(clamped);
    }

    /// Apply this tick's directional input. `Still` and `RestartGame` leave
    /// the hero in place; a hero that starts between the margins stays
    /// between them.
    pub fn handle_movement(
        &mut self,
        hero_movement_direction: HeroMovementDirection,
        delta_ms: u64,
    )
        ensures
            spec_hero_moved(*old(self), *final(self), hero_movement_direction, delta_ms),
    {
        match hero_movement_direction {
            HeroMovementDirection::Left => self.move_left(delta_ms),
            HeroMovementDirection::Right => self.move_right(delta_ms),
            _ => (),
        }
    }
}

/// Where a left move from virtual value `vx` lands after `delta_ms`.
pub open spec fn spec_left_move(vx: u64, delta_ms: u64) -> u64 {
    let moved = spec_sat_sub(vx, spec_sat_mul(HERO_SPEED_SUB_PER_MS, delta_ms));
    if moved < HERO_MIN_VIRTUAL_X {
        HERO_MIN_VIRTUAL_X
    } else {
        moved
    }
}

/// Where a right move from virtual value `vx` lands after `delta_ms`.
pub open spec fn spec_right_move(vx: u64, delta_ms: u64) -> u64 {
    let moved = spec_sat_add(vx, spec_sat_mul(HERO_SPEED_SUB_PER_MS, delta_ms));
    if moved > HERO_MAX_VIRTUAL_X {
        HERO_MAX_VIRTUAL_X
    } else {
        moved
    }
}

/// What one movement tick does to the hero: left and right travel clamp at
/// the margins, anything else stands still, and only the horizontal
/// position changes.
pub open spec fn spec_hero_moved(
    pre: Hero,
    post: Hero,
    dir: HeroMovementDirection,
    delta_ms: u64,
) -> bool {
    &&& post.structure.coordinates.virtual_x == match dir {
        HeroMovementDirection::Left => spec_left_move(pre.structure.coordinates.virtual_x, delta_ms),
        HeroMovementDirection::Right => spec_right_move(
            pre.structure.coordinates.virtual_x,
            delta_ms,
        ),
        _ => pre.structure.coordinates.virtual_x,
    }
    &&& post.structure.coordinates.virtual_y == pre.structure.coordinates.virtual_y
    &&& unchanged_but_x(pre, post)
}

/// Everything about the hero except its horizontal position is unchanged.
pub open spec fn unchanged_but_x(a: Hero, b: Hero) -> bool {
    b.structure.sprite == a.structure.sprite && b.structure.width == a.structure.width
        && b.structure.height == a.structure.height && b.structure.alive == a.structure.alive
}

/// However the hero moves, its virtual horizontal value never drops below the
/// left margin nor rises past the right margin, as long as it started there.
pub proof fn lemma_hero_stays_within_margins(h0: Hero, h1: Hero, dir: HeroMovementDirection, delta_ms: u64)
    requires
        HERO_MIN_VIRTUAL_X <= h0.structure.coordinates.virtual_x,
        h0.structure.coordinates.virtual_x <= HERO_MAX_VIRTUAL_X,
        h1.structure.coordinates.virtual_x == match dir {
            HeroMovementDirection::Left => spec_left_move(
                h0.structure.coordinates.virtual_x,
                delta_ms,
            ),
            HeroMovementDirection::Right => spec_right_move(
                h0.structure.coordinates.virtual_x,
                delta_ms,
            ),
            _ => h0.structure.coordinates.virtual_x,
        },
    ensures
        HERO_MIN_VIRTUAL_X <= h1.structure.coordinates.virtual_x,
        h1.structure.coordinates.virtual_x <= HERO_MAX_VIRTUAL_X,
{
}

} // verus!
