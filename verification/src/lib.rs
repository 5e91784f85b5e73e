pub mod actor;
pub mod allocator;
pub mod barricade;
pub mod color;
pub mod coordinates;
pub mod counting;
pub mod enemy;
pub mod framebuffer;
pub mod game_context;
pub mod hero;
pub mod lives;
pub mod mailbox;
pub mod score_count;
pub mod shoot;
pub mod time;

use vstd::prelude::*;

verus! {

/// Width of the play-field in pixels.
pub const SCREEN_WIDTH: u32 = 1280;

/// Height of the play-field in pixels.
pub const SCREEN_HEIGHT: u32 = 720;

/// Width/height margin kept clear at the edges of the play-field.
pub const SCREEN_MARGIN: u32 = 20;

/// Right-hand limit of the playable area.
pub const SCREEN_WIDTH_NO_MARGIN: u32 = SCREEN_WIDTH - SCREEN_MARGIN;

/// Bottom limit of the playable area.
pub const SCREEN_HEIGHT_NO_MARGIN: u32 = SCREEN_HEIGHT - SCREEN_MARGIN;

/// Lives a fresh game starts with.
pub const MAX_LIVES: u8 = 3;

/// How one play session ended.
#[derive(Debug, Copy, Clone, PartialEq, Eq, Structural)]
pub enum EndOfGame {
    /// The player asked for a fresh game.
    Restarted,
    /// Every enemy was shot down; carries the kill count.
    Won(usize),
    /// The hero ran out of lives or was overrun; carries the kill count.
    Lost(usize),
}

/// The score a finished session contributes: its kill count, or nothing for
/// a restart.
pub open spec fn spec_to_score(e: EndOfGame) -> int {
    match e {
        EndOfGame::Won(x) => x as int,
        EndOfGame::Lost(x) => x as int,
        EndOfGame::Restarted => 0,
    }
}

impl EndOfGame {
    /// The score this session contributes to the running total.
    pub fn to_score(&self) -> (r: u32)
        requires
            spec_to_score(*self) <= u32::MAX,
        ensures
            r == spec_to_score(*self),
    {
        match self {
            EndOfGame::Won(x) => *x as u32,
            EndOfGame::Lost(x) => *x as u32,
            EndOfGame::Restarted => 0,
        }
    }
}

/// One discrete input event sampled this tick.
#[derive(Debug, Copy, Clone, PartialEq, Eq, Structural)]
pub enum KeyPressedKeys {
    /// Move the hero left.
    Left,
    /// Move the hero right.
    Right,
    /// Fire a hero shot.
    Shoot,
    /// Restart the game.
    Restart,
}

/// The direction that a tick's events coalesce to: the last directional
/// event wins, and no directional event means standing still.
pub open spec fn spec_coalesced_direction(keys: Seq<KeyPressedKeys>) -> hero::HeroMovementDirection
    decreases keys.len(),
{
    if keys.len() == 0 {
        hero::HeroMovementDirection::Still
    } else {
        match keys.last() {
            KeyPressedKeys::Left => hero::HeroMovementDirection::Left,
            KeyPressedKeys::Right => hero::HeroMovementDirection::Right,
            _ => spec_coalesced_direction(keys.drop_last()),
        }
    }
}

/// Some event this tick asked for a hero shot.
pub open spec fn spec_any_shoot(keys: Seq<KeyPressedKeys>) -> bool {
    exists|i: int| 0 <= i < keys.len() && keys[i] == KeyPressedKeys::Shoot
}

/// Some event this tick asked for a restart.
pub open spec fn spec_any_restart(keys: Seq<KeyPressedKeys>) -> bool {
    exists|i: int| 0 <= i < keys.len() && keys[i] == KeyPressedKeys::Restart
}

/// Where a hero shot spawns for a hero at `c`: the middle of the hero, just
/// above it, snapped to whole pixels and clamped at the screen edges.
pub open spec fn spec_hero_shot_coordinates(c: coordinates::Coordinates) -> coordinates::Coordinates {
    let x = coordinates::spec_pixel(c.virtual_x);
    let y = coordinates::spec_pixel(c.virtual_y);
    coordinates::Coordinates {
        virtual_x: ((if x + shoot::SHOOT_OFFSET_X_HERO > u32::MAX {
            u32::MAX as int
        } else {
            x + shoot::SHOOT_OFFSET_X_HERO
        }) * coordinates::SUB_PIXELS) as u64,
        virtual_y: ((if y >= shoot::SHOOT_OFFSET_Y_HERO {
            y - shoot::SHOOT_OFFSET_Y_HERO
        } else {
            0
        }) * coordinates::SUB_PIXELS) as u64,
    }
}

/// Coalesce one tick's input events: the last directional event wins, a
/// shoot request spawns a hero shot above the hero, and a restart request
/// short-circuits everything else.
pub fn get_input_keys(keys: &Vec<KeyPressedKeys>, hero_coordinates: &coordinates::Coordinates)
    -> (r: (hero::HeroMovementDirection, Option<shoot::Shoot>))
    ensures
        spec_any_restart(keys@) ==> r == (
            hero::HeroMovementDirection::RestartGame,
            None::<shoot::Shoot>,
        ),
        !spec_any_restart(keys@) ==> {
            &&& r.0 == spec_coalesced_direction(keys@)
            &&& (spec_any_shoot(keys@) ==> r.1 == Some(
                shoot::Shoot {
                    structure: actor::ActorStructure {
                        sprite: None,
                        width: shoot::SHOOT_BOX_WIDTH,
                        height: shoot::SHOOT_BOX_HEIGHT,
                        alive: false,
                        coordinates: spec_hero_shot_coordinates(*hero_coordinates),
                    },
                    owner: shoot::ShootOwner::Hero,
                },
            ))
            &&& (!spec_any_shoot(keys@) ==> r.1 is None)
        },
{
    let n = keys.len();
    let mut direction = hero::HeroMovementDirection::Still;
    let mut wants_shoot = false;
    let mut wants_restart = false;
    let mut i: usize = 0;
    while i < n
        invariant
            i <= n,
            n == keys@.len(),
            direction == spec_coalesced_direction(keys@.subrange(0, i as int)),
            wants_shoot == spec_any_shoot(keys@.subrange(0, i as int)),
            wants_restart == spec_any_restart(keys@.subrange(0, i as int)),
        decreases n - i,
    {
        let ghost prefix = keys@.subrange(0, i as int);
        let ghost extended = keys@.subrange(0, i as int + 1);
        proof {
            assert(extended.drop_last() =~= prefix);
            assert(extended.last() == keys@[i as int]);
            if spec_any_shoot(prefix) {
                let w = choose|w: int| 0 <= w < prefix.len() && prefix[w]
                    == KeyPressedKeys::Shoot;
                assert(extended[w] == KeyPressedKeys::Shoot);
            }
            if spec_any_restart(prefix) {
                let w = choose|w: int| 0 <= w < prefix.len() && prefix[w]
                    == KeyPressedKeys::Restart;
                assert(extended[w] == KeyPressedKeys::Restart);
            }
            if spec_any_shoot(extended) && keys@[i as int] != KeyPressedKeys::Shoot {
                let w = choose|w: int| 0 <= w < extended.len() && extended[w]
                    == KeyPressedKeys::Shoot;
                assert(prefix[w] == KeyPressedKeys::Shoot);
            }
            if spec_any_restart(extended) && keys@[i as int] != KeyPressedKeys::Restart {
                let w = choose|w: int| 0 <= w < extended.len() && extended[w]
                    == KeyPressedKeys::Restart;
                assert(prefix[w] == KeyPressedKeys::Restart);
            }
        }
        match keys[i] {
            KeyPressedKeys::Left => {
                direction = hero::HeroMovementDirection::Left;
            },
            KeyPressedKeys::Right => {
                direction = hero::HeroMovementDirection::Right;
            },
            KeyPressedKeys::Shoot => {
                wants_shoot = true;
            },
            KeyPressedKeys::Restart => {
                wants_restart = true;
            },
        }
        i = i + 1;
    }
    proof {
        assert(keys@.subrange(0, n as int) =~= keys@);
    }
    if wants_restart {
        return (hero::HeroMovementDirection::RestartGame, None);
    }
    let new_shoot = if wants_shoot {
        let x = hero_coordinates.x().saturating_add(shoot::SHOOT_OFFSET_X_HERO);
        let y = hero_coordinates.y().saturating_sub(shoot::SHOOT_OFFSET_Y_HERO);
        Some(shoot::Shoot::new(coordinates::Coordinates::new(x, y), shoot::ShootOwner::Hero))
    } else {
        None
    };
    (direction, new_shoot)
}

/// Fold one finished session into the running scores: add the session's
/// kills, raise the high score if beaten, and reset the running score after
/// a loss.
pub fn update_scores_after_session(current_score: u32, high_score: u32, result: &EndOfGame)
    -> (r: (u32, u32))
    requires
        current_score + spec_to_score(*result) <= u32::MAX,
    ensures
        r.1 == (if current_score + spec_to_score(*result) > high_score {
            (current_score + spec_to_score(*result)) as u32
        } else {
            high_score
        }),
        r.0 == (if result is Lost {
            0int
        } else {
            current_score + spec_to_score(*result)
        }),
{
    let mut current = current_score + result.to_score();
    let high = if current > high_score {
        current
    } else {
        high_score
    };
    if let EndOfGame::Lost(_) = result {
        current = 0;
    }
    (current, high)
}

} // verus!
