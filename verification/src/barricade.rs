use vstd::prelude::*;

use crate::actor::ActorStructure;
use crate::coordinates::{Coordinates, SUB_PIXELS};
use crate::hero::HERO_SPAWN_Y;
use crate::shoot::{SHOOT_BOX_HEIGHT, SHOOT_BOX_WIDTH, SHOOT_SPAWN_OFFSET_Y};
use crate::{SCREEN_MARGIN, SCREEN_WIDTH};

verus! {

/// Width of one barricade block in pixels: wide enough that a shot cannot
/// slip between neighbouring blocks.
pub const BARRICADE_BOX_WIDTH: u32 = SHOOT_BOX_WIDTH + 10;

/// Height of one barricade block in pixels.
pub const BARRICADE_BOX_HEIGHT: u32 = SHOOT_BOX_HEIGHT + 10;

/// Vertical distance between the hero's spawn row and the barricade wall,
/// leaving room for a freshly spawned hero shot to clear it.
pub const BARRICADE_OFFSET_FROM_HERO_Y: u32 = SHOOT_SPAWN_OFFSET_Y + 10;

/// Blocks forming one barricade's wall shape.
pub const TOTAL_BLOCKS_PER_BARRICADE: usize = 14;

/// Rows in the wall shape.
pub const BARRICADE_ROWS: u32 = 3;

/// Columns in the wall shape.
pub const BARRICADE_COLS: u32 = 6;

/// Barricades spread across the play-field.
pub const TOTAL_BARRICADES: usize = 4;

/// All barricade blocks in a session.
pub const TOTAL_BARRICADE_BLOCKS: usize = TOTAL_BLOCKS_PER_BARRICADE * TOTAL_BARRICADES;

/// Pixel row of the top of the barricade wall.
pub const BARRICADE_OFFSET_Y: u32 = HERO_SPAWN_Y - BARRICADE_OFFSET_FROM_HERO_Y
    - BARRICADE_ROWS * BARRICADE_BOX_HEIGHT;

/// Horizontal spacing between barricade anchors: the width left over after
/// the margins and the walls, split over the gaps between them.
pub const BARRICADE_OFFSET_X: u32 = (SCREEN_WIDTH - SCREEN_MARGIN * 4 - BARRICADE_BOX_WIDTH
    * BARRICADE_COLS) / (TOTAL_BARRICADES as u32 + 1);

/// The spacing between barricade anchors works out to 224 pixels.
pub proof fn lemma_barricade_spacing()
    ensures
        BARRICADE_OFFSET_X == 224,
        BARRICADE_OFFSET_Y == 571,
{
    vstd::arithmetic::div_mod::lemma_fundamental_div_mod_converse_div(
        (SCREEN_WIDTH - SCREEN_MARGIN * 4 - BARRICADE_BOX_WIDTH * BARRICADE_COLS) as int,
        (TOTAL_BARRICADES + 1) as int,
        224,
        2,
    );
}

/// One destructible block of a barricade wall.
#[derive(Debug, Copy, Clone, PartialEq, Eq, Structural)]
pub struct Barricade {
    /// The block's hit box and position.
    pub structure: ActorStructure,
}

impl Barricade {
    /// A live block at the given position.
    pub fn new(coordinates: Coordinates) -> (r: Self)
        ensures
            r.structure == (ActorStructure {
                sprite: None,
                width: BARRICADE_BOX_WIDTH,
                height: BARRICADE_BOX_HEIGHT,
                alive: true,
                coordinates,
            }),
    {
        Barricade {
            structure: ActorStructure {
                sprite: None,
                width: BARRICADE_BOX_WIDTH,
                height: BARRICADE_BOX_HEIGHT,
                alive: true,
                coordinates,
            },
        }
    }

    /// The wall shape's block offsets, in block units from the wall's anchor:
    /// a four-block roof, a full middle row, and two legs.
    pub fn block_offset(j: usize) -> (r: (u32, u32))
        requires
            j < TOTAL_BLOCKS_PER_BARRICADE,
        ensures
            r == spec_block_offset(j as int),
    {
        match j {
            0 => (1, 0),
            1 => (2, 0),
            2 => (3, 0),
            3 => (4, 0),
            4 => (0, 1),
            5 => (1, 1),
            6 => (2, 1),
            7 => (3, 1),
            8 => (4, 1),
            9 => (5, 1),
            10 => (0, 2),
            11 => (1, 2),
            12 => (4, 2),
            _ => (5, 2),
        }
    }

    /// Build one barricade wall anchored at `coordinates`.
    pub fn create_barricade(coordinates: Coordinates) -> (r: Vec<Barricade>)
        requires
            coordinates.virtual_x + 5 * BARRICADE_BOX_WIDTH * SUB_PIXELS <= u64::MAX,
            coordinates.virtual_y + 2 * BARRICADE_BOX_HEIGHT * SUB_PIXELS <= u64::MAX,
        ensures
            r@.len() == TOTAL_BLOCKS_PER_BARRICADE,
            forall|j: int|
                0 <= j < TOTAL_BLOCKS_PER_BARRICADE ==> #[trigger] r@[j] == spec_wall_block(
                    coordinates,
                    j,
                ),
    {
        let mut blocks: Vec<Barricade> = Vec::new();
        let mut j: usize = 0;
        while j < TOTAL_BLOCKS_PER_BARRICADE
            invariant
                j <= TOTAL_BLOCKS_PER_BARRICADE,
                blocks@.len() == j,
                coordinates.virtual_x + 5 * BARRICADE_BOX_WIDTH * SUB_PIXELS <= u64::MAX,
                coordinates.virtual_y + 2 * BARRICADE_BOX_HEIGHT * SUB_PIXELS <= u64::MAX,
                forall|k: int|
                    0 <= k < j ==> #[trigger] blocks@[k] == spec_wall_block(coordinates, k),
            decreases TOTAL_BLOCKS_PER_BARRICADE - j,
        {
            let (dx, dy) = Self::block_offset(j);
            let mut block = Barricade::new(coordinates);
            block.structure.coordinates.add_virtual_x(
                dx as u64 * BARRICADE_BOX_WIDTH as u64 * SUB_PIXELS,
            );
            let mut c = block.structure.coordinates;
            c.add_virtual_y(dy as u64 * BARRICADE_BOX_HEIGHT as u64 * SUB_PIXELS, 1);
            block.structure.coordinates = c;
            blocks.push(block);
            j = j + 1;
        }
        blocks
    }

    /// Build the full barricade row: one wall at each anchor across the
    /// play-field.
    pub fn create_barricades() -> (r: Vec<Barricade>)
        ensures
            r@.len() == TOTAL_BARRICADE_BLOCKS,
            forall|k: int|
                0 <= k < TOTAL_BARRICADE_BLOCKS ==> #[trigger] r@[k] == spec_barricade_block(k),
    {
        let mut barricades: Vec<Barricade> = Vec::new();
        proof {
            lemma_barricade_spacing();
        }
        let mut i: usize = 1;
        while i <= TOTAL_BARRICADES
            invariant
                1 <= i <= TOTAL_BARRICADES + 1,
                BARRICADE_OFFSET_X == 224,
                barricades@.len() == (i - 1) * TOTAL_BLOCKS_PER_BARRICADE,
                forall|k: int|
                    0 <= k < barricades@.len() ==> #[trigger] barricades@[k]
                        == spec_barricade_block(k),
            decreases TOTAL_BARRICADES + 1 - i,
        {
            let pitch = BARRICADE_OFFSET_X;
            let x = SCREEN_MARGIN + pitch * (i as u32);
            let anchor = Coordinates::new(x, BARRICADE_OFFSET_Y);
            let wall = Self::create_barricade(anchor);
            let mut j: usize = 0;
            while j < TOTAL_BLOCKS_PER_BARRICADE
                invariant
                    j <= TOTAL_BLOCKS_PER_BARRICADE,
                    1 <= i <= TOTAL_BARRICADES,
                    wall@.len() == TOTAL_BLOCKS_PER_BARRICADE,
                    anchor == (Coordinates {
                        virtual_x: ((SCREEN_MARGIN + BARRICADE_OFFSET_X * i) * SUB_PIXELS) as u64,
                        virtual_y: ((BARRICADE_OFFSET_Y * SUB_PIXELS)) as u64,
                    }),
                    forall|t: int|
                        0 <= t < TOTAL_BLOCKS_PER_BARRICADE ==> #[trigger] wall@[t]
                            == spec_wall_block(anchor, t),
                    barricades@.len() == (i - 1) * TOTAL_BLOCKS_PER_BARRICADE + j,
                    forall|k: int|
                        0 <= k < barricades@.len() ==> #[trigger] barricades@[k]
                            == spec_barricade_block(k),
                decreases TOTAL_BLOCKS_PER_BARRICADE - j,
            {
                barricades.push(wall[j]);
                j = j + 1;
            }
            i = i + 1;
        }
        barricades
    }
}

/// The wall shape's block offset for block `j`, in block units.
pub open spec fn spec_block_offset(j: int) -> (u32, u32) {
    if j == 0 {
        (1u32, 0u32)
    } else if j == 1 {
        (2u32, 0u32)
    } else if j == 2 {
        (3u32, 0u32)
    } else if j == 3 {
        (4u32, 0u32)
    } else if j == 4 {
        (0u32, 1u32)
    } else if j == 5 {
        (1u32, 1u32)
    } else if j == 6 {
        (2u32, 1u32)
    } else if j == 7 {
        (3u32, 1u32)
    } else if j == 8 {
        (4u32, 1u32)
    } else if j == 9 {
        (5u32, 1u32)
    } else if j == 10 {
        (0u32, 2u32)
    } else if j == 11 {
        (1u32, 2u32)
    } else if j == 12 {
        (4u32, 2u32)
    } else {
        (5u32, 2u32)
    }
}

/// Block `j` of a wall anchored at `anchor`.
pub open spec fn spec_wall_block(anchor: Coordinates, j: int) -> Barricade {
    let (dx, dy) = spec_block_offset(j);
    Barricade {
        structure: ActorStructure {
            sprite: None,
            width: BARRICADE_BOX_WIDTH,
            height: BARRICADE_BOX_HEIGHT,
            alive: true,
            coordinates: Coordinates {
                virtual_x: (anchor.virtual_x + dx * BARRICADE_BOX_WIDTH * SUB_PIXELS) as u64,
                virtual_y: (anchor.virtual_y + dy * BARRICADE_BOX_HEIGHT * SUB_PIXELS) as u64,
            },
        },
    }
}

/// Block `k` of the session's full barricade row: wall `k / 14`, block
/// `k % 14`.
pub open spec fn spec_barricade_block(k: int) -> Barricade {
    let g = k / (TOTAL_BLOCKS_PER_BARRICADE as int);
    let j = k % (TOTAL_BLOCKS_PER_BARRICADE as int);
    spec_wall_block(
        Coordinates {
            virtual_x: ((SCREEN_MARGIN + BARRICADE_OFFSET_X * (g + 1)) * SUB_PIXELS) as u64,
            virtual_y: (BARRICADE_OFFSET_Y * SUB_PIXELS) as u64,
        },
        j,
    )
}

/// The alive flags of a barricade row, in storage order.
pub open spec fn barricade_alive_flags(s: Seq<Barricade>) -> Seq<bool> {
    s.map_values(|b: Barricade| b.structure.alive)
}

} // verus!
