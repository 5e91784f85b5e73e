use vstd::prelude::*;

use crate::coordinates::Coordinates;

verus! {

/// A handle naming one pixel-array image in the session's immutable asset
/// table. The core never looks inside an image; the render collaborator
/// resolves the handle when it draws.
#[derive(Debug, Copy, Clone, PartialEq, Eq, Structural)]
pub struct Sprite {
    /// Index of the image in the asset table.
    pub image: usize,
}

impl Sprite {
    /// Wrap an asset-table index.
    pub fn new(image: usize) -> (r: Self)
        ensures
            r.image == image,
    {
        Sprite { image }
    }
}

/// The rectangular, hit-testable footprint shared by every entity on the
/// play-field: enemies, the hero, shots and barricade blocks.
#[derive(Debug, Copy, Clone, PartialEq, Eq, Structural)]
pub struct ActorStructure {
    /// Image drawn for this actor, if it has one.
    pub sprite: Option<Sprite>,
    /// Width of the hit box in pixels.
    pub width: u32,
    /// Height of the hit box in pixels.
    pub height: u32,
    /// Whether the actor currently takes part in the simulation.
    pub alive: bool,
    /// Top-left corner of the hit box.
    pub coordinates: Coordinates,
}

/// Axis-aligned bounding-box overlap: the boxes intersect exactly when each
/// one's left edge is at or before the other's right edge, and likewise
/// vertically.
pub open spec fn spec_overlap(a: ActorStructure, b: ActorStructure) -> bool {
    let ax = crate::coordinates::spec_pixel(a.coordinates.virtual_x) as int;
    let ay = crate::coordinates::spec_pixel(a.coordinates.virtual_y) as int;
    let bx = crate::coordinates::spec_pixel(b.coordinates.virtual_x) as int;
    let by = crate::coordinates::spec_pixel(b.coordinates.virtual_y) as int;
    ax <= bx + b.width && bx <= ax + a.width && ay <= by + b.height && by <= ay + a.height
}

/// AABB overlap does not depend on the order of its two boxes.
pub proof fn lemma_overlap_symmetric(a: ActorStructure, b: ActorStructure)
    ensures
        spec_overlap(a, b) == spec_overlap(b, a),
{
}

impl ActorStructure {
    /// Whether this actor's box and `other`'s box intersect.
    pub fn overlaps(&self, other: &ActorStructure) -> (r: bool)
        ensures
            r == spec_overlap(*self, *other),
    {
        let ax = self.coordinates.x() as u64;
        let ay = self.coordinates.y() as u64;
        let bx = other.coordinates.x() as u64;
        let by = other.coordinates.y() as u64;
        ax <= bx + other.width as u64 && bx <= ax + self.width as u64
            && ay <= by + other.height as u64 && by <= ay + self.height as u64
    }
}

} // verus!
