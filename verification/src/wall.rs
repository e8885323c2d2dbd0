//! The arena: screen size, wall thickness, and the four walls' geometry.

use vstd::prelude::*;

use crate::geometry::Vec2i;

verus! {

pub const SCREEN_WIDTH: i32 = 1200;

pub const SCREEN_HEIGHT: i32 = 800;

pub const WALL_THICKNESS: i32 = 4;

/// x of the right wall's center: half of `SCREEN_WIDTH - WALL_THICKNESS`.
pub const RIGHT_WALL: i32 = 598;

/// x of the left wall's center.
pub const LEFT_WALL: i32 = -RIGHT_WALL;

/// y of the top wall's center: half of `SCREEN_HEIGHT - WALL_THICKNESS`.
pub const TOP_WALL: i32 = 398;

/// y of the bottom wall's center.
pub const BOTTOM_WALL: i32 = -TOP_WALL;

/// Which of the four arena walls a wall entity is.
#[derive(Clone, Copy, Debug, PartialEq, Eq, Structural)]
pub enum WallLocation {
    Left,
    Right,
    Bottom,
    Top,
}

impl WallLocation {
    /// The center of this wall.
    pub open spec fn position_spec(self) -> Vec2i {
        match self {
            WallLocation::Left => Vec2i { x: LEFT_WALL, y: 0 },
            WallLocation::Right => Vec2i { x: RIGHT_WALL, y: 0 },
            WallLocation::Bottom => Vec2i { x: 0, y: BOTTOM_WALL },
            WallLocation::Top => Vec2i { x: 0, y: TOP_WALL },
        }
    }

    /// The full size of this wall: the thickness on its short axis, and the
    /// arena's extent plus the thickness on its long axis, so adjacent walls
    /// meet at the corners.
    pub open spec fn size_spec(self) -> Vec2i {
        match self {
            WallLocation::Left | WallLocation::Right => Vec2i {
                x: WALL_THICKNESS,
                y: (TOP_WALL - BOTTOM_WALL + WALL_THICKNESS) as i32,
            },
            WallLocation::Bottom | WallLocation::Top => Vec2i {
                x: (RIGHT_WALL - LEFT_WALL + WALL_THICKNESS) as i32,
                y: WALL_THICKNESS,
            },
        }
    }

    pub fn position(&self) -> (p: Vec2i)
        ensures
            p == self.position_spec(),
    {
        match self {
            WallLocation::Left => Vec2i { x: LEFT_WALL, y: 0 },
            WallLocation::Right => Vec2i { x: RIGHT_WALL, y: 0 },
            WallLocation::Bottom => Vec2i { x: 0, y: BOTTOM_WALL },
            WallLocation::Top => Vec2i { x: 0, y: TOP_WALL },
        }
    }

    pub fn size(&self) -> (s: Vec2i)
        ensures
            s == self.size_spec(),
            s.x > 0 && s.y > 0,
    {
        let arena_height = TOP_WALL - BOTTOM_WALL;
        let arena_width = RIGHT_WALL - LEFT_WALL;
        match self {
            WallLocation::Left | WallLocation::Right => Vec2i {
                x: WALL_THICKNESS,
                y: arena_height + WALL_THICKNESS,
            },
            WallLocation::Bottom | WallLocation::Top => Vec2i {
                x: arena_width + WALL_THICKNESS,
                y: WALL_THICKNESS,
            },
        }
    }
}

/// What a wall entity is spawned from: its geometry; every wall is a static,
/// indestructible collider.
#[derive(Clone, Copy, Debug, PartialEq, Eq, Structural)]
pub struct WallBundle {
    pub position: Vec2i,
    pub size: Vec2i,
}

impl WallBundle {
    pub fn new(location: WallLocation) -> (b: WallBundle)
        ensures
            b.position == location.position_spec(),
            b.size == location.size_spec(),
    {
        WallBundle { position: location.position(), size: location.size() }
    }
}

} // verus!
