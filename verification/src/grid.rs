//! What a cell of the map is for walking, and where a cell lies on screen.

use vstd::prelude::*;
use crate::constant::{GRID_HEIGHT, GRID_WIDTH, TILE_HEIGHT, TILE_WIDTH, WALKING_DURATION};
use crate::direction::Direction;
use crate::geom::{Rectangle, Vector};
use crate::player_state::PlayerState;
use crate::primitive::Position;

verus! {

/// The class of a cell: floor, obstacle, or nothing painted there.
#[derive(PartialEq, Eq, Structural, Clone, Copy, Debug)]
pub enum Grid {
    Path,
    NonPath,
    Empty,
}

/// How far the letter of the first cell lies from the corner of the screen.
pub const COLLECTIBLE_X_OFFSET: u32 = TILE_WIDTH * 2;

pub const COLLECTIBLE_Y_OFFSET: u32 = TILE_HEIGHT * 2;

/// How far a player on the first cell is drawn from the corner of the screen.
pub const PLAYER_X_OFFSET: u32 = TILE_WIDTH * 2;

pub const PLAYER_Y_OFFSET: u32 = TILE_HEIGHT + (TILE_HEIGHT / 2);

/// How far the tile of the first cell lies from the corner of the screen.
pub const GRID_X_OFFSET: u32 = TILE_WIDTH / 2;

pub const GRID_Y_OFFSET: u32 = TILE_HEIGHT / 2;

/// The values of the layout constants.
pub proof fn lemma_layout()
    ensures
        GRID_WIDTH == 32,
        GRID_HEIGHT == 32,
        COLLECTIBLE_X_OFFSET == 32,
        COLLECTIBLE_Y_OFFSET == 32,
        PLAYER_X_OFFSET == 32,
        PLAYER_Y_OFFSET == 24,
        GRID_X_OFFSET == 8,
        GRID_Y_OFFSET == 8,
{
}

/// The rectangle of the tile of a cell: one tile in size, at the position
/// `(x * GRID_WIDTH + GRID_X_OFFSET, y * GRID_HEIGHT + GRID_Y_OFFSET)`. The
/// renderer enlarges it by `SCALING_FACTOR`.
pub open spec fn tile_area(position: Position) -> Rectangle {
    Rectangle {
        pos: Vector {
            x: (position.x * GRID_WIDTH + GRID_X_OFFSET) as i64,
            y: (position.y * GRID_HEIGHT + GRID_Y_OFFSET) as i64,
        },
        size: Vector { x: TILE_WIDTH as i64, y: TILE_HEIGHT as i64 },
    }
}

/// The rectangle of the letter lying on a cell: one tile in size, at the
/// position `(x * GRID_WIDTH + COLLECTIBLE_X_OFFSET, y * GRID_HEIGHT +
/// COLLECTIBLE_Y_OFFSET)`.
pub open spec fn letter_area(position: Position) -> Rectangle {
    Rectangle {
        pos: Vector {
            x: (position.x * GRID_WIDTH + COLLECTIBLE_X_OFFSET) as i64,
            y: (position.y * GRID_HEIGHT + COLLECTIBLE_Y_OFFSET) as i64,
        },
        size: Vector { x: TILE_WIDTH as i64, y: TILE_HEIGHT as i64 },
    }
}

/// Where a player in `state` on the cell `position` is drawn: on the cell
/// while standing, and moved towards the next cell by the share of the step
/// that has passed while walking.
pub open spec fn player_point(state: PlayerState, position: Position) -> Vector {
    Vector {
        x: (position.x * GRID_WIDTH + PLAYER_X_OFFSET + match state {
            PlayerState::Walking { direction, timer, .. } => direction.dx() * walked_pixels(
                timer as int,
                GRID_WIDTH as int,
            ),
            PlayerState::Standing(_) => 0,
        }) as i64,
        y: (position.y * GRID_HEIGHT + PLAYER_Y_OFFSET + match state {
            PlayerState::Walking { direction, timer, .. } => direction.dy() * walked_pixels(
                timer as int,
                GRID_HEIGHT as int,
            ),
            PlayerState::Standing(_) => 0,
        }) as i64,
    }
}

/// `a / b` rounded towards zero, for a positive `b`.
pub open spec fn div_towards_zero(a: int, b: int) -> int {
    if a >= 0 {
        a / b
    } else {
        -((-a) / b)
    }
}

/// How many pixels of a cell `extent` pixels long a walking player has
/// covered when `timer` milliseconds of the step are left: the share
/// `(WALKING_DURATION - timer) / WALKING_DURATION` of it, rounded towards zero.
pub open spec fn walked_pixels(timer: int, extent: int) -> int {
    div_towards_zero((WALKING_DURATION - timer) * extent, WALKING_DURATION as int)
}

/// The cell a pixel coordinate falls in along one axis, where cell 0 begins
/// at `offset` and each cell is `extent` pixels long. Coordinates before
/// cell 0 count as cell 0, and the cell number stops at `u32::MAX`.
pub open spec fn cell_of(coordinate: int, offset: int, extent: int) -> int {
    if coordinate < offset {
        0
    } else if (coordinate - offset) / extent > u32::MAX {
        u32::MAX as int
    } else {
        (coordinate - offset) / extent
    }
}

/// Where cell `index` begins along one axis.
fn cell_start(index: u32, extent: u32, offset: u32) -> (start: i64)
    requires
        extent <= 64,
        offset <= 64,
    ensures
        start == index * extent + offset,
        0 <= start <= 0x40_0000_0040,
{
    assert(index * extent <= 0xffff_ffff * 64) by (nonlinear_arith)
        requires
            index <= 0xffff_ffff,
            extent <= 64,
    ;
    (index as i64 * extent as i64) + offset as i64
}

/// The cell that a coordinate falls in along one axis.
fn cell_index(coordinate: i64, offset: u32, extent: u32) -> (cell: u32)
    requires
        extent > 0,
    ensures
        cell == cell_of(coordinate as int, offset as int, extent as int),
{
    if coordinate < offset as i64 {
        0
    } else {
        let q: i64 = (coordinate - offset as i64) / (extent as i64);
        if q > u32::MAX as i64 {
            u32::MAX
        } else {
            q as u32
        }
    }
}

/// How many pixels of a cell a walking player has covered.
fn walked(timer: i64, extent: u32) -> (pixels: i64)
    requires
        extent <= 64,
    ensures
        pixels == walked_pixels(timer as int, extent as int),
        -0x2000_0000_0000_0000 <= pixels <= 0x2000_0000_0000_0000,
{
    let duration: u128 = WALKING_DURATION as u128;
    let elapsed: i128 = WALKING_DURATION as i128 - timer as i128;
    if elapsed >= 0 {
        let e: u128 = elapsed as u128;
        assert(e * extent <= 0x8000_0000_0000_012c * 64) by (nonlinear_arith)
            requires
                e <= 0x8000_0000_0000_012c,
                extent <= 64,
        ;
        let product: u128 = e * (extent as u128);
        let quotient: u128 = product / duration;
        assert(quotient == ((WALKING_DURATION - timer) * extent) / (WALKING_DURATION as int));
        quotient as i64
    } else {
        let e: u128 = (-elapsed) as u128;
        assert(e * extent <= 0x8000_0000_0000_0000 * 64) by (nonlinear_arith)
            requires
                e <= 0x8000_0000_0000_0000,
                extent <= 64,
        ;
        assert(-((WALKING_DURATION - timer) * extent) == e * extent) by (nonlinear_arith)
            requires
                e == -(WALKING_DURATION - timer),
        ;
        let product: u128 = e * (extent as u128);
        let quotient: u128 = product / duration;
        -(quotient as i64)
    }
}

impl Grid {
    /// The merge of two layers at one cell: an obstacle in either layer
    /// wins, floor comes next, and an empty cell leaves the other as it is.
    pub open spec fn merged(self, other: Grid) -> Grid {
        if self == Grid::NonPath || other == Grid::NonPath {
            Grid::NonPath
        } else if self == Grid::Path || other == Grid::Path {
            Grid::Path
        } else {
            Grid::Empty
        }
    }

    /// Merges the class of a cell in one layer with its class in the next.
    pub fn merge(self, other: Grid) -> (merged: Grid)
        ensures
            merged == self.merged(other),
    {
        match (self, other) {
            (Grid::Path, Grid::Empty) => Grid::Path,
            (Grid::Empty, Grid::Empty) => Grid::Empty,
            (Grid::Empty, Grid::Path) => Grid::Path,
            (Grid::Path, Grid::Path) => Grid::Path,
            (_, Grid::NonPath) => Grid::NonPath,
            (Grid::NonPath, _) => Grid::NonPath,
        }
    }

    /// The character that stands for the class in a printed map.
    pub fn to_symbol(&self) -> (symbol: char)
        ensures
            symbol == match *self {
                Grid::Empty => ' ',
                Grid::NonPath => '#',
                Grid::Path => '=',
            },
    {
        match self {
            Grid::Empty => ' ',
            Grid::NonPath => '#',
            Grid::Path => '=',
        }
    }

    /// The rectangle of the letter lying on a cell.
    pub fn to_collectible_coordinate(position: &Position) -> (r: Rectangle)
        ensures
            r == letter_area(*position),
    {
        proof {
            lemma_layout();
        }
        Rectangle::new(
            (
                cell_start(position.x, GRID_WIDTH, COLLECTIBLE_X_OFFSET),
                cell_start(position.y, GRID_HEIGHT, COLLECTIBLE_Y_OFFSET),
            ),
            (TILE_WIDTH as i64, TILE_HEIGHT as i64),
        )
    }

    /// The rectangle of the tile of a cell.
    pub fn to_rectangle(position: &Position) -> (r: Rectangle)
        ensures
            r == tile_area(*position),
    {
        proof {
            lemma_layout();
        }
        Rectangle::new(
            (
                cell_start(position.x, GRID_WIDTH, GRID_X_OFFSET),
                cell_start(position.y, GRID_HEIGHT, GRID_Y_OFFSET),
            ),
            (TILE_WIDTH as i64, TILE_HEIGHT as i64),
        )
    }

    /// The cell that a point of the screen belongs to.
    pub fn from_coordinate(coordinate: Vector) -> (p: Position)
        ensures
            p.x == cell_of(coordinate.x as int, GRID_X_OFFSET as int, GRID_WIDTH as int),
            p.y == cell_of(coordinate.y as int, GRID_Y_OFFSET as int, GRID_HEIGHT as int),
    {
        Position::new(
            cell_index(coordinate.x, GRID_X_OFFSET, GRID_WIDTH),
            cell_index(coordinate.y, GRID_Y_OFFSET, GRID_HEIGHT),
        )
    }

    /// Where the player is drawn.
    pub fn to_player_coordinate(state: &PlayerState, position: &Position) -> (v: Vector)
        ensures
            v == player_point(*state, *position),
    {
        proof {
            lemma_layout();
        }
        let (delta_x, delta_y): (i64, i64) = match state {
            PlayerState::Walking { direction: Direction::Right, timer, .. } => (
                walked(*timer, GRID_WIDTH),
                0,
            ),
            PlayerState::Walking { direction: Direction::Left, timer, .. } => (
                -walked(*timer, GRID_WIDTH),
                0,
            ),
            PlayerState::Walking { direction: Direction::Up, timer, .. } => (
                0,
                -walked(*timer, GRID_HEIGHT),
            ),
            PlayerState::Walking { direction: Direction::Down, timer, .. } => (
                0,
                walked(*timer, GRID_HEIGHT),
            ),
            _ => (0, 0),
        };

        Vector::new(
            cell_start(position.x, GRID_WIDTH, PLAYER_X_OFFSET) + delta_x,
            cell_start(position.y, GRID_HEIGHT, PLAYER_Y_OFFSET) + delta_y,
        )
    }
}

/// Merging is associative: layers can be merged in any grouping.
pub proof fn merge_is_associative(a: Grid, b: Grid, c: Grid)
    ensures
        a.merged(b).merged(c) == a.merged(b.merged(c)),
{
}

/// Merging is commutative: the order of two layers does not matter.
pub proof fn merge_is_commutative(a: Grid, b: Grid)
    ensures
        a.merged(b) == b.merged(a),
{
}

/// An empty cell leaves the cell it is merged with as it is, and an
/// obstacle wins over every cell.
pub proof fn merge_with_empty_and_obstacle(a: Grid)
    ensures
        a.merged(Grid::Empty) == a,
        Grid::Empty.merged(a) == a,
        a.merged(Grid::NonPath) == Grid::NonPath,
        Grid::NonPath.merged(a) == Grid::NonPath,
{
}

/// Turning a cell into the rectangle of its tile and back gives the cell:
/// the cell under the position of the rectangle, and under the point half a
/// tile further right and down, is that cell.
pub proof fn cell_of_its_own_tile(position: Position)
    ensures
        cell_of(tile_area(position).pos.x as int, GRID_X_OFFSET as int, GRID_WIDTH as int)
            == position.x,
        cell_of(tile_area(position).pos.y as int, GRID_Y_OFFSET as int, GRID_HEIGHT as int)
            == position.y,
        cell_of(
            tile_area(position).pos.x + TILE_WIDTH / 2,
            GRID_X_OFFSET as int,
            GRID_WIDTH as int,
        ) == position.x,
        cell_of(
            tile_area(position).pos.y + TILE_HEIGHT / 2,
            GRID_Y_OFFSET as int,
            GRID_HEIGHT as int,
        ) == position.y,
{
    lemma_layout();
}

/// While the time of a step has not run out and is not more than a whole
/// step, the share of the step that has passed,
/// `(WALKING_DURATION - timer) / WALKING_DURATION`, lies between 0 and 1, and
/// the player is drawn between the cell and the next one.
pub proof fn walked_share_is_bounded(timer: int)
    requires
        0 <= timer <= WALKING_DURATION,
    ensures
        0 <= WALKING_DURATION - timer <= WALKING_DURATION,
        0 <= walked_pixels(timer, GRID_WIDTH as int) <= GRID_WIDTH,
        0 <= walked_pixels(timer, GRID_HEIGHT as int) <= GRID_HEIGHT,
{
    lemma_layout();
}

} // verus!
