//! The destructible bricks: their constants, and the layout computation that
//! decides, from the space the walls and the paddle leave, how many rows and
//! columns of bricks fit and where their centers go.

use vstd::prelude::*;

verus! {

pub const BRICK_SIZE_X: i32 = 160;

pub const BRICK_SIZE_Y: i32 = 50;

pub const GAP_BETWEEN_PADDLE_AND_BRICKS: i32 = 400;

pub const GAP_BETWEEN_BRICKS: i32 = 5;

pub const GAP_BETWEEN_BRICKS_AND_CEILING: i32 = 50;

pub const GAP_BETWEEN_BRICKS_AND_SIDES: i32 = 50;

/// Largest magnitude accepted for a layout input, so every intermediate
/// value of the computation stays far from the machine limits.
pub const LAYOUT_INPUT_LIMIT: i32 = 1_000_000;

/// A fatal configuration problem found while laying out the bricks; detected
/// at setup time, before the tick loop ever runs.
#[derive(Clone, Copy, Debug, PartialEq, Eq, Structural)]
pub enum SetupError {
    /// A brick dimension is zero or negative.
    BrickSize,
    /// The walls and side gaps leave no horizontal room for bricks.
    ArenaWidth,
    /// The paddle gap and ceiling gap leave no vertical room for bricks.
    ArenaHeight,
    /// The room left fits zero rows or zero columns of bricks.
    NoBricksFit,
}

/// The computed brick layout. Brick centers are generally half-integral, so
/// they are carried doubled: brick `(row, col)` is centered at
/// `(first_center_x2 + col * step_x2, first_center_y2 + row * step_y2)`,
/// both in half-units.
#[derive(Clone, Copy, Debug, PartialEq, Eq, Structural)]
pub struct BrickGrid {
    pub n_rows: u64,
    pub n_columns: u64,
    /// Doubled x of the first (leftmost) column's centers.
    pub first_center_x2: i64,
    /// Doubled y of the first (bottom) row's centers.
    pub first_center_y2: i64,
    /// Doubled x distance between column centers.
    pub step_x2: i64,
    /// Doubled y distance between row centers.
    pub step_y2: i64,
}

impl BrickGrid {
    /// Bounds that every grid computed from in-limit inputs meets; they keep
    /// the center coordinates representable.
    pub open spec fn wf(self) -> bool {
        &&& 0 < self.step_x2 <= 4_000_000
        &&& 0 < self.step_y2 <= 4_000_000
        &&& self.n_columns <= 4_000_000
        &&& self.n_rows <= 4_000_000
        &&& -20_000_000_000_000 <= self.first_center_x2 <= 20_000_000_000_000
        &&& -20_000_000_000_000 <= self.first_center_y2 <= 20_000_000_000_000
    }

    /// The doubled center of brick `(row, col)`.
    pub fn center2(&self, row: u64, col: u64) -> (c: (i64, i64))
        requires
            self.wf(),
            row < self.n_rows,
            col < self.n_columns,
        ensures
            c.0 == self.first_center_x2 + col * self.step_x2,
            c.1 == self.first_center_y2 + row * self.step_y2,
    {
        proof {
            assert(0 <= (col as i64) * self.step_x2 <= 16_000_000_000_000i64) by (nonlinear_arith)
                requires
                    0 <= col as i64,
                    (col as i64) < 4_000_000,
                    0 < self.step_x2,
                    self.step_x2 <= 4_000_000,
            ;
            assert(0 <= (row as i64) * self.step_y2 <= 16_000_000_000_000i64) by (nonlinear_arith)
                requires
                    0 <= row as i64,
                    (row as i64) < 4_000_000,
                    0 < self.step_y2,
                    self.step_y2 <= 4_000_000,
            ;
        }
        (
            self.first_center_x2 + (col as i64) * self.step_x2,
            self.first_center_y2 + (row as i64) * self.step_y2,
        )
    }
}

/// The horizontal room the side gaps leave between the walls.
pub open spec fn total_width_of_bricks(left_wall: int, right_wall: int, gap_sides: int) -> int {
    (right_wall - left_wall) - 2 * gap_sides
}

/// The vertical room between the bricks' bottom edge and the ceiling gap.
pub open spec fn total_height_of_bricks(top_wall: int, bottom_edge: int, gap_ceiling: int) -> int {
    top_wall - bottom_edge - gap_ceiling
}

/// Lay out the brick grid.
///
/// Inputs: the wall centers, the y where the bricks' region begins (the
/// paddle's y plus the paddle gap), the brick size, the gap between bricks,
/// and the side and ceiling gaps. As many columns and rows are taken as fit
/// whole; the columns are centered between the walls, and the rows sit on
/// the bottom edge of the region. Every configuration problem is reported as
/// the error the setup stage fails fast with, rather than entering the tick
/// loop.
pub fn brick_grid(
    left_wall: i32,
    right_wall: i32,
    top_wall: i32,
    bottom_edge: i32,
    brick_w: i32,
    brick_h: i32,
    gap: i32,
    gap_sides: i32,
    gap_ceiling: i32,
) -> (r: Result<BrickGrid, SetupError>)
    requires
        -LAYOUT_INPUT_LIMIT <= left_wall <= LAYOUT_INPUT_LIMIT,
        -LAYOUT_INPUT_LIMIT <= right_wall <= LAYOUT_INPUT_LIMIT,
        -LAYOUT_INPUT_LIMIT <= top_wall <= LAYOUT_INPUT_LIMIT,
        -LAYOUT_INPUT_LIMIT <= bottom_edge <= LAYOUT_INPUT_LIMIT,
        brick_w <= LAYOUT_INPUT_LIMIT,
        brick_h <= LAYOUT_INPUT_LIMIT,
        0 <= gap <= LAYOUT_INPUT_LIMIT,
        0 <= gap_sides <= LAYOUT_INPUT_LIMIT,
        0 <= gap_ceiling <= LAYOUT_INPUT_LIMIT,
    ensures
        ({
            let tw = total_width_of_bricks(left_wall as int, right_wall as int, gap_sides as int);
            let th = total_height_of_bricks(top_wall as int, bottom_edge as int, gap_ceiling as int);
            if brick_w <= 0 || brick_h <= 0 {
                r == Result::<BrickGrid, SetupError>::Err(SetupError::BrickSize)
            } else if tw <= 0 {
                r == Result::<BrickGrid, SetupError>::Err(SetupError::ArenaWidth)
            } else if th <= 0 {
                r == Result::<BrickGrid, SetupError>::Err(SetupError::ArenaHeight)
            } else {
                let n_cols = tw / (brick_w + gap);
                let n_rows = th / (brick_h + gap);
                if n_cols == 0 || n_rows == 0 {
                    r == Result::<BrickGrid, SetupError>::Err(SetupError::NoBricksFit)
                } else {
                    &&& r is Ok
                    &&& r.unwrap().wf()
                    &&& r.unwrap().n_columns == n_cols
                    &&& r.unwrap().n_rows == n_rows
                    &&& r.unwrap().first_center_x2 == (left_wall + right_wall) - n_cols * brick_w
                        - (n_cols - 1) * gap + brick_w
                    &&& r.unwrap().first_center_y2 == 2 * bottom_edge + brick_h
                    &&& r.unwrap().step_x2 == 2 * (brick_w + gap)
                    &&& r.unwrap().step_y2 == 2 * (brick_h + gap)
                }
            }
        }),
{
    if brick_w <= 0 || brick_h <= 0 {
        return Err(SetupError::BrickSize);
    }
    let total_width: i64 = (right_wall as i64 - left_wall as i64) - 2 * (gap_sides as i64);
    if total_width <= 0 {
        return Err(SetupError::ArenaWidth);
    }
    let total_height: i64 = top_wall as i64 - bottom_edge as i64 - gap_ceiling as i64;
    if total_height <= 0 {
        return Err(SetupError::ArenaHeight);
    }
    let stride_x: i64 = brick_w as i64 + gap as i64;
    let stride_y: i64 = brick_h as i64 + gap as i64;
    let n_columns: u64 = (total_width as u64) / (stride_x as u64);
    let n_rows: u64 = (total_height as u64) / (stride_y as u64);
    if n_columns == 0 || n_rows == 0 {
        return Err(SetupError::NoBricksFit);
    }
    proof {
        vstd::arithmetic::div_mod::lemma_div_nonincreasing(total_width as int, stride_x as int);
        vstd::arithmetic::div_mod::lemma_div_pos_is_pos(total_width as int, stride_x as int);
        vstd::arithmetic::div_mod::lemma_div_nonincreasing(total_height as int, stride_y as int);
        vstd::arithmetic::div_mod::lemma_div_pos_is_pos(total_height as int, stride_y as int);
        assert(0 <= (n_columns as i64) * (brick_w as i64) <= 4_000_000_000_000i64
            && 0 <= (n_columns as i64 - 1) * (gap as i64) <= 4_000_000_000_000i64)
            by (nonlinear_arith)
            requires
                1 <= n_columns as i64,
                n_columns as i64 <= 4_000_000,
                1 <= brick_w as i64,
                brick_w as i64 <= 1_000_000,
                0 <= gap as i64,
                gap as i64 <= 1_000_000,
        ;
    }
    let first_center_x2: i64 = (left_wall as i64 + right_wall as i64) - (n_columns as i64)
        * (brick_w as i64) - (n_columns as i64 - 1) * (gap as i64) + brick_w as i64;
    let first_center_y2: i64 = 2 * (bottom_edge as i64) + brick_h as i64;
    Ok(
        BrickGrid {
            n_rows,
            n_columns,
            first_center_x2,
            first_center_y2,
            step_x2: 2 * stride_x,
            step_y2: 2 * stride_y,
        },
    )
}

} // verus!
