//! The per-frame grid walk: from corner signs to the lines drawn on the
//! canvas.
//!
//! A frame holds one sign per grid corner. Every cell reads its four
//! corners, packs them into a pattern, resolves the pattern to contour
//! segments, and places each segment at the cell's canvas position. All
//! coordinates here are integer canvas units; segment endpoints sit on
//! half-cell steps, so an even cell size keeps them exact.

use vstd::prelude::*;
use crate::contour::Segment;
use crate::contour::segments_of;
use crate::contour::resolve;
use crate::pattern::bit_of;
use crate::pattern::square_to_num;

verus! {

/// Logical canvas width, in canvas units.
pub const CANVAS_WIDTH: u64 = 800;

/// Logical canvas height, in canvas units.
pub const CANVAS_HEIGHT: u64 = 600;

/// Side of one grid cell, in canvas units.
pub const CELL_SIZE: u64 = 10;

/// Bound under which cell coordinates and sizes cannot overflow a
/// placement computation.
pub const COORD_BOUND: u64 = 0x80000000;

/// One line to draw, endpoints in absolute canvas units.
#[derive(Clone, Copy, PartialEq, Eq, Structural, Debug)]
pub struct PixelLine {
    pub x0: u64,
    pub y0: u64,
    pub x1: u64,
    pub y1: u64,
}

/// Where a segment of cell `(x, y)` lands on the canvas: the cell's origin
/// plus the endpoint offsets in half-cell units.
pub open spec fn placed(s: Segment, x: int, y: int, cell: int) -> PixelLine {
    PixelLine {
        x0: (x * cell + s.x0 * (cell / 2)) as u64,
        y0: (y * cell + s.y0 * (cell / 2)) as u64,
        x1: (x * cell + s.x1 * (cell / 2)) as u64,
        y1: (y * cell + s.y1 * (cell / 2)) as u64,
    }
}

/// All lines of the cell at `(x, y)` for a given corner pattern.
pub open spec fn cell_lines_spec(p: int, x: int, y: int, cell: int) -> Seq<PixelLine> {
    segments_of(p).map(|i: int, s: Segment| placed(s, x, y, cell))
}

/// Places one contour segment of cell `(x, y)` on the canvas.
pub fn place_segment(s: &Segment, x: u64, y: u64, cell_size: u64) -> (line: PixelLine)
    requires
        x < COORD_BOUND,
        y < COORD_BOUND,
        cell_size < COORD_BOUND,
    ensures
        line == placed(*s, x as int, y as int, cell_size as int),
{
    proof {
        assert(x * cell_size + 256 * cell_size < 0x7fffffff00000000) by (nonlinear_arith)
            requires
                x < 0x80000000u64 && cell_size < 0x80000000u64,
        ;
        assert(y * cell_size + 256 * cell_size < 0x7fffffff00000000) by (nonlinear_arith)
            requires
                y < 0x80000000u64 && cell_size < 0x80000000u64,
        ;
        assert(s.x0 * (cell_size / 2) <= 256 * cell_size) by (nonlinear_arith)
            requires
                s.x0 <= 255,
        ;
        assert(s.y0 * (cell_size / 2) <= 256 * cell_size) by (nonlinear_arith)
            requires
                s.y0 <= 255,
        ;
        assert(s.x1 * (cell_size / 2) <= 256 * cell_size) by (nonlinear_arith)
            requires
                s.x1 <= 255,
        ;
        assert(s.y1 * (cell_size / 2) <= 256 * cell_size) by (nonlinear_arith)
            requires
                s.y1 <= 255,
        ;
    }
    let half = cell_size / 2;
    PixelLine {
        x0: x * cell_size + (s.x0 as u64) * half,
        y0: y * cell_size + (s.y0 as u64) * half,
        x1: x * cell_size + (s.x1 as u64) * half,
        y1: y * cell_size + (s.y1 as u64) * half,
    }
}

/// Resolves a corner pattern and places every resulting segment at the
/// canvas position of cell `(x, y)`.
pub fn cell_lines(pattern: i64, x: u64, y: u64, cell_size: u64) -> (lines: Vec<PixelLine>)
    requires
        0 <= pattern <= 15,
        x < COORD_BOUND,
        y < COORD_BOUND,
        cell_size < COORD_BOUND,
    ensures
        lines@ == cell_lines_spec(pattern as int, x as int, y as int, cell_size as int),
{
    let segs = resolve(pattern);
    let mut lines: Vec<PixelLine> = Vec::new();
    let mut i: usize = 0;
    while i < segs.len()
        invariant
            x < COORD_BOUND,
            y < COORD_BOUND,
            cell_size < COORD_BOUND,
            i <= segs@.len(),
            segs@ == segments_of(pattern as int),
            lines@.len() == i,
            forall|k: int|
                0 <= k < i ==> lines@[k] == placed(
                    segs@[k],
                    x as int,
                    y as int,
                    cell_size as int,
                ),
        decreases segs@.len() - i,
    {
        let line = place_segment(&segs[i], x, y, cell_size);
        lines.push(line);
        i = i + 1;
    }
    proof {
        assert(lines@ =~= cell_lines_spec(pattern as int, x as int, y as int, cell_size as int));
    }
    lines
}

/// The per-frame grid. Its dimensions are derived from the canvas and the
/// cell size, never specified independently, so the two cannot fall out of
/// step.
pub struct Grid {
    pub cells_x: u64,
    pub cells_y: u64,
    pub cell_size: u64,
}

impl Grid {
    /// Bounds under which every index and placement of a frame walk stays
    /// exact and free of overflow.
    pub open spec fn wf(self) -> bool {
        &&& 0 < self.cell_size < COORD_BOUND
        &&& self.cells_x < COORD_BOUND
        &&& self.cells_y < COORD_BOUND
    }

    /// Derives the grid covering a canvas: as many whole cells as fit in
    /// each direction.
    pub fn new(canvas_w: u64, canvas_h: u64, cell_size: u64) -> (g: Grid)
        requires
            0 < cell_size < COORD_BOUND,
            canvas_w < COORD_BOUND,
            canvas_h < COORD_BOUND,
        ensures
            g.cells_x == canvas_w / cell_size,
            g.cells_y == canvas_h / cell_size,
            g.cell_size == cell_size,
            g.wf(),
    {
        Grid { cells_x: canvas_w / cell_size, cells_y: canvas_h / cell_size, cell_size }
    }
}

/// The corner pattern of the cell at `(x, y)`, read from a frame's corner
/// signs laid out with the given stride: corner `(i, j)` of the grid sits
/// at index `i * stride + j`.
pub open spec fn pattern_at(signs: Seq<i64>, stride: int, x: int, y: int) -> int {
    8 * bit_of(signs[x * stride + y]) + 4 * bit_of(signs[(x + 1) * stride + y]) + 2 * bit_of(
        signs[(x + 1) * stride + (y + 1)],
    ) + bit_of(signs[x * stride + (y + 1)])
}

/// The lines of one grid column `x`, cells `0..ny` from top to bottom.
pub open spec fn column_lines_spec(
    signs: Seq<i64>,
    stride: int,
    x: int,
    ny: int,
    cell: int,
) -> Seq<PixelLine>
    decreases ny,
{
    if ny <= 0 {
        Seq::empty()
    } else {
        column_lines_spec(signs, stride, x, ny - 1, cell) + cell_lines_spec(
            pattern_at(signs, stride, x, ny - 1),
            x,
            ny - 1,
            cell,
        )
    }
}

/// The lines of a whole frame: columns `0..nx` left to right, each walked
/// top to bottom.
pub open spec fn frame_lines_spec(
    signs: Seq<i64>,
    stride: int,
    nx: int,
    ny: int,
    cell: int,
) -> Seq<PixelLine>
    decreases nx,
{
    if nx <= 0 {
        Seq::empty()
    } else {
        frame_lines_spec(signs, stride, nx - 1, ny, cell) + column_lines_spec(
            signs,
            stride,
            nx - 1,
            ny,
            cell,
        )
    }
}

/// Walks every cell of the grid over one frame's corner signs and returns,
/// in drawing order, every contour line of the frame. `signs` holds one
/// sign per grid corner, laid out column-major: corner `(i, j)` at index
/// `i * (cells_y + 1) + j`.
pub fn frame_lines(signs: &Vec<i64>, grid: &Grid) -> (lines: Vec<PixelLine>)
    requires
        grid.wf(),
        signs@.len() == (grid.cells_x + 1) * (grid.cells_y + 1),
    ensures
        lines@ == frame_lines_spec(
            signs@,
            grid.cells_y + 1,
            grid.cells_x as int,
            grid.cells_y as int,
            grid.cell_size as int,
        ),
{
    let stride: u64 = grid.cells_y + 1;
    // The sign count is a vector length, so every corner index fits a usize.
    let _n: usize = signs.len();
    let ghost gs = signs@;
    let ghost cell = grid.cell_size as int;
    let mut lines: Vec<PixelLine> = Vec::new();
    let mut x: u64 = 0;
    while x < grid.cells_x
        invariant
            grid.wf(),
            stride == grid.cells_y + 1,
            gs == signs@,
            cell == grid.cell_size as int,
            gs.len() == (grid.cells_x + 1) * (grid.cells_y + 1),
            gs.len() <= usize::MAX,
            x <= grid.cells_x,
            lines@ == frame_lines_spec(gs, stride as int, x as int, grid.cells_y as int, cell),
        decreases grid.cells_x - x,
    {
        let mut y: u64 = 0;
        while y < grid.cells_y
            invariant
                grid.wf(),
                stride == grid.cells_y + 1,
                gs == signs@,
                cell == grid.cell_size as int,
                gs.len() == (grid.cells_x + 1) * (grid.cells_y + 1),
                gs.len() <= usize::MAX,
                x < grid.cells_x,
                y <= grid.cells_y,
                lines@ == frame_lines_spec(gs, stride as int, x as int, grid.cells_y as int, cell)
                    + column_lines_spec(gs, stride as int, x as int, y as int, cell),
            decreases grid.cells_y - y,
        {
            proof {
                assert((x + 1) * stride + (y + 1) < (grid.cells_x + 1) * (grid.cells_y + 1))
                    by (nonlinear_arith)
                    requires
                        x < grid.cells_x,
                        y < grid.cells_y,
                        stride == grid.cells_y + 1,
                        grid.cells_x < 0x80000000u64,
                        grid.cells_y < 0x80000000u64,
                ;
                assert(x * stride + y < (x + 1) * stride + (y + 1)) by (nonlinear_arith)
                    requires
                        stride >= 1,
                ;
                assert(x * stride + (y + 1) < (x + 1) * stride + (y + 1)) by (nonlinear_arith)
                    requires
                        stride >= 1,
                ;
            }
            let mut square: Vec<i64> = Vec::new();
            square.push(signs[(x * stride + y) as usize]);
            square.push(signs[((x + 1) * stride + y) as usize]);
            square.push(signs[((x + 1) * stride + (y + 1)) as usize]);
            square.push(signs[(x * stride + (y + 1)) as usize]);
            let num = square_to_num(square);
            proof {
                assert(num == pattern_at(gs, stride as int, x as int, y as int));
            }
            let mut cl = cell_lines(num, x, y, grid.cell_size);
            lines.append(&mut cl);
            proof {
                assert(lines@ =~= frame_lines_spec(
                    gs,
                    stride as int,
                    x as int,
                    grid.cells_y as int,
                    cell,
                ) + column_lines_spec(gs, stride as int, x as int, (y + 1) as int, cell));
            }
            y = y + 1;
        }
        proof {
            assert(lines@ =~= frame_lines_spec(
                gs,
                stride as int,
                (x + 1) as int,
                grid.cells_y as int,
                cell,
            ));
        }
        x = x + 1;
    }
    lines
}

} // verus!
