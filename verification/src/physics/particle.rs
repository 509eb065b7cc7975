//! The particle record and the factory that lays particles out on a centred
//! rectangular grid with a colour gradient along each axis.

use vstd::prelude::*;
use vstd::arithmetic::div_mod::{
    lemma_fundamental_div_mod,
    lemma_fundamental_div_mod_converse,
    lemma_mod_pos_bound,
};

verus! {

/// Point size given to every particle.
pub const POINT_SIZE: u32 = 2;

/// Columns of the demonstration grid.
pub const GRID_COLS: u32 = 50;

/// Rows of the demonstration grid.
pub const GRID_ROWS: u32 = 30;

/// Distance between neighbouring cells of the demonstration grid.
pub const GRID_SPACING: u32 = 8;

/// One colour channel as the exact ratio `num / den`.
#[derive(Clone, Copy, Debug, PartialEq, Eq, Structural)]
pub struct Channel {
    pub num: u32,
    pub den: u32,
}

impl Channel {
    /// The ratio is defined and lies between 0 and 1.
    pub open spec fn wf(&self) -> bool {
        0 < self.den && self.num <= self.den
    }

    /// The channel is off: its ratio is 0.
    pub open spec fn is_zero(&self) -> bool {
        self.wf() && self.num == 0
    }

    /// The channel is saturated: its ratio is 1.
    pub open spec fn is_one(&self) -> bool {
        self.wf() && self.num == self.den
    }
}

/// World-space coordinates of a particle.
#[derive(Clone, Copy, Debug, PartialEq, Eq, Structural)]
pub struct Position {
    pub x: i64,
    pub y: i64,
}

/// Normalised red, green and blue.
#[derive(Clone, Copy, Debug, PartialEq, Eq, Structural)]
pub struct Color {
    pub red: Channel,
    pub green: Channel,
    pub blue: Channel,
}

impl Color {
    pub open spec fn wf(&self) -> bool {
        self.red.wf() && self.green.wf() && self.blue.wf()
    }
}

/// One renderable point.
#[derive(Clone, Copy, Debug, PartialEq, Eq, Structural)]
pub struct Particle {
    pub position: Position,
    pub color: Color,
    pub size: u32,
}

/// Smallest and largest coordinates that the particles of a grid take.
#[derive(Clone, Copy, Debug, PartialEq, Eq, Structural)]
pub struct Bounds {
    pub min_x: i64,
    pub max_x: i64,
    pub min_y: i64,
    pub max_y: i64,
}

impl Bounds {
    /// The position lies within the bounds, ends included.
    pub open spec fn contains(&self, p: Position) -> bool {
        self.min_x <= p.x <= self.max_x && self.min_y <= p.y <= self.max_y
    }
}

impl Particle {
    /// A particle at `(x, y)` with the given colour and the fixed point size.
    pub fn new(x: i64, y: i64, color: Color) -> (p: Particle)
        ensures
            p.position.x == x,
            p.position.y == y,
            p.color == color,
            p.size == POINT_SIZE,
    {
        Particle { position: Position { x, y }, color, size: POINT_SIZE }
    }
}

/// Coordinate of cell `index` on an axis of `count` cells: cells are `spacing`
/// apart and cell `count / 2` sits at the origin.
pub open spec fn centered(index: u32, count: u32, spacing: u32) -> int {
    (index as int - (count / 2) as int) * spacing as int
}

/// Gradient value of cell `index` on an axis of `count` cells: `index / (count - 1)`.
/// An axis of a single cell has no far end and stays at 0.
pub open spec fn gradient(index: u32, count: u32) -> Channel {
    Channel { num: index, den: if count > 1 { (count - 1) as u32 } else { 1 } }
}

/// The constant blue tint, 3/10.
pub open spec fn blue_tint() -> Channel {
    Channel { num: 3, den: 10 }
}

/// The particle of column `i` and row `j` in a grid of `cols` by `rows` cells.
pub open spec fn grid_particle(rows: u32, cols: u32, spacing: u32, i: u32, j: u32) -> Particle {
    Particle {
        position: Position {
            x: centered(i, cols, spacing) as i64,
            y: centered(j, rows, spacing) as i64,
        },
        color: Color { red: gradient(i, cols), green: gradient(j, rows), blue: blue_tint() },
        size: POINT_SIZE,
    }
}

/// The whole grid, column after column: element `i * rows + j` is the particle
/// of column `i` and row `j`.
pub open spec fn grid(rows: u32, cols: u32, spacing: u32) -> Seq<Particle> {
    Seq::new(
        (cols * rows) as nat,
        |k: int| grid_particle(rows, cols, spacing, (k / rows as int) as u32, (k % rows as int) as u32),
    )
}

/// The bounds of a grid with at least one column and one row: the coordinates
/// of its first and of its last cell.
pub open spec fn grid_bounds(rows: u32, cols: u32, spacing: u32) -> Bounds {
    Bounds {
        min_x: centered(0, cols, spacing) as i64,
        max_x: centered((cols - 1) as u32, cols, spacing) as i64,
        min_y: centered(0, rows, spacing) as i64,
        max_y: centered((rows - 1) as u32, rows, spacing) as i64,
    }
}

/// A centred coordinate always fits in 64 bits.
pub proof fn lemma_centered_fits(index: u32, count: u32, spacing: u32)
    requires
        index < count,
    ensures
        i64::MIN <= centered(index, count, spacing) <= i64::MAX,
        centered(index, count, spacing) as i64 == centered(index, count, spacing),
{
    let d = index as int - (count / 2) as int;
    let s = spacing as int;
    assert(-0x8000_0000 * 0xffff_ffff <= d * s <= 0x8000_0000 * 0xffff_ffff) by (nonlinear_arith)
        requires
            -0x8000_0000 <= d <= 0x8000_0000,
            0 <= s <= 0xffff_ffff,
    ;
}

/// Column `i`, row `j` of the grid is element `i * rows + j` of the sequence.
pub proof fn lemma_grid_index(rows: u32, cols: u32, spacing: u32, i: u32, j: u32)
    requires
        i < cols,
        j < rows,
    ensures
        0 <= i * rows + j < grid(rows, cols, spacing).len(),
        grid(rows, cols, spacing)[i * rows + j] == grid_particle(rows, cols, spacing, i, j),
{
    let k = i * rows + j;
    assert(0 <= i * rows && i * rows + rows <= cols * rows) by (nonlinear_arith)
        requires
            0 <= i < cols,
            0 <= rows,
    ;
    lemma_fundamental_div_mod_converse(k, rows as int, i as int, j as int);
}

/// Element `k` of the grid belongs to column `k / rows` and row `k % rows`,
/// and both lie within the grid.
pub proof fn lemma_grid_cell(rows: u32, cols: u32, spacing: u32, k: int)
    requires
        0 <= k < cols * rows,
    ensures
        0 <= k / (rows as int) < cols,
        0 <= k % (rows as int) < rows,
        grid(rows, cols, spacing)[k] == grid_particle(
            rows,
            cols,
            spacing,
            (k / rows as int) as u32,
            (k % rows as int) as u32,
        ),
{
    assert(rows > 0) by (nonlinear_arith)
        requires
            0 <= k < cols * rows,
            0 <= rows,
    ;
    let r = rows as int;
    lemma_fundamental_div_mod(k, r);
    lemma_mod_pos_bound(k, r);
    let q = k / r;
    assert(0 <= q < cols) by (nonlinear_arith)
        requires
            k == r * q + k % r,
            0 <= k % r < r,
            0 <= k < cols * r,
            0 < r,
    ;
}

/// The gradient runs from end to end: the first particle has red and green 0,
/// and the last has red 1 where there are two columns or more, green 1 where
/// there are two rows or more.
pub proof fn lemma_gradient_endpoints(rows: u32, cols: u32, spacing: u32)
    requires
        rows >= 1,
        cols >= 1,
    ensures
        grid(rows, cols, spacing).len() >= 1,
        grid(rows, cols, spacing).first() == grid_particle(rows, cols, spacing, 0, 0),
        grid(rows, cols, spacing).last() == grid_particle(
            rows,
            cols,
            spacing,
            (cols - 1) as u32,
            (rows - 1) as u32,
        ),
        grid(rows, cols, spacing).first().color.red.is_zero(),
        grid(rows, cols, spacing).first().color.green.is_zero(),
        cols >= 2 ==> grid(rows, cols, spacing).last().color.red.is_one(),
        rows >= 2 ==> grid(rows, cols, spacing).last().color.green.is_one(),
{
    lemma_grid_index(rows, cols, spacing, 0, 0);
    lemma_grid_index(rows, cols, spacing, (cols - 1) as u32, (rows - 1) as u32);
    assert((cols - 1) * rows + (rows - 1) == cols * rows - 1) by (nonlinear_arith);
}

/// Every position lies within the grid's extent: from `-(cols / 2) * spacing`
/// to `(cols - 1 - cols / 2) * spacing` across, and likewise down with `rows`.
/// For an even number of columns the upper end is `(cols / 2 - 1) * spacing`,
/// for an even number of rows `(rows / 2 - 1) * spacing`.
pub proof fn lemma_positions_in_bounds(rows: u32, cols: u32, spacing: u32, k: int)
    requires
        0 <= k < cols * rows,
    ensures
        ({
            let p = grid(rows, cols, spacing)[k].position;
            &&& -((cols / 2) * spacing) <= p.x <= (cols - 1 - cols / 2) * spacing
            &&& -((rows / 2) * spacing) <= p.y <= (rows - 1 - rows / 2) * spacing
            &&& cols % 2 == 0 ==> p.x <= (cols / 2 - 1) * spacing
            &&& rows % 2 == 0 ==> p.y <= (rows / 2 - 1) * spacing
        }),
{
    lemma_grid_cell(rows, cols, spacing, k);
    let i = (k / rows as int) as u32;
    let j = (k % rows as int) as u32;
    lemma_centered_fits(i, cols, spacing);
    lemma_centered_fits(j, rows, spacing);
    lemma_centered_in_extent(i, cols, spacing);
    lemma_centered_in_extent(j, rows, spacing);
}

/// A centred coordinate lies between those of the first and the last cell.
pub proof fn lemma_centered_in_extent(index: u32, count: u32, spacing: u32)
    requires
        index < count,
    ensures
        -((count / 2) * spacing) <= centered(index, count, spacing) <= (count - 1 - count / 2)
            * spacing,
        count % 2 == 0 ==> count - 1 - count / 2 == count / 2 - 1,
{
    let h = (count / 2) as int;
    let d = index as int - h;
    let s = spacing as int;
    let top = count as int - 1 - h;
    assert(-(h * s) <= d * s <= top * s) by (nonlinear_arith)
        requires
            -h <= d <= top,
            0 <= s,
    ;
}

/// The bounds of a grid enclose every particle of it, and they are tight: the
/// first particle sits at the lower ends and the last at the upper ends.
pub proof fn lemma_bounds_enclose_grid(rows: u32, cols: u32, spacing: u32, k: int)
    requires
        0 <= k < cols * rows,
    ensures
        grid_bounds(rows, cols, spacing).contains(grid(rows, cols, spacing)[k].position),
        grid(rows, cols, spacing).first().position == (Position {
            x: grid_bounds(rows, cols, spacing).min_x,
            y: grid_bounds(rows, cols, spacing).min_y,
        }),
        grid(rows, cols, spacing).last().position == (Position {
            x: grid_bounds(rows, cols, spacing).max_x,
            y: grid_bounds(rows, cols, spacing).max_y,
        }),
{
    lemma_grid_cell(rows, cols, spacing, k);
    lemma_gradient_endpoints(rows, cols, spacing);
    lemma_positions_in_bounds(rows, cols, spacing, k);
    lemma_centered_fits(0, cols, spacing);
    lemma_centered_fits((cols - 1) as u32, cols, spacing);
    lemma_centered_fits(0, rows, spacing);
    lemma_centered_fits((rows - 1) as u32, rows, spacing);
    assert(centered(0, cols, spacing) == -((cols / 2) * spacing)) by (nonlinear_arith);
    assert(centered(0, rows, spacing) == -((rows / 2) * spacing)) by (nonlinear_arith);
}

/// Every particle of the grid has colour channels between 0 and 1 and the
/// fixed point size.
pub proof fn lemma_grid_particles_wf(rows: u32, cols: u32, spacing: u32, k: int)
    requires
        0 <= k < cols * rows,
    ensures
        grid(rows, cols, spacing)[k].color.wf(),
        grid(rows, cols, spacing)[k].size == POINT_SIZE,
{
    lemma_grid_cell(rows, cols, spacing, k);
}

fn centered_coordinate(index: u32, count: u32, spacing: u32) -> (c: i64)
    requires
        index < count,
    ensures
        c == centered(index, count, spacing),
{
    proof {
        lemma_centered_fits(index, count, spacing);
    }
    let offset: i64 = index as i64 - (count / 2) as i64;
    offset * (spacing as i64)
}

fn gradient_channel(index: u32, count: u32) -> (c: Channel)
    ensures
        c == gradient(index, count),
{
    if count > 1 {
        Channel { num: index, den: count - 1 }
    } else {
        Channel { num: index, den: 1 }
    }
}

/// Lays out `cols * rows` particles on a centred grid, column after column.
pub fn generate_grid(rows: u32, cols: u32, spacing: u32) -> (particles: Vec<Particle>)
    requires
        cols * rows <= usize::MAX,
    ensures
        particles@ == grid(rows, cols, spacing),
        particles.len() == cols * rows,
{
    let mut particles: Vec<Particle> = Vec::new();
    let mut i: u32 = 0;
    while i < cols
        invariant
            i <= cols,
            cols * rows <= usize::MAX,
            particles.len() == i * rows,
            forall|k: int|
                0 <= k < particles.len() ==> #[trigger] particles[k] == grid_particle(
                    rows,
                    cols,
                    spacing,
                    (k / rows as int) as u32,
                    (k % rows as int) as u32,
                ),
        decreases cols - i,
    {
        let mut j: u32 = 0;
        while j < rows
            invariant
                i < cols,
                j <= rows,
                cols * rows <= usize::MAX,
                particles.len() == i * rows + j,
                forall|k: int|
                    0 <= k < particles.len() ==> #[trigger] particles[k] == grid_particle(
                        rows,
                        cols,
                        spacing,
                        (k / rows as int) as u32,
                        (k % rows as int) as u32,
                    ),
            decreases rows - j,
        {
            let x = centered_coordinate(i, cols, spacing);
            let y = centered_coordinate(j, rows, spacing);
            let color = Color {
                red: gradient_channel(i, cols),
                green: gradient_channel(j, rows),
                blue: Channel { num: 3, den: 10 },
            };
            proof {
                let k = i * rows + j;
                lemma_fundamental_div_mod_converse(k, rows as int, i as int, j as int);
                assert(i * rows + rows <= cols * rows) by (nonlinear_arith)
                    requires
                        i < cols,
                        0 <= rows,
                ;
            }
            particles.push(Particle::new(x, y, color));
            j = j + 1;
        }
        assert((i + 1) * rows == i * rows + rows) by (nonlinear_arith);
        i = i + 1;
    }
    assert(particles@ =~= grid(rows, cols, spacing));
    particles
}

/// The bounds of the positions in a grid, for a report of what was generated.
/// An empty grid has none.
pub fn position_bounds(rows: u32, cols: u32, spacing: u32) -> (b: Option<Bounds>)
    ensures
        b.is_some() <==> rows > 0 && cols > 0,
        b matches Some(bounds) ==> {
            &&& bounds == grid_bounds(rows, cols, spacing)
            &&& bounds.min_x == -((cols / 2) * spacing)
            &&& bounds.max_x == (cols - 1 - cols / 2) * spacing
            &&& bounds.min_y == -((rows / 2) * spacing)
            &&& bounds.max_y == (rows - 1 - rows / 2) * spacing
        },
{
    if rows == 0 || cols == 0 {
        return None;
    }
    let min_x = centered_coordinate(0, cols, spacing);
    let max_x = centered_coordinate(cols - 1, cols, spacing);
    let min_y = centered_coordinate(0, rows, spacing);
    let max_y = centered_coordinate(rows - 1, rows, spacing);
    assert(centered(0, cols, spacing) == -((cols / 2) * spacing)) by (nonlinear_arith);
    assert(centered(0, rows, spacing) == -((rows / 2) * spacing)) by (nonlinear_arith);
    Some(Bounds { min_x, max_x, min_y, max_y })
}

/// The demonstration grid: 50 columns by 30 rows, 8 units apart.
pub fn create_test_particles() -> (particles: Vec<Particle>)
    ensures
        particles@ == grid(GRID_ROWS, GRID_COLS, GRID_SPACING),
        particles.len() == 1500,
{
    generate_grid(GRID_ROWS, GRID_COLS, GRID_SPACING)
}

} // verus!
