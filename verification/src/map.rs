//! The procedural map: a fixed number of walls and two spawn points, all
//! drawn from one generator that is seeded anew for every map.

use crate::components::Wall;
use crate::geometry::{Vec2, MAP_LIMIT, UNIT};
use crate::rng::{draw_range, generator_state, range_draw, seeded_generator, seeded_state};
use rand_xoshiro::Xoshiro256PlusPlus;
use vstd::prelude::*;

verus! {

/// The number of walls of a map.
pub const WALL_COUNT: usize = 20;

/// Walls are less than this many cells wide and high: a quarter of the arena.
pub const MAX_BOX_SIZE: i32 = 10;

/// The arena's size in cells of one world unit.
pub const MAP_CELLS: i32 = 41;

/// Spawn coordinates are drawn from `-SPAWN_LIMIT..SPAWN_LIMIT`.
pub const SPAWN_LIMIT: i32 = 20_500_000;

/// Half a cell.
pub const HALF_CELL: i64 = 500_000;

/// A map as it comes out of the generator.
#[derive(Debug, PartialEq, Eq)]
pub struct GeneratedMap {
    pub walls: Vec<Wall>,
    pub spawn0: Vec2,
    pub spawn1: Vec2,
}

/// The mathematical content of a [`GeneratedMap`].
pub struct MapView {
    pub walls: Seq<Wall>,
    pub spawn0: Vec2,
    pub spawn1: Vec2,
}

impl View for GeneratedMap {
    type V = MapView;

    open spec fn view(&self) -> MapView {
        MapView { walls: self.walls@, spawn0: self.spawn0, spawn1: self.spawn1 }
    }
}

/// The wall that is `width` by `height` cells large and whose minimum corner
/// is the cell `(cell_x, cell_y)`, counted from the arena's minimum corner.
pub open spec fn wall_of(width: int, height: int, cell_x: int, cell_y: int) -> Wall {
    Wall {
        position: Vec2 {
            x: (cell_x * UNIT + width * HALF_CELL - MAP_LIMIT) as i64,
            y: (cell_y * UNIT + height * HALF_CELL - MAP_LIMIT) as i64,
        },
        half_extents: Vec2 { x: (width * HALF_CELL) as i64, y: (height * HALF_CELL) as i64 },
    }
}

/// One wall drawn in generator state `s`, and the state after it. Width and
/// height come first, then the minimum corner, so that the wall fits.
pub open spec fn draw_wall(s: Seq<u64>) -> (Wall, Seq<u64>) {
    let width = range_draw(s, 1, MAX_BOX_SIZE as int);
    let height = range_draw(width.1, 1, MAX_BOX_SIZE as int);
    let cell_x = range_draw(height.1, 0, MAP_CELLS - width.0 + 1);
    let cell_y = range_draw(cell_x.1, 0, MAP_CELLS - height.0 + 1);
    (wall_of(width.0, height.0, cell_x.0, cell_y.0), cell_y.1)
}

/// The generator state after `n` walls were drawn from state `s`.
pub open spec fn state_after_walls(s: Seq<u64>, n: nat) -> Seq<u64>
    decreases n,
{
    if n == 0 {
        s
    } else {
        draw_wall(state_after_walls(s, (n - 1) as nat)).1
    }
}

/// The first `n` walls drawn from state `s`, in the order of the draws.
pub open spec fn walls_drawn(s: Seq<u64>, n: nat) -> Seq<Wall>
    decreases n,
{
    if n == 0 {
        Seq::empty()
    } else {
        walls_drawn(s, (n - 1) as nat).push(draw_wall(state_after_walls(s, (n - 1) as nat)).0)
    }
}

/// One spawn point drawn in generator state `s`, and the state after it.
pub open spec fn draw_point(s: Seq<u64>) -> (Vec2, Seq<u64>) {
    let x = range_draw(s, -SPAWN_LIMIT, SPAWN_LIMIT as int);
    let y = range_draw(x.1, -SPAWN_LIMIT, SPAWN_LIMIT as int);
    (Vec2 { x: x.0 as i64, y: y.0 as i64 }, y.1)
}

/// The map of `seed`: [`WALL_COUNT`] walls, then the spawn point of player 0,
/// then that of player 1, drawn in this order from the generator seeded with
/// `seed`.
pub open spec fn generated(seed: u64) -> MapView {
    let after_walls = state_after_walls(seeded_state(seed), WALL_COUNT as nat);
    let first = draw_point(after_walls);
    let second = draw_point(first.1);
    MapView {
        walls: walls_drawn(seeded_state(seed), WALL_COUNT as nat),
        spawn0: first.0,
        spawn1: second.0,
    }
}

impl MapView {
    /// The map has [`WALL_COUNT`] walls, each inside the arena, and both spawn
    /// points inside the arena.
    pub open spec fn wf(self) -> bool {
        &&& self.walls.len() == WALL_COUNT
        &&& forall|i: int| 0 <= i < self.walls.len() ==> (#[trigger] self.walls[i]).wf()
        &&& self.spawn0.within(MAP_LIMIT as int)
        &&& self.spawn1.within(MAP_LIMIT as int)
    }
}

/// The wall that is `width` by `height` cells large with its minimum corner
/// at the cell `(cell_x, cell_y)`. A wall that fits in the arena's cells lies
/// inside the arena.
pub fn wall_at(width: i32, height: i32, cell_x: i32, cell_y: i32) -> (wall: Wall)
    requires
        1 <= width <= MAP_CELLS,
        1 <= height <= MAP_CELLS,
        0 <= cell_x <= MAP_CELLS - width,
        0 <= cell_y <= MAP_CELLS - height,
    ensures
        wall == wall_of(width as int, height as int, cell_x as int, cell_y as int),
        wall.wf(),
{
    Wall {
        position: Vec2 {
            x: cell_x as i64 * UNIT + width as i64 * HALF_CELL - MAP_LIMIT,
            y: cell_y as i64 * UNIT + height as i64 * HALF_CELL - MAP_LIMIT,
        },
        half_extents: Vec2 { x: width as i64 * HALF_CELL, y: height as i64 * HALF_CELL },
    }
}

/// Draws one wall.
fn place_wall(rng: &mut Xoshiro256PlusPlus) -> (wall: Wall)
    ensures
        wall == draw_wall(generator_state(*old(rng))).0,
        generator_state(*final(rng)) == draw_wall(generator_state(*old(rng))).1,
        wall.wf(),
{
    let width: i32 = draw_range(rng, 1, MAX_BOX_SIZE);
    let height: i32 = draw_range(rng, 1, MAX_BOX_SIZE);
    let cell_x: i32 = draw_range(rng, 0, MAP_CELLS - width + 1);
    let cell_y: i32 = draw_range(rng, 0, MAP_CELLS - height + 1);
    wall_at(width, height, cell_x, cell_y)
}

/// Draws one spawn point.
fn place_spawn(rng: &mut Xoshiro256PlusPlus) -> (point: Vec2)
    ensures
        point == draw_point(generator_state(*old(rng))).0,
        generator_state(*final(rng)) == draw_point(generator_state(*old(rng))).1,
        point.within(MAP_LIMIT as int),
{
    let x: i32 = draw_range(rng, -SPAWN_LIMIT, SPAWN_LIMIT);
    let y: i32 = draw_range(rng, -SPAWN_LIMIT, SPAWN_LIMIT);
    Vec2 { x: x as i64, y: y as i64 }
}

/// Generates the map of `seed`. The same seed gives the same walls, in the
/// same order, and the same spawn points.
pub fn generate(seed: u64) -> (map: GeneratedMap)
    ensures
        map@ == generated(seed),
        map@.wf(),
{
    let mut rng = seeded_generator(seed);
    let mut walls: Vec<Wall> = Vec::new();
    let mut n: usize = 0;
    while n < WALL_COUNT
        invariant
            n <= WALL_COUNT,
            walls@.len() == n,
            walls@ == walls_drawn(seeded_state(seed), n as nat),
            generator_state(rng) == state_after_walls(seeded_state(seed), n as nat),
            forall|i: int| 0 <= i < walls@.len() ==> (#[trigger] walls@[i]).wf(),
        decreases WALL_COUNT - n,
    {
        let wall = place_wall(&mut rng);
        walls.push(wall);
        n = n + 1;
    }
    let spawn0 = place_spawn(&mut rng);
    let spawn1 = place_spawn(&mut rng);
    GeneratedMap { walls, spawn0, spawn1 }
}

/// Two maps of one seed are the same map.
pub proof fn lemma_generate_reproducible(seed_a: u64, seed_b: u64)
    requires
        seed_a == seed_b,
    ensures
        generated(seed_a) == generated(seed_b),
        generated(seed_a).walls =~= generated(seed_b).walls,
{
}

} // verus!
