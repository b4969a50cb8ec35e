//! The tiled floor of the arena.

use vstd::prelude::*;

verus! {

/// Width and height of the tiled square, in world units.
pub const WORLD_SIZE: u32 = 5000;

/// Width and height of one floor tile, in world units.
pub const TILE_SIZE: u32 = 48;

/// Tiles along each side of the floor: as many whole tiles as fit.
pub const TILES_PER_SIDE: u32 = 104;

/// World coordinate of the first row and column of tiles.
pub const TILE_ORIGIN: i32 = -2500;

/// Where the `k`-th tile goes: tiles are laid row by row, bottom row first,
/// each row from left to right.
pub open spec fn tile_position(k: int) -> (int, int) {
    (
        TILE_ORIGIN + TILE_SIZE * (k % TILES_PER_SIDE as int),
        TILE_ORIGIN + TILE_SIZE * (k / TILES_PER_SIDE as int),
    )
}

/// As many whole tiles fit along a side as `TILES_PER_SIDE` says.
pub proof fn lemma_tiles_fit()
    ensures
        TILES_PER_SIDE == WORLD_SIZE / TILE_SIZE,
{
}

/// The centre of every floor tile, row by row from the bottom, each row left
/// to right: `TILES_PER_SIDE` rows of `TILES_PER_SIDE` tiles, one
/// `TILE_SIZE` apart, the first at `(TILE_ORIGIN, TILE_ORIGIN)`.
pub fn setup_world() -> (tiles: Vec<(i32, i32)>)
    ensures
        tiles@.len() == TILES_PER_SIDE * TILES_PER_SIDE,
        forall|k: int|
            0 <= k < tiles@.len() ==> (#[trigger] tiles@[k].0 as int, tiles@[k].1 as int) == tile_position(k),
        forall|row: int, col: int|
            0 <= row < TILES_PER_SIDE && 0 <= col < TILES_PER_SIDE ==> #[trigger] tiles@[row
                * TILES_PER_SIDE + col] == (
                (TILE_ORIGIN + TILE_SIZE * col) as i32,
                (TILE_ORIGIN + TILE_SIZE * row) as i32,
            ),
{
    let mut tiles: Vec<(i32, i32)> = Vec::new();
    let mut row: u32 = 0;
    while row < TILES_PER_SIDE
        invariant
            row <= TILES_PER_SIDE,
            tiles@.len() == row * TILES_PER_SIDE,
            forall|r: int, c: int|
                0 <= r < row && 0 <= c < TILES_PER_SIDE ==> #[trigger] tiles@[r * TILES_PER_SIDE + c]
                    == ((TILE_ORIGIN + TILE_SIZE * c) as i32, (TILE_ORIGIN + TILE_SIZE * r) as i32),
        decreases TILES_PER_SIDE - row,
    {
        let y: i32 = TILE_ORIGIN + (TILE_SIZE * row) as i32;
        let mut col: u32 = 0;
        while col < TILES_PER_SIDE
            invariant
                row < TILES_PER_SIDE,
                col <= TILES_PER_SIDE,
                y == TILE_ORIGIN + TILE_SIZE * row,
                tiles@.len() == row * TILES_PER_SIDE + col,
                forall|r: int, c: int|
                    0 <= r < row && 0 <= c < TILES_PER_SIDE ==> #[trigger] tiles@[r * TILES_PER_SIDE
                        + c] == ((TILE_ORIGIN + TILE_SIZE * c) as i32, (TILE_ORIGIN + TILE_SIZE * r) as i32),
                forall|c: int|
                    0 <= c < col ==> #[trigger] tiles@[row * TILES_PER_SIDE + c] == (
                        (TILE_ORIGIN + TILE_SIZE * c) as i32,
                        y,
                    ),
            decreases TILES_PER_SIDE - col,
        {
            let x: i32 = TILE_ORIGIN + (TILE_SIZE * col) as i32;
            tiles.push((x, y));
            col = col + 1;
        }
        row = row + 1;
    }
    assert forall|k: int| 0 <= k < tiles@.len() implies (#[trigger] tiles@[k].0 as int, tiles@[k].1 as int)
        == tile_position(k) by {
        let r = k / TILES_PER_SIDE as int;
        let c = k % TILES_PER_SIDE as int;
        assert(k == r * TILES_PER_SIDE + c);
        assert(tiles@[r * TILES_PER_SIDE + c] == ((TILE_ORIGIN + TILE_SIZE * c) as i32, (TILE_ORIGIN + TILE_SIZE * r) as i32));
    }
    tiles
}

/// The floor is a grid of distinct tiles, one `TILE_SIZE` apart: the first at
/// `(-2500, -2500)`, each next tile in a row 48 units to the right, each row
/// 48 units above the last, and the last tile at `(2444, 2444)`.
pub proof fn lemma_tile_grid(k: int, j: int)
    requires
        0 <= k < TILES_PER_SIDE * TILES_PER_SIDE,
        0 <= j < TILES_PER_SIDE * TILES_PER_SIDE,
    ensures
        tile_position(0) == (-2500int, -2500int),
        tile_position(TILES_PER_SIDE * TILES_PER_SIDE - 1) == (2444int, 2444int),
        k % (TILES_PER_SIDE as int) < TILES_PER_SIDE - 1 ==> tile_position(k + 1) == (
            tile_position(k).0 + 48,
            tile_position(k).1,
        ),
        k + TILES_PER_SIDE < TILES_PER_SIDE * TILES_PER_SIDE ==> tile_position(
            k + TILES_PER_SIDE,
        ) == (tile_position(k).0, tile_position(k).1 + 48),
        -2500 <= tile_position(k).0 <= 2444 && -2500 <= tile_position(k).1 <= 2444,
        k != j ==> tile_position(k) != tile_position(j),
{
}

} // verus!
