//! Which tileset image and tile a map cell shows.

use vstd::prelude::*;

verus! {

/// The map's width in tiles.
pub const MAP_WIDTH: usize = 30;

/// The map's height in tiles.
pub const MAP_HEIGHT: usize = 20;

/// The number of tile columns in a tileset image.
pub const TILESET_COLUMNS: usize = 36;

/// Where a cell's tile comes from.
#[derive(Clone, Copy, PartialEq, Eq, Structural, Debug)]
pub enum TileSource {
    /// The cell is empty.
    Empty,
    /// Tile at this index of the first tileset.
    First(usize),
    /// Tile at this index of the second tileset.
    Second(usize),
    /// A shadow tile, which is not drawn.
    Shadow,
}

/// Where the tile with global id `tile_id` comes from: id 0 is empty, ids
/// from 1 belong to the first tileset, ids from 865 to the second, and ids
/// from 1729 on to the shadow tileset.
pub fn classify_tile(tile_id: u32) -> (r: TileSource)
    ensures
        r == if tile_id == 0 {
            TileSource::Empty
        } else if tile_id < 865 {
            TileSource::First((tile_id - 1) as usize)
        } else if tile_id < 1729 {
            TileSource::Second((tile_id - 865) as usize)
        } else {
            TileSource::Shadow
        },
{
    if tile_id == 0 {
        TileSource::Empty
    } else if tile_id < 865 {
        TileSource::First((tile_id - 1) as usize)
    } else if tile_id < 1729 {
        TileSource::Second((tile_id - 865) as usize)
    } else {
        TileSource::Shadow
    }
}

/// The position in the row-major cell data of the cell at `row`, `col`.
pub fn tile_index(row: usize, col: usize) -> (i: usize)
    requires
        row < MAP_HEIGHT,
        col < MAP_WIDTH,
    ensures
        i == row * MAP_WIDTH + col,
        i < MAP_WIDTH * MAP_HEIGHT,
{
    row * MAP_WIDTH + col
}

/// Every drawn tile's index lies inside its tileset of 36 × 24 tiles.
pub proof fn lemma_tile_indices_in_range(tile_id: u32)
    ensures
        tile_id != 0 && tile_id < 865 ==> tile_id - 1 < 36 * 24,
        865 <= tile_id < 1729 ==> tile_id - 865 < 36 * 24,
{
}

} // verus!
