//! The decoded tiles the video layer knows about, indexed by tile number.

use vstd::prelude::*;

use crate::tile::Tile;

verus! {

/// How many tiles the tile-data area can hold.
pub const MAX_TILES: usize = 384;

pub struct TileDictionary {
    pub tiles: Vec<Tile>,
}

impl TileDictionary {
    /// A dictionary always holds one slot per possible tile.
    pub open spec fn wf(self) -> bool {
        self.tiles@.len() == MAX_TILES
    }

    /// Stores the decoded tile for one tile number.
    pub fn set(&mut self, index: usize, value: Tile)
        requires
            old(self).wf(),
            index < MAX_TILES,
        ensures
            final(self).wf(),
            final(self).tiles@ == old(self).tiles@.update(index as int, value),
    {
        self.tiles.set(index, value);
    }
}

impl Default for TileDictionary {
    /// A dictionary of blank tiles.
    fn default() -> (r: Self)
        ensures
            r.wf(),
            forall|k: int, i: int, j: int|
                0 <= k < MAX_TILES && 0 <= i < 8 && 0 <= j < 8 ==> #[trigger] r.tiles@[k].rows@[i]
                    .pixels@[j] == crate::pixel::Pixel::Lightest,
    {
        let tile = Tile::blank();
        let mut tiles: Vec<Tile> = Vec::new();
        let mut k: usize = 0;
        while k < MAX_TILES
            invariant
                k <= MAX_TILES,
                tiles@.len() == k,
                forall|n: int| 0 <= n < k ==> #[trigger] tiles@[n] == tile,
                forall|i: int, j: int|
                    0 <= i < 8 && 0 <= j < 8 ==> #[trigger] tile.rows@[i].pixels@[j]
                        == crate::pixel::Pixel::Lightest,
            decreases MAX_TILES - k,
        {
            tiles.push(tile);
            k = k + 1;
        }
        TileDictionary { tiles }
    }
}

} // verus!
