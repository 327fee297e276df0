//! Tiles: 8-by-8 blocks of pixels decoded from pairs of video RAM bytes.
//! Each row comes from two bytes; bit `i` of the second byte and bit `i`
//! of the first together select the shade of pixel `i`.

use vstd::prelude::*;

use crate::lcdc::LCDC;
use crate::mbc::MBC;
use crate::pixel::Pixel;

verus! {

pub const TILE_DIMENSION: usize = 8;

pub const TILE_SIZE_BYTES: usize = 16;

/// The shade that bit `bit` of a row's byte pair encodes: the second
/// byte's bit is the high bit of the two-bit shade index, with the four
/// indices running from darkest (neither bit set) to lightest (both).
pub open spec fn row_pixel_of(b1: u8, b2: u8, bit: u8) -> Pixel {
    if b2 & (1u8 << bit) != 0 {
        if b1 & (1u8 << bit) != 0 {
            Pixel::Lightest
        } else {
            Pixel::Light
        }
    } else {
        if b1 & (1u8 << bit) != 0 {
            Pixel::Dark
        } else {
            Pixel::Darkest
        }
    }
}

/// The shade of one pixel of a tile row, from the row's two bytes.
fn row_pixel(b1: u8, b2: u8, bit: u8) -> (r: Pixel)
    requires
        bit < 8,
    ensures
        r == row_pixel_of(b1, b2, bit),
{
    let mask: u8 = 1u8 << bit;
    if b2 & mask != 0 {
        if b1 & mask != 0 {
            Pixel::Lightest
        } else {
            Pixel::Light
        }
    } else {
        if b1 & mask != 0 {
            Pixel::Dark
        } else {
            Pixel::Darkest
        }
    }
}

#[derive(Clone, Copy, Debug)]
pub struct TileRow {
    pub pixels: [Pixel; 8],
}

impl TileRow {
    /// Decodes one row of eight pixels from its two bytes.
    pub fn from_bytes(b1: u8, b2: u8) -> (r: TileRow)
        ensures
            forall|i: int| 0 <= i < 8 ==> #[trigger] r.pixels@[i] == row_pixel_of(b1, b2, i as u8),
    {
        TileRow {
            pixels: [
                row_pixel(b1, b2, 0),
                row_pixel(b1, b2, 1),
                row_pixel(b1, b2, 2),
                row_pixel(b1, b2, 3),
                row_pixel(b1, b2, 4),
                row_pixel(b1, b2, 5),
                row_pixel(b1, b2, 6),
                row_pixel(b1, b2, 7),
            ],
        }
    }
}

impl PartialEq for TileRow {
    /// Two rows are equal when every pixel matches.
    fn eq(&self, other: &TileRow) -> (r: bool) {
        let mut i: usize = 0;
        while i < 8
            invariant
                i <= 8,
                forall|k: int| 0 <= k < i ==> self.pixels@[k] == other.pixels@[k],
            decreases 8 - i,
        {
            if self.pixels[i] != other.pixels[i] {
                return false;
            }
            i = i + 1;
        }
        proof {
            assert(self.pixels@ =~= other.pixels@);
        }
        true
    }
}

impl vstd::std_specs::cmp::PartialEqSpecImpl for TileRow {
    open spec fn obeys_eq_spec() -> bool {
        true
    }

    open spec fn eq_spec(&self, other: &TileRow) -> bool {
        self.pixels@ == other.pixels@
    }
}

#[derive(Clone, Copy)]
pub struct Tile {
    pub rows: [TileRow; 8],
}

impl Tile {
    /// A blank tile: every pixel the lightest shade.
    pub fn blank() -> (r: Tile)
        ensures
            forall|i: int, j: int|
                0 <= i < 8 && 0 <= j < 8 ==> #[trigger] r.rows@[i].pixels@[j] == Pixel::Lightest,
    {
        let row = TileRow::from_bytes(0xFF, 0xFF);
        proof {
            assert forall|j: int| 0 <= j < 8 implies #[trigger] row.pixels@[j]
                == Pixel::Lightest by {
                let jb = j as u8;
                assert(0xFFu8 & (1u8 << jb) != 0) by (bit_vector)
                    requires
                        jb < 8,
                ;
            }
        }
        Tile { rows: [row, row, row, row, row, row, row, row] }
    }

    /// Reads the sixteen bytes of one tile out of video RAM, starting at
    /// the tile-data area the LCD control register selects, and decodes
    /// them row by row.
    pub fn from_ram(lcdc: LCDC, ram: &MBC, tile_index: usize) -> (r: Tile)
        requires
            ram@.wf(),
            tile_index < 384,
        ensures
            forall|i: int, j: int|
                0 <= i < 8 && 0 <= j < 8 ==> #[trigger] r.rows@[i].pixels@[j] == row_pixel_of(
                    ram@.read_value(tile_area_start(lcdc) + tile_index * 16 + 2 * i),
                    ram@.read_value(tile_area_start(lcdc) + tile_index * 16 + 2 * i + 1),
                    j as u8,
                ),
    {
        let (prefix, _end) = lcdc.bg_and_window_tile_data_area();
        let vram_start = prefix as usize + tile_index * TILE_SIZE_BYTES;
        let bytes = match ram.read_slice(vram_start, vram_start + TILE_SIZE_BYTES - 1) {
            Ok(v) => v,
            Err(_) => {
                proof {
                    assert(false);
                }
                return Tile::blank();
            }
        };
        Tile {
            rows: [
                TileRow::from_bytes(bytes[0], bytes[1]),
                TileRow::from_bytes(bytes[2], bytes[3]),
                TileRow::from_bytes(bytes[4], bytes[5]),
                TileRow::from_bytes(bytes[6], bytes[7]),
                TileRow::from_bytes(bytes[8], bytes[9]),
                TileRow::from_bytes(bytes[10], bytes[11]),
                TileRow::from_bytes(bytes[12], bytes[13]),
                TileRow::from_bytes(bytes[14], bytes[15]),
            ],
        }
    }
}

/// The first address of the tile-data area the LCD control register
/// selects.
pub open spec fn tile_area_start(lcdc: LCDC) -> int {
    if lcdc.bits & crate::lcdc::BG_AND_WINDOW_TILE_DATA_AREA != 0 {
        0x8800
    } else {
        0x8000
    }
}

} // verus!
