//! The video layer's data side: blank frames, the tile cache filled from
//! video RAM, and the mapping from palette shades to screen colors.  The
//! windowing backend that presents the frames is a collaborator outside
//! this crate.

use vstd::prelude::*;

use crate::lcdc::LCDC;
use crate::mbc::{MbcView, MBC};
use crate::pixel::Pixel;
use crate::tile::{row_pixel_of, tile_area_start, Tile};
use crate::tile_dictionary::{TileDictionary, MAX_TILES};

verus! {

pub type Frame = Vec<Vec<Pixel>>;

pub const SCREEN_HEIGHT: u8 = 144;

pub const SCREEN_WIDTH: u8 = 160;

/// The side length of the full rendered background, which is larger than
/// the screen because of overdraw.
pub const BACKGROUND_SIZE: usize = 256;

/// One pixel of tile `index` as video RAM currently encodes it.
pub open spec fn tile_pixel(m: MbcView, lcdc: LCDC, index: int, row: int, col: int) -> Pixel {
    row_pixel_of(
        m.read_value(tile_area_start(lcdc) + index * 16 + 2 * row),
        m.read_value(tile_area_start(lcdc) + index * 16 + 2 * row + 1),
        col as u8,
    )
}

/// The screen color of one palette shade, darkest to lightest green.
pub open spec fn pixel_color_of(pixel: Pixel) -> (u8, u8, u8, u8) {
    match pixel {
        Pixel::Lightest => (155u8, 188u8, 15u8, 0u8),
        Pixel::Light => (139u8, 172u8, 15u8, 0u8),
        Pixel::Dark => (48u8, 98u8, 48u8, 0u8),
        Pixel::Darkest => (15u8, 56u8, 15u8, 0u8),
    }
}

/// The screen color of one pixel.
pub fn pixel_to_color(pixel: &Pixel) -> (r: (u8, u8, u8, u8))
    ensures
        r == pixel_color_of(*pixel),
{
    match pixel {
        Pixel::Lightest => (155, 188, 15, 0),
        Pixel::Light => (139, 172, 15, 0),
        Pixel::Dark => (48, 98, 48, 0),
        Pixel::Darkest => (15, 56, 15, 0),
    }
}

/// A whole frame mapped to screen colors, pixel for pixel.
pub fn frame_to_colors(frame: &Frame) -> (r: Vec<Vec<(u8, u8, u8, u8)>>)
    ensures
        r@.len() == frame@.len(),
        forall|i: int| 0 <= i < r@.len() ==> #[trigger] r@[i]@.len() == frame@[i]@.len(),
        forall|i: int, j: int|
            0 <= i < r@.len() && 0 <= j < r@[i]@.len() ==> #[trigger] r@[i]@[j] == pixel_color_of(
                frame@[i]@[j],
            ),
{
    let mut out: Vec<Vec<(u8, u8, u8, u8)>> = Vec::new();
    let mut i: usize = 0;
    while i < frame.len()
        invariant
            i <= frame@.len(),
            out@.len() == i,
            forall|k: int| 0 <= k < i ==> #[trigger] out@[k]@.len() == frame@[k]@.len(),
            forall|k: int, j: int|
                0 <= k < i && 0 <= j < out@[k]@.len() ==> #[trigger] out@[k]@[j] == pixel_color_of(
                    frame@[k]@[j],
                ),
        decreases frame@.len() - i,
    {
        let row = &frame[i];
        let mut colors: Vec<(u8, u8, u8, u8)> = Vec::new();
        let mut j: usize = 0;
        while j < row.len()
            invariant
                j <= row@.len(),
                colors@.len() == j,
                forall|k: int|
                    0 <= k < j ==> #[trigger] colors@[k] == pixel_color_of(row@[k]),
            decreases row@.len() - j,
        {
            colors.push(pixel_to_color(&row[j]));
            j = j + 1;
        }
        out.push(colors);
        i = i + 1;
    }
    out
}

pub struct VideoBackground {
    pub pixels: Vec<Vec<Pixel>>,
}

impl Default for VideoBackground {
    /// A full background of the lightest shade.
    fn default() -> (r: Self)
        ensures
            r.pixels@.len() == BACKGROUND_SIZE,
            forall|i: int|
                0 <= i < BACKGROUND_SIZE ==> #[trigger] r.pixels@[i]@ == Seq::new(
                    BACKGROUND_SIZE as nat,
                    |j: int| Pixel::Lightest,
                ),
    {
        let mut pixels: Vec<Vec<Pixel>> = Vec::new();
        let mut i: usize = 0;
        while i < BACKGROUND_SIZE
            invariant
                i <= BACKGROUND_SIZE,
                pixels@.len() == i,
                forall|k: int|
                    0 <= k < i ==> #[trigger] pixels@[k]@ == Seq::new(
                        BACKGROUND_SIZE as nat,
                        |j: int| Pixel::Lightest,
                    ),
            decreases BACKGROUND_SIZE - i,
        {
            let mut row: Vec<Pixel> = Vec::new();
            let mut j: usize = 0;
            while j < BACKGROUND_SIZE
                invariant
                    j <= BACKGROUND_SIZE,
                    row@ == Seq::new(j as nat, |k: int| Pixel::Lightest),
                decreases BACKGROUND_SIZE - j,
            {
                row.push(Pixel::Lightest);
                proof {
                    assert(row@ =~= Seq::new((j + 1) as nat, |k: int| Pixel::Lightest));
                }
                j = j + 1;
            }
            pixels.push(row);
            i = i + 1;
        }
        VideoBackground { pixels }
    }
}

pub struct Video {
    pub tiles: TileDictionary,
}

impl Default for Video {
    /// A video layer whose tile cache holds blank tiles.
    fn default() -> (r: Self)
        ensures
            r.tiles.wf(),
    {
        Video { tiles: TileDictionary::default() }
    }
}

impl Video {
    /// An all-light frame of the screen's dimensions.
    pub fn blank_frame() -> (r: Frame)
        ensures
            r@.len() == SCREEN_HEIGHT,
            forall|i: int|
                0 <= i < SCREEN_HEIGHT ==> #[trigger] r@[i]@ == Seq::new(
                    SCREEN_WIDTH as nat,
                    |j: int| Pixel::Lightest,
                ),
    {
        let mut frame: Frame = Vec::new();
        let mut i: usize = 0;
        while i < SCREEN_HEIGHT as usize
            invariant
                i <= SCREEN_HEIGHT,
                frame@.len() == i,
                forall|k: int|
                    0 <= k < i ==> #[trigger] frame@[k]@ == Seq::new(
                        SCREEN_WIDTH as nat,
                        |j: int| Pixel::Lightest,
                    ),
            decreases SCREEN_HEIGHT - i,
        {
            let mut row: Vec<Pixel> = Vec::new();
            let mut j: usize = 0;
            while j < SCREEN_WIDTH as usize
                invariant
                    j <= SCREEN_WIDTH,
                    row@ == Seq::new(j as nat, |k: int| Pixel::Lightest),
                decreases SCREEN_WIDTH - j,
            {
                row.push(Pixel::Lightest);
                proof {
                    assert(row@ =~= Seq::new((j + 1) as nat, |k: int| Pixel::Lightest));
                }
                j = j + 1;
            }
            frame.push(row);
            i = i + 1;
        }
        frame
    }

    /// Decodes the first 256 tiles out of video RAM into the tile cache;
    /// the remaining slots keep their tiles.
    pub fn collect_tiles(&mut self, lcdc: LCDC, ram: &MBC)
        requires
            old(self).tiles.wf(),
            ram@.wf(),
        ensures
            final(self).tiles.wf(),
            forall|n: int, i: int, j: int|
                0 <= n < 256 && 0 <= i < 8 && 0 <= j < 8 ==> #[trigger] final(self).tiles.tiles@[n].rows@[i].pixels@[j] == tile_pixel(ram@, lcdc, n, i, j),
            forall|n: int|
                256 <= n < MAX_TILES ==> #[trigger] final(self).tiles.tiles@[n] == old(self).tiles.tiles@[n],
    {
        let mut n: usize = 0;
        while n < 256
            invariant
                n <= 256,
                self.tiles.wf(),
                ram@.wf(),
                forall|k: int, i: int, j: int|
                    0 <= k < n && 0 <= i < 8 && 0 <= j < 8 ==> #[trigger] self.tiles.tiles@[k]
                        .rows@[i].pixels@[j] == tile_pixel(ram@, lcdc, k, i, j),
                forall|k: int|
                    n <= k < MAX_TILES ==> #[trigger] self.tiles.tiles@[k] == old(self).tiles.tiles@[k],
            decreases 256 - n,
        {
            let tile = Tile::from_ram(lcdc, ram, n);
            self.tiles.set(n, tile);
            n = n + 1;
        }
    }
}

} // verus!
