//! The LCD control register: eight independent bits selecting what the
//! video layer draws and from which tile areas.

use vstd::prelude::*;

verus! {

#[derive(Clone, Copy, Debug, PartialEq, Eq, Structural)]
pub struct LCDC {
    pub bits: u8,
}

pub const BG_AND_WINDOW_ENABLE: u8 = 0x01;

pub const OBJ_ENABLE: u8 = 0x02;

pub const OBJ_SIZE: u8 = 0x04;

pub const BG_TILE_MAP_AREA: u8 = 0x08;

pub const BG_AND_WINDOW_TILE_DATA_AREA: u8 = 0x10;

pub const WINDOW_ENABLE: u8 = 0x20;

pub const WINDOW_TILE_MAP_AREA: u8 = 0x40;

pub const LCD_AND_PPU_ENABLE: u8 = 0x80;

impl LCDC {
    pub fn from_bits(bits: u8) -> (r: LCDC)
        ensures
            r.bits == bits,
    {
        LCDC { bits }
    }

    /// Whether the background and window layers are drawn at all.
    pub fn bg_and_window_enabled(&self) -> (r: bool)
        ensures
            r == (self.bits & BG_AND_WINDOW_ENABLE != 0),
    {
        self.bits & BG_AND_WINDOW_ENABLE != 0
    }

    /// Whether sprites are drawn.
    pub fn sprites_enabled(&self) -> (r: bool)
        ensures
            r == (self.bits & OBJ_ENABLE != 0),
    {
        self.bits & OBJ_ENABLE != 0
    }

    /// The sprite dimensions: 8 by 16 when the size bit is set, else 8
    /// by 8.
    pub fn sprite_size(&self) -> (r: (u8, u8))
        ensures
            r == (if self.bits & OBJ_SIZE != 0 {
                (8u8, 16u8)
            } else {
                (8u8, 8u8)
            }),
    {
        if self.bits & OBJ_SIZE != 0 {
            (8, 16)
        } else {
            (8, 8)
        }
    }

    /// The inclusive address range of the background tile map.
    pub fn bg_tile_map_area(&self) -> (r: (u16, u16))
        ensures
            r == (if self.bits & BG_TILE_MAP_AREA != 0 {
                (0x9c00u16, 0x9fffu16)
            } else {
                (0x9800u16, 0x9bffu16)
            }),
    {
        if self.bits & BG_TILE_MAP_AREA != 0 {
            (0x9c00, 0x9fff)
        } else {
            (0x9800, 0x9bff)
        }
    }

    /// The inclusive address range the background and window tiles are
    /// read from.
    pub fn bg_and_window_tile_data_area(&self) -> (r: (u16, u16))
        ensures
            r == (if self.bits & BG_AND_WINDOW_TILE_DATA_AREA != 0 {
                (0x8800u16, 0x97ffu16)
            } else {
                (0x8000u16, 0x8fffu16)
            }),
    {
        if self.bits & BG_AND_WINDOW_TILE_DATA_AREA != 0 {
            (0x8800, 0x97ff)
        } else {
            (0x8000, 0x8fff)
        }
    }

    /// Whether the window layer is drawn.
    pub fn window_enabled(&self) -> (r: bool)
        ensures
            r == (self.bits & WINDOW_ENABLE != 0),
    {
        self.bits & WINDOW_ENABLE != 0
    }

    /// The inclusive address range of the window tile map.
    pub fn window_tile_map_area(&self) -> (r: (u16, u16))
        ensures
            r == (if self.bits & WINDOW_TILE_MAP_AREA != 0 {
                (0x9c00u16, 0x9fffu16)
            } else {
                (0x9800u16, 0x9bffu16)
            }),
    {
        if self.bits & WINDOW_TILE_MAP_AREA != 0 {
            (0x9c00, 0x9fff)
        } else {
            (0x9800, 0x9bff)
        }
    }

    /// Whether the LCD and the picture processor are switched on.
    pub fn lcd_and_ppu_enabled(&self) -> (r: bool)
        ensures
            r == (self.bits & LCD_AND_PPU_ENABLE != 0),
    {
        self.bits & LCD_AND_PPU_ENABLE != 0
    }
}

} // verus!
