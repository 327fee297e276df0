use sm83_core::lcdc::{
    BG_AND_WINDOW_ENABLE, BG_AND_WINDOW_TILE_DATA_AREA, BG_TILE_MAP_AREA, LCDC,
    LCD_AND_PPU_ENABLE, OBJ_ENABLE, OBJ_SIZE, WINDOW_ENABLE, WINDOW_TILE_MAP_AREA,
};

#[test]
fn bg_and_window_enabled() {
    assert!(LCDC::from_bits(BG_AND_WINDOW_ENABLE).bg_and_window_enabled());
    assert!(!LCDC::from_bits(OBJ_ENABLE).bg_and_window_enabled());
}

#[test]
fn sprites_enabled() {
    assert!(LCDC::from_bits(OBJ_ENABLE).sprites_enabled());
    assert!(!LCDC::from_bits(BG_TILE_MAP_AREA).sprites_enabled());
}

#[test]
fn sprite_size() {
    assert!(LCDC::from_bits(OBJ_SIZE).sprite_size() == (8, 16));
    assert!(LCDC::from_bits(OBJ_ENABLE).sprite_size() == (8, 8));
}

#[test]
fn bg_tile_map_area() {
    assert!(LCDC::from_bits(BG_TILE_MAP_AREA).bg_tile_map_area() == (0x9c00, 0x9fff));
    assert!(LCDC::from_bits(OBJ_SIZE).bg_tile_map_area() == (0x9800, 0x9bff));
}

#[test]
fn bg_and_window_tile_data_area() {
    assert!(
        LCDC::from_bits(BG_AND_WINDOW_TILE_DATA_AREA).bg_and_window_tile_data_area()
            == (0x8800, 0x97ff)
    );
    assert!(LCDC::from_bits(OBJ_SIZE).bg_and_window_tile_data_area() == (0x8000, 0x8fff));
}

#[test]
fn window_enabled() {
    assert!(LCDC::from_bits(WINDOW_ENABLE).window_enabled());
    assert!(!LCDC::from_bits(OBJ_SIZE).window_enabled());
}

#[test]
fn window_tile_map_area() {
    assert!(LCDC::from_bits(WINDOW_TILE_MAP_AREA).window_tile_map_area() == (0x9c00, 0x9fff));
    assert!(LCDC::from_bits(OBJ_SIZE).window_tile_map_area() == (0x9800, 0x9bff));
}

#[test]
fn lcd_and_ppu_enabled() {
    assert!(LCDC::from_bits(LCD_AND_PPU_ENABLE).lcd_and_ppu_enabled());
    assert!(!LCDC::from_bits(OBJ_SIZE).lcd_and_ppu_enabled());
}
