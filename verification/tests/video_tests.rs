use sm83_core::cartridge::Cartridge;
use sm83_core::lcdc::LCDC;
use sm83_core::mbc::MBC;
use sm83_core::pixel::Pixel;
use sm83_core::tile::{Tile, TileRow};
use sm83_core::video::{frame_to_colors, pixel_to_color, Video};

#[test]
fn test_bytes_to_tile_row() {
    let expected = TileRow {
        pixels: [
            Pixel::Darkest,
            Pixel::Light,
            Pixel::Lightest,
            Pixel::Lightest,
            Pixel::Lightest,
            Pixel::Lightest,
            Pixel::Light,
            Pixel::Darkest,
        ],
    };

    assert!(TileRow::from_bytes(0x3c, 0x7e) == expected);
}

#[test]
fn blank_frame_has_screen_dimensions() {
    let frame = Video::blank_frame();
    assert_eq!(frame.len(), 144);
    assert_eq!(frame[0].len(), 160);
    assert_eq!(frame[143][159], Pixel::Lightest);
}

#[test]
fn pixel_colors_span_the_green_palette() {
    assert_eq!(pixel_to_color(&Pixel::Lightest), (155, 188, 15, 0));
    assert_eq!(pixel_to_color(&Pixel::Light), (139, 172, 15, 0));
    assert_eq!(pixel_to_color(&Pixel::Dark), (48, 98, 48, 0));
    assert_eq!(pixel_to_color(&Pixel::Darkest), (15, 56, 15, 0));
}

#[test]
fn frame_to_colors_maps_every_pixel() {
    let frame = vec![vec![Pixel::Darkest, Pixel::Lightest], vec![Pixel::Light]];
    let colors = frame_to_colors(&frame);
    assert_eq!(colors.len(), 2);
    assert_eq!(colors[0], vec![(15, 56, 15, 0), (155, 188, 15, 0)]);
    assert_eq!(colors[1], vec![(139, 172, 15, 0)]);
}

#[test]
fn tile_from_ram_decodes_video_ram_bytes() {
    let mut data = vec![0u8; 0x8000];
    data[0x149] = 0x03;
    let mut bus = MBC::new(Cartridge::from_bytes(data));

    // Tile 1 starts sixteen bytes into the tile-data area at 0x8000; its
    // first row is the byte pair (0x3c, 0x7e).
    bus.write(0x8010, 0x3c).unwrap();
    bus.write(0x8011, 0x7e).unwrap();

    let lcdc = LCDC::from_bits(0);
    let tile = Tile::from_ram(lcdc, &bus, 1);
    assert_eq!(tile.rows[0].pixels[0], Pixel::Darkest);
    assert_eq!(tile.rows[0].pixels[1], Pixel::Light);
    assert_eq!(tile.rows[0].pixels[2], Pixel::Lightest);
    assert_eq!(tile.rows[1].pixels[0], Pixel::Darkest);
}

#[test]
fn collect_tiles_fills_the_dictionary() {
    let mut data = vec![0u8; 0x8000];
    data[0x149] = 0x03;
    let mut bus = MBC::new(Cartridge::from_bytes(data));
    bus.write(0x8000, 0xFF).unwrap();
    bus.write(0x8001, 0xFF).unwrap();

    let mut video = Video::default();
    video.collect_tiles(LCDC::from_bits(0), &bus);
    assert_eq!(video.tiles.tiles[0].rows[0].pixels[0], Pixel::Lightest);
    assert_eq!(video.tiles.tiles[0].rows[1].pixels[0], Pixel::Darkest);
    assert_eq!(video.tiles.tiles[255].rows[7].pixels[7], Pixel::Darkest);
}
