use gameboy_core::ppu::{check_bit, GameboyColor, OamEntry, PPU};
use gameboy_core::register_maps::{IORegisters, LCDC};

fn ppu(lcdc: u8) -> PPU {
    let mut ppu = PPU::new(IORegisters::default());
    ppu.io_registers.lcdc = LCDC::from(lcdc);
    ppu.io_registers.bgp = 0xE4;
    ppu.io_registers.obp0 = 0xE4;
    ppu.io_registers.obp1 = 0x1B;
    ppu
}

fn sprite(y: u8, x: u8, tile: u8, attributes: u8) -> OamEntry {
    OamEntry::decode([y, x, tile, attributes])
}

/// Fills a tile with one colour number per row: row `r` has colour `r % 4`, but for
/// its left-most pixel, which has colour 3.
fn striped_tile(ppu: &mut PPU, address: usize) {
    for row in 0..8 {
        let number = row % 4;
        ppu.vram[address + 2 * row] = if number & 1 != 0 { 0xFF } else { 0x80 };
        ppu.vram[address + 2 * row + 1] = if number & 2 != 0 { 0xFF } else { 0x80 };
    }
}

const SHADES: [GameboyColor; 4] =
    [GameboyColor::White, GameboyColor::LightGray, GameboyColor::DarkGray, GameboyColor::Black];

#[test]
fn bits_and_colours() {
    assert!(check_bit(0x80, 7));
    assert!(!check_bit(0x80, 6));
    assert!(check_bit(0x01, 0));
    assert!(!check_bit(0xFE, 0));
    for number in 0..4u8 {
        assert_eq!(PPU::get_color(number, 0xE4, false), SHADES[number as usize]);
        assert_eq!(PPU::get_color(number, 0x1B, false), SHADES[3 - number as usize]);
    }
    assert_eq!(PPU::get_color(0, 0xE4, true), GameboyColor::Transparent);
    assert_eq!(PPU::get_color(0, 0xFF, true), GameboyColor::Transparent);
    assert_eq!(PPU::get_color(1, 0xE4, true), GameboyColor::LightGray);
    assert_eq!(PPU::get_color(3, 0x00, true), GameboyColor::White);
    assert_eq!(GameboyColor::White.argb(), 0xFF9BBC0F);
    assert_eq!(GameboyColor::LightGray.argb(), 0xFF8BAC0F);
    assert_eq!(GameboyColor::DarkGray.argb(), 0xFF306230);
    assert_eq!(GameboyColor::Black.argb(), 0xFF0F380F);
    assert_eq!(GameboyColor::Transparent.argb(), 0xFF0F380F);
}

#[test]
fn tile_rows_decode_from_the_left() {
    let mut row = vec![GameboyColor::Black];
    PPU::get_color_line(&mut row, 0b1100_0011, 0b1010_0101, 0xE4, false);
    assert_eq!(
        row,
        vec![
            GameboyColor::Black,
            GameboyColor::Black,
            GameboyColor::DarkGray,
            GameboyColor::LightGray,
            GameboyColor::White,
            GameboyColor::White,
            GameboyColor::LightGray,
            GameboyColor::DarkGray,
            GameboyColor::Black,
        ]
    );
    let mut row = Vec::new();
    PPU::get_color_line(&mut row, 0x00, 0x0F, 0xE4, true);
    assert_eq!(row[..4], [GameboyColor::Transparent; 4]);
    assert_eq!(row[4..], [GameboyColor::LightGray; 4]);
}

#[test]
fn blank_screen_is_white_on_every_visible_line() {
    for lcdc in [0x80u8, 0x91, 0xF1] {
        let mut ppu = ppu(lcdc);
        for line in 0..144u8 {
            ppu.io_registers.ly = line;
            let sprites = ppu.object_search();
            assert!(sprites.is_empty());
            let row = ppu.draw(sprites);
            assert_eq!(row, vec![GameboyColor::White; 160]);
        }
    }
}

#[test]
fn background_tiles_with_unsigned_numbers() {
    let mut ppu = ppu(0x91);
    striped_tile(&mut ppu, 16);
    ppu.vram[0x1800] = 1;
    ppu.vram[0x1800 + 19] = 1;
    ppu.vram[0x1800 + 32 + 2] = 1;
    for line in 0..8u8 {
        ppu.io_registers.ly = line;
        let row = ppu.draw(Vec::new());
        assert_eq!(row.len(), 160);
        for x in 0..160 {
            let expected = if x == 0 || x == 152 {
                GameboyColor::Black
            } else if x < 8 || x > 152 {
                SHADES[line as usize % 4]
            } else {
                GameboyColor::White
            };
            assert_eq!(row[x], expected, "line {} column {}", line, x);
        }
    }
    ppu.io_registers.ly = 9;
    let row = ppu.draw(Vec::new());
    assert_eq!(row[15], GameboyColor::White);
    assert_eq!(row[16], GameboyColor::Black);
    assert_eq!(row[17], GameboyColor::LightGray);
    assert_eq!(row[24], GameboyColor::White);
}

#[test]
fn background_tiles_with_signed_numbers() {
    let mut ppu = ppu(0x81);
    striped_tile(&mut ppu, 0x1000 + 16);
    striped_tile(&mut ppu, 0x0800);
    striped_tile(&mut ppu, 0x0FF0);
    ppu.vram[0x1800] = 0x01;
    ppu.vram[0x1801] = 0x80;
    ppu.vram[0x1802] = 0xFF;
    ppu.vram[0x1803] = 0x7F;
    ppu.io_registers.ly = 1;
    let row = ppu.draw(Vec::new());
    for tile in 0..3 {
        assert_eq!(row[8 * tile], GameboyColor::Black);
        assert_eq!(row[8 * tile + 1], GameboyColor::LightGray);
    }
    assert_eq!(row[24], GameboyColor::White);
    ppu.vram[0x17FF] = 0xFF;
    ppu.io_registers.ly = 7;
    let row = ppu.draw(Vec::new());
    assert_eq!(row[24], GameboyColor::DarkGray);
}

#[test]
fn second_tile_map_and_palette() {
    let mut ppu = ppu(0x99);
    striped_tile(&mut ppu, 16);
    ppu.vram[0x1C00] = 1;
    ppu.io_registers.ly = 2;
    ppu.io_registers.bgp = 0x1B;
    let row = ppu.draw(Vec::new());
    assert_eq!(row[0], GameboyColor::White);
    assert_eq!(row[1], GameboyColor::LightGray);
    assert_eq!(row[8], GameboyColor::Black);
}

#[test]
fn scrolling() {
    let mut ppu = ppu(0x91);
    striped_tile(&mut ppu, 16);
    ppu.vram[0x1800 + 32 * 3 + 1] = 1;
    ppu.vram[0x1800 + 32 * 31 + 31] = 1;
    ppu.io_registers.scy = 24;
    ppu.io_registers.scx = 3;
    ppu.io_registers.ly = 1;
    let row = ppu.draw(Vec::new());
    for x in 0..160 {
        let expected = if x == 5 {
            GameboyColor::Black
        } else if x > 5 && x < 13 {
            GameboyColor::LightGray
        } else {
            GameboyColor::White
        };
        assert_eq!(row[x], expected, "column {}", x);
    }
    ppu.io_registers.scx = 8 + 7;
    let row = ppu.draw(Vec::new());
    assert_eq!(row[0], GameboyColor::LightGray);
    assert_eq!(row[1], GameboyColor::White);
    ppu.io_registers.scy = 0xF9;
    ppu.io_registers.scx = 0xF8;
    ppu.io_registers.ly = 0x00;
    let row = ppu.draw(Vec::new());
    assert_eq!(row[0], GameboyColor::Black);
    assert_eq!(row[1], GameboyColor::LightGray);
    assert_eq!(row[7], GameboyColor::LightGray);
    assert_eq!(row[8], GameboyColor::White);
    ppu.io_registers.ly = 0x09;
    assert_eq!(ppu.draw(Vec::new()), vec![GameboyColor::White; 160]);
    ppu.vram[0x1800 + 31] = 1;
    let row = ppu.draw(Vec::new());
    assert_eq!(row[0], GameboyColor::Black);
    assert_eq!(row[1], GameboyColor::DarkGray);
    assert_eq!(row[8], GameboyColor::White);
}

#[test]
fn window_replaces_the_background_from_its_edges() {
    let mut ppu = ppu(0xF1);
    striped_tile(&mut ppu, 16);
    ppu.vram[0x1C00] = 1;
    ppu.io_registers.wy = 4;
    ppu.io_registers.wx = 7 + 10;
    ppu.io_registers.ly = 3;
    assert_eq!(ppu.draw(Vec::new()), vec![GameboyColor::White; 160]);
    ppu.io_registers.ly = 5;
    let row = ppu.draw(Vec::new());
    for x in 0..80 {
        assert_eq!(row[x], GameboyColor::White);
    }
    for tile in 10..18 {
        assert_eq!(row[8 * tile], GameboyColor::Black);
        assert_eq!(row[8 * tile + 1], GameboyColor::LightGray);
    }
    assert_eq!(row[8 * 18], GameboyColor::White);
    ppu.io_registers.lcdc = LCDC::from(0xD1);
    assert_eq!(ppu.draw(Vec::new()), vec![GameboyColor::White; 160]);
}

#[test]
fn object_search_finds_the_objects_on_the_line() {
    let mut ppu = ppu(0x93);
    ppu.oam.oam_entries[0] = sprite(16, 8, 0, 0);
    ppu.oam.oam_entries[1] = sprite(17, 9, 0, 0);
    ppu.oam.oam_entries[2] = sprite(9, 10, 0, 0);
    ppu.oam.oam_entries[3] = sprite(8, 11, 0, 0);
    ppu.oam.oam_entries[39] = sprite(10, 12, 0, 0);
    ppu.io_registers.ly = 0;
    let found = ppu.object_search();
    assert_eq!(found, vec![sprite(10, 12, 0, 0), sprite(9, 10, 0, 0), sprite(16, 8, 0, 0)]);
    ppu.io_registers.ly = 1;
    let found = ppu.object_search();
    assert_eq!(found, vec![sprite(10, 12, 0, 0), sprite(17, 9, 0, 0), sprite(16, 8, 0, 0)]);
    ppu.io_registers.ly = 8;
    assert_eq!(ppu.object_search(), vec![sprite(17, 9, 0, 0)]);
    ppu.io_registers.ly = 9;
    assert!(ppu.object_search().is_empty());
}

#[test]
fn object_search_with_tall_objects() {
    let mut ppu = ppu(0x97);
    ppu.oam.oam_entries[5] = sprite(16, 8, 0, 0);
    ppu.oam.oam_entries[6] = sprite(1, 20, 0, 0);
    ppu.oam.oam_entries[7] = sprite(0, 30, 0, 0);
    ppu.io_registers.ly = 0;
    assert_eq!(ppu.object_search(), vec![sprite(1, 20, 0, 0), sprite(16, 8, 0, 0)]);
    ppu.io_registers.ly = 15;
    assert_eq!(ppu.object_search(), vec![sprite(16, 8, 0, 0)]);
    ppu.io_registers.ly = 16;
    assert!(ppu.object_search().is_empty());
}

#[test]
fn object_search_near_the_bottom_of_the_coordinate_range() {
    let mut ppu = ppu(0x93);
    ppu.oam.oam_entries[0] = sprite(255, 8, 0, 0);
    ppu.oam.oam_entries[1] = sprite(250, 9, 0, 0);
    ppu.io_registers.ly = 239;
    assert_eq!(ppu.object_search(), vec![sprite(250, 9, 0, 0), sprite(255, 8, 0, 0)]);
    ppu.io_registers.ly = 255;
    assert!(ppu.object_search().is_empty());
}

#[test]
fn object_search_keeps_ten_and_orders_by_column() {
    let mut ppu = ppu(0x93);
    let columns = [50u8, 20, 90, 20, 10, 200, 0, 70, 20, 30, 5, 1, 250];
    for (slot, x) in columns.iter().enumerate() {
        ppu.oam.oam_entries[3 * slot] = sprite(16, *x, slot as u8, 0);
    }
    ppu.oam.oam_entries[1] = sprite(40, 99, 0xEE, 0);
    ppu.io_registers.ly = 0;
    let found = ppu.object_search();
    assert_eq!(found.len(), 10);
    let order: Vec<(u8, u8)> = found.iter().map(|o| (o.x_coord, o.data_tile_num)).collect();
    assert_eq!(
        order,
        vec![(200, 5), (90, 2), (70, 7), (50, 0), (30, 9), (20, 8), (20, 3), (20, 1), (10, 4), (0, 6)]
    );
    for pair in found.windows(2) {
        assert!(pair[0].x_coord >= pair[1].x_coord);
    }
}

#[test]
fn objects_are_drawn_over_the_background() {
    let mut ppu = ppu(0x93);
    striped_tile(&mut ppu, 32);
    ppu.io_registers.ly = 5;
    let row = ppu.draw(vec![sprite(16 + 4, 8 + 20, 2, 0)]);
    for x in 0..160 {
        let expected = if x == 20 {
            GameboyColor::Black
        } else if x > 20 && x < 28 {
            GameboyColor::LightGray
        } else {
            GameboyColor::White
        };
        assert_eq!(row[x], expected, "column {}", x);
    }
    ppu.io_registers.ly = 8;
    let row = ppu.draw(vec![sprite(16 + 4, 8 + 20, 2, 0)]);
    assert_eq!(row[20], GameboyColor::Black);
    for x in 21..28 {
        assert_eq!(row[x], GameboyColor::White);
    }
}

#[test]
fn objects_off_the_line_are_left_out() {
    let mut ppu = ppu(0x93);
    striped_tile(&mut ppu, 32);
    for (line, y) in [(3u8, 20u8), (12, 20), (0, 0), (0, 8), (200, 10)] {
        ppu.io_registers.ly = line;
        assert_eq!(ppu.draw(vec![sprite(y, 28, 2, 0)]), vec![GameboyColor::White; 160]);
    }
}

#[test]
fn objects_are_clipped_at_the_edges() {
    let mut ppu = ppu(0x93);
    striped_tile(&mut ppu, 32);
    ppu.io_registers.ly = 1;
    let row = ppu.draw(vec![sprite(16, 4, 2, 0)]);
    for x in 0..160 {
        assert_eq!(row[x], if x < 4 { GameboyColor::LightGray } else { GameboyColor::White });
    }
    let row = ppu.draw(vec![sprite(16, 164, 2, 0)]);
    assert_eq!(row[155], GameboyColor::White);
    assert_eq!(row[156], GameboyColor::Black);
    assert_eq!(row[159], GameboyColor::LightGray);
    for x in [0u8, 168, 200, 255] {
        assert_eq!(ppu.draw(vec![sprite(16, x, 2, 0)]), vec![GameboyColor::White; 160]);
    }
    let row = ppu.draw(vec![sprite(16, 1, 2, 0)]);
    assert_eq!(row[0], GameboyColor::LightGray);
    assert_eq!(row[1], GameboyColor::White);
    let row = ppu.draw(vec![sprite(16, 167, 2, 0)]);
    assert_eq!(row[158], GameboyColor::White);
    assert_eq!(row[159], GameboyColor::Black);
}

#[test]
fn object_flips_and_palettes() {
    let mut ppu = ppu(0x93);
    striped_tile(&mut ppu, 32);
    ppu.io_registers.ly = 1;
    let row = ppu.draw(vec![sprite(16, 8, 2, 0x02)]);
    assert_eq!(row[7], GameboyColor::Black);
    assert_eq!(row[0], GameboyColor::LightGray);
    let row = ppu.draw(vec![sprite(16, 8, 2, 0x04)]);
    assert_eq!(row[0], GameboyColor::Black);
    assert_eq!(row[1], GameboyColor::DarkGray);
    ppu.io_registers.ly = 0;
    let row = ppu.draw(vec![sprite(16, 8, 2, 0x04)]);
    assert_eq!(row[1], GameboyColor::Black);
    ppu.io_registers.ly = 7;
    let row = ppu.draw(vec![sprite(16, 8, 2, 0x04)]);
    assert_eq!(row[0], GameboyColor::Black);
    assert_eq!(row[1], GameboyColor::White);
    ppu.io_registers.ly = 1;
    let row = ppu.draw(vec![sprite(16, 8, 2, 0x01)]);
    assert_eq!(row[0], GameboyColor::White);
    assert_eq!(row[1], GameboyColor::DarkGray);
}

#[test]
fn tall_objects_use_sixteen_rows() {
    let mut ppu = ppu(0x97);
    striped_tile(&mut ppu, 32);
    for row in 0..8 {
        ppu.vram[48 + 2 * row] = 0xFF;
        ppu.vram[48 + 2 * row + 1] = 0xFF;
    }
    ppu.io_registers.ly = 9;
    let row = ppu.draw(vec![sprite(16, 8, 2, 0)]);
    assert_eq!(row[..8], [GameboyColor::Black; 8]);
    ppu.io_registers.ly = 2;
    let row = ppu.draw(vec![sprite(16, 8, 2, 0)]);
    assert_eq!(row[1], GameboyColor::DarkGray);
    let row = ppu.draw(vec![sprite(16, 8, 2, 0x04)]);
    assert_eq!(row[..8], [GameboyColor::Black; 8]);
    ppu.io_registers.ly = 15;
    let row = ppu.draw(vec![sprite(16, 8, 2, 0x04)]);
    assert_eq!(row[0], GameboyColor::Black);
    assert_eq!(row[1], GameboyColor::White);
    ppu.io_registers.ly = 14;
    let row = ppu.draw(vec![sprite(16, 8, 2, 0x04)]);
    assert_eq!(row[1], GameboyColor::LightGray);
}

#[test]
fn object_priority_and_overlap() {
    let mut ppu = ppu(0x93);
    for row in 0..8 {
        ppu.vram[16 + 2 * row] = 0xF0;
        ppu.vram[32 + 2 * row] = 0xFF;
        ppu.vram[48 + 2 * row + 1] = 0xFF;
    }
    ppu.vram[0x1800] = 1;
    ppu.io_registers.ly = 0;
    let row = ppu.draw(vec![sprite(16, 8, 3, 0x08)]);
    assert_eq!(row[..4], [GameboyColor::LightGray; 4]);
    assert_eq!(row[4..8], [GameboyColor::DarkGray; 4]);
    let row = ppu.draw(vec![sprite(16, 8, 3, 0x00)]);
    assert_eq!(row[..8], [GameboyColor::DarkGray; 8]);
    let row = ppu.draw(vec![sprite(16, 20, 2, 0), sprite(16, 16, 3, 0)]);
    assert_eq!(row[8..16], [GameboyColor::DarkGray; 8]);
    assert_eq!(row[16..20], [GameboyColor::LightGray; 4]);
    let row = ppu.draw(vec![sprite(16, 16, 3, 0), sprite(16, 20, 2, 0)]);
    assert_eq!(row[8..12], [GameboyColor::DarkGray; 4]);
    assert_eq!(row[12..20], [GameboyColor::LightGray; 8]);
    ppu.oam.oam_entries[0] = sprite(16, 16, 3, 0);
    ppu.oam.oam_entries[1] = sprite(16, 20, 2, 0);
    let found = ppu.object_search();
    let row = ppu.draw(found);
    assert_eq!(row[8..16], [GameboyColor::DarkGray; 8]);
    assert_eq!(row[16..20], [GameboyColor::LightGray; 4]);
}

#[test]
fn tiles_decode_row_by_row() {
    let mut data = [0u8; 16];
    data[0] = 0b1010_0101;
    data[1] = 0b1100_0011;
    data[14] = 0xFF;
    data[15] = 0x0F;
    let tile = gameboy_core::ppu::Tile::from(data, 0xE4);
    assert_eq!(
        tile.color_map[0],
        [
            GameboyColor::Black,
            GameboyColor::DarkGray,
            GameboyColor::LightGray,
            GameboyColor::White,
            GameboyColor::White,
            GameboyColor::LightGray,
            GameboyColor::DarkGray,
            GameboyColor::Black,
        ]
    );
    assert_eq!(tile.color_map[1], [GameboyColor::White; 8]);
    assert_eq!(tile.color_map[7][..4], [GameboyColor::LightGray; 4]);
    assert_eq!(tile.color_map[7][4..], [GameboyColor::Black; 4]);
    let tile = gameboy_core::ppu::Tile::from(data, 0x00);
    assert_eq!(tile.color_map[0], [GameboyColor::White; 8]);
}

#[test]
fn object_table_as_bytes() {
    let mut bytes = [0u8; 0xA0];
    for (i, byte) in bytes.iter_mut().enumerate() {
        *byte = (i as u8).wrapping_mul(7).wrapping_add(3);
    }
    let oam = gameboy_core::ppu::OAM::from_bytes(bytes);
    assert_eq!(oam.oam_entries[0], OamEntry::decode([3, 10, 17, 24]));
    assert_eq!(oam.oam_entries[39], OamEntry::decode([bytes[156], bytes[157], bytes[158], bytes[159]]));
    let back = oam.to_bytes();
    for i in 0..0xA0 {
        let expected = if i % 4 == 3 { bytes[i] & 0x0F } else { bytes[i] };
        assert_eq!(back[i], expected);
        assert_eq!(oam.get(i), expected);
    }
}
