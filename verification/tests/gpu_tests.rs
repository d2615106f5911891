use rustyboy::gpu::{PixelColor, Vram, VRAM_START};

#[test]
fn test_tile_number() {
    assert_eq!(Vram::tile_number(0x800F - VRAM_START), 0);
    assert_eq!(Vram::tile_number(0x97F3 - VRAM_START), 383);
    assert_eq!(Vram::tile_number(0x8FF5 - VRAM_START), 255);
}

#[test]
fn test_tile_row() {
    assert_eq!(Vram::tile_row(0x800F - VRAM_START), 7);
    assert_eq!(Vram::tile_row(0x97F3 - VRAM_START), 1);
    assert_eq!(Vram::tile_row(0x8FF5 - VRAM_START), 2);
}

#[test]
fn test_update_tile() {
    let mut vram = Vram::new();
    vram.write_byte(0x8000, 0xFF);
    vram.write_byte(0x801E, 0xFF);
    vram.write_byte(0x801F, 0xFF);
    assert_eq!(vram.tile_line(0, 0)[0], PixelColor::Dark);
    assert_eq!(
        vram.tile_line(1, 7),
        [
            PixelColor::Darkest,
            PixelColor::Darkest,
            PixelColor::Darkest,
            PixelColor::Darkest,
            PixelColor::Darkest,
            PixelColor::Darkest,
            PixelColor::Darkest,
            PixelColor::Darkest
        ]
    );
}

#[test]
fn tile_number_of_absolute_address() {
    assert_eq!(Vram::tile_number(0x8010), 1);
    assert_eq!(Vram::tile_number(0x0010), 1);
}

#[test]
fn second_byte_gives_light_shade() {
    let mut vram = Vram::new();
    vram.write_byte(0x8003, 0b1000_0001);
    let line = vram.tile_line(0, 1);
    assert_eq!(line[0], PixelColor::Light);
    assert_eq!(line[7], PixelColor::Light);
    assert_eq!(line[3], PixelColor::Lightest);
    vram.write_byte(0x8002, 0b1100_0000);
    let line = vram.tile_line(0, 1);
    assert_eq!(line[0], PixelColor::Darkest);
    assert_eq!(line[1], PixelColor::Dark);
    assert_eq!(line[7], PixelColor::Light);
}

#[test]
fn map_write_leaves_tiles() {
    let mut vram = Vram::new();
    vram.write_byte(0x9800, 0xFF);
    assert_eq!(vram.read_byte(0x9800), 0xFF);
    assert_eq!(vram.read_byte(0x1800), 0xFF);
    assert_eq!(vram.tile_line(383, 7), [PixelColor::Lightest; 8]);
}

#[test]
fn update_tile_decodes_with_given_byte() {
    let mut vram = Vram::new();
    vram.update_tile(0x8011, 0xFF);
    assert_eq!(vram.tile_line(1, 0), [PixelColor::Light; 8]);
    assert_eq!(vram.read_byte(0x8011), 0);
}

#[test]
fn step_walks_the_lcd_modes() {
    let mut vram = Vram::new();
    // Mode 0 needs 51 cycles before it ends a line.
    vram.render_mode_cycles = 50;
    vram.step();
    assert_eq!(vram.render_mode, 0);
    vram.render_mode_cycles = 51;
    vram.step();
    assert_eq!(vram.scan_row, 1);
    assert_eq!(vram.render_mode, 2);
    assert_eq!(vram.render_mode_cycles, 0);
    vram.render_mode_cycles = 20;
    vram.step();
    assert_eq!(vram.render_mode, 3);
    vram.render_mode_cycles = 43;
    vram.step();
    assert_eq!(vram.render_mode, 0);
}

#[test]
fn vblank_ends_on_row_153() {
    let mut vram = Vram::new();
    vram.scan_row = 143;
    vram.render_mode_cycles = 51;
    vram.step();
    assert_eq!(vram.scan_row, 144);
    assert_eq!(vram.render_mode, 1);
    for row in 145..154u32 {
        vram.render_mode_cycles = 114;
        vram.step();
        assert!(vram.vblank_int);
        if row < 154 {
            assert!(!vram.vblank_flag);
        }
    }
    assert_eq!(vram.scan_row, 153);
    vram.render_mode_cycles = 114;
    vram.step();
    assert!(vram.vblank_flag);
    assert_eq!(vram.scan_row, 0);
    assert_eq!(vram.render_mode, 2);
}

#[test]
fn lcd_stat_interrupt_on_matching_row() {
    let mut vram = Vram::new();
    vram.lcd_stat = 1;
    vram.render_mode_cycles = 51;
    vram.step();
    assert!(vram.lcd_stat_int);
    vram.step();
    assert!(vram.lcd_stat_int);
    vram.lcd_stat = 7;
    vram.step();
    assert!(!vram.lcd_stat_int);
}

#[test]
fn render_scan_draws_background_line() {
    let mut vram = Vram::new();
    // Tile 1, line 0: all pixels darkest.
    vram.write_byte(0x8010, 0xFF);
    vram.write_byte(0x8011, 0xFF);
    // Background map entry (row 0, column 1) points at tile 1.
    vram.write_byte(0x9801, 1);
    vram.lcd_control.display = true;
    vram.render_scan();
    assert_eq!(vram.pixel_buffer[0], 0xFF);
    assert_eq!(vram.pixel_buffer[7 * 3 + 2], 0xFF);
    assert_eq!(vram.pixel_buffer[8 * 3], 0x00);
    assert_eq!(vram.pixel_buffer[15 * 3 + 1], 0x00);
    assert_eq!(vram.pixel_buffer[16 * 3], 0xFF);
    // Scrolling by 4 pixels shifts the tile left.
    vram.scroll_x = 4;
    vram.render_scan();
    assert_eq!(vram.pixel_buffer[3 * 3], 0xFF);
    assert_eq!(vram.pixel_buffer[4 * 3], 0x00);
    assert_eq!(vram.pixel_buffer[11 * 3], 0x00);
    assert_eq!(vram.pixel_buffer[12 * 3], 0xFF);
}

#[test]
fn render_scan_wraps_around_the_map_row() {
    let mut vram = Vram::new();
    vram.write_byte(0x8010, 0xFF);
    vram.write_byte(0x8011, 0x00);
    // Column 0 of map row 0 holds tile 1; scrolled to column 31 the line
    // wraps back to column 0 after one tile.
    vram.write_byte(0x9800, 1);
    vram.scroll_x = 31 * 8;
    vram.lcd_control.display = true;
    vram.render_scan();
    assert_eq!(vram.pixel_buffer[0], 0xFF);
    assert_eq!(vram.pixel_buffer[8 * 3], 0x4D);
}

#[test]
fn render_scan_display_off_draws_nothing() {
    let mut vram = Vram::new();
    vram.render_scan();
    assert!(vram.pixel_buffer.iter().all(|&b| b == 0));
}

#[test]
fn advance_takes_frame_and_scrolls() {
    let mut vram = Vram::new();
    vram.scan_row = 153;
    vram.render_mode = 1;
    vram.render_mode_cycles = 110;
    assert!(vram.advance(4));
    assert!(!vram.vblank_flag);
    assert_eq!(vram.scroll_x, 1);
    assert!(!vram.advance(1));
}
