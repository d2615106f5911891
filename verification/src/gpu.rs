//! Video memory: tile data, the background tile maps, the LCD timing state
//! machine and the scan-line renderer.
//!
//! Each tile is 8x8 pixels and 16 bytes; the two bytes of a line are combined
//! bit by bit into one of four shades. Tile data lies at 0x8000-0x97FF (384
//! tiles), the two 32x32 background maps at 0x9800-0x9BFF and 0x9C00-0x9FFF.
use vstd::prelude::*;

verus! {

/// First address of video memory in the address space.
pub const VRAM_START: u16 = 0x8000;

/// Number of tiles in the tile set.
pub const TILE_COUNT: usize = 384;

/// Number of pixels in the tile set (64 per tile).
pub const TILE_PIXELS: usize = 24576;

/// Bytes of video memory.
pub const VRAM_SIZE: usize = 0x2000;

/// Bytes of the frame buffer: 160 x 144 pixels, 3 bytes each.
pub const PIXEL_BUFFER_SIZE: usize = 69120;

/// The four shades a pixel can take; each pixel is given by two bits.
#[derive(Debug, PartialEq, Eq, Copy, Clone)]
pub enum PixelColor {
    Lightest,
    Light,
    Dark,
    Darkest,
}

/// The decoded LCD control register (0xFF40).
pub struct LcdControl {
    /// Background on when true
    pub background: bool,
    /// Sprites on when true
    pub sprites: bool,
    /// 8x16 sprites when true, 8x8 when false
    pub sprite_size: bool,
    /// Background map 1 when true, 0 when false
    pub bg_map: bool,
    /// Tile set 1 when true, 0 when false
    pub bg_set: bool,
    /// Window enabled when true
    pub window: bool,
    /// Window map 1 when true, 0 when false
    pub window_map: bool,
    /// Display on when true
    pub display: bool,
}

impl LcdControl {
    pub open spec fn all_off() -> LcdControl {
        LcdControl {
            background: false,
            sprites: false,
            sprite_size: false,
            bg_map: false,
            bg_set: false,
            window: false,
            window_map: false,
            display: false,
        }
    }

    pub fn new() -> (r: LcdControl)
        ensures
            r == LcdControl::all_off(),
    {
        LcdControl {
            background: false,
            sprites: false,
            sprite_size: false,
            bg_map: false,
            bg_set: false,
            window: false,
            window_map: false,
            display: false,
        }
    }
}

/// Video memory and the LCD state.
///
/// `tile_set` holds the decoded tiles, 64 pixels per tile, row by row:
/// pixel `p` of row `r` of tile `t` is at `t * 64 + r * 8 + p`.
pub struct Vram {
    pub tile_set: Vec<PixelColor>,
    pub vram: Vec<u8>,
    pub render_mode: u8,
    pub render_mode_cycles: u32,
    /// 0xFF40
    pub lcd_control: LcdControl,
    /// 0xFF42
    pub scroll_y: u8,
    /// 0xFF43
    pub scroll_x: u8,
    /// 0xFF4A
    pub window_y: u8,
    /// 0xFF4B
    pub window_x: u8,
    /// 0xFF44
    pub scan_row: u8,
    /// 0xFF45: the scan row at which the LCD status interrupt is raised
    pub lcd_stat: u8,
    /// 0xFF47
    pub background_palette: u8,
    pub pixel_buffer: Vec<u8>,
    /// Tells the emulator loop to update the screen texture
    pub vblank_flag: bool,
    /// Interrupt flag for V-Blank
    pub vblank_int: bool,
    /// Interrupt flag for the LCD status register
    pub lcd_stat_int: bool,
}

/// The state of a `Vram` as mathematical values.
#[verifier::ext_equal]
pub struct VramView {
    pub tiles: Seq<PixelColor>,
    pub bytes: Seq<u8>,
    pub render_mode: u8,
    pub render_mode_cycles: u32,
    pub lcd_control: LcdControl,
    pub scroll_y: u8,
    pub scroll_x: u8,
    pub window_y: u8,
    pub window_x: u8,
    pub scan_row: u8,
    pub lcd_stat: u8,
    pub background_palette: u8,
    pub pixels: Seq<u8>,
    pub vblank_flag: bool,
    pub vblank_int: bool,
    pub lcd_stat_int: bool,
}

impl View for Vram {
    type V = VramView;

    open spec fn view(&self) -> VramView {
        VramView {
            tiles: self.tile_set@,
            bytes: self.vram@,
            render_mode: self.render_mode,
            render_mode_cycles: self.render_mode_cycles,
            lcd_control: self.lcd_control,
            scroll_y: self.scroll_y,
            scroll_x: self.scroll_x,
            window_y: self.window_y,
            window_x: self.window_x,
            scan_row: self.scan_row,
            lcd_stat: self.lcd_stat,
            background_palette: self.background_palette,
            pixels: self.pixel_buffer@,
            vblank_flag: self.vblank_flag,
            vblank_int: self.vblank_int,
            lcd_stat_int: self.lcd_stat_int,
        }
    }
}

/// Index into video memory of an address: addresses from 0x8000 on are taken
/// relative to 0x8000, lower ones as they are.
pub open spec fn vram_index(address: u16) -> int {
    if address >= VRAM_START {
        address - VRAM_START
    } else {
        address as int
    }
}

/// The shade of pixel `p` (0 is leftmost) of a tile line whose two bytes are
/// `first` and `second`.
pub open spec fn pixel_color(first: u8, second: u8, p: int) -> PixelColor {
    let mask = 0x80u8 >> (p as u8);
    if first & mask == 0 {
        if second & mask == 0 {
            PixelColor::Lightest
        } else {
            PixelColor::Light
        }
    } else {
        if second & mask == 0 {
            PixelColor::Dark
        } else {
            PixelColor::Darkest
        }
    }
}

/// `tiles` with the eight pixels of tile line `line` (line `r` of tile `t` is
/// line `8 * t + r`) decoded from `first` and `second`.
pub open spec fn with_tile_line(tiles: Seq<PixelColor>, line: int, first: u8, second: u8) -> Seq<PixelColor> {
    Seq::new(
        tiles.len(),
        |i: int|
            if 8 * line <= i < 8 * line + 8 {
                pixel_color(first, second, i - 8 * line)
            } else {
                tiles[i]
            },
    )
}

/// The byte value of a shade in the frame buffer.
pub open spec fn shade(c: PixelColor) -> u8 {
    match c {
        PixelColor::Darkest => 0x00,
        PixelColor::Dark => 0x4D,
        PixelColor::Light => 0xB3,
        PixelColor::Lightest => 0xFF,
    }
}

impl VramView {
    /// Blank video memory: all bytes zero, every tile pixel the lightest
    /// shade, render mode 0 on row 0, display off.
    pub open spec fn initial() -> VramView {
        VramView {
            tiles: Seq::new(TILE_PIXELS as nat, |i: int| PixelColor::Lightest),
            bytes: Seq::new(VRAM_SIZE as nat, |i: int| 0u8),
            render_mode: 0,
            render_mode_cycles: 0,
            lcd_control: LcdControl::all_off(),
            scroll_y: 0,
            scroll_x: 0,
            window_y: 0,
            window_x: 0,
            scan_row: 0,
            lcd_stat: 0,
            background_palette: 0,
            pixels: Seq::new(PIXEL_BUFFER_SIZE as nat, |i: int| 0u8),
            vblank_flag: false,
            vblank_int: false,
            lcd_stat_int: false,
        }
    }

    /// The sizes of the buffers and the range of the render mode.
    pub open spec fn wf(self) -> bool {
        &&& self.tiles.len() == TILE_PIXELS
        &&& self.bytes.len() == VRAM_SIZE
        &&& self.pixels.len() == PIXEL_BUFFER_SIZE
        &&& self.render_mode <= 3
    }

    /// Every pixel of the tile set is the decoding of the two bytes of its
    /// tile line in video memory.
    pub open spec fn tiles_decoded(self) -> bool {
        forall|i: int|
            0 <= i < TILE_PIXELS ==> #[trigger] self.tiles[i] == pixel_color(
                self.bytes[2 * (i / 8)],
                self.bytes[2 * (i / 8) + 1],
                i % 8,
            )
    }

    /// The tile line that holds video memory byte `index` decoded again, with
    /// `data` in place of that byte.
    pub open spec fn update_tile(self, index: int, data: u8) -> VramView {
        let first = if index % 2 == 1 { self.bytes[index - 1] } else { data };
        let second = if index % 2 == 1 { data } else { self.bytes[index + 1] };
        VramView { tiles: with_tile_line(self.tiles, index / 2, first, second), ..self }
    }

    /// The state after a write of `data` to `address`.
    pub open spec fn write(self, address: u16, data: u8) -> VramView {
        let index = vram_index(address);
        let v = VramView { bytes: self.bytes.update(index, data), ..self };
        if index < 0x1800 {
            v.update_tile(index, data)
        } else {
            v
        }
    }

    /// Line of the background being drawn.
    pub open spec fn row_offset(self) -> int {
        (self.scan_row + self.scroll_y) % 256
    }

    /// Video memory index of the first entry of the background map row being drawn.
    pub open spec fn map_row(self) -> int {
        (if self.lcd_control.bg_map { 0x1C00int } else { 0x1800int }) + 32 * (self.row_offset() / 8)
    }

    /// Tile number in column `col` of the background map row being drawn.
    pub open spec fn map_tile(self, col: int) -> int {
        let t = self.bytes[self.map_row() + col] as int;
        if self.lcd_control.bg_set && t < 128 {
            t + 256
        } else {
            t
        }
    }

    /// The shade of pixel `i` of the scan line being drawn.
    #[verifier::opaque]
    pub open spec fn line_pixel(self, i: int) -> PixelColor {
        let x = self.scroll_x % 8 + i;
        let col = (self.scroll_x / 8 + x / 8) % 32;
        self.tiles[self.map_tile(col) * 64 + (self.row_offset() % 8) * 8 + x % 8]
    }

    /// The state after drawing the current scan line into the frame buffer.
    #[verifier::opaque]
    pub open spec fn render_scan(self) -> VramView {
        if self.lcd_control.display {
            let start = self.scan_row * 480;
            VramView {
                pixels: Seq::new(
                    self.pixels.len(),
                    |j: int|
                        if start <= j < start + 480 {
                            shade(self.line_pixel((j - start) / 3))
                        } else {
                            self.pixels[j]
                        },
                ),
                ..self
            }
        } else {
            self
        }
    }

    /// Whether a step from this state neither overflows the scan row nor
    /// draws outside the frame buffer.
    pub open spec fn step_ok(self) -> bool {
        &&& (self.render_mode == 0 && self.render_mode_cycles >= 51) ==> self.scan_row < 255
        &&& (self.render_mode == 1 && self.render_mode_cycles >= 114) ==> self.scan_row < 255
        &&& (self.render_mode == 3 && self.render_mode_cycles >= 43 && self.lcd_control.display)
            ==> self.scan_row < 144
    }

    /// The state after the mode-dependent part of a step.
    #[verifier::opaque]
    pub open spec fn advance_mode(self) -> VramView {
        let cycles = self.render_mode_cycles;
        if self.render_mode == 0 {
            let v = VramView { vblank_int: false, ..self };
            if cycles >= 51 {
                let row = (self.scan_row + 1) as u8;
                VramView {
                    render_mode_cycles: 0,
                    scan_row: row,
                    render_mode: if row == 144 { 1u8 } else { 2u8 },
                    ..v
                }
            } else {
                v
            }
        } else if self.render_mode == 1 {
            let v = VramView { vblank_int: true, ..self };
            if cycles >= 114 {
                let row = (self.scan_row + 1) as u8;
                if row == 154 {
                    VramView {
                        render_mode_cycles: 0,
                        vblank_flag: true,
                        scan_row: 0,
                        render_mode: 2,
                        ..v
                    }
                } else {
                    VramView { render_mode_cycles: 0, scan_row: row, ..v }
                }
            } else {
                v
            }
        } else if self.render_mode == 2 {
            let v = VramView { vblank_int: false, ..self };
            if cycles >= 20 {
                VramView { render_mode_cycles: 0, render_mode: 3, ..v }
            } else {
                v
            }
        } else {
            let v = VramView { vblank_int: false, ..self };
            if cycles >= 43 {
                VramView { render_mode_cycles: 0, render_mode: 0, ..v }.render_scan()
            } else {
                v
            }
        }
    }

    /// The state after one step of the LCD state machine.
    pub open spec fn step(self) -> VramView {
        let s = VramView { lcd_stat_int: self.scan_row == self.lcd_stat, vblank_int: false, ..self };
        let v = s.advance_mode();
        VramView { lcd_stat_int: v.lcd_stat_int || v.scan_row == v.lcd_stat, ..v }
    }

    /// The LCD after it is given `cycles` more clock cycles and takes a step,
    /// with a finished frame taken (the frame flag cleared and the
    /// background scrolled right by one pixel), and whether a frame was
    /// finished; `None` where the cycle count or the step leaves range.
    pub open spec fn advance(self, cycles: u8) -> Option<(VramView, bool)> {
        if self.render_mode_cycles + cycles <= u32::MAX {
            let v1 = VramView { render_mode_cycles: (self.render_mode_cycles + cycles) as u32, ..self };
            if v1.step_ok() {
                let v2 = v1.step();
                if v2.vblank_flag {
                    let x = (if v2.scroll_x == 255 { 0 } else { v2.scroll_x + 1 }) as u8;
                    Some((VramView { vblank_flag: false, scroll_x: x, ..v2 }, true))
                } else {
                    Some((v2, false))
                }
            } else {
                None
            }
        } else {
            None
        }
    }

    /// The scan row agrees with the render mode: rows 0-143 are drawn in
    /// modes 0, 2 and 3, rows 144-153 are the vertical blank (mode 1).
    pub open spec fn timing_ok(self) -> bool {
        &&& self.render_mode <= 3
        &&& self.render_mode == 1 ==> 144 <= self.scan_row <= 153
        &&& self.render_mode != 1 ==> self.scan_row < 144
    }
}

proof fn lemma_mask_step(p: u8)
    requires
        p < 8,
    ensures
        (0x80u8 >> p) >> 1u8 == 0x80u8 >> ((p + 1) as u8),
{
    let q: u8 = (p + 1) as u8;
    assert((0x80u8 >> p) >> 1u8 == 0x80u8 >> q) by (bit_vector)
        requires p < 8u8, q == p + 1;
}

proof fn lemma_low_nibble(address: u16)
    ensures
        address & 0x000Fu16 == address % 16,
{
    assert(address & 0x000Fu16 == address % 16) by (bit_vector);
}

proof fn lemma_byte_split(x: u8)
    ensures
        x >> 3u8 == x / 8,
        x & 0x07u8 == x % 8,
{
    assert(x >> 3u8 == x / 8) by (bit_vector);
    assert(x & 0x07u8 == x % 8) by (bit_vector);
}

impl Vram {
    /// The sizes of the buffers and the range of the render mode.
    pub open spec fn wf(&self) -> bool {
        self@.wf()
    }

    /// Blank video memory: all bytes zero, every tile pixel the lightest shade,
    /// render mode 0 on row 0, display off.
    pub fn new() -> (v: Vram)
        ensures
            v.wf(),
            v@ == VramView::initial(),
            v@.tiles_decoded(),
            v@.timing_ok(),
    {
        let mut tile_set: Vec<PixelColor> = Vec::new();
        while tile_set.len() < TILE_PIXELS
            invariant
                tile_set.len() <= TILE_PIXELS,
                forall|i: int| 0 <= i < tile_set.len() ==> tile_set@[i] == PixelColor::Lightest,
            decreases TILE_PIXELS - tile_set.len(),
        {
            tile_set.push(PixelColor::Lightest);
        }
        let vram = vec![0u8; VRAM_SIZE];
        let pixel_buffer = vec![0u8; PIXEL_BUFFER_SIZE];
        let v = Vram {
            tile_set,
            vram,
            render_mode: 0,
            render_mode_cycles: 0,
            lcd_control: LcdControl::new(),
            scroll_y: 0,
            scroll_x: 0,
            window_y: 0,
            window_x: 0,
            scan_row: 0,
            lcd_stat: 0,
            background_palette: 0,
            pixel_buffer,
            vblank_flag: false,
            vblank_int: false,
            lcd_stat_int: false,
        };
        proof {
            assert(v@ =~= VramView::initial());
            assert forall|i: int| 0 <= i < TILE_PIXELS implies #[trigger] v@.tiles[i] == pixel_color(
                v@.bytes[2 * (i / 8)],
                v@.bytes[2 * (i / 8) + 1],
                i % 8,
            ) by {
                let m = 0x80u8 >> ((i % 8) as u8);
                assert(0u8 & m == 0) by (bit_vector);
            }
        }
        v
    }
}


proof fn lemma_tile_base(index: int)
    requires
        0 <= index,
    ensures
        (index / 16) * 64 + ((index % 16) / 2) * 8 == 8 * (index / 2),
{
    assert((index / 16) * 64 + ((index % 16) / 2) * 8 == 8 * (index / 2)) by (nonlinear_arith)
        requires 0 <= index;
}

impl Vram {
    /// Reads a byte of video memory; addresses from 0x8000 on are taken
    /// relative to 0x8000.
    pub fn read_byte(&self, address: u16) -> (r: u8)
        requires
            self.wf(),
            vram_index(address) < VRAM_SIZE,
        ensures
            r == self@.bytes[vram_index(address)],
    {
        let mut address = address;
        if address >= VRAM_START {
            address -= VRAM_START;
        }
        self.vram[address as usize]
    }

    /// Writes a byte of video memory and, for tile data, decodes the tile
    /// line again.
    pub fn write_byte(&mut self, address: u16, data: u8)
        requires
            old(self).wf(),
            vram_index(address) < VRAM_SIZE,
        ensures
            final(self).wf(),
            final(self)@ == old(self)@.write(address, data),
            old(self)@.tiles_decoded() ==> final(self)@.tiles_decoded(),
    {
        let ghost v0 = self@;
        let ghost a0 = address;
        let mut address = address;
        if address >= VRAM_START {
            address -= VRAM_START;
        }
        self.vram[address as usize] = data;
        if address < 0x1800 {
            self.update_tile(address, data);
        }
        proof {
            assert(self@ =~= v0.write(a0, data));
            if v0.tiles_decoded() {
                law_write_keeps_tiles_decoded(v0, a0, data);
            }
        }
    }

    /// Number of the tile that holds video memory address `address`.
    pub fn tile_number(address: u16) -> (r: u16)
        ensures
            r == vram_index(address) / 16,
    {
        let mut address = address;
        if address >= 0x8000 {
            address -= VRAM_START;
        }
        address / 16
    }

    /// Line within its tile of video memory address `address`.
    pub fn tile_row(address: u16) -> (r: u16)
        ensures
            r == (address % 16) / 2,
    {
        proof {
            lemma_low_nibble(address);
        }
        (address & 0x000F) / 2
    }

    /// Decodes again the tile line that holds the byte at `address`, taking
    /// `data` as that byte and the other byte of the line from video memory.
    pub fn update_tile(&mut self, address: u16, data: u8)
        requires
            old(self).wf(),
            vram_index(address) < 0x1800,
        ensures
            final(self).wf(),
            final(self)@ == old(self)@.update_tile(vram_index(address), data),
    {
        let ghost v0 = self@;
        let ghost index = vram_index(address);
        //For even address, we want to OR the data with address + 1
        //For odd address, we want to OR the data with address - 1
        let tile_number = Vram::tile_number(address) as usize;
        let tile_row = Vram::tile_row(address) as usize;
        let even: bool = address % 2 != 1;
        let (first, second) = if even {
            (data, self.read_byte(address + 1))
        } else {
            (self.read_byte(address - 1), data)
        };
        proof {
            assert(address % 16 == index % 16);
            assert(address % 2 == index % 2);
            lemma_tile_base(index);
            assert(0x80u8 == 1u8 << 7u8) by (bit_vector);
            assert(0x80u8 >> 0u8 == 0x80u8) by (bit_vector);
        }
        let ghost base = 8 * (index / 2);
        let mut pixel_mask = 1u8 << 7;
        for pixel in 0..8
            invariant
                self.wf(),
                base == tile_number * 64 + tile_row * 8,
                base + 8 <= TILE_PIXELS,
                pixel_mask == 0x80u8 >> (pixel as u8),
                first == (if index % 2 == 1 { v0.bytes[index - 1] } else { data }),
                second == (if index % 2 == 1 { data } else { v0.bytes[index + 1] }),
                self@ == (VramView { tiles: self.tile_set@, ..v0 }),
                forall|i: int|
                    0 <= i < TILE_PIXELS ==> #[trigger] self.tile_set@[i] == if base <= i < base + pixel {
                        pixel_color(first, second, i - base)
                    } else {
                        v0.tiles[i]
                    },
        {
            let first_mask = first & pixel_mask;
            let second_mask = second & pixel_mask;
            let color = match (first_mask == 0, second_mask == 0) {
                (true, true) => PixelColor::Lightest,
                (true, false) => PixelColor::Light,
                (false, true) => PixelColor::Dark,
                (false, false) => PixelColor::Darkest,
            };
            self.tile_set[tile_number * 64 + tile_row * 8 + pixel] = color;
            proof {
                lemma_mask_step(pixel as u8);
            }
            pixel_mask >>= 1;
        }
        proof {
            assert(self@.tiles =~= with_tile_line(v0.tiles, index / 2, first, second));
            assert(self@ =~= v0.update_tile(index, data));
        }
    }

    /// The eight shades of line `row` of tile `tile`.
    pub fn tile_line(&self, tile: usize, row: usize) -> (r: [PixelColor; 8])
        requires
            self.wf(),
            tile < TILE_COUNT,
            row < 8,
        ensures
            forall|p: int| 0 <= p < 8 ==> r[p] == self@.tiles[tile * 64 + row * 8 + p],
    {
        let b = tile * 64 + row * 8;
        [
            self.tile_set[b],
            self.tile_set[b + 1],
            self.tile_set[b + 2],
            self.tile_set[b + 3],
            self.tile_set[b + 4],
            self.tile_set[b + 5],
            self.tile_set[b + 6],
            self.tile_set[b + 7],
        ]
    }
}

impl Vram {
    /// Draws the current scan line of the background into the frame buffer
    /// when the display is on.
    #[verifier::spinoff_prover]
    #[verifier::rlimit(30)]
    pub fn render_scan(&mut self)
        requires
            old(self).wf(),
            old(self).lcd_control.display ==> old(self).scan_row < 144,
        ensures
            final(self).wf(),
            final(self)@ == old(self)@.render_scan(),
    {
        let ghost v0 = self@;
        proof {
            reveal(VramView::render_scan);
        }
        if self.lcd_control.display {
            let mut map_offset: u16;

            if self.lcd_control.bg_map {
                map_offset = 0x1C00;
            } else {
                map_offset = 0x1800;
            }

            let row_offset = self.scan_row.wrapping_add(self.scroll_y);
            proof {
                lemma_byte_split(row_offset);
                lemma_byte_split(self.scroll_x);
                lemma_u16_shift(row_offset);
            }

            //Current Row In Tile Map
            map_offset += 32 * ((row_offset as u16 >> 3) as u16);

            //Next Row In Tile Map
            let map_edge: u16 = map_offset + 32;
            //tile_pixel_y is the row of the current tile_being rendered
            let tile_pixel_y = row_offset & 0x07;

            //line_offset is where scan will start in row
            let mut line_offset = self.scroll_x >> 3;

            //tile_pixel_x is the column of the current tile being rendered
            let mut tile_pixel_x = self.scroll_x & 0x07;

            //Obtain index of next tile
            let mut tile_number: u16 = self.vram[(map_offset + line_offset as u16) as usize] as u16;

            //If second tile map is being used, indices are signed
            if (self.lcd_control.bg_set) && (tile_number < 128) {
                tile_number += 256;
            }

            let mut pixel_buffer_offset: u32 = self.scan_row as u32 * 160 * 3;
            let ghost start = v0.scan_row * 480;
            let ghost x0 = v0.scroll_x % 8;
            let ghost lo0 = v0.scroll_x / 8;

            // The frame buffer is taken out while the line is drawn.
            let mut pixels: Vec<u8> = Vec::new();
            std::mem::swap(&mut pixels, &mut self.pixel_buffer);
            let ghost v1 = self@;

            for i in 0..160
                invariant
                    self@ == v1,
                    v1 == (VramView { pixels: v1.pixels, ..v0 }),
                    pixels@.len() == PIXEL_BUFFER_SIZE,
                    v0.wf(),
                    v0.lcd_control.display,
                    v0.scan_row < 144,
                    start == v0.scan_row * 480,
                    x0 == v0.scroll_x % 8,
                    lo0 == v0.scroll_x / 8,
                    map_offset == v0.map_row(),
                    map_offset + 32 <= VRAM_SIZE,
                    map_edge == map_offset + 32,
                    tile_pixel_y == v0.row_offset() % 8,
                    pixel_buffer_offset == start + 3 * i,
                    tile_pixel_x == (x0 + i) % 8,
                    line_offset == (lo0 + (x0 + i) / 8) % 32,
                    tile_number == v0.map_tile(line_offset as int),
                    tile_number < TILE_COUNT,
                    forall|j: int|
                        0 <= j < PIXEL_BUFFER_SIZE ==> #[trigger] pixels@[j] == if start <= j < start + 3 * i {
                            shade(v0.line_pixel((j - start) / 3))
                        } else {
                            v0.pixels[j]
                        },
            {
                let color: u8 = match self.tile_set[tile_number as usize * 64 + tile_pixel_y as usize * 8
                    + tile_pixel_x as usize] {
                    PixelColor::Darkest => 0x00,
                    PixelColor::Dark => 0x4D,
                    PixelColor::Light => 0xB3,
                    PixelColor::Lightest => 0xFF,
                };
                proof {
                    lemma_line_pixel(v0, i as int, tile_pixel_x as int, line_offset as int);
                }

                pixels[pixel_buffer_offset as usize] = color;
                pixels[(pixel_buffer_offset + 1) as usize] = color;
                pixels[(pixel_buffer_offset + 2) as usize] = color;
                pixel_buffer_offset += 3;

                proof {
                    assert forall|j: int| 0 <= j < PIXEL_BUFFER_SIZE implies #[trigger] pixels@[j]
                        == if start <= j < start + 3 * (i + 1) {
                        shade(v0.line_pixel((j - start) / 3))
                    } else {
                        v0.pixels[j]
                    } by {
                        if start + 3 * i <= j < start + 3 * (i + 1) {
                            assert((j - start) / 3 == i);
                        }
                    }
                }

                tile_pixel_x += 1;

                if tile_pixel_x == 8 {
                    //Start at the first pixel of the next tile
                    tile_pixel_x = 0;

                    //Increase line offset by 1
                    line_offset = line_offset.wrapping_add(1);

                    //Reset line_offset if the scroll needs to wrap around
                    if map_edge == map_offset + line_offset as u16 {
                        line_offset = 0;
                    }

                    //Get new tile
                    tile_number = self.vram[(map_offset + line_offset as u16) as usize] as u16;
                    if (self.lcd_control.bg_set) && tile_number < 128 {
                        tile_number += 256;
                    }
                    proof {
                        assert((x0 + i + 1) / 8 == (x0 + i) / 8 + 1);
                    }
                } else {
                    proof {
                        assert((x0 + i + 1) / 8 == (x0 + i) / 8);
                    }
                }
            }
            std::mem::swap(&mut pixels, &mut self.pixel_buffer);
            proof {
                assert(self@.pixels =~= v0.render_scan().pixels);
                assert(self@ =~= v0.render_scan());
            }
        }
    }

    /// Ends mode 3: the scan line is drawn and H-Blank begins.
    fn end_line(&mut self)
        requires
            old(self).wf(),
            old(self).render_mode == 3,
            old(self).lcd_control.display ==> old(self).scan_row < 144,
        ensures
            final(self).wf(),
            final(self)@ == (VramView { render_mode_cycles: 0, render_mode: 0, ..old(self)@ }).render_scan(),
    {
        let ghost v0 = self@;
        self.render_mode_cycles = 0;
        self.render_mode = 0;
        assert(self@ =~= (VramView { render_mode_cycles: 0, render_mode: 0, ..v0 }));
        //End of mode 3 is treated as end of current scan line
        self.render_scan();
    }

    /// The mode-dependent part of a step: H-Blank (mode 0), V-Blank (mode 1),
    /// reading OAM (mode 2) and reading OAM and VRAM (mode 3), drawing the
    /// scan line at the end of mode 3. All clock cycles are divided by 4.
    fn advance_mode(&mut self)
        requires
            old(self).wf(),
            old(self)@.step_ok(),
        ensures
            final(self).wf(),
            final(self)@ == old(self)@.advance_mode(),
    {
        let ghost v0 = self@;
        match self.render_mode {
            //H-Blank - CPU can access VRAM and OAM
            0 => {
                self.vblank_int = false;
                if self.render_mode_cycles >= 51 {
                    self.render_mode_cycles = 0;
                    self.scan_row += 1;

                    if self.scan_row == 144 {
                        self.render_mode = 1;
                    } else {
                        self.render_mode = 2;
                    }
                }
                assert(self@ =~= v0.advance_mode()) by {
                    reveal(VramView::advance_mode);
                }
            },
            //V-Blank - CPU can access VRAM and OAM
            1 => {
                self.vblank_int = true;
                if self.render_mode_cycles >= 114 {
                    self.render_mode_cycles = 0;
                    self.scan_row += 1;

                    if self.scan_row == 154 {
                        self.vblank_flag = true;
                        self.scan_row = 0;
                        self.render_mode = 2;
                    }
                }
                assert(self@ =~= v0.advance_mode()) by {
                    reveal(VramView::advance_mode);
                }
            },
            //LCD is reading OAM, CPU cannot access VRAM or OAM
            2 => {
                self.vblank_int = false;
                if self.render_mode_cycles >= 20 {
                    self.render_mode_cycles = 0;
                    self.render_mode = 3;
                }
                assert(self@ =~= v0.advance_mode()) by {
                    reveal(VramView::advance_mode);
                }
            },
            //LCD is reading OAM and VRAM, CPU cannot access VRAM, OAM, or Color Palette
            _ => {
                self.vblank_int = false;
                if self.render_mode_cycles >= 43 {
                    let ghost pre = self@;
                    self.end_line();
                    assert(self@ == v0.advance_mode()) by {
                        reveal(VramView::advance_mode);
                        assert(pre =~= (VramView { vblank_int: false, ..v0 }));
                    }
                } else {
                    assert(self@ =~= v0.advance_mode()) by {
                        reveal(VramView::advance_mode);
                    }
                }
            },
        }
    }

    /// Advances the LCD state machine by one step, raising the LCD status
    /// interrupt flag when the scan row matches `lcd_stat` before or after it.
    pub fn step(&mut self)
        requires
            old(self).wf(),
            old(self)@.step_ok(),
        ensures
            final(self).wf(),
            final(self)@ == old(self)@.step(),
            final(self)@.bytes == old(self)@.bytes,
            final(self)@.tiles == old(self)@.tiles,
    {
        let ghost v0 = self@;
        proof {
            law_step_frame(v0);
        }
        //Check for STAT interrupt
        if self.scan_row == self.lcd_stat {
            self.lcd_stat_int = true;
        } else {
            self.lcd_stat_int = false;
        }

        self.vblank_int = false;
        assert(self@ =~= (VramView { lcd_stat_int: v0.scan_row == v0.lcd_stat, vblank_int: false, ..v0 }));

        self.advance_mode();
        let ghost s2 = self@;

        if self.scan_row == self.lcd_stat {
            self.lcd_stat_int = true;
        }
        assert(self@ =~= (VramView { lcd_stat_int: s2.lcd_stat_int || s2.scan_row == s2.lcd_stat, ..s2 }));
    }
}

impl Vram {
    /// Gives the LCD `cycles` more clock cycles and takes a step; when a
    /// frame is finished, takes it (see `VramView::advance`) and returns true.
    pub fn advance(&mut self, cycles: u8) -> (frame_ready: bool)
        requires
            old(self).wf(),
            old(self)@.advance(cycles) is Some,
        ensures
            final(self).wf(),
            old(self)@.advance(cycles) == Some((final(self)@, frame_ready)),
            old(self)@.tiles_decoded() ==> final(self)@.tiles_decoded(),
    {
        let ghost v0 = self@;
        self.render_mode_cycles += cycles as u32;
        assert(self@ =~= (VramView { render_mode_cycles: (v0.render_mode_cycles + cycles) as u32, ..v0 }));
        self.step();
        let ghost v2 = self@;
        if self.vblank_flag {
            self.vblank_flag = false;
            self.scroll_x = self.scroll_x.wrapping_add(1);
            assert(self@ =~= (VramView { vblank_flag: false, scroll_x: (if v2.scroll_x == 255 { 0 } else { v2.scroll_x + 1 }) as u8, ..v2 }));
            true
        } else {
            false
        }
    }
}

proof fn lemma_line_pixel(v: VramView, i: int, x: int, col: int)
    requires
        x == (v.scroll_x % 8 + i) % 8,
        col == (v.scroll_x / 8 + (v.scroll_x % 8 + i) / 8) % 32,
    ensures
        v.line_pixel(i) == v.tiles[v.map_tile(col) * 64 + (v.row_offset() % 8) * 8 + x],
{
    reveal(VramView::line_pixel);
}

proof fn lemma_u16_shift(x: u8)
    ensures
        (x as u16) >> 3u16 == x / 8,
{
    assert((x as u16) >> 3u16 == x / 8) by (bit_vector);
}

/// Writing video memory keeps every pixel of the tile set the decoding of
/// its tile line.
pub proof fn law_write_keeps_tiles_decoded(v: VramView, address: u16, data: u8)
    requires
        v.wf(),
        v.tiles_decoded(),
        vram_index(address) < VRAM_SIZE,
    ensures
        v.write(address, data).tiles_decoded(),
        v.write(address, data).wf(),
{
    let index = vram_index(address);
    let w = v.write(address, data);
    let b = v.bytes.update(index, data);
    assert forall|i: int| 0 <= i < TILE_PIXELS implies #[trigger] w.tiles[i] == pixel_color(
        w.bytes[2 * (i / 8)],
        w.bytes[2 * (i / 8) + 1],
        i % 8,
    ) by {
        if index < 0x1800 && 8 * (index / 2) <= i < 8 * (index / 2) + 8 {
            assert(i / 8 == index / 2);
        } else {
            assert(w.tiles[i] == v.tiles[i]);
            assert(2 * (i / 8) != index);
            assert(2 * (i / 8) + 1 != index);
        }
    }
}

/// Drawing a scan line changes nothing but the frame buffer, and keeps its size.
pub proof fn law_render_scan_frame(v: VramView)
    ensures
        v.render_scan() == (VramView { pixels: v.render_scan().pixels, ..v }),
        v.render_scan().pixels.len() == v.pixels.len(),
{
    reveal(VramView::render_scan);
}

/// A step changes neither video memory nor the tile set, and keeps the
/// state well formed.
pub proof fn law_step_frame(v: VramView)
    requires
        v.wf(),
    ensures
        v.step().bytes == v.bytes,
        v.step().tiles == v.tiles,
        v.step().wf(),
{
    reveal(VramView::advance_mode);
    let s = VramView { lcd_stat_int: v.scan_row == v.lcd_stat, vblank_int: false, ..v };
    let w = VramView { vblank_int: false, ..s };
    law_render_scan_frame(VramView { render_mode_cycles: 0, render_mode: 0, ..w });
}

/// The LCD timing cycle: when the scan row agrees with the render mode
/// (rows 0-143 in modes 0, 2, 3; rows 144-153 in mode 1), a step can always
/// be taken and the scan row still agrees with the render mode after it.
pub proof fn law_step_keeps_timing(v: VramView)
    requires
        v.wf(),
        v.timing_ok(),
    ensures
        v.step_ok(),
        v.step().timing_ok(),
{
    reveal(VramView::advance_mode);
    let s = VramView { lcd_stat_int: v.scan_row == v.lcd_stat, vblank_int: false, ..v };
    let w = VramView { vblank_int: false, ..s };
    law_render_scan_frame(VramView { render_mode_cycles: 0, render_mode: 0, ..w });
}

/// The frame-ready flag is raised exactly when V-Blank ends on row 153, and
/// is never lowered by a step.
pub proof fn law_step_vblank_flag(v: VramView)
    requires
        v.wf(),
        v.step_ok(),
    ensures
        v.step().vblank_flag == (v.vblank_flag || (v.render_mode == 1 && v.render_mode_cycles >= 114
            && v.scan_row == 153)),
{
    reveal(VramView::advance_mode);
    let s = VramView { lcd_stat_int: v.scan_row == v.lcd_stat, vblank_int: false, ..v };
    let w = VramView { vblank_int: false, ..s };
    law_render_scan_frame(VramView { render_mode_cycles: 0, render_mode: 0, ..w });
}

/// Writing video memory keeps it well formed.
pub proof fn law_write_keeps_vram_wf(v: VramView, address: u16, data: u8)
    requires
        v.wf(),
        vram_index(address) < VRAM_SIZE,
    ensures
        v.write(address, data).wf(),
{
}

/// Tile number of the background tile at column `x`, row `y` (0-255 each)
/// of the 256x256 background: the entry in row `y / 8`, column `x / 8` of
/// the selected map (0x9800 or 0x9C00, 32 entries a row); with the second
/// tile set, numbers below 128 stand for tiles 256-383.
pub open spec fn background_tile(v: VramView, x: int, y: int) -> int {
    let base = if v.lcd_control.bg_map { 0x1C00int } else { 0x1800int };
    let t = v.bytes[base + 32 * (y / 8) + x / 8] as int;
    if v.lcd_control.bg_set && t < 128 {
        t + 256
    } else {
        t
    }
}

/// The pixel at column `x`, row `y` of the background: pixel `x % 8` of
/// line `y % 8` of its tile.
pub open spec fn background_pixel(v: VramView, x: int, y: int) -> PixelColor {
    v.tiles[background_tile(v, x, y) * 64 + (y % 8) * 8 + x % 8]
}

proof fn lemma_scroll_split(sx: int, i: int)
    requires
        0 <= sx < 256,
        0 <= i < 160,
    ensures
        ((sx + i) % 256) / 8 == (sx / 8 + (sx % 8 + i) / 8) % 32,
        ((sx + i) % 256) % 8 == (sx % 8 + i) % 8,
{
    let q = sx / 8;
    let r = sx % 8;
    let u = (r + i) / 8;
    let t = (r + i) % 8;
    let m = q + u;
    let z = m % 32;
    let w = m / 32;
    assert(sx + i == 256 * w + 8 * z + t);
    assert((sx + i) % 256 == 8 * z + t);
}

/// Drawing a scan line with the display on: pixel `i` of screen row
/// `scan_row` (three equal bytes of the frame buffer) shows the background
/// pixel at column `(scroll_x + i) mod 256` and row `(scan_row + scroll_y)
/// mod 256`. Where the tile set is the decoding of video memory, that pixel
/// is decoded from the two bytes of line `row % 8` of its tile.
pub proof fn law_render_scan_background(v: VramView, i: int, k: int)
    requires
        v.wf(),
        v.lcd_control.display,
        v.scan_row < 144,
        0 <= i < 160,
        0 <= k < 3,
    ensures
        ({
            let x = (v.scroll_x + i) % 256;
            let y = (v.scan_row + v.scroll_y) % 256;
            let line = background_tile(v, x, y) * 8 + y % 8;
            &&& v.render_scan().pixels[v.scan_row * 480 + 3 * i + k] == shade(background_pixel(v, x, y))
            &&& v.tiles_decoded() ==> v.render_scan().pixels[v.scan_row * 480 + 3 * i + k] == shade(
                pixel_color(v.bytes[2 * line], v.bytes[2 * line + 1], x % 8),
            )
        }),
{
    reveal(VramView::render_scan);
    reveal(VramView::line_pixel);
    let start = v.scan_row * 480;
    let j = start + 3 * i + k;
    assert((j - start) / 3 == i);
    lemma_scroll_split(v.scroll_x as int, i);
    let x = (v.scroll_x + i) % 256;
    let y = (v.scan_row + v.scroll_y) % 256;
    let p = background_tile(v, x, y) * 64 + (y % 8) * 8 + x % 8;
    assert(0 <= p < TILE_PIXELS);
    assert(p / 8 == background_tile(v, x, y) * 8 + y % 8);
    assert(p % 8 == x % 8);
}

/// One step of the LCD timing machine: mode 2 (searching) goes to mode 3
/// after 20 cycles; mode 3 (transferring) goes to mode 0 after 43 cycles
/// and draws the scan line; mode 0 (horizontal blank) moves to the next row
/// after 51 cycles, into mode 1 on row 144 and mode 2 otherwise; mode 1
/// (vertical blank) moves to the next row after 114 cycles, back to row 0 in
/// mode 2 after row 153. Each change of mode restarts the cycle count;
/// below those counts mode, row and count stay. The status interrupt is
/// raised exactly when the row matched the status register before or after
/// the step, and the V-Blank interrupt is raised exactly in mode 1.
pub proof fn law_step_transitions(v: VramView)
    requires
        v.wf(),
        v.step_ok(),
    ensures
        ({
            let w = v.step();
            let m = v.render_mode;
            let c = v.render_mode_cycles;
            let due = (m == 2 && c >= 20) || (m == 3 && c >= 43) || (m == 0 && c >= 51) || (m == 1 && c >= 114);
            &&& !due ==> w.render_mode == m && w.scan_row == v.scan_row && w.render_mode_cycles == c
                && w.pixels == v.pixels
            &&& due ==> w.render_mode_cycles == 0
            &&& m == 2 && due ==> w.render_mode == 3 && w.scan_row == v.scan_row
            &&& m == 3 && due ==> w.render_mode == 0 && w.scan_row == v.scan_row
                && w.pixels == v.render_scan().pixels
            &&& m == 0 && due ==> w.scan_row == v.scan_row + 1 && w.render_mode == (if v.scan_row + 1 == 144 {
                1int
            } else {
                2int
            })
            &&& m == 1 && due && v.scan_row == 153 ==> w.scan_row == 0 && w.render_mode == 2
            &&& m == 1 && due && v.scan_row != 153 ==> w.scan_row == v.scan_row + 1 && w.render_mode == 1
            &&& w.lcd_stat_int == (v.scan_row == v.lcd_stat || w.scan_row == v.lcd_stat)
            &&& w.vblank_int == (m == 1)
            &&& w.lcd_stat == v.lcd_stat
        }),
{
    reveal(VramView::advance_mode);
    let s = VramView { lcd_stat_int: v.scan_row == v.lcd_stat, vblank_int: false, ..v };
    let w = VramView { vblank_int: false, ..s };
    let x = VramView { render_mode_cycles: 0, render_mode: 0, ..w };
    law_render_scan_frame(x);
    assert(x.render_scan().pixels =~= v.render_scan().pixels) by {
        reveal(VramView::render_scan);
        reveal(VramView::line_pixel);
    }
}

proof fn lemma_pixel_bits(first: u8, second: u8, p: u8, q: u8)
    by (bit_vector)
    requires
        p < 8,
        p + q == 7,
    ensures
        (first & (0x80u8 >> p) == 0) == ((first >> q) % 2 == 0),
        (second & (0x80u8 >> p) == 0) == ((second >> q) % 2 == 0),
{
}

/// The shade of pixel `p` (0 leftmost) of a tile line whose bytes are
/// `first` and `second` comes from bit `7 - p` of each: 0xFF with both
/// clear, 0xB3 with only the second set, 0x4D with only the first set, 0x00
/// with both set.
pub proof fn law_pixel_shade(first: u8, second: u8, p: u8)
    requires
        p < 8,
    ensures
        ({
            let lo = (first >> ((7 - p) as u8)) % 2;
            let hi = (second >> ((7 - p) as u8)) % 2;
            shade(pixel_color(first, second, p as int)) == if lo == 0 && hi == 0 {
                0xFFu8
            } else if lo == 0 {
                0xB3u8
            } else if hi == 0 {
                0x4Du8
            } else {
                0x00u8
            }
        }),
{
    lemma_pixel_bits(first, second, p, (7 - p) as u8);
}

} // verus!
