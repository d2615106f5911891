//! The address space.
//!
//! ROM bank 0 0000-3FFF, ROM bank 1 4000-7FFF, VRAM 8000-9FFF, external RAM
//! A000-BFFF, work RAM C000-DFFF, sprite attribute table FE00-FE9F, I/O
//! ports FF00-FF7F, high RAM FF80-FFFE, interrupt enable register FFFF.
use vstd::prelude::*;
use crate::gpu::{LcdControl, Vram, VramView};
use crate::register::{pair, high, low, lemma_pair_bits, lemma_split_bits};

verus! {

/// The memory of the machine.
pub struct Memory {
    pub rom: Vec<u8>,
    pub vram: Vram,
    pub memory: Vec<u8>,
    pub bios: Vec<u8>,
    pub bios_flag: bool,
    /// The bytes written to the serial transfer register (0xFF01), oldest
    /// first; the program around the library prints them.
    pub serial: Vec<u8>,
}

/// The state of a `Memory` as mathematical values.
#[verifier::ext_equal]
pub struct MemoryView {
    pub rom: Seq<u8>,
    pub vram: VramView,
    pub ram: Seq<u8>,
    pub bios: Seq<u8>,
    pub bios_flag: bool,
    pub serial: Seq<u8>,
}

impl View for Memory {
    type V = MemoryView;

    open spec fn view(&self) -> MemoryView {
        MemoryView {
            rom: self.rom@,
            vram: self.vram@,
            ram: self.memory@,
            bios: self.bios@,
            bios_flag: self.bios_flag,
            serial: self.serial@,
        }
    }
}

/// The LCD control register decoded from the byte `data`, bit 7 first.
pub open spec fn lcd_control_of(data: u8) -> LcdControl {
    LcdControl {
        display: (data & 0x80u8) > 0,
        window_map: (data & (0x80u8 >> 1u8)) > 0,
        window: (data & (0x80u8 >> 2u8)) > 0,
        bg_set: (data & (0x80u8 >> 3u8)) > 0,
        bg_map: (data & (0x80u8 >> 4u8)) > 0,
        sprite_size: (data & (0x80u8 >> 5u8)) > 0,
        sprites: (data & (0x80u8 >> 6u8)) > 0,
        background: (data & (0x80u8 >> 7u8)) > 0,
    }
}

/// `image` followed by zeros up to `len` bytes.
pub open spec fn padded(image: Seq<u8>, len: nat) -> Seq<u8> {
    Seq::new(len, |i: int| if i < image.len() { image[i] } else { 0u8 })
}

impl MemoryView {
    /// Memory as made from a boot program image and a cartridge image: each
    /// followed by zeros, the boot program not mapped, video memory blank,
    /// nothing sent on the serial line.
    pub open spec fn initial(bios_image: Seq<u8>, rom_image: Seq<u8>) -> MemoryView {
        MemoryView {
            rom: Seq::new(0x8000, |i: int| 1u8),
            vram: VramView::initial(),
            ram: padded(rom_image, 0x10000),
            bios: padded(bios_image, 0x100),
            bios_flag: false,
            serial: Seq::empty(),
        }
    }

    pub open spec fn wf(self) -> bool {
        &&& self.rom.len() == 0x8000
        &&& self.ram.len() == 0x10000
        &&& self.bios.len() == 0x100
        &&& self.vram.wf()
    }

    /// The byte read at `address`: the boot program shadows the first 256
    /// bytes while `bios_flag` is set; video memory and the scroll, scan row
    /// and window registers are kept by the video unit.
    pub open spec fn read(self, address: u16) -> u8 {
        if self.bios_flag && address < 0x100 {
            self.bios[address as int]
        } else if address <= 0x7FFF {
            self.ram[address as int]
        } else if address <= 0x9FFF {
            self.vram.bytes[address - 0x8000]
        } else if address == 0xFF42 {
            self.vram.scroll_y
        } else if address == 0xFF43 {
            self.vram.scroll_x
        } else if address == 0xFF44 {
            self.vram.scan_row
        } else if address == 0xFF4A {
            self.vram.window_y
        } else if address == 0xFF4B {
            self.vram.window_x
        } else {
            self.ram[address as int]
        }
    }

    /// The state after writing `data` to `address`. Every write lands in RAM;
    /// besides, video memory writes go to the video unit, a write to the
    /// joypad register (0xFF00) sets its four button bits (unpressed), a
    /// write to 0xFF01 is sent out on the serial line, a write to 0xFF44
    /// resets the scan row, and 0xFF40, 0xFF42, 0xFF43, 0xFF45, 0xFF4A, 0xFF4B
    /// set the LCD control, scroll, status-match and window registers.
    pub open spec fn write(self, address: u16, data: u8) -> MemoryView {
        let m = MemoryView { ram: self.ram.update(address as int, data), ..self };
        if address <= 0x7FFF {
            m
        } else if address <= 0x9FFF {
            MemoryView { vram: self.vram.write(address, data), ..m }
        } else if address == 0xFF00 {
            MemoryView { ram: m.ram.update(0xFF00, data | 0x0Fu8), ..m }
        } else if address == 0xFF01 {
            MemoryView { serial: self.serial.push(data), ..m }
        } else if address == 0xFF42 {
            MemoryView { vram: VramView { scroll_y: data, ..self.vram }, ..m }
        } else if address == 0xFF43 {
            MemoryView { vram: VramView { scroll_x: data, ..self.vram }, ..m }
        } else if address == 0xFF44 {
            MemoryView { vram: VramView { scan_row: 0, ..self.vram }, ..m }
        } else if address == 0xFF4A {
            MemoryView { vram: VramView { window_y: data, ..self.vram }, ..m }
        } else if address == 0xFF4B {
            MemoryView { vram: VramView { window_x: data, ..self.vram }, ..m }
        } else if address == 0xFF40 {
            MemoryView { vram: VramView { lcd_control: lcd_control_of(data), ..self.vram }, ..m }
        } else if address == 0xFF45 {
            MemoryView { vram: VramView { lcd_stat: data, ..self.vram }, ..m }
        } else {
            m
        }
    }

    /// The little-endian word read at `address` and `address + 1`.
    pub open spec fn read_word(self, address: u16) -> u16 {
        pair(self.read((address + 1) as u16), self.read(address))
    }

    /// The state after writing the low byte of `data` to `address` and then
    /// its high byte to `address + 1`.
    pub open spec fn write_word(self, address: u16, data: u16) -> MemoryView {
        self.write(address, low(data)).write((address + 1) as u16, high(data))
    }

    /// The state after the I/O registers are given their values after boot.
    pub open spec fn setup(self) -> MemoryView {
        self.write(0xFF00, 0xFF).write(0xFF05, 0x00).write(0xFF06, 0x00).write(0xFF07, 0x00).write(
            0xFF10,
            0x80,
        ).write(0xFF11, 0xBF).write(0xFF12, 0xF3).write(0xFF14, 0xBF).write(0xFF16, 0x3F).write(
            0xFF17,
            0x00,
        ).write(0xFF19, 0xBF).write(0xFF1A, 0x7F).write(0xFF1B, 0xFF).write(0xFF1C, 0x9F).write(
            0xFF1E,
            0xBF,
        ).write(0xFF20, 0xFF).write(0xFF21, 0x00).write(0xFF22, 0x00).write(0xFF23, 0xBF).write(
            0xFF24,
            0x77,
        ).write(0xFF25, 0xF3).write(0xFF26, 0xF1).write(0xFF40, 0x91).write(0xFF42, 0x00).write(
            0xFF43,
            0x00,
        ).write(0xFF45, 0x00).write(0xFF47, 0xFC).write(0xFF48, 0xFF).write(0xFF49, 0xFF).write(
            0xFF4A,
            0x00,
        ).write(0xFF4B, 0x00).write(0xFFFF, 0x00)
    }
}

impl Memory {
    pub open spec fn wf(&self) -> bool {
        self@.wf()
    }

    /// Memory whose boot program is `bios_image` and whose address space
    /// starts with the cartridge `rom_image`, both followed by zeros.
    pub fn new(bios_image: &Vec<u8>, rom_image: &Vec<u8>) -> (m: Memory)
        requires
            bios_image.len() <= 0x100,
            rom_image.len() <= 0x10000,
        ensures
            m.wf(),
            m@ == MemoryView::initial(bios_image@, rom_image@),
            m@.vram.tiles_decoded(),
    {
        let mut bios_buffer: Vec<u8> = vec![0u8; 0x100];
        for index in 0..bios_image.len()
            invariant
                bios_image.len() <= 0x100,
                bios_buffer@.len() == 0x100,
                forall|i: int| 0 <= i < 0x100 ==> #[trigger] bios_buffer@[i] == if i < index {
                    bios_image@[i]
                } else {
                    0u8
                },
        {
            bios_buffer[index] = bios_image[index];
        }

        let mut buffer: Vec<u8> = vec![0u8; 0x10000];
        for index in 0..rom_image.len()
            invariant
                rom_image.len() <= 0x10000,
                buffer@.len() == 0x10000,
                forall|i: int| 0 <= i < 0x10000 ==> #[trigger] buffer@[i] == if i < index {
                    rom_image@[i]
                } else {
                    0u8
                },
        {
            buffer[index] = rom_image[index];
        }
        let m = Memory {
            rom: vec![1u8; 0x8000],
            vram: Vram::new(),
            memory: buffer,
            bios: bios_buffer,
            bios_flag: false,
            serial: Vec::new(),
        };
        proof {
            assert(m@ =~= MemoryView::initial(bios_image@, rom_image@));
        }
        m
    }

    /// Gives the I/O registers their values after boot.
    pub fn memory_setup(&mut self)
        requires
            old(self).wf(),
        ensures
            final(self).wf(),
            final(self)@ == old(self)@.setup(),
            old(self)@.vram.tiles_decoded() ==> final(self)@.vram.tiles_decoded(),
    {
        self.write_byte(0xFF00, 0xFF);  //Joypad Input Register
        self.write_byte(0xFF05, 0x00);  //TIMA
        self.write_byte(0xFF06, 0x00);  //TMA
        self.write_byte(0xFF07, 0x00);  //TAC
        self.write_byte(0xFF10, 0x80);  //NR10
        self.write_byte(0xFF11, 0xBF);  //NR11
        self.write_byte(0xFF12, 0xF3);  //NR12
        self.write_byte(0xFF14, 0xBF);  //NR14
        self.write_byte(0xFF16, 0x3F);  //NR21
        self.write_byte(0xFF17, 0x00);  //NR22
        self.write_byte(0xFF19, 0xBF);  //NR24
        self.write_byte(0xFF1A, 0x7F);  //NR30
        self.write_byte(0xFF1B, 0xFF);  //NR31
        self.write_byte(0xFF1C, 0x9F);  //NR32
        self.write_byte(0xFF1E, 0xBF);  //NR33
        self.write_byte(0xFF20, 0xFF);  //NR41
        self.write_byte(0xFF21, 0x00);  //NR42
        self.write_byte(0xFF22, 0x00);  //NR43
        self.write_byte(0xFF23, 0xBF);  //NR30
        self.write_byte(0xFF24, 0x77);  //NR50
        self.write_byte(0xFF25, 0xF3);  //NR51
        self.write_byte(0xFF26, 0xF1);  //NR52 -0xF0 for Super Gameboy
        self.write_byte(0xFF40, 0x91);  //LCDC
        self.write_byte(0xFF42, 0x00);  //SCY
        self.write_byte(0xFF43, 0x00);  //SCX
        self.write_byte(0xFF45, 0x00);  //LYC
        self.write_byte(0xFF47, 0xFC);  //BGP
        self.write_byte(0xFF48, 0xFF);  //OBP0
        self.write_byte(0xFF49, 0xFF);  //OBP1
        self.write_byte(0xFF4A, 0x00);  //WY
        self.write_byte(0xFF4B, 0x00);  //WX
        self.write_byte(0xFFFF, 0x00);  //IE
    }

    pub fn read_byte(&self, address: u16) -> (r: u8)
        requires
            self.wf(),
        ensures
            r == self@.read(address),
    {
        if self.bios_flag && (address < 0x100) {
            return self.bios[address as usize];
        }
        match address {
            0x0000..=0x7FFF => self.memory[address as usize],
            0x8000..=0x9FFF => self.vram.read_byte(address),
            0xFF42 => self.vram.scroll_y,
            0xFF43 => self.vram.scroll_x,
            0xFF44 => self.vram.scan_row,
            0xFF4A => self.vram.window_y,
            0xFF4B => self.vram.window_x,
            _ => self.memory[address as usize],
        }
    }

    pub fn read_word(&self, address: u16) -> (r: u16)
        requires
            self.wf(),
            address < 0xFFFF,
        ensures
            r == self@.read_word(address),
    {
        let lower: u8 = self.read_byte(address);
        let upper: u8 = self.read_byte(address + 1);
        proof {
            lemma_pair_bits(upper, lower);
        }
        ((upper as u16) << 8) | (lower as u16)
    }

    pub fn write_byte(&mut self, address: u16, data: u8)
        requires
            old(self).wf(),
        ensures
            final(self).wf(),
            final(self)@ == old(self)@.write(address, data),
            old(self)@.vram.tiles_decoded() ==> final(self)@.vram.tiles_decoded(),
    {
        let ghost m0 = self@;
        self.memory[address as usize] = data;
        match address {
            0x0000..=0x7FFF => self.memory[address as usize] = data,
            0x8000..=0x9FFF => self.vram.write_byte(address, data),
            //Reset input buttons to unpressed state when input state changes
            0xFF00 => {
                self.memory[0xFF00] = self.memory[0xFF00] | 0x0F;
            },
            //Serial transfer data
            0xFF01 => self.serial.push(data),
            0xFF42 => self.vram.scroll_y = data,
            0xFF43 => self.vram.scroll_x = data,
            //Writing to this register always resets the row to zero
            0xFF44 => self.vram.scan_row = 0,
            0xFF4A => self.vram.window_y = data,
            0xFF4B => self.vram.window_x = data,
            0xFF40 => self.update_lcd_control(),
            0xFF45 => self.vram.lcd_stat = data,
            _ => (),
        }
        proof {
            assert(self@ =~= m0.write(address, data));
            if m0.vram.tiles_decoded() {
                law_write_keeps_tiles_decoded(m0, address, data);
            }
        }
    }

    /// Whether bit 4 of the joypad register is clear (input is set to the
    /// direction keys).
    pub fn input_status(&mut self) -> (r: bool)
        requires
            old(self).wf(),
        ensures
            *final(self) == *old(self),
            r == (old(self)@.read(0xFF00) & 0b0001_0000u8 == 0),
    {
        let input_reg = self.read_byte(0xFF00);
        (input_reg & 0b0001_0000) == 0
    }

    /// Decodes the LCD control register from RAM byte 0xFF40.
    pub fn update_lcd_control(&mut self)
        requires
            old(self).wf(),
        ensures
            final(self).wf(),
            final(self)@ == (MemoryView {
                vram: VramView { lcd_control: lcd_control_of(old(self)@.ram[0xFF40]), ..old(self)@.vram },
                ..old(self)@
            }),
    {
        let ghost m0 = self@;
        let data = self.memory[0xFF40];
        let bit_mask: u8 = 0b1000_0000;

        self.vram.lcd_control = LcdControl {
            display: (data & bit_mask) > 0,
            window_map: (data & (bit_mask >> 1)) > 0,
            window: (data & (bit_mask >> 2)) > 0,
            bg_set: (data & (bit_mask >> 3)) > 0,
            bg_map: (data & (bit_mask >> 4)) > 0,
            sprite_size: (data & (bit_mask >> 5)) > 0,
            sprites: (data & (bit_mask >> 6)) > 0,
            background: (data & (bit_mask >> 7)) > 0,
        };
        proof {
            assert(self@ =~= (MemoryView {
                vram: VramView { lcd_control: lcd_control_of(m0.ram[0xFF40]), ..m0.vram },
                ..m0
            }));
        }
    }

    pub fn write_word(&mut self, address: u16, data: u16)
        requires
            old(self).wf(),
            address < 0xFFFF,
        ensures
            final(self).wf(),
            final(self)@ == old(self)@.write_word(address, data),
            old(self)@.vram.tiles_decoded() ==> final(self)@.vram.tiles_decoded(),
    {
        proof {
            lemma_split_bits(data);
        }
        let upper: u8 = ((data & 0xFF00) >> 8) as u8;
        let lower: u8 = (data & 0x00FF) as u8;

        self.write_byte(address, lower);
        self.write_byte(address + 1, upper);
    }
}

/// Whether a read of `address` gives back the last byte written there:
/// neither shadowed by the boot program, nor the joypad register (whose
/// button bits a write sets) nor the scan row (which a write resets).
pub open spec fn holds_written_byte(m: MemoryView, address: u16) -> bool {
    &&& !(m.bios_flag && address < 0x100)
    &&& address != 0xFF00
    &&& address != 0xFF44
}

/// A read gives back what a write to the same address wrote.
pub proof fn law_read_after_write(m: MemoryView, address: u16, data: u8)
    requires
        m.wf(),
        holds_written_byte(m, address),
    ensures
        m.write(address, data).read(address) == data,
{
}

/// A write changes the byte read at no other address.
pub proof fn law_write_frame(m: MemoryView, address: u16, other: u16, data: u8)
    requires
        m.wf(),
        other != address,
    ensures
        m.write(address, data).read(other) == m.read(other),
        m.write(address, data).wf(),
{
    if 0x8000 <= address <= 0x9FFF {
        crate::gpu::law_write_keeps_vram_wf(m.vram, address, data);
    }
}

/// A word read gives back what a word write to the same address wrote.
pub proof fn law_word_round_trip(m: MemoryView, address: u16, data: u16)
    requires
        m.wf(),
        address < 0xFFFF,
        holds_written_byte(m, address),
        holds_written_byte(m, (address + 1) as u16),
    ensures
        m.write_word(address, data).read_word(address) == data,
{
    let m1 = m.write(address, low(data));
    law_write_frame(m, address, (address + 1) as u16, low(data));
    law_read_after_write(m1, (address + 1) as u16, high(data));
    law_write_frame(m1, (address + 1) as u16, address, high(data));
    crate::register::law_pair_split(data);
}

/// Every write keeps the tile set the decoding of video memory.
pub proof fn law_write_keeps_tiles_decoded(m: MemoryView, address: u16, data: u8)
    requires
        m.wf(),
        m.vram.tiles_decoded(),
    ensures
        m.write(address, data).wf(),
        m.write(address, data).vram.tiles_decoded(),
{
    if 0x8000 <= address <= 0x9FFF {
        crate::gpu::law_write_keeps_tiles_decoded(m.vram, address, data);
    }
}

proof fn lemma_register_bits(data: u8)
    by (bit_vector)
    ensures
        (data | 0x0Fu8) % 16 == 15,
        (data | 0x0Fu8) / 16 == data / 16,
        ((data & 0x80u8) > 0) == ((data >> 7u8) % 2 == 1),
        ((data & (0x80u8 >> 1u8)) > 0) == ((data >> 6u8) % 2 == 1),
        ((data & (0x80u8 >> 2u8)) > 0) == ((data >> 5u8) % 2 == 1),
        ((data & (0x80u8 >> 3u8)) > 0) == ((data >> 4u8) % 2 == 1),
        ((data & (0x80u8 >> 4u8)) > 0) == ((data >> 3u8) % 2 == 1),
        ((data & (0x80u8 >> 5u8)) > 0) == ((data >> 2u8) % 2 == 1),
        ((data & (0x80u8 >> 6u8)) > 0) == ((data >> 1u8) % 2 == 1),
        ((data & (0x80u8 >> 7u8)) > 0) == (data % 2 == 1),
{
}

/// The I/O registers a write does more to: the joypad register (0xFF00)
/// reads back with its four button bits (3-0) set and the upper nibble
/// written; a byte written to 0xFF01 is appended to the serial output; a
/// write to the scan row register (0xFF44) resets the scan row to zero;
/// the scroll registers (0xFF42, 0xFF43) read back what was written; a
/// write to the LCD control register (0xFF40) sets the display, window
/// map, window, tile set, background map, sprite size, sprites and
/// background switches from bits 7 down to 0.
pub proof fn law_write_io_registers(m: MemoryView, data: u8)
    requires
        m.wf(),
    ensures
        m.write(0xFF00, data).read(0xFF00) % 16 == 15,
        m.write(0xFF00, data).read(0xFF00) / 16 == data / 16,
        m.write(0xFF01, data).serial == m.serial.push(data),
        m.write(0xFF44, data).read(0xFF44) == 0,
        m.write(0xFF42, data).read(0xFF42) == data,
        m.write(0xFF43, data).read(0xFF43) == data,
        ({
            let c = m.write(0xFF40, data).vram.lcd_control;
            &&& c.display == ((data >> 7u8) % 2 == 1)
            &&& c.window_map == ((data >> 6u8) % 2 == 1)
            &&& c.window == ((data >> 5u8) % 2 == 1)
            &&& c.bg_set == ((data >> 4u8) % 2 == 1)
            &&& c.bg_map == ((data >> 3u8) % 2 == 1)
            &&& c.sprite_size == ((data >> 2u8) % 2 == 1)
            &&& c.sprites == ((data >> 1u8) % 2 == 1)
            &&& c.background == (data % 2 == 1)
        }),
{
    lemma_register_bits(data);
}

} // verus!
