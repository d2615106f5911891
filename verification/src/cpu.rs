//! The processor: fetching, decoding and executing instructions.
use vstd::prelude::*;
use crate::alu;
use crate::instructions::{alu_op, cb_op, cycle_result, exec_op, misc_op};
use crate::memory::{Memory, MemoryView, holds_written_byte, law_word_round_trip};
use crate::register::Registers;

verus! {

/// The processor with its memory.
pub struct Cpu {
    pub registers: Registers,
    pub memory: Memory,
    pub halted: bool,
    pub stopped: bool,
    pub interrupts_enabled: bool,
    /// The opcode of the last instruction when the processor does not
    /// implement it; the program around the library reports it.
    pub unknown_opcode: Option<u8>,
}

/// The state of a `Cpu` as mathematical values.
#[verifier::ext_equal]
pub struct CpuView {
    pub registers: Registers,
    pub memory: MemoryView,
    pub halted: bool,
    pub stopped: bool,
    pub interrupts_enabled: bool,
    pub unknown_opcode: Option<u8>,
}

impl View for Cpu {
    type V = CpuView;

    open spec fn view(&self) -> CpuView {
        CpuView {
            registers: self.registers,
            memory: self.memory@,
            halted: self.halted,
            stopped: self.stopped,
            interrupts_enabled: self.interrupts_enabled,
            unknown_opcode: self.unknown_opcode,
        }
    }
}

impl CpuView {
    pub open spec fn wf(self) -> bool {
        self.memory.wf()
    }

    pub open spec fn with_regs(self, r: Registers) -> CpuView {
        CpuView { registers: r, ..self }
    }

    pub open spec fn with_pc(self, pc: u16) -> CpuView {
        self.with_regs(Registers { pc, ..self.registers })
    }

    pub open spec fn read(self, address: u16) -> u8 {
        self.memory.read(address)
    }

    pub open spec fn write(self, address: u16, data: u8) -> CpuView {
        CpuView { memory: self.memory.write(address, data), ..self }
    }

    pub open spec fn write_word(self, address: u16, data: u16) -> CpuView {
        CpuView { memory: self.memory.write_word(address, data), ..self }
    }

    /// Operand `i` of the 8-bit instructions: b, c, d, e, h, l, the byte at
    /// `hl`, a.
    pub open spec fn get_r8(self, i: u8) -> u8 {
        let r = self.registers;
        if i == 0 {
            r.b
        } else if i == 1 {
            r.c
        } else if i == 2 {
            r.d
        } else if i == 3 {
            r.e
        } else if i == 4 {
            r.h
        } else if i == 5 {
            r.l
        } else if i == 6 {
            self.read(r.spec_hl())
        } else {
            r.a
        }
    }

    /// The state with operand `i` (see `get_r8`) set to `v`.
    pub open spec fn set_r8(self, i: u8, v: u8) -> CpuView {
        let r = self.registers;
        if i == 0 {
            self.with_regs(Registers { b: v, ..r })
        } else if i == 1 {
            self.with_regs(Registers { c: v, ..r })
        } else if i == 2 {
            self.with_regs(Registers { d: v, ..r })
        } else if i == 3 {
            self.with_regs(Registers { e: v, ..r })
        } else if i == 4 {
            self.with_regs(Registers { h: v, ..r })
        } else if i == 5 {
            self.with_regs(Registers { l: v, ..r })
        } else if i == 6 {
            self.write(r.spec_hl(), v)
        } else {
            self.with_regs(Registers { a: v, ..r })
        }
    }

    /// A byte can be read at the program counter without it overflowing.
    pub open spec fn fetch_ok(self) -> bool {
        self.registers.pc < 0xFFFF
    }

    pub open spec fn fetched(self) -> u8 {
        self.read(self.registers.pc)
    }

    pub open spec fn after_fetch(self) -> CpuView {
        self.with_pc((self.registers.pc + 1) as u16)
    }

    /// A word can be read at the program counter without it overflowing.
    pub open spec fn fetch16_ok(self) -> bool {
        self.registers.pc <= 0xFFFD
    }

    pub open spec fn fetched16(self) -> u16 {
        self.memory.read_word(self.registers.pc)
    }

    pub open spec fn after_fetch16(self) -> CpuView {
        self.with_pc((self.registers.pc + 2) as u16)
    }

    pub open spec fn push_ok(self) -> bool {
        self.registers.sp >= 2
    }

    /// The stack pointer moved down by two and `data` written there.
    pub open spec fn push(self, data: u16) -> CpuView {
        let sp = (self.registers.sp - 2) as u16;
        CpuView {
            registers: Registers { sp, ..self.registers },
            memory: self.memory.write_word(sp, data),
            ..self
        }
    }

    /// A word can be read at the stack pointer and the stack pointer raised
    /// by two without either overflowing.
    pub open spec fn pop_ok(self) -> bool {
        self.registers.sp <= 0xFFFD
    }

    /// The word read by a pop: the one at the stack pointer.
    pub open spec fn popped(self) -> u16 {
        self.memory.read_word(self.registers.sp)
    }

    pub open spec fn after_pop(self) -> CpuView {
        self.with_regs(Registers { sp: (self.registers.sp + 2) as u16, ..self.registers })
    }
}

proof fn lemma_nibble(x: u8)
    ensures
        x & 0x0Fu8 <= 0x0F,
{
    assert(x & 0x0Fu8 <= 0x0F) by (bit_vector);
}

impl Cpu {
    pub open spec fn wf(&self) -> bool {
        self@.wf()
    }

    /// A processor with the register values after boot, interrupts enabled,
    /// and memory holding `bios_image` and `rom_image` (see `Memory::new`).
    pub fn new(bios_image: &Vec<u8>, rom_image: &Vec<u8>) -> (cpu: Cpu)
        requires
            bios_image.len() <= 0x100,
            rom_image.len() <= 0x10000,
        ensures
            cpu.wf(),
            cpu.registers == Registers::after_boot(),
            cpu.memory@ == MemoryView::initial(bios_image@, rom_image@),
            cpu.memory@.vram.tiles_decoded(),
            !cpu.halted,
            !cpu.stopped,
            cpu.interrupts_enabled,
            cpu.unknown_opcode is None,
    {
        Cpu {
            registers: Registers::new(),
            memory: Memory::new(bios_image, rom_image),
            halted: false,
            stopped: false,
            interrupts_enabled: true,
            unknown_opcode: None,
        }
    }
}

impl Cpu {
    //Fetch next byte and increase program counter by one
    fn next_byte(&mut self) -> (r: u8)
        requires
            old(self).wf(),
            old(self)@.fetch_ok(),
        ensures
            final(self)@ == old(self)@.after_fetch(),
            r == old(self)@.fetched(),
    {
        let data = self.memory.read_byte(self.registers.pc);
        self.registers.pc += 1;
        data
    }

    fn next_word(&mut self) -> (r: u16)
        requires
            old(self).wf(),
            old(self)@.fetch16_ok(),
        ensures
            final(self)@ == old(self)@.after_fetch16(),
            r == old(self)@.fetched16(),
    {
        let data = self.memory.read_word(self.registers.pc);
        self.registers.pc += 2;
        data
    }

    /// Pushes a register pair onto the stack: the stack pointer is lowered by
    /// two and `data` written there.
    pub fn push_word(&mut self, data: u16)
        requires
            old(self).wf(),
            old(self)@.push_ok(),
        ensures
            final(self).wf(),
            final(self)@ == old(self)@.push(data),
            old(self)@.memory.vram.tiles_decoded() ==> final(self)@.memory.vram.tiles_decoded(),
    {
        self.registers.sp -= 2;
        self.memory.write_word(self.registers.sp, data);
    }

    /// Pops a word: the word at the stack pointer is read, then the stack
    /// pointer is raised by two.
    pub fn pop_word(&mut self) -> (r: u16)
        requires
            old(self).wf(),
            old(self)@.pop_ok(),
        ensures
            final(self)@ == old(self)@.after_pop(),
            r == old(self)@.popped(),
    {
        let data = self.memory.read_word(self.registers.sp);
        self.registers.sp += 2;
        data
    }

    /// Operand `i` of the 8-bit instructions (see `CpuView::get_r8`).
    pub(crate) fn get_r8(&self, i: u8) -> (r: u8)
        requires
            self.wf(),
        ensures
            r == self@.get_r8(i),
    {
        match i {
            0 => self.registers.b,
            1 => self.registers.c,
            2 => self.registers.d,
            3 => self.registers.e,
            4 => self.registers.h,
            5 => self.registers.l,
            6 => self.memory.read_byte(self.registers.hl()),
            _ => self.registers.a,
        }
    }

    /// Sets operand `i` of the 8-bit instructions (see `CpuView::set_r8`).
    fn set_r8(&mut self, i: u8, v: u8)
        requires
            old(self).wf(),
        ensures
            final(self).wf(),
            final(self)@ == old(self)@.set_r8(i, v),
            old(self)@.memory.vram.tiles_decoded() ==> final(self)@.memory.vram.tiles_decoded(),
    {
        match i {
            0 => self.registers.b = v,
            1 => self.registers.c = v,
            2 => self.registers.d = v,
            3 => self.registers.e = v,
            4 => self.registers.h = v,
            5 => self.registers.l = v,
            6 => {
                let address = self.registers.hl();
                self.memory.write_byte(address, v);
            },
            _ => self.registers.a = v,
        }
    }

    //Add 8 bit value to register a, set appropriate flags
    fn add8(&mut self, data: u8)
        requires
            alu::add8_ok(old(self).registers, data),
        ensures
            final(self)@ == old(self)@.with_regs(alu::add8(old(self).registers, data)),
    {
        proof {
            lemma_nibble(self.registers.a);
            lemma_nibble(data);
        }
        if ((self.registers.a & 0xF) + (data & 0xF)) & 0x10 == 0x10 {
            self.registers.set_halfcarry(1);
        } else {
            self.registers.set_halfcarry(0);
        }
        if data as u16 + self.registers.a as u16 > 0xFF {
            self.registers.set_carry(1);
        } else {
            self.registers.set_carry(0);
        }
        self.registers.a += data;
        if self.registers.a == 0 {
            self.registers.set_zero(1);
        } else {
            self.registers.set_zero(0);
        }
        self.registers.set_addsub(0);
    }

    //Add 8 bit value + carry, set appropriate values
    fn add8_carry(&mut self, data: u8)
        requires
            alu::add8_carry_ok(old(self).registers, data),
        ensures
            final(self)@ == old(self)@.with_regs(alu::add8_carry(old(self).registers, data)),
    {
        let mut data = data;
        if self.registers.check_carry() {
            if self.registers.a < data {
                self.registers.a += 1;
            } else {
                data += 1;
            }
        }
        proof {
            lemma_nibble(self.registers.a);
            lemma_nibble(data);
        }
        if ((self.registers.a & 0xF) + (data & 0xF)) & 0x10 == 0x10 {
            self.registers.set_halfcarry(1);
        } else {
            self.registers.set_halfcarry(0);
        }
        if data as u16 + self.registers.a as u16 > 0xFF {
            self.registers.set_carry(1);
        } else {
            self.registers.set_carry(0);
        }
        self.registers.a += data;
        if self.registers.a == 0 {
            self.registers.set_zero(1);
        } else {
            self.registers.set_zero(0);
        }
        self.registers.set_addsub(0);
    }

    //Sub 8 bit value from register a, set appropriate flags
    fn sub8(&mut self, data: u8)
        requires
            alu::sub8_ok(old(self).registers, data),
        ensures
            final(self)@ == old(self)@.with_regs(alu::sub8(old(self).registers, data)),
    {
        if data & 0xF > self.registers.a & 0xF {
            self.registers.set_halfcarry(1);
        } else {
            self.registers.set_halfcarry(0);
        }
        if data & 0xFF > self.registers.a & 0xFF {
            self.registers.set_carry(1);
        } else {
            self.registers.set_carry(0);
        }
        self.registers.a -= data;
        if self.registers.a == 0 {
            self.registers.set_zero(1);
        } else {
            self.registers.set_zero(0);
        }
        self.registers.set_addsub(1);
    }

    //Sub 8 bit value and carry, set appropriate flags
    fn sub8_carry(&mut self, data: u8)
        requires
            alu::sub8_carry_ok(old(self).registers, data),
        ensures
            final(self)@ == old(self)@.with_regs(alu::sub8_carry(old(self).registers, data)),
    {
        let mut data = data;
        if self.registers.check_carry() {
            if self.registers.a > data {
                self.registers.a -= 1;
            } else {
                data -= 1;
            }
        }
        if data & 0xF > self.registers.a & 0xF {
            self.registers.set_halfcarry(1);
        } else {
            self.registers.set_halfcarry(0);
        }
        if data & 0xFF > self.registers.a & 0xFF {
            self.registers.set_carry(1);
        } else {
            self.registers.set_carry(0);
        }
        self.registers.a -= data;
        if self.registers.a == 0 {
            self.registers.set_zero(1);
        } else {
            self.registers.set_zero(0);
        }
        self.registers.set_addsub(1);
    }

    //Bitwise AND with register a, store value in a
    fn and(&mut self, data: u8)
        ensures
            final(self)@ == old(self)@.with_regs(alu::and(old(self).registers, data)),
    {
        self.registers.a &= data;
        if self.registers.a == 0 {
            self.registers.set_zero(1);
        } else {
            self.registers.set_zero(0)
        }
        self.registers.set_addsub(0);
        self.registers.set_carry(0);
        self.registers.set_halfcarry(1);
    }

    //Bitwise OR with register a, store value in a
    fn or(&mut self, data: u8)
        ensures
            final(self)@ == old(self)@.with_regs(alu::or(old(self).registers, data)),
            final(self).registers.a & old(self).registers.a == old(self).registers.a,
            final(self).registers.a & data == data,
            final(self).registers.a & !old(self).registers.a & !data == 0,
    {
        proof {
            alu::law_or_bits(self.registers, data);
        }
        self.registers.a |= data;
        if self.registers.a == 0 {
            self.registers.set_zero(1);
        } else {
            self.registers.set_zero(0);
        }
        self.registers.set_addsub(0);
        self.registers.set_halfcarry(0);
        self.registers.set_carry(0);
    }

    //Bitwise XOR with register a, store value in a
    fn xor(&mut self, data: u8)
        ensures
            final(self)@ == old(self)@.with_regs(alu::xor(old(self).registers, data)),
    {
        self.registers.a ^= data;
        if self.registers.a == 0 {
            self.registers.set_zero(1);
        } else {
            self.registers.set_zero(0)
        }
        self.registers.set_addsub(0);
        self.registers.set_halfcarry(0);
        self.registers.set_carry(0);
    }

    //Compare: only the zero flag is set
    fn cmp(&mut self, data: u8)
        requires
            alu::cmp_ok(old(self).registers, data),
        ensures
            final(self)@ == old(self)@.with_regs(alu::cmp(old(self).registers, data)),
    {
        if self.registers.a - data == 0 {
            self.registers.set_zero(1);
        } else {
            self.registers.set_zero(0);
        }
    }

    //INC, check for zero and half-carry flag
    fn inc(&mut self, data: u8) -> (r: u8)
        requires
            alu::inc_ok(data),
        ensures
            final(self)@ == old(self)@.with_regs(alu::inc(old(self).registers, data).0),
            r == alu::inc(old(self).registers, data).1,
    {
        let mut data = data;
        proof {
            lemma_nibble(data);
            assert(1u8 & 0x0Fu8 == 1u8) by (bit_vector);
        }
        if ((data & 0xF) + (1u8 & 0xF)) & 0x10 == 0x10 {
            self.registers.set_halfcarry(1);
        } else {
            self.registers.set_halfcarry(0);
        }
        data += 1;
        if data == 0 {
            self.registers.set_zero(1);
        } else {
            self.registers.set_zero(0);
        }
        self.registers.set_addsub(0);
        data
    }

    fn dec(&mut self, data: u8) -> (r: u8)
        requires
            alu::dec_ok(data),
        ensures
            final(self)@ == old(self)@.with_regs(alu::dec(old(self).registers, data).0),
            r == alu::dec(old(self).registers, data).1,
    {
        let mut data = data;
        if data & 0xF == 0 {
            self.registers.set_halfcarry(1);
        } else {
            self.registers.set_halfcarry(0);
        }
        data -= 1;
        if data == 0 {
            self.registers.set_zero(1);
        } else {
            self.registers.set_zero(0);
        }
        self.registers.set_addsub(1);
        data
    }

    fn add_hl(&mut self, data: u16)
        requires
            alu::add_hl_ok(old(self).registers, data),
        ensures
            final(self)@ == old(self)@.with_regs(alu::add_hl(old(self).registers, data)),
    {
        let hl = self.registers.hl();
        proof {
            lemma_high_nibble16(hl);
            lemma_high_nibble16(data);
        }
        if ((hl & 0xF0) + (data & 0xF0)) & 0x100 == 0x100 {
            self.registers.set_halfcarry(1);
        } else {
            self.registers.set_halfcarry(0);
        }
        if data as u32 + self.registers.a as u32 > 0xFFFF {
            self.registers.set_carry(1);
        } else {
            self.registers.set_carry(0);
        }
        let hl = self.registers.hl();
        self.registers.set_hl(hl + data);
        self.registers.set_addsub(0);
    }

    fn add_sp(&mut self, data: u16)
        requires
            alu::add_sp_ok(old(self).registers, data),
        ensures
            final(self)@ == old(self)@.with_regs(alu::add_sp(old(self).registers, data)),
    {
        proof {
            lemma_high_nibble16(self.registers.sp);
            lemma_high_nibble16(data);
        }
        if ((self.registers.sp & 0xF0) + (data as u16 & 0xF0)) & 0x100 == 0x100 {
            self.registers.set_halfcarry(1);
        } else {
            self.registers.set_halfcarry(0);
        }
        if data as u32 + self.registers.sp as u32 > 0xFFFF {
            self.registers.set_carry(1);
        } else {
            self.registers.set_carry(0);
        }
        self.registers.sp += data as u16;
        self.registers.set_zero(0);
        self.registers.set_addsub(0);
    }
}

impl Cpu {
    fn rrca(&mut self)
        ensures
            final(self)@ == old(self)@.with_regs(alu::rrca(old(self).registers)),
    {
        let new_carry = self.registers.a & 1u8;
        proof {
            lemma_rotate_right(self.registers.a);
        }
        self.registers.a = self.registers.a >> 1;
        self.registers.a |= new_carry << 7;
        self.registers.set_zero(0);
        self.registers.set_carry(new_carry);
        self.registers.set_halfcarry(0);
        self.registers.set_addsub(0);
    }

    fn rra(&mut self)
        ensures
            final(self)@ == old(self)@.with_regs(alu::rra(old(self).registers)),
    {
        let old_carry: u8 = if self.registers.check_carry() {
            1u8
        } else {
            0u8
        };
        let new_carry = self.registers.a & 1u8;
        self.registers.a = self.registers.a >> 1;
        self.registers.a |= old_carry << 7;
        self.registers.set_zero(0);
        self.registers.set_carry(new_carry);
        self.registers.set_halfcarry(0);
        self.registers.set_addsub(0);
    }

    fn rlca(&mut self)
        ensures
            final(self)@ == old(self)@.with_regs(alu::rlca(old(self).registers)),
    {
        let new_carry = self.registers.a >> 7;
        self.registers.a = self.registers.a << 1;
        self.registers.a |= new_carry;
        self.registers.set_zero(0);
        self.registers.set_carry(new_carry);
        self.registers.set_halfcarry(0);
        self.registers.set_addsub(0);
    }

    fn rla(&mut self)
        ensures
            final(self)@ == old(self)@.with_regs(alu::rla(old(self).registers)),
    {
        let old_carry: u8 = if self.registers.check_carry() {
            1u8
        } else {
            0u8
        };
        let new_carry = self.registers.a >> 7;
        self.registers.a = self.registers.a << 1;
        self.registers.a |= old_carry;
        self.registers.set_zero(0);
        self.registers.set_carry(new_carry);
        self.registers.set_halfcarry(0);
        self.registers.set_addsub(0);
    }

    fn rlc(&mut self, data: u8) -> (r: u8)
        ensures
            final(self)@ == old(self)@.with_regs(alu::rlc(old(self).registers, data).0),
            r == alu::rlc(old(self).registers, data).1,
    {
        let mut data = data;
        let new_carry = data >> 7;
        data = data << 1;
        data |= new_carry;
        if data == 0 {
            self.registers.set_zero(1);
        } else {
            self.registers.set_zero(0);
        }
        self.registers.set_carry(new_carry);
        self.registers.set_halfcarry(0);
        self.registers.set_addsub(0);
        data
    }

    fn rl(&mut self, data: u8) -> (r: u8)
        ensures
            final(self)@ == old(self)@.with_regs(alu::rl(old(self).registers, data).0),
            r == alu::rl(old(self).registers, data).1,
    {
        let mut data = data;
        let old_carry: u8 = if self.registers.check_carry() {
            1u8
        } else {
            0u8
        };
        let new_carry = data >> 7;
        data = data << 1;
        data |= old_carry;
        if data == 0 {
            self.registers.set_zero(1);
        } else {
            self.registers.set_zero(0);
        }
        self.registers.set_carry(new_carry);
        self.registers.set_halfcarry(0);
        self.registers.set_addsub(0);
        data
    }

    fn rrc(&mut self, data: u8) -> (r: u8)
        ensures
            final(self)@ == old(self)@.with_regs(alu::rrc(old(self).registers, data).0),
            r == alu::rrc(old(self).registers, data).1,
    {
        let mut data = data;
        let new_carry = data & 1u8;
        proof {
            lemma_rotate_right(data);
        }
        data = data >> 1;
        data |= new_carry << 7;
        if data == 0 {
            self.registers.set_zero(1);
        } else {
            self.registers.set_zero(0);
        }
        self.registers.set_carry(new_carry);
        self.registers.set_halfcarry(0);
        self.registers.set_addsub(0);
        data
    }

    fn rr(&mut self, data: u8) -> (r: u8)
        ensures
            final(self)@ == old(self)@.with_regs(alu::rr(old(self).registers, data).0),
            r == alu::rr(old(self).registers, data).1,
    {
        let mut data = data;
        let old_carry: u8 = if self.registers.check_carry() {
            1u8
        } else {
            0u8
        };
        let new_carry = data & 1u8;
        data = data >> 1;
        data |= old_carry << 7;
        if data == 0 {
            self.registers.set_zero(1);
        } else {
            self.registers.set_zero(0);
        }
        self.registers.set_carry(new_carry);
        self.registers.set_halfcarry(0);
        self.registers.set_addsub(0);
        data
    }

    //set carry flag
    fn scf(&mut self)
        ensures
            final(self)@ == old(self)@.with_regs(alu::scf(old(self).registers)),
    {
        self.registers.set_carry(1u8);
        self.registers.set_halfcarry(0);
        self.registers.set_addsub(0);
    }

    //Complement carry flag, reset h and n flags
    fn ccf(&mut self)
        ensures
            final(self)@ == old(self)@.with_regs(alu::ccf(old(self).registers)),
    {
        let cf = self.registers.check_carry();
        if cf {
            self.registers.set_carry(0);
        } else {
            self.registers.set_carry(1);
        }
        self.registers.set_halfcarry(0);
        self.registers.set_addsub(0);
    }

    //complement A register
    fn cpl(&mut self)
        ensures
            final(self)@ == old(self)@.with_regs(alu::cpl(old(self).registers)),
    {
        self.registers.a = !self.registers.a;
        self.registers.set_halfcarry(1);
        self.registers.set_addsub(1);
    }

    fn swap(&mut self, data: u8) -> (r: u8)
        ensures
            final(self)@ == old(self)@.with_regs(alu::swap(old(self).registers, data).0),
            r == alu::swap(old(self).registers, data).1,
    {
        let lower = (data & 0xF0) >> 4;
        let upper = (data & 0x0F) << 4;
        let swapped: u8 = upper | lower;
        if swapped == 0 {
            self.registers.set_zero(1);
        } else {
            self.registers.set_zero(0);
        }
        self.registers.set_addsub(0);
        self.registers.set_carry(0);
        self.registers.set_halfcarry(0);
        swapped
    }

    //shift n left into Carry, LSB set to 0
    fn sla(&mut self, data: u8) -> (r: u8)
        ensures
            final(self)@ == old(self)@.with_regs(alu::sla(old(self).registers, data).0),
            r == alu::sla(old(self).registers, data).1,
            r == (data * 2) % 256,
    {
        proof {
            alu::law_shift_arithmetic(self.registers, data);
        }
        let mut data = data;
        let new_carry = (data & (1u8 << 7)) >> 7;
        data = data << 1;
        if data == 0 {
            self.registers.set_zero(1);
        } else {
            self.registers.set_zero(0);
        }
        self.registers.set_carry(new_carry);
        self.registers.set_addsub(0);
        self.registers.set_halfcarry(0);
        data
    }

    //shift n right into Carry. MSB doesn't change
    fn sra(&mut self, data: u8) -> (r: u8)
        ensures
            final(self)@ == old(self)@.with_regs(alu::sra(old(self).registers, data).0),
            r == alu::sra(old(self).registers, data).1,
    {
        let mut data = data;
        let msb = data & 0x80;
        let new_carry = data & 1u8;
        data = data >> 1;
        data |= msb;
        if data == 0 {
            self.registers.set_zero(1);
        } else {
            self.registers.set_zero(0);
        }
        self.registers.set_carry(new_carry);
        self.registers.set_addsub(0);
        self.registers.set_halfcarry(0);
        data
    }

    //shift n right into Carry. MSB=0
    fn srl(&mut self, data: u8) -> (r: u8)
        ensures
            final(self)@ == old(self)@.with_regs(alu::srl(old(self).registers, data).0),
            r == alu::srl(old(self).registers, data).1,
    {
        let mut data = data;
        let new_carry = data & 1u8;
        data = data >> 1;
        if data == 0 {
            self.registers.set_zero(1);
        } else {
            self.registers.set_zero(0);
        }
        self.registers.set_carry(new_carry);
        self.registers.set_addsub(0);
        self.registers.set_halfcarry(0);
        data
    }

    //check if bit is zero
    fn check_bit(&mut self, data: u8, bit: u8)
        requires
            bit < 8,
        ensures
            final(self)@ == old(self)@.with_regs(alu::check_bit(old(self).registers, data, bit)),
    {
        let result = data & (1u8 << bit);
        if result == 0 {
            self.registers.set_zero(1);
        } else {
            self.registers.set_zero(0);
        }
        self.registers.set_addsub(0);
        self.registers.set_halfcarry(1);
    }
}

impl Cpu {
    /// Executes the prefixed (0xCB) instruction `opcode` and returns its
    /// cycles. The low three bits of the opcode select the operand (b, c, d,
    /// e, h, l, (hl), a), the rest the operation: 0x00-0x3F RLC, RRC, RL, RR,
    /// SLA, SRA, SWAP, SRL; 0x40-0x7F test, 0x80-0xBF reset, 0xC0-0xFF set
    /// bit `(opcode / 8) % 8`. Register operands take 2 cycles, (hl) takes 4.
    fn cb_decode(&mut self, opcode: u8) -> (cycles: u8)
        requires
            old(self).wf(),
        ensures
            final(self).wf(),
            (final(self)@, cycles) == cb_op(old(self)@, opcode),
            old(self)@.memory.vram.tiles_decoded() ==> final(self)@.memory.vram.tiles_decoded(),
    {
        let i = opcode % 8;
        let bit = (opcode / 8) % 8;
        let cycles: u8 = if i == 6 {
            4
        } else {
            2
        };
        let v = self.get_r8(i);
        if opcode < 0x40 {
            let result = match opcode / 8 {
                //RLC n - rotate n left. old bit 7 to carry flag
                0 => self.rlc(v),
                //RRC n - rotate n right, old bit 0 to carry flag
                1 => self.rrc(v),
                //RL n - rotate n left through carry flag
                2 => self.rl(v),
                //RR n - rotate n right through carry flag
                3 => self.rr(v),
                //SLA n - shift n left into carry flag, LSB=0
                4 => self.sla(v),
                //SRA n - shift n right into carry flag. MSB doesn't change
                5 => self.sra(v),
                //SWAP upper and lower nibbles of n
                6 => self.swap(v),
                //SRL n - shift n right into carry flag. MSB=0
                _ => self.srl(v),
            };
            self.set_r8(i, result);
        } else if opcode < 0x80 {
            //Test bit
            self.check_bit(v, bit);
        } else if opcode < 0xC0 {
            //Reset bit
            self.set_r8(i, v & !(1u8 << bit));
        } else {
            //Set bit
            self.set_r8(i, v | (1u8 << bit));
        }
        cycles
    }

    /// The 8-bit arithmetic or logic operation `kind` (0 ADD, 1 ADC, 2 SUB,
    /// 3 SBC, 4 AND, 5 XOR, 6 OR, 7 CP) on operand `v`.
    fn alu(&mut self, kind: u8, v: u8)
        requires
            alu_op(old(self)@, kind, v) is Some,
        ensures
            alu_op(old(self)@, kind, v) == Some(final(self)@),
    {
        match kind {
            0 => self.add8(v),
            1 => self.add8_carry(v),
            2 => self.sub8(v),
            3 => self.sub8_carry(v),
            4 => self.and(v),
            5 => self.xor(v),
            6 => self.or(v),
            _ => self.cmp(v),
        }
    }
}

impl Cpu {
    /// Executes an instruction outside the regular blocks of the opcode
    /// table, whose opcode has been read, and returns its cycles.
    fn exec_misc(&mut self, opcode: u8) -> (cycles: u8)
        requires
            old(self).wf(),
            !(0x40 <= opcode <= 0xBF),
            misc_op(old(self)@, opcode) is Some,
        ensures
            final(self).wf(),
            misc_op(old(self)@, opcode) == Some((final(self)@, cycles)),
            old(self)@.memory.vram.tiles_decoded() ==> final(self)@.memory.vram.tiles_decoded(),
    {
        if opcode < 0x20 {
            self.exec_misc_00(opcode)
        } else if opcode < 0x40 {
            self.exec_misc_20(opcode)
        } else if opcode < 0xD0 {
            self.exec_misc_c0(opcode)
        } else if opcode < 0xE0 {
            self.exec_misc_d0(opcode)
        } else {
            self.exec_misc_e0(opcode)
        }
    }

    /// Executes an instruction of 0x00-0x1F outside the regular blocks of the
    /// opcode table, whose opcode has been read, and returns its cycles.
    #[verifier::spinoff_prover]
    #[verifier::rlimit(30)]
    fn exec_misc_00(&mut self, opcode: u8) -> (cycles: u8)
        requires
            old(self).wf(),
            opcode < 0x20,
            misc_op(old(self)@, opcode) is Some,
        ensures
            final(self).wf(),
            misc_op(old(self)@, opcode) == Some((final(self)@, cycles)),
            old(self)@.memory.vram.tiles_decoded() ==> final(self)@.memory.vram.tiles_decoded(),
    {
        match opcode {
            //NOP
            0x00 => 1,
            //16 bit loads
            0x01 => {
                let word = self.next_word();
                self.registers.set_bc(word);
                3
            },
            0x11 => {
                let word = self.next_word();
                self.registers.set_de(word);
                3
            },
            //write value of a to memory
            0x02 => {
                let address = self.registers.bc();
                self.memory.write_byte(address, self.registers.a);
                2
            },
            0x12 => {
                let address = self.registers.de();
                self.memory.write_byte(address, self.registers.a);
                2
            },
            0x0A => {
                self.registers.a = self.memory.read_byte(self.registers.bc());
                2
            },
            0x1A => {
                self.registers.a = self.memory.read_byte(self.registers.de());
                2
            },
            //INC register nn
            0x03 => {
                let word = self.registers.bc() + 1;
                self.registers.set_bc(word);
                2
            },
            0x13 => {
                let word = self.registers.de() + 1;
                self.registers.set_de(word);
                2
            },
            //DEC register nn
            0x0B => {
                let word = self.registers.bc() - 1;
                self.registers.set_bc(word);
                2
            },
            0x1B => {
                let word = self.registers.de() - 1;
                self.registers.set_de(word);
                2
            },
            //RLCA - rotate A left. old bit 7 to carry flag
            0x07 => {
                self.rlca();
                1
            },
            //RRCA - rotate A right. old bit 0 to Carry flag
            0x0F => {
                self.rrca();
                1
            },
            //RLA - rotate A left through Carry flag
            0x17 => {
                self.rla();
                1
            },
            //RRA - rotate A right through Carry flag
            0x1F => {
                self.rra();
                1
            },
            0x08 => {
                let word = self.next_word();
                self.memory.write_word(word, self.registers.sp);
                5
            },
            //Add to HL
            0x09 => {
                let data = self.registers.bc();
                self.add_hl(data);
                2
            },
            0x19 => {
                let data = self.registers.de();
                self.add_hl(data);
                2
            },
            //STOP -halt cpu and lcd display until button pressed
            0x10 => {
                self.stopped = true;
                1
            },
            //JR n - add n to current address and jump to it
            0x18 => {
                let offset = self.next_byte();
                self.registers.pc += offset as u16;
                2
            },
            //This opcode has not been implemented
            _ => {
                self.unknown_opcode = Some(opcode);
                1
            },

        }
    }

    /// Executes an instruction of 0x20-0x3F outside the regular blocks of the
    /// opcode table, whose opcode has been read, and returns its cycles.
    #[verifier::spinoff_prover]
    #[verifier::rlimit(30)]
    fn exec_misc_20(&mut self, opcode: u8) -> (cycles: u8)
        requires
            old(self).wf(),
            0x20 <= opcode < 0x40,
            misc_op(old(self)@, opcode) is Some,
        ensures
            final(self).wf(),
            misc_op(old(self)@, opcode) == Some((final(self)@, cycles)),
            old(self)@.memory.vram.tiles_decoded() ==> final(self)@.memory.vram.tiles_decoded(),
    {
        match opcode {
            0x21 => {
                let word = self.next_word();
                self.registers.set_hl(word);
                3
            },
            0x31 => {
                self.registers.sp = self.next_word();
                3
            },
            0x23 => {
                let word = self.registers.hl() + 1;
                self.registers.set_hl(word);
                2
            },
            0x33 => {
                self.registers.sp += 1;
                2
            },
            0x2B => {
                let word = self.registers.hl() - 1;
                self.registers.set_hl(word);
                2
            },
            0x3B => {
                self.registers.sp -= 1;
                2
            },
            0x29 => {
                let data = self.registers.hl();
                self.add_hl(data);
                2
            },
            0x39 => {
                let data = self.registers.sp;
                self.add_hl(data);
                2
            },
            //JR cc,n - add n to current address and jump if flag is set
            0x20 => {
                if !self.registers.check_zero() {
                    let offset = self.next_byte();
                    self.registers.pc += offset as u16;
                }
                2
            },
            0x28 => {
                if self.registers.check_zero() {
                    let offset = self.next_byte();
                    self.registers.pc += offset as u16;
                }
                2
            },
            0x30 => {
                if !self.registers.check_carry() {
                    let offset = self.next_byte();
                    self.registers.pc += offset as u16;
                }
                2
            },
            0x38 => {
                if self.registers.check_carry() {
                    let offset = self.next_byte();
                    self.registers.pc += offset as u16;
                }
                2
            },
            //LD (HLI), A
            0x22 => {
                let address = self.registers.hl();
                self.memory.write_byte(address, self.registers.a);
                self.registers.set_hl(address + 1);
                2
            },
            //LD A, (HLI)
            0x2A => {
                let address = self.registers.hl();
                self.registers.a = self.memory.read_byte(address);
                self.registers.set_hl(address + 1);
                2
            },
            //LD (HLD), A
            0x32 => {
                let address = self.registers.hl();
                self.memory.write_byte(address, self.registers.a);
                self.registers.set_hl(address - 1);
                2
            },
            //LD A,(HLD)
            0x3A => {
                let address = self.registers.hl();
                self.registers.a = self.memory.read_byte(address);
                self.registers.set_hl(address - 1);
                2
            },
            //Decimal adjust register A: reads the flags and changes nothing
            0x27 => {
                self.registers.check_halfcarry();
                self.registers.check_addsub();
                1
            },
            //CPL Register A
            0x2F => {
                self.cpl();
                1
            },
            //SCF
            0x37 => {
                self.scf();
                1
            },
            //CCF
            0x3F => {
                self.ccf();
                1
            },
            //This opcode has not been implemented
            _ => {
                self.unknown_opcode = Some(opcode);
                1
            },

        }
    }

    /// Executes an instruction of 0xC0-0xCF outside the regular blocks of the
    /// opcode table, whose opcode has been read, and returns its cycles.
    #[verifier::spinoff_prover]
    #[verifier::rlimit(30)]
    fn exec_misc_c0(&mut self, opcode: u8) -> (cycles: u8)
        requires
            old(self).wf(),
            0xC0 <= opcode < 0xD0,
            misc_op(old(self)@, opcode) is Some,
        ensures
            final(self).wf(),
            misc_op(old(self)@, opcode) == Some((final(self)@, cycles)),
            old(self)@.memory.vram.tiles_decoded() ==> final(self)@.memory.vram.tiles_decoded(),
    {
        match opcode {
            //RET cc: pop the return address, then jump to the word there
            0xC0 => {
                if !self.registers.check_zero() {
                    self.registers.pc = self.pop_word();
                    self.registers.pc = self.next_word();
                }
                2
            },
            0xC8 => {
                if self.registers.check_zero() {
                    self.registers.pc = self.pop_word();
                    self.registers.pc = self.next_word();
                }
                2
            },
            //POP nn
            0xC1 => {
                let word = self.pop_word();
                self.registers.set_bc(word);
                3
            },
            //JP to nn if coniditon is true
            0xC2 => {
                if !self.registers.check_zero() {
                    self.registers.pc = self.next_word();
                }
                3
            },
            0xCA => {
                if self.registers.check_zero() {
                    self.registers.pc = self.next_word();
                }
                3
            },
            //JP nn
            0xC3 => {
                self.registers.pc = self.next_word();
                3
            },
            //Call nn if condition is true
            0xC4 => {
                if !self.registers.check_zero() {
                    let word = self.next_word();
                    self.push_word(self.registers.pc);
                    self.registers.pc = word;
                }
                3
            },
            0xCC => {
                if self.registers.check_zero() {
                    let word = self.next_word();
                    self.push_word(self.registers.pc);
                    self.registers.pc = word;
                }
                3
            },
            //Call nn, push address of next instruction onto stack, then jump to nn
            0xCD => {
                let word = self.next_word();
                self.push_word(self.registers.pc);
                self.registers.pc = word;
                3
            },
            //PUSH nn
            0xC5 => {
                let word = self.registers.bc();
                self.push_word(word);
                4
            },
            //RET
            0xC9 => {
                self.registers.pc = self.pop_word();
                2
            },
            //CB prefix
            0xCB => {
                let byte = self.next_byte();
                self.cb_decode(byte) + 1
            },
            //This opcode has not been implemented
            _ => {
                self.unknown_opcode = Some(opcode);
                1
            },


        }
    }

    /// Executes an instruction of 0xD0-0xDF outside the regular blocks of the
    /// opcode table, whose opcode has been read, and returns its cycles.
    #[verifier::spinoff_prover]
    #[verifier::rlimit(30)]
    fn exec_misc_d0(&mut self, opcode: u8) -> (cycles: u8)
        requires
            old(self).wf(),
            0xD0 <= opcode < 0xE0,
            misc_op(old(self)@, opcode) is Some,
        ensures
            final(self).wf(),
            misc_op(old(self)@, opcode) == Some((final(self)@, cycles)),
            old(self)@.memory.vram.tiles_decoded() ==> final(self)@.memory.vram.tiles_decoded(),
    {
        match opcode {
            0xD0 => {
                if !self.registers.check_carry() {
                    self.registers.pc = self.pop_word();
                    self.registers.pc = self.next_word();
                }
                2
            },
            0xD8 => {
                if self.registers.check_carry() {
                    self.registers.pc = self.pop_word();
                    self.registers.pc = self.next_word();
                }
                2
            },
            0xD1 => {
                let word = self.pop_word();
                self.registers.set_de(word);
                3
            },
            0xD2 => {
                if !self.registers.check_carry() {
                    self.registers.pc = self.next_word();
                }
                3
            },
            0xDA => {
                if self.registers.check_carry() {
                    self.registers.pc = self.next_word();
                }
                3
            },
            0xD4 => {
                if !self.registers.check_carry() {
                    let word = self.next_word();
                    self.push_word(self.registers.pc);
                    self.registers.pc = word;
                }
                3
            },
            0xDC => {
                if self.registers.check_carry() {
                    let word = self.next_word();
                    self.push_word(self.registers.pc);
                    self.registers.pc = word;
                }
                3
            },
            0xD5 => {
                let word = self.registers.de();
                self.push_word(word);
                4
            },
            //RETI - pop two bytes and jump to address, enable interrupts
            0xD9 => {
                self.registers.pc = self.pop_word();
                self.interrupts_enabled = true;
                2
            },
            //This opcode has not been implemented
            _ => {
                self.unknown_opcode = Some(opcode);
                1
            },


        }
    }

    /// Executes an instruction of 0xE0-0xFF outside the regular blocks of the
    /// opcode table, whose opcode has been read, and returns its cycles.
    #[verifier::spinoff_prover]
    #[verifier::rlimit(30)]
    fn exec_misc_e0(&mut self, opcode: u8) -> (cycles: u8)
        requires
            old(self).wf(),
            0xE0 <= opcode,
            misc_op(old(self)@, opcode) is Some,
        ensures
            final(self).wf(),
            misc_op(old(self)@, opcode) == Some((final(self)@, cycles)),
            old(self)@.memory.vram.tiles_decoded() ==> final(self)@.memory.vram.tiles_decoded(),
    {
        match opcode {
            0xE1 => {
                let word = self.pop_word();
                self.registers.set_hl(word);
                3
            },
            0xF1 => {
                let word = self.pop_word();
                self.registers.set_af(word);
                3
            },
            0xE5 => {
                let word = self.registers.hl();
                self.push_word(word);
                4
            },
            0xF5 => {
                let word = self.registers.af();
                self.push_word(word);
                4
            },
            //LDH (n), A
            0xE0 => {
                let byte = self.next_byte();
                self.memory.write_byte(0xFF00 + byte as u16, self.registers.a);
                3
            },
            //LD (C), A
            0xE2 => {
                self.memory.write_byte(0xFF00 + self.registers.c as u16, self.registers.a);
                2
            },
            //Add to SP
            0xE8 => {
                let byte = self.next_byte();
                self.add_sp(byte as u16);
                4
            },
            //JP to address contained in HL
            0xE9 => {
                self.registers.pc = self.registers.hl();
                1
            },
            0xEA => {
                let word = self.next_word();
                self.memory.write_byte(word, self.registers.a);
                4
            },
            //LDH A, (n)
            0xF0 => {
                let byte = self.next_byte();
                self.registers.a = self.memory.read_byte(0xFF00 + byte as u16);
                3
            },
            //LD A,(C)
            0xF2 => {
                self.registers.a = self.memory.read_byte(0xFF00 + self.registers.c as u16);
                2
            },
            //DI
            0xF3 => {
                self.interrupts_enabled = false;
                1
            },
            //EI
            0xFB => {
                self.interrupts_enabled = true;
                1
            },
            0xF8 => {
                let byte = self.next_byte();
                self.registers.set_hl(self.registers.sp + byte as u16);
                3
            },
            0xF9 => {
                self.registers.sp = self.registers.hl();
                2
            },
            0xFA => {
                let word = self.next_word();
                self.registers.a = self.memory.read_byte(word);
                4
            },
            //This opcode has not been implemented
            _ => {
                self.unknown_opcode = Some(opcode);
                1
            },

        }
    }

    /// The load block 0x40-0x7F: `r1 = r2` over b, c, d, e, h, l, (hl), a;
    /// 0x76 is HALT.
    fn exec_load(&mut self, opcode: u8) -> (cycles: u8)
        requires
            old(self).wf(),
            0x40 <= opcode <= 0x7F,
        ensures
            final(self).wf(),
            exec_op(old(self)@, opcode) == Some((final(self)@, cycles)),
            old(self)@.memory.vram.tiles_decoded() ==> final(self)@.memory.vram.tiles_decoded(),
    {
        if opcode == 0x76 {
            //HALT - power down cpu until interrupt occurs
            self.halted = true;
            1
        } else {
            //put value r2 into r1
            let d = (opcode - 0x40) / 8;
            let i = opcode % 8;
            let v = self.get_r8(i);
            self.set_r8(d, v);
            if d == 6 || i == 6 {
                2
            } else {
                1
            }
        }
    }

    /// The arithmetic block 0x80-0xBF: add, add with carry, subtract,
    /// subtract with carry, and, xor, or, compare.
    fn exec_alu(&mut self, opcode: u8) -> (cycles: u8)
        requires
            old(self).wf(),
            0x80 <= opcode <= 0xBF,
            exec_op(old(self)@, opcode) is Some,
        ensures
            final(self).wf(),
            exec_op(old(self)@, opcode) == Some((final(self)@, cycles)),
            old(self)@.memory.vram.tiles_decoded() ==> final(self)@.memory.vram.tiles_decoded(),
    {
        let kind = (opcode - 0x80) / 8;
        let slot = opcode % 8;
        let i = if (kind == 5 || kind == 7) && slot == 0 {
            7
        } else if (kind == 5 || kind == 7) && slot == 7 {
            0
        } else {
            slot
        };
        let v = self.get_r8(i);
        self.alu(kind, v);
        if i == 6 {
            2
        } else {
            1
        }
    }

    /// INC, DEC and the immediate loads of 0x00-0x3F.
    fn exec_r8_group(&mut self, opcode: u8) -> (cycles: u8)
        requires
            old(self).wf(),
            opcode < 0x40,
            4 <= opcode % 8 <= 6,
            exec_op(old(self)@, opcode) is Some,
        ensures
            final(self).wf(),
            exec_op(old(self)@, opcode) == Some((final(self)@, cycles)),
            old(self)@.memory.vram.tiles_decoded() ==> final(self)@.memory.vram.tiles_decoded(),
    {
        let d = opcode / 8;
        if opcode % 8 == 4 {
            //INC register n
            let v = self.get_r8(d);
            let x = self.inc(v);
            self.set_r8(d, x);
            if d == 6 {
                3
            } else {
                1
            }
        } else if opcode % 8 == 5 {
            //DEC register n
            let v = self.get_r8(d);
            let x = self.dec(v);
            self.set_r8(d, x);
            if d == 6 {
                3
            } else {
                1
            }
        } else {
            //load n with immediate 8 bit value
            let byte = self.next_byte();
            self.set_r8(d, byte);
            if d == 6 {
                3
            } else {
                2
            }
        }
    }

    /// The arithmetic with an immediate operand and the restarts of 0xC0-0xFF.
    fn exec_immediate_or_restart(&mut self, opcode: u8) -> (cycles: u8)
        requires
            old(self).wf(),
            opcode >= 0xC0,
            opcode % 8 >= 6,
            exec_op(old(self)@, opcode) is Some,
        ensures
            final(self).wf(),
            exec_op(old(self)@, opcode) == Some((final(self)@, cycles)),
            old(self)@.memory.vram.tiles_decoded() ==> final(self)@.memory.vram.tiles_decoded(),
    {
        if opcode % 8 == 6 {
            //8 bit ALU with an immediate operand
            let byte = self.next_byte();
            self.alu((opcode - 0xC0) / 8, byte);
            2
        } else {
            //Restarts - push present address to stack, jump to $0000 + x
            self.push_word(self.registers.pc);
            self.registers.pc = (opcode - 0xC7) as u16;
            8
        }
    }

    /// Executes the instruction at the program counter and returns the
    /// cycles it took.
    #[verifier::spinoff_prover]
    #[verifier::rlimit(30)]
    pub fn cycle(&mut self) -> (cycles: u8)
        requires
            old(self).wf(),
            cycle_result(old(self)@) is Some,
        ensures
            final(self).wf(),
            cycle_result(old(self)@) == Some((final(self)@, cycles)),
            old(self)@.memory.vram.tiles_decoded() ==> final(self)@.memory.vram.tiles_decoded(),
    {
        proof {
            reveal(cycle_result);
        }
        self.unknown_opcode = None;
        let opcode = self.next_byte();
        let cycles: u8 = if 0x40 <= opcode && opcode <= 0x7F {
            self.exec_load(opcode)
        } else if 0x80 <= opcode && opcode <= 0xBF {
            self.exec_alu(opcode)
        } else if opcode < 0x40 && 4 <= opcode % 8 && opcode % 8 <= 6 {
            self.exec_r8_group(opcode)
        } else if opcode >= 0xC0 && opcode % 8 >= 6 {
            self.exec_immediate_or_restart(opcode)
        } else {
            self.exec_misc(opcode)
        };
        cycles
    }
}

/// The machine state before the instruction of an emulation step: the boot
/// program is unmapped once the program counter reaches 0x100.
pub open spec fn unmap_bios(s: CpuView) -> CpuView {
    if s.memory.bios_flag && s.registers.pc == 0x100 {
        CpuView { memory: MemoryView { bios_flag: false, ..s.memory }, ..s }
    } else {
        s
    }
}

/// The state after one step of the emulation loop, and whether a frame is
/// ready to be shown: one instruction is executed and its cycles are given
/// to the LCD (see `VramView::advance`).
pub open spec fn emulate_step_result(s: CpuView) -> Option<(CpuView, bool)> {
    let s1 = unmap_bios(s);
    match cycle_result(s1) {
        Some((s2, c)) => match s2.memory.vram.advance(c) {
            Some((v, ready)) => Some((CpuView { memory: MemoryView { vram: v, ..s2.memory }, ..s2 }, ready)),
            None => None,
        },
        None => None,
    }
}

impl Cpu {
    /// One step of the emulation loop (see `emulate_step_result`); returns
    /// whether a frame is ready to be shown.
    pub fn emulate_step(&mut self) -> (frame_ready: bool)
        requires
            old(self).wf(),
            emulate_step_result(old(self)@) is Some,
        ensures
            final(self).wf(),
            emulate_step_result(old(self)@) == Some((final(self)@, frame_ready)),
            old(self)@.memory.vram.tiles_decoded() ==> final(self)@.memory.vram.tiles_decoded(),
    {
        let ghost s0 = self@;
        if self.memory.bios_flag && (self.registers.pc == 0x100) {
            self.memory.bios_flag = false;
        }
        assert(self@ =~= unmap_bios(s0));
        let cycles = self.cycle();
        let ghost s2 = self@;
        let frame_ready = self.memory.vram.advance(cycles);
        assert(self@ =~= (CpuView { memory: MemoryView { vram: self.memory.vram@, ..s2.memory }, ..s2 }));
        frame_ready
    }
}

/// Every instruction takes between 1 and 8 cycles.
pub proof fn law_cycle_counts(s: CpuView)
    requires
        cycle_result(s) is Some,
    ensures
        1 <= cycle_result(s).unwrap().1 <= 8,
{
    reveal(cycle_result);
}

/// A pop after a push gives back the pushed word and moves the stack
/// pointer back where it was (where neither byte of the pushed word is
/// shadowed by the boot program, the joypad register or the scan row).
pub proof fn law_push_then_pop(s: CpuView, data: u16)
    requires
        s.wf(),
        s.push_ok(),
        holds_written_byte(s.memory, (s.registers.sp - 2) as u16),
        holds_written_byte(s.memory, (s.registers.sp - 1) as u16),
    ensures
        s.push(data).pop_ok(),
        s.push(data).popped() == data,
        s.push(data).after_pop().registers.sp == s.registers.sp,
{
    law_word_round_trip(s.memory, (s.registers.sp - 2) as u16, data);
}

proof fn lemma_alu_op_low_bits(s: CpuView, kind: u8, v: u8)
    requires
        alu_op(s, kind, v) is Some,
        s.registers.f & 0x0Fu8 == 0,
    ensures
        alu_op(s, kind, v).unwrap().registers.f & 0x0Fu8 == 0,
{
    broadcast use crate::register::lemma_with_flag_keeps_low_bits;
}

proof fn lemma_cb_op_low_bits(s: CpuView, op: u8)
    requires
        s.registers.f & 0x0Fu8 == 0,
    ensures
        cb_op(s, op).0.registers.f & 0x0Fu8 == 0,
{
    broadcast use crate::register::lemma_with_flag_keeps_low_bits;
}

#[verifier::spinoff_prover]
#[verifier::rlimit(60)]
proof fn lemma_misc_op_low_bits(s: CpuView, op: u8)
    requires
        misc_op(s, op) is Some,
        s.registers.f & 0x0Fu8 == 0,
    ensures
        misc_op(s, op).unwrap().0.registers.f & 0x0Fu8 == 0,
{
    broadcast use crate::register::lemma_with_flag_keeps_low_bits, crate::register::lemma_upper_nibble;
    if op == 0xCB {
        lemma_cb_op_low_bits(s.after_fetch(), s.fetched());
    }
}

/// Bits 3-0 of the flag register are not used: an instruction run from a
/// state where they are zero leaves them zero.
pub proof fn law_cycle_keeps_flag_low_bits(s: CpuView)
    requires
        cycle_result(s) is Some,
        s.registers.f & 0x0Fu8 == 0,
    ensures
        cycle_result(s).unwrap().0.registers.f & 0x0Fu8 == 0,
{
    reveal(cycle_result);
    let s1 = CpuView { unknown_opcode: None, ..s.after_fetch() };
    let op = s.fetched();
    broadcast use crate::register::lemma_with_flag_keeps_low_bits;
    if 0x80 <= op <= 0xBF {
        let kind = ((op - 0x80) / 8) as u8;
        lemma_alu_op_low_bits(s1, kind, s1.get_r8(crate::instructions::alu_operand(kind, op % 8)));
    } else if op >= 0xC0 && op % 8 == 6 {
        lemma_alu_op_low_bits(s1.after_fetch(), ((op - 0xC0) / 8) as u8, s1.fetched());
    } else if !(0x40 <= op <= 0x7F) && !(op < 0x40 && 4 <= op % 8 <= 6) && !(op >= 0xC0 && op % 8 == 7) {
        lemma_misc_op_low_bits(s1, op);
    }
}

proof fn lemma_rotate_right(x: u8)
    ensures
        (x >> 1u8) | ((x & 1u8) << 7u8) == (x >> 1u8) | (x << 7u8),
{
    assert((x >> 1u8) | ((x & 1u8) << 7u8) == (x >> 1u8) | (x << 7u8)) by (bit_vector);
}

proof fn lemma_high_nibble16(x: u16)
    ensures
        x & 0xF0u16 <= 0xF0,
{
    assert(x & 0xF0u16 <= 0xF0) by (bit_vector);
}

} // verus!
