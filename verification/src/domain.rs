//! Tests for whether the next instruction, and the next emulation step, stay
//! within the range of their integer arithmetic.
use vstd::prelude::*;
use crate::cpu::{Cpu, CpuView, emulate_step_result, unmap_bios};
use crate::gpu::Vram;
use crate::instructions::{alu_op, cycle_result, exec_op, misc_op, jump_relative};
use crate::memory::MemoryView;
use crate::register::{flag_bit, CARRY_FLAG};

verus! {

/// Whether the arithmetic of the 8-bit operation `kind` on `a`, operand `v`
/// and carry flag `carry` stays in range.
fn alu_defined(kind: u8, a: u8, v: u8, carry: bool) -> (r: bool)
    requires
        kind < 8,
    ensures
        forall|s: CpuView|
            s.registers.a == a && flag_bit(s.registers.f, CARRY_FLAG) == carry ==> ((#[trigger] alu_op(s, kind, v))
                is Some) == r,
{
    if kind == 0 {
        a as u16 + v as u16 <= 0xFF
    } else if kind == 1 {
        if carry {
            if a < v {
                a as u16 + 1 + v as u16 <= 0xFF
            } else {
                v < 0xFF && a as u16 + v as u16 + 1 <= 0xFF
            }
        } else {
            a as u16 + v as u16 <= 0xFF
        }
    } else if kind == 2 || kind == 7 {
        v <= a
    } else if kind == 3 {
        if carry {
            a > v || (v >= 1 && v - 1 <= a)
        } else {
            v <= a
        }
    } else {
        true
    }
}

impl Cpu {
    /// Whether a JR with its offset byte at `pc` stays in range.
    fn jump_relative_defined(&self, pc: u16) -> (r: bool)
        requires
            self.wf(),
        ensures
            r == jump_relative(CpuView { unknown_opcode: None, ..self@.with_pc(pc) }) is Some,
    {
        pc < 0xFFFF && (pc + 1) as u32 + self.memory.read_byte(pc) as u32 <= 0xFFFF
    }

    /// Whether instruction `op` stays in range, run from the current state
    /// with the program counter at `pc` (just after the opcode).
    #[verifier::spinoff_prover]
    #[verifier::rlimit(30)]
    fn instruction_defined(&self, op: u8, pc: u16) -> (r: bool)
        requires
            self.wf(),
        ensures
            r == exec_op(CpuView { unknown_opcode: None, ..self@.with_pc(pc) }, op) is Some,
    {
        let ghost s = CpuView { unknown_opcode: None, ..self@.with_pc(pc) };
        let r = &self.registers;
        let carry = r.check_carry();
        if 0x40 <= op && op <= 0x7F {
            true
        } else if 0x80 <= op && op <= 0xBF {
            let kind = (op - 0x80) / 8;
            let slot = op % 8;
            let i = if (kind == 5 || kind == 7) && slot == 0 {
                7
            } else if (kind == 5 || kind == 7) && slot == 7 {
                0
            } else {
                slot
            };
            let v = self.get_r8(i);
            alu_defined(kind, r.a, v, carry)
        } else if op < 0x40 && op % 8 == 4 {
            self.get_r8(op / 8) < 0xFF
        } else if op < 0x40 && op % 8 == 5 {
            self.get_r8(op / 8) > 0
        } else if op < 0x40 && op % 8 == 6 {
            pc < 0xFFFF
        } else if op >= 0xC0 && op % 8 == 6 {
            pc < 0xFFFF && alu_defined((op - 0xC0) / 8, r.a, self.memory.read_byte(pc), carry)
        } else if op >= 0xC0 && op % 8 == 7 {
            r.sp >= 2
        } else {
            self.misc_defined(op, pc)
        }
    }

    /// Whether instruction `op`, outside the regular blocks, stays in range.
    #[verifier::spinoff_prover]
    #[verifier::rlimit(30)]
    fn misc_defined(&self, op: u8, pc: u16) -> (r: bool)
        requires
            self.wf(),
        ensures
            r == misc_op(CpuView { unknown_opcode: None, ..self@.with_pc(pc) }, op) is Some,
    {
        let r = &self.registers;
        let bc = r.bc();
        let de = r.de();
        let hl = r.hl();
        let sp = r.sp;
        match op {
            0x01 | 0x11 | 0x21 | 0x31 | 0xC3 | 0xEA | 0xFA => pc <= 0xFFFD,
            0x08 => pc <= 0xFFFD && self.memory.read_word(pc) < 0xFFFF,
            0x03 => bc < 0xFFFF,
            0x13 => de < 0xFFFF,
            0x23 | 0x22 | 0x2A => hl < 0xFFFF,
            0x33 => sp < 0xFFFF,
            0x0B => bc > 0,
            0x1B => de > 0,
            0x2B | 0x32 | 0x3A => hl > 0,
            0x3B => sp > 0,
            0x09 => hl as u32 + bc as u32 <= 0xFFFF,
            0x19 => hl as u32 + de as u32 <= 0xFFFF,
            0x29 => hl as u32 + hl as u32 <= 0xFFFF,
            0x39 => hl as u32 + sp as u32 <= 0xFFFF,
            0x18 => self.jump_relative_defined(pc),
            0x20 => r.check_zero() || self.jump_relative_defined(pc),
            0x28 => !r.check_zero() || self.jump_relative_defined(pc),
            0x30 => r.check_carry() || self.jump_relative_defined(pc),
            0x38 => !r.check_carry() || self.jump_relative_defined(pc),
            0xC0 | 0xC8 | 0xD0 | 0xD8 => {
                let taken = if op == 0xC0 {
                    !r.check_zero()
                } else if op == 0xC8 {
                    r.check_zero()
                } else if op == 0xD0 {
                    !r.check_carry()
                } else {
                    r.check_carry()
                };
                !taken || (sp <= 0xFFFD && self.memory.read_word(sp) <= 0xFFFD)
            },
            0xC1 | 0xD1 | 0xE1 | 0xF1 | 0xC9 | 0xD9 => sp <= 0xFFFD,
            0xC2 | 0xCA | 0xD2 | 0xDA | 0xC4 | 0xCC | 0xD4 | 0xDC => {
                let cc = if op == 0xC2 || op == 0xC4 {
                    !r.check_zero()
                } else if op == 0xCA || op == 0xCC {
                    r.check_zero()
                } else if op == 0xD2 || op == 0xD4 {
                    !r.check_carry()
                } else {
                    r.check_carry()
                };
                let is_call = op % 8 == 4;
                !cc || (pc <= 0xFFFD && (!is_call || sp >= 2))
            },
            0xCD => pc <= 0xFFFD && sp >= 2,
            0xC5 | 0xD5 | 0xE5 | 0xF5 => sp >= 2,
            0xCB | 0xE0 | 0xF0 => pc < 0xFFFF,
            0xE8 | 0xF8 => pc < 0xFFFF && sp as u32 + self.memory.read_byte(pc) as u32 <= 0xFFFF,
            _ => true,
        }
    }

    /// Whether the instruction at the program counter stays in range (see
    /// `cycle_result`).
    pub fn cycle_defined(&self) -> (r: bool)
        requires
            self.wf(),
        ensures
            r == cycle_result(self@) is Some,
    {
        proof {
            reveal(cycle_result);
        }
        let pc = self.registers.pc;
        if pc == 0xFFFF {
            return false;
        }
        let op = self.memory.read_byte(pc);
        proof {
            assert((CpuView { unknown_opcode: None, ..self@.after_fetch() }) == (CpuView {
                unknown_opcode: None,
                ..self@.with_pc((pc + 1) as u16)
            }));
        }
        self.instruction_defined(op, pc + 1)
    }

    /// One step of the emulation loop where it stays in range (see
    /// `emulate_step_result`): returns whether a frame is ready, or `None`
    /// where the step's arithmetic leaves range, stopping at that point.
    pub fn try_emulate_step(&mut self) -> (r: Option<bool>)
        requires
            old(self).wf(),
        ensures
            final(self).wf(),
            match r {
                Some(frame_ready) => emulate_step_result(old(self)@) == Some((final(self)@, frame_ready)),
                None => emulate_step_result(old(self)@) is None,
            },
    {
        let ghost s0 = self@;
        if self.memory.bios_flag && (self.registers.pc == 0x100) {
            self.memory.bios_flag = false;
        }
        assert(self@ =~= unmap_bios(s0));
        if !self.cycle_defined() {
            return None;
        }
        let cycles = self.cycle();
        let ghost s2 = self@;
        if !self.memory.vram.advance_defined(cycles) {
            return None;
        }
        let frame_ready = self.memory.vram.advance(cycles);
        assert(self@ =~= (CpuView { memory: MemoryView { vram: self.memory.vram@, ..s2.memory }, ..s2 }));
        Some(frame_ready)
    }
}

impl Vram {
    /// Whether giving the LCD `cycles` more clock cycles and a step stays in
    /// range (see `VramView::advance`).
    pub fn advance_defined(&self, cycles: u8) -> (r: bool)
        ensures
            r == self@.advance(cycles) is Some,
    {
        if self.render_mode_cycles as u64 + cycles as u64 > 0xFFFF_FFFF {
            return false;
        }
        let total = self.render_mode_cycles + cycles as u32;
        let mode = self.render_mode;
        let row = self.scan_row;
        if mode == 0 && total >= 51 {
            row < 255
        } else if mode == 1 && total >= 114 {
            row < 255
        } else if mode == 3 && total >= 43 && self.lcd_control.display {
            row < 144
        } else {
            true
        }
    }
}

} // verus!
