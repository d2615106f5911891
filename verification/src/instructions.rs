//! What one instruction does to the machine state.
//!
//! `cycle_result` gives, for a state, the state after the instruction at
//! the program counter and the cycles it takes, or `None` where the
//! instruction's integer arithmetic would leave its range (an increment of
//! 0xFF, a subtraction below zero, a program counter or stack pointer
//! leaving 0..=0xFFFF, and the like).
use vstd::prelude::*;
use crate::alu;
use crate::cpu::CpuView;
use crate::register::{Registers, flag_bit, ZERO_FLAG, CARRY_FLAG};

verus! {

/// The operand of an 8-bit arithmetic or logic instruction `kind` (0 ADD,
/// 1 ADC, 2 SUB, 3 SBC, 4 AND, 5 XOR, 6 OR, 7 CP) in slot `slot` of its row
/// of the opcode table. XOR and CP take `a` in slot 0 and `b` in slot 7.
pub open spec fn alu_operand(kind: u8, slot: u8) -> u8 {
    if (kind == 5 || kind == 7) && slot == 0 {
        7
    } else if (kind == 5 || kind == 7) && slot == 7 {
        0
    } else {
        slot
    }
}

/// The state after the 8-bit arithmetic or logic operation `kind` on operand `v`.
pub open spec fn alu_op(s: CpuView, kind: u8, v: u8) -> Option<CpuView> {
    let r = s.registers;
    if kind == 0 {
        if alu::add8_ok(r, v) { Some(s.with_regs(alu::add8(r, v))) } else { None }
    } else if kind == 1 {
        if alu::add8_carry_ok(r, v) { Some(s.with_regs(alu::add8_carry(r, v))) } else { None }
    } else if kind == 2 {
        if alu::sub8_ok(r, v) { Some(s.with_regs(alu::sub8(r, v))) } else { None }
    } else if kind == 3 {
        if alu::sub8_carry_ok(r, v) { Some(s.with_regs(alu::sub8_carry(r, v))) } else { None }
    } else if kind == 4 {
        Some(s.with_regs(alu::and(r, v)))
    } else if kind == 5 {
        Some(s.with_regs(alu::xor(r, v)))
    } else if kind == 6 {
        Some(s.with_regs(alu::or(r, v)))
    } else {
        if alu::cmp_ok(r, v) { Some(s.with_regs(alu::cmp(r, v))) } else { None }
    }
}

/// The rotate or shift `kind` of the prefixed table (0 RLC, 1 RRC, 2 RL,
/// 3 RR, 4 SLA, 5 SRA, 6 SWAP, 7 SRL) on operand `v`.
pub open spec fn shift_op(r: Registers, kind: u8, v: u8) -> (Registers, u8) {
    if kind == 0 {
        alu::rlc(r, v)
    } else if kind == 1 {
        alu::rrc(r, v)
    } else if kind == 2 {
        alu::rl(r, v)
    } else if kind == 3 {
        alu::rr(r, v)
    } else if kind == 4 {
        alu::sla(r, v)
    } else if kind == 5 {
        alu::sra(r, v)
    } else if kind == 6 {
        alu::swap(r, v)
    } else {
        alu::srl(r, v)
    }
}

/// The state and cycles after the prefixed (0xCB) instruction `op`. The low
/// three bits select the operand (b, c, d, e, h, l, (hl), a); 0x00-0x3F
/// rotate and shift, 0x40-0x7F test, 0x80-0xBF reset, 0xC0-0xFF set bit
/// `(op / 8) % 8`.
pub open spec fn cb_op(s: CpuView, op: u8) -> (CpuView, u8) {
    let i = op % 8;
    let v = s.get_r8(i);
    let cycles: u8 = if i == 6 { 4 } else { 2 };
    let b = ((op / 8) % 8) as u8;
    if op < 0x40 {
        let (r, w) = shift_op(s.registers, (op / 8) as u8, v);
        (s.with_regs(r).set_r8(i, w), cycles)
    } else if op < 0x80 {
        (s.with_regs(alu::check_bit(s.registers, v, b)), cycles)
    } else if op < 0xC0 {
        (s.set_r8(i, v & !(1u8 << b)), cycles)
    } else {
        (s.set_r8(i, v | (1u8 << b)), cycles)
    }
}

/// Whether condition `cc` holds (0 NZ, 1 Z, 2 NC, 3 C).
pub open spec fn condition(r: Registers, cc: u8) -> bool {
    if cc == 0 {
        !flag_bit(r.f, ZERO_FLAG)
    } else if cc == 1 {
        flag_bit(r.f, ZERO_FLAG)
    } else if cc == 2 {
        !flag_bit(r.f, CARRY_FLAG)
    } else {
        flag_bit(r.f, CARRY_FLAG)
    }
}

/// JR: the offset byte is read and added to the program counter.
pub open spec fn jump_relative(s: CpuView) -> Option<CpuView> {
    let s1 = s.after_fetch();
    if s.fetch_ok() && s1.registers.pc + s.fetched() <= 0xFFFF {
        Some(s1.with_pc((s1.registers.pc + s.fetched()) as u16))
    } else {
        None
    }
}

/// JP: the program counter is loaded with the word that follows.
pub open spec fn jump(s: CpuView) -> Option<CpuView> {
    if s.fetch16_ok() {
        Some(s.after_fetch16().with_pc(s.fetched16()))
    } else {
        None
    }
}

/// CALL: the word that follows is read as the target, the address of the
/// next instruction (after that word) is pushed, and the program counter is
/// loaded with the target.
pub open spec fn call(s: CpuView) -> Option<CpuView> {
    let s1 = s.after_fetch16();
    if s.fetch16_ok() && s.push_ok() {
        Some(s1.push(s1.registers.pc).with_pc(s.fetched16()))
    } else {
        None
    }
}

/// Conditional RET: the program counter is popped, then loaded with the
/// word it points to.
pub open spec fn return_and_jump(s: CpuView) -> Option<CpuView> {
    let s1 = s.after_pop().with_pc(s.popped());
    if s.pop_ok() && s1.fetch16_ok() {
        Some(s1.after_fetch16().with_pc(s1.fetched16()))
    } else {
        None
    }
}

/// Adds the cycle count `c` to a state.
pub open spec fn timed(t: Option<CpuView>, c: u8) -> Option<(CpuView, u8)> {
    match t {
        Some(s) => Some((s, c)),
        None => None,
    }
}

/// The state and cycles after the instructions outside the regular blocks
/// of the opcode table, where `s` is the state after the opcode was read.
pub open spec fn misc_op(s: CpuView, op: u8) -> Option<(CpuView, u8)> {
    let r = s.registers;
    let s16 = s.after_fetch16();
    let w = s.fetched16();
    let s8 = s.after_fetch();
    let n = s.fetched();
    if op == 0x00 {
        Some((s, 1))
    } else if op == 0x01 || op == 0x11 || op == 0x21 || op == 0x31 {
        if s.fetch16_ok() {
            let r2 = s16.registers;
            let r3 = if op == 0x01 {
                r2.with_bc(w)
            } else if op == 0x11 {
                r2.with_de(w)
            } else if op == 0x21 {
                r2.with_hl(w)
            } else {
                Registers { sp: w, ..r2 }
            };
            Some((s16.with_regs(r3), 3))
        } else {
            None
        }
    } else if op == 0x02 {
        Some((s.write(r.spec_bc(), r.a), 2))
    } else if op == 0x12 {
        Some((s.write(r.spec_de(), r.a), 2))
    } else if op == 0x0A {
        Some((s.with_regs(Registers { a: s.read(r.spec_bc()), ..r }), 2))
    } else if op == 0x1A {
        Some((s.with_regs(Registers { a: s.read(r.spec_de()), ..r }), 2))
    } else if op == 0x03 {
        if r.spec_bc() < 0xFFFF { Some((s.with_regs(r.with_bc((r.spec_bc() + 1) as u16)), 2)) } else { None }
    } else if op == 0x13 {
        if r.spec_de() < 0xFFFF { Some((s.with_regs(r.with_de((r.spec_de() + 1) as u16)), 2)) } else { None }
    } else if op == 0x23 {
        if r.spec_hl() < 0xFFFF { Some((s.with_regs(r.with_hl((r.spec_hl() + 1) as u16)), 2)) } else { None }
    } else if op == 0x33 {
        if r.sp < 0xFFFF { Some((s.with_regs(Registers { sp: (r.sp + 1) as u16, ..r }), 2)) } else { None }
    } else if op == 0x0B {
        if r.spec_bc() > 0 { Some((s.with_regs(r.with_bc((r.spec_bc() - 1) as u16)), 2)) } else { None }
    } else if op == 0x1B {
        if r.spec_de() > 0 { Some((s.with_regs(r.with_de((r.spec_de() - 1) as u16)), 2)) } else { None }
    } else if op == 0x2B {
        if r.spec_hl() > 0 { Some((s.with_regs(r.with_hl((r.spec_hl() - 1) as u16)), 2)) } else { None }
    } else if op == 0x3B {
        if r.sp > 0 { Some((s.with_regs(Registers { sp: (r.sp - 1) as u16, ..r }), 2)) } else { None }
    } else if op == 0x07 {
        Some((s.with_regs(alu::rlca(r)), 1))
    } else if op == 0x0F {
        Some((s.with_regs(alu::rrca(r)), 1))
    } else if op == 0x17 {
        Some((s.with_regs(alu::rla(r)), 1))
    } else if op == 0x1F {
        Some((s.with_regs(alu::rra(r)), 1))
    } else if op == 0x08 {
        if s.fetch16_ok() && w < 0xFFFF {
            Some((s16.write_word(w, s16.registers.sp), 5))
        } else {
            None
        }
    } else if op == 0x09 || op == 0x19 || op == 0x29 || op == 0x39 {
        let d = if op == 0x09 {
            r.spec_bc()
        } else if op == 0x19 {
            r.spec_de()
        } else if op == 0x29 {
            r.spec_hl()
        } else {
            r.sp
        };
        if alu::add_hl_ok(r, d) { Some((s.with_regs(alu::add_hl(r, d)), 2)) } else { None }
    } else if op == 0x10 {
        Some((CpuView { stopped: true, ..s }, 1))
    } else if op == 0x18 {
        timed(jump_relative(s), 2)
    } else if op == 0x20 || op == 0x28 || op == 0x30 || op == 0x38 {
        if condition(r, ((op - 0x20) / 8) as u8) { timed(jump_relative(s), 2) } else { Some((s, 2)) }
    } else if op == 0x22 {
        if r.spec_hl() < 0xFFFF {
            Some((s.write(r.spec_hl(), r.a).with_regs(r.with_hl((r.spec_hl() + 1) as u16)), 2))
        } else {
            None
        }
    } else if op == 0x2A {
        if r.spec_hl() < 0xFFFF {
            Some((s.with_regs(Registers { a: s.read(r.spec_hl()), ..r }.with_hl((r.spec_hl() + 1) as u16)), 2))
        } else {
            None
        }
    } else if op == 0x32 {
        if r.spec_hl() > 0 {
            Some((s.write(r.spec_hl(), r.a).with_regs(r.with_hl((r.spec_hl() - 1) as u16)), 2))
        } else {
            None
        }
    } else if op == 0x3A {
        if r.spec_hl() > 0 {
            Some((s.with_regs(Registers { a: s.read(r.spec_hl()), ..r }.with_hl((r.spec_hl() - 1) as u16)), 2))
        } else {
            None
        }
    } else if op == 0x27 {
        Some((s, 1))
    } else if op == 0x2F {
        Some((s.with_regs(alu::cpl(r)), 1))
    } else if op == 0x37 {
        Some((s.with_regs(alu::scf(r)), 1))
    } else if op == 0x3F {
        Some((s.with_regs(alu::ccf(r)), 1))
    } else if op == 0xC0 || op == 0xC8 || op == 0xD0 || op == 0xD8 {
        if condition(r, ((op - 0xC0) / 8) as u8) { timed(return_and_jump(s), 2) } else { Some((s, 2)) }
    } else if op == 0xC1 || op == 0xD1 || op == 0xE1 || op == 0xF1 {
        if s.pop_ok() {
            let s1 = s.after_pop();
            let p = s.popped();
            let r1 = s1.registers;
            let r2 = if op == 0xC1 {
                r1.with_bc(p)
            } else if op == 0xD1 {
                r1.with_de(p)
            } else if op == 0xE1 {
                r1.with_hl(p)
            } else {
                r1.with_af(p)
            };
            Some((s1.with_regs(r2), 3))
        } else {
            None
        }
    } else if op == 0xC2 || op == 0xCA || op == 0xD2 || op == 0xDA {
        if condition(r, ((op - 0xC2) / 8) as u8) { timed(jump(s), 3) } else { Some((s, 3)) }
    } else if op == 0xC3 {
        timed(jump(s), 3)
    } else if op == 0xC4 || op == 0xCC || op == 0xD4 || op == 0xDC {
        if condition(r, ((op - 0xC4) / 8) as u8) { timed(call(s), 3) } else { Some((s, 3)) }
    } else if op == 0xCD {
        timed(call(s), 3)
    } else if op == 0xC5 || op == 0xD5 || op == 0xE5 || op == 0xF5 {
        let d = if op == 0xC5 {
            r.spec_bc()
        } else if op == 0xD5 {
            r.spec_de()
        } else if op == 0xE5 {
            r.spec_hl()
        } else {
            r.spec_af()
        };
        if s.push_ok() { Some((s.push(d), 4)) } else { None }
    } else if op == 0xC9 {
        if s.pop_ok() { Some((s.after_pop().with_pc(s.popped()), 2)) } else { None }
    } else if op == 0xD9 {
        if s.pop_ok() {
            Some((CpuView { interrupts_enabled: true, ..s.after_pop().with_pc(s.popped()) }, 2))
        } else {
            None
        }
    } else if op == 0xCB {
        if s.fetch_ok() {
            let (t, c) = cb_op(s8, n);
            Some((t, (c + 1) as u8))
        } else {
            None
        }
    } else if op == 0xE0 {
        if s.fetch_ok() { Some((s8.write((0xFF00 + n) as u16, r.a), 3)) } else { None }
    } else if op == 0xE2 {
        Some((s.write((0xFF00 + r.c) as u16, r.a), 2))
    } else if op == 0xE8 {
        if s.fetch_ok() && alu::add_sp_ok(s8.registers, n as u16) {
            Some((s8.with_regs(alu::add_sp(s8.registers, n as u16)), 4))
        } else {
            None
        }
    } else if op == 0xE9 {
        Some((s.with_pc(r.spec_hl()), 1))
    } else if op == 0xEA {
        if s.fetch16_ok() { Some((s16.write(w, r.a), 4)) } else { None }
    } else if op == 0xF0 {
        if s.fetch_ok() {
            Some((s8.with_regs(Registers { a: s8.read((0xFF00 + n) as u16), ..s8.registers }), 3))
        } else {
            None
        }
    } else if op == 0xF2 {
        Some((s.with_regs(Registers { a: s.read((0xFF00 + r.c) as u16), ..r }), 2))
    } else if op == 0xF3 {
        Some((CpuView { interrupts_enabled: false, ..s }, 1))
    } else if op == 0xFB {
        Some((CpuView { interrupts_enabled: true, ..s }, 1))
    } else if op == 0xF8 {
        if s.fetch_ok() && r.sp + n <= 0xFFFF {
            Some((s8.with_regs(s8.registers.with_hl((r.sp + n) as u16)), 3))
        } else {
            None
        }
    } else if op == 0xF9 {
        Some((s.with_regs(Registers { sp: r.spec_hl(), ..r }), 2))
    } else if op == 0xFA {
        if s.fetch16_ok() {
            Some((s16.with_regs(Registers { a: s16.read(w), ..s16.registers }), 4))
        } else {
            None
        }
    } else {
        Some((CpuView { unknown_opcode: Some(op), ..s }, 1))
    }
}

/// The state and cycles after instruction `op`, where `s` is the state after
/// the opcode was read: the load block 0x40-0x7F (0x76 is HALT), the
/// arithmetic block 0x80-0xBF, the increments, decrements and immediate
/// loads of 0x00-0x3F, the immediate arithmetic and restarts of 0xC0-0xFF,
/// and the rest one by one.
pub open spec fn exec_op(s: CpuView, op: u8) -> Option<(CpuView, u8)> {
    let r = s.registers;
    if 0x40 <= op <= 0x7F {
        if op == 0x76 {
            Some((CpuView { halted: true, ..s }, 1))
        } else {
            let d = ((op - 0x40) / 8) as u8;
            let i = op % 8;
            Some((s.set_r8(d, s.get_r8(i)), if d == 6 || i == 6 { 2u8 } else { 1u8 }))
        }
    } else if 0x80 <= op <= 0xBF {
        let kind = ((op - 0x80) / 8) as u8;
        let i = alu_operand(kind, op % 8);
        timed(alu_op(s, kind, s.get_r8(i)), if i == 6 { 2u8 } else { 1u8 })
    } else if op < 0x40 && op % 8 == 4 {
        let d = (op / 8) as u8;
        let v = s.get_r8(d);
        if alu::inc_ok(v) {
            let (r2, x) = alu::inc(r, v);
            Some((s.with_regs(r2).set_r8(d, x), if d == 6 { 3u8 } else { 1u8 }))
        } else {
            None
        }
    } else if op < 0x40 && op % 8 == 5 {
        let d = (op / 8) as u8;
        let v = s.get_r8(d);
        if alu::dec_ok(v) {
            let (r2, x) = alu::dec(r, v);
            Some((s.with_regs(r2).set_r8(d, x), if d == 6 { 3u8 } else { 1u8 }))
        } else {
            None
        }
    } else if op < 0x40 && op % 8 == 6 {
        let d = (op / 8) as u8;
        if s.fetch_ok() {
            Some((s.after_fetch().set_r8(d, s.fetched()), if d == 6 { 3u8 } else { 2u8 }))
        } else {
            None
        }
    } else if op >= 0xC0 && op % 8 == 6 {
        if s.fetch_ok() {
            timed(alu_op(s.after_fetch(), ((op - 0xC0) / 8) as u8, s.fetched()), 2)
        } else {
            None
        }
    } else if op >= 0xC0 && op % 8 == 7 {
        if s.push_ok() {
            Some((s.push(r.pc).with_pc((op - 0xC7) as u16), 8))
        } else {
            None
        }
    } else {
        misc_op(s, op)
    }
}

/// The state and cycles after the instruction at the program counter, or
/// `None` where its arithmetic leaves range.
#[verifier::opaque]
pub open spec fn cycle_result(s: CpuView) -> Option<(CpuView, u8)> {
    if s.fetch_ok() {
        exec_op(CpuView { unknown_opcode: None, ..s.after_fetch() }, s.fetched())
    } else {
        None
    }
}

} // verus!
