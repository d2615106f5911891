//! What single instructions do, stated on the registers, the flags and the
//! bytes read from memory before and after the instruction at the program
//! counter (`cycle_result`).
use vstd::prelude::*;
use crate::cpu::CpuView;
use crate::alu;
use crate::instructions::{alu_op, cb_op, cycle_result, misc_op, shift_op};
use crate::memory::{holds_written_byte, law_read_after_write, law_write_frame};
use crate::register::{Registers, pair, flag_bit, ZERO_FLAG, ADDSUB_FLAG, HALFCARRY_FLAG, CARRY_FLAG};

verus! {

/// The opcode at the program counter.
pub open spec fn opcode(s: CpuView) -> u8 {
    s.read(s.registers.pc)
}

/// The byte after the opcode.
pub open spec fn operand(s: CpuView) -> u8 {
    s.read((s.registers.pc + 1) as u16)
}

/// The 16-bit value of `h` and `l`.
pub open spec fn hl(r: Registers) -> u16 {
    pair(r.h, r.l)
}

/// The 16-bit value of `b` and `c`.
pub open spec fn bc(r: Registers) -> u16 {
    pair(r.b, r.c)
}

/// The 16-bit value of `d` and `e`.
pub open spec fn de(r: Registers) -> u16 {
    pair(r.d, r.e)
}

/// The address LD (BC),A, LD (DE),A, LD A,(BC), LD A,(DE) and the
/// increment and decrement forms through `hl` read or write: the value of
/// `bc` for 0x02 and 0x0A, of `de` for 0x12 and 0x1A, of `hl` otherwise.
pub open spec fn pointer(op: u8, r: Registers) -> u16 {
    if op == 0x02 || op == 0x0A {
        bc(r)
    } else if op == 0x12 || op == 0x1A {
        de(r)
    } else {
        hl(r)
    }
}

/// The 8-bit register in column `i` of the opcode table: b, c, d, e, h, l,
/// (6 is the byte at `hl`, see `slot_value`), a.
pub open spec fn register_in_slot(r: Registers, i: u8) -> u8 {
    if i == 0 {
        r.b
    } else if i == 1 {
        r.c
    } else if i == 2 {
        r.d
    } else if i == 3 {
        r.e
    } else if i == 4 {
        r.h
    } else if i == 5 {
        r.l
    } else {
        r.a
    }
}

/// The value in column `i` of the opcode table: the register there, or for
/// column 6 the byte at the address held in `hl`.
pub open spec fn slot_value(s: CpuView, i: u8) -> u8 {
    if i == 6 {
        s.read(hl(s.registers))
    } else {
        register_in_slot(s.registers, i)
    }
}

/// Whether `t` holds `w` in slot `d` of `s` (a register, or for slot 6 the
/// byte at the address held in `hl`), with every other 8-bit register but
/// `f`, and every other byte read from memory, as in `s`.
pub open spec fn slot_written(s: CpuView, t: CpuView, d: u8, w: int) -> bool {
    &&& d == 6 ==> t.read(hl(s.registers)) == w
    &&& d == 6 ==> forall|x: u16| x != hl(s.registers) ==> #[trigger] t.read(x) == s.read(x)
    &&& d != 6 ==> register_in_slot(t.registers, d) == w
    &&& d != 6 ==> t.memory == s.memory
    &&& forall|j: u8|
        j < 8 && j != 6 && j != d ==> #[trigger] register_in_slot(t.registers, j) == register_in_slot(s.registers, j)
}

proof fn lemma_write_frame_all(s: CpuView, w: u8)
    requires
        s.wf(),
        holds_written_byte(s.memory, hl(s.registers)),
    ensures
        s.memory.write(hl(s.registers), w).read(hl(s.registers)) == w,
        forall|x: u16|
            x != hl(s.registers) ==> #[trigger] s.memory.write(hl(s.registers), w).read(x) == s.read(x),
{
    let address = hl(s.registers);
    law_read_after_write(s.memory, address, w);
    assert forall|x: u16| x != address implies #[trigger] s.memory.write(address, w).read(x) == s.read(x) by {
        law_write_frame(s.memory, address, x, w);
    }
}

/// Whether JR NZ (0x20), JR Z (0x28), JR NC (0x30) or JR C (0x38) jumps
/// with flag register `f`: NZ when the zero flag is clear, Z when it is
/// set, NC when the carry flag is clear, C when it is set.
pub open spec fn relative_jump_taken(op: u8, f: u8) -> bool {
    ||| op == 0x20 && !flag_bit(f, ZERO_FLAG)
    ||| op == 0x28 && flag_bit(f, ZERO_FLAG)
    ||| op == 0x30 && !flag_bit(f, CARRY_FLAG)
    ||| op == 0x38 && flag_bit(f, CARRY_FLAG)
}

/// A conditional relative jump takes two cycles. When its condition holds
/// of the flags it reads the offset byte after the opcode and moves the
/// program counter to the address after that byte plus the offset;
/// otherwise the program counter is left just after the opcode. Nothing
/// else changes.
pub proof fn law_conditional_relative_jump(s: CpuView)
    requires
        s.registers.pc < 0xFFFF,
        opcode(s) == 0x20 || opcode(s) == 0x28 || opcode(s) == 0x30 || opcode(s) == 0x38,
        relative_jump_taken(opcode(s), s.registers.f) ==> s.registers.pc + 2 + operand(s) <= 0xFFFF,
    ensures
        cycle_result(s) is Some,
        cycle_result(s).unwrap().1 == 2,
        cycle_result(s).unwrap().0.registers.pc == if relative_jump_taken(opcode(s), s.registers.f) {
            s.registers.pc + 2 + operand(s)
        } else {
            s.registers.pc + 1
        },
        cycle_result(s).unwrap().0 == (CpuView { unknown_opcode: None, ..s }).with_pc(
            cycle_result(s).unwrap().0.registers.pc,
        ),
{
    reveal(cycle_result);
}

/// LD (HL+),A (0x22) and LD (HL-),A (0x32) store `a` at the address held in
/// `hl` before the instruction, then step `hl` up or down by one; no other
/// byte read from memory changes.
pub proof fn law_store_through_hl_and_step(s: CpuView)
    requires
        s.wf(),
        s.registers.pc < 0xFFFF,
        opcode(s) == 0x22 || opcode(s) == 0x32,
        opcode(s) == 0x22 ==> hl(s.registers) < 0xFFFF,
        opcode(s) == 0x32 ==> hl(s.registers) > 0,
        holds_written_byte(s.memory, hl(s.registers)),
    ensures
        cycle_result(s) is Some,
        cycle_result(s).unwrap().1 == 2,
        cycle_result(s).unwrap().0.read(hl(s.registers)) == s.registers.a,
        forall|x: u16| x != hl(s.registers) ==> #[trigger] cycle_result(s).unwrap().0.read(x) == s.read(x),
        hl(cycle_result(s).unwrap().0.registers) == if opcode(s) == 0x22 {
            hl(s.registers) + 1
        } else {
            hl(s.registers) - 1
        },
        cycle_result(s).unwrap().0.registers.pc == s.registers.pc + 1,
        cycle_result(s).unwrap().0.registers.a == s.registers.a,
        cycle_result(s).unwrap().0.registers.f == s.registers.f,
{
    reveal(cycle_result);
    let a = s.registers.a;
    let address = hl(s.registers);
    law_read_after_write(s.memory, address, a);
    assert forall|x: u16| x != address implies #[trigger] s.memory.write(address, a).read(x) == s.read(x) by {
        law_write_frame(s.memory, address, x, a);
    }
    crate::register::law_pair_round_trip(s.registers, (address + 1) as u16);
    crate::register::law_pair_round_trip(s.registers, (address - 1) as u16);
}

/// LD r,r' (0x40-0x7F but HALT, 0x76) copies the value in the opcode's
/// column (`op % 8`) into its row (`(op - 0x40) / 8`): into a register, or
/// for row 6 into the byte at the address held in `hl`. Nothing else
/// changes but the program counter, which moves past the opcode; it takes
/// two cycles where the byte at `hl` is involved and one otherwise.
pub proof fn law_load_register_block(s: CpuView)
    requires
        s.wf(),
        s.registers.pc < 0xFFFF,
        0x40 <= opcode(s) <= 0x7F,
        opcode(s) != 0x76,
        (opcode(s) - 0x40) / 8 == 6 ==> holds_written_byte(s.memory, hl(s.registers)),
    ensures
        cycle_result(s) is Some,
        ({
            let d = ((opcode(s) - 0x40) / 8) as u8;
            let i = opcode(s) % 8;
            let t = cycle_result(s).unwrap().0;
            &&& cycle_result(s).unwrap().1 == if d == 6 || i == 6 { 2int } else { 1int }
            &&& t.registers.pc == s.registers.pc + 1
            &&& t.registers.f == s.registers.f
            &&& t.registers.sp == s.registers.sp
            &&& slot_written(s, t, d, slot_value(s, i) as int)
        }),
{
    reveal(cycle_result);
    let d = ((opcode(s) - 0x40) / 8) as u8;
    if d == 6 {
        lemma_write_frame_all(s, slot_value(s, opcode(s) % 8));
    }
}

/// LD (BC),A (0x02) and LD (DE),A (0x12) store `a` at the address held in
/// `bc` or `de`; no other byte read from memory and no register but the
/// program counter changes.
pub proof fn law_store_through_pair(s: CpuView)
    requires
        s.wf(),
        s.registers.pc < 0xFFFF,
        opcode(s) == 0x02 || opcode(s) == 0x12,
        holds_written_byte(s.memory, pointer(opcode(s), s.registers)),
    ensures
        cycle_result(s) is Some,
        cycle_result(s).unwrap().1 == 2,
        cycle_result(s).unwrap().0.read(pointer(opcode(s), s.registers)) == s.registers.a,
        forall|x: u16|
            x != pointer(opcode(s), s.registers) ==> #[trigger] cycle_result(s).unwrap().0.read(x) == s.read(x),
        cycle_result(s).unwrap().0.registers == (Registers { pc: (s.registers.pc + 1) as u16, ..s.registers }),
{
    reveal(cycle_result);
    let a = s.registers.a;
    let address = pointer(opcode(s), s.registers);
    law_read_after_write(s.memory, address, a);
    assert forall|x: u16| x != address implies #[trigger] s.memory.write(address, a).read(x) == s.read(x) by {
        law_write_frame(s.memory, address, x, a);
    }
}

/// LD A,(BC) (0x0A), LD A,(DE) (0x1A), LD A,(HL+) (0x2A) and LD A,(HL-)
/// (0x3A) load `a` with the byte at the address held in the pair before the
/// instruction; the last two then step `hl` up or down by one. Memory and
/// the flags do not change.
pub proof fn law_load_through_pointer(s: CpuView)
    requires
        s.registers.pc < 0xFFFF,
        opcode(s) == 0x0A || opcode(s) == 0x1A || opcode(s) == 0x2A || opcode(s) == 0x3A,
        opcode(s) == 0x2A ==> hl(s.registers) < 0xFFFF,
        opcode(s) == 0x3A ==> hl(s.registers) > 0,
    ensures
        cycle_result(s) is Some,
        cycle_result(s).unwrap().1 == 2,
        cycle_result(s).unwrap().0.registers.a == s.read(pointer(opcode(s), s.registers)),
        cycle_result(s).unwrap().0.memory == s.memory,
        cycle_result(s).unwrap().0.registers.f == s.registers.f,
        cycle_result(s).unwrap().0.registers.pc == s.registers.pc + 1,
        hl(cycle_result(s).unwrap().0.registers) == if opcode(s) == 0x2A {
            hl(s.registers) + 1
        } else if opcode(s) == 0x3A {
            hl(s.registers) - 1
        } else {
            hl(s.registers) as int
        },
{
    reveal(cycle_result);
    let address = hl(s.registers);
    crate::register::law_pair_round_trip(s.registers, (address + 1) as u16);
    crate::register::law_pair_round_trip(s.registers, (address - 1) as u16);
}

/// The carry flag of `f` as 0 or 1.
pub open spec fn carry_value(f: u8) -> int {
    if flag_bit(f, CARRY_FLAG) {
        1
    } else {
        0
    }
}

/// Whether ADD (kind 0), ADC (1), SUB (2), SBC (3), AND (4), XOR (5), OR
/// (6) or CP (7) of `a` and operand `v`, with carry `c` (0 or 1), stays in
/// the range of a byte: the sum at most 0xFF for ADD and ADC, `v <= a` for
/// SUB and CP; for SBC with the carry set either `a > v` (one is taken from
/// `a`) or `1 <= v <= a + 1` (one is taken from `v`), without it `v <= a`.
pub open spec fn arith_logic_in_range(kind: int, a: u8, v: u8, c: int) -> bool {
    if kind == 0 {
        a + v <= 0xFF
    } else if kind == 1 {
        a + v + c <= 0xFF
    } else if kind == 2 || kind == 7 {
        v <= a
    } else if kind == 3 {
        if c == 1 {
            a > v || 1 <= v <= a + 1
        } else {
            v <= a
        }
    } else {
        true
    }
}

/// What ADD (kind 0), ADC (1), SUB (2), SBC (3), AND (4), XOR (5), OR (6)
/// and CP (7) of `a` and operand `v` leave in registers `t`, from registers
/// `r`: the new `a` and the zero (z), add/subtract (n), half-carry (h) and
/// carry flags; the other 8-bit registers and `sp` keep their values. With
/// the carry set, ADC and SBC take their half carry from the operands after
/// the carry went into one of them (see `alu::adc_operands` and
/// `alu::sbc_operands`).
pub open spec fn arith_logic_outcome(kind: int, r: Registers, v: u8, t: Registers) -> bool {
    let c = carry_value(r.f);
    let z = flag_bit(t.f, ZERO_FLAG);
    let n = flag_bit(t.f, ADDSUB_FLAG);
    let h = flag_bit(t.f, HALFCARRY_FLAG);
    let cy = flag_bit(t.f, CARRY_FLAG);
    &&& kind == 0 ==> t.a == r.a + v && z == (t.a == 0) && !n && h == (r.a % 16 + v % 16 >= 16) && !cy
    &&& kind == 1 ==> t.a == r.a + v + c && z == (t.a == 0) && !n && !cy && h == if c == 1 && r.a < v {
        (r.a + 1) % 16 + v % 16 >= 16
    } else if c == 1 {
        r.a % 16 + (v + 1) % 16 >= 16
    } else {
        r.a % 16 + v % 16 >= 16
    }
    &&& kind == 2 ==> t.a == r.a - v && z == (t.a == 0) && n && h == (v % 16 > r.a % 16) && !cy
    &&& kind == 3 ==> t.a == (if c == 1 && r.a <= v { r.a - v + 1 } else { r.a - v - c }) && z == (t.a == 0)
        && n && !cy && h == if c == 1 && r.a > v {
        v % 16 > (r.a - 1) % 16
    } else if c == 1 {
        (v - 1) % 16 > r.a % 16
    } else {
        v % 16 > r.a % 16
    }
    &&& kind == 4 ==> t.a == r.a & v && z == (t.a == 0) && !n && h && !cy
    &&& kind == 5 ==> t.a == r.a ^ v && z == (t.a == 0) && !n && !h && !cy
    &&& kind == 6 ==> t.a == r.a | v && t.a & r.a == r.a && t.a & v == v && t.a & !r.a & !v == 0 && z == (r.a
        == 0 && v == 0) && !n && !h && !cy
    &&& kind == 7 ==> t.a == r.a && z == (r.a == v) && n == flag_bit(r.f, ADDSUB_FLAG) && h == flag_bit(
        r.f,
        HALFCARRY_FLAG,
    ) && cy == flag_bit(r.f, CARRY_FLAG)
    &&& t.b == r.b && t.c == r.c && t.d == r.d && t.e == r.e && t.h == r.h && t.l == r.l && t.sp == r.sp
}

#[verifier::spinoff_prover]
proof fn lemma_alu_op_outcome(s: CpuView, kind: u8, v: u8)
    requires
        kind < 8,
    ensures
        alu_op(s, kind, v) is Some <==> arith_logic_in_range(kind as int, s.registers.a, v, carry_value(s.registers.f)),
        alu_op(s, kind, v) is Some ==> arith_logic_outcome(kind as int, s.registers, v, alu_op(s, kind, v).unwrap().registers),
        alu_op(s, kind, v) is Some ==> alu_op(s, kind, v).unwrap() == s.with_regs(alu_op(s, kind, v).unwrap().registers),
        alu_op(s, kind, v) is Some ==> alu_op(s, kind, v).unwrap().registers.pc == s.registers.pc,
{
    broadcast use crate::register::lemma_flag_after_write;
    let r = s.registers;
    alu::lemma_byte_facts(r.a, v);
    if alu_op(s, kind, v) is Some {
        let t = alu_op(s, kind, v).unwrap().registers;
        if kind == 0 {
            assert(arith_logic_outcome(0, r, v, t));
        } else if kind == 1 {
            let (a1, d1) = alu::adc_operands(r, v);
            alu::lemma_byte_facts(a1, d1);
            assert(arith_logic_outcome(1, r, v, t));
        } else if kind == 2 {
            assert(arith_logic_outcome(2, r, v, t));
        } else if kind == 3 {
            let (a1, d1) = alu::sbc_operands(r, v);
            alu::lemma_byte_facts(a1, d1);
            assert(arith_logic_outcome(3, r, v, t));
        } else if kind == 4 {
            assert(arith_logic_outcome(4, r, v, t));
        } else if kind == 5 {
            assert(arith_logic_outcome(5, r, v, t));
        } else if kind == 6 {
            alu::law_or_bits(r, v);
            assert(arith_logic_outcome(6, r, v, t));
        } else {
            assert(arith_logic_outcome(7, r, v, t));
        }
    }
}

/// The arithmetic and logic block 0x80-0xBF: row `(op - 0x80) / 8` is the
/// operation (ADD, ADC, SUB, SBC, AND, XOR, OR, CP), the column the operand
/// (b, c, d, e, h, l, the byte at `hl`, a), except that XOR and CP take `a`
/// in column 0 and `b` in column 7.
pub open spec fn block_operand(s: CpuView, op: u8) -> u8 {
    let i = op % 8;
    if (op / 8 == 0x15 || op / 8 == 0x17) && i == 0 {
        s.registers.a
    } else if (op / 8 == 0x15 || op / 8 == 0x17) && i == 7 {
        s.registers.b
    } else {
        slot_value(s, i)
    }
}

/// An instruction of the arithmetic and logic block (0x80-0xBF) runs
/// exactly when its result stays in range (`arith_logic_in_range`), and
/// then leaves in the registers what `arith_logic_outcome` says of its
/// operation and operand (`block_operand`): OR, for one, sets in `a` the
/// bits set in `a` or in the operand and no other. Memory does not change,
/// the program counter moves past the opcode, and it takes two cycles with
/// the byte at `hl` as operand and one otherwise.
pub proof fn law_arith_logic_block(s: CpuView)
    requires
        0x80 <= opcode(s) <= 0xBF,
    ensures
        cycle_result(s) is Some <==> s.registers.pc < 0xFFFF && arith_logic_in_range(
            (opcode(s) - 0x80) / 8,
            s.registers.a,
            block_operand(s, opcode(s)),
            carry_value(s.registers.f),
        ),
        cycle_result(s) is Some ==> arith_logic_outcome(
            (opcode(s) - 0x80) / 8,
            s.registers,
            block_operand(s, opcode(s)),
            cycle_result(s).unwrap().0.registers,
        ),
        cycle_result(s) is Some ==> cycle_result(s).unwrap().0.memory == s.memory,
        cycle_result(s) is Some ==> cycle_result(s).unwrap().0.registers.pc == s.registers.pc + 1,
        cycle_result(s) is Some ==> cycle_result(s).unwrap().1 == if opcode(s) % 8 == 6 { 2int } else { 1int },
{
    reveal(cycle_result);
    if s.registers.pc < 0xFFFF {
        let op = opcode(s);
        let s1 = CpuView { unknown_opcode: None, ..s.after_fetch() };
        let kind = ((op - 0x80) / 8) as u8;
        let i = crate::instructions::alu_operand(kind, op % 8);
        assert(s1.get_r8(i) == block_operand(s, op));
        lemma_alu_op_outcome(s1, kind, s1.get_r8(i));
    }
}

/// The arithmetic and logic instructions on the byte after the opcode
/// (0xC6, 0xCE, 0xD6, 0xDE, 0xE6, 0xEE, 0xF6, 0xFE for ADD, ADC, SUB, SBC,
/// AND, XOR, OR, CP) run exactly when that byte can be read and the result
/// stays in range, and then leave in the registers what
/// `arith_logic_outcome` says; memory does not change, the program counter
/// moves past the operand byte, and they take two cycles.
pub proof fn law_arith_logic_immediate(s: CpuView)
    requires
        opcode(s) >= 0xC0,
        opcode(s) % 8 == 6,
    ensures
        cycle_result(s) is Some <==> s.registers.pc < 0xFFFE && arith_logic_in_range(
            (opcode(s) - 0xC0) / 8,
            s.registers.a,
            operand(s),
            carry_value(s.registers.f),
        ),
        cycle_result(s) is Some ==> arith_logic_outcome(
            (opcode(s) - 0xC0) / 8,
            s.registers,
            operand(s),
            cycle_result(s).unwrap().0.registers,
        ),
        cycle_result(s) is Some ==> cycle_result(s).unwrap().0.memory == s.memory,
        cycle_result(s) is Some ==> cycle_result(s).unwrap().0.registers.pc == s.registers.pc + 2,
        cycle_result(s) is Some ==> cycle_result(s).unwrap().1 == 2,
{
    reveal(cycle_result);
    if s.registers.pc < 0xFFFE {
        let op = opcode(s);
        let s1 = CpuView { unknown_opcode: None, ..s.after_fetch() };
        lemma_alu_op_outcome(s1.after_fetch(), ((op - 0xC0) / 8) as u8, s1.fetched());
    }
}

/// The value the rotate or shift `kind` of the prefixed table (RLC, RRC,
/// RL, RR, SLA, SRA, SWAP, SRL) gives for operand `v` with carry `c` (0 or
/// 1), as arithmetic on byte values: RLC doubles modulo 256 and brings bit
/// 7 round to bit 0, RL brings the carry in instead, SLA brings in 0; RRC
/// halves and brings bit 0 round to bit 7, RR brings the carry in instead,
/// SRA keeps bit 7, SRL brings in 0; SWAP exchanges the two nibbles.
pub open spec fn shifted_value(kind: int, v: u8, c: int) -> int {
    if kind == 0 {
        (v * 2) % 256 + v / 128
    } else if kind == 1 {
        v / 2 + (v % 2) * 128
    } else if kind == 2 {
        (v * 2) % 256 + c
    } else if kind == 3 {
        v / 2 + c * 128
    } else if kind == 4 {
        (v * 2) % 256
    } else if kind == 5 {
        v / 2 + (v / 128) * 128
    } else if kind == 6 {
        (v % 16) * 16 + v / 16
    } else {
        (v / 2) as int
    }
}

/// The carry after the rotate or shift `kind` of operand `v`: bit 7 of the
/// operand for RLC, RL and SLA, none for SWAP, bit 0 for the others.
pub open spec fn shifted_out(kind: int, v: u8) -> bool {
    if kind == 0 || kind == 2 || kind == 4 {
        v >= 128
    } else if kind == 6 {
        false
    } else {
        v % 2 == 1
    }
}

proof fn lemma_shift_op(r: Registers, kind: u8, v: u8)
    requires
        kind < 8,
    ensures
        shift_op(r, kind, v).1 == shifted_value(kind as int, v, carry_value(r.f)),
        flag_bit(shift_op(r, kind, v).0.f, CARRY_FLAG) == shifted_out(kind as int, v),
        flag_bit(shift_op(r, kind, v).0.f, ZERO_FLAG) == (shift_op(r, kind, v).1 == 0),
        !flag_bit(shift_op(r, kind, v).0.f, ADDSUB_FLAG),
        !flag_bit(shift_op(r, kind, v).0.f, HALFCARRY_FLAG),
        shift_op(r, kind, v).0 == (Registers { f: shift_op(r, kind, v).0.f, ..r }),
{
    broadcast use crate::register::lemma_flag_after_write;
    alu::law_shift_arithmetic(r, v);
}

proof fn lemma_prefixed_cycle(s: CpuView)
    requires
        s.registers.pc < 0xFFFE,
        opcode(s) == 0xCB,
    ensures
        ({
            let s2 = (CpuView { unknown_opcode: None, ..s }).with_pc((s.registers.pc + 2) as u16);
            cycle_result(s) == Some((cb_op(s2, operand(s)).0, (cb_op(s2, operand(s)).1 + 1) as u8))
        }),
{
    reveal(cycle_result);
    let s1 = CpuView { unknown_opcode: None, ..s.after_fetch() };
    assert(s1.after_fetch() == (CpuView { unknown_opcode: None, ..s }).with_pc((s.registers.pc + 2) as u16));
}

/// The rotates and shifts of the prefixed table (0xCB followed by a byte
/// below 0x40): the byte's row (`n / 8`) is the operation, its column (`n %
/// 8`) the operand (b, c, d, e, h, l, the byte at `hl`, a). The operand is
/// replaced by `shifted_value`, the carry flag set to `shifted_out`, the
/// zero flag set exactly when the new value is zero, the add/subtract and
/// half-carry flags cleared; nothing else changes but the program counter,
/// which moves past both bytes. It takes five cycles on the byte at `hl`
/// and three otherwise.
#[verifier::spinoff_prover]
#[verifier::rlimit(30)]
pub proof fn law_prefixed_shift(s: CpuView)
    requires
        s.wf(),
        s.registers.pc < 0xFFFE,
        opcode(s) == 0xCB,
        operand(s) < 0x40,
        operand(s) % 8 == 6 ==> holds_written_byte(s.memory, hl(s.registers)),
    ensures
        cycle_result(s) is Some,
        ({
            let kind = operand(s) / 8;
            let i = operand(s) % 8;
            let v = slot_value(s, i);
            let w = shifted_value(kind as int, v, carry_value(s.registers.f));
            let t = cycle_result(s).unwrap().0;
            &&& cycle_result(s).unwrap().1 == if i == 6 { 5int } else { 3int }
            &&& t.registers.pc == s.registers.pc + 2
            &&& t.registers.sp == s.registers.sp
            &&& slot_written(s, t, i, w)
            &&& flag_bit(t.registers.f, CARRY_FLAG) == shifted_out(kind as int, v)
            &&& flag_bit(t.registers.f, ZERO_FLAG) == (w == 0)
            &&& !flag_bit(t.registers.f, ADDSUB_FLAG)
            &&& !flag_bit(t.registers.f, HALFCARRY_FLAG)
        }),
{
    lemma_prefixed_cycle(s);
    let n = operand(s);
    let kind = n / 8;
    let i = n % 8;
    let v = slot_value(s, i);
    let r = s.registers;
    let s2 = (CpuView { unknown_opcode: None, ..s }).with_pc((r.pc + 2) as u16);
    assert(s2.get_r8(i) == v);
    lemma_shift_op(r, kind, v);
    let r2 = Registers { pc: (r.pc + 2) as u16, ..shift_op(r, kind, v).0 };
    assert(shift_op(s2.registers, kind, v) == (r2, shift_op(r, kind, v).1)) by {
        lemma_shift_op(s2.registers, kind, v);
    }
    let w = shift_op(r, kind, v).1;
    assert(cb_op(s2, n).0 == s2.with_regs(r2).set_r8(i, w));
    if i == 6 {
        lemma_write_frame_all(s, w);
    }
}

/// The little-endian word at `address`: the byte there is its low byte,
/// the byte after it its high byte.
pub open spec fn word_at(s: CpuView, address: u16) -> u16 {
    pair(s.read((address + 1) as u16), s.read(address))
}

/// Whether the condition of a conditional JP, CALL or RET holds of flag
/// register `f`; bits 4-3 of the opcode name it: NZ (zero flag clear), Z
/// (set), NC (carry flag clear), C (set).
pub open spec fn condition_holds(op: u8, f: u8) -> bool {
    let cc = (op / 8) % 4;
    if cc == 0 {
        !flag_bit(f, ZERO_FLAG)
    } else if cc == 1 {
        flag_bit(f, ZERO_FLAG)
    } else if cc == 2 {
        !flag_bit(f, CARRY_FLAG)
    } else {
        flag_bit(f, CARRY_FLAG)
    }
}

/// JP nn (0xC3) and JP cc,nn (0xC2, 0xCA, 0xD2, 0xDA) take three cycles.
/// JP nn, and JP cc,nn when its condition holds of the flags, load the
/// program counter with the word after the opcode; otherwise the program
/// counter is left just after the opcode. Nothing else changes.
pub proof fn law_absolute_jump(s: CpuView)
    requires
        s.registers.pc < 0xFFFF,
        opcode(s) == 0xC3 || opcode(s) == 0xC2 || opcode(s) == 0xCA || opcode(s) == 0xD2 || opcode(s) == 0xDA,
        (opcode(s) == 0xC3 || condition_holds(opcode(s), s.registers.f)) ==> s.registers.pc <= 0xFFFC,
    ensures
        cycle_result(s) is Some,
        cycle_result(s).unwrap().1 == 3,
        cycle_result(s).unwrap().0.registers.pc == if opcode(s) == 0xC3 || condition_holds(opcode(s), s.registers.f) {
            word_at(s, (s.registers.pc + 1) as u16) as int
        } else {
            s.registers.pc + 1
        },
        cycle_result(s).unwrap().0 == (CpuView { unknown_opcode: None, ..s }).with_pc(
            cycle_result(s).unwrap().0.registers.pc,
        ),
{
    reveal(cycle_result);
}

/// JP (HL) (0xE9) loads the program counter with `hl` in one cycle.
pub proof fn law_jump_to_hl(s: CpuView)
    requires
        s.registers.pc < 0xFFFF,
        opcode(s) == 0xE9,
    ensures
        cycle_result(s) == Some(((CpuView { unknown_opcode: None, ..s }).with_pc(hl(s.registers)), 1u8)),
{
    reveal(cycle_result);
}

/// CALL nn (0xCD), and CALL cc,nn (0xC4, 0xCC, 0xD4, 0xDC) when its
/// condition holds of the flags, push the address of the next instruction
/// (three bytes after the opcode) and load the program counter with the
/// word after the opcode: the stack pointer moves down by two and the word
/// there reads as the return address. A CALL cc,nn whose condition does not
/// hold leaves the program counter just after the opcode and changes
/// nothing else. Each takes three cycles.
pub proof fn law_call(s: CpuView)
    requires
        s.wf(),
        s.registers.pc < 0xFFFF,
        opcode(s) == 0xCD || opcode(s) == 0xC4 || opcode(s) == 0xCC || opcode(s) == 0xD4 || opcode(s) == 0xDC,
        opcode(s) == 0xCD || condition_holds(opcode(s), s.registers.f) ==> {
            &&& s.registers.pc <= 0xFFFC
            &&& s.registers.sp >= 2
            &&& holds_written_byte(s.memory, (s.registers.sp - 2) as u16)
            &&& holds_written_byte(s.memory, (s.registers.sp - 1) as u16)
        },
    ensures
        cycle_result(s) is Some,
        cycle_result(s).unwrap().1 == 3,
        opcode(s) == 0xCD || condition_holds(opcode(s), s.registers.f) ==> {
            let t = cycle_result(s).unwrap().0;
            &&& t.registers.pc == word_at(s, (s.registers.pc + 1) as u16)
            &&& t.registers.sp == s.registers.sp - 2
            &&& word_at(t, t.registers.sp) == s.registers.pc + 3
            &&& t.registers == (Registers { pc: t.registers.pc, sp: t.registers.sp, ..s.registers })
        },
        !(opcode(s) == 0xCD || condition_holds(opcode(s), s.registers.f)) ==> cycle_result(s).unwrap().0 == (
        CpuView { unknown_opcode: None, ..s }).with_pc((s.registers.pc + 1) as u16),
{
    reveal(cycle_result);
    if opcode(s) == 0xCD || condition_holds(opcode(s), s.registers.f) {
        crate::memory::law_word_round_trip(s.memory, (s.registers.sp - 2) as u16, (s.registers.pc + 3) as u16);
    }
}

/// RET (0xC9) pops the word at the stack pointer into the program counter
/// and moves the stack pointer up by two, in two cycles; RETI (0xD9) does
/// the same and enables interrupts.
pub proof fn law_return(s: CpuView)
    requires
        s.registers.pc < 0xFFFF,
        opcode(s) == 0xC9 || opcode(s) == 0xD9,
        s.registers.sp <= 0xFFFD,
    ensures
        cycle_result(s) is Some,
        cycle_result(s).unwrap().1 == 2,
        cycle_result(s).unwrap().0.registers == (Registers {
            pc: word_at(s, s.registers.sp),
            sp: (s.registers.sp + 2) as u16,
            ..s.registers
        }),
        cycle_result(s).unwrap().0.memory == s.memory,
        cycle_result(s).unwrap().0.interrupts_enabled == (opcode(s) == 0xD9 || s.interrupts_enabled),
{
    reveal(cycle_result);
}

/// A RET at the address a CALL jumped to comes back to the instruction after
/// the CALL, with the stack pointer where it was before the CALL.
pub proof fn law_call_then_return(s: CpuView)
    requires
        s.wf(),
        s.registers.pc <= 0xFFFC,
        opcode(s) == 0xCD,
        s.registers.sp >= 2,
        holds_written_byte(s.memory, (s.registers.sp - 2) as u16),
        holds_written_byte(s.memory, (s.registers.sp - 1) as u16),
        cycle_result(s).unwrap().0.registers.pc < 0xFFFF,
        opcode(cycle_result(s).unwrap().0) == 0xC9,
    ensures
        cycle_result(cycle_result(s).unwrap().0) is Some,
        cycle_result(cycle_result(s).unwrap().0).unwrap().0.registers.pc == s.registers.pc + 3,
        cycle_result(cycle_result(s).unwrap().0).unwrap().0.registers.sp == s.registers.sp,
{
    law_call(s);
    law_return(cycle_result(s).unwrap().0);
}

/// RST (0xC7, 0xCF, ..., 0xFF) pushes the address of the next instruction
/// and loads the program counter with `op - 0xC7` (0x00, 0x08, ..., 0x38),
/// in eight cycles.
pub proof fn law_restart(s: CpuView)
    requires
        s.wf(),
        s.registers.pc < 0xFFFF,
        opcode(s) >= 0xC0,
        opcode(s) % 8 == 7,
        s.registers.sp >= 2,
        holds_written_byte(s.memory, (s.registers.sp - 2) as u16),
        holds_written_byte(s.memory, (s.registers.sp - 1) as u16),
    ensures
        cycle_result(s) is Some,
        cycle_result(s).unwrap().1 == 8,
        cycle_result(s).unwrap().0.registers.pc == opcode(s) - 0xC7,
        cycle_result(s).unwrap().0.registers.sp == s.registers.sp - 2,
        word_at(cycle_result(s).unwrap().0, cycle_result(s).unwrap().0.registers.sp) == s.registers.pc + 1,
{
    reveal(cycle_result);
    crate::memory::law_word_round_trip(s.memory, (s.registers.sp - 2) as u16, (s.registers.pc + 1) as u16);
}

/// INC r (0x04, 0x0C, ..., 0x3C; row `op / 8` names b, c, d, e, h, l, the
/// byte at `hl`, a) runs exactly when the value is below 0xFF, and then
/// adds one to it: the zero and add/subtract flags are cleared, the
/// half-carry flag is set exactly when the low nibble was 0xF, the carry
/// flag is kept. It takes three cycles on the byte at `hl` and one
/// otherwise.
pub proof fn law_increment(s: CpuView)
    requires
        s.wf(),
        s.registers.pc < 0xFFFF,
        opcode(s) < 0x40,
        opcode(s) % 8 == 4,
        opcode(s) / 8 == 6 ==> holds_written_byte(s.memory, hl(s.registers)),
    ensures
        cycle_result(s) is Some <==> slot_value(s, opcode(s) / 8) < 0xFF,
        cycle_result(s) is Some ==> ({
            let d = opcode(s) / 8;
            let v = slot_value(s, d);
            let t = cycle_result(s).unwrap().0;
            &&& slot_written(s, t, d, v + 1)
            &&& !flag_bit(t.registers.f, ZERO_FLAG)
            &&& !flag_bit(t.registers.f, ADDSUB_FLAG)
            &&& flag_bit(t.registers.f, HALFCARRY_FLAG) == (v % 16 == 15)
            &&& flag_bit(t.registers.f, CARRY_FLAG) == flag_bit(s.registers.f, CARRY_FLAG)
            &&& t.registers.pc == s.registers.pc + 1
            &&& t.registers.sp == s.registers.sp
            &&& cycle_result(s).unwrap().1 == if d == 6 { 3int } else { 1int }
        }),
{
    reveal(cycle_result);
    broadcast use crate::register::lemma_flag_after_write;
    let d = opcode(s) / 8;
    let v = slot_value(s, d);
    alu::lemma_byte_facts(v, 1);
    if d == 6 && v < 0xFF {
        lemma_write_frame_all(s, (v + 1) as u8);
    }
}

/// DEC r (0x05, 0x0D, ..., 0x3D; row `op / 8` as for INC) runs exactly when
/// the value is above zero, and then takes one from it: the zero flag is
/// set exactly when the result is zero, the add/subtract flag is set, the
/// half-carry flag is set exactly when the low nibble was zero, the carry
/// flag is kept. It takes three cycles on the byte at `hl` and one
/// otherwise.
pub proof fn law_decrement(s: CpuView)
    requires
        s.wf(),
        s.registers.pc < 0xFFFF,
        opcode(s) < 0x40,
        opcode(s) % 8 == 5,
        opcode(s) / 8 == 6 ==> holds_written_byte(s.memory, hl(s.registers)),
    ensures
        cycle_result(s) is Some <==> slot_value(s, opcode(s) / 8) > 0,
        cycle_result(s) is Some ==> ({
            let d = opcode(s) / 8;
            let v = slot_value(s, d);
            let t = cycle_result(s).unwrap().0;
            &&& slot_written(s, t, d, v - 1)
            &&& flag_bit(t.registers.f, ZERO_FLAG) == (v == 1)
            &&& flag_bit(t.registers.f, ADDSUB_FLAG)
            &&& flag_bit(t.registers.f, HALFCARRY_FLAG) == (v % 16 == 0)
            &&& flag_bit(t.registers.f, CARRY_FLAG) == flag_bit(s.registers.f, CARRY_FLAG)
            &&& t.registers.pc == s.registers.pc + 1
            &&& t.registers.sp == s.registers.sp
            &&& cycle_result(s).unwrap().1 == if d == 6 { 3int } else { 1int }
        }),
{
    reveal(cycle_result);
    broadcast use crate::register::lemma_flag_after_write;
    let d = opcode(s) / 8;
    let v = slot_value(s, d);
    alu::lemma_byte_facts(v, 1);
    if d == 6 && v > 0 {
        lemma_write_frame_all(s, (v - 1) as u8);
    }
}

/// LD r,n (0x06, 0x0E, ..., 0x3E; row `op / 8` as for INC) loads the byte
/// after the opcode into the register or the byte at `hl`, and moves the
/// program counter past it; the flags are kept. It takes three cycles into
/// the byte at `hl` and two otherwise.
pub proof fn law_load_immediate(s: CpuView)
    requires
        s.wf(),
        s.registers.pc < 0xFFFE,
        opcode(s) < 0x40,
        opcode(s) % 8 == 6,
        opcode(s) / 8 == 6 ==> holds_written_byte(s.memory, hl(s.registers)),
    ensures
        cycle_result(s) is Some,
        ({
            let d = opcode(s) / 8;
            let t = cycle_result(s).unwrap().0;
            &&& slot_written(s, t, d, operand(s) as int)
            &&& t.registers.f == s.registers.f
            &&& t.registers.pc == s.registers.pc + 2
            &&& t.registers.sp == s.registers.sp
            &&& cycle_result(s).unwrap().1 == if d == 6 { 3int } else { 2int }
        }),
{
    reveal(cycle_result);
    if opcode(s) / 8 == 6 {
        lemma_write_frame_all(s, operand(s));
    }
}

/// LD BC,nn (0x01), LD DE,nn (0x11), LD HL,nn (0x21) and LD SP,nn (0x31)
/// load the pair with the word after the opcode and move the program
/// counter past it, in three cycles; nothing else changes.
pub proof fn law_load_pair_immediate(s: CpuView)
    requires
        s.registers.pc <= 0xFFFC,
        opcode(s) == 0x01 || opcode(s) == 0x11 || opcode(s) == 0x21 || opcode(s) == 0x31,
    ensures
        cycle_result(s) is Some,
        cycle_result(s).unwrap().1 == 3,
        ({
            let w = word_at(s, (s.registers.pc + 1) as u16);
            let t = cycle_result(s).unwrap().0;
            &&& opcode(s) == 0x01 ==> bc(t.registers) == w && t.registers == (Registers {
                b: t.registers.b,
                c: t.registers.c,
                pc: (s.registers.pc + 3) as u16,
                ..s.registers
            })
            &&& opcode(s) == 0x11 ==> de(t.registers) == w && t.registers == (Registers {
                d: t.registers.d,
                e: t.registers.e,
                pc: (s.registers.pc + 3) as u16,
                ..s.registers
            })
            &&& opcode(s) == 0x21 ==> hl(t.registers) == w && t.registers == (Registers {
                h: t.registers.h,
                l: t.registers.l,
                pc: (s.registers.pc + 3) as u16,
                ..s.registers
            })
            &&& opcode(s) == 0x31 ==> t.registers == (Registers {
                sp: w,
                pc: (s.registers.pc + 3) as u16,
                ..s.registers
            })
            &&& t.memory == s.memory
        }),
{
    reveal(cycle_result);
    crate::register::law_pair_round_trip(s.registers, word_at(s, (s.registers.pc + 1) as u16));
}

/// The instructions outside the regular blocks of the opcode table go to
/// `misc_op`.
proof fn lemma_misc(s: CpuView)
    requires
        s.registers.pc < 0xFFFF,
        !(0x40 <= opcode(s) <= 0xBF),
        !(opcode(s) < 0x40 && 4 <= opcode(s) % 8 <= 6),
        !(opcode(s) >= 0xC0 && (opcode(s) % 8 == 6 || opcode(s) % 8 == 7)),
    ensures
        cycle_result(s) == misc_op(CpuView { unknown_opcode: None, ..s.after_fetch() }, opcode(s)),
{
    reveal(cycle_result);
}

/// The register pair in row `k` of the 16-bit load, increment and
/// decrement instructions: `bc`, `de`, `hl`, `sp`.
pub open spec fn pair_in_row(r: Registers, k: int) -> u16 {
    if k == 0 {
        bc(r)
    } else if k == 1 {
        de(r)
    } else if k == 2 {
        hl(r)
    } else {
        r.sp
    }
}

/// The register pair in row `k` of PUSH and POP: `bc`, `de`, `hl`, and `af`
/// (`a` the high byte, the flag register the low byte).
pub open spec fn stack_pair(r: Registers, k: int) -> u16 {
    if k == 3 {
        pair(r.a, r.f)
    } else {
        pair_in_row(r, k)
    }
}

/// INC rr (0x03, 0x13, 0x23, 0x33) and DEC rr (0x0B, 0x1B, 0x2B, 0x3B) on
/// `bc`, `de`, `hl` or `sp` (row `op / 16`) run exactly when the value stays
/// within 0..=0xFFFF, and then add or take one; the other pairs, `a`, the
/// flags and memory are kept, and they take two cycles.
#[verifier::spinoff_prover]
#[verifier::rlimit(60)]
pub proof fn law_pair_step(s: CpuView)
    requires
        s.registers.pc < 0xFFFF,
        opcode(s) < 0x40,
        opcode(s) % 16 == 3 || opcode(s) % 16 == 0xB,
    ensures
        ({
            let k = (opcode(s) / 16) as int;
            let up = opcode(s) % 16 == 3;
            let x = pair_in_row(s.registers, k);
            let t = cycle_result(s).unwrap().0;
            &&& cycle_result(s) is Some <==> if up { x < 0xFFFF } else { x > 0 }
            &&& cycle_result(s) is Some ==> {
                &&& pair_in_row(t.registers, k) == if up { x + 1 } else { x - 1 }
                &&& forall|j: int| 0 <= j < 4 && j != k ==> #[trigger] pair_in_row(t.registers, j) == pair_in_row(s.registers, j)
                &&& t.registers.a == s.registers.a
                &&& t.registers.f == s.registers.f
                &&& t.registers.pc == s.registers.pc + 1
                &&& t.memory == s.memory
                &&& cycle_result(s).unwrap().1 == 2
            }
        }),
{
    lemma_misc(s);
    let r = s.registers;
    crate::register::law_pair_round_trip(r, (bc(r) + 1) as u16);
    crate::register::law_pair_round_trip(r, (bc(r) - 1) as u16);
    crate::register::law_pair_round_trip(r, (de(r) + 1) as u16);
    crate::register::law_pair_round_trip(r, (de(r) - 1) as u16);
    crate::register::law_pair_round_trip(r, (hl(r) + 1) as u16);
    crate::register::law_pair_round_trip(r, (hl(r) - 1) as u16);
}

/// PUSH rr (0xC5, 0xD5, 0xE5, 0xF5 for `bc`, `de`, `hl`, `af`) moves the
/// stack pointer down by two and writes the pair there, in four cycles;
/// the registers are otherwise kept.
#[verifier::spinoff_prover]
#[verifier::rlimit(60)]
pub proof fn law_push(s: CpuView)
    requires
        s.wf(),
        s.registers.pc < 0xFFFF,
        opcode(s) >= 0xC0,
        opcode(s) % 16 == 5,
        s.registers.sp >= 2,
        holds_written_byte(s.memory, (s.registers.sp - 2) as u16),
        holds_written_byte(s.memory, (s.registers.sp - 1) as u16),
    ensures
        cycle_result(s) is Some,
        cycle_result(s).unwrap().1 == 4,
        word_at(cycle_result(s).unwrap().0, (s.registers.sp - 2) as u16) == stack_pair(
            s.registers,
            ((opcode(s) - 0xC0) / 16) as int,
        ),
        cycle_result(s).unwrap().0.registers == (Registers {
            sp: (s.registers.sp - 2) as u16,
            pc: (s.registers.pc + 1) as u16,
            ..s.registers
        }),
{
    lemma_misc(s);
    let k = ((opcode(s) - 0xC0) / 16) as int;
    crate::memory::law_word_round_trip(s.memory, (s.registers.sp - 2) as u16, stack_pair(s.registers, k));
}

/// POP rr (0xC1, 0xD1, 0xE1, 0xF1 for `bc`, `de`, `hl`, `af`) loads the pair
/// with the word at the stack pointer and moves the stack pointer up by
/// two, in three cycles; into `af` the low four bits of the flag register
/// come in as zero. The other registers and memory are kept.
#[verifier::spinoff_prover]
#[verifier::rlimit(60)]
pub proof fn law_pop(s: CpuView)
    requires
        s.registers.pc < 0xFFFF,
        opcode(s) >= 0xC0,
        opcode(s) % 16 == 1,
        s.registers.sp <= 0xFFFD,
    ensures
        cycle_result(s) is Some,
        cycle_result(s).unwrap().1 == 3,
        ({
            let k = ((opcode(s) - 0xC0) / 16) as int;
            let w = word_at(s, s.registers.sp);
            let t = cycle_result(s).unwrap().0;
            &&& stack_pair(t.registers, k) == if k == 3 { w & 0xFFF0u16 } else { w }
            &&& forall|j: int| 0 <= j < 3 && j != k ==> #[trigger] pair_in_row(t.registers, j) == pair_in_row(s.registers, j)
            &&& k != 3 ==> t.registers.a == s.registers.a && t.registers.f == s.registers.f
            &&& t.registers.sp == s.registers.sp + 2
            &&& t.registers.pc == s.registers.pc + 1
            &&& t.memory == s.memory
        }),
{
    lemma_misc(s);
    crate::register::law_pair_round_trip(s.registers, word_at(s, s.registers.sp));
}

/// A POP right after a PUSH gives the pushed pair back (with bits 3-0 of
/// the flag byte cleared where it goes into `af`) and leaves the stack
/// pointer where it was before the PUSH.
pub proof fn law_push_then_pop(s: CpuView)
    requires
        s.wf(),
        s.registers.pc < 0xFFFF,
        opcode(s) >= 0xC0,
        opcode(s) % 16 == 5,
        s.registers.sp >= 2,
        holds_written_byte(s.memory, (s.registers.sp - 2) as u16),
        holds_written_byte(s.memory, (s.registers.sp - 1) as u16),
        cycle_result(s).unwrap().0.registers.pc < 0xFFFF,
        opcode(cycle_result(s).unwrap().0) >= 0xC0,
        opcode(cycle_result(s).unwrap().0) % 16 == 1,
    ensures
        ({
            let t = cycle_result(s).unwrap().0;
            let u = cycle_result(t).unwrap().0;
            let pushed = stack_pair(s.registers, ((opcode(s) - 0xC0) / 16) as int);
            let k = ((opcode(t) - 0xC0) / 16) as int;
            &&& cycle_result(t) is Some
            &&& stack_pair(u.registers, k) == if k == 3 { pushed & 0xFFF0u16 } else { pushed }
            &&& u.registers.sp == s.registers.sp
        }),
{
    law_push(s);
    law_pop(cycle_result(s).unwrap().0);
}

/// RLCA (0x07), RRCA (0x0F), RLA (0x17) and RRA (0x1F) rotate `a` as RLC,
/// RRC, RL and RR do (`shifted_value` of row `op / 8`), with the carry flag
/// set to the bit moved out and the zero, add/subtract and half-carry flags
/// cleared, in one cycle; nothing else but the program counter changes.
#[verifier::spinoff_prover]
#[verifier::rlimit(60)]
pub proof fn law_rotate_a(s: CpuView)
    requires
        s.registers.pc < 0xFFFF,
        opcode(s) == 0x07 || opcode(s) == 0x0F || opcode(s) == 0x17 || opcode(s) == 0x1F,
    ensures
        cycle_result(s) is Some,
        cycle_result(s).unwrap().1 == 1,
        ({
            let kind = (opcode(s) / 8) as int;
            let a = s.registers.a;
            let t = cycle_result(s).unwrap().0;
            &&& t.registers.a == shifted_value(kind, a, carry_value(s.registers.f))
            &&& flag_bit(t.registers.f, CARRY_FLAG) == shifted_out(kind, a)
            &&& !flag_bit(t.registers.f, ZERO_FLAG)
            &&& !flag_bit(t.registers.f, ADDSUB_FLAG)
            &&& !flag_bit(t.registers.f, HALFCARRY_FLAG)
            &&& t.registers == (Registers { a: t.registers.a, f: t.registers.f, pc: (s.registers.pc + 1) as u16, ..s.registers })
            &&& t.memory == s.memory
        }),
{
    lemma_misc(s);
    broadcast use crate::register::lemma_flag_after_write;
    alu::lemma_shift_values(s.registers.a, alu::carry_in(s.registers));
}

/// CPL (0x2F) complements `a` (255 minus it) and sets the add/subtract and
/// half-carry flags; SCF (0x37) sets the carry flag and CCF (0x3F) flips
/// it, both clearing add/subtract and half carry. The zero flag is kept,
/// each takes one cycle, and nothing else but the program counter changes.
pub proof fn law_complement_and_carry(s: CpuView)
    requires
        s.registers.pc < 0xFFFF,
        opcode(s) == 0x2F || opcode(s) == 0x37 || opcode(s) == 0x3F,
    ensures
        cycle_result(s) is Some,
        cycle_result(s).unwrap().1 == 1,
        ({
            let op = opcode(s);
            let r = s.registers;
            let t = cycle_result(s).unwrap().0;
            &&& t.registers.a == if op == 0x2F { 255 - r.a } else { r.a as int }
            &&& flag_bit(t.registers.f, ZERO_FLAG) == flag_bit(r.f, ZERO_FLAG)
            &&& flag_bit(t.registers.f, ADDSUB_FLAG) == (op == 0x2F)
            &&& flag_bit(t.registers.f, HALFCARRY_FLAG) == (op == 0x2F)
            &&& flag_bit(t.registers.f, CARRY_FLAG) == if op == 0x2F {
                flag_bit(r.f, CARRY_FLAG)
            } else if op == 0x37 {
                true
            } else {
                !flag_bit(r.f, CARRY_FLAG)
            }
            &&& t.registers == (Registers { a: t.registers.a, f: t.registers.f, pc: (r.pc + 1) as u16, ..r })
            &&& t.memory == s.memory
        }),
{
    reveal(cycle_result);
    broadcast use crate::register::lemma_flag_after_write;
    alu::lemma_complement(s.registers.a);
}

/// Whether bit `k` (0 the lowest) of `v` is set.
pub open spec fn bit_set(v: u8, k: u8) -> bool {
    (v >> k) % 2 == 1
}

/// The value in column `i` of the opcode table in `t`, with the byte at
/// `hl` taken at the address `hl` held in `s`.
pub open spec fn slot_after(s: CpuView, t: CpuView, i: u8) -> u8 {
    if i == 6 {
        t.read(hl(s.registers))
    } else {
        register_in_slot(t.registers, i)
    }
}

/// The bit instructions of the prefixed table (0xCB followed by a byte `n`
/// from 0x40 on; bit `(n / 8) % 8`, operand in column `n % 8`): BIT (below
/// 0x80) sets the zero flag exactly when the bit is clear, clears
/// add/subtract, sets half carry and keeps the carry and every register and
/// byte; RES (0x80-0xBF) clears the bit and SET (0xC0-0xFF) sets it, every
/// other bit of the operand, every other register and byte, and the flags
/// kept. The program counter moves past both bytes; five cycles on the byte
/// at `hl`, three otherwise.
#[verifier::spinoff_prover]
#[verifier::rlimit(30)]
pub proof fn law_prefixed_bit_ops(s: CpuView)
    requires
        s.wf(),
        s.registers.pc < 0xFFFE,
        opcode(s) == 0xCB,
        operand(s) >= 0x40,
        operand(s) >= 0x80 && operand(s) % 8 == 6 ==> holds_written_byte(s.memory, hl(s.registers)),
    ensures
        cycle_result(s) is Some,
        ({
            let n = operand(s);
            let b = (n / 8) % 8;
            let i = n % 8;
            let v = slot_value(s, i);
            let t = cycle_result(s).unwrap().0;
            let w = slot_after(s, t, i);
            &&& cycle_result(s).unwrap().1 == if i == 6 { 5int } else { 3int }
            &&& t.registers.pc == s.registers.pc + 2
            &&& t.registers.sp == s.registers.sp
            &&& n < 0x80 ==> {
                &&& flag_bit(t.registers.f, ZERO_FLAG) == !bit_set(v, b)
                &&& !flag_bit(t.registers.f, ADDSUB_FLAG)
                &&& flag_bit(t.registers.f, HALFCARRY_FLAG)
                &&& flag_bit(t.registers.f, CARRY_FLAG) == flag_bit(s.registers.f, CARRY_FLAG)
                &&& t.registers == (Registers { f: t.registers.f, pc: t.registers.pc, ..s.registers })
                &&& t.memory == s.memory
            }
            &&& n >= 0x80 ==> {
                &&& slot_written(s, t, i, w as int)
                &&& t.registers.f == s.registers.f
                &&& forall|k: u8| k < 8 ==> #[trigger] bit_set(w, k) == if k == b {
                    n >= 0xC0
                } else {
                    bit_set(v, k)
                }
            }
        }),
{
    lemma_prefixed_cycle(s);
    broadcast use crate::register::lemma_flag_after_write;
    let n = operand(s);
    let b = (n / 8) % 8;
    let i = n % 8;
    let v = slot_value(s, i);
    let r = s.registers;
    let s2 = (CpuView { unknown_opcode: None, ..s }).with_pc((r.pc + 2) as u16);
    assert(s2.get_r8(i) == v);
    alu::lemma_bit_ops(v, b, b);
    if n >= 0x80 {
        let w: u8 = if n < 0xC0 { v & !(1u8 << b) } else { v | (1u8 << b) };
        assert(cb_op(s2, n).0 == s2.set_r8(i, w));
        if i == 6 {
            lemma_write_frame_all(s, w);
        }
        assert(slot_after(s, cb_op(s2, n).0, i) == w);
        assert forall|k: u8| k < 8 implies #[trigger] bit_set(w, k) == if k == b {
            n >= 0xC0
        } else {
            bit_set(v, k)
        } by {
            alu::lemma_bit_ops(v, b, k);
        }
    }
}

/// The address the loads and stores of `a` through the high page and
/// through an absolute address use: 0xFF00 plus the byte after the opcode
/// (LDH, 0xE0 and 0xF0), 0xFF00 plus `c` (0xE2 and 0xF2), or the word
/// after the opcode (0xEA and 0xFA).
pub open spec fn direct_address(s: CpuView, op: u8) -> u16 {
    if op == 0xE0 || op == 0xF0 {
        (0xFF00 + operand(s)) as u16
    } else if op == 0xE2 || op == 0xF2 {
        (0xFF00 + s.registers.c) as u16
    } else {
        word_at(s, (s.registers.pc + 1) as u16)
    }
}

/// How far the program counter moves, and how many cycles, for the loads
/// and stores of `a` through `direct_address`.
pub open spec fn direct_length(op: u8) -> int {
    if op == 0xE0 || op == 0xF0 {
        2
    } else if op == 0xE2 || op == 0xF2 {
        1
    } else {
        3
    }
}

/// LDH (n),A (0xE0), LD (C),A (0xE2) and LD (nn),A (0xEA) store `a` at
/// `direct_address`; no other byte read from memory and no register but the
/// program counter changes. They take three, two and four cycles.
pub proof fn law_store_direct(s: CpuView)
    requires
        s.wf(),
        opcode(s) == 0xE0 || opcode(s) == 0xE2 || opcode(s) == 0xEA,
        s.registers.pc + direct_length(opcode(s)) <= 0xFFFF,
        holds_written_byte(s.memory, direct_address(s, opcode(s))),
    ensures
        cycle_result(s) is Some,
        cycle_result(s).unwrap().1 == if opcode(s) == 0xE0 { 3int } else if opcode(s) == 0xE2 { 2int } else { 4int },
        cycle_result(s).unwrap().0.read(direct_address(s, opcode(s))) == s.registers.a,
        forall|x: u16|
            x != direct_address(s, opcode(s)) ==> #[trigger] cycle_result(s).unwrap().0.read(x) == s.read(x),
        cycle_result(s).unwrap().0.registers == (Registers {
            pc: (s.registers.pc + direct_length(opcode(s))) as u16,
            ..s.registers
        }),
{
    lemma_misc(s);
    let a = s.registers.a;
    let address = direct_address(s, opcode(s));
    law_read_after_write(s.memory, address, a);
    assert forall|x: u16| x != address implies #[trigger] s.memory.write(address, a).read(x) == s.read(x) by {
        law_write_frame(s.memory, address, x, a);
    }
}

/// LDH A,(n) (0xF0), LD A,(C) (0xF2) and LD A,(nn) (0xFA) load `a` with the
/// byte at `direct_address`; memory and the other registers but the
/// program counter are kept. They take three, two and four cycles.
pub proof fn law_load_direct(s: CpuView)
    requires
        opcode(s) == 0xF0 || opcode(s) == 0xF2 || opcode(s) == 0xFA,
        s.registers.pc + direct_length(opcode(s)) <= 0xFFFF,
    ensures
        cycle_result(s) is Some,
        cycle_result(s).unwrap().1 == if opcode(s) == 0xF0 { 3int } else if opcode(s) == 0xF2 { 2int } else { 4int },
        cycle_result(s).unwrap().0.memory == s.memory,
        cycle_result(s).unwrap().0.registers == (Registers {
            a: s.read(direct_address(s, opcode(s))),
            pc: (s.registers.pc + direct_length(opcode(s))) as u16,
            ..s.registers
        }),
{
    lemma_misc(s);
}

/// NOP (0x00) does nothing; HALT (0x76) halts and STOP (0x10) stops the
/// processor; DI (0xF3) disables and EI (0xFB) enables interrupts. Each
/// takes one cycle and changes nothing else but the program counter.
pub proof fn law_control(s: CpuView)
    requires
        s.registers.pc < 0xFFFF,
        opcode(s) == 0x00 || opcode(s) == 0x76 || opcode(s) == 0x10 || opcode(s) == 0xF3 || opcode(s) == 0xFB,
    ensures
        ({
            let op = opcode(s);
            let s1 = (CpuView { unknown_opcode: None, ..s }).with_pc((s.registers.pc + 1) as u16);
            cycle_result(s) == Some((
                CpuView {
                    halted: op == 0x76 || s.halted,
                    stopped: op == 0x10 || s.stopped,
                    interrupts_enabled: if op == 0xF3 {
                        false
                    } else if op == 0xFB {
                        true
                    } else {
                        s.interrupts_enabled
                    },
                    ..s1
                },
                1u8,
            ))
        }),
{
    reveal(cycle_result);
}

/// ADD HL,rr (0x09, 0x19, 0x29, 0x39 for `bc`, `de`, `hl`, `sp`) runs
/// exactly when the sum stays within 0..=0xFFFF, and then adds the pair to
/// `hl`, clearing the add/subtract flag and keeping the zero flag, in two
/// cycles; the other registers but `f` and memory are kept.
#[verifier::spinoff_prover]
#[verifier::rlimit(30)]
pub proof fn law_add_to_hl(s: CpuView)
    requires
        s.registers.pc < 0xFFFF,
        opcode(s) < 0x40,
        opcode(s) % 16 == 9,
    ensures
        ({
            let x = pair_in_row(s.registers, (opcode(s) / 16) as int);
            let t = cycle_result(s).unwrap().0;
            &&& cycle_result(s) is Some <==> hl(s.registers) + x <= 0xFFFF
            &&& cycle_result(s) is Some ==> {
                &&& hl(t.registers) == hl(s.registers) + x
                &&& !flag_bit(t.registers.f, ADDSUB_FLAG)
                &&& flag_bit(t.registers.f, ZERO_FLAG) == flag_bit(s.registers.f, ZERO_FLAG)
                &&& t.registers == (Registers {
                    f: t.registers.f,
                    h: t.registers.h,
                    l: t.registers.l,
                    pc: (s.registers.pc + 1) as u16,
                    ..s.registers
                })
                &&& t.memory == s.memory
                &&& cycle_result(s).unwrap().1 == 2
            }
        }),
{
    lemma_misc(s);
    broadcast use crate::register::lemma_flag_after_write;
    let x = pair_in_row(s.registers, (opcode(s) / 16) as int);
    let r = s.registers;
    let r1 = r.with_flag(HALFCARRY_FLAG, 0).with_flag(CARRY_FLAG, 0);
    let r2 = r.with_flag(HALFCARRY_FLAG, 1).with_flag(CARRY_FLAG, 1);
    let r3 = r.with_flag(HALFCARRY_FLAG, 0).with_flag(CARRY_FLAG, 1);
    let r4 = r.with_flag(HALFCARRY_FLAG, 1).with_flag(CARRY_FLAG, 0);
    crate::register::law_pair_round_trip(r1, (hl(r) + x) as u16);
    crate::register::law_pair_round_trip(r2, (hl(r) + x) as u16);
    crate::register::law_pair_round_trip(r3, (hl(r) + x) as u16);
    crate::register::law_pair_round_trip(r4, (hl(r) + x) as u16);
}

/// The stack pointer instructions: LD SP,HL (0xF9) copies `hl` into `sp` in
/// two cycles; LD HL,SP+n (0xF8) loads `hl` with `sp` plus the byte after
/// the opcode, keeping the flags, in three cycles; ADD SP,n (0xE8) adds
/// that byte to `sp`, clearing the zero and add/subtract flags, in four
/// cycles. The last two run exactly when the byte can be read and the sum
/// stays within 0..=0xFFFF. Memory and the other registers are kept.
pub proof fn law_stack_pointer_arithmetic(s: CpuView)
    requires
        s.registers.pc < 0xFFFF,
        opcode(s) == 0xF9 || opcode(s) == 0xF8 || opcode(s) == 0xE8,
    ensures
        ({
            let op = opcode(s);
            let r = s.registers;
            let t = cycle_result(s).unwrap().0;
            &&& op == 0xF9 ==> cycle_result(s) == Some(((CpuView { unknown_opcode: None, ..s }).with_regs(Registers {
                sp: hl(r),
                pc: (r.pc + 1) as u16,
                ..r
            }), 2u8))
            &&& op != 0xF9 ==> (cycle_result(s) is Some <==> r.pc < 0xFFFE && r.sp + operand(s) <= 0xFFFF)
            &&& op == 0xF8 && cycle_result(s) is Some ==> {
                &&& hl(t.registers) == r.sp + operand(s)
                &&& t.registers == (Registers { h: t.registers.h, l: t.registers.l, pc: (r.pc + 2) as u16, ..r })
                &&& cycle_result(s).unwrap().1 == 3
            }
            &&& op == 0xE8 && cycle_result(s) is Some ==> {
                &&& t.registers.sp == r.sp + operand(s)
                &&& !flag_bit(t.registers.f, ZERO_FLAG)
                &&& !flag_bit(t.registers.f, ADDSUB_FLAG)
                &&& t.registers == (Registers { f: t.registers.f, sp: t.registers.sp, pc: (r.pc + 2) as u16, ..r })
                &&& cycle_result(s).unwrap().1 == 4
            }
            &&& cycle_result(s) is Some ==> t.memory == s.memory
        }),
{
    lemma_misc(s);
    broadcast use crate::register::lemma_flag_after_write;
    crate::register::law_pair_round_trip(s.registers, (s.registers.sp + operand(s)) as u16);
}

/// LD (nn),SP (0x08) writes `sp` at the word after the opcode, in five
/// cycles; it runs exactly when that word can be read and the address is
/// below 0xFFFF. The registers but the program counter are kept.
pub proof fn law_store_stack_pointer(s: CpuView)
    requires
        s.wf(),
        s.registers.pc < 0xFFFF,
        opcode(s) == 0x08,
        s.registers.pc <= 0xFFFC ==> {
            let nn = word_at(s, (s.registers.pc + 1) as u16);
            nn < 0xFFFF ==> holds_written_byte(s.memory, nn) && holds_written_byte(s.memory, (nn + 1) as u16)
        },
    ensures
        cycle_result(s) is Some <==> s.registers.pc <= 0xFFFC && word_at(s, (s.registers.pc + 1) as u16) < 0xFFFF,
        cycle_result(s) is Some ==> {
            let t = cycle_result(s).unwrap().0;
            &&& word_at(t, word_at(s, (s.registers.pc + 1) as u16)) == s.registers.sp
            &&& t.registers == (Registers { pc: (s.registers.pc + 3) as u16, ..s.registers })
            &&& cycle_result(s).unwrap().1 == 5
        },
{
    lemma_misc(s);
    if s.registers.pc <= 0xFFFC && word_at(s, (s.registers.pc + 1) as u16) < 0xFFFF {
        crate::memory::law_word_round_trip(s.memory, word_at(s, (s.registers.pc + 1) as u16), s.registers.sp);
    }
}

/// JR n (0x18) reads the offset byte after the opcode and moves the program
/// counter to the address after that byte plus the offset, in two cycles;
/// nothing else changes.
pub proof fn law_relative_jump(s: CpuView)
    requires
        opcode(s) == 0x18,
        s.registers.pc + 2 + operand(s) <= 0xFFFF,
    ensures
        cycle_result(s) == Some((
            (CpuView { unknown_opcode: None, ..s }).with_pc((s.registers.pc + 2 + operand(s)) as u16),
            2u8,
        )),
{
    reveal(cycle_result);
}

/// RET cc (0xC0, 0xC8, 0xD0, 0xD8) takes two cycles. When its condition
/// holds of the flags it pops the word at the stack pointer into the
/// program counter, moving the stack pointer up by two, and then loads the
/// program counter with the word at that address; otherwise the program
/// counter is left just after the opcode. Nothing else changes.
pub proof fn law_conditional_return(s: CpuView)
    requires
        s.registers.pc < 0xFFFF,
        opcode(s) == 0xC0 || opcode(s) == 0xC8 || opcode(s) == 0xD0 || opcode(s) == 0xD8,
        condition_holds(opcode(s), s.registers.f) ==> s.registers.sp <= 0xFFFD && word_at(s, s.registers.sp)
            <= 0xFFFD,
    ensures
        cycle_result(s) is Some,
        cycle_result(s).unwrap().1 == 2,
        cycle_result(s).unwrap().0 == if condition_holds(opcode(s), s.registers.f) {
            (CpuView { unknown_opcode: None, ..s }).with_regs(Registers {
                pc: word_at(s, word_at(s, s.registers.sp)),
                sp: (s.registers.sp + 2) as u16,
                ..s.registers
            })
        } else {
            (CpuView { unknown_opcode: None, ..s }).with_pc((s.registers.pc + 1) as u16)
        },
{
    lemma_misc(s);
}

/// Whether `op` is one of the opcodes the processor does not implement.
pub open spec fn unimplemented(op: u8) -> bool {
    op == 0xD3 || op == 0xDB || op == 0xDD || op == 0xE3 || op == 0xE4 || op == 0xEB || op == 0xEC || op == 0xED
        || op == 0xF4 || op == 0xFC || op == 0xFD
}

/// An opcode the processor does not implement is recorded in
/// `unknown_opcode`; the program counter moves past it and nothing else
/// changes, in one cycle.
pub proof fn law_unimplemented_opcode(s: CpuView)
    requires
        s.registers.pc < 0xFFFF,
        unimplemented(opcode(s)),
    ensures
        cycle_result(s) == Some((
            (CpuView { unknown_opcode: Some(opcode(s)), ..s }).with_pc((s.registers.pc + 1) as u16),
            1u8,
        )),
{
    lemma_misc(s);
}

} // verus!
