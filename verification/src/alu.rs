//! What the arithmetic, logic, rotate and shift operations do to the
//! registers. Each function gives the registers after the operation (and,
//! for operations on an operand, the operand's new value); the `_ok`
//! functions say when the operation's integer arithmetic stays in range.
use vstd::prelude::*;
use crate::register::{Registers, with_flag, flag_bit, ZERO_FLAG, ADDSUB_FLAG, HALFCARRY_FLAG, CARRY_FLAG};

verus! {

/// 1 when `b` holds, 0 otherwise.
pub open spec fn bit(b: bool) -> u8 {
    if b {
        1u8
    } else {
        0u8
    }
}

/// The carry flag as 0 or 1.
pub open spec fn carry_in(r: Registers) -> u8 {
    bit(flag_bit(r.f, CARRY_FLAG))
}

/// Registers `r` with the zero, add/subtract, half-carry and carry flags
/// given in that order of assignment.
pub open spec fn set_znhc(r: Registers, z: u8, n: u8, h: u8, c: u8) -> Registers {
    r.with_flag(ZERO_FLAG, z).with_flag(ADDSUB_FLAG, n).with_flag(HALFCARRY_FLAG, h).with_flag(CARRY_FLAG, c)
}

/// Half carry out of bit 3 of `x + y`.
pub open spec fn half_carry_add(x: u8, y: u8) -> bool {
    ((x & 0x0Fu8) + (y & 0x0Fu8)) as u8 & 0x10u8 == 0x10u8
}

pub open spec fn add8_ok(r: Registers, data: u8) -> bool {
    r.a + data <= 0xFF
}

/// ADD: `a + data` into `a`; half carry, carry, zero, add/subtract cleared.
pub open spec fn add8(r: Registers, data: u8) -> Registers {
    let a = (r.a + data) as u8;
    Registers { a, ..r }.with_flag(HALFCARRY_FLAG, bit(half_carry_add(r.a, data))).with_flag(
        CARRY_FLAG,
        bit(data + r.a > 0xFF),
    ).with_flag(ZERO_FLAG, bit(a == 0)).with_flag(ADDSUB_FLAG, 0)
}

/// With the carry flag set, ADC first adds one to `a` when `a < data`, and
/// to `data` otherwise; the rest is ADD.
pub open spec fn adc_operands(r: Registers, data: u8) -> (u8, u8) {
    if flag_bit(r.f, CARRY_FLAG) {
        if r.a < data {
            ((r.a + 1) as u8, data)
        } else {
            (r.a, (data + 1) as u8)
        }
    } else {
        (r.a, data)
    }
}

pub open spec fn add8_carry_ok(r: Registers, data: u8) -> bool {
    let (a, d) = adc_operands(r, data);
    &&& (flag_bit(r.f, CARRY_FLAG) && r.a >= data) ==> data < 0xFF
    &&& a + d <= 0xFF
}

pub open spec fn add8_carry(r: Registers, data: u8) -> Registers {
    let (a, d) = adc_operands(r, data);
    add8(Registers { a, ..r }, d)
}

pub open spec fn sub8_ok(r: Registers, data: u8) -> bool {
    data <= r.a
}

/// SUB: `a - data` into `a`; half carry, carry, zero, add/subtract set.
pub open spec fn sub8(r: Registers, data: u8) -> Registers {
    let a = (r.a - data) as u8;
    Registers { a, ..r }.with_flag(HALFCARRY_FLAG, bit(data & 0x0Fu8 > r.a & 0x0Fu8)).with_flag(
        CARRY_FLAG,
        bit(data & 0xFFu8 > r.a & 0xFFu8),
    ).with_flag(ZERO_FLAG, bit(a == 0)).with_flag(ADDSUB_FLAG, 1)
}

/// With the carry flag set, SBC first takes one from `a` when `a > data`,
/// and from `data` otherwise; the rest is SUB.
pub open spec fn sbc_operands(r: Registers, data: u8) -> (u8, u8) {
    if flag_bit(r.f, CARRY_FLAG) {
        if r.a > data {
            ((r.a - 1) as u8, data)
        } else {
            (r.a, (data - 1) as u8)
        }
    } else {
        (r.a, data)
    }
}

/// The operand adjustment and the subtraction stay in range: without the
/// carry `data <= a`; with it `a > data`, or `data >= 1` and `data - 1 <= a`.
pub open spec fn sub8_carry_ok(r: Registers, data: u8) -> bool {
    if flag_bit(r.f, CARRY_FLAG) {
        r.a > data || (data >= 1 && data - 1 <= r.a)
    } else {
        data <= r.a
    }
}

/// SBC: SUB on the adjusted operands (see `sbc_operands`).
pub open spec fn sub8_carry(r: Registers, data: u8) -> Registers {
    let (a, d) = sbc_operands(r, data);
    sub8(Registers { a, ..r }, d)
}

/// AND into `a`: zero from the result, add/subtract and carry cleared, half carry set.
pub open spec fn and(r: Registers, data: u8) -> Registers {
    let a = r.a & data;
    Registers { a, ..r }.with_flag(ZERO_FLAG, bit(a == 0)).with_flag(ADDSUB_FLAG, 0).with_flag(
        CARRY_FLAG,
        0,
    ).with_flag(HALFCARRY_FLAG, 1)
}

/// OR into `a`: zero from the result, the other flags cleared.
pub open spec fn or(r: Registers, data: u8) -> Registers {
    let a = r.a | data;
    set_znhc(Registers { a, ..r }, bit(a == 0), 0, 0, 0)
}

/// XOR into `a`: zero from the result, the other flags cleared.
pub open spec fn xor(r: Registers, data: u8) -> Registers {
    let a = r.a ^ data;
    set_znhc(Registers { a, ..r }, bit(a == 0), 0, 0, 0)
}

pub open spec fn cmp_ok(r: Registers, data: u8) -> bool {
    data <= r.a
}

/// CP: the zero flag tells whether `a == data`; nothing else changes.
pub open spec fn cmp(r: Registers, data: u8) -> Registers {
    r.with_flag(ZERO_FLAG, bit(r.a - data == 0))
}

pub open spec fn inc_ok(data: u8) -> bool {
    data < 0xFF
}

/// INC: the operand plus one; half carry, zero, add/subtract cleared.
pub open spec fn inc(r: Registers, data: u8) -> (Registers, u8) {
    let v = (data + 1) as u8;
    (
        r.with_flag(HALFCARRY_FLAG, bit(half_carry_add(data, 1))).with_flag(ZERO_FLAG, bit(v == 0)).with_flag(
            ADDSUB_FLAG,
            0,
        ),
        v,
    )
}

pub open spec fn dec_ok(data: u8) -> bool {
    data > 0
}

/// DEC: the operand minus one; half carry (low nibble was 0), zero, add/subtract set.
pub open spec fn dec(r: Registers, data: u8) -> (Registers, u8) {
    let v = (data - 1) as u8;
    (
        r.with_flag(HALFCARRY_FLAG, bit(data & 0x0Fu8 == 0)).with_flag(ZERO_FLAG, bit(v == 0)).with_flag(
            ADDSUB_FLAG,
            1,
        ),
        v,
    )
}

pub open spec fn add_hl_ok(r: Registers, data: u16) -> bool {
    r.spec_hl() + data <= 0xFFFF
}

/// ADD HL: `hl + data` into `hl`; half carry out of bit 7, carry from
/// `data + a`, add/subtract cleared.
pub open spec fn add_hl(r: Registers, data: u16) -> Registers {
    let hc = ((r.spec_hl() & 0xF0u16) + (data & 0xF0u16)) as u16 & 0x100u16 == 0x100u16;
    let r1 = r.with_flag(HALFCARRY_FLAG, bit(hc)).with_flag(CARRY_FLAG, bit(data + r.a > 0xFFFF));
    r1.with_hl((r.spec_hl() + data) as u16).with_flag(ADDSUB_FLAG, 0)
}

pub open spec fn add_sp_ok(r: Registers, data: u16) -> bool {
    r.sp + data <= 0xFFFF
}

/// ADD SP: `sp + data` into `sp`; half carry out of bit 7, carry, zero and
/// add/subtract cleared.
pub open spec fn add_sp(r: Registers, data: u16) -> Registers {
    let hc = ((r.sp & 0xF0u16) + (data & 0xF0u16)) as u16 & 0x100u16 == 0x100u16;
    let r1 = r.with_flag(HALFCARRY_FLAG, bit(hc)).with_flag(CARRY_FLAG, bit(data + r.sp > 0xFFFF));
    Registers { sp: (r.sp + data) as u16, ..r1 }.with_flag(ZERO_FLAG, 0).with_flag(ADDSUB_FLAG, 0)
}

/// The flags after a rotate of `a`: zero cleared, carry given, half carry
/// and add/subtract cleared.
pub open spec fn rotate_a_flags(r: Registers, new_carry: u8) -> Registers {
    r.with_flag(ZERO_FLAG, 0).with_flag(CARRY_FLAG, new_carry).with_flag(HALFCARRY_FLAG, 0).with_flag(ADDSUB_FLAG, 0)
}

/// RRCA: `a` rotated right, bit 0 into bit 7 and into the carry.
pub open spec fn rrca(r: Registers) -> Registers {
    let a = (r.a >> 1u8) | (r.a << 7u8);
    rotate_a_flags(Registers { a, ..r }, r.a & 1u8)
}

/// RRA: `a` rotated right through the carry: the old carry into bit 7, bit 0
/// into the carry.
pub open spec fn rra(r: Registers) -> Registers {
    let a = (r.a >> 1u8) | (carry_in(r) << 7u8);
    rotate_a_flags(Registers { a, ..r }, r.a & 1u8)
}

/// RLCA: `a` rotated left, bit 7 into bit 0 and into the carry.
pub open spec fn rlca(r: Registers) -> Registers {
    let a = (r.a << 1u8) | (r.a >> 7u8);
    rotate_a_flags(Registers { a, ..r }, r.a >> 7u8)
}

/// RLA: `a` rotated left through the carry: the old carry into bit 0, bit 7
/// into the carry.
pub open spec fn rla(r: Registers) -> Registers {
    let a = (r.a << 1u8) | carry_in(r);
    rotate_a_flags(Registers { a, ..r }, r.a >> 7u8)
}

/// The flags after a rotate or shift of an operand: zero from the result,
/// carry given, half carry and add/subtract cleared.
pub open spec fn shift_flags(r: Registers, result: u8, new_carry: u8) -> Registers {
    r.with_flag(ZERO_FLAG, bit(result == 0)).with_flag(CARRY_FLAG, new_carry).with_flag(HALFCARRY_FLAG, 0).with_flag(
        ADDSUB_FLAG,
        0,
    )
}

/// RLC: the operand rotated left, bit 7 into bit 0 and into the carry.
pub open spec fn rlc(r: Registers, data: u8) -> (Registers, u8) {
    let v = (data << 1u8) | (data >> 7u8);
    (shift_flags(r, v, data >> 7u8), v)
}

/// RL: the operand rotated left through the carry: the old carry into bit
/// 0, bit 7 into the carry.
pub open spec fn rl(r: Registers, data: u8) -> (Registers, u8) {
    let v = (data << 1u8) | carry_in(r);
    (shift_flags(r, v, data >> 7u8), v)
}

/// RRC: the operand rotated right, bit 0 into bit 7 and into the carry.
pub open spec fn rrc(r: Registers, data: u8) -> (Registers, u8) {
    let v = (data >> 1u8) | (data << 7u8);
    (shift_flags(r, v, data & 1u8), v)
}

/// RR: the operand rotated right through the carry: the old carry into bit
/// 7, bit 0 into the carry.
pub open spec fn rr(r: Registers, data: u8) -> (Registers, u8) {
    let v = (data >> 1u8) | (carry_in(r) << 7u8);
    (shift_flags(r, v, data & 1u8), v)
}

/// SCF: carry set, half carry and add/subtract cleared.
pub open spec fn scf(r: Registers) -> Registers {
    r.with_flag(CARRY_FLAG, 1).with_flag(HALFCARRY_FLAG, 0).with_flag(ADDSUB_FLAG, 0)
}

/// CCF: carry complemented, half carry and add/subtract cleared.
pub open spec fn ccf(r: Registers) -> Registers {
    r.with_flag(CARRY_FLAG, bit(!flag_bit(r.f, CARRY_FLAG))).with_flag(HALFCARRY_FLAG, 0).with_flag(ADDSUB_FLAG, 0)
}

/// CPL: `a` complemented, half carry and add/subtract set.
pub open spec fn cpl(r: Registers) -> Registers {
    Registers { a: !r.a, ..r }.with_flag(HALFCARRY_FLAG, 1).with_flag(ADDSUB_FLAG, 1)
}

/// SWAP: the two nibbles of the operand exchanged; zero from the result,
/// the other flags cleared.
pub open spec fn swap(r: Registers, data: u8) -> (Registers, u8) {
    let v = ((data & 0x0Fu8) << 4u8) | ((data & 0xF0u8) >> 4u8);
    (
        r.with_flag(ZERO_FLAG, bit(v == 0)).with_flag(ADDSUB_FLAG, 0).with_flag(CARRY_FLAG, 0).with_flag(
            HALFCARRY_FLAG,
            0,
        ),
        v,
    )
}

/// The flags after a shift of an operand: zero from the result, carry
/// given, add/subtract and half carry cleared.
pub open spec fn shift_out_flags(r: Registers, result: u8, new_carry: u8) -> Registers {
    r.with_flag(ZERO_FLAG, bit(result == 0)).with_flag(CARRY_FLAG, new_carry).with_flag(ADDSUB_FLAG, 0).with_flag(
        HALFCARRY_FLAG,
        0,
    )
}

/// SLA: the operand shifted left, bit 7 into the carry, bit 0 cleared.
pub open spec fn sla(r: Registers, data: u8) -> (Registers, u8) {
    let new_carry = (data & (1u8 << 7u8)) >> 7u8;
    let v = data << 1u8;
    (shift_out_flags(r, v, new_carry), v)
}

/// SRA: the operand shifted right with bit 7 kept, bit 0 into the carry.
pub open spec fn sra(r: Registers, data: u8) -> (Registers, u8) {
    let v = (data >> 1u8) | (data & 0x80u8);
    (shift_out_flags(r, v, data & 1u8), v)
}

/// SRL: the operand shifted right, bit 0 into the carry, bit 7 cleared.
pub open spec fn srl(r: Registers, data: u8) -> (Registers, u8) {
    let new_carry = data & 1u8;
    let v = data >> 1u8;
    (shift_out_flags(r, v, new_carry), v)
}

/// BIT: the zero flag tells whether bit `b` of the operand is clear;
/// add/subtract cleared, half carry set.
pub open spec fn check_bit(r: Registers, data: u8, b: u8) -> Registers {
    r.with_flag(ZERO_FLAG, bit(data & (1u8 << b) == 0)).with_flag(ADDSUB_FLAG, 0).with_flag(HALFCARRY_FLAG, 1)
}

/// Swapping the nibbles twice gives the operand back.
pub proof fn law_swap_twice(r: Registers, v: u8)
    ensures
        swap(swap(r, v).0, swap(r, v).1).1 == v,
{
    let w = swap(r, v).1;
    assert(((((v & 0x0Fu8) << 4u8) | ((v & 0xF0u8) >> 4u8)) & 0x0Fu8) << 4u8 | (((((v & 0x0Fu8) << 4u8)
        | ((v & 0xF0u8) >> 4u8)) & 0xF0u8) >> 4u8) == v) by (bit_vector);
}

/// Complementing `a` twice gives it back.
pub proof fn law_cpl_twice(r: Registers)
    ensures
        cpl(cpl(r)).a == r.a,
{
    let a = r.a;
    assert(!(!a) == a) by (bit_vector);
}

/// Complementing the carry flag twice gives it back.
pub proof fn law_ccf_twice(r: Registers)
    ensures
        flag_bit(ccf(ccf(r)).f, CARRY_FLAG) == flag_bit(r.f, CARRY_FLAG),
{
    let r1 = ccf(r);
    crate::register::law_flag_set_then_check(r.f, CARRY_FLAG, HALFCARRY_FLAG, bit(!flag_bit(r.f, CARRY_FLAG)));
    let f1 = with_flag(r.f, CARRY_FLAG, bit(!flag_bit(r.f, CARRY_FLAG)));
    crate::register::law_flag_set_then_check(f1, HALFCARRY_FLAG, CARRY_FLAG, 0);
    let f2 = with_flag(f1, HALFCARRY_FLAG, 0);
    crate::register::law_flag_set_then_check(f2, ADDSUB_FLAG, CARRY_FLAG, 0);
    let f3 = r1.f;
    crate::register::law_flag_set_then_check(f3, CARRY_FLAG, HALFCARRY_FLAG, bit(!flag_bit(f3, CARRY_FLAG)));
    let g1 = with_flag(f3, CARRY_FLAG, bit(!flag_bit(f3, CARRY_FLAG)));
    crate::register::law_flag_set_then_check(g1, HALFCARRY_FLAG, CARRY_FLAG, 0);
    let g2 = with_flag(g1, HALFCARRY_FLAG, 0);
    crate::register::law_flag_set_then_check(g2, ADDSUB_FLAG, CARRY_FLAG, 0);
}

/// XOR of `a` with itself clears `a` and sets the zero flag.
pub proof fn law_xor_self(r: Registers)
    ensures
        xor(r, r.a).a == 0,
        flag_bit(xor(r, r.a).f, ZERO_FLAG),
{
    let a = r.a;
    assert(a ^ a == 0) by (bit_vector);
    let f1 = with_flag(r.f, ZERO_FLAG, 1);
    crate::register::law_flag_set_then_check(r.f, ZERO_FLAG, ADDSUB_FLAG, 1);
    crate::register::law_flag_set_then_check(f1, ADDSUB_FLAG, ZERO_FLAG, 0);
    let f2 = with_flag(f1, ADDSUB_FLAG, 0);
    crate::register::law_flag_set_then_check(f2, HALFCARRY_FLAG, ZERO_FLAG, 0);
    let f3 = with_flag(f2, HALFCARRY_FLAG, 0);
    crate::register::law_flag_set_then_check(f3, CARRY_FLAG, ZERO_FLAG, 0);
}

/// Decrementing an incremented operand gives it back.
pub proof fn law_inc_then_dec(r: Registers, v: u8)
    requires
        inc_ok(v),
    ensures
        dec_ok(inc(r, v).1),
        dec(inc(r, v).0, inc(r, v).1).1 == v,
{
}

/// Setting or clearing a flag leaves the unused low four bits of the flag
/// register as they were.
pub proof fn law_flags_keep_low_bits(f: u8, b: u8, value: u8)
    requires
        4 <= b < 8,
    ensures
        with_flag(f, b, value) & 0x0Fu8 == f & 0x0Fu8,
{
    assert((f | (1u8 << b)) & 0x0Fu8 == f & 0x0Fu8) by (bit_vector)
        requires 4u8 <= b < 8u8;
    assert((f & !(1u8 << b)) & 0x0Fu8 == f & 0x0Fu8) by (bit_vector)
        requires 4u8 <= b < 8u8;
}

/// A bit test sets the zero flag exactly when the tested bit is clear.
pub proof fn law_check_bit_zero(r: Registers, v: u8, b: u8)
    requires
        b < 8,
    ensures
        flag_bit(check_bit(r, v, b).f, ZERO_FLAG) == (v & (1u8 << b) == 0),
{
    let f1 = with_flag(r.f, ZERO_FLAG, bit(v & (1u8 << b) == 0));
    crate::register::law_flag_set_then_check(r.f, ZERO_FLAG, ADDSUB_FLAG, bit(v & (1u8 << b) == 0));
    crate::register::law_flag_set_then_check(f1, ADDSUB_FLAG, ZERO_FLAG, 0);
    let f2 = with_flag(f1, ADDSUB_FLAG, 0);
    crate::register::law_flag_set_then_check(f2, HALFCARRY_FLAG, ZERO_FLAG, 1);
}

/// Bitwise facts about OR, AND and XOR, the nibble carries and the
/// comparisons the flags are computed from, as arithmetic on byte values.
pub(crate) proof fn lemma_byte_facts(a: u8, v: u8)
    by (bit_vector)
    ensures
        (a | v) & a == a,
        (a | v) & v == v,
        (a | v) & !a & !v == 0,
        ((a | v) == 0) == (a == 0 && v == 0),
        (((a & 0x0Fu8) + (v & 0x0Fu8)) as u8 & 0x10u8 == 0x10u8) == (a % 16 + v % 16 >= 16),
        (v & 0x0Fu8 > a & 0x0Fu8) == (v % 16 > a % 16),
        (v & 0xFFu8 > a & 0xFFu8) == (v > a),
        (a & 0x0Fu8 == 0) == (a % 16 == 0),
{
}

/// The rotates and shifts as arithmetic on a byte value, with carry `c`.
pub(crate) proof fn lemma_shift_values(v: u8, c: u8)
    by (bit_vector)
    requires
        c <= 1,
    ensures
        ((v << 1u8) | (v >> 7u8)) / 2 == v % 128,
        ((v << 1u8) | (v >> 7u8)) % 2 == v / 128,
        ((v >> 1u8) | (v << 7u8)) % 128 == v / 2,
        ((v >> 1u8) | (v << 7u8)) / 128 == v % 2,
        ((v << 1u8) | c) / 2 == v % 128,
        ((v << 1u8) | c) % 2 == c,
        ((v >> 1u8) | (c << 7u8)) % 128 == v / 2,
        ((v >> 1u8) | (c << 7u8)) / 128 == c,
        (v << 1u8) / 2 == v % 128,
        (v << 1u8) % 2 == 0,
        ((v >> 1u8) | (v & 0x80u8)) % 128 == v / 2,
        ((v >> 1u8) | (v & 0x80u8)) / 128 == v / 128,
        (((v & 0x0Fu8) << 4u8) | ((v & 0xF0u8) >> 4u8)) / 16 == v % 16,
        (((v & 0x0Fu8) << 4u8) | ((v & 0xF0u8) >> 4u8)) % 16 == v / 16,
        v >> 1u8 == v / 2,
        v >> 7u8 == v / 128,
        v & 1u8 == v % 2,
        (v & (1u8 << 7u8)) >> 7u8 == v / 128,
{
}

/// The complement of a byte as arithmetic.
pub(crate) proof fn lemma_complement(a: u8)
    by (bit_vector)
    ensures
        (!a) as int == 255 - a,
{
}

/// Bit `k` of a byte after bit `b` is cleared or set, and the test of bit `b`.
pub(crate) proof fn lemma_bit_ops(v: u8, b: u8, k: u8)
    by (bit_vector)
    requires
        b < 8,
        k < 8,
    ensures
        k == b ==> ((v & !(1u8 << b)) >> k) % 2 == 0,
        k != b ==> ((v & !(1u8 << b)) >> k) % 2 == (v >> k) % 2,
        k == b ==> ((v | (1u8 << b)) >> k) % 2 == 1,
        k != b ==> ((v | (1u8 << b)) >> k) % 2 == (v >> k) % 2,
        (v & (1u8 << b) == 0) == ((v >> b) % 2 == 0),
{
}

/// OR sets in `a` exactly the bits set in `a` or in the operand: each of
/// them is set in the result and no other is; the zero flag is set only
/// when both were zero, and the other flags are cleared.
pub proof fn law_or_bits(r: Registers, v: u8)
    ensures
        or(r, v).a & r.a == r.a,
        or(r, v).a & v == v,
        or(r, v).a & !r.a & !v == 0,
        flag_bit(or(r, v).f, ZERO_FLAG) == (r.a == 0 && v == 0),
        !flag_bit(or(r, v).f, ADDSUB_FLAG),
        !flag_bit(or(r, v).f, HALFCARRY_FLAG),
        !flag_bit(or(r, v).f, CARRY_FLAG),
{
    broadcast use crate::register::lemma_flag_after_write;
    lemma_byte_facts(r.a, v);
}

/// The rotates and shifts as arithmetic on the operand's value `v`, with
/// `c` the carry flag as 0 or 1: the value each gives, the bit it moves
/// into the carry, and the zero flag set exactly when the value is zero.
pub proof fn law_shift_arithmetic(r: Registers, v: u8)
    ensures
        ({
            let c: int = if flag_bit(r.f, CARRY_FLAG) { 1 } else { 0 };
            &&& rlc(r, v).1 == (v * 2) % 256 + v / 128
            &&& rrc(r, v).1 == v / 2 + (v % 2) * 128
            &&& rl(r, v).1 == (v * 2) % 256 + c
            &&& rr(r, v).1 == v / 2 + c * 128
            &&& sla(r, v).1 == (v * 2) % 256
            &&& sla(r, v).1 % 2 == 0
            &&& sra(r, v).1 == v / 2 + (v / 128) * 128
            &&& swap(r, v).1 == (v % 16) * 16 + v / 16
            &&& srl(r, v).1 == v / 2
        }),
        flag_bit(rlc(r, v).0.f, CARRY_FLAG) == (v >= 128),
        flag_bit(rrc(r, v).0.f, CARRY_FLAG) == (v % 2 == 1),
        flag_bit(rl(r, v).0.f, CARRY_FLAG) == (v >= 128),
        flag_bit(rr(r, v).0.f, CARRY_FLAG) == (v % 2 == 1),
        flag_bit(sla(r, v).0.f, CARRY_FLAG) == (v >= 128),
        flag_bit(sra(r, v).0.f, CARRY_FLAG) == (v % 2 == 1),
        !flag_bit(swap(r, v).0.f, CARRY_FLAG),
        flag_bit(srl(r, v).0.f, CARRY_FLAG) == (v % 2 == 1),
        flag_bit(rlc(r, v).0.f, ZERO_FLAG) == (rlc(r, v).1 == 0),
        flag_bit(rrc(r, v).0.f, ZERO_FLAG) == (rrc(r, v).1 == 0),
        flag_bit(rl(r, v).0.f, ZERO_FLAG) == (rl(r, v).1 == 0),
        flag_bit(rr(r, v).0.f, ZERO_FLAG) == (rr(r, v).1 == 0),
        flag_bit(sla(r, v).0.f, ZERO_FLAG) == (sla(r, v).1 == 0),
        flag_bit(sra(r, v).0.f, ZERO_FLAG) == (sra(r, v).1 == 0),
        flag_bit(swap(r, v).0.f, ZERO_FLAG) == (swap(r, v).1 == 0),
        flag_bit(srl(r, v).0.f, ZERO_FLAG) == (srl(r, v).1 == 0),
{
    broadcast use crate::register::lemma_flag_after_write;
    lemma_shift_values(v, carry_in(r));
}

} // verus!
