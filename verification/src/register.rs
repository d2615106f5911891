use vstd::prelude::*;

verus! {

/// Bit of the flag register that holds the zero flag.
pub const ZERO_FLAG: u8 = 7;

/// Bit of the flag register that holds the add/subtract flag.
pub const ADDSUB_FLAG: u8 = 6;

/// Bit of the flag register that holds the half-carry flag.
pub const HALFCARRY_FLAG: u8 = 5;

/// Bit of the flag register that holds the carry flag.
pub const CARRY_FLAG: u8 = 4;

/// The eight 8-bit registers of the processor together with the program
/// counter and the stack pointer.
///
/// Flag register layout: bit 7 zero, bit 6 add/subtract, bit 5 half carry,
/// bit 4 carry; bits 3-0 are not used.
pub struct Registers {
    pub a: u8,
    pub b: u8,
    pub c: u8,
    pub d: u8,
    pub e: u8,
    pub f: u8,
    pub h: u8,
    pub l: u8,
    pub pc: u16,
    pub sp: u16,
}

/// The 16-bit value whose high byte is `hi` and low byte is `lo`.
pub open spec fn pair(hi: u8, lo: u8) -> u16 {
    (hi * 256 + lo) as u16
}

/// The high byte of a 16-bit value.
pub open spec fn high(data: u16) -> u8 {
    (data / 256) as u8
}

/// The low byte of a 16-bit value.
pub open spec fn low(data: u16) -> u8 {
    (data % 256) as u8
}

/// Whether bit `bit` of the flag byte `f` is set.
pub open spec fn flag_bit(f: u8, bit: u8) -> bool {
    f & (1u8 << bit) != 0
}

/// The flag byte `f` with bit `bit` set when `value` is 1 and cleared otherwise.
pub open spec fn with_flag(f: u8, bit: u8, value: u8) -> u8 {
    if value == 1 {
        f | (1u8 << bit)
    } else {
        f & !(1u8 << bit)
    }
}

pub(crate) proof fn lemma_pair_bits(hi: u8, lo: u8)
    ensures
        ((hi as u16) << 8u16) | (lo as u16) == pair(hi, lo),
{
    assert(((hi as u16) << 8u16) | (lo as u16) == hi * 256 + lo) by (bit_vector);
}

pub(crate) proof fn lemma_split_bits(data: u16)
    ensures
        ((data & 0xFF00u16) >> 8u16) as u8 == high(data),
        (data & 0x00FFu16) as u8 == low(data),
        (data & 0x00F0u16) as u8 == low(data) & 0xF0u8,
{
    assert((data & 0x00F0u16) as u8 == ((data % 256) as u8) & 0xF0u8) by (bit_vector);
    assert(((data & 0xFF00u16) >> 8u16) as u8 == (data / 256) as u8) by (bit_vector);
    assert((data & 0x00FFu16) as u8 == (data % 256) as u8) by (bit_vector);
}

impl Registers {
    /// The registers with `a` loaded from the high byte of `data` and the
    /// flag register from its low byte, whose unused bits 3-0 stay zero.
    pub open spec fn with_af(self, data: u16) -> Registers {
        Registers { a: high(data), f: low(data) & 0xF0u8, ..self }
    }

    /// The registers with `b` and `c` loaded from the high and low byte of `data`.
    pub open spec fn with_bc(self, data: u16) -> Registers {
        Registers { b: high(data), c: low(data), ..self }
    }

    /// The registers with `d` and `e` loaded from the high and low byte of `data`.
    pub open spec fn with_de(self, data: u16) -> Registers {
        Registers { d: high(data), e: low(data), ..self }
    }

    /// The registers with `h` and `l` loaded from the high and low byte of `data`.
    pub open spec fn with_hl(self, data: u16) -> Registers {
        Registers { h: high(data), l: low(data), ..self }
    }

    /// The registers with flag bit `bit` set to `value` (set when 1, cleared otherwise).
    pub open spec fn with_flag(self, bit: u8, value: u8) -> Registers {
        Registers { f: with_flag(self.f, bit, value), ..self }
    }

    pub open spec fn spec_hl(self) -> u16 {
        pair(self.h, self.l)
    }

    pub open spec fn spec_bc(self) -> u16 {
        pair(self.b, self.c)
    }

    pub open spec fn spec_de(self) -> u16 {
        pair(self.d, self.e)
    }

    pub open spec fn spec_af(self) -> u16 {
        pair(self.a, self.f)
    }

    /// The register values after the boot program has run.
    pub open spec fn after_boot() -> Registers {
        Registers {
            a: 0x11,
            b: 0x00,
            c: 0x00,
            d: 0xFF,
            e: 0x56,
            f: 0x80,
            h: 0x00,
            l: 0x0D,
            pc: 0x0100,
            sp: 0xFFFE,
        }
    }

    pub fn new() -> (r: Registers)
        ensures
            r == Registers::after_boot(),
    {
        Registers {
            a: 0x11,
            b: 0x00,
            c: 0x00,
            d: 0xFF,
            e: 0x56,
            f: 0x80,
            h: 0x00,
            l: 0x0D,
            pc: 0x0100,
            sp: 0xFFFE,
        }
    }

    pub fn af(&self) -> (r: u16)
        ensures
            r == pair(self.a, self.f),
    {
        proof {
            lemma_pair_bits(self.a, self.f);
        }
        ((self.a as u16) << 8) | self.f as u16
    }

    pub fn set_af(&mut self, data: u16)
        ensures
            *final(self) == old(self).with_af(data),
    {
        proof {
            lemma_split_bits(data);
        }
        self.a = ((data & 0xFF00) >> 8) as u8;
        //Flag bits 3-0 are not used and always zero
        self.f = (data & 0x00F0) as u8;
    }

    pub fn bc(&self) -> (r: u16)
        ensures
            r == pair(self.b, self.c),
    {
        proof {
            lemma_pair_bits(self.b, self.c);
        }
        ((self.b as u16) << 8) | self.c as u16
    }

    pub fn set_bc(&mut self, data: u16)
        ensures
            *final(self) == old(self).with_bc(data),
    {
        proof {
            lemma_split_bits(data);
        }
        self.b = ((data & 0xFF00) >> 8) as u8;
        self.c = (data & 0x00FF) as u8;
    }

    pub fn de(&self) -> (r: u16)
        ensures
            r == pair(self.d, self.e),
    {
        proof {
            lemma_pair_bits(self.d, self.e);
        }
        ((self.d as u16) << 8) | self.e as u16
    }

    pub fn set_de(&mut self, data: u16)
        ensures
            *final(self) == old(self).with_de(data),
    {
        proof {
            lemma_split_bits(data);
        }
        self.d = ((data & 0xFF00) >> 8) as u8;
        self.e = (data & 0x00FF) as u8;
    }

    pub fn hl(&self) -> (r: u16)
        ensures
            r == pair(self.h, self.l),
    {
        proof {
            lemma_pair_bits(self.h, self.l);
        }
        ((self.h as u16) << 8) | self.l as u16
    }

    pub fn set_hl(&mut self, data: u16)
        ensures
            *final(self) == old(self).with_hl(data),
    {
        proof {
            lemma_split_bits(data);
        }
        self.h = ((data & 0xFF00) >> 8) as u8;
        self.l = (data & 0x00FF) as u8;
    }

    /// Sets the zero flag when `value` is 1 and clears it otherwise.
    pub fn set_zero(&mut self, value: u8)
        ensures
            *final(self) == old(self).with_flag(ZERO_FLAG, value),
    {
        if value == 1 {
            self.f |= 1u8 << 7;
        } else {
            self.f &= !(1u8 << 7);
        }
    }

    pub fn check_zero(&self) -> (r: bool)
        ensures
            r == flag_bit(self.f, ZERO_FLAG),
    {
        (self.f & (1u8 << 7)) != 0
    }

    /// Sets the add/subtract flag when `value` is 1 and clears it otherwise.
    pub fn set_addsub(&mut self, value: u8)
        ensures
            *final(self) == old(self).with_flag(ADDSUB_FLAG, value),
    {
        if value == 1 {
            self.f |= 1u8 << 6;
        } else {
            self.f &= !(1u8 << 6);
        }
    }

    pub fn check_addsub(&self) -> (r: bool)
        ensures
            r == flag_bit(self.f, ADDSUB_FLAG),
    {
        (self.f & (1u8 << 6)) != 0
    }

    /// Sets the half-carry flag when `value` is 1 and clears it otherwise.
    pub fn set_halfcarry(&mut self, value: u8)
        ensures
            *final(self) == old(self).with_flag(HALFCARRY_FLAG, value),
    {
        if value == 1 {
            self.f |= 1u8 << 5;
        } else {
            self.f &= !(1u8 << 5);
        }
    }

    pub fn check_halfcarry(&self) -> (r: bool)
        ensures
            r == flag_bit(self.f, HALFCARRY_FLAG),
    {
        (self.f & (1u8 << 5)) != 0
    }

    /// Sets the carry flag when `value` is 1 and clears it otherwise.
    pub fn set_carry(&mut self, value: u8)
        ensures
            *final(self) == old(self).with_flag(CARRY_FLAG, value),
    {
        if value == 1 {
            self.f |= 1u8 << 4;
        } else {
            self.f &= !(1u8 << 4);
        }
    }

    pub fn check_carry(&self) -> (r: bool)
        ensures
            r == flag_bit(self.f, CARRY_FLAG),
    {
        (self.f & (1u8 << 4)) != 0
    }
}

/// Loading a register pair and reading it back gives the loaded value,
/// except that bits 3-0 of the flag register read back as zero; the pair's
/// bytes are its high and low byte.
pub proof fn law_pair_round_trip(r: Registers, data: u16)
    ensures
        r.with_af(data).spec_af() == data & 0xFFF0u16,
        r.with_bc(data).spec_bc() == data,
        r.with_de(data).spec_de() == data,
        r.with_hl(data).spec_hl() == data,
        high(pair(r.a, r.f)) == r.a && low(pair(r.a, r.f)) == r.f,
{
    let hi = high(data);
    let lo = low(data) & 0xF0u8;
    assert(hi == data >> 8u16 && low(data) == data & 0xFFu16) by (bit_vector)
        requires hi == (data / 256) as u8, low(data) == (data % 256) as u8;
    assert(((hi as u16) << 8u16) | (lo as u16) == data & 0xFFF0u16) by (bit_vector)
        requires hi == data >> 8u16, lo == ((data & 0xFFu16) as u8) & 0xF0u8;
    lemma_pair_bits(hi, lo);
}

/// Setting a flag bit to `value` makes it read back as `value == 1`, and
/// leaves every other bit of the flag register as it was.
pub proof fn law_flag_set_then_check(f: u8, bit: u8, other: u8, value: u8)
    requires
        bit < 8,
        other < 8,
        other != bit,
    ensures
        flag_bit(with_flag(f, bit, value), bit) == (value == 1),
        flag_bit(with_flag(f, bit, value), other) == flag_bit(f, other),
{
    if value == 1 {
        assert((f | (1u8 << bit)) & (1u8 << bit) != 0) by (bit_vector)
            requires bit < 8u8;
        assert(((f | (1u8 << bit)) & (1u8 << other) != 0) == (f & (1u8 << other) != 0))
            by (bit_vector)
            requires bit < 8u8, other < 8u8, other != bit;
    } else {
        assert((f & !(1u8 << bit)) & (1u8 << bit) == 0) by (bit_vector)
            requires bit < 8u8;
        assert(((f & !(1u8 << bit)) & (1u8 << other) != 0) == (f & (1u8 << other) != 0))
            by (bit_vector)
            requires bit < 8u8, other < 8u8, other != bit;
    }
}

/// A 16-bit value is the pair of its high and low byte.
pub proof fn law_pair_split(data: u16)
    ensures
        pair(high(data), low(data)) == data,
{
}

/// Setting or clearing one of the four flags leaves bits 3-0 of the flag
/// register as they were.
pub broadcast proof fn lemma_with_flag_keeps_low_bits(f: u8, b: u8, value: u8)
    requires
        4 <= b < 8,
    ensures
        #[trigger] with_flag(f, b, value) & 0x0Fu8 == f & 0x0Fu8,
{
    assert((f | (1u8 << b)) & 0x0Fu8 == f & 0x0Fu8) by (bit_vector)
        requires 4u8 <= b < 8u8;
    assert((f & !(1u8 << b)) & 0x0Fu8 == f & 0x0Fu8) by (bit_vector)
        requires 4u8 <= b < 8u8;
}

/// The upper nibble of a byte has bits 3-0 clear.
pub broadcast proof fn lemma_upper_nibble(x: u8)
    ensures
        #[trigger] (x & 0xF0u8) & 0x0Fu8 == 0,
{
    assert((x & 0xF0u8) & 0x0Fu8 == 0) by (bit_vector);
}

/// A flag read after a flag write: the written flag reads as the value
/// written, every other flag as before.
pub broadcast proof fn lemma_flag_after_write(f: u8, b: u8, value: u8, other: u8)
    requires
        b < 8,
        other < 8,
    ensures
        #[trigger] flag_bit(with_flag(f, b, value), other) == if other == b {
            value == 1
        } else {
            flag_bit(f, other)
        },
{
    if other == b {
        law_flag_set_then_check(f, b, ((b + 1) % 8) as u8, value);
    } else {
        law_flag_set_then_check(f, b, other, value);
    }
}

} // verus!
