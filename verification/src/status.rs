//! The processor status register: six flags and two bits without a flag.

use vstd::prelude::*;
use vstd::std_specs::convert::FromSpecImpl;
use vstd::std_specs::ops::{BitAndSpecImpl, BitOrSpecImpl};

verus! {

/// The status flags of the processor, one `bool` per bit of the status byte.
///
/// `bit_4` and `bit_5` carry no flag of their own; they are kept so that a
/// status byte survives the trip through this type unchanged.
#[derive(Copy, Clone, Debug, PartialEq, Eq, Structural)]
pub struct CPUStatus {
    pub carry: bool,
    pub zero: bool,
    pub irq_disable: bool,
    pub decimal: bool,
    pub overflow: bool,
    pub negative: bool,
    pub bit_4: bool,
    pub bit_5: bool,
}

/// Whether bit 7 of `v` is set.
pub open spec fn is_negative(v: u8) -> bool {
    v & 0x80 != 0
}

/// The weight of one flag in the status byte.
pub open spec fn weight(flag: bool, w: int) -> int {
    if flag {
        w
    } else {
        0
    }
}

/// The flags that `val` stands for, bit by bit.
pub open spec fn status_of_byte(val: u8) -> CPUStatus {
    CPUStatus {
        carry: val & 0x01 != 0,
        zero: val & 0x02 != 0,
        irq_disable: val & 0x04 != 0,
        decimal: val & 0x08 != 0,
        bit_4: val & 0x10 != 0,
        bit_5: val & 0x20 != 0,
        overflow: val & 0x40 != 0,
        negative: val & 0x80 != 0,
    }
}

/// `p` with the zero and negative flags taken from `v`, the last value written.
pub open spec fn with_zn(p: CPUStatus, v: u8) -> CPUStatus {
    CPUStatus { zero: v == 0, negative: is_negative(v), ..p }
}

/// Bit 7 is set exactly in the upper half of the byte range.
pub proof fn lemma_negative_is_upper_half(v: u8)
    ensures
        is_negative(v) <==> v >= 128,
{
    assert((v & 0x80 != 0) <==> v >= 128) by (bit_vector);
}

/// The zero flag says that the last value written was 0, the negative flag
/// that its bit 7 was set; nothing else of the flags changes.
pub proof fn lemma_zero_and_negative_follow_the_value(p: CPUStatus, v: u8)
    ensures
        with_zn(p, v).zero <==> v == 0,
        with_zn(p, v).negative <==> v & 0x80 != 0,
        with_zn(p, v).negative <==> v >= 128,
        with_zn(p, v) == (CPUStatus {
            zero: with_zn(p, v).zero,
            negative: with_zn(p, v).negative,
            ..p
        }),
{
    lemma_negative_is_upper_half(v);
}

proof fn lemma_byte_of_bits(b0: bool, b1: bool, b2: bool, b3: bool, b4: bool, b5: bool, b6: bool, b7: bool, v: u8)
    requires
        v == weight(b0, 1) + weight(b1, 2) + weight(b2, 4) + weight(b3, 8) + weight(b4, 16)
            + weight(b5, 32) + weight(b6, 64) + weight(b7, 128),
    ensures
        (v & 0x01 != 0) == b0,
        (v & 0x02 != 0) == b1,
        (v & 0x04 != 0) == b2,
        (v & 0x08 != 0) == b3,
        (v & 0x10 != 0) == b4,
        (v & 0x20 != 0) == b5,
        (v & 0x40 != 0) == b6,
        (v & 0x80 != 0) == b7,
{
    let w0: u8 = if b0 { 1 } else { 0 };
    let w1: u8 = if b1 { 2 } else { 0 };
    let w2: u8 = if b2 { 4 } else { 0 };
    let w3: u8 = if b3 { 8 } else { 0 };
    let w4: u8 = if b4 { 16 } else { 0 };
    let w5: u8 = if b5 { 32 } else { 0 };
    let w6: u8 = if b6 { 64 } else { 0 };
    let w7: u8 = if b7 { 128 } else { 0 };
    assert(v == w0 + w1 + w2 + w3 + w4 + w5 + w6 + w7);
    assert({
        &&& (v & 0x01 != 0) == (w0 != 0)
        &&& (v & 0x02 != 0) == (w1 != 0)
        &&& (v & 0x04 != 0) == (w2 != 0)
        &&& (v & 0x08 != 0) == (w3 != 0)
        &&& (v & 0x10 != 0) == (w4 != 0)
        &&& (v & 0x20 != 0) == (w5 != 0)
        &&& (v & 0x40 != 0) == (w6 != 0)
        &&& (v & 0x80 != 0) == (w7 != 0)
    }) by (bit_vector)
        requires
            v == w0 + w1 + w2 + w3 + w4 + w5 + w6 + w7,
            w0 == 0 || w0 == 1,
            w1 == 0 || w1 == 2,
            w2 == 0 || w2 == 4,
            w3 == 0 || w3 == 8,
            w4 == 0 || w4 == 16,
            w5 == 0 || w5 == 32,
            w6 == 0 || w6 == 64,
            w7 == 0 || w7 == 128,
    ;
}

proof fn lemma_bits_of_byte(v: u8)
    ensures
        v == weight(v & 0x01 != 0, 1) + weight(v & 0x02 != 0, 2) + weight(v & 0x04 != 0, 4)
            + weight(v & 0x08 != 0, 8) + weight(v & 0x10 != 0, 16) + weight(v & 0x20 != 0, 32)
            + weight(v & 0x40 != 0, 64) + weight(v & 0x80 != 0, 128),
{
    assert({
        &&& v == (v & 0x01) + (v & 0x02) + (v & 0x04) + (v & 0x08) + (v & 0x10) + (v & 0x20) + (v
            & 0x40) + (v & 0x80)
        &&& (v & 0x01 == 0 || v & 0x01 == 0x01)
        &&& (v & 0x02 == 0 || v & 0x02 == 0x02)
        &&& (v & 0x04 == 0 || v & 0x04 == 0x04)
        &&& (v & 0x08 == 0 || v & 0x08 == 0x08)
        &&& (v & 0x10 == 0 || v & 0x10 == 0x10)
        &&& (v & 0x20 == 0 || v & 0x20 == 0x20)
        &&& (v & 0x40 == 0 || v & 0x40 == 0x40)
        &&& (v & 0x80 == 0 || v & 0x80 == 0x80)
    }) by (bit_vector);
}

impl CPUStatus {
    /// The status byte: carry is bit 0, zero bit 1, interrupt-disable bit 2,
    /// decimal bit 3, the two bits without a flag bits 4 and 5, overflow bit 6
    /// and negative bit 7.
    pub open spec fn bits(self) -> u8 {
        (weight(self.carry, 1) + weight(self.zero, 2) + weight(self.irq_disable, 4) + weight(
            self.decimal,
            8,
        ) + weight(self.bit_4, 16) + weight(self.bit_5, 32) + weight(self.overflow, 64) + weight(
            self.negative,
            128,
        )) as u8
    }

    /// The flags with none set.
    pub open spec fn cleared() -> CPUStatus {
        CPUStatus {
            carry: false,
            zero: false,
            irq_disable: false,
            decimal: false,
            overflow: false,
            negative: false,
            bit_4: false,
            bit_5: false,
        }
    }

    pub fn new() -> (r: CPUStatus)
        ensures
            r == CPUStatus::cleared(),
            r == status_of_byte(0),
            r.bits() == 0,
    {
        assert(0u8 & 0x01 == 0 && 0u8 & 0x02 == 0 && 0u8 & 0x04 == 0 && 0u8 & 0x08 == 0 && 0u8
            & 0x10 == 0 && 0u8 & 0x20 == 0 && 0u8 & 0x40 == 0 && 0u8 & 0x80 == 0) by (bit_vector);
        CPUStatus {
            carry: false,
            zero: false,
            irq_disable: false,
            decimal: false,
            overflow: false,
            negative: false,
            bit_4: false,
            bit_5: false,
        }
    }

    pub fn set_carry(&mut self, val: bool)
        ensures
            *final(self) == (CPUStatus { carry: val, ..*old(self) }),
    {
        self.carry = val;
    }

    pub fn set_zero(&mut self, val: bool)
        ensures
            *final(self) == (CPUStatus { zero: val, ..*old(self) }),
    {
        self.zero = val;
    }

    pub fn set_irq_disable(&mut self, val: bool)
        ensures
            *final(self) == (CPUStatus { irq_disable: val, ..*old(self) }),
    {
        self.irq_disable = val;
    }

    pub fn set_decimal(&mut self, val: bool)
        ensures
            *final(self) == (CPUStatus { decimal: val, ..*old(self) }),
    {
        self.decimal = val;
    }

    pub fn set_overflow(&mut self, val: bool)
        ensures
            *final(self) == (CPUStatus { overflow: val, ..*old(self) }),
    {
        self.overflow = val;
    }

    pub fn set_negative(&mut self, val: bool)
        ensures
            *final(self) == (CPUStatus { negative: val, ..*old(self) }),
    {
        self.negative = val;
    }

    pub fn set_bit_4(&mut self, val: bool)
        ensures
            *final(self) == (CPUStatus { bit_4: val, ..*old(self) }),
    {
        self.bit_4 = val;
    }

    pub fn set_bit_5(&mut self, val: bool)
        ensures
            *final(self) == (CPUStatus { bit_5: val, ..*old(self) }),
    {
        self.bit_5 = val;
    }

    /// Sets the zero and negative flags from `val`.
    pub fn set_zn(&mut self, val: u8)
        ensures
            *final(self) == with_zn(*old(self), val),
    {
        self.zero = val == 0;
        self.negative = (val & 0x80) != 0;
    }

    pub fn to_u8(&self) -> (val: u8)
        ensures
            val == self.bits(),
            status_of_byte(val) == *self,
    {
        let mut val: u8 = 0;
        if self.carry {
            val = val + 1;
        }
        if self.zero {
            val = val + 2;
        }
        if self.irq_disable {
            val = val + 4;
        }
        if self.decimal {
            val = val + 8;
        }
        if self.bit_4 {
            val = val + 16;
        }
        if self.bit_5 {
            val = val + 32;
        }
        if self.overflow {
            val = val + 64;
        }
        if self.negative {
            val = val + 128;
        }
        proof {
            lemma_status_round_trip(*self);
        }
        val
    }
}

/// Flags written out as a byte and read back are the same flags, the two bits
/// without a flag included.
pub proof fn lemma_status_round_trip(p: CPUStatus)
    ensures
        status_of_byte(p.bits()) == p,
{
    lemma_byte_of_bits(
        p.carry,
        p.zero,
        p.irq_disable,
        p.decimal,
        p.bit_4,
        p.bit_5,
        p.overflow,
        p.negative,
        p.bits(),
    );
}

/// A byte read as flags and written out again is the same byte.
pub proof fn lemma_byte_round_trip(val: u8)
    ensures
        status_of_byte(val).bits() == val,
{
    lemma_bits_of_byte(val);
}

impl From<u8> for CPUStatus {
    fn from(val: u8) -> (r: CPUStatus) {
        CPUStatus {
            carry: (val & 0x1) != 0,
            zero: (val & 0x2) != 0,
            irq_disable: (val & 0x4) != 0,
            decimal: (val & 0x8) != 0,
            overflow: (val & 0x40) != 0,
            negative: (val & 0x80) != 0,
            bit_4: (val & 0x10) != 0,
            bit_5: (val & 0x20) != 0,
        }
    }
}

impl FromSpecImpl<u8> for CPUStatus {
    open spec fn obeys_from_spec() -> bool {
        true
    }

    open spec fn from_spec(val: u8) -> CPUStatus {
        status_of_byte(val)
    }
}

impl core::ops::BitOr<u8> for CPUStatus {
    type Output = CPUStatus;

    fn bitor(self, val: u8) -> (r: CPUStatus) {
        CPUStatus::from(self.to_u8() | val)
    }
}

impl BitOrSpecImpl<u8> for CPUStatus {
    open spec fn obeys_bitor_spec() -> bool {
        true
    }

    open spec fn bitor_req(self, val: u8) -> bool {
        true
    }

    open spec fn bitor_spec(self, val: u8) -> CPUStatus {
        status_of_byte(self.bits() | val)
    }
}

impl core::ops::BitAnd<u8> for CPUStatus {
    type Output = CPUStatus;

    fn bitand(self, val: u8) -> (r: CPUStatus) {
        CPUStatus::from(self.to_u8() & val)
    }
}

impl BitAndSpecImpl<u8> for CPUStatus {
    open spec fn obeys_bitand_spec() -> bool {
        true
    }

    open spec fn bitand_req(self, val: u8) -> bool {
        true
    }

    open spec fn bitand_spec(self, val: u8) -> CPUStatus {
        status_of_byte(self.bits() & val)
    }
}

} // verus!
