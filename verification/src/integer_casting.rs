//! Reading a byte as a signed displacement.

use vstd::prelude::*;

verus! {

/// The 16-bit two's-complement form of the signed number that the byte `v`
/// stands for: `v` itself up to 127, and `v - 256` (modulo 65536) from 128 on.
pub open spec fn sign_extend(v: u8) -> u16 {
    if v >= 128 {
        (v + 0xFF00) as u16
    } else {
        v as u16
    }
}

/// The signed number that the byte `v` stands for.
pub open spec fn signed_value(v: u8) -> int {
    if v >= 128 {
        v - 256
    } else {
        v as int
    }
}

pub trait CastWithNegation {
    spec fn cast_with_neg_spec(&self) -> u16;

    /// Widens to sixteen bits, keeping the sign.
    fn cast_with_neg(&self) -> (r: u16)
        ensures
            r == self.cast_with_neg_spec(),
    ;
}

impl CastWithNegation for u8 {
    open spec fn cast_with_neg_spec(&self) -> u16 {
        sign_extend(*self)
    }

    fn cast_with_neg(&self) -> (r: u16) {
        let v: u8 = *self;
        if v >= 0x80 {
            0xFF00u16 + (v as u16)
        } else {
            v as u16
        }
    }
}

/// Adding the widened byte to a 16-bit counter, wrapping, moves the counter by
/// the signed number that the byte stands for.
pub proof fn lemma_sign_extend_moves(base: u16, v: u8)
    ensures
        ((base + sign_extend(v)) % 0x10000) as int == (base + signed_value(v)) % 0x10000,
{
}

} // verus!
