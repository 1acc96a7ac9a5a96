//! Wrapping 8/16-bit arithmetic and the half-carry rules shared by the
//! arithmetic instruction families.

use vstd::prelude::*;

verus! {

/// 16-bit addition that wraps around at 0x10000.
pub open spec fn wrap_add16(a: u16, b: u16) -> u16 {
    ((a + b) % 0x10000) as u16
}

/// 16-bit subtraction that wraps around below 0.
pub open spec fn wrap_sub16(a: u16, b: u16) -> u16 {
    ((a + 0x10000 - b) % 0x10000) as u16
}

/// 8-bit addition that wraps around at 0x100.
pub open spec fn wrap_add8(a: u8, b: u8) -> u8 {
    ((a + b) % 0x100) as u8
}

/// 8-bit subtraction that wraps around below 0.
pub open spec fn wrap_sub8(a: u8, b: u8) -> u8 {
    ((a + 0x100 - b) % 0x100) as u8
}

/// Half-carry of an 8-bit addition `a + b + cy`: a carry out of bit 3.
pub open spec fn hc_add(a: u8, b: u8, cy: u8) -> bool {
    (a % 16) + (b % 16) + cy > 15
}

/// Half-borrow of an 8-bit subtraction `a - b - cy`: a borrow into bit 3.
pub open spec fn hc_sub(a: u8, b: u8, cy: u8) -> bool {
    (a % 16) < (b % 16) + cy
}

/// Half-carry of a 16-bit addition: a carry out of bit 11.
pub open spec fn hc_add16(a: u16, b: u16) -> bool {
    (a % 0x1000) + (b % 0x1000) > 0xFFF
}

/// Low byte of a 16-bit value.
pub open spec fn lo_byte(v: u16) -> u8 {
    (v % 0x100) as u8
}

/// High byte of a 16-bit value.
pub open spec fn hi_byte(v: u16) -> u8 {
    (v / 0x100) as u8
}

/// The 16-bit value with high byte `hi` and low byte `lo`.
pub open spec fn word_of(hi: u8, lo: u8) -> u16 {
    (hi * 0x100 + lo) as u16
}

/// Sign-extend a byte and add it to a 16-bit value, wrapping at 16 bits.
/// This is the addressing rule of JR, ADD SP,r8 and LD HL,SP+r8.
pub open spec fn wrap_add_signed16(a: u16, off: u8) -> u16 {
    if off < 0x80 {
        wrap_add16(a, off as u16)
    } else {
        wrap_sub16(a, (0x100 - off) as u16)
    }
}

/// Whether an 8-bit addition `a + b` carries out of bit 3.
pub fn half_carry_in_add(a: u8, b: u8) -> (r: bool)
    ensures
        r == hc_add(a, b, 0),
{
    (a % 16) + (b % 16) > 15
}

/// Whether an 8-bit subtraction `a - b` borrows into bit 3.
pub fn half_carry_in_sub(a: u8, b: u8) -> (r: bool)
    ensures
        r == hc_sub(a, b, 0),
{
    (a % 16) < (b % 16)
}

} // verus!
