use vstd::prelude::*;

verus! {

/// A 32-bit IEEE 754 number read from a document, held as its bit pattern
/// together with the text that its `Display` rendering gives.
#[derive(Debug)]
pub struct F32 {
    pub bits: u32,
    pub text: String,
}

impl Clone for F32 {
    fn clone(&self) -> (r: Self)
        ensures
            r == *self,
    {
        F32 { bits: self.bits, text: self.text.clone() }
    }
}

/// The bit pattern is that of a NaN: all exponent bits set and a nonzero
/// fraction, with either sign.
pub open spec fn is_nan(bits: u32) -> bool {
    bits % 0x8000_0000 > 0x7f80_0000
}

/// An integer that orders the non-NaN bit patterns as the numbers they encode
/// are ordered; both zeros map to `0`.
pub open spec fn order_key(bits: u32) -> int {
    if bits >= 0x8000_0000 {
        0 - (bits - 0x8000_0000)
    } else {
        bits as int
    }
}

/// `a < b` on the numbers the patterns encode (false when either is NaN).
pub open spec fn f32_lt(a: u32, b: u32) -> bool {
    !is_nan(a) && !is_nan(b) && order_key(a) < order_key(b)
}

/// `a <= b` on the numbers the patterns encode (false when either is NaN).
pub open spec fn f32_le(a: u32, b: u32) -> bool {
    !is_nan(a) && !is_nan(b) && order_key(a) <= order_key(b)
}

/// `a == b` on the numbers the patterns encode (false when either is NaN).
pub open spec fn f32_eq(a: u32, b: u32) -> bool {
    !is_nan(a) && !is_nan(b) && order_key(a) == order_key(b)
}

fn nan_bits(bits: u32) -> (r: bool)
    ensures
        r == is_nan(bits),
{
    bits % 0x8000_0000 > 0x7f80_0000
}

fn key_less(a: u32, b: u32) -> (r: bool)
    requires
        !is_nan(a),
        !is_nan(b),
    ensures
        r == (order_key(a) < order_key(b)),
{
    let a_neg = a >= 0x8000_0000;
    let b_neg = b >= 0x8000_0000;
    if a_neg && b_neg {
        a - 0x8000_0000 > b - 0x8000_0000
    } else if a_neg {
        !(a == 0x8000_0000 && b == 0)
    } else if b_neg {
        false
    } else {
        a < b
    }
}

fn key_equal(a: u32, b: u32) -> (r: bool)
    ensures
        r == (order_key(a) == order_key(b)),
{
    if a == b {
        true
    } else {
        (a == 0 && b == 0x8000_0000) || (a == 0x8000_0000 && b == 0)
    }
}

impl F32 {
    /// `self < other` as floating-point numbers.
    pub fn lt(&self, other: &F32) -> (r: bool)
        ensures
            r == f32_lt(self.bits, other.bits),
    {
        if nan_bits(self.bits) || nan_bits(other.bits) {
            false
        } else {
            key_less(self.bits, other.bits)
        }
    }

    /// `self <= other` as floating-point numbers.
    pub fn le(&self, other: &F32) -> (r: bool)
        ensures
            r == f32_le(self.bits, other.bits),
    {
        if nan_bits(self.bits) || nan_bits(other.bits) {
            false
        } else {
            !key_less(other.bits, self.bits)
        }
    }

    /// `self == other` as floating-point numbers.
    pub fn eq_value(&self, other: &F32) -> (r: bool)
        ensures
            r == f32_eq(self.bits, other.bits),
    {
        if nan_bits(self.bits) || nan_bits(other.bits) {
            false
        } else {
            key_equal(self.bits, other.bits)
        }
    }

    /// The number `0.0`.
    pub fn zero() -> (r: F32)
        ensures
            r.bits == 0,
            r.text@ == "0"@,
    {
        F32 { bits: 0, text: String::from_str("0") }
    }

    /// The number `1.0`.
    pub fn one() -> (r: F32)
        ensures
            r.bits == 0x3f80_0000,
            r.text@ == "1"@,
    {
        F32 { bits: 0x3f80_0000, text: String::from_str("1") }
    }

    /// The number `-1.0`.
    pub fn minus_one() -> (r: F32)
        ensures
            r.bits == 0xbf80_0000,
            r.text@ == "-1"@,
    {
        F32 { bits: 0xbf80_0000, text: String::from_str("-1") }
    }

    /// The number `0.5`.
    pub fn half() -> (r: F32)
        ensures
            r.bits == 0x3f00_0000,
            r.text@ == "0.5"@,
    {
        F32 { bits: 0x3f00_0000, text: String::from_str("0.5") }
    }
}

} // verus!
