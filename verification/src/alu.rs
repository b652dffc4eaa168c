//! The adder/subtractor that sits between the accumulator and the B register.

use vstd::prelude::*;

verus! {

/// The eight-bit result of the adder: `a + b` or `a - b`, modulo 256.
pub open spec fn alu_sum(a: u8, b: u8, subtract: bool) -> u8 {
    if subtract {
        ((a - b) % 256) as u8
    } else {
        ((a + b) % 256) as u8
    }
}

/// The carry of the adder: the addition leaves eight bits, or the
/// subtraction borrows.
pub open spec fn alu_carry(a: u8, b: u8, subtract: bool) -> bool {
    if subtract {
        a < b
    } else {
        a + b >= 256
    }
}

/// Adds `b` to `a`, or subtracts it, in eight bits; reports the result and
/// whether the operation carried out of (or borrowed into) the byte.
pub fn alu(a: u8, b: u8, subtract: bool) -> (result: (u8, bool))
    ensures
        result.0 == alu_sum(a, b, subtract),
        result.1 == alu_carry(a, b, subtract),
{
    if subtract {
        if a < b {
            let gap: u8 = b - a;
            ((255 - gap) + 1, true)
        } else {
            (a - b, false)
        }
    } else {
        let room: u8 = 255 - a;
        if b > room {
            (b - room - 1, true)
        } else {
            (a + b, false)
        }
    }
}

} // verus!
